//! The overlay with a list to pick from.

use vstd::prelude::*;

use crate::keymap::Action;
use crate::keys::{Key, KeyEvent};

verus! {

/// What a destination is picked for.
#[derive(Debug, Clone, Copy, PartialEq, Eq, Structural)]
pub enum DestPurpose {
    /// A new endpoint.
    CreateEndpoint,
    /// A new collection.
    CreateCollection,
    /// An endpoint that moves.
    MoveEndpoint,
    /// An endpoint that is copied.
    CopyEndpoint,
    /// A collection that moves.
    MoveCollection,
    /// A collection that is copied.
    CopyCollection,
}

/// What stands behind the items of a list, item by item.
#[derive(Debug)]
pub enum Choices {
    /// The files of endpoints.
    Endpoints(Vec<String>),
    /// Actions.
    Actions(Vec<Action>),
    /// Profiles, with none for no profile.
    Profiles(Vec<Option<String>>),
    /// The roots of workspaces.
    Workspaces(Vec<String>),
    /// The files of sequences.
    Sequences {
        /// The files.
        files: Vec<String>,
        /// Whether the pick runs, in place of being edited.
        run: bool,
    },
    /// The kinds of authorisation, by their number.
    AuthKinds,
    /// The kinds of bodies, by their number.
    BodyTypes,
    /// Directories.
    Destinations {
        /// The directories.
        dirs: Vec<String>,
        /// What one is picked for.
        purpose: DestPurpose,
        /// What moves or is copied.
        source: Option<String>,
    },
}

/// A list to pick from.
#[derive(Debug)]
pub struct Picker {
    /// What is shown of each item.
    pub items: Vec<String>,
    /// What was typed to narrow the list.
    pub query: String,
    /// The items that match, by their number, the best first.
    pub shown: Vec<usize>,
    /// The item that is picked, counted in what is shown.
    pub selected: usize,
    /// What stands behind the items.
    pub choices: Choices,
}

/// What a key does to the list.
#[derive(Debug, Clone, Copy, PartialEq, Eq, Structural)]
pub enum PickerKey {
    /// The list closes.
    Close,
    /// The item is picked.
    Accept,
    /// The pick moves up.
    Up,
    /// The pick moves down.
    Down,
    /// The last character that was typed goes.
    Backspace,
    /// A character is typed.
    Type(char),
    /// Nothing.
    Ignored,
}

/// What a key does to the list.
pub open spec fn spec_picker_key(key: KeyEvent) -> PickerKey {
    let ctrl = key.modifiers.control;
    match key.code {
        Key::Esc => PickerKey::Close,
        Key::Enter => PickerKey::Accept,
        Key::Up => PickerKey::Up,
        Key::Down => PickerKey::Down,
        Key::Backspace => PickerKey::Backspace,
        Key::Char(c) => if ctrl {
            if c == 'p' || c == 'k' {
                PickerKey::Up
            } else if c == 'n' || c == 'j' {
                PickerKey::Down
            } else {
                PickerKey::Ignored
            }
        } else {
            PickerKey::Type(c)
        },
        _ => PickerKey::Ignored,
    }
}

/// What a key does to the list.
pub fn picker_key(key: KeyEvent) -> (r: PickerKey)
    ensures
        r == spec_picker_key(key),
{
    let ctrl = key.modifiers.control;
    match key.code {
        Key::Esc => PickerKey::Close,
        Key::Enter => PickerKey::Accept,
        Key::Up => PickerKey::Up,
        Key::Down => PickerKey::Down,
        Key::Backspace => PickerKey::Backspace,
        Key::Char(c) => if ctrl {
            if c == 'p' || c == 'k' {
                PickerKey::Up
            } else if c == 'n' || c == 'j' {
                PickerKey::Down
            } else {
                PickerKey::Ignored
            }
        } else {
            PickerKey::Type(c)
        },
        _ => PickerKey::Ignored,
    }
}

/// The numbers below another, in order.
pub open spec fn numbers(n: nat) -> Seq<usize> {
    Seq::new(n, |i: int| i as usize)
}

impl Picker {
    /// A list with every item shown, and the first picked.
    pub open spec fn opened(self, items: Seq<Seq<char>>) -> bool {
        &&& crate::text::texts(self.items@) == items
        &&& self.query@.len() == 0
        &&& self.shown@ == numbers(items.len())
        &&& self.selected == 0
    }

    /// A list over items.
    pub fn new(items: Vec<String>, choices: Choices) -> (r: Picker)
        ensures
            r.opened(crate::text::texts(items@)),
            r.items == items,
            r.choices == choices,
    {
        let mut shown: Vec<usize> = Vec::new();
        let mut i: usize = 0;
        while i < items.len()
            invariant
                i <= items.len(),
                shown@ == numbers(i as nat),
            decreases items.len() - i,
        {
            shown.push(i);
            assert(shown@ =~= numbers((i + 1) as nat));
            i = i + 1;
        }
        Picker { items, query: String::new(), shown, selected: 0, choices }
    }

    /// The number of the item that is picked, if any item is shown.
    pub open spec fn spec_current(&self) -> Option<usize> {
        if self.selected < self.shown@.len() {
            Some(self.shown@[self.selected as int])
        } else {
            None
        }
    }

    /// The number of the item that is picked, if any item is shown.
    pub fn current(&self) -> (r: Option<usize>)
        ensures
            r == self.spec_current(),
    {
        if self.selected < self.shown.len() {
            Some(self.shown[self.selected])
        } else {
            None
        }
    }

    /// Moves the pick one up.
    pub fn move_up(&mut self)
        ensures
            *final(self) == (Picker {
                selected: crate::explorer::cursor_up(old(self).selected),
                ..*old(self)
            }),
    {
        if self.selected > 0 {
            self.selected = self.selected - 1;
        }
    }

    /// Moves the pick one down.
    pub fn move_down(&mut self)
        ensures
            *final(self) == (Picker {
                selected: crate::explorer::cursor_down(old(self).selected, old(self).shown@.len()),
                ..*old(self)
            }),
    {
        let rows = self.shown.len();
        if self.selected < rows && self.selected + 1 < rows {
            self.selected = self.selected + 1;
        }
    }

    /// Types a character. What is shown then is for the finder to say.
    pub fn push_char(&mut self, c: char)
        ensures
            final(self).query@ == old(self).query@.push(c),
            *final(self) == (Picker { query: final(self).query, ..*old(self) }),
    {
        self.query.push(c);
    }

    /// Takes the last character back.
    pub fn backspace(&mut self)
        ensures
            final(self).query@ == (if old(self).query@.len() > 0 {
                old(self).query@.drop_last()
            } else {
                old(self).query@
            }),
            *final(self) == (Picker { query: final(self).query, ..*old(self) }),
    {
        let chars = crate::text::to_chars(self.query.as_str());
        let n = chars.len();
        if n > 0 {
            self.query = crate::text::substring(&chars, 0, n - 1);
            assert(chars@.subrange(0, n - 1) =~= chars@.drop_last());
        }
    }

    /// Shows the items that match, by their number, and picks the first.
    pub fn set_matches(&mut self, shown: Vec<usize>)
        ensures
            *final(self) == (Picker { shown, selected: 0, ..*old(self) }),
    {
        self.shown = shown;
        self.selected = 0;
    }
}

} // verus!
