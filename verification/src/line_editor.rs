//! A one-line text editor.

use vstd::prelude::*;

use crate::keys::{Key, KeyEvent, KeyModifiers};
use crate::text::{from_chars, to_chars};

verus! {

/// A line of text with a cursor.
#[derive(Debug)]
pub struct LineEditor {
    /// The characters.
    pub chars: Vec<char>,
    /// How many characters stand before the cursor.
    pub cursor: usize,
}

/// What a [`LineEditor`] holds.
pub struct LineView {
    /// The text.
    pub text: Seq<char>,
    /// How many characters stand before the cursor.
    pub cursor: int,
}

impl View for LineEditor {
    type V = LineView;

    open spec fn view(&self) -> LineView {
        LineView { text: self.chars@, cursor: self.cursor as int }
    }
}

impl LineView {
    /// A line with the cursor behind its last character.
    pub open spec fn seeded(text: Seq<char>) -> LineView {
        LineView { text, cursor: text.len() as int }
    }

    /// The line after a key: a character is inserted at the cursor unless the
    /// line is as long as a line can be, Backspace and Delete remove the
    /// character before and behind it, and the arrows, Home and End move it.
    pub open spec fn keyed(self, key: KeyEvent) -> LineView {
        match key.code {
            Key::Char(c) => if key.spec_plain_char() is Some && self.text.len() < usize::MAX {
                LineView { text: self.text.insert(self.cursor, c), cursor: self.cursor + 1 }
            } else {
                self
            },
            Key::Backspace => if self.cursor > 0 {
                LineView { text: self.text.remove(self.cursor - 1), cursor: self.cursor - 1 }
            } else {
                self
            },
            Key::Delete => if self.cursor < self.text.len() {
                LineView { text: self.text.remove(self.cursor), cursor: self.cursor }
            } else {
                self
            },
            Key::Left => if self.cursor > 0 {
                LineView { text: self.text, cursor: self.cursor - 1 }
            } else {
                self
            },
            Key::Right => if self.cursor < self.text.len() {
                LineView { text: self.text, cursor: self.cursor + 1 }
            } else {
                self
            },
            Key::Home => LineView { text: self.text, cursor: 0 },
            Key::End => LineView { text: self.text, cursor: self.text.len() as int },
            _ => self,
        }
    }
}

impl LineEditor {
    /// The cursor stands within the line.
    pub open spec fn wf(&self) -> bool {
        self.cursor <= self.chars@.len()
    }

    /// A line that holds `seed`, with the cursor at its end.
    pub fn new(seed: &str) -> (r: LineEditor)
        ensures
            r@ == LineView::seeded(seed@),
            r.wf(),
    {
        let chars = to_chars(seed);
        let cursor = chars.len();
        LineEditor { chars, cursor }
    }

    /// The text of the line.
    pub fn text(&self) -> (r: String)
        ensures
            r@ == self@.text,
    {
        from_chars(&self.chars)
    }

    /// Edits the line by one key.
    pub fn handle_key(&mut self, key: KeyEvent)
        requires
            old(self).wf(),
        ensures
            final(self)@ == old(self)@.keyed(key),
            final(self).wf(),
    {
        match key.code {
            Key::Char(_) => {
                if let Some(c) = key.plain_char() {
                    if self.chars.len() < usize::MAX {
                        self.chars.insert(self.cursor, c);
                        self.cursor = self.cursor + 1;
                    }
                }
            },
            Key::Backspace => {
                if self.cursor > 0 {
                    let gone = self.chars.remove(self.cursor - 1);
                    self.cursor = self.cursor - 1;
                }
            },
            Key::Delete => {
                if self.cursor < self.chars.len() {
                    let gone = self.chars.remove(self.cursor);
                }
            },
            Key::Left => {
                if self.cursor > 0 {
                    self.cursor = self.cursor - 1;
                }
            },
            Key::Right => {
                if self.cursor < self.chars.len() {
                    self.cursor = self.cursor + 1;
                }
            },
            Key::Home => {
                self.cursor = 0;
            },
            Key::End => {
                self.cursor = self.chars.len();
            },
            _ => {},
        }
    }
}

/// A character that is typed goes in at the cursor, which moves behind it: what stood before the
/// cursor stays before it and the rest follows.
pub proof fn law_typed_character_goes_in_at_the_cursor(
    before: Seq<char>,
    after: Seq<char>,
    c: char,
    modifiers: KeyModifiers,
)
    requires
        before.len() + after.len() < usize::MAX,
        !modifiers.control,
        !modifiers.alt,
    ensures
        (LineView { text: before + after, cursor: before.len() as int }).keyed(
            KeyEvent { code: Key::Char(c), modifiers },
        ) == (LineView { text: before + seq![c] + after, cursor: before.len() as int + 1 }),
{
    assert((before + after).insert(before.len() as int, c) =~= before + seq![c] + after);
}

/// A chord with Control or Alt types nothing.
pub proof fn law_chord_types_nothing(line: LineView, c: char, modifiers: KeyModifiers)
    requires
        modifiers.control || modifiers.alt,
    ensures
        line.keyed(KeyEvent { code: Key::Char(c), modifiers }) == line,
{
}

/// Backspace takes the character before the cursor and Delete the one at it; at the start and
/// at the end there is none to take.
pub proof fn law_backspace_and_delete_take_one(
    before: Seq<char>,
    c: char,
    after: Seq<char>,
    modifiers: KeyModifiers,
)
    ensures
        (LineView { text: before + seq![c] + after, cursor: before.len() as int + 1 }).keyed(
            KeyEvent { code: Key::Backspace, modifiers },
        ) == (LineView { text: before + after, cursor: before.len() as int }),
        (LineView { text: before + seq![c] + after, cursor: before.len() as int }).keyed(
            KeyEvent { code: Key::Delete, modifiers },
        ) == (LineView { text: before + after, cursor: before.len() as int }),
        (LineView { text: after, cursor: 0 }).keyed(KeyEvent { code: Key::Backspace, modifiers })
            == (LineView { text: after, cursor: 0 }),
        (LineView { text: after, cursor: after.len() as int }).keyed(
            KeyEvent { code: Key::Delete, modifiers },
        ) == (LineView { text: after, cursor: after.len() as int }),
{
    assert((before + seq![c] + after).remove(before.len() as int) =~= before + after);
}

/// The arrows move the cursor by one and not beyond the ends, Home and End go there, and none
/// of them changes the text.
pub proof fn law_cursor_moves_in_the_line(line: LineView, modifiers: KeyModifiers)
    requires
        0 <= line.cursor <= line.text.len(),
    ensures
        ({
            let left = line.keyed(KeyEvent { code: Key::Left, modifiers });
            let right = line.keyed(KeyEvent { code: Key::Right, modifiers });
            let home = line.keyed(KeyEvent { code: Key::Home, modifiers });
            let end = line.keyed(KeyEvent { code: Key::End, modifiers });
            &&& left.text == line.text && right.text == line.text && home.text == line.text
                && end.text == line.text
            &&& line.cursor > 0 ==> left.cursor == line.cursor - 1
            &&& line.cursor == 0 ==> left.cursor == 0
            &&& line.cursor < line.text.len() ==> right.cursor == line.cursor + 1
            &&& line.cursor == line.text.len() ==> right.cursor == line.cursor
            &&& home.cursor == 0
            &&& end.cursor == line.text.len()
        }),
        LineView::seeded(line.text).text == line.text,
        LineView::seeded(line.text).cursor == line.text.len(),
{
}

} // verus!
