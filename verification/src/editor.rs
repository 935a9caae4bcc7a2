//! The modal text editor of bodies and of the URL popup.

use crossterm::event::{KeyCode as Pressed, KeyModifiers as Bits};
use edtui::{EditorEventHandler, EditorState};

use vstd::prelude::*;

use crate::keys::{Key, KeyEvent, KeyModifiers};
use crate::text::joined;

verus! {

/// The state of an editor of the crate edtui.
#[verifier::external_type_specification]
#[verifier::external_body]
pub struct ExEditorState(edtui::EditorState);

/// The key bindings of an editor of the crate edtui, with the keys that are
/// pending.
#[verifier::external_type_specification]
#[verifier::external_body]
pub struct ExEditorEventHandler(edtui::EditorEventHandler);

/// The mode of a modal text editor.
#[derive(Debug, Clone, Copy, PartialEq, Eq, Structural)]
pub enum EditorMode {
    /// Keys move.
    Normal,
    /// Keys type.
    Insert,
    /// Keys select.
    Visual,
    /// Keys type what is searched.
    Search,
}

/// The lines that an editor holds.
pub uninterp spec fn editor_lines(state: EditorState) -> Seq<Seq<char>>;

/// The row and the column of an editor's cursor.
pub uninterp spec fn editor_cursor(state: EditorState) -> (nat, nat);

/// The mode that an editor is in.
pub uninterp spec fn editor_mode(state: EditorState) -> EditorMode;

/// The row in which an editor's selection starts, where it has one.
pub uninterp spec fn editor_selected(state: EditorState) -> Option<nat>;

/// Whether an editor takes more than one line, and its view is low enough for a page below
/// it to be counted in a `usize`.
pub uninterp spec fn editor_scrolls(state: EditorState) -> bool;

/// Whether a handler has vim's key bindings, as edtui has them, and no others.
pub uninterp spec fn vim_keys(events: EditorEventHandler) -> bool;

/// Whether a handler has had a key that waits for a further one.
pub uninterp spec fn awaits_key(events: EditorEventHandler) -> bool;

/// A text with its lines ended by line feeds: a carriage return right before a
/// line feed is left out.
pub open spec fn lf_lines(s: Seq<char>) -> Seq<char>
    decreases s.len(),
{
    if s.len() == 0 {
        s
    } else if s.len() > 1 && s[0] == '\r' && s[1] == '\n' {
        lf_lines(s.skip(1))
    } else {
        seq![s[0]] + lf_lines(s.skip(1))
    }
}

/// The lines of a text: what stands between its line feeds.
pub open spec fn lines_between(s: Seq<char>) -> Seq<Seq<char>>
    decreases s.len(),
{
    if s.len() == 0 {
        seq![Seq::empty()]
    } else {
        let head = lines_between(s.drop_last());
        if s.last() == '\n' {
            head.push(Seq::empty())
        } else {
            head.update(head.len() - 1, head.last().push(s.last()))
        }
    }
}

/// The lines with which an editor over a text starts; over an empty one it has none.
pub open spec fn lines_of(text: Seq<char>) -> Seq<Seq<char>> {
    if text.len() == 0 {
        Seq::empty()
    } else {
        lines_between(lf_lines(text))
    }
}

/// What an editor shows: its lines, its cursor, its mode and where its selection starts.
#[verifier::ext_equal]
pub struct Page {
    /// The lines.
    pub lines: Seq<Seq<char>>,
    /// The row of the cursor.
    pub row: nat,
    /// The column of the cursor.
    pub col: nat,
    /// The mode.
    pub mode: EditorMode,
    /// The row in which the selection starts, where there is one.
    pub selected: Option<nat>,
}

/// What an editor shows.
pub open spec fn editor_page(state: EditorState) -> Page {
    Page {
        lines: editor_lines(state),
        row: editor_cursor(state).0,
        col: editor_cursor(state).1,
        mode: editor_mode(state),
        selected: editor_selected(state),
    }
}

/// The smaller of two numbers.
pub open spec fn least(a: nat, b: nat) -> nat {
    if a < b {
        a
    } else {
        b
    }
}

/// The number before, or zero.
pub open spec fn before(a: nat) -> nat {
    if a > 0 {
        (a - 1) as nat
    } else {
        0
    }
}

impl Page {
    /// The text: the lines with a line feed between neighbours.
    pub open spec fn text(self) -> Seq<char> {
        joined(self.lines, seq!['\n'])
    }

    /// How long the line of the cursor is; no line has no length.
    pub open spec fn width(self) -> nat {
        if self.row < self.lines.len() {
            self.lines[self.row as int].len()
        } else {
            0
        }
    }

    /// Whether the cursor is in a line or right behind it.
    pub open spec fn inside(self) -> bool {
        self.row < self.lines.len() && self.col <= self.width()
    }

    /// The page with the cursor no further right than the last character.
    pub open spec fn on_character(self) -> Page {
        Page { col: least(self.col, before(self.width())), ..self }
    }

    /// A character typed: it stands at the cursor, which goes on behind it. A cursor below
    /// the last line gets a line of its own; one behind the end of its line types before
    /// the last character. A cursor that is still further down types nothing.
    pub open spec fn typed(self, c: char) -> Page {
        if self.row > self.lines.len() {
            self
        } else {
            let lines = if self.row == self.lines.len() {
                self.lines.push(Seq::empty())
            } else {
                self.lines
            };
            let line = lines[self.row as int];
            let col = if self.col > line.len() {
                before(line.len())
            } else {
                self.col
            };
            Page {
                lines: lines.update(self.row as int, line.insert(col as int, c)),
                col: col + 1,
                ..self
            }
        }
    }

    /// The line broken at the cursor, which goes to the start of the next one.
    pub open spec fn broken(self) -> Page {
        let lines = if self.lines.len() == 0 {
            seq![Seq::empty()]
        } else {
            self.lines
        };
        let row = self.row as int;
        let width = self.width();
        Page {
            lines: if self.col == 0 || row == lines.len() {
                lines.insert(row, Seq::empty())
            } else if self.col >= width {
                lines.insert(row + 1, Seq::empty())
            } else {
                lines.update(row, lines[row].take(self.col as int)).insert(
                    row + 1,
                    lines[row].skip(self.col as int),
                )
            },
            row: self.row + 1,
            col: 0,
            ..self
        }
    }

    /// The character before the cursor taken out; at the start of a line, the line joined
    /// to the one before.
    pub open spec fn erased(self) -> Page {
        let row = self.row as int;
        let width = self.width();
        let col = least(self.col, width);
        if row == 0 && width == 0 {
            self
        } else if col > 0 {
            Page {
                lines: self.lines.update(row, self.lines[row].remove(col - 1)),
                col: (col - 1) as nat,
                ..self
            }
        } else if row == 0 {
            Page { col: 0, ..self }
        } else {
            Page {
                lines: if row < self.lines.len() {
                    self.lines.update(row - 1, self.lines[row - 1] + self.lines[row]).remove(row)
                } else {
                    self.lines
                },
                row: (row - 1) as nat,
                col: self.lines[row - 1].len(),
                ..self
            }
        }
    }

    /// The character at the cursor taken out; at the end of a line, the next one joined to
    /// it.
    pub open spec fn cut(self) -> Page {
        let row = self.row as int;
        let width = self.width();
        let col = least(self.col, width);
        Page {
            lines: if row >= self.lines.len() {
                self.lines
            } else if col < width {
                self.lines.update(row, self.lines[row].remove(col as int))
            } else if row + 1 < self.lines.len() {
                self.lines.update(row, self.lines[row] + self.lines[row + 1]).remove(row + 1)
            } else {
                self.lines
            },
            col,
            ..self
        }
    }

    /// The character under the cursor taken out, and the cursor on the one that follows it.
    pub open spec fn removed(self) -> Page {
        let p = self.on_character();
        if p.col < p.width() {
            let line = p.lines[p.row as int].remove(p.col as int);
            Page {
                lines: p.lines.update(p.row as int, line),
                col: least(p.col, before(line.len())),
                ..p
            }
        } else {
            p
        }
    }

    /// An empty line below that of the cursor, with the cursor in it.
    pub open spec fn opened(self) -> Page {
        let row = if self.lines.len() > 0 {
            self.row + 1
        } else {
            self.row
        };
        Page {
            lines: if row < self.lines.len() {
                self.lines.insert(row as int, Seq::empty())
            } else {
                self.lines.push(Seq::empty())
            },
            row,
            col: 0,
            ..self
        }
    }

    /// The furthest column to which the cursor moves in the mode.
    pub open spec fn furthest(self) -> nat {
        if self.mode == EditorMode::Normal {
            before(self.width())
        } else {
            self.width()
        }
    }

    /// The cursor one to the left.
    pub open spec fn leftward(self) -> Page {
        if self.col == 0 {
            self
        } else {
            Page { col: before(least(self.col, self.furthest())), ..self }
        }
    }

    /// The cursor one to the right.
    pub open spec fn rightward(self) -> Page {
        if self.col >= self.furthest() {
            self
        } else {
            Page { col: self.col + 1, ..self }
        }
    }

    /// The cursor one up.
    pub open spec fn upward(self) -> Page {
        Page { row: before(self.row), ..self }
    }

    /// The cursor one down.
    pub open spec fn downward(self) -> Page {
        if self.row >= before(self.lines.len()) {
            self
        } else {
            Page { row: self.row + 1, ..self }
        }
    }

    /// The page in the insert mode, where Escape leaves it: the cursor goes one to the left,
    /// and nothing is selected.
    pub open spec fn left(self) -> Page {
        Page {
            col: before(least(self.col, self.width())),
            mode: EditorMode::Normal,
            selected: None,
            ..self
        }
    }

    /// What a key makes of a page in the insert mode, as far as it is told here; `idle`
    /// says that no key waits for a further one.
    pub open spec fn inserted(self, key: KeyEvent, idle: bool) -> Option<Page> {
        if let Some(c) = key.spec_plain_char() {
            if c == '\n' {
                None
            } else {
                Some(self.typed(c))
            }
        } else if key.modifiers != KeyModifiers::spec_none() {
            None
        } else if key.code == Key::Tab {
            Some(self.typed('\t'))
        } else if !idle {
            None
        } else {
            match key.code {
                Key::Enter => Some(self.broken()),
                Key::Backspace => Some(self.erased()),
                Key::Delete => Some(self.cut()),
                Key::Esc => Some(self.left()),
                Key::Left => Some(self.leftward()),
                Key::Right => Some(self.rightward()),
                Key::Up => Some(self.upward()),
                Key::Down => Some(self.downward()),
                Key::Home => Some(Page { col: 0, ..self }),
                Key::End => Some(Page { col: self.furthest(), ..self }),
                _ => None,
            }
        }
    }

    /// What a key alone makes of a page in the normal mode, as far as it is told here.
    pub open spec fn commanded(self, code: Key) -> Option<Page> {
        let p = self.on_character();
        match code {
            Key::Char('i') => Some(Page { mode: EditorMode::Insert, ..p }),
            Key::Char('a') => Some(Page { mode: EditorMode::Insert, ..p }.rightward()),
            Key::Char('o') => Some(Page { mode: EditorMode::Insert, ..p }.opened()),
            Key::Char('v') => Some(
                Page { mode: EditorMode::Visual, selected: Some(p.row), ..p },
            ),
            Key::Char('/') => Some(Page { mode: EditorMode::Search, ..p }),
            Key::Char('x') | Key::Delete => Some(self.removed()),
            Key::Char('h') | Key::Left => Some(self.leftward()),
            Key::Char('l') | Key::Right => Some(self.rightward()),
            Key::Char('k') | Key::Up => Some(self.upward()),
            Key::Char('j') | Key::Down => Some(self.downward()),
            Key::Char('0') | Key::Home => Some(Page { col: 0, ..self }),
            Key::Char('$') | Key::End => Some(Page { col: self.furthest(), ..self }),
            _ => None,
        }
    }

    /// What a key makes of a page, as far as it is told here.
    pub open spec fn keyed(self, key: KeyEvent, idle: bool) -> Option<Page> {
        match self.mode {
            EditorMode::Insert => self.inserted(key, idle),
            EditorMode::Normal => if idle && key.modifiers == KeyModifiers::spec_none() {
                self.commanded(key.code)
            } else {
                None
            },
            _ => None,
        }
    }

    /// What holds of the page after a key while the editor searches: with no key waiting
    /// the lines stay, a character alone stays in the search, and Enter and Escape alone
    /// end it.
    pub open spec fn searched(self, after: Page, key: KeyEvent, idle: bool) -> bool {
        let alone = key.modifiers == KeyModifiers::spec_none();
        &&& idle ==> after.lines == self.lines
        &&& alone && key.code is Char ==> after.lines == self.lines && after.mode
            == EditorMode::Search
        &&& idle && alone && (key.code == Key::Enter || key.code == Key::Esc) ==> after.mode
            == EditorMode::Normal
    }
}

/// Trusted: `EditorState::new` of edtui over `Lines::from`. The lines are split
/// as std's `str::lines` splits them, which leaves out a carriage return before
/// a line feed, and a line feed at the end starts an empty line; the editor
/// starts in its normal mode, at the start of the text and with nothing selected.
#[verifier::external_body]
fn new_state(text: &str) -> (r: EditorState)
    ensures
        editor_lines(r) == lines_of(text@),
        editor_cursor(r) == (0nat, 0nat),
        editor_mode(r) == EditorMode::Normal,
        editor_selected(r) is None,
        editor_scrolls(r),
{
    EditorState::new(edtui::Lines::from(text))
}

/// Trusted: `EditorEventHandler::default` of edtui, the handler with vim's keys. It has
/// had no key yet.
#[verifier::external_body]
fn new_events() -> (r: EditorEventHandler)
    ensures
        vim_keys(r),
        !awaits_key(r),
{
    EditorEventHandler::default()
}

/// Trusted: `String::from` of edtui's lines, which joins them with line feeds.
#[verifier::external_body]
fn text_of_state(state: &EditorState) -> (r: String)
    ensures
        r@ == joined(editor_lines(*state), seq!['\n']),
{
    String::from(state.lines.clone())
}

/// Trusted: `Lines::len` of edtui, the number of lines.
#[verifier::external_body]
fn rows_of_state(state: &EditorState) -> (r: usize)
    ensures
        r == editor_lines(*state).len(),
{
    state.lines.len()
}

/// Trusted: the field `cursor` of edtui's `EditorState`, its row and its column.
#[verifier::external_body]
fn cursor_of_state(state: &EditorState) -> (r: (usize, usize))
    ensures
        r.0 == editor_cursor(*state).0,
        r.1 == editor_cursor(*state).1,
{
    (state.cursor.row, state.cursor.col)
}

/// Trusted: `Selection::start` of edtui on the field `selection` of its `EditorState`: the
/// row of the end that stands first.
#[verifier::external_body]
fn selected_of_state(state: &EditorState) -> (r: Option<usize>)
    ensures
        r is Some <==> editor_selected(*state) is Some,
        r matches Some(row) ==> editor_selected(*state) == Some(row as nat),
{
    state.selection.as_ref().map(|s| s.start().row)
}

/// Trusted: the field `mode` of edtui's `EditorState`.
#[verifier::external_body]
fn mode_of_state(state: &EditorState) -> (r: EditorMode)
    ensures
        r == editor_mode(*state),
{
    match state.mode {
        edtui::EditorMode::Normal => EditorMode::Normal,
        edtui::EditorMode::Insert => EditorMode::Insert,
        edtui::EditorMode::Visual => EditorMode::Visual,
        edtui::EditorMode::Search => EditorMode::Search,
    }
}

/// Trusted: an assignment to the field `mode` of edtui's `EditorState`. What the other
/// names speak of are other fields.
#[verifier::external_body]
fn put_mode(state: &mut EditorState, mode: EditorMode)
    ensures
        editor_mode(*final(state)) == mode,
        editor_lines(*final(state)) == editor_lines(*old(state)),
        editor_cursor(*final(state)) == editor_cursor(*old(state)),
        editor_selected(*final(state)) == editor_selected(*old(state)),
        editor_scrolls(*final(state)) == editor_scrolls(*old(state)),
{
    state.mode = match mode {
        EditorMode::Normal => edtui::EditorMode::Normal,
        EditorMode::Insert => edtui::EditorMode::Insert,
        EditorMode::Visual => edtui::EditorMode::Visual,
        EditorMode::Search => edtui::EditorMode::Search,
    };
}

/// The keys that edtui knows; it has no answer to any other.
pub open spec fn editable(code: Key) -> bool {
    match code {
        Key::BackTab | Key::Function(_) | Key::Other => false,
        _ => true,
    }
}

/// Whether edtui knows a key.
pub fn is_editable(code: Key) -> (r: bool)
    ensures
        r == editable(code),
{
    match code {
        Key::BackTab | Key::Function(_) | Key::Other => false,
        _ => true,
    }
}

/// The keys that may put in or take out a line where the cursor or the selection is: a
/// line break and a key that erases backwards, an open line, a paste and the repetition
/// of the last change.
pub open spec fn needs_a_line(mode: EditorMode, key: KeyEvent) -> bool {
    match (mode, key.code) {
        (EditorMode::Insert, Key::Enter | Key::Backspace | Key::Char('\n')) => true,
        (EditorMode::Insert, Key::Char('h')) => key.modifiers.control,
        (EditorMode::Normal, Key::Char('O' | 'p' | 'P' | '.')) => true,
        (EditorMode::Visual, Key::Char('p')) => true,
        _ => false,
    }
}

/// Whether a key is one that needs a line where the cursor or the selection is.
fn is_needing_a_line(mode: EditorMode, key: KeyEvent) -> (r: bool)
    ensures
        r == needs_a_line(mode, key),
{
    match (mode, key.code) {
        (EditorMode::Insert, Key::Enter | Key::Backspace | Key::Char('\n')) => true,
        (EditorMode::Insert, Key::Char('h')) => key.modifiers.control,
        (EditorMode::Normal, Key::Char('O' | 'p' | 'P' | '.')) => true,
        (EditorMode::Visual, Key::Char('p')) => true,
        _ => false,
    }
}

/// Whether the cursor and the start of the selection are in a line or right below the last.
pub open spec fn editor_steady(state: EditorState) -> bool {
    &&& editor_cursor(state).0 <= editor_lines(state).len()
    &&& editor_selected(state) matches Some(row) ==> row <= editor_lines(state).len()
}

/// Whether edtui has an answer to a key. A search that was begun before lines were taken
/// out can put the cursor far below the last line, where some keys find no place.
pub open spec fn editor_takes(state: EditorState, key: KeyEvent) -> bool {
    &&& editable(key.code)
    &&& editor_cursor(state).0 <= usize::MAX / 2
    &&& editor_cursor(state).1 < usize::MAX
    &&& editor_steady(state) || !needs_a_line(editor_mode(state), key)
}

/// Trusted: `EditorEventHandler::on_key_event` of edtui, with the key and the
/// modifiers as crossterm writes them. Claimed is what `Page::keyed` and `Page::searched`
/// tell of what the editor shows after it, for a handler with vim's keys;
/// such a handler keeps them, and where no key was waiting none waits after a key in the
/// insert mode, in the search, or after one that `Page::keyed` tells of. Nothing is claimed
/// of any other key: a paste reads the clipboard of the system, and the rest of vim's
/// commands go on from changes, searches and selections that only the editor knows. Left
/// out by `requires` are the keys and the cursors on which edtui panics.
#[verifier::external_body]
fn press(events: &mut EditorEventHandler, state: &mut EditorState, key: KeyEvent, bits: u8)
    requires
        bits == spec_modifier_bits(key),
        vim_keys(*old(events)),
        editor_scrolls(*old(state)),
        editor_takes(*old(state), key),
    ensures
        vim_keys(*final(events)),
        editor_scrolls(*final(state)),
        editor_page(*old(state)).keyed(key, !awaits_key(*old(events))) matches Some(page)
            ==> editor_page(*final(state)) == page,
        editor_mode(*old(state)) == EditorMode::Search ==> editor_page(*old(state)).searched(
            editor_page(*final(state)),
            key,
            !awaits_key(*old(events)),
        ),
        !awaits_key(*old(events)) && (editor_mode(*old(state)) == EditorMode::Insert
            || editor_mode(*old(state)) == EditorMode::Search || editor_page(*old(state)).keyed(
            key,
            true,
        ) is Some) ==> !awaits_key(*final(events)),
{
    let code = match key.code {
        Key::Char(c) => Pressed::Char(c),
        Key::Esc => Pressed::Esc, Key::Enter => Pressed::Enter, Key::Tab => Pressed::Tab,
        Key::Backspace => Pressed::Backspace, Key::Delete => Pressed::Delete,
        Key::Up => Pressed::Up, Key::Down => Pressed::Down, Key::Left => Pressed::Left,
        Key::Right => Pressed::Right, Key::Home => Pressed::Home, Key::End => Pressed::End,
        Key::PageUp => Pressed::PageUp, Key::PageDown => Pressed::PageDown,
        _ => Pressed::Null,
    };
    let modifiers = Bits::from_bits_truncate(bits);
    events.on_key_event(crossterm::event::KeyEvent::new(code, modifiers), state);
}

/// The modifiers as crossterm numbers them: Shift is 1, Control is 2 and Alt is 4.
pub open spec fn spec_modifier_bits(key: KeyEvent) -> int {
    (if key.modifiers.shift {
        1int
    } else {
        0
    }) + (if key.modifiers.control {
        2int
    } else {
        0
    }) + (if key.modifiers.alt {
        4int
    } else {
        0
    })
}

/// The modifiers as crossterm numbers them.
pub fn modifier_bits(key: KeyEvent) -> (r: u8)
    ensures
        r == spec_modifier_bits(key),
{
    let shift: u8 = if key.modifiers.shift {
        1
    } else {
        0
    };
    let control: u8 = if key.modifiers.control {
        2
    } else {
        0
    };
    let alt: u8 = if key.modifiers.alt {
        4
    } else {
        0
    };
    shift + control + alt
}

/// A modal text editor.
pub struct ModalEditor {
    /// Its text, its mode and all else that it keeps.
    pub state: EditorState,
    /// Its key bindings.
    pub events: EditorEventHandler,
}

impl ModalEditor {
    /// The editor has vim's keys and takes more than one line.
    pub open spec fn wf(&self) -> bool {
        vim_keys(self.events) && editor_scrolls(self.state)
    }

    /// What the editor shows.
    pub open spec fn page(&self) -> Page {
        editor_page(self.state)
    }

    /// Whether no key waits for a further one.
    pub open spec fn idle(&self) -> bool {
        !awaits_key(self.events)
    }

    /// The text in the editor.
    pub open spec fn spec_text(&self) -> Seq<char> {
        self.page().text()
    }

    /// The mode of the editor.
    pub open spec fn spec_mode(&self) -> EditorMode {
        editor_mode(self.state)
    }

    /// What an editor over a text shows at first: the text, the cursor at its start, in the
    /// normal mode.
    pub open spec fn opened_over(&self, text: Seq<char>) -> bool {
        self.page() == (Page {
            lines: lines_of(text),
            row: 0,
            col: 0,
            mode: EditorMode::Normal,
            selected: None,
        })
    }

    /// An editor over a text that has had no key.
    pub open spec fn fresh(&self, text: Seq<char>) -> bool {
        &&& self.opened_over(text)
        &&& self.idle()
        &&& self.wf()
    }

    /// An editor over a text, in its normal mode.
    pub fn new(text: &str) -> (r: ModalEditor)
        ensures
            r.fresh(text@),
            r.spec_text() == lf_lines(text@),
            r.spec_mode() == EditorMode::Normal,
    {
        let r = ModalEditor { state: new_state(text), events: new_events() };
        proof {
            lemma_lines_of(text@);
        }
        r
    }

    /// An editor over a text, in its normal mode, with a handler that may have had keys.
    pub fn with_events(text: &str, events: EditorEventHandler) -> (r: ModalEditor)
        requires
            vim_keys(events),
        ensures
            r.opened_over(text@),
            r.events == events,
            r.spec_text() == lf_lines(text@),
            r.spec_mode() == EditorMode::Normal,
            r.wf(),
    {
        let r = ModalEditor { state: new_state(text), events };
        proof {
            lemma_lines_of(text@);
        }
        r
    }

    /// Puts another text into the editor, which starts over it in its normal mode. A key
    /// that waits for a further one goes on waiting.
    pub fn restart(&mut self, text: &str)
        requires
            old(self).wf(),
        ensures
            final(self).opened_over(text@),
            final(self).events == old(self).events,
            final(self).spec_text() == lf_lines(text@),
            final(self).spec_mode() == EditorMode::Normal,
            final(self).wf(),
    {
        self.state = new_state(text);
        proof {
            lemma_lines_of(text@);
        }
    }

    /// The text in the editor.
    pub fn text(&self) -> (r: String)
        ensures
            r@ == self.spec_text(),
    {
        text_of_state(&self.state)
    }

    /// The mode of the editor.
    pub fn mode(&self) -> (r: EditorMode)
        ensures
            r == self.spec_mode(),
    {
        mode_of_state(&self.state)
    }

    /// Puts the editor into a mode.
    pub fn set_mode(&mut self, mode: EditorMode)
        requires
            old(self).wf(),
        ensures
            final(self).spec_mode() == mode,
            final(self).page() == (Page { mode, ..old(self).page() }),
            *final(self) == (ModalEditor { state: final(self).state, ..*old(self) }),
            final(self).wf(),
    {
        put_mode(&mut self.state, mode);
    }

    /// Whether `after` is what a key leaves of the editor. A key to which it has no answer
    /// changes nothing. For the others `Page::keyed` tells what it shows then, and
    /// `Page::searched` while it searches; what the remaining keys leave is up to the
    /// editor.
    pub open spec fn keyed(self, after: ModalEditor, key: KeyEvent) -> bool {
        if editor_takes(self.state, key) {
            &&& self.page().keyed(key, self.idle()) matches Some(page) ==> after.page() == page
            &&& self.spec_mode() == EditorMode::Search ==> self.page().searched(
                after.page(),
                key,
                self.idle(),
            )
            &&& self.idle() && (self.spec_mode() == EditorMode::Insert || self.spec_mode()
                == EditorMode::Search || self.page().keyed(key, true) is Some) ==> after.idle()
        } else {
            after == self
        }
    }

    /// Whether the editor has an answer to a key.
    pub fn takes(&self, key: KeyEvent) -> (r: bool)
        ensures
            r == editor_takes(self.state, key),
    {
        let rows = rows_of_state(&self.state);
        let (row, col) = cursor_of_state(&self.state);
        let below = match selected_of_state(&self.state) {
            Some(first) => first > rows,
            None => false,
        };
        is_editable(key.code) && row <= usize::MAX / 2 && col < usize::MAX && ((row <= rows
            && !below) || !is_needing_a_line(self.mode(), key))
    }

    /// Hands a key to the editor.
    pub fn handle_key(&mut self, key: KeyEvent)
        requires
            old(self).wf(),
        ensures
            old(self).keyed(*final(self), key),
            final(self).wf(),
    {
        if self.takes(key) {
            let bits = modifier_bits(key);
            press(&mut self.events, &mut self.state, key, bits);
        }
    }
}

proof fn lemma_lf_nonempty(s: Seq<char>)
    requires
        s.len() > 0,
    ensures
        lf_lines(s).len() > 0,
    decreases s.len(),
{
    if s.len() > 1 && s[0] == '\r' && s[1] == '\n' {
        lemma_lf_nonempty(s.skip(1));
    }
}

/// The lines between line feeds, joined by them, are the text.
pub proof fn lemma_lines_between(s: Seq<char>)
    ensures
        lines_between(s).len() > 0,
        joined(lines_between(s), seq!['\n']) == s,
    decreases s.len(),
{
    if s.len() > 0 {
        let head = lines_between(s.drop_last());
        lemma_lines_between(s.drop_last());
        assert(s =~= s.drop_last().push(s.last()));
        let all = lines_between(s);
        if s.last() == '\n' {
            assert(all.drop_last() =~= head);
        } else if head.len() > 1 {
            assert(all.drop_last() =~= head.drop_last());
        }
        assert(joined(all, seq!['\n']) =~= s);
    }
}

proof fn lemma_lines_of(text: Seq<char>)
    ensures
        joined(lines_of(text), seq!['\n']) == lf_lines(text),
{
    if text.len() > 0 {
        lemma_lines_between(lf_lines(text));
    }
}

proof fn lemma_lf_plain(s: Seq<char>)
    requires
        forall|i: int| 0 <= i < s.len() ==> s[i] != '\r',
    ensures
        lf_lines(s) == s,
    decreases s.len(),
{
    if s.len() > 0 {
        assert forall|i: int| 0 <= i < s.skip(1).len() implies s.skip(1)[i] != '\r' by {
            assert(s.skip(1)[i] == s[i + 1]);
        }
        lemma_lf_plain(s.skip(1));
        assert(seq![s[0]] + s.skip(1) =~= s);
    }
}

/// A text without carriage returns goes into an editor as it is.
pub proof fn law_plain_text_opens_unchanged(s: Seq<char>)
    requires
        forall|i: int| 0 <= i < s.len() ==> s[i] != '\r',
    ensures
        lf_lines(s) == s,
{
    lemma_lf_plain(s);
}

/// A typed character is taken back by one Backspace, with the cursor where it was.
pub proof fn law_typed_character_is_taken_back(p: Page, c: char)
    requires
        p.inside(),
    ensures
        p.typed(c).erased() == p,
{
    let line = p.lines[p.row as int];
    let q = p.typed(c);
    assert(line.insert(p.col as int, c).remove(p.col as int) =~= line);
    assert(q.erased().lines =~= p.lines);
}

/// A line break is taken back by one Backspace, with the cursor where it was.
pub proof fn law_line_break_is_taken_back(p: Page)
    requires
        p.inside(),
    ensures
        p.broken().erased() == p,
{
    let row = p.row as int;
    let line = p.lines[row];
    let q = p.broken();
    assert(line.take(p.col as int) + line.skip(p.col as int) =~= line);
    assert(Seq::<char>::empty() + line =~= line);
    assert(line + Seq::<char>::empty() =~= line);
    assert(q.lines[row] + q.lines[row + 1] =~= line);
    assert(q.erased().lines =~= p.lines);
    assert(q.lines[row].len() == p.col);
}

/// How many characters of the text stand before a line.
pub open spec fn line_start(lines: Seq<Seq<char>>, row: int) -> int {
    if row <= 0 {
        0
    } else {
        (joined(lines.take(row), seq!['\n']).len() + 1) as int
    }
}

proof fn lemma_joined_line(lines: Seq<Seq<char>>, row: int, col: int, c: char)
    requires
        0 <= row < lines.len(),
        0 <= col <= lines[row].len(),
    ensures
        ({
            let at = line_start(lines, row) + col;
            &&& 0 <= at <= joined(lines, seq!['\n']).len()
            &&& joined(lines.update(row, lines[row].insert(col, c)), seq!['\n']) == joined(
                lines,
                seq!['\n'],
            ).insert(at, c)
        }),
    decreases lines.len(),
{
    let lf = seq!['\n'];
    let new = lines.update(row, lines[row].insert(col, c));
    let at = line_start(lines, row) + col;
    if lines.len() > 1 {
        let head = lines.drop_last();
        if row == lines.len() - 1 {
            assert(new.drop_last() =~= head);
            assert(lines.take(row) =~= head);
        } else {
            lemma_joined_line(head, row, col, c);
            assert(new.drop_last() =~= head.update(row, head[row].insert(col, c)));
            assert(lines.take(row) =~= head.take(row));
        }
    }
    assert(joined(new, lf) =~= joined(lines, lf).insert(at, c));
}

/// A character typed inside the text gets into it at the cursor, and nothing else of the
/// text changes.
pub proof fn law_typed_character_is_in_the_text(p: Page, c: char)
    requires
        p.inside(),
    ensures
        0 <= line_start(p.lines, p.row as int) + p.col <= p.text().len(),
        p.typed(c).text() == p.text().insert(line_start(p.lines, p.row as int) + p.col, c),
{
    lemma_joined_line(p.lines, p.row as int, p.col as int, c);
}

/// In the insert mode an editor whose cursor is in its text types every character but the
/// line feed into it and stays in the mode.
pub proof fn law_typing_types(a: ModalEditor, b: ModalEditor, key: KeyEvent, c: char)
    requires
        a.keyed(b, key),
        a.spec_mode() == EditorMode::Insert,
        key.spec_plain_char() == Some(c),
        c != '\n',
        editor_takes(a.state, key),
        a.page().inside(),
    ensures
        b.spec_mode() == EditorMode::Insert,
        b.page().inside(),
        b.spec_text() == a.spec_text().insert(
            line_start(a.page().lines, a.page().row as int) + a.page().col,
            c,
        ),
{
    law_typed_character_is_in_the_text(a.page(), c);
}

} // verus!
