//! The help overlay: its scroll and its search.

use vstd::prelude::*;

use crate::keys::{Key, KeyEvent};
use crate::line_editor::LineEditor;
use crate::response::stepped;

verus! {

/// A search in the help.
#[derive(Debug)]
pub struct HelpSearch {
    /// The lines that match, in order.
    pub lines: Vec<usize>,
    /// The match that is shown, counted from 0.
    pub current: Option<usize>,
}

/// The help overlay.
#[derive(Debug)]
pub struct Help {
    /// Whether it is open.
    pub open: bool,
    /// The first line that is shown.
    pub scroll: usize,
    /// How many lines were shown at the last drawing.
    pub viewport_height: usize,
    /// The search, if there is one.
    pub search: Option<HelpSearch>,
    /// Whether the input of the search is open.
    pub search_input: bool,
    /// The input of the search.
    pub search_editor: LineEditor,
}

/// What a key in the help asks for.
#[derive(Debug, Clone, Copy, PartialEq, Eq, Structural)]
pub enum HelpAsk {
    /// Nothing.
    Nothing,
    /// The lines that match what was typed.
    Search,
}

/// A number with another added, as far as numbers go.
pub open spec fn added(a: usize, b: nat) -> usize {
    if a + b <= usize::MAX {
        (a + b) as usize
    } else {
        usize::MAX
    }
}

/// A number with another taken off, down to 0.
pub open spec fn taken(a: usize, b: nat) -> usize {
    if a >= b {
        (a - b) as usize
    } else {
        0
    }
}

impl Help {
    /// The input's cursor stands within its line.
    pub open spec fn wf(&self) -> bool {
        self.search_editor.wf()
    }

    /// The help as it starts: closed.
    pub fn new() -> (r: Help)
        ensures
            !r.open,
            r.scroll == 0,
            r.viewport_height == 10,
            r.search is None,
            !r.search_input,
            r.wf(),
    {
        Help {
            open: false,
            scroll: 0,
            viewport_height: 10,
            search: None,
            search_input: false,
            search_editor: LineEditor::new(""),
        }
    }

    /// Half the height of the window, and one line at least.
    pub open spec fn half(&self) -> nat {
        if self.viewport_height / 2 >= 1 {
            (self.viewport_height / 2) as nat
        } else {
            1
        }
    }

    /// The first line to show for a line to be in the window: the window moves
    /// only as far as it has to.
    pub open spec fn scroll_to(&self, line: usize) -> usize {
        let height = if self.viewport_height >= 1 {
            self.viewport_height as int
        } else {
            1
        };
        if line < self.scroll {
            line
        } else if line >= self.scroll + height {
            (line + 1 - height) as usize
        } else {
            self.scroll
        }
    }

    /// The line of the match that is shown.
    pub open spec fn current_line(&self) -> Option<usize> {
        match self.search {
            Some(s) => match s.current {
                Some(i) if i < s.lines@.len() => Some(s.lines@[i as int]),
                _ => None,
            },
            None => None,
        }
    }

    /// Brings the match that is shown into the window.
    pub fn help_center_on_match(&mut self)
        ensures
            *final(self) == (Help {
                scroll: match old(self).current_line() {
                    Some(line) => old(self).scroll_to(line),
                    None => old(self).scroll,
                },
                ..*old(self)
            }),
    {
        let line: usize = match &self.search {
            Some(s) => match s.current {
                Some(i) => if i < s.lines.len() {
                    s.lines[i]
                } else {
                    return;
                },
                None => {
                    return;
                },
            },
            None => {
                return;
            },
        };
        let height: usize = if self.viewport_height >= 1 {
            self.viewport_height
        } else {
            1
        };
        if line < self.scroll {
            self.scroll = line;
        } else if line - self.scroll >= height {
            self.scroll = line - height + 1;
        }
    }

    /// The help after a step to the next or the previous match: the match is in
    /// the window. Without matches nothing changes.
    pub open spec fn stepped(&self, after: Help, forward: bool) -> bool {
        match self.search {
            Some(s) => match stepped(s.lines@.len(), s.current, forward) {
                Some(i) => {
                    let mid = Help {
                        search: Some(HelpSearch { current: Some(i as usize), ..s }),
                        ..*self
                    };
                    after == (Help { scroll: mid.scroll_to(s.lines@[i as int]), ..mid })
                },
                None => after == *self,
            },
            None => after == *self,
        }
    }

    /// Steps to the next or the previous match, round the end.
    pub fn help_search_step(&mut self, forward: bool)
        ensures
            old(self).stepped(*final(self), forward),
            old(self).wf() ==> final(self).wf(),
    {
        let next: Option<usize> = match &self.search {
            Some(s) => {
                let n = s.lines.len();
                if n == 0 {
                    None
                } else {
                    Some(
                        match s.current {
                            None => if forward {
                                0
                            } else {
                                n - 1
                            },
                            Some(i) => if forward {
                                if i < n - 1 {
                                    i + 1
                                } else {
                                    0
                                }
                            } else if 0 < i && i <= n {
                                i - 1
                            } else {
                                n - 1
                            },
                        },
                    )
                }
            },
            None => None,
        };
        if let Some(i) = next {
            if let Some(s) = self.search.as_mut() {
                s.current = Some(i);
            }
            self.help_center_on_match();
        }
    }

    /// Opens the input of the search, empty, with a search that matches nothing
    /// yet.
    pub fn open_help_search(&mut self)
        ensures
            final(self).search matches Some(s) && s.lines@.len() == 0 && s.current is None,
            final(self).search_editor@ == crate::line_editor::LineView::seeded(Seq::empty()),
            *final(self) == (Help {
                search: final(self).search,
                search_editor: final(self).search_editor,
                search_input: true,
                ..*old(self)
            }),
            final(self).wf(),
    {
        proof {
            reveal_strlit("");
            assert(""@ =~= Seq::empty());
        }
        self.search_editor = LineEditor::new("");
        self.search = Some(HelpSearch { lines: Vec::new(), current: None });
        self.search_input = true;
    }

    /// The lines that match what was typed: the first of them is shown, and
    /// brought into the window.
    pub fn set_help_matches(&mut self, lines: Vec<usize>)
        ensures
            ({
                let mid = Help {
                    search: Some(
                        HelpSearch {
                            lines,
                            current: if lines@.len() > 0 {
                                Some(0)
                            } else {
                                None
                            },
                        },
                    ),
                    ..*old(self)
                };
                *final(self) == (Help {
                    scroll: if lines@.len() > 0 {
                        mid.scroll_to(lines@[0])
                    } else {
                        mid.scroll
                    },
                    ..mid
                })
            }),
            old(self).wf() ==> final(self).wf(),
    {
        let current: Option<usize> = if lines.len() > 0 {
            Some(0)
        } else {
            None
        };
        self.search = Some(HelpSearch { lines, current });
        self.help_center_on_match();
    }

    /// The help after a key: while the input of the search is open, Esc drops the
    /// search, Enter keeps it and every other key types; else `?`, Esc and `q`
    /// close, `/` opens the input, `n` and `N` step through the matches, and the
    /// other keys scroll.
    pub open spec fn keyed(&self, after: Help, key: KeyEvent, ask: HelpAsk) -> bool {
        if self.search_input {
            match key.code {
                Key::Esc => after == (Help { search: None, search_input: false, ..*self }) && ask
                    == HelpAsk::Nothing,
                Key::Enter => after == (Help { search_input: false, ..*self }) && ask
                    == HelpAsk::Nothing,
                _ => {
                    &&& after == (Help { search_editor: after.search_editor, ..*self })
                    &&& after.search_editor@ == self.search_editor@.keyed(key)
                    &&& ask == HelpAsk::Search
                },
            }
        } else {
            &&& ask == HelpAsk::Nothing
            &&& match key.code {
                Key::Esc => after == self.closed(),
                Key::Down => after == self.moved(added(self.scroll, 1)),
                Key::Up => after == self.moved(taken(self.scroll, 1)),
                Key::Char(c) => if c == '?' || c == 'q' {
                    after == self.closed()
                } else if c == '/' {
                    &&& after.search matches Some(s) && s.lines@.len() == 0 && s.current is None
                    &&& after.search_editor@ == crate::line_editor::LineView::seeded(Seq::empty())
                    &&& after == (Help {
                        search: after.search,
                        search_editor: after.search_editor,
                        search_input: true,
                        ..*self
                    })
                } else if c == 'n' && self.search is Some {
                    self.stepped(after, true)
                } else if c == 'N' && self.search is Some {
                    self.stepped(after, false)
                } else if c == 'j' {
                    after == self.moved(added(self.scroll, 1))
                } else if c == 'k' {
                    after == self.moved(taken(self.scroll, 1))
                } else if c == 'd' {
                    after == self.moved(added(self.scroll, self.half()))
                } else if c == 'u' {
                    after == self.moved(taken(self.scroll, self.half()))
                } else {
                    after == *self
                },
                _ => after == *self,
            }
        }
    }

    /// The help, closed: its scroll and its search are gone.
    pub open spec fn closed(&self) -> Help {
        Help { open: false, scroll: 0, search: None, search_input: false, ..*self }
    }

    /// The help with another first line.
    pub open spec fn moved(&self, scroll: usize) -> Help {
        Help { scroll, ..*self }
    }

    fn close(&mut self)
        ensures
            *final(self) == old(self).closed(),
    {
        self.open = false;
        self.scroll = 0;
        self.search = None;
        self.search_input = false;
    }

    fn scroll_by(&mut self, n: usize, down: bool)
        ensures
            *final(self) == old(self).moved(
                if down {
                    added(old(self).scroll, n as nat)
                } else {
                    taken(old(self).scroll, n as nat)
                },
            ),
    {
        self.scroll = if down {
            if self.scroll <= usize::MAX - n {
                self.scroll + n
            } else {
                usize::MAX
            }
        } else if self.scroll >= n {
            self.scroll - n
        } else {
            0
        };
    }

    /// Handles a key while the help is open.
    pub fn handle_help_key(&mut self, key: KeyEvent) -> (ask: HelpAsk)
        requires
            old(self).wf(),
        ensures
            old(self).keyed(*final(self), key, ask),
            final(self).wf(),
    {
        if self.search_input {
            return match key.code {
                Key::Esc => {
                    self.search = None;
                    self.search_input = false;
                    HelpAsk::Nothing
                },
                Key::Enter => {
                    self.search_input = false;
                    HelpAsk::Nothing
                },
                _ => {
                    self.search_editor.handle_key(key);
                    HelpAsk::Search
                },
            };
        }
        let half: usize = if self.viewport_height / 2 >= 1 {
            self.viewport_height / 2
        } else {
            1
        };
        match key.code {
            Key::Esc => {
                self.close();
            },
            Key::Down => {
                self.scroll_by(1, true);
            },
            Key::Up => {
                self.scroll_by(1, false);
            },
            Key::Char(c) => {
                if c == '?' || c == 'q' {
                    self.close();
                } else if c == '/' {
                    self.open_help_search();
                } else if c == 'n' && self.search.is_some() {
                    self.help_search_step(true);
                } else if c == 'N' && self.search.is_some() {
                    self.help_search_step(false);
                } else if c == 'j' {
                    self.scroll_by(1, true);
                } else if c == 'k' {
                    self.scroll_by(1, false);
                } else if c == 'd' {
                    self.scroll_by(half, true);
                } else if c == 'u' {
                    self.scroll_by(half, false);
                }
            },
            _ => {},
        }
        HelpAsk::Nothing
    }

    /// Takes in a drawing: the scroll stays within the lines that there are.
    pub fn drawn(&mut self, total: usize, viewport_height: usize)
        ensures
            *final(self) == (Help {
                scroll: if old(self).scroll < total {
                    old(self).scroll
                } else if total > 0 {
                    (total - 1) as usize
                } else {
                    0
                },
                viewport_height,
                ..*old(self)
            }),
    {
        let last: usize = if total > 0 {
            total - 1
        } else {
            0
        };
        if self.scroll > last {
            self.scroll = last;
        }
        self.viewport_height = viewport_height;
    }
}

/// The match that is shown is in the window after every step to it.
pub proof fn law_match_is_in_the_window(h: Help, line: usize)
    requires
        h.viewport_height >= 1,
    ensures
        h.scroll_to(line) <= line,
        line < h.scroll_to(line) + h.viewport_height,
        h.scroll <= line < h.scroll + h.viewport_height ==> h.scroll_to(line) == h.scroll,
{
}

/// The keys of the help: `j`, `k` and the arrows move by a line, `d` and `u` by half the window,
/// `?`, `q` and Esc close it, `/` begins a search, and `n` and `N` go from match to match.
pub proof fn law_help_keys(a: Help, b: Help, key: KeyEvent, ask: HelpAsk)
    requires
        a.keyed(b, key, ask),
        !a.search_input,
        a.scroll + a.viewport_height < usize::MAX,
    ensures
        ask == HelpAsk::Nothing,
        key.code is Esc || key.code == Key::Char('?') || key.code == Key::Char('q') ==> !b.open
            && b.scroll == 0 && b.search is None,
        key.code is Down || key.code == Key::Char('j') ==> b.scroll == a.scroll + 1 && b.open
            == a.open,
        key.code is Up || key.code == Key::Char('k') ==> b.scroll == (if a.scroll > 0 {
            a.scroll - 1
        } else {
            0
        }) && b.open == a.open,
        key.code == Key::Char('d') && a.viewport_height >= 2 ==> b.scroll == a.scroll
            + a.viewport_height / 2,
        key.code == Key::Char('u') && a.viewport_height >= 2 ==> b.scroll == (if a.scroll
            >= a.viewport_height / 2 {
            a.scroll - a.viewport_height / 2
        } else {
            0
        }),
        key.code == Key::Char('/') ==> b.search_input && b.search_editor@.text.len() == 0,
        key.code == Key::Char('n') && a.search is None ==> b == a,
        key.code == Key::Char('x') ==> b == a,
{
    reveal(Help::keyed);
}

/// While a search is typed every key but Enter and Esc goes to the query and searches anew;
/// Enter keeps what was found and Esc drops it.
pub proof fn law_help_search_is_typed(a: Help, b: Help, key: KeyEvent, ask: HelpAsk)
    requires
        a.keyed(b, key, ask),
        a.search_input,
    ensures
        key.code is Esc ==> b.search is None && !b.search_input && ask == HelpAsk::Nothing,
        key.code is Enter ==> b.search == a.search && !b.search_input && ask == HelpAsk::Nothing,
        !(key.code is Esc || key.code is Enter) ==> b.search_input && ask == HelpAsk::Search
            && b.search_editor@ == a.search_editor@.keyed(key) && b.scroll == a.scroll,
        b.open == a.open,
{
    reveal(Help::keyed);
}

/// The match that is shown of a search in the help is the current one of those that were found.
pub proof fn law_help_shows_the_current_match(a: Help, b: Help)
    ensures
        a.stepped(b, true) ==> (a.search matches Some(s) ==> (s.current matches Some(i) ==> i + 1
            < s.lines@.len() ==> b.current_line() == Some(s.lines@[i + 1]))),
        a.stepped(b, false) ==> (a.search matches Some(s) ==> (s.current matches Some(i) ==> 0 < i
            < s.lines@.len() ==> b.current_line() == Some(s.lines@[i - 1]))),
        a.search is None ==> a.current_line() is None,
{
    if let Some(s) = a.search {
        assert(s.lines.len() <= usize::MAX);
    }
}

} // verus!
