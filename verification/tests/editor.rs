use churl::editor::{EditorMode, ModalEditor};
use churl::keys::{Key, KeyEvent, KeyModifiers};

fn press(editor: &mut ModalEditor, code: Key) {
    editor.handle_key(KeyEvent::new(code, KeyModifiers::none()));
}

fn keys(editor: &mut ModalEditor, text: &str) {
    for c in text.chars() {
        press(editor, Key::Char(c));
    }
}

fn cursor(editor: &ModalEditor) -> (usize, usize) {
    (editor.state.cursor.row, editor.state.cursor.col)
}

#[test]
fn lines_of_a_text() {
    assert_eq!(ModalEditor::new("").text(), "");
    assert_eq!(ModalEditor::new("").state.lines.len(), 0);
    assert_eq!(ModalEditor::new("a").state.lines.len(), 1);
    assert_eq!(ModalEditor::new("a\n").state.lines.len(), 2);
    assert_eq!(ModalEditor::new("a\r\nb\r").text(), "a\nb\r");
    assert_eq!(cursor(&ModalEditor::new("a\nb")), (0, 0));
}

#[test]
fn typing_in_the_insert_mode() {
    let mut e = ModalEditor::new("");
    press(&mut e, Key::Char('i'));
    assert_eq!(e.mode(), EditorMode::Insert);
    keys(&mut e, "ab");
    assert_eq!(e.text(), "ab");
    assert_eq!(cursor(&e), (0, 2));
    let shift = KeyModifiers { control: false, alt: false, shift: true };
    e.handle_key(KeyEvent::new(Key::Char('C'), shift));
    assert_eq!(e.text(), "abC");
    press(&mut e, Key::Left);
    press(&mut e, Key::Enter);
    assert_eq!(e.text(), "ab\nC");
    assert_eq!(cursor(&e), (1, 0));
    press(&mut e, Key::Backspace);
    assert_eq!(e.text(), "abC");
    assert_eq!(cursor(&e), (0, 2));
    press(&mut e, Key::Home);
    press(&mut e, Key::Delete);
    assert_eq!(e.text(), "bC");
    press(&mut e, Key::End);
    press(&mut e, Key::Delete);
    assert_eq!(e.text(), "bC", "there is no line to join");
    press(&mut e, Key::Esc);
    assert_eq!(e.mode(), EditorMode::Normal);
    assert_eq!(cursor(&e), (0, 1));
}

#[test]
fn typing_behind_the_end_of_a_shorter_line() {
    let mut e = ModalEditor::new("ab\nabcdef");
    keys(&mut e, "i");
    press(&mut e, Key::Down);
    press(&mut e, Key::End);
    press(&mut e, Key::Up);
    assert_eq!(cursor(&e), (0, 6));
    keys(&mut e, "x");
    assert_eq!(e.text(), "axb\nabcdef");
    assert_eq!(cursor(&e), (0, 2));
}

#[test]
fn commands_of_the_normal_mode() {
    let mut e = ModalEditor::new("abc\nde");
    keys(&mut e, "lx");
    assert_eq!(e.text(), "ac\nde");
    assert_eq!(cursor(&e), (0, 1));
    keys(&mut e, "x");
    assert_eq!(e.text(), "a\nde");
    assert_eq!(cursor(&e), (0, 0));
    keys(&mut e, "j$");
    assert_eq!(cursor(&e), (1, 1));
    keys(&mut e, "a!");
    assert_eq!(e.text(), "a\nde!");
    press(&mut e, Key::Esc);
    keys(&mut e, "ko-");
    assert_eq!(e.text(), "a\n-\nde!");
    press(&mut e, Key::Esc);
    keys(&mut e, "v");
    assert_eq!(e.mode(), EditorMode::Visual);
    press(&mut e, Key::Esc);
    keys(&mut e, "/d");
    assert_eq!(e.mode(), EditorMode::Search);
    press(&mut e, Key::Enter);
    assert_eq!(e.mode(), EditorMode::Normal);
    assert_eq!(e.text(), "a\n-\nde!");
}

#[test]
fn control_is_no_typing() {
    let mut e = ModalEditor::new("ab");
    keys(&mut e, "i");
    press(&mut e, Key::End);
    let control = KeyModifiers { control: true, alt: false, shift: false };
    e.handle_key(KeyEvent::new(Key::Char('u'), control));
    assert_eq!(e.text(), "");
    assert_eq!(e.mode(), EditorMode::Insert);
}

#[test]
fn unknown_keys_change_nothing() {
    let mut e = ModalEditor::new("ab");
    press(&mut e, Key::BackTab);
    press(&mut e, Key::Function(5));
    assert_eq!(e.text(), "ab");
    assert_eq!(e.mode(), EditorMode::Normal);
}

#[test]
fn stale_match_leaves_the_editor_usable() {
    let mut e = ModalEditor::new("a\nb\nx");
    keys(&mut e, "/x");
    press(&mut e, Key::Enter);
    keys(&mut e, "ddddddni");
    assert_eq!(e.mode(), EditorMode::Insert);
    assert_eq!(cursor(&e).0, 2, "the match of lines that are gone");
    assert!(!e.takes(KeyEvent::new(Key::Enter, KeyModifiers::none())));
    press(&mut e, Key::Enter);
    press(&mut e, Key::Backspace);
    assert_eq!(e.text(), "");
    press(&mut e, Key::Up);
    press(&mut e, Key::Up);
    keys(&mut e, "ok");
    press(&mut e, Key::Enter);
    assert_eq!(e.text(), "ok\n");
}

#[test]
fn another_text_starts_over() {
    let mut e = ModalEditor::new("ab");
    keys(&mut e, "ix");
    e.restart("c\nd");
    assert_eq!(e.mode(), EditorMode::Normal);
    assert_eq!(e.text(), "c\nd");
    assert_eq!(cursor(&e), (0, 0));
}

/// Numbers that look random and are the same each time.
struct Dice(u64);

impl Dice {
    fn roll(&mut self, sides: usize) -> usize {
        self.0 = self.0.wrapping_mul(6364136223846793005).wrapping_add(1442695040888963407);
        ((self.0 >> 33) as usize) % sides
    }
}

#[derive(Debug, Clone, PartialEq)]
struct Shown {
    lines: Vec<String>,
    row: usize,
    col: usize,
    mode: EditorMode,
    selected: Option<usize>,
}

fn shown(e: &ModalEditor) -> Shown {
    let lines: Vec<String> =
        e.state.lines.iter_row().map(|line| line.iter().collect::<String>()).collect();
    let selected = e.state.selection.as_ref().map(|s| s.start().row);
    Shown { lines, row: e.state.cursor.row, col: e.state.cursor.col, mode: e.mode(), selected }
}

fn line(p: &Shown) -> Vec<char> {
    p.lines.get(p.row).map(|l| l.chars().collect()).unwrap_or_default()
}

fn write_line(p: &mut Shown, line: Vec<char>) {
    p.lines[p.row] = line.into_iter().collect();
}

fn typed(mut p: Shown, c: char) -> Shown {
    if p.row > p.lines.len() {
        return p;
    }
    if p.row == p.lines.len() {
        p.lines.push(String::new());
    }
    let mut l = line(&p);
    let at = if p.col > l.len() { l.len().saturating_sub(1) } else { p.col };
    l.insert(at, c);
    write_line(&mut p, l);
    p.col = at + 1;
    p
}

fn broken(mut p: Shown) -> Shown {
    let l = line(&p);
    if p.lines.is_empty() {
        p.lines.push(String::new());
    }
    if p.col == 0 || p.row == p.lines.len() {
        p.lines.insert(p.row, String::new());
    } else if p.col >= l.len() {
        p.lines.insert(p.row + 1, String::new());
    } else {
        p.lines[p.row] = l[..p.col].iter().collect();
        p.lines.insert(p.row + 1, l[p.col..].iter().collect());
    }
    p.row += 1;
    p.col = 0;
    p
}

fn erased(mut p: Shown) -> Shown {
    let mut l = line(&p);
    let col = p.col.min(l.len());
    if p.row == 0 && l.is_empty() {
        return p;
    }
    if col > 0 {
        l.remove(col - 1);
        write_line(&mut p, l);
        p.col = col - 1;
    } else if p.row == 0 {
        p.col = 0;
    } else {
        let up = p.lines[p.row - 1].chars().count();
        if p.row < p.lines.len() {
            let joined = format!("{}{}", p.lines[p.row - 1], p.lines[p.row]);
            p.lines[p.row - 1] = joined;
            p.lines.remove(p.row);
        }
        p.row -= 1;
        p.col = up;
    }
    p
}

fn cut(mut p: Shown) -> Shown {
    let mut l = line(&p);
    let col = p.col.min(l.len());
    if p.row < p.lines.len() {
        if col < l.len() {
            l.remove(col);
            write_line(&mut p, l);
        } else if p.row + 1 < p.lines.len() {
            let next = p.lines.remove(p.row + 1);
            p.lines[p.row].push_str(&next);
        }
    }
    p.col = col;
    p
}

fn furthest(p: &Shown) -> usize {
    match p.mode {
        EditorMode::Normal => line(p).len().saturating_sub(1),
        _ => line(p).len(),
    }
}

fn moved(mut p: Shown, code: Key) -> Option<Shown> {
    match code {
        Key::Left if p.col > 0 => p.col = p.col.min(furthest(&p)).saturating_sub(1),
        Key::Right if p.col < furthest(&p) => p.col += 1,
        Key::Up => p.row = p.row.saturating_sub(1),
        Key::Down if p.row < p.lines.len().saturating_sub(1) => p.row += 1,
        Key::Home => p.col = 0,
        Key::End => p.col = furthest(&p),
        Key::Left | Key::Right | Key::Down => {}
        _ => return None,
    }
    Some(p)
}

fn inserted(mut p: Shown, code: Key) -> Option<Shown> {
    match code {
        Key::Char(c) => Some(typed(p, c)),
        Key::Tab => Some(typed(p, '\t')),
        Key::Enter => Some(broken(p)),
        Key::Backspace => Some(erased(p)),
        Key::Delete => Some(cut(p)),
        Key::Esc => {
            p.col = p.col.min(line(&p).len()).saturating_sub(1);
            p.mode = EditorMode::Normal;
            p.selected = None;
            Some(p)
        }
        _ => moved(p, code),
    }
}

fn commanded(p: Shown, code: Key) -> Option<Shown> {
    let mut on = p.clone();
    on.col = on.col.min(line(&on).len().saturating_sub(1));
    match code {
        Key::Char('i') => on.mode = EditorMode::Insert,
        Key::Char('a') => {
            on.mode = EditorMode::Insert;
            if on.col < line(&on).len() {
                on.col += 1;
            }
        }
        Key::Char('o') => {
            on.mode = EditorMode::Insert;
            on.col = 0;
            if !on.lines.is_empty() {
                on.row += 1;
            }
            let at = on.row.min(on.lines.len());
            on.lines.insert(at, String::new());
        }
        Key::Char('v') => {
            on.mode = EditorMode::Visual;
            on.selected = Some(on.row);
        }
        Key::Char('/') => on.mode = EditorMode::Search,
        Key::Char('x') | Key::Delete => {
            let mut l = line(&on);
            if on.col < l.len() {
                l.remove(on.col);
                let len = l.len();
                write_line(&mut on, l);
                on.col = on.col.min(len.saturating_sub(1));
            }
        }
        Key::Char('h') => return moved(p, Key::Left),
        Key::Char('l') => return moved(p, Key::Right),
        Key::Char('k') => return moved(p, Key::Up),
        Key::Char('j') => return moved(p, Key::Down),
        Key::Char('0') => return moved(p, Key::Home),
        Key::Char('$') => return moved(p, Key::End),
        _ => return moved(p, code),
    }
    Some(on)
}

/// An editor over a few short lines, with its cursor anywhere near them.
fn any_editor(dice: &mut Dice) -> ModalEditor {
    let texts = ["", "a", "\n", "ab\n\nabcd", "abc\nd", "one\ntwo\nthree\n", "  x y\n{z}", "ü\nß€"];
    let mut e = ModalEditor::new(texts[dice.roll(texts.len())]);
    e.state.cursor.row = dice.roll(e.state.lines.len() + 3);
    e.state.cursor.col = dice.roll(7);
    e
}

#[test]
fn keys_show_what_they_are_said_to_show() {
    let mut dice = Dice(7);
    let codes = [
        Key::Char('i'), Key::Char('a'), Key::Char('o'), Key::Char('v'), Key::Char('/'),
        Key::Char('x'), Key::Char('h'), Key::Char('j'), Key::Char('k'), Key::Char('l'),
        Key::Char('0'), Key::Char('$'), Key::Char('€'), Key::Char('\r'), Key::Tab, Key::Enter,
        Key::Backspace, Key::Delete, Key::Esc, Key::Left, Key::Right, Key::Up, Key::Down,
        Key::Home, Key::End,
    ];
    let mut told = 0;
    for _ in 0..4000 {
        let mut e = any_editor(&mut dice);
        let insert = dice.roll(2) == 0;
        if dice.roll(4) == 0 {
            press(&mut e, Key::Char('v'));
        }
        e.set_mode(if insert { EditorMode::Insert } else { EditorMode::Normal });
        let code = codes[dice.roll(codes.len())];
        let key = KeyEvent::new(code, KeyModifiers::none());
        let before = shown(&e);
        let expected = if !e.takes(key) {
            Some(before.clone())
        } else if insert {
            inserted(before.clone(), code)
        } else {
            commanded(before.clone(), code)
        };
        e.handle_key(key);
        if let Some(expected) = expected {
            assert_eq!(shown(&e), expected, "{code:?} on {before:?}");
            told += 1;
        }
    }
    assert!(told > 3000);
}

#[test]
fn no_key_stops_the_editor() {
    let mut dice = Dice(11);
    let chars: Vec<char> = "abcdefghijklnopqrtuvwxyzABDGIJKLNOPVWX0$_%{}./\"'()[]\nü ".chars().collect();
    let codes = [
        Key::Tab, Key::Enter, Key::Backspace, Key::Delete, Key::Esc, Key::Left, Key::Right,
        Key::Up, Key::Down, Key::Home, Key::End, Key::PageUp, Key::PageDown,
    ];
    for _ in 0..300 {
        let mut e = any_editor(&mut dice);
        e.state.set_viewport_height(dice.roll(4));
        for _ in 0..80 {
            let code = match dice.roll(4) {
                0 => codes[dice.roll(codes.len())],
                _ => Key::Char(chars[dice.roll(chars.len())]),
            };
            let modifiers = KeyModifiers {
                control: dice.roll(8) == 0,
                alt: dice.roll(16) == 0,
                shift: matches!(code, Key::Char(c) if c.is_ascii_uppercase()),
            };
            let modes = [EditorMode::Normal, EditorMode::Insert, EditorMode::Visual, EditorMode::Search];
            if dice.roll(20) == 0 {
                e.set_mode(modes[dice.roll(4)]);
            }
            e.handle_key(KeyEvent::new(code, modifiers));
        }
    }
}
