//! The texts of the popups and the stubs.

use vstd::prelude::*;
use vstd::utf8::encode_utf8;

use crate::app::App;
use crate::keymap::{key_name, key_text, layer_bindings, Binding, KeyMap, Layer, MenuKey};
use crate::mode::{LeaderMenu, LeaderState, PromptPurpose};
use crate::text::to_chars;

verus! {

/// Whether a text stands before another, or is the other: character by character.
pub open spec fn text_le(a: Seq<char>, b: Seq<char>) -> bool
    decreases a.len(),
{
    a.len() == 0 || (b.len() > 0 && (a[0] as int) < (b[0] as int)) || (b.len() > 0 && a[0] == b[0]
        && text_le(a.skip(1), b.skip(1)))
}

/// Whether an entry stands before another, or is the other: by the keys, then by what
/// they do.
pub open spec fn entry_le(a: (Seq<char>, Seq<char>), b: (Seq<char>, Seq<char>)) -> bool {
    if a.0 == b.0 {
        text_le(a.1, b.1)
    } else {
        text_le(a.0, b.0)
    }
}

/// The entries stand in order.
pub open spec fn in_order(s: Seq<(Seq<char>, Seq<char>)>) -> bool {
    forall|i: int, j: int| 0 <= i <= j < s.len() ==> entry_le(#[trigger] s[i], #[trigger] s[j])
}

/// The texts of entries.
pub open spec fn entry_texts(v: Seq<(String, String)>) -> Seq<(Seq<char>, Seq<char>)> {
    v.map_values(|e: (String, String)| (e.0@, e.1@))
}

proof fn lemma_text_le_refl(a: Seq<char>)
    ensures
        text_le(a, a),
    decreases a.len(),
{
    if a.len() > 0 {
        lemma_text_le_refl(a.skip(1));
    }
}

proof fn lemma_text_le_total(a: Seq<char>, b: Seq<char>)
    ensures
        text_le(a, b) || text_le(b, a),
        text_le(a, b) && text_le(b, a) ==> a == b,
    decreases a.len(),
{
    if a.len() > 0 && b.len() > 0 {
        lemma_text_le_total(a.skip(1), b.skip(1));
        if a[0] == b[0] && a.skip(1) == b.skip(1) {
            assert(a =~= seq![a[0]] + a.skip(1));
            assert(b =~= seq![b[0]] + b.skip(1));
        }
    } else {
        assert(a.len() == 0 && b.len() == 0 ==> a =~= b);
    }
}

proof fn lemma_text_le_trans(a: Seq<char>, b: Seq<char>, c: Seq<char>)
    requires
        text_le(a, b),
        text_le(b, c),
    ensures
        text_le(a, c),
    decreases a.len(),
{
    if a.len() > 0 && a[0] == b[0] && b[0] == c[0] && text_le(a.skip(1), b.skip(1)) && text_le(
        b.skip(1),
        c.skip(1),
    ) {
        lemma_text_le_trans(a.skip(1), b.skip(1), c.skip(1));
    }
}

proof fn lemma_entry_le_total(a: (Seq<char>, Seq<char>), b: (Seq<char>, Seq<char>))
    ensures
        entry_le(a, a),
        entry_le(a, b) || entry_le(b, a),
{
    lemma_text_le_refl(a.1);
    lemma_text_le_total(a.0, b.0);
    lemma_text_le_total(a.1, b.1);
}

proof fn lemma_entry_le_trans(
    a: (Seq<char>, Seq<char>),
    b: (Seq<char>, Seq<char>),
    c: (Seq<char>, Seq<char>),
)
    requires
        entry_le(a, b),
        entry_le(b, c),
    ensures
        entry_le(a, c),
{
    if a.0 == b.0 && b.0 == c.0 {
        lemma_text_le_trans(a.1, b.1, c.1);
    } else {
        if a.0 != b.0 && b.0 != c.0 {
            lemma_text_le_trans(a.0, b.0, c.0);
        }
        if a.0 == c.0 && a.0 != b.0 {
            lemma_text_le_total(a.0, b.0);
        }
    }
}

fn text_before(a: &str, b: &str) -> (r: bool)
    ensures
        r == text_le(a@, b@),
{
    let x = to_chars(a);
    let y = to_chars(b);
    let mut i: usize = 0;
    assert(x@.skip(0) =~= x@);
    assert(y@.skip(0) =~= y@);
    while i < x.len() && i < y.len() && x[i] == y[i]
        invariant
            i <= x@.len(),
            i <= y@.len(),
            x@ == a@,
            y@ == b@,
            text_le(a@, b@) == text_le(x@.skip(i as int), y@.skip(i as int)),
        decreases x@.len() - i,
    {
        assert(x@.skip(i as int).skip(1) =~= x@.skip(i + 1));
        assert(y@.skip(i as int).skip(1) =~= y@.skip(i + 1));
        i = i + 1;
    }
    proof {
        let p = x@.skip(i as int);
        let q = y@.skip(i as int);
        assert(i < x@.len() ==> p[0] == x@[i as int]);
        assert(i < y@.len() ==> q[0] == y@[i as int]);
    }
    if i >= x.len() {
        true
    } else if i >= y.len() {
        false
    } else {
        let c: char = x[i];
        let d: char = y[i];
        c < d
    }
}

fn entry_before(a: &(String, String), b: &(String, String)) -> (r: bool)
    ensures
        r == entry_le((a.0@, a.1@), (b.0@, b.1@)),
{
    if a.0 == b.0 {
        text_before(a.1.as_str(), b.1.as_str())
    } else {
        text_before(a.0.as_str(), b.0.as_str())
    }
}

/// Puts an entry into its place among entries that are in order.
fn put_in_order(out: &mut Vec<(String, String)>, entry: (String, String))
    requires
        in_order(entry_texts(old(out)@)),
    ensures
        in_order(entry_texts(final(out)@)),
        entry_texts(final(out)@).to_multiset() == entry_texts(old(out)@).to_multiset().insert(
            (entry.0@, entry.1@),
        ),
{
    let mut i: usize = 0;
    let ghost before = entry_texts(out@);
    let ghost e = (entry.0@, entry.1@);
    while i < out.len() && entry_before(&out[i], &entry)
        invariant
            i <= out@.len(),
            before == entry_texts(out@),
            e == (entry.0@, entry.1@),
            out@ == old(out)@,
            forall|k: int| 0 <= k < i ==> entry_le(#[trigger] before[k], e),
        decreases out@.len() - i,
    {
        i = i + 1;
    }
    out.insert(i, entry);
    proof {
        let after = entry_texts(out@);
        assert(after =~= before.insert(i as int, e));
        vstd::seq_lib::to_multiset_insert(before, i as int, e);
        assert forall|j: int, k: int| 0 <= j <= k < after.len() implies entry_le(
            #[trigger] after[j],
            #[trigger] after[k],
        ) by {
            lemma_entry_le_total(e, e);
            if k == i && j < i {
                assert(after[j] == before[j]);
            } else if j == i && k > i {
                assert(after[k] == before[k - 1]);
                lemma_entry_le_total(e, before[i as int]);
                assert(entry_le(before[i as int], before[k - 1]));
                lemma_entry_le_trans(e, before[i as int], before[k - 1]);
            } else if j < i && k < i {
                assert(after[j] == before[j] && after[k] == before[k]);
            } else if j < i && k > i {
                assert(after[j] == before[j] && after[k] == before[k - 1]);
            } else if j > i && k > i {
                assert(after[j] == before[j - 1] && after[k] == before[k - 1]);
            }
        }
    }
}

/// What the popup says of a binding.
pub open spec fn binding_entry(b: Binding) -> (Seq<char>, Seq<char>) {
    (key_text(b.key), b.action.spec_label())
}

/// What the popup says of a key that opens a submenu.
pub open spec fn menu_entry(m: MenuKey) -> (Seq<char>, Seq<char>) {
    (key_text(m.key), "▸ "@ + m.menu.spec_label())
}

/// The table of bindings that the popup lists.
pub open spec fn popup_layer(state: LeaderState) -> Layer {
    match state {
        LeaderState::Root => Layer::LeaderRoot,
        LeaderState::Submenu(menu) => Layer::Leader(menu),
    }
}

/// The entries of the popup: those of the bindings in order; and on the first level the
/// submenus after them, as they are listed.
pub open spec fn popup_lists(
    keymap: KeyMap,
    state: LeaderState,
    entries: Seq<(Seq<char>, Seq<char>)>,
) -> bool {
    let bound = layer_bindings(keymap.bindings@, popup_layer(state)).map_values(
        |b: Binding| binding_entry(b),
    );
    let menus = keymap.menus@.map_values(|m: MenuKey| menu_entry(m));
    &&& entries.len() >= bound.len()
    &&& in_order(entries.take(bound.len() as int))
    &&& entries.take(bound.len() as int).to_multiset() == bound.to_multiset()
    &&& entries.skip(bound.len() as int) == (if state == LeaderState::Root {
        menus
    } else {
        Seq::empty()
    })
}

/// The title of the popup.
pub open spec fn popup_title(state: LeaderState) -> Seq<char> {
    match state {
        LeaderState::Root => " leader "@,
        LeaderState::Submenu(menu) => " leader · "@ + menu.spec_label() + " "@,
    }
}

fn title_of(state: LeaderState) -> (r: String)
    ensures
        r@ == popup_title(state),
{
    let mut out = String::new();
    match state {
        LeaderState::Root => {
            out.append(" leader ");
        },
        LeaderState::Submenu(menu) => {
            out.append(" leader · ");
            out.append(menu.label());
            out.append(" ");
        },
    }
    assert(out@ =~= popup_title(state));
    out
}

fn sorted_entries(bindings: &Vec<Binding>) -> (out: Vec<(String, String)>)
    ensures
        in_order(entry_texts(out@)),
        entry_texts(out@).to_multiset() == bindings@.map_values(
            |b: Binding| binding_entry(b),
        ).to_multiset(),
        out@.len() == bindings@.len(),
{
    let mut out: Vec<(String, String)> = Vec::new();
    let mut i: usize = 0;
    let ghost texts = bindings@.map_values(|b: Binding| binding_entry(b));
    assert(entry_texts(out@) =~= texts.take(0));
    while i < bindings.len()
        invariant
            i <= bindings@.len(),
            texts == bindings@.map_values(|b: Binding| binding_entry(b)),
            in_order(entry_texts(out@)),
            entry_texts(out@).to_multiset() == texts.take(i as int).to_multiset(),
        decreases bindings@.len() - i,
    {
        let b = bindings[i];
        let entry = (key_name(b.key), String::from_str(b.action.label()));
        assert((entry.0@, entry.1@) == binding_entry(b));
        put_in_order(&mut out, entry);
        proof {
            assert(texts.take(i + 1) =~= texts.take(i as int).push(texts[i as int]));
            texts.take(i as int).to_multiset_ensures();
        }
        i = i + 1;
    }
    proof {
        assert(texts.take(texts.len() as int) =~= texts);
        entry_texts(out@).to_multiset_ensures();
        texts.to_multiset_ensures();
    }
    out
}

/// The title and the entries of the popup that shows where a chord can go.
pub fn leader_popup_entries(keymap: &KeyMap, state: LeaderState) -> (r: (
    String,
    Vec<(String, String)>,
))
    ensures
        r.0@ == popup_title(state),
        popup_lists(*keymap, state, entry_texts(r.1@)),
{
    let layer = match state {
        LeaderState::Root => Layer::LeaderRoot,
        LeaderState::Submenu(menu) => Layer::Leader(menu),
    };
    let bindings = keymap.iter_layer(layer);
    let mut out = sorted_entries(&bindings);
    let ghost bound = bindings@.map_values(|b: Binding| binding_entry(b));
    let ghost first = entry_texts(out@);
    let ghost menus = keymap.menus@.map_values(|m: MenuKey| menu_entry(m));
    assert(entry_texts(out@) =~= first + menus.take(0));
    let mut i: usize = 0;
    if let LeaderState::Root = state {
        while i < keymap.menus.len()
            invariant
                i <= keymap.menus@.len(),
                menus == keymap.menus@.map_values(|m: MenuKey| menu_entry(m)),
                entry_texts(out@) == first + menus.take(i as int),
            decreases keymap.menus@.len() - i,
        {
            let m = keymap.menus[i];
            let mut label = String::new();
            label.append("▸ ");
            label.append(m.menu.label());
            assert(label@ =~= "▸ "@ + m.menu.spec_label());
            let ghost so_far = entry_texts(out@);
            out.push((key_name(m.key), label));
            proof {
                assert(menus.take(i + 1) =~= menus.take(i as int).push(menus[i as int]));
                assert(entry_texts(out@) =~= so_far.push(menus[i as int]));
                assert(entry_texts(out@) =~= first + menus.take(i + 1));
            }
            i = i + 1;
        }
        assert(menus.take(menus.len() as int) =~= menus);
        assert(entry_texts(out@).skip(bound.len() as int) =~= menus);
    } else {
        assert(entry_texts(out@).skip(bound.len() as int) =~= Seq::empty());
    }
    assert(entry_texts(out@).take(bound.len() as int) =~= first);
    (title_of(state), out)
}

/// The columns that an entry takes: those of its keys and of what they do, and five
/// between and around them, where a byte counts as a column.
pub open spec fn entry_width(e: (Seq<char>, Seq<char>)) -> nat {
    encode_utf8(e.0).len() + encode_utf8(e.1).len() + 5
}

/// The columns that the widest entry takes.
pub open spec fn widest(entries: Seq<(Seq<char>, Seq<char>)>) -> nat
    decreases entries.len(),
{
    if entries.len() == 0 {
        0
    } else {
        let before = widest(entries.drop_last());
        if entry_width(entries.last()) > before {
            entry_width(entries.last())
        } else {
            before
        }
    }
}

/// The width of the popup: that of its widest entry or its title, and from 20 to 50.
pub open spec fn popup_width(title: Seq<char>, entries: Seq<(Seq<char>, Seq<char>)>) -> nat {
    let w = if widest(entries) > encode_utf8(title).len() + 4 {
        widest(entries)
    } else {
        encode_utf8(title).len() + 4
    };
    if w < 20 {
        20
    } else if w > 50 {
        50
    } else {
        w
    }
}

/// The width and the height of the popup: a row for each entry, and two for the border.
pub fn popup_size(title: &str, entries: &Vec<(String, String)>) -> (r: (u16, u16))
    requires
        entries@.len() + 2 <= u16::MAX,
    ensures
        r.0 == popup_width(title@, entry_texts(entries@)),
        r.1 == entries@.len() + 2,
{
    let mut best: usize = 0;
    let mut i: usize = 0;
    let ghost texts = entry_texts(entries@);
    while i < entries.len()
        invariant
            i <= entries@.len(),
            texts == entry_texts(entries@),
            best == (if widest(texts.take(i as int)) < 50 {
                widest(texts.take(i as int))
            } else {
                50
            }),
        decreases entries@.len() - i,
    {
        let keys = entries[i].0.as_str().as_bytes().len();
        let label = entries[i].1.as_str().as_bytes().len();
        let width: usize = if keys < 50 && label < 50 {
            keys + label + 5
        } else {
            50
        };
        let width: usize = if width < 50 {
            width
        } else {
            50
        };
        proof {
            assert(texts.take(i + 1).drop_last() =~= texts.take(i as int));
            assert(texts.take(i + 1).last() == texts[i as int]);
        }
        if width > best {
            best = width;
        }
        i = i + 1;
    }
    assert(texts.take(texts.len() as int) =~= texts);
    let head = title.as_bytes().len();
    let head: usize = if head < 46 {
        head + 4
    } else {
        50
    };
    if head > best {
        best = head;
    }
    if best < 20 {
        best = 20;
    }
    let width = best as u16;
    let height = entries.len() as u16 + 2;
    (width, height)
}

/// The title of a pane that is collapsed, with its jump label while labels are shown.
pub open spec fn spec_stub_title(name: Seq<char>, label: Option<char>) -> Seq<char> {
    match label {
        Some(c) => " "@ + name + " ["@ + seq![c] + "] "@,
        None => " "@ + name + " "@,
    }
}

/// The title of a pane that is collapsed.
pub fn stub_title(name: &str, label: Option<char>) -> (r: String)
    ensures
        r@ == spec_stub_title(name@, label),
{
    let mut out = String::new();
    out.append(" ");
    out.append(name);
    match label {
        Some(c) => {
            out.append(" [");
            out.push(c);
            out.append("] ");
        },
        None => {
            out.append(" ");
        },
    }
    assert(out@ =~= spec_stub_title(name@, label));
    out
}

impl App {
    /// The line under a prompt.
    pub open spec fn spec_prompt_hint(&self, purpose: PromptPurpose) -> Option<Seq<char>> {
        match purpose {
            PromptPurpose::DeleteCollectionConfirm => match self.explorer.selected() {
                Some(row) => Some("type \""@ + row.name@ + "\" to confirm"@),
                None => None,
            },
            PromptPurpose::ImportCollection => Some("path to a Postman v2.1 JSON file"@),
            PromptPurpose::ExportCollection(_) | PromptPurpose::ExportWorkspace(_) => Some(
                "destination path (must stay inside the workspace)"@,
            ),
            PromptPurpose::PasteCurl => Some("paste a curl command"@),
            _ => None,
        }
    }

    /// The line under a prompt, if it has one.
    pub fn prompt_hint(&self, purpose: PromptPurpose) -> (r: Option<String>)
        ensures
            match self.spec_prompt_hint(purpose) {
                Some(t) => r matches Some(s) && s@ == t,
                None => r is None,
            },
    {
        match purpose {
            PromptPurpose::DeleteCollectionConfirm => match self.explorer.selected_name() {
                Some(name) => {
                    let mut out = String::new();
                    out.append("type \"");
                    out.append(name.as_str());
                    out.append("\" to confirm");
                    assert(out@ =~= "type \""@ + name@ + "\" to confirm"@);
                    Some(out)
                },
                None => None,
            },
            PromptPurpose::ImportCollection => Some(
                String::from_str("path to a Postman v2.1 JSON file"),
            ),
            PromptPurpose::ExportCollection(_) | PromptPurpose::ExportWorkspace(_) => Some(
                String::from_str("destination path (must stay inside the workspace)"),
            ),
            PromptPurpose::PasteCurl => Some(String::from_str("paste a curl command")),
            _ => None,
        }
    }
}

/// The popup of the leader key is as wide as its widest line, between twenty and fifty columns.
pub proof fn law_popup_width_is_bounded(
    title: Seq<char>,
    entries: Seq<(Seq<char>, Seq<char>)>,
    i: int,
)
    requires
        0 <= i < entries.len(),
    ensures
        20 <= popup_width(title, entries) <= 50,
        encode_utf8(entries[i].0).len() + encode_utf8(entries[i].1).len() + 5 <= 50 ==> encode_utf8(
            entries[i].0,
        ).len() + encode_utf8(entries[i].1).len() + 5 <= popup_width(title, entries),
        encode_utf8(title).len() + 4 <= 50 ==> encode_utf8(title).len() + 4 <= popup_width(
            title,
            entries,
        ),
{
    lemma_widest(entries, i);
}

proof fn lemma_widest(entries: Seq<(Seq<char>, Seq<char>)>, i: int)
    requires
        0 <= i < entries.len(),
    ensures
        entry_width(entries[i]) <= widest(entries),
    decreases entries.len(),
{
    if i < entries.len() - 1 {
        lemma_widest(entries.drop_last(), i);
    }
}

/// The entries of the popup are in the order of their keys: of two keys the one whose first
/// differing character is smaller stands first, and a key that another begins with stands before
/// it.
pub proof fn law_popup_order_is_by_the_key(
    a: char,
    b: char,
    s: Seq<char>,
    t: Seq<char>,
    p: Seq<char>,
)
    requires
        a < b,
    ensures
        text_le(p + (seq![a] + s), p + (seq![b] + t)),
        !text_le(p + (seq![b] + t), p + (seq![a] + s)),
        text_le(p, p + s),
    decreases p.len(),
{
    let (x, y) = (p + (seq![a] + s), p + (seq![b] + t));
    if p.len() > 0 {
        law_popup_order_is_by_the_key(a, b, s, t, p.skip(1));
        assert(x.skip(1) =~= p.skip(1) + (seq![a] + s));
        assert(y.skip(1) =~= p.skip(1) + (seq![b] + t));
        assert((p + s).skip(1) =~= p.skip(1) + s);
        assert(x[0] == p[0] && y[0] == p[0]);
        if s.len() + p.len() > 0 {
            assert((p + s)[0] == p[0]);
        }
    } else {
        assert(x =~= seq![a] + s);
        assert(y =~= seq![b] + t);
    }
}

/// The popup is titled with the leader key, and with the menu that is open; a key that opens a
/// menu is listed with the menu's name behind an arrow, after the keys that act.
pub proof fn law_popup_names_its_menu(
    keymap: KeyMap,
    menu: LeaderMenu,
    entries: Seq<(Seq<char>, Seq<char>)>,
    i: int,
)
    requires
        popup_lists(keymap, LeaderState::Root, entries),
        0 <= i < keymap.menus@.len(),
    ensures
        popup_title(LeaderState::Root) == " leader "@,
        popup_title(LeaderState::Submenu(menu)) == " leader · "@ + menu.spec_label() + " "@,
        entries.len() >= keymap.menus@.len(),
        entries[entries.len() - keymap.menus@.len() + i] == (
            key_text(keymap.menus@[i].key),
            "▸ "@ + keymap.menus@[i].menu.spec_label(),
        ),
{
    let bound = layer_bindings(keymap.bindings@, popup_layer(LeaderState::Root)).map_values(
        |b: Binding| binding_entry(b),
    );
    let n = bound.len() as int;
    let menus = keymap.menus@.map_values(|m: MenuKey| menu_entry(m));
    assert(entries.skip(n) == menus);
    assert(entries.skip(n).len() == keymap.menus@.len());
    assert(entries.skip(n)[i] == entries[n + i]);
}

/// A pane that is folded away shows its name, with the letter that leads to it while one jumps.
pub proof fn law_stub_shows_its_name(name: Seq<char>, c: char)
    ensures
        spec_stub_title(name, None) == " "@ + name + " "@,
        spec_stub_title(name, Some(c)) == " "@ + name + " ["@ + seq![c] + "] "@,
{
}

/// The prompt to delete a collection says which name is to be typed.
pub proof fn law_delete_prompt_names_the_collection(a: App)
    ensures
        a.explorer.cursor < a.explorer.rows@.len() ==> a.spec_prompt_hint(
            PromptPurpose::DeleteCollectionConfirm,
        ) == Some(
            "type \""@ + a.explorer.rows@[a.explorer.cursor as int].name@ + "\" to confirm"@,
        ),
        a.explorer.cursor >= a.explorer.rows@.len() ==> a.spec_prompt_hint(
            PromptPurpose::DeleteCollectionConfirm,
        ) is None,
{
}

} // verus!
