//! The left column: the tree of endpoints and the list of sequences, as they
//! are shown.

use vstd::prelude::*;
use vstd::string::*;

use crate::buffer::SelectedEndpoint;
use crate::model::{Content, Endpoint};
use crate::notice::Notice;
use crate::query::{find, find_char, lemma_find};
use crate::sequence::Sequence;
use crate::text::{join, joined, substring, texts, to_chars};
use crate::vars::Vars;

verus! {

/// What a row of the tree is.
#[derive(Debug, Clone, Copy, PartialEq, Eq, Structural)]
pub enum RowKind {
    /// A collection.
    Collection,
    /// An endpoint.
    Endpoint,
}

/// A row of the tree.
#[derive(Debug)]
pub struct Row {
    /// What it is.
    pub kind: RowKind,
    /// Its name.
    pub name: String,
    /// The directory of a collection, the file of an endpoint.
    pub path: String,
    /// What is shown of the path.
    pub display_path: String,
    /// The directory of the collection: its own, or the one that it is in.
    pub collection_dir: String,
    /// The index of that collection.
    pub collection: usize,
    /// The endpoint, where it is one.
    pub endpoint: Option<Endpoint>,
}

/// A sequence in the list.
#[derive(Debug)]
pub struct SequenceItem {
    /// Its name.
    pub name: String,
    /// Its file.
    pub file: String,
    /// The sequence.
    pub sequence: Sequence,
}

/// The left column as it is shown.
#[derive(Debug)]
pub struct Explorer {
    /// The rows of the tree that are not folded away.
    pub rows: Vec<Row>,
    /// The row under the cursor.
    pub cursor: usize,
    /// The first row that is shown.
    pub first_visible: usize,
    /// The sequences in order.
    pub sequences: Vec<SequenceItem>,
    /// The sequence under the cursor.
    pub seq_cursor: usize,
    /// The variables of the collections.
    pub collection_vars: Vec<Vars>,
    /// The files of all endpoints, folded away or not.
    pub endpoint_files: Vec<String>,
    /// What went wrong when the files were read.
    pub warnings: Vec<String>,
}

/// A cursor one up.
pub open spec fn cursor_up(cursor: usize) -> usize {
    if cursor > 0 {
        (cursor - 1) as usize
    } else {
        0
    }
}

/// A cursor one down, within so many rows.
pub open spec fn cursor_down(cursor: usize, rows: nat) -> usize {
    if cursor + 1 < rows {
        (cursor + 1) as usize
    } else {
        cursor
    }
}

/// The last of so many rows.
pub open spec fn last_row(rows: nat) -> usize {
    if rows > 0 {
        (rows - 1) as usize
    } else {
        0
    }
}

/// The endpoint of a row, as it is opened.
pub open spec fn row_selects(row: Row, s: SelectedEndpoint) -> bool {
    &&& row.endpoint matches Some(e) && s.endpoint@ == e@
    &&& s.display_path == row.display_path
    &&& s.file == row.path
    &&& s.collection == row.collection
}

/// The place of the first sequence with a file, or how many there are.
pub open spec fn sequence_at(list: Seq<SequenceItem>, file: Seq<char>) -> int
    decreases list.len(),
{
    if list.len() == 0 || list[0].file@ == file {
        0
    } else {
        1 + sequence_at(list.skip(1), file)
    }
}

impl Explorer {
    /// The variables of the collections are well formed.
    pub open spec fn wf(&self) -> bool {
        forall|i: int|
            0 <= i < self.collection_vars@.len() ==> (#[trigger] self.collection_vars@[i]).wf()
    }

    /// An empty column.
    pub fn empty() -> (r: Explorer)
        ensures
            r.rows@.len() == 0,
            r.cursor == 0,
            r.first_visible == 0,
            r.sequences@.len() == 0,
            r.seq_cursor == 0,
            r.collection_vars@.len() == 0,
            r.endpoint_files@.len() == 0,
            r.warnings@.len() == 0,
            r.wf(),
    {
        Explorer {
            rows: Vec::new(),
            cursor: 0,
            first_visible: 0,
            sequences: Vec::new(),
            seq_cursor: 0,
            collection_vars: Vec::new(),
            endpoint_files: Vec::new(),
            warnings: Vec::new(),
        }
    }

    /// The row under the cursor.
    pub open spec fn selected(&self) -> Option<Row> {
        if self.cursor < self.rows@.len() {
            Some(self.rows@[self.cursor as int])
        } else {
            None
        }
    }

    /// What the row under the cursor is.
    pub fn selected_kind(&self) -> (r: Option<RowKind>)
        ensures
            r == (match self.selected() {
                Some(row) => Some(row.kind),
                None => None,
            }),
    {
        if self.cursor < self.rows.len() {
            Some(self.rows[self.cursor].kind)
        } else {
            None
        }
    }

    /// The name of the row under the cursor.
    pub fn selected_name(&self) -> (r: Option<String>)
        ensures
            r == (match self.selected() {
                Some(row) => Some(row.name),
                None => None,
            }),
    {
        if self.cursor < self.rows.len() {
            Some(self.rows[self.cursor].name.clone())
        } else {
            None
        }
    }

    /// The directory of the collection under the cursor: the row's own, or the
    /// one that the endpoint is in.
    pub fn selected_collection_dir(&self) -> (r: Option<String>)
        ensures
            r == (match self.selected() {
                Some(row) => Some(row.collection_dir),
                None => None,
            }),
    {
        if self.cursor < self.rows.len() {
            Some(self.rows[self.cursor].collection_dir.clone())
        } else {
            None
        }
    }

    /// The file of the endpoint under the cursor.
    pub open spec fn endpoint_file(&self) -> Option<String> {
        match self.selected() {
            Some(row) if row.kind == RowKind::Endpoint => Some(row.path),
            _ => None,
        }
    }

    /// The file of the endpoint under the cursor.
    pub fn selected_endpoint_file(&self) -> (r: Option<String>)
        ensures
            r == self.endpoint_file(),
    {
        if self.cursor < self.rows.len() && self.rows[self.cursor].kind == RowKind::Endpoint {
            Some(self.rows[self.cursor].path.clone())
        } else {
            None
        }
    }

    /// The endpoint of a row, as it is opened.
    pub fn endpoint_at(&self, row: usize) -> (r: Option<SelectedEndpoint>)
        ensures
            match r {
                Some(s) => row < self.rows@.len() && row_selects(self.rows@[row as int], s),
                None => row >= self.rows@.len() || self.rows@[row as int].endpoint is None,
            },
    {
        if row >= self.rows.len() {
            return None;
        }
        let r = &self.rows[row];
        match &r.endpoint {
            Some(e) => Some(
                SelectedEndpoint {
                    display_path: r.display_path.clone(),
                    file: r.path.clone(),
                    collection: r.collection,
                    endpoint: e.copy(),
                },
            ),
            None => None,
        }
    }

    /// Moves the cursor in the tree one up.
    pub fn move_up(&mut self)
        ensures
            *final(self) == (Explorer { cursor: cursor_up(old(self).cursor), ..*old(self) }),
    {
        if self.cursor > 0 {
            self.cursor = self.cursor - 1;
        }
    }

    /// Moves the cursor in the tree one down.
    pub fn move_down(&mut self)
        ensures
            *final(self) == (Explorer {
                cursor: cursor_down(old(self).cursor, old(self).rows@.len()),
                ..*old(self)
            }),
    {
        let rows = self.rows.len();
        if self.cursor < rows && self.cursor + 1 < rows {
            self.cursor = self.cursor + 1;
        }
    }

    /// Moves the cursor in the tree to the first row.
    pub fn top(&mut self)
        ensures
            *final(self) == (Explorer { cursor: 0, ..*old(self) }),
    {
        self.cursor = 0;
    }

    /// Moves the cursor in the tree to the last row.
    pub fn bottom(&mut self)
        ensures
            *final(self) == (Explorer { cursor: last_row(old(self).rows@.len()), ..*old(self) }),
    {
        self.cursor = if self.rows.len() > 0 {
            self.rows.len() - 1
        } else {
            0
        };
    }

    /// Moves the cursor in the list of sequences one up.
    pub fn seq_move_up(&mut self)
        ensures
            *final(self) == (Explorer {
                seq_cursor: cursor_up(old(self).seq_cursor),
                ..*old(self)
            }),
    {
        if self.seq_cursor > 0 {
            self.seq_cursor = self.seq_cursor - 1;
        }
    }

    /// Moves the cursor in the list of sequences one down.
    pub fn seq_move_down(&mut self)
        ensures
            *final(self) == (Explorer {
                seq_cursor: cursor_down(old(self).seq_cursor, old(self).sequences@.len()),
                ..*old(self)
            }),
    {
        let rows = self.sequences.len();
        if self.seq_cursor < rows && self.seq_cursor + 1 < rows {
            self.seq_cursor = self.seq_cursor + 1;
        }
    }

    /// Moves the cursor in the list of sequences to the first.
    pub fn seq_top(&mut self)
        ensures
            *final(self) == (Explorer { seq_cursor: 0, ..*old(self) }),
    {
        self.seq_cursor = 0;
    }

    /// Moves the cursor in the list of sequences to the last.
    pub fn seq_bottom(&mut self)
        ensures
            *final(self) == (Explorer {
                seq_cursor: last_row(old(self).sequences@.len()),
                ..*old(self)
            }),
    {
        self.seq_cursor = if self.sequences.len() > 0 {
            self.sequences.len() - 1
        } else {
            0
        };
    }

    /// The sequence under the cursor.
    pub open spec fn sequence(&self) -> Option<SequenceItem> {
        if self.seq_cursor < self.sequences@.len() {
            Some(self.sequences@[self.seq_cursor as int])
        } else {
            None
        }
    }

    /// The sequence under the cursor.
    pub fn selected_sequence(&self) -> (r: Option<&SequenceItem>)
        ensures
            match r {
                Some(s) => self.sequence() == Some(*s),
                None => self.sequence() is None,
            },
    {
        if self.seq_cursor < self.sequences.len() {
            Some(&self.sequences[self.seq_cursor])
        } else {
            None
        }
    }

    /// Moves the cursor in the list of sequences onto a file. Where there is none
    /// with that file, it stays.
    pub fn select_sequence_file(&mut self, file: &String)
        ensures
            *final(self) == (Explorer {
                seq_cursor: if sequence_at(old(self).sequences@, file@) < old(
                    self,
                ).sequences@.len() {
                    sequence_at(old(self).sequences@, file@) as usize
                } else {
                    old(self).seq_cursor
                },
                ..*old(self)
            }),
    {
        let mut i: usize = 0;
        assert(self.sequences@.skip(0) =~= self.sequences@);
        while i < self.sequences.len()
            invariant
                i <= self.sequences.len(),
                *self == *old(self),
                sequence_at(self.sequences@, file@) == i + sequence_at(
                    self.sequences@.skip(i as int),
                    file@,
                ),
            decreases self.sequences.len() - i,
        {
            assert(self.sequences@.skip(i as int).skip(1) =~= self.sequences@.skip(i + 1));
            if self.sequences[i].file == *file {
                self.seq_cursor = i;
                return;
            }
            i = i + 1;
        }
    }

    /// The variables of a collection; none where there is no such collection.
    pub fn collection_vars(&self, index: usize) -> (r: Vars)
        requires
            self.wf(),
        ensures
            r@ == self.vars_of(index),
            r.wf(),
    {
        if index < self.collection_vars.len() {
            self.collection_vars[index].copy()
        } else {
            Vars::new()
        }
    }

    /// The variables of a collection.
    pub open spec fn vars_of(&self, index: usize) -> Map<Seq<char>, Seq<char>> {
        if index < self.collection_vars@.len() {
            self.collection_vars@[index as int]@
        } else {
            Map::empty()
        }
    }
}

/// The rows with an endpoint that was saved: the row of its file shows it.
pub open spec fn rows_updated(
    rows: Seq<Row>,
    after: Seq<Row>,
    path: Seq<char>,
    endpoint: crate::model::EndpointView,
) -> bool {
    &&& after.len() == rows.len()
    &&& forall|i: int|
        #![trigger after[i]]
        0 <= i < rows.len() ==> if rows[i].kind == RowKind::Endpoint && rows[i].path@ == path {
            &&& after[i].name@ == endpoint.name
            &&& after[i].endpoint matches Some(e) && e@ == endpoint
            &&& after[i] == (Row { name: after[i].name, endpoint: after[i].endpoint, ..rows[i] })
        } else {
            after[i] == rows[i]
        }
}

impl Explorer {
    /// Shows an endpoint that was saved in the row of its file.
    pub fn update_endpoint(&mut self, path: &String, endpoint: &Endpoint)
        ensures
            rows_updated(old(self).rows@, final(self).rows@, path@, endpoint@),
            *final(self) == (Explorer { rows: final(self).rows, ..*old(self) }),
            old(self).wf() ==> final(self).wf(),
    {
        let mut i: usize = 0;
        let total = self.rows.len();
        let ghost before = self.rows@;
        while i < total
            invariant
                i <= total,
                total == before.len(),
                before == old(self).rows@,
                *self == (Explorer { rows: self.rows, ..*old(self) }),
                self.rows@.len() == total,
                rows_updated(before.take(i as int), self.rows@.take(i as int), path@, endpoint@),
                forall|j: int| i <= j < total ==> self.rows@[j] == before[j],
            decreases total - i,
        {
            let ghost mid = self.rows@;
            if self.rows[i].kind == RowKind::Endpoint && self.rows[i].path == *path {
                self.rows[i].name = endpoint.name.clone();
                self.rows[i].endpoint = Some(endpoint.copy());
            }
            proof {
                let a = self.rows@.take(i + 1);
                assert forall|j: int| #![trigger a[j]] 0 <= j < i + 1 implies if before[j].kind
                    == RowKind::Endpoint && before[j].path@ == path@ {
                    &&& a[j].name@ == endpoint@.name
                    &&& a[j].endpoint matches Some(e) && e@ == endpoint@
                    &&& a[j] == (Row { name: a[j].name, endpoint: a[j].endpoint, ..before[j] })
                } else {
                    a[j] == before[j]
                } by {
                    if j < i {
                        assert(a[j] == mid.take(i as int)[j]);
                        assert(before.take(i as int)[j] == before[j]);
                    }
                }
            }
            i = i + 1;
        }
        assert(self.rows@.take(total as int) =~= self.rows@);
        assert(before.take(total as int) =~= before);
    }
}

/// A text without the prefixes that it starts with.
pub open spec fn without_prefixes(s: Seq<char>, p: Seq<char>) -> Seq<char>
    decreases s.len(),
{
    if p.len() > 0 && p.len() <= s.len() && s.take(p.len() as int) == p {
        without_prefixes(s.skip(p.len() as int), p)
    } else {
        s
    }
}

/// The file that a warning is about: the words that lead in are left out, and
/// what stands behind a colon.
pub open spec fn warned_file(w: Seq<char>) -> Seq<char> {
    let rest = without_prefixes(w, "skipped "@);
    rest.take(find(rest, ':'))
}

/// The files that warnings are about, two at most, and how many more there are.
pub open spec fn warned_detail(warnings: Seq<Seq<char>>) -> Seq<char> {
    if warnings.len() <= 2 {
        joined(warnings.map_values(|w: Seq<char>| warned_file(w)), ", "@)
    } else {
        joined(warnings.take(2).map_values(|w: Seq<char>| warned_file(w)), ", "@) + ", +"@
            + crate::text::decimal((warnings.len() - 2) as nat) + " more"@
    }
}

fn starts_at(chars: &Vec<char>, from: usize, p: &Vec<char>) -> (r: bool)
    requires
        from <= chars.len(),
    ensures
        r == (p@.len() <= chars@.len() - from && chars@.skip(from as int).take(p@.len() as int)
            == p@),
{
    if p.len() > chars.len() - from {
        return false;
    }
    let mut i: usize = 0;
    let total = chars.len();
    while i < p.len()
        invariant
            i <= p.len(),
            total == chars.len(),
            p@.len() <= chars@.len() - from,
            from <= chars@.len(),
            forall|j: int| 0 <= j < i ==> chars@[from + j] == p@[j],
        decreases p.len() - i,
    {
        if chars[from + i] != p[i] {
            assert(chars@.skip(from as int).take(p@.len() as int)[i as int] != p@[i as int]);
            return false;
        }
        i = i + 1;
    }
    assert(chars@.skip(from as int).take(p@.len() as int) =~= p@);
    true
}

/// The file that a warning is about.
pub fn name_in_warning(w: &str) -> (r: String)
    ensures
        r@ == warned_file(w@),
{
    let chars = to_chars(w);
    let p = to_chars("skipped ");
    proof {
        reveal_strlit("skipped ");
    }
    let mut from: usize = 0;
    assert(chars@.skip(0) =~= chars@);
    while starts_at(&chars, from, &p)
        invariant
            from <= chars.len(),
            chars@ == w@,
            p@ == "skipped "@,
            p@.len() == 8,
            without_prefixes(w@, p@) == without_prefixes(chars@.skip(from as int), p@),
        decreases chars.len() - from,
    {
        assert(chars@.skip(from as int).skip(8) =~= chars@.skip(from + 8));
        from = from + 8;
    }
    let ghost rest = chars@.skip(from as int);
    assert(chars@.subrange(from as int, chars@.len() as int) =~= rest);
    let end = find_char(&chars, from, chars.len(), ':');
    proof {
        lemma_find(rest, ':');
        assert(chars@.subrange(from as int, end as int) =~= rest.take(end - from));
    }
    substring(&chars, from, end)
}

impl Explorer {
    /// What is said of the files that could not be read, if there are any: how
    /// many, and two of them by name.
    pub open spec fn warns(&self, n: Option<Notice>) -> bool {
        if self.warnings@.len() == 0 {
            n is None
        } else {
            n matches Some(Notice::Skipped { count, detail }) && count == self.warnings@.len()
                && detail@ == warned_detail(texts(self.warnings@))
        }
    }

    /// Takes the warnings, and tells what is said of them.
    pub fn take_warnings(&mut self) -> (r: Option<Notice>)
        ensures
            old(self).warns(r),
            final(self).warnings@.len() == 0,
            *final(self) == (Explorer { warnings: final(self).warnings, ..*old(self) }),
    {
        let n = self.warnings.len();
        if n == 0 {
            return None;
        }
        let ghost ws = texts(self.warnings@);
        let mut named: Vec<String> = Vec::new();
        let mut i: usize = 0;
        let shown: usize = if n <= 2 {
            n
        } else {
            2
        };
        while i < shown
            invariant
                i <= shown,
                shown <= n,
                n == self.warnings@.len(),
                ws == texts(self.warnings@),
                named@.len() == i,
                forall|j: int| 0 <= j < i ==> (#[trigger] named@[j])@ == warned_file(ws[j]),
            decreases shown - i,
        {
            let w = name_in_warning(self.warnings[i].as_str());
            named.push(w);
            i = i + 1;
        }
        let mut detail = join(&named, ", ");
        proof {
            assert(texts(named@) =~= ws.take(shown as int).map_values(
                |w: Seq<char>| warned_file(w),
            ));
            if n <= 2 {
                assert(ws.take(shown as int) =~= ws);
            }
        }
        if n > 2 {
            detail.append(", +");
            detail.append(crate::text::decimal_text((n - 2) as u64).as_str());
            detail.append(" more");
        }
        assert(detail@ =~= warned_detail(ws));
        self.warnings = Vec::new();
        Some(Notice::Skipped { count: n as u64, detail })
    }
}

/// The cursor goes up and down by one row and stops at the first and the last; the last row of
/// a list is one less than its length.
pub proof fn law_cursor_steps_and_stops(cursor: usize, rows: nat)
    requires
        cursor < rows,
        rows <= usize::MAX,
    ensures
        cursor > 0 ==> cursor_up(cursor) == cursor - 1,
        cursor_up(0) == 0,
        cursor + 1 < rows ==> cursor_down(cursor, rows) == cursor + 1,
        cursor + 1 == rows ==> cursor_down(cursor, rows) == cursor,
        last_row(rows) == rows - 1,
        last_row(0) == 0,
{
}

/// A saved endpoint is shown in the row of its file with the name that it has now; every other
/// row stays, and so does where each row stands.
pub proof fn law_saved_endpoint_is_shown_in_its_row(
    rows: Seq<Row>,
    after: Seq<Row>,
    path: Seq<char>,
    endpoint: crate::model::EndpointView,
    i: int,
)
    requires
        rows_updated(rows, after, path, endpoint),
        0 <= i < rows.len(),
    ensures
        after.len() == rows.len(),
        after[i].path == rows[i].path,
        after[i].kind == rows[i].kind,
        after[i].collection_dir == rows[i].collection_dir,
        rows[i].kind is Endpoint && rows[i].path@ == path ==> after[i].name@ == endpoint.name && (
        after[i].endpoint matches Some(e) && e@ == endpoint),
        rows[i].kind is Collection || rows[i].path@ != path ==> after[i] == rows[i],
{
}

/// A sequence is found by its file: its place is that of the first one with it.
pub proof fn law_sequence_is_found_by_its_file(list: Seq<SequenceItem>, file: Seq<char>)
    ensures
        0 <= sequence_at(list, file) <= list.len(),
        sequence_at(list, file) < list.len() ==> list[sequence_at(list, file)].file@ == file,
        forall|i: int| 0 <= i < sequence_at(list, file) ==> (#[trigger] list[i]).file@ != file,
    decreases list.len(),
{
    if list.len() > 0 && list[0].file@ != file {
        law_sequence_is_found_by_its_file(list.skip(1), file);
        assert forall|i: int| 0 <= i < sequence_at(list, file) implies (
        #[trigger] list[i]).file@ != file by {
            if i > 0 {
                assert(list[i] == list.skip(1)[i - 1]);
            }
        }
    }
}

/// The row under the cursor is what an action on the tree is about; the variables of a
/// collection are those at its place.
pub proof fn law_selected_row_is_under_the_cursor(e: Explorer, index: usize)
    ensures
        e.cursor < e.rows@.len() ==> e.selected() == Some(e.rows@[e.cursor as int]),
        e.cursor >= e.rows@.len() ==> e.selected() is None,
        e.cursor < e.rows@.len() && e.rows@[e.cursor as int].kind is Endpoint ==> e.endpoint_file()
            == Some(e.rows@[e.cursor as int].path),
        e.cursor < e.rows@.len() && e.rows@[e.cursor as int].kind is Collection
            ==> e.endpoint_file() is None,
        e.seq_cursor < e.sequences@.len() ==> e.sequence() == Some(
            e.sequences@[e.seq_cursor as int],
        ),
        index < e.collection_vars@.len() ==> e.vars_of(index) == e.collection_vars@[index as int]@,
        index >= e.collection_vars@.len() ==> e.vars_of(index).dom() =~= Set::<Seq<char>>::empty(),
{
}

/// The files that could not be read are told of: two by name, and how many more there are.
pub proof fn law_skipped_files_are_told(a: Seq<char>, b: Seq<char>, c: Seq<char>)
    ensures
        warned_detail(seq![a]) == warned_file(a),
        warned_detail(seq![a, b]) == warned_file(a) + ", "@ + warned_file(b),
        warned_detail(seq![a, b, c]) == warned_file(a) + ", "@ + warned_file(b) + ", +"@ + seq!['1']
            + " more"@,
{
    let f = |w: Seq<char>| warned_file(w);
    let (x, y) = (warned_file(a), warned_file(b));
    assert(seq![a].map_values(f) =~= seq![x]);
    assert(seq![a, b].map_values(f) =~= seq![x, y]);
    assert(seq![a, b, c].take(2) =~= seq![a, b]);
    assert(seq![x, y].drop_last() =~= seq![x]);
    reveal_with_fuel(joined, 3);
    assert(joined(seq![x, y], ", "@) == x + ", "@ + y);
    assert(crate::text::decimal(1) == seq!['1']);
}

} // verus!
