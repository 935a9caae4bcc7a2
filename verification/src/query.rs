//! Query strings: splitting a URL into its base and its decoded pairs, and
//! merging those pairs into the rows of a request's parameters.

use vstd::prelude::*;
use vstd::string::*;
use vstd::utf8::{decode_utf8, encode_scalar, encode_utf8, valid_utf8};

use crate::model::{contents, Param, RowView};
use crate::text::{join, joined, substring, texts, to_chars, trim_range, trimmed};

verus! {

/// The position of the first `c` in `s`, or the length of `s`.
pub open spec fn find(s: Seq<char>, c: char) -> int
    decreases s.len(),
{
    if s.len() == 0 || s[0] == c {
        0
    } else {
        1 + find(s.skip(1), c)
    }
}

/// The value of a hexadecimal digit.
pub open spec fn hex_digit(b: u8) -> Option<u8> {
    if 0x30 <= b <= 0x39 {
        Some((b - 0x30) as u8)
    } else if 0x41 <= b <= 0x46 {
        Some((b - 0x41 + 10) as u8)
    } else if 0x61 <= b <= 0x66 {
        Some((b - 0x61 + 10) as u8)
    } else {
        None
    }
}

/// What form encoding says of `b`: `+` is a space, `%XX` is the byte with that
/// hexadecimal value, and every other byte stands for itself.
pub open spec fn decoded_bytes(b: Seq<u8>) -> Seq<u8>
    decreases b.len(),
{
    if b.len() == 0 {
        Seq::empty()
    } else if b[0] == 0x2b {
        seq![0x20u8] + decoded_bytes(b.skip(1))
    } else if b[0] == 0x25 && b.len() > 2 && hex_digit(b[1]) is Some && hex_digit(b[2]) is Some {
        seq![(hex_digit(b[1])->0 * 16 + hex_digit(b[2])->0) as u8] + decoded_bytes(b.skip(3))
    } else {
        seq![b[0]] + decoded_bytes(b.skip(1))
    }
}

/// The text that `String::from_utf8_lossy` reads from `bytes`.
pub uninterp spec fn utf8_lossy(bytes: Seq<u8>) -> Seq<char>;

/// Trusted: `String::from_utf8_lossy` of std, owned. Bytes that are UTF-8 come
/// out as the text they encode, and so do those at the start that are UTF-8 on their own,
/// with the rest read as it would be without them: only what is not UTF-8 is replaced.
/// How it is replaced is left to [`utf8_lossy`].
#[verifier::external_body]
fn text_of_bytes(bytes: &Vec<u8>) -> (r: String)
    ensures
        r@ == utf8_lossy(bytes@),
        valid_utf8(bytes@) ==> r@ == decode_utf8(bytes@),
        forall|i: int|
            0 <= i <= bytes@.len() && valid_utf8(#[trigger] bytes@.take(i)) ==> r@ == decode_utf8(
                bytes@.take(i),
            ) + utf8_lossy(bytes@.skip(i)),
{
    String::from_utf8_lossy(bytes).into_owned()
}

/// The text that a form-encoded text stands for.
pub open spec fn decoded(s: Seq<char>) -> Seq<char> {
    utf8_lossy(decoded_bytes(encode_utf8(s)))
}

/// The value of a hexadecimal digit.
pub fn hex_value(b: u8) -> (r: Option<u8>)
    ensures
        r == hex_digit(b),
{
    if 0x30 <= b && b <= 0x39 {
        Some(b - 0x30)
    } else if 0x41 <= b && b <= 0x46 {
        Some(b - 0x41 + 10)
    } else if 0x61 <= b && b <= 0x66 {
        Some(b - 0x61 + 10)
    } else {
        None
    }
}

proof fn lemma_decoded_bytes_step(b: Seq<u8>, i: int, w: int, out: Seq<u8>, o: u8)
    requires
        0 <= i,
        i + w <= b.len(),
        w > 0,
        decoded_bytes(b) == out + decoded_bytes(b.skip(i)),
        decoded_bytes(b.skip(i)) == seq![o] + decoded_bytes(b.skip(i).skip(w)),
    ensures
        decoded_bytes(b) == out.push(o) + decoded_bytes(b.skip(i + w)),
{
    assert(b.skip(i).skip(w) =~= b.skip(i + w));
    assert(out + (seq![o] + decoded_bytes(b.skip(i + w))) =~= out.push(o) + decoded_bytes(
        b.skip(i + w),
    ));
}

/// The bytes that form-encoded `bytes` stand for. An escape that is not `%`
/// with two hexadecimal digits passes through as it is.
pub fn decode_bytes(bytes: &[u8]) -> (out: Vec<u8>)
    ensures
        out@ == decoded_bytes(bytes@),
{
    let mut out: Vec<u8> = Vec::new();
    let mut i: usize = 0;
    assert(bytes@.skip(0) =~= bytes@);
    assert(out@ + decoded_bytes(bytes@) =~= decoded_bytes(bytes@));
    while i < bytes.len()
        invariant
            i <= bytes.len(),
            decoded_bytes(bytes@) == out@ + decoded_bytes(bytes@.skip(i as int)),
        decreases bytes.len() - i,
    {
        let ghost rest = bytes@.skip(i as int);
        let b = bytes[i];
        if b == 0x2b {
            proof {
                lemma_decoded_bytes_step(bytes@, i as int, 1, out@, 0x20);
            }
            out.push(0x20);
            i = i + 1;
        } else if b == 0x25 && bytes.len() - i > 2 {
            let hi = hex_value(bytes[i + 1]);
            let lo = hex_value(bytes[i + 2]);
            if let (Some(h), Some(l)) = (hi, lo) {
                assert(h < 16 && l < 16);
                let v: u8 = h * 16 + l;
                proof {
                    assert(rest[1] == bytes@[i + 1] && rest[2] == bytes@[i + 2]);
                    lemma_decoded_bytes_step(bytes@, i as int, 3, out@, v);
                }
                out.push(v);
                i = i + 3;
            } else {
                proof {
                    assert(rest[1] == bytes@[i + 1] && rest[2] == bytes@[i + 2]);
                    lemma_decoded_bytes_step(bytes@, i as int, 1, out@, b);
                }
                out.push(b);
                i = i + 1;
            }
        } else {
            proof {
                lemma_decoded_bytes_step(bytes@, i as int, 1, out@, b);
            }
            out.push(b);
            i = i + 1;
        }
    }
    assert(bytes@.skip(bytes@.len() as int) =~= Seq::empty());
    assert(out@ + Seq::<u8>::empty() =~= out@);
    out
}

/// A text with a space for each `+`.
pub open spec fn spaced(s: Seq<char>) -> Seq<char> {
    s.map_values(
        |c: char|
            if c == '+' {
                ' '
            } else {
                c
            },
    )
}

/// Minimal form decoding: `+` is a space and `%XX` a byte; an invalid escape
/// passes through as it is. A part at the start without `%` decodes on its own: each `+`
/// of it is a space, and what follows it is decoded as if it stood alone.
pub fn percent_decode(input: &str) -> (r: String)
    ensures
        r@ == decoded(input@),
        valid_utf8(decoded_bytes(encode_utf8(input@))) ==> r@ == decode_utf8(
            decoded_bytes(encode_utf8(input@)),
        ),
        !input@.contains('%') ==> r@ == spaced(input@),
        forall|a: Seq<char>, b: Seq<char>|
            input@ == #[trigger] (a + b) && !a.contains('%') ==> r@ == spaced(a) + decoded(b),
{
    let bytes = decode_bytes(input.as_bytes());
    let r = text_of_bytes(&bytes);
    proof {
        assert forall|a: Seq<char>, b: Seq<char>|
            input@ == #[trigger] (a + b) && !a.contains('%') implies r@ == spaced(a) + decoded(
            b,
        ) by {
            law_unescaped_part_decodes_on_its_own(a, b);
            let head = encode_utf8(spaced(a));
            let tail = decoded_bytes(encode_utf8(b));
            vstd::utf8::encode_utf8_valid_utf8(spaced(a));
            vstd::utf8::encode_utf8_decode_utf8(spaced(a));
            assert(bytes@.take(head.len() as int) =~= head);
            assert(bytes@.skip(head.len() as int) =~= tail);
        }
        if !input@.contains('%') {
            let none: Seq<char> = Seq::empty();
            law_unescaped_part_decodes_on_its_own(input@, none);
            assert(input@ + none =~= input@);
            assert(encode_utf8(none) =~= Seq::empty());
            assert(bytes@ =~= encode_utf8(spaced(input@)));
            vstd::utf8::encode_utf8_valid_utf8(spaced(input@));
            vstd::utf8::encode_utf8_decode_utf8(spaced(input@));
        }
    }
    r
}

/// The pair that one segment of a query stands for: the decoded texts on the two
/// sides of the first `=`, or a name with an empty value.
pub open spec fn query_pair(seg: Seq<char>) -> (Seq<char>, Seq<char>) {
    let i = find(seg, '=');
    if i < seg.len() {
        (decoded(trimmed(seg.take(i))), decoded(trimmed(seg.skip(i + 1))))
    } else {
        (decoded(trimmed(seg)), Seq::empty())
    }
}

/// The pairs of a query: one for each segment between `&` that is not empty.
pub open spec fn query_pairs(q: Seq<char>) -> Seq<(Seq<char>, Seq<char>)>
    decreases q.len(),
    via query_pairs_decreases
{
    let i = find(q, '&');
    let head = if i == 0 {
        Seq::empty()
    } else {
        seq![query_pair(q.take(i))]
    };
    if i < q.len() {
        head + query_pairs(q.skip(i + 1))
    } else {
        head
    }
}

#[via_fn]
proof fn query_pairs_decreases(q: Seq<char>) {
    lemma_find(q, '&');
}

/// The texts of a vector of pairs.
pub open spec fn pair_texts(v: Seq<(String, String)>) -> Seq<(Seq<char>, Seq<char>)> {
    v.map_values(|p: (String, String)| (p.0@, p.1@))
}

/// [`find`] is the first position that holds `c`.
pub proof fn lemma_find(s: Seq<char>, c: char)
    ensures
        0 <= find(s, c) <= s.len(),
        find(s, c) < s.len() ==> s[find(s, c)] == c,
        forall|i: int| 0 <= i < find(s, c) ==> s[i] != c,
    decreases s.len(),
{
    if s.len() > 0 && s[0] != c {
        lemma_find(s.skip(1), c);
        assert forall|i: int| 0 <= i < find(s, c) implies s[i] != c by {
            if i > 0 {
                assert(s[i] == s.skip(1)[i - 1]);
            }
        }
    }
}

/// The position that holds the first `c` is what [`find`] gives.
pub proof fn lemma_find_is(s: Seq<char>, c: char, n: int)
    requires
        0 <= n <= s.len(),
        n < s.len() ==> s[n] == c,
        forall|i: int| 0 <= i < n ==> s[i] != c,
    ensures
        find(s, c) == n,
{
    lemma_find(s, c);
    let f = find(s, c);
    if f < n {
        assert(s[f] != c);
    } else if n < f {
        assert(s[n] != c);
    }
}

/// The position of the first `c` in `chars[from..to]`, or `to`.
pub(crate) fn find_char(chars: &Vec<char>, from: usize, to: usize, c: char) -> (r: usize)
    requires
        from <= to <= chars.len(),
    ensures
        from <= r <= to,
        r - from == find(chars@.subrange(from as int, to as int), c),
{
    let mut i: usize = from;
    while i < to && chars[i] != c
        invariant
            from <= i <= to <= chars.len(),
            forall|j: int| from <= j < i ==> chars@[j] != c,
        decreases to - i,
    {
        i = i + 1;
    }
    proof {
        lemma_find_is(chars@.subrange(from as int, to as int), c, i - from);
    }
    i
}

fn query_pair_of(chars: &Vec<char>, from: usize, to: usize) -> (r: (String, String))
    requires
        from <= to <= chars.len(),
    ensures
        (r.0@, r.1@) == query_pair(chars@.subrange(from as int, to as int)),
{
    let ghost seg = chars@.subrange(from as int, to as int);
    let eq = find_char(chars, from, to, '=');
    if eq < to {
        let name = trim_range(chars, from, eq);
        let value = trim_range(chars, eq + 1, to);
        assert(seg.take(eq - from) =~= chars@.subrange(from as int, eq as int));
        assert(seg.skip(eq - from + 1) =~= chars@.subrange(eq + 1, to as int));
        (percent_decode(name.as_str()), percent_decode(value.as_str()))
    } else {
        let name = trim_range(chars, from, to);
        (percent_decode(name.as_str()), String::new())
    }
}

/// Splits a URL into its base, which is everything before the first `?`, and the
/// decoded pairs of the query behind it. A URL without `?` has no pairs.
pub fn split_query(url: &str) -> (r: (String, Vec<(String, String)>))
    ensures
        r.0@ == url@.take(find(url@, '?')),
        !r.0@.contains('?'),
        find(url@, '?') < url@.len() ==> pair_texts(r.1@) == query_pairs(
            url@.skip(find(url@, '?') + 1),
        ),
        find(url@, '?') >= url@.len() ==> r.1@.len() == 0,
{
    let chars = to_chars(url);
    assert(url@.subrange(0, url@.len() as int) =~= url@);
    let q = find_char(&chars, 0, chars.len(), '?');
    let base = substring(&chars, 0, q);
    assert(url@.take(q as int) =~= chars@.subrange(0, q as int));
    proof {
        lemma_find(url@, '?');
    }
    let mut pairs: Vec<(String, String)> = Vec::new();
    if q >= chars.len() {
        return (base, pairs);
    }
    let ghost query = url@.skip(q + 1);
    let mut at: usize = q + 1;
    let mut more = true;
    assert(chars@.subrange(at as int, chars@.len() as int) =~= query);
    assert(pair_texts(pairs@) + query_pairs(query) =~= query_pairs(query));
    while more
        invariant
            at <= chars.len(),
            more ==> query_pairs(query) == pair_texts(pairs@) + query_pairs(
                chars@.subrange(at as int, chars@.len() as int),
            ),
            !more ==> query_pairs(query) == pair_texts(pairs@),
        decreases
            (if more {
                chars.len() - at + 1
            } else {
                0
            }),
    {
        let ghost rest = chars@.subrange(at as int, chars@.len() as int);
        let ghost before = pairs@;
        let amp = find_char(&chars, at, chars.len(), '&');
        if amp > at {
            let pair = query_pair_of(&chars, at, amp);
            assert(rest.take(amp - at) =~= chars@.subrange(at as int, amp as int));
            pairs.push(pair);
            assert(pair_texts(pairs@) =~= pair_texts(before) + seq![query_pair(rest.take(amp - at))]);
        } else {
            assert(pair_texts(pairs@) =~= pair_texts(before) + Seq::empty());
        }
        if amp < chars.len() {
            assert(rest.skip(amp - at + 1) =~= chars@.subrange(amp + 1, chars@.len() as int));
            assert(query_pairs(query) =~= pair_texts(pairs@) + query_pairs(rest.skip(amp - at + 1)));
            at = amp + 1;
        } else {
            more = false;
            assert(query_pairs(query) =~= pair_texts(pairs@));
        }
    }
    (base, pairs)
}

/// The first number below `n` of which `p` holds, or `n`.
pub open spec fn first_where(n: int, p: spec_fn(int) -> bool) -> int
    decreases n,
{
    if n <= 0 {
        0
    } else {
        let r = first_where(n - 1, p);
        if r < n - 1 || p(n - 1) {
            r
        } else {
            n
        }
    }
}

/// How many numbers below `n` there are of which `p` holds.
pub open spec fn count_where(n: int, p: spec_fn(int) -> bool) -> int
    decreases n,
{
    if n <= 0 {
        0
    } else {
        count_where(n - 1, p) + if p(n - 1) {
            1int
        } else {
            0
        }
    }
}

/// Whether a row has this name and value.
pub open spec fn is_pair(row: RowView, name: Seq<char>, value: Seq<char>) -> bool {
    row.name == name && row.value == value
}

/// What a merge has made of the rows, and which names it updated and added.
#[verifier::ext_equal]
pub struct Merged {
    /// The rows after the merge.
    pub rows: Seq<RowView>,
    /// Which of the rows a pair has claimed.
    pub claimed: Seq<bool>,
    /// The names of the rows that were updated, in order.
    pub updated: Seq<Seq<char>>,
    /// The names of the rows that were added, in order.
    pub added: Seq<Seq<char>>,
}

impl Merged {
    /// The first row with this name and value that no pair has claimed, or else the first
    /// with this name and value; the number of rows where there is none.
    pub open spec fn exact(self, name: Seq<char>, value: Seq<char>) -> int {
        let n = self.rows.len() as int;
        let free = first_where(n, |i: int| !self.claimed[i] && is_pair(self.rows[i], name, value));
        if free < n {
            free
        } else {
            first_where(n, |i: int| is_pair(self.rows[i], name, value))
        }
    }

    /// The first row of this name that no pair has claimed, or the number of rows.
    pub open spec fn free(self, name: Seq<char>) -> int {
        first_where(
            self.rows.len() as int,
            |i: int| !self.claimed[i] && self.rows[i].name == name,
        )
    }
}

/// One pair merged; the row that it ends in is claimed. An exact row is enabled.
/// Otherwise the first row of the name that no pair has claimed takes the value and is
/// enabled. Otherwise an enabled row is appended.
pub open spec fn merge_pair(m: Merged, name: Seq<char>, value: Seq<char>) -> Merged {
    let n = m.rows.len();
    let exact = m.exact(name, value);
    let free = m.free(name);
    let row = RowView { name, value, enabled: true };
    if exact < n {
        let claimed = m.claimed.update(exact, true);
        if m.rows[exact].enabled {
            Merged { claimed, ..m }
        } else {
            Merged { rows: m.rows.update(exact, row), claimed, updated: m.updated.push(name), ..m }
        }
    } else if free < n {
        Merged {
            rows: m.rows.update(free, row),
            claimed: m.claimed.update(free, true),
            updated: m.updated.push(name),
            ..m
        }
    } else {
        Merged {
            rows: m.rows.push(row),
            claimed: m.claimed.push(true),
            added: m.added.push(name),
            ..m
        }
    }
}

/// All pairs merged, first to last.
pub open spec fn merge(rows: Seq<RowView>, pairs: Seq<(Seq<char>, Seq<char>)>) -> Merged
    decreases pairs.len(),
{
    if pairs.len() == 0 {
        Merged {
            rows,
            claimed: Seq::new(rows.len(), |i: int| false),
            updated: Seq::empty(),
            added: Seq::empty(),
        }
    } else {
        merge_pair(merge(rows, pairs.drop_last()), pairs.last().0, pairs.last().1)
    }
}

/// The report on a merge: `A updated, B added`, or none when nothing changed.
pub open spec fn merge_report(m: Merged) -> Option<Seq<char>> {
    let updated = joined(m.updated, ", "@) + " updated"@;
    let added = joined(m.added, ", "@) + " added"@;
    if m.updated.len() == 0 && m.added.len() == 0 {
        None
    } else if m.added.len() == 0 {
        Some(updated)
    } else if m.updated.len() == 0 {
        Some(added)
    } else {
        Some(updated + ", "@ + added)
    }
}

proof fn lemma_first_where(n: int, p: spec_fn(int) -> bool)
    requires
        0 <= n,
    ensures
        0 <= first_where(n, p) <= n,
        first_where(n, p) < n ==> p(first_where(n, p)),
        forall|i: int| 0 <= i < first_where(n, p) ==> !#[trigger] p(i),
    decreases n,
{
    if n > 0 {
        lemma_first_where(n - 1, p);
        let r = first_where(n - 1, p);
        assert forall|i: int| 0 <= i < first_where(n, p) implies !#[trigger] p(i) by {
            if i < r {
            } else {
                assert(i == n - 1);
            }
        }
    }
}

proof fn lemma_first_is(n: int, p: spec_fn(int) -> bool, k: int)
    requires
        0 <= k <= n,
        k < n ==> p(k),
        forall|i: int| 0 <= i < k ==> !#[trigger] p(i),
    ensures
        first_where(n, p) == k,
{
    lemma_first_where(n, p);
    let r = first_where(n, p);
    if r < k {
        assert(!p(r));
    } else if k < r {
        assert(!p(k));
    }
}

proof fn lemma_count_le(n: int, p: spec_fn(int) -> bool, q: spec_fn(int) -> bool)
    requires
        forall|i: int| 0 <= i < n && #[trigger] p(i) ==> q(i),
    ensures
        count_where(n, p) <= count_where(n, q),
    decreases n,
{
    if n > 0 {
        lemma_count_le(n - 1, p, q);
        assert(p(n - 1) ==> q(n - 1));
    }
}

proof fn lemma_count_same(n: int, p: spec_fn(int) -> bool, q: spec_fn(int) -> bool)
    requires
        forall|i: int| 0 <= i < n ==> #[trigger] p(i) == q(i),
    ensures
        count_where(n, p) == count_where(n, q),
    decreases n,
{
    if n > 0 {
        lemma_count_same(n - 1, p, q);
        assert(p(n - 1) == q(n - 1));
    }
}

proof fn lemma_count_more(n: int, p: spec_fn(int) -> bool, q: spec_fn(int) -> bool, k: int)
    requires
        0 <= k < n,
        !p(k),
        q(k),
        forall|i: int| 0 <= i < n && i != k ==> #[trigger] p(i) == q(i),
    ensures
        count_where(n, q) == count_where(n, p) + 1,
    decreases n,
{
    if k == n - 1 {
        lemma_count_same(n - 1, p, q);
    } else {
        lemma_count_more(n - 1, p, q, k);
        assert(p(n - 1) == q(n - 1));
    }
}

impl Merged {
    /// Where a pair finds its row.
    proof fn lemma_places(self, name: Seq<char>, value: Seq<char>)
        ensures
            0 <= self.exact(name, value) <= self.rows.len(),
            self.exact(name, value) < self.rows.len() ==> is_pair(
                self.rows[self.exact(name, value)],
                name,
                value,
            ),
            self.exact(name, value) == self.rows.len() ==> forall|i: int|
                0 <= i < self.rows.len() ==> !is_pair(#[trigger] self.rows[i], name, value),
            forall|i: int|
                0 <= i < self.rows.len() && !self.claimed[i] && is_pair(
                    #[trigger] self.rows[i],
                    name,
                    value,
                ) ==> self.exact(name, value) <= i && !self.claimed[self.exact(name, value)],
            0 <= self.free(name) <= self.rows.len(),
            self.free(name) < self.rows.len() ==> self.rows[self.free(name)].name == name
                && !self.claimed[self.free(name)],
    {
        let n = self.rows.len() as int;
        let p = |i: int| !self.claimed[i] && is_pair(self.rows[i], name, value);
        let q = |i: int| is_pair(self.rows[i], name, value);
        let f = |i: int| !self.claimed[i] && self.rows[i].name == name;
        lemma_first_where(n, p);
        lemma_first_where(n, q);
        lemma_first_where(n, f);
        if self.exact(name, value) == n {
            assert forall|i: int| 0 <= i < n implies !is_pair(
                #[trigger] self.rows[i],
                name,
                value,
            ) by {
                assert(!q(i));
            }
        }
        assert forall|i: int|
            0 <= i < n && !self.claimed[i] && is_pair(
                #[trigger] self.rows[i],
                name,
                value,
            ) implies self.exact(name, value) <= i && !self.claimed[self.exact(name, value)] by {
            assert(p(i));
        }
    }
}

fn find_exact(params: &Vec<Param>, claimed: &Vec<bool>, name: &String, value: &String) -> (r: usize)
    requires
        claimed.len() == params.len(),
    ensures
        forall|u: Seq<Seq<char>>, a: Seq<Seq<char>>|
            r == (#[trigger] (Merged {
                rows: contents(params@),
                claimed: claimed@,
                updated: u,
                added: a,
            }).exact(name@, value@)),
        r <= params.len(),
{
    let ghost rows = contents(params@);
    let ghost marks = claimed@;
    let ghost n = rows.len() as int;
    let mut any: usize = params.len();
    let mut i: usize = 0;
    while i < params.len()
        invariant
            i <= params.len() == claimed.len(),
            rows == contents(params@),
            marks == claimed@,
            n == rows.len() == params.len(),
            any < i || any == n,
            any < i ==> is_pair(rows[any as int], name@, value@),
            forall|j: int|
                0 <= j < i && j < any ==> !is_pair(#[trigger] rows[j], name@, value@),
            forall|j: int|
                0 <= j < i ==> marks[j] || !is_pair(#[trigger] rows[j], name@, value@),
        decreases params.len() - i,
    {
        assert(rows[i as int] == params@[i as int]@);
        if params[i].name == *name && params[i].value == *value {
            if !claimed[i] {
                proof {
                    assert forall|u: Seq<Seq<char>>, a: Seq<Seq<char>>| i == (#[trigger] (Merged {
                        rows,
                        claimed: marks,
                        updated: u,
                        added: a,
                    }).exact(name@, value@)) by {
                        let m = Merged { rows, claimed: marks, updated: u, added: a };
                        let q = |j: int| !m.claimed[j] && is_pair(m.rows[j], name@, value@);
                        lemma_first_is(n, q, i as int);
                    }
                }
                return i;
            }
            if any == params.len() {
                any = i;
            }
        }
        i = i + 1;
    }
    proof {
        assert forall|u: Seq<Seq<char>>, a: Seq<Seq<char>>| any == (#[trigger] (Merged {
            rows,
            claimed: marks,
            updated: u,
            added: a,
        }).exact(name@, value@)) by {
            let m = Merged { rows, claimed: marks, updated: u, added: a };
            let q = |j: int| !m.claimed[j] && is_pair(m.rows[j], name@, value@);
            let e = |j: int| is_pair(m.rows[j], name@, value@);
            lemma_first_is(n, q, n);
            lemma_first_is(n, e, any as int);
        }
    }
    any
}

fn find_free(params: &Vec<Param>, claimed: &Vec<bool>, name: &String) -> (r: usize)
    requires
        claimed.len() == params.len(),
    ensures
        forall|u: Seq<Seq<char>>, a: Seq<Seq<char>>|
            r == (#[trigger] (Merged {
                rows: contents(params@),
                claimed: claimed@,
                updated: u,
                added: a,
            }).free(name@)),
        r <= params.len(),
{
    let ghost rows = contents(params@);
    let mut i: usize = 0;
    while i < params.len() && (claimed[i] || !(params[i].name == *name))
        invariant
            i <= params.len() == claimed.len(),
            rows == contents(params@),
            forall|j: int| 0 <= j < i ==> claimed@[j] || (#[trigger] rows[j]).name != name@,
        decreases params.len() - i,
    {
        assert(rows[i as int] == params@[i as int]@);
        i = i + 1;
    }
    proof {
        assert forall|u: Seq<Seq<char>>, a: Seq<Seq<char>>| i == (#[trigger] (Merged {
            rows,
            claimed: claimed@,
            updated: u,
            added: a,
        }).free(name@)) by {
            let m = Merged { rows, claimed: claimed@, updated: u, added: a };
            let q = |j: int| !m.claimed[j] && m.rows[j].name == name@;
            lemma_first_is(rows.len() as int, q, i as int);
        }
    }
    i
}

fn report(updated: &Vec<String>, added: &Vec<String>) -> (r: Option<String>)
    ensures
        ({
            let m = Merged {
                rows: Seq::empty(),
                claimed: Seq::empty(),
                updated: texts(updated@),
                added: texts(added@),
            };
            match r {
                Some(t) => merge_report(m) == Some(t@),
                None => merge_report(m) is None,
            }
        }),
{
    if updated.len() == 0 && added.len() == 0 {
        return None;
    }
    let mut out = String::new();
    if updated.len() > 0 {
        out = join(updated, ", ");
        out.append(" updated");
    }
    if added.len() > 0 {
        let mut tail = join(added, ", ");
        tail.append(" added");
        if updated.len() > 0 {
            out.append(", ");
            out.append(tail.as_str());
        } else {
            out = tail;
        }
    }
    Some(out)
}

/// Merges the pairs of a committed URL into the rows of `params` and reports
/// what changed:
/// - a row with exactly this name and value is enabled, and none is added;
/// - a name with another value: the next row of the name takes the value and is
///   enabled, so that repeated names map onto the rows of that name in order;
/// - a name that has no row left is appended as an enabled row.
///
/// A row that a pair ended in is kept from the later pairs, so that every value of a
/// repeated name stays.
pub fn merge_query_params(params: &mut Vec<Param>, pairs: &Vec<(String, String)>) -> (r: Option<
    String,
>)
    ensures
        contents(final(params)@) == merge(contents(old(params)@), pair_texts(pairs@)).rows,
        match r {
            Some(t) => merge_report(merge(contents(old(params)@), pair_texts(pairs@))) == Some(t@),
            None => merge_report(merge(contents(old(params)@), pair_texts(pairs@))) is None,
        },
{
    let ghost rows0 = contents(params@);
    let mut added: Vec<String> = Vec::new();
    let mut updated: Vec<String> = Vec::new();
    let mut claimed: Vec<bool> = Vec::new();
    while claimed.len() < params.len()
        invariant
            claimed.len() <= params.len(),
            forall|i: int| 0 <= i < claimed.len() ==> !#[trigger] claimed@[i],
        decreases params.len() - claimed.len(),
    {
        claimed.push(false);
    }
    let mut k: usize = 0;
    assert(texts(added@) =~= Seq::empty());
    assert(texts(updated@) =~= Seq::empty());
    assert(pair_texts(pairs@.take(0)) =~= Seq::empty());
    assert(claimed@ =~= Seq::new(rows0.len(), |i: int| false));
    while k < pairs.len()
        invariant
            k <= pairs.len(),
            claimed.len() == params.len(),
            merge(rows0, pair_texts(pairs@.take(k as int))) == (Merged {
                rows: contents(params@),
                claimed: claimed@,
                updated: texts(updated@),
                added: texts(added@),
            }),
        decreases pairs.len() - k,
    {
        let ghost done = pair_texts(pairs@.take(k as int));
        let ghost next = pair_texts(pairs@.take(k + 1));
        let ghost m = merge(rows0, done);
        let ghost before = params@;
        let ghost upd = updated@;
        let ghost add = added@;
        proof {
            assert(next.drop_last() =~= done);
            assert(next.last() == (pairs@[k as int].0@, pairs@[k as int].1@));
        }
        let name = &pairs[k].0;
        let value = &pairs[k].1;
        let exact = find_exact(params, &claimed, name, value);
        let free = find_free(params, &claimed, name);
        assert(exact == m.exact(name@, value@));
        assert(free == m.free(name@));
        proof {
            m.lemma_places(name@, value@);
        }
        let row = Param { name: name.clone(), value: value.clone(), enabled: true };
        let ghost row_view = row@;
        if exact < params.len() {
            assert(m.rows[exact as int] == params@[exact as int]@);
            if !params[exact].enabled {
                params.set(exact, row);
                updated.push(name.clone());
                assert(contents(params@) =~= contents(before).update(exact as int, row_view));
                assert(texts(updated@) =~= texts(upd).push(name@));
            }
            claimed.set(exact, true);
        } else if free < params.len() {
            params.set(free, row);
            claimed.set(free, true);
            updated.push(name.clone());
            assert(contents(params@) =~= contents(before).update(free as int, row_view));
            assert(texts(updated@) =~= texts(upd).push(name@));
        } else {
            params.push(row);
            claimed.push(true);
            added.push(name.clone());
            assert(contents(params@) =~= contents(before).push(row_view));
            assert(texts(added@) =~= texts(add).push(name@));
        }
        k = k + 1;
    }
    assert(pairs@.take(pairs@.len() as int) =~= pairs@);
    report(&updated, &added)
}

/// Whether the rows hold a pair in an enabled row.
pub open spec fn present(rows: Seq<RowView>, name: Seq<char>, value: Seq<char>) -> bool {
    exists|i: int| 0 <= i < rows.len() && is_pair(#[trigger] rows[i], name, value)
        && rows[i].enabled
}

/// How many of the pairs are this one.
pub open spec fn times(
    pairs: Seq<(Seq<char>, Seq<char>)>,
    name: Seq<char>,
    value: Seq<char>,
) -> int
    decreases pairs.len(),
{
    if pairs.len() == 0 {
        0
    } else {
        times(pairs.drop_last(), name, value) + if pairs.last() == (name, value) {
            1int
        } else {
            0
        }
    }
}

/// A merge never removes, renames or moves a row, and only appends new ones.
pub proof fn law_merge_keeps_rows(rows: Seq<RowView>, pairs: Seq<(Seq<char>, Seq<char>)>)
    ensures
        merge(rows, pairs).rows.len() >= rows.len(),
        forall|i: int|
            0 <= i < rows.len() ==> (#[trigger] merge(rows, pairs).rows[i]).name == rows[i].name,
    decreases pairs.len(),
{
    if pairs.len() > 0 {
        let earlier = pairs.drop_last();
        let m = merge(rows, earlier);
        law_merge_keeps_rows(rows, earlier);
        m.lemma_places(pairs.last().0, pairs.last().1);
        let next = merge(rows, pairs);
        assert forall|i: int| 0 <= i < rows.len() implies (#[trigger] next.rows[i]).name
            == rows[i].name by {
            assert(m.rows[i].name == rows[i].name);
        }
    }
}

/// A row whose name no pair has is left as it was.
pub proof fn law_merge_leaves_other_names(
    rows: Seq<RowView>,
    pairs: Seq<(Seq<char>, Seq<char>)>,
    i: int,
)
    requires
        0 <= i < rows.len(),
        forall|j: int| 0 <= j < pairs.len() ==> (#[trigger] pairs[j]).0 != rows[i].name,
    ensures
        i < merge(rows, pairs).rows.len(),
        merge(rows, pairs).rows[i] == rows[i],
    decreases pairs.len(),
{
    if pairs.len() > 0 {
        let earlier = pairs.drop_last();
        let m = merge(rows, earlier);
        assert forall|j: int| 0 <= j < earlier.len() implies (#[trigger] earlier[j]).0
            != rows[i].name by {
            assert(earlier[j] == pairs[j]);
        }
        law_merge_leaves_other_names(rows, earlier, i);
        assert(pairs[pairs.len() - 1].0 != rows[i].name);
        m.lemma_places(pairs.last().0, pairs.last().1);
    }
}

/// The rows that the pairs claimed are enabled, and each pair is in one of them.
proof fn lemma_claimed(rows: Seq<RowView>, pairs: Seq<(Seq<char>, Seq<char>)>)
    ensures
        ({
            let m = merge(rows, pairs);
            &&& m.claimed.len() == m.rows.len()
            &&& forall|i: int|
                0 <= i < m.rows.len() && m.claimed[i] ==> (#[trigger] m.rows[i]).enabled
            &&& forall|j: int| 0 <= j < pairs.len() ==> claims(m, #[trigger] pairs[j])
        }),
    decreases pairs.len(),
{
    if pairs.len() > 0 {
        let earlier = pairs.drop_last();
        let m = merge(rows, earlier);
        let (name, value) = pairs.last();
        let next = merge(rows, pairs);
        lemma_claimed(rows, earlier);
        m.lemma_places(name, value);
        let exact = m.exact(name, value);
        let at = if exact < m.rows.len() {
            exact
        } else {
            m.free(name)
        };
        assert(next.claimed[at]);
        assert(is_pair(next.rows[at], name, value));
        assert forall|j: int| 0 <= j < pairs.len() implies claims(next, #[trigger] pairs[j]) by {
            if j == pairs.len() - 1 {
                assert(pairs[j] == pairs.last());
            } else {
                assert(pairs[j] == earlier[j]);
                assert(claims(m, earlier[j]));
                let i = choose|i: int|
                    0 <= i < m.rows.len() && m.claimed[i] && is_pair(
                        #[trigger] m.rows[i],
                        earlier[j].0,
                        earlier[j].1,
                    );
                assert(is_pair(next.rows[i], pairs[j].0, pairs[j].1));
            }
        }
    }
}

/// Whether a claimed row holds the pair.
spec fn claims(m: Merged, pair: (Seq<char>, Seq<char>)) -> bool {
    exists|i: int| 0 <= i < m.rows.len() && m.claimed[i] && is_pair(
        #[trigger] m.rows[i],
        pair.0,
        pair.1,
    )
}

/// Every pair of the query is present and enabled after the merge, also where a name is
/// repeated.
pub proof fn law_merge_presents_pairs(rows: Seq<RowView>, pairs: Seq<(Seq<char>, Seq<char>)>)
    ensures
        forall|j: int|
            0 <= j < pairs.len() ==> present(
                merge(rows, pairs).rows,
                (#[trigger] pairs[j]).0,
                pairs[j].1,
            ),
{
    let m = merge(rows, pairs);
    lemma_claimed(rows, pairs);
    assert forall|j: int| 0 <= j < pairs.len() implies present(
        m.rows,
        (#[trigger] pairs[j]).0,
        pairs[j].1,
    ) by {
        assert(claims(m, pairs[j]));
    }
}

/// Whether a row is claimed and holds a pair.
spec fn held(m: Merged, name: Seq<char>, value: Seq<char>) -> spec_fn(int) -> bool {
    |i: int| m.claimed[i] && is_pair(m.rows[i], name, value)
}

/// Whether a row that holds a pair is left for another of its kind.
spec fn spare(m: Merged, name: Seq<char>, value: Seq<char>, i: int) -> bool {
    0 <= i < m.rows.len() && !m.claimed[i] && is_pair(m.rows[i], name, value)
}

/// As many rows hold a pair as it was merged times, as long as one is left for it; those
/// that are claimed stand before those that are left.
proof fn lemma_held(
    rows: Seq<RowView>,
    pairs: Seq<(Seq<char>, Seq<char>)>,
    name: Seq<char>,
    value: Seq<char>,
)
    ensures
        ({
            let m = merge(rows, pairs);
            let n = m.rows.len() as int;
            let held_by = held(m, name, value);
            &&& count_where(n, held_by) <= times(pairs, name, value)
            &&& forall|k: int|
                #[trigger] spare(m, name, value, k) ==> count_where(n, held_by) == times(
                    pairs,
                    name,
                    value,
                )
            &&& forall|i: int, k: int|
                0 <= i < n && #[trigger] held_by(i) && #[trigger] spare(m, name, value, k)
                    ==> i < k
        }),
    decreases pairs.len(),
{
    let m = merge(rows, pairs);
    let n = m.rows.len() as int;
    let now = held(m, name, value);
    if pairs.len() == 0 {
        let none = |i: int| false;
        lemma_count_same(n, now, none);
        lemma_count_none(n);
    } else {
        let earlier = pairs.drop_last();
        let o = merge(rows, earlier);
        let was = held(o, name, value);
        let (a, b) = pairs.last();
        let on = o.rows.len() as int;
        lemma_held(rows, earlier, name, value);
        lemma_claimed(rows, earlier);
        o.lemma_places(a, b);
        let exact = o.exact(a, b);
        let same = a == name && b == value;
        assert(same <==> pairs.last() == (name, value));
        let at = if exact < on {
            exact
        } else {
            o.free(a)
        };
        assert forall|i: int| 0 <= i < on && i != at implies #[trigger] was(i) == now(i) by {}
        if at < on {
            if same && !o.claimed[at] {
                lemma_count_more(on, was, now, at);
            } else {
                assert(was(at) == now(at));
                lemma_count_same(on, was, now);
            }
        } else {
            lemma_count_same(on, was, now);
            assert(now(on) == same);
        }
        assert forall|k: int| #[trigger] spare(m, name, value, k) implies count_where(n, now)
            == times(pairs, name, value) by {
            assert(spare(o, name, value, k));
        }
        assert forall|i: int, k: int|
            0 <= i < n && #[trigger] now(i) && #[trigger] spare(m, name, value, k) implies i
            < k by {
            assert(spare(o, name, value, k));
            if i != at {
                assert(was(i));
            }
        }
        if exact == on && same {
            assert forall|i: int| 0 <= i < on implies !#[trigger] was(i) by {}
            let none = |i: int| false;
            lemma_count_same(on, was, none);
            lemma_count_none(on);
        }
    }
}

proof fn lemma_count_none(n: int)
    ensures
        count_where(n, |i: int| false) == 0,
    decreases n,
{
    if n > 0 {
        lemma_count_none(n - 1);
    }
}

proof fn lemma_times_take(
    pairs: Seq<(Seq<char>, Seq<char>)>,
    k: int,
    name: Seq<char>,
    value: Seq<char>,
)
    requires
        0 <= k <= pairs.len(),
    ensures
        times(pairs.take(k), name, value) <= times(pairs, name, value),
    decreases pairs.len(),
{
    if k < pairs.len() {
        assert(pairs.drop_last().take(k) =~= pairs.take(k));
        lemma_times_take(pairs.drop_last(), k, name, value);
    } else {
        assert(pairs.take(k) =~= pairs);
    }
}

/// The first so many pairs, merged into what the merge of all of them left, change nothing.
proof fn lemma_merge_again(rows: Seq<RowView>, pairs: Seq<(Seq<char>, Seq<char>)>, k: int)
    requires
        0 <= k <= pairs.len(),
    ensures
        ({
            let m = merge(rows, pairs);
            let d = merge(m.rows, pairs.take(k));
            &&& d.rows == m.rows
            &&& d.updated.len() == 0
            &&& d.added.len() == 0
        }),
    decreases k,
{
    let m = merge(rows, pairs);
    let n = m.rows.len() as int;
    let done = pairs.take(k);
    if k > 0 {
        let earlier = pairs.take(k - 1);
        let d = merge(m.rows, earlier);
        lemma_merge_again(rows, pairs, k - 1);
        assert(done.drop_last() =~= earlier);
        let (name, value) = done.last();
        assert(pairs[k - 1] == (name, value));
        lemma_claimed(rows, pairs);
        assert(claims(m, pairs[k - 1]));
        lemma_claimed(m.rows, earlier);
        d.lemma_places(name, value);
        let at = d.exact(name, value);
        assert(at < n);
        if !d.claimed[at] {
            if !m.claimed[at] {
                assert(spare(m, name, value, at));
                lemma_held(rows, pairs, name, value);
                lemma_held(m.rows, earlier, name, value);
                let in_m = held(m, name, value);
                let in_d = held(d, name, value);
                assert forall|i: int| 0 <= i < n && #[trigger] in_m(i) implies in_d(i) by {
                    assert(i < at);
                    if !d.claimed[i] {
                        assert(spare(d, name, value, i));
                        assert(is_pair(d.rows[i], name, value));
                    }
                }
                lemma_count_le(n, in_m, in_d);
                assert(times(done, name, value) == times(earlier, name, value) + 1);
                lemma_times_take(pairs, k, name, value);
                assert(false);
            }
        }
        assert(m.rows[at].enabled);
    } else {
        assert(done =~= Seq::empty());
    }
}

/// Committing a query a second time changes nothing and reports nothing.
pub proof fn law_merge_is_idempotent(rows: Seq<RowView>, pairs: Seq<(Seq<char>, Seq<char>)>)
    ensures
        merge(merge(rows, pairs).rows, pairs).rows == merge(rows, pairs).rows,
        merge_report(merge(merge(rows, pairs).rows, pairs)) is None,
{
    assert(pairs.take(pairs.len() as int) =~= pairs);
    lemma_merge_again(rows, pairs, pairs.len() as int);
}

/// A merge that reports nothing has changed nothing.
pub proof fn law_merge_silent_is_unchanged(rows: Seq<RowView>, pairs: Seq<(Seq<char>, Seq<char>)>)
    requires
        merge_report(merge(rows, pairs)) is None,
    ensures
        merge(rows, pairs).rows == rows,
    decreases pairs.len(),
{
    if pairs.len() > 0 {
        law_merge_silent_is_unchanged(rows, pairs.drop_last());
    }
}

proof fn lemma_plain_bytes(b: Seq<u8>)
    requires
        forall|i: int| 0 <= i < b.len() ==> b[i] != 0x2b && b[i] != 0x25,
    ensures
        decoded_bytes(b) == b,
    decreases b.len(),
{
    if b.len() > 0 {
        assert(b[0] != 0x2b && b[0] != 0x25);
        assert forall|i: int| 0 <= i < b.skip(1).len() implies b.skip(1)[i] != 0x2b
            && b.skip(1)[i] != 0x25 by {
            assert(b.skip(1)[i] == b[i + 1]);
        }
        lemma_plain_bytes(b.skip(1));
        assert(seq![b[0]] + b.skip(1) =~= b);
    } else {
        assert(b =~= Seq::empty());
    }
}

proof fn lemma_plain_scalar(v: u32)
    requires
        v != 0x2b,
        v != 0x25,
    ensures
        forall|i: int|
            #![trigger encode_scalar(v)[i]]
            0 <= i < encode_scalar(v).len() ==> encode_scalar(v)[i] != 0x2b && encode_scalar(v)[i]
                != 0x25,
{
    assert(v <= 0x7f ==> (v & 0x7f) as u8 == v) by (bit_vector);
    assert forall|x: u8| #[trigger] (0x80 | x) >= 0x80u8 by {
        assert((0x80 | x) >= 0x80u8) by (bit_vector);
    }
    assert forall|x: u8| #[trigger] (0xc0 | x) >= 0x80u8 by {
        assert((0xc0 | x) >= 0x80u8) by (bit_vector);
    }
    assert forall|x: u8| #[trigger] (0xe0 | x) >= 0x80u8 by {
        assert((0xe0 | x) >= 0x80u8) by (bit_vector);
    }
    assert forall|x: u8| #[trigger] (0xf0 | x) >= 0x80u8 by {
        assert((0xf0 | x) >= 0x80u8) by (bit_vector);
    }
}

proof fn lemma_plain_text(s: Seq<char>)
    requires
        forall|i: int| 0 <= i < s.len() ==> s[i] != '+' && s[i] != '%',
    ensures
        forall|i: int|
            0 <= i < encode_utf8(s).len() ==> encode_utf8(s)[i] != 0x2b && encode_utf8(s)[i]
                != 0x25,
    decreases s.len(),
{
    if s.len() > 0 {
        let head = encode_scalar(s[0] as u32);
        let rest = encode_utf8(s.drop_first());
        assert(s[0] != '+' && s[0] != '%');
        vstd::utf8::char_is_scalar(s[0]);
        vstd::utf8::char_u32_cast(s[0], s[0] as u32);
        vstd::utf8::char_u32_cast('+', '+' as u32);
        vstd::utf8::char_u32_cast('%', '%' as u32);
        lemma_plain_scalar(s[0] as u32);
        lemma_plain_text(s.drop_first());
        assert forall|i: int| 0 <= i < encode_utf8(s).len() implies encode_utf8(s)[i] != 0x2b
            && encode_utf8(s)[i] != 0x25 by {
            if i < head.len() {
                assert(encode_utf8(s)[i] == encode_scalar(s[0] as u32)[i]);
            } else {
                assert(encode_utf8(s)[i] == rest[i - head.len()]);
            }
        }
    }
}

proof fn lemma_decoded_head(a: Seq<u8>, b: Seq<u8>)
    requires
        forall|i: int| 0 <= i < a.len() ==> a[i] != 0x25,
    ensures
        decoded_bytes(a + b) == decoded_bytes(a) + decoded_bytes(b),
    decreases a.len(),
{
    if a.len() > 0 {
        assert(a[0] != 0x25);
        assert((a + b).skip(1) =~= a.skip(1) + b);
        assert forall|i: int| 0 <= i < a.skip(1).len() implies a.skip(1)[i] != 0x25 by {
            assert(a.skip(1)[i] == a[i + 1]);
        }
        lemma_decoded_head(a.skip(1), b);
        let first = if a[0] == 0x2b {
            0x20u8
        } else {
            a[0]
        };
        assert(seq![first] + (decoded_bytes(a.skip(1)) + decoded_bytes(b)) =~= (seq![first]
            + decoded_bytes(a.skip(1))) + decoded_bytes(b));
    } else {
        assert(a + b =~= b);
        assert(Seq::<u8>::empty() + decoded_bytes(b) =~= decoded_bytes(b));
    }
}

proof fn lemma_one_byte(c: char)
    requires
        c == '+' || c == ' ' || c == '%',
    ensures
        encode_scalar(c as u32) == seq![c as u8],
{
    vstd::utf8::char_u32_cast(c, c as u32);
    let v = c as u32;
    assert(v <= 0x7f ==> (v & 0x7f) as u8 == v) by (bit_vector);
    assert(encode_scalar(v) =~= seq![c as u8]);
}

proof fn lemma_encoded_start(c: char, s: Seq<char>)
    ensures
        encode_utf8(seq![c] + s) == encode_scalar(c as u32) + encode_utf8(s),
{
    let all = seq![c] + s;
    assert(all.drop_first() =~= s);
}

/// A part without `%` decodes on its own in front of any rest: its bytes are those of the
/// part with a space for each `+`, and those of the rest follow.
pub proof fn law_unescaped_part_decodes_on_its_own(a: Seq<char>, b: Seq<char>)
    requires
        !a.contains('%'),
    ensures
        decoded_bytes(encode_utf8(a + b)) == encode_utf8(spaced(a)) + decoded_bytes(encode_utf8(b)),
    decreases a.len(),
{
    if a.len() > 0 {
        let c = a[0];
        let rest = a.skip(1);
        assert(a.contains(c));
        assert(!rest.contains('%')) by {
            if rest.contains('%') {
                let i = choose|i: int| 0 <= i < rest.len() && rest[i] == '%';
                assert(a[i + 1] == '%');
            }
        }
        law_unescaped_part_decodes_on_its_own(rest, b);
        assert(a + b =~= seq![c] + (rest + b));
        lemma_encoded_start(c, rest + b);
        let head = encode_scalar(c as u32);
        let out = if c == '+' {
            ' '
        } else {
            c
        };
        assert(spaced(a) =~= seq![out] + spaced(rest));
        lemma_encoded_start(out, spaced(rest));
        if c == '+' {
            lemma_one_byte('+');
            lemma_one_byte(' ');
            let none: Seq<u8> = Seq::empty();
            assert(head.skip(1) =~= none);
            assert(decoded_bytes(none) == none);
            assert(decoded_bytes(head) =~= encode_scalar(out as u32));
            assert forall|i: int| 0 <= i < head.len() implies head[i] != 0x25 by {}
        } else {
            vstd::utf8::char_is_scalar(c);
            vstd::utf8::char_u32_cast(c, c as u32);
            vstd::utf8::char_u32_cast('+', '+' as u32);
            vstd::utf8::char_u32_cast('%', '%' as u32);
            lemma_plain_scalar(c as u32);
            assert forall|i: int| 0 <= i < head.len() implies head[i] != 0x2b && head[i] != 0x25 by {
                assert(encode_scalar(c as u32)[i] == head[i]);
            }
            lemma_plain_bytes(head);
        }
        lemma_decoded_head(head, encode_utf8(rest + b));
        assert(decoded_bytes(head) + (encode_utf8(spaced(rest)) + decoded_bytes(encode_utf8(b)))
            =~= (decoded_bytes(head) + encode_utf8(spaced(rest))) + decoded_bytes(encode_utf8(b)));
    } else {
        assert(a + b =~= b);
        assert(spaced(a) =~= Seq::empty());
        assert(encode_utf8(spaced(a)) =~= Seq::empty());
        assert(Seq::<u8>::empty() + decoded_bytes(encode_utf8(b)) =~= decoded_bytes(encode_utf8(b)));
    }
}

/// A text without `+` and `%` decodes to itself.
pub proof fn law_plain_text_decodes_to_itself(s: Seq<char>)
    requires
        forall|i: int| 0 <= i < s.len() ==> s[i] != '+' && s[i] != '%',
    ensures
        valid_utf8(decoded_bytes(encode_utf8(s))),
        decode_utf8(decoded_bytes(encode_utf8(s))) == s,
{
    lemma_plain_text(s);
    lemma_plain_bytes(encode_utf8(s));
    vstd::utf8::encode_utf8_valid_utf8(s);
    vstd::utf8::encode_utf8_decode_utf8(s);
}

/// The base of a URL is all that stands before its first `?`, and the query is all that
/// stands behind it.
pub proof fn law_query_follows_the_first_mark(base: Seq<char>, query: Seq<char>)
    requires
        !base.contains('?'),
    ensures
        ({
            let url = base + seq!['?'] + query;
            &&& url.take(find(url, '?')) == base
            &&& url.skip(find(url, '?') + 1) == query
        }),
{
    let url = base + seq!['?'] + query;
    assert forall|i: int| 0 <= i < base.len() implies url[i] != '?' by {
        assert(base.contains(base[i]));
    }
    lemma_find_is(url, '?', base.len() as int);
    assert(url.take(base.len() as int) =~= base);
    assert(url.skip(base.len() as int + 1) =~= query);
}

/// A query of one name and one value is one pair: both are read without the white space
/// around them and with their escapes decoded, the name no less than the value.
pub proof fn law_name_and_value_are_decoded(name: Seq<char>, value: Seq<char>)
    requires
        !name.contains('&'),
        !name.contains('='),
        !value.contains('&'),
    ensures
        query_pairs(name + seq!['='] + value) == seq![
            (decoded(trimmed(name)), decoded(trimmed(value))),
        ],
{
    let q = name + seq!['='] + value;
    assert forall|i: int| 0 <= i < q.len() implies q[i] != '&' by {
        if i < name.len() {
            assert(name.contains(name[i]));
        } else if i > name.len() {
            assert(value.contains(value[i - name.len() - 1]));
        }
    }
    lemma_find_is(q, '&', q.len() as int);
    assert forall|i: int| 0 <= i < name.len() implies q[i] != '=' by {
        assert(name.contains(name[i]));
    }
    lemma_find_is(q, '=', name.len() as int);
    assert(q.take(q.len() as int) =~= q);
    assert(q.take(name.len() as int) =~= name);
    assert(q.skip(name.len() as int + 1) =~= value);
}

/// A query of one name without `=` is one pair with an empty value.
pub proof fn law_bare_name_has_an_empty_value(name: Seq<char>)
    requires
        name.len() > 0,
        !name.contains('&'),
        !name.contains('='),
    ensures
        query_pairs(name) == seq![(decoded(trimmed(name)), Seq::<char>::empty())],
{
    assert forall|i: int| 0 <= i < name.len() implies name[i] != '&' && name[i] != '=' by {
        assert(name.contains(name[i]));
    }
    lemma_find_is(name, '&', name.len() as int);
    lemma_find_is(name, '=', name.len() as int);
    assert(name.take(name.len() as int) =~= name);
}

/// The pairs of two queries with `&` between them are those of the first and then those
/// of the second; an empty query has none.
pub proof fn law_queries_add_up(p: Seq<char>, q: Seq<char>)
    ensures
        query_pairs(p + seq!['&'] + q) == query_pairs(p) + query_pairs(q),
        query_pairs(Seq::<char>::empty()) == Seq::<(Seq<char>, Seq<char>)>::empty(),
    decreases p.len(),
{
    let all = p + seq!['&'] + q;
    let i = find(p, '&');
    lemma_find(p, '&');
    assert forall|k: int| 0 <= k < i implies all[k] != '&' by {
        assert(all[k] == p[k]);
    }
    assert(all[p.len() as int] == '&');
    lemma_find_is(all, '&', i);
    assert(all.take(i) =~= p.take(i));
    if i < p.len() {
        law_queries_add_up(p.skip(i + 1), q);
        assert(all.skip(i + 1) =~= p.skip(i + 1) + seq!['&'] + q);
        let head: Seq<(Seq<char>, Seq<char>)> = if i == 0 {
            Seq::empty()
        } else {
            seq![query_pair(p.take(i))]
        };
        assert(head + (query_pairs(p.skip(i + 1)) + query_pairs(q)) =~= (head + query_pairs(
            p.skip(i + 1),
        )) + query_pairs(q));
    } else {
        assert(all.skip(i + 1) =~= q);
    }
}

proof fn lemma_ascii_byte(c: char)
    requires
        (c as u32) < 0x80,
    ensures
        encode_scalar(c as u32) == seq![c as u8],
{
    vstd::utf8::char_u32_cast(c, c as u32);
    let v = c as u32;
    assert(v <= 0x7f ==> (v & 0x7f) as u8 == v) by (bit_vector);
    assert(encode_scalar(v) =~= seq![c as u8]);
}

/// An escape reads as the character that it stands for, and `+` as a space: the text with
/// the escape in it decodes to what the text with the character in its place decodes to.
pub proof fn law_escape_reads_as_its_character(
    before: Seq<char>,
    high: char,
    low: char,
    c: char,
    after: Seq<char>,
)
    requires
        !before.contains('%'),
        c != '%' && c != '+',
        '0' <= high <= '7',
        '0' <= low <= '9' || 'A' <= low <= 'F' || 'a' <= low <= 'f',
        c as int == 16 * (high as int - 48) + (if low <= '9' {
            low as int - 48
        } else if low <= 'F' {
            low as int - 55
        } else {
            low as int - 87
        }),
    ensures
        decoded(before + (seq!['%', high, low] + after)) == decoded(before + (seq![c] + after)),
        decoded(before + (seq!['+'] + after)) == decoded(before + (seq![' '] + after)),
{
    let rest = encode_utf8(after);
    lemma_ascii_byte('%');
    lemma_ascii_byte(high);
    lemma_ascii_byte(low);
    lemma_ascii_byte(c);
    lemma_ascii_byte('+');
    lemma_ascii_byte(' ');
    let none: Seq<char> = Seq::empty();
    assert(seq!['%', high, low] + after =~= seq!['%'] + (seq![high] + (seq![low] + after)));
    lemma_encoded_start('%', seq![high] + (seq![low] + after));
    lemma_encoded_start(high, seq![low] + after);
    lemma_encoded_start(low, after);
    lemma_encoded_start(c, after);
    lemma_encoded_start('+', after);
    lemma_encoded_start(' ', after);
    let e = encode_utf8(seq!['%', high, low] + after);
    assert(e =~= seq![0x25u8, high as u8, low as u8] + rest);
    assert(e.skip(3) =~= rest);
    let d = encode_utf8(seq![c] + after);
    assert(d =~= seq![c as u8] + rest);
    assert(d.skip(1) =~= rest);
    assert(decoded_bytes(e) =~= seq![c as u8] + decoded_bytes(rest));
    assert(decoded_bytes(d) =~= seq![c as u8] + decoded_bytes(rest));
    let p = encode_utf8(seq!['+'] + after);
    assert(p =~= seq![0x2bu8] + rest);
    assert(p.skip(1) =~= rest);
    let s = encode_utf8(seq![' '] + after);
    assert(s =~= seq![0x20u8] + rest);
    assert(s.skip(1) =~= rest);
    law_unescaped_part_decodes_on_its_own(before, seq!['%', high, low] + after);
    law_unescaped_part_decodes_on_its_own(before, seq![c] + after);
    law_unescaped_part_decodes_on_its_own(before, seq!['+'] + after);
    law_unescaped_part_decodes_on_its_own(before, seq![' '] + after);
}

proof fn lemma_merge_one(rows: Seq<RowView>, name: Seq<char>, value: Seq<char>)
    ensures
        ({
            let m = merge(rows, Seq::empty());
            &&& merge(rows, seq![(name, value)]) == merge_pair(m, name, value)
            &&& m.rows == rows
            &&& m.claimed.len() == rows.len()
            &&& forall|i: int| 0 <= i < rows.len() ==> !#[trigger] m.claimed[i]
            &&& m.updated == Seq::<Seq<char>>::empty()
            &&& m.added == Seq::<Seq<char>>::empty()
        }),
{
    let one = seq![(name, value)];
    assert(one.drop_last() =~= Seq::<(Seq<char>, Seq<char>)>::empty());
    assert(one.last() == (name, value));
}

/// A pair whose name no row has becomes a row of its own behind the others, which stay, and is
/// told as added.
pub proof fn law_new_name_becomes_a_row(rows: Seq<RowView>, name: Seq<char>, value: Seq<char>)
    requires
        forall|i: int| 0 <= i < rows.len() ==> (#[trigger] rows[i]).name != name,
    ensures
        merge(rows, seq![(name, value)]).rows == rows.push(
            RowView { name, value, enabled: true },
        ),
        merge_report(merge(rows, seq![(name, value)])) == Some(name + " added"@),
{
    lemma_merge_one(rows, name, value);
    let m = merge(rows, Seq::empty());
    let n = rows.len() as int;
    lemma_first_is(n, |i: int| !m.claimed[i] && is_pair(m.rows[i], name, value), n);
    lemma_first_is(n, |i: int| is_pair(m.rows[i], name, value), n);
    lemma_first_is(n, |i: int| !m.claimed[i] && m.rows[i].name == name, n);
    assert(m.added.push(name) =~= seq![name]);
}

/// A pair with another value than the rows of its name have goes to the first of them, which is
/// then on; the others stay, and it is told as updated.
pub proof fn law_known_name_gets_the_value(
    rows: Seq<RowView>,
    name: Seq<char>,
    value: Seq<char>,
    k: int,
)
    requires
        0 <= k < rows.len(),
        rows[k].name == name,
        forall|i: int| 0 <= i < k ==> (#[trigger] rows[i]).name != name,
        forall|i: int|
            0 <= i < rows.len() && (#[trigger] rows[i]).name == name ==> rows[i].value != value,
    ensures
        merge(rows, seq![(name, value)]).rows.len() == rows.len(),
        merge(rows, seq![(name, value)]).rows[k] == (RowView { name, value, enabled: true }),
        forall|i: int|
            0 <= i < rows.len() && i != k ==> #[trigger] merge(rows, seq![(name, value)]).rows[i]
                == rows[i],
        merge_report(merge(rows, seq![(name, value)])) == Some(name + " updated"@),
{
    lemma_merge_one(rows, name, value);
    let m = merge(rows, Seq::empty());
    let n = rows.len() as int;
    lemma_first_is(n, |i: int| !m.claimed[i] && is_pair(m.rows[i], name, value), n);
    lemma_first_is(n, |i: int| is_pair(m.rows[i], name, value), n);
    lemma_first_is(n, |i: int| !m.claimed[i] && m.rows[i].name == name, k);
    assert(m.updated.push(name) =~= seq![name]);
}

/// A pair that a row has changes no row but where that row is off: it is then on again. A row
/// that is on is told of in no way.
pub proof fn law_known_pair_is_on(
    rows: Seq<RowView>,
    name: Seq<char>,
    value: Seq<char>,
    k: int,
)
    requires
        0 <= k < rows.len(),
        rows[k].name == name && rows[k].value == value,
        forall|i: int| 0 <= i < k ==> (#[trigger] rows[i]).name != name || rows[i].value != value,
    ensures
        merge(rows, seq![(name, value)]).rows == rows.update(
            k,
            RowView { name, value, enabled: true },
        ),
        rows[k].enabled ==> merge_report(merge(rows, seq![(name, value)])) is None,
        !rows[k].enabled ==> merge_report(merge(rows, seq![(name, value)])) == Some(
            name + " updated"@,
        ),
{
    lemma_merge_one(rows, name, value);
    let m = merge(rows, Seq::empty());
    let n = rows.len() as int;
    lemma_first_is(n, |i: int| !m.claimed[i] && is_pair(m.rows[i], name, value), k);
    assert(m.updated.push(name) =~= seq![name]);
    assert(merge(rows, seq![(name, value)]).rows =~= rows.update(
        k,
        RowView { name, value, enabled: true },
    ));
}

/// A merge adds no more rows than there are pairs.
pub proof fn law_merge_adds_a_row_a_pair_at_most(
    rows: Seq<RowView>,
    pairs: Seq<(Seq<char>, Seq<char>)>,
)
    ensures
        rows.len() <= merge(rows, pairs).rows.len() <= rows.len() + pairs.len(),
        merge(rows, Seq::<(Seq<char>, Seq<char>)>::empty()).rows == rows,
    decreases pairs.len(),
{
    if pairs.len() > 0 {
        law_merge_adds_a_row_a_pair_at_most(rows, pairs.drop_last());
        merge(rows, pairs.drop_last()).lemma_places(pairs.last().0, pairs.last().1);
    }
}

/// What is told of a merge names the rows that were updated and those that were added.
pub proof fn law_merge_is_told(m: Merged)
    ensures
        m.updated.len() == 0 && m.added.len() == 0 ==> merge_report(m) is None,
        m.updated.len() > 0 && m.added.len() == 0 ==> merge_report(m) == Some(
            joined(m.updated, ", "@) + " updated"@,
        ),
        m.updated.len() == 0 && m.added.len() > 0 ==> merge_report(m) == Some(
            joined(m.added, ", "@) + " added"@,
        ),
        m.updated.len() > 0 && m.added.len() > 0 ==> merge_report(m) == Some(
            joined(m.updated, ", "@) + " updated"@ + ", "@ + (joined(m.added, ", "@) + " added"@),
        ),
{
}

/// A `%` without two hexadecimal digits behind it stands for itself, and what follows it is read
/// on its own.
pub proof fn law_broken_escape_stands_for_itself(b: Seq<u8>)
    requires
        b.len() > 0,
        b[0] == 0x25,
        b.len() < 3 || !(0x30 <= b[1] <= 0x39 || 0x41 <= b[1] <= 0x46 || 0x61 <= b[1] <= 0x66) || !(
        0x30 <= b[2] <= 0x39 || 0x41 <= b[2] <= 0x46 || 0x61 <= b[2] <= 0x66),
    ensures
        decoded_bytes(b) == seq![0x25u8] + decoded_bytes(b.skip(1)),
{
}

} // verus!
