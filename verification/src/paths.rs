//! File paths in their lexical form, and export destinations that must stay
//! inside the workspace.
//!
//! A path is the text of its components with `/` between them. An absolute path
//! starts with `/`. Empty components and components that are `.` name nothing, but for a
//! `.` with which a path starts.

use vstd::prelude::*;
use vstd::string::*;

use crate::text::{join, substring, to_chars, trim};

verus! {

/// The components that a path text names, in order, without empty components
/// and without `.`.
pub open spec fn components(s: Seq<char>) -> Seq<Seq<char>>
    decreases s.len(),
    via components_decreases
{
    let i = crate::query::find(s, '/');
    if i < s.len() {
        component(s.take(i)) + components(s.skip(i + 1))
    } else {
        component(s)
    }
}

/// The component that the text between two separators names, if it names one.
pub open spec fn component(s: Seq<char>) -> Seq<Seq<char>> {
    if s.len() == 0 || s == seq!['.'] {
        Seq::empty()
    } else {
        seq![s]
    }
}

#[via_fn]
proof fn components_decreases(s: Seq<char>) {
    crate::query::lemma_find(s, '/');
}

/// Whether a path text starts at the root of the file system.
pub open spec fn absolute(s: Seq<char>) -> bool {
    s.len() > 0 && s[0] == '/'
}

/// Whether a path text starts with `.` as a component.
pub open spec fn starts_dotted(s: Seq<char>) -> bool {
    s.take(crate::query::find(s, '/')) == seq!['.']
}

/// What a path names: whether it starts at the root or with `.`, and its components.
pub struct PathView {
    /// Whether the path is absolute.
    pub rooted: bool,
    /// Whether the path starts with `.`.
    pub dotted: bool,
    /// The components in order.
    pub parts: Seq<Seq<char>>,
}

/// What a path text names.
pub open spec fn parsed(s: Seq<char>) -> PathView {
    PathView { rooted: absolute(s), dotted: starts_dotted(s), parts: components(s) }
}

/// The text of a path.
pub open spec fn rendered(p: PathView) -> Seq<char> {
    if p.rooted {
        seq!['/'] + crate::text::joined(p.parts, seq!['/'])
    } else if p.dotted && p.parts.len() == 0 {
        seq!['.']
    } else if p.dotted {
        seq!['.'] + seq!['/'] + crate::text::joined(p.parts, seq!['/'])
    } else {
        crate::text::joined(p.parts, seq!['/'])
    }
}

/// Whether a text can be one component of a path.
pub open spec fn is_component(c: Seq<char>) -> bool {
    c.len() > 0 && c != seq!['.'] && !c.contains('/')
}

/// The components with `.` and `..` resolved: each `..` takes back the component
/// before it, and takes nothing where there is none.
pub open spec fn resolved(parts: Seq<Seq<char>>) -> Seq<Seq<char>>
    decreases parts.len(),
{
    if parts.len() == 0 {
        Seq::empty()
    } else {
        let before = resolved(parts.drop_last());
        if parts.last() == seq!['.', '.'] {
            if before.len() == 0 {
                before
            } else {
                before.drop_last()
            }
        } else {
            before.push(parts.last())
        }
    }
}

/// A path with `.` and `..` resolved lexically.
pub open spec fn normalized(p: PathView) -> PathView {
    PathView { rooted: p.rooted, dotted: false, parts: resolved(p.parts) }
}

/// Whether a path names nothing.
pub open spec fn blank(p: PathView) -> bool {
    !p.rooted && !p.dotted && p.parts.len() == 0
}

/// Whether `p` is `base` or lies below it; everything lies below the path that names
/// nothing.
pub open spec fn within(p: PathView, base: PathView) -> bool {
    blank(base) || {
        &&& p.rooted == base.rooted
        &&& p.dotted == base.dotted
        &&& base.parts.len() <= p.parts.len()
        &&& p.parts.take(base.parts.len() as int) == base.parts
    }
}

/// What is left of `p` below `base`.
pub open spec fn beyond(p: PathView, base: PathView) -> PathView {
    if blank(base) {
        p
    } else {
        PathView {
            rooted: false,
            dotted: false,
            parts: p.parts.skip(base.parts.len() as int),
        }
    }
}

/// The path without its last component, if it has one.
pub open spec fn spec_parent(p: PathView) -> Option<PathView> {
    if p.parts.len() > 0 {
        Some(PathView { parts: p.parts.drop_last(), ..p })
    } else if p.dotted {
        Some(PathView { dotted: false, ..p })
    } else {
        None
    }
}

/// How many paths there are from `p` up to the topmost.
pub open spec fn ancestor_count(p: PathView) -> nat {
    if p.dotted {
        p.parts.len() + 2
    } else {
        p.parts.len() + 1
    }
}

/// The path that is so many components above `p`.
pub open spec fn ancestor(p: PathView, up: int) -> PathView {
    if up <= p.parts.len() {
        PathView { parts: p.parts.take(p.parts.len() - up), ..p }
    } else {
        PathView { dotted: false, parts: Seq::empty(), ..p }
    }
}

/// A path text without the separators and the `.` at its end.
pub open spec fn end_trimmed(s: Seq<char>) -> Seq<char>
    decreases s.len(),
{
    if s.len() > 0 && (s.last() == '/' || (s.last() == '.' && (s.len() == 1 || s[s.len() - 2]
        == '/'))) {
        end_trimmed(s.drop_last())
    } else {
        s
    }
}

/// The text of a path after its first `n` components, with what stands between the others
/// as it is.
pub open spec fn remainder(s: Seq<char>, n: nat) -> Seq<char>
    decreases s.len(),
    via remainder_decreases
{
    let i = crate::query::find(s, '/');
    let empty = component(s.take(i)).len() == 0;
    if i < s.len() && empty {
        remainder(s.skip(i + 1), n)
    } else if i < s.len() && n > 0 {
        remainder(s.skip(i + 1), (n - 1) as nat)
    } else if n > 0 {
        Seq::empty()
    } else {
        end_trimmed(s)
    }
}

#[via_fn]
proof fn remainder_decreases(s: Seq<char>, n: nat) {
    crate::query::lemma_find(s, '/');
}

/// The text of `path` below `base`.
pub open spec fn stripped(path: Seq<char>, base: Seq<char>) -> Seq<char> {
    if blank(parsed(base)) {
        path
    } else {
        remainder(path, parsed(base).parts.len())
    }
}

/// `rest` below `base`; an absolute `rest` replaces it.
pub open spec fn below(base: PathView, rest: PathView) -> PathView {
    if rest.rooted {
        rest
    } else {
        PathView {
            rooted: base.rooted,
            dotted: if blank(base) {
                rest.dotted
            } else {
                base.dotted
            },
            parts: base.parts + rest.parts,
        }
    }
}

fn names_nothing(chars: &Vec<char>, at: usize, end: usize) -> (r: bool)
    requires
        at <= end <= chars.len(),
    ensures
        r == (component(chars@.subrange(at as int, end as int)).len() == 0),
{
    let ghost part = chars@.subrange(at as int, end as int);
    if end == at {
        true
    } else if end == at + 1 {
        assert(part[0] == chars@[at as int]);
        if chars[at] == '.' {
            assert(part =~= seq!['.']);
            true
        } else {
            assert(seq!['.'][0] == '.');
            false
        }
    } else {
        assert(seq!['.'].len() == 1);
        false
    }
}

fn is_dotted(chars: &Vec<char>) -> (r: bool)
    ensures
        r == starts_dotted(chars@),
{
    let end = crate::query::find_char(chars, 0, chars.len(), '/');
    let ghost part = chars@.take(end as int);
    assert(chars@.subrange(0, chars@.len() as int) =~= chars@);
    if end == 1 {
        assert(part[0] == chars@[0]);
        if chars[0] == '.' {
            assert(part =~= seq!['.']);
            true
        } else {
            assert(seq!['.'][0] == '.');
            false
        }
    } else {
        assert(seq!['.'].len() == 1);
        false
    }
}

/// A path as its components.
#[derive(Debug)]
pub struct PathParts {
    /// Whether the path is absolute.
    pub rooted: bool,
    /// Whether the path starts with `.`.
    pub dotted: bool,
    /// The components in order.
    pub parts: Vec<String>,
}

impl View for PathParts {
    type V = PathView;

    open spec fn view(&self) -> PathView {
        PathView {
            rooted: self.rooted,
            dotted: self.dotted,
            parts: crate::text::texts(self.parts@),
        }
    }
}

impl PathParts {
    /// The path that a text names.
    pub fn parse(s: &str) -> (r: PathParts)
        ensures
            r@ == parsed(s@),
    {
        let chars = to_chars(s);
        let rooted = chars.len() > 0 && chars[0] == '/';
        let dotted = is_dotted(&chars);
        let mut parts: Vec<String> = Vec::new();
        let mut at: usize = 0;
        let mut more = true;
        assert(s@.subrange(0, s@.len() as int) =~= s@);
        assert(crate::text::texts(parts@) + components(s@) =~= components(s@));
        while more
            invariant
                at <= chars.len(),
                chars@ == s@,
                more ==> components(s@) == crate::text::texts(parts@) + components(
                    s@.subrange(at as int, s@.len() as int),
                ),
                !more ==> components(s@) == crate::text::texts(parts@),
            decreases
                (if more {
                    chars.len() - at + 1
                } else {
                    0
                }),
        {
            let ghost rest = s@.subrange(at as int, s@.len() as int);
            let ghost before = parts@;
            let end = crate::query::find_char(&chars, at, chars.len(), '/');
            let ghost head = rest.take(end - at);
            let part = substring(&chars, at, end);
            assert(part@ =~= head);
            let skip = names_nothing(&chars, at, end);
            assert(chars@.subrange(at as int, end as int) =~= head);
            if !skip {
                parts.push(part);
            }
            assert(crate::text::texts(parts@) =~= crate::text::texts(before) + component(head));
            if end < chars.len() {
                assert(rest.skip(end - at + 1) =~= s@.subrange(end + 1, s@.len() as int));
                assert(components(s@) =~= crate::text::texts(parts@) + components(
                    rest.skip(end - at + 1),
                ));
                at = end + 1;
            } else {
                assert(head =~= rest);
                more = false;
            }
        }
        PathParts { rooted, dotted, parts }
    }

    /// The path's text.
    pub fn render(&self) -> (r: String)
        ensures
            r@ == rendered(self@),
    {
        proof {
            reveal_strlit("/");
            reveal_strlit(".");
            reveal_strlit("./");
            assert("/"@ =~= seq!['/']);
            assert("."@ =~= seq!['.']);
            assert("./"@ =~= seq!['.'] + seq!['/']);
        }
        let body = join(&self.parts, "/");
        if self.rooted {
            let mut out = "/".to_owned();
            out.append(body.as_str());
            out
        } else if self.dotted && self.parts.len() == 0 {
            ".".to_owned()
        } else if self.dotted {
            let mut out = "./".to_owned();
            out.append(body.as_str());
            out
        } else {
            body
        }
    }

    /// The path with `.` and `..` resolved.
    pub fn normalize(&self) -> (r: PathParts)
        ensures
            r@ == normalized(self@),
    {
        let mut out: Vec<String> = Vec::new();
        let mut i: usize = 0;
        proof {
            reveal_strlit("..");
            assert(".."@ =~= seq!['.', '.']);
            assert(crate::text::texts(out@) =~= Seq::empty());
        }
        let up = "..".to_owned();
        while i < self.parts.len()
            invariant
                i <= self.parts.len(),
                up@ == seq!['.', '.'],
                crate::text::texts(out@) == resolved(
                    crate::text::texts(self.parts@.take(i as int)),
                ),
            decreases self.parts.len() - i,
        {
            let ghost next = crate::text::texts(self.parts@.take(i + 1));
            let ghost before = out@;
            assert(next.drop_last() =~= crate::text::texts(self.parts@.take(i as int)));
            if self.parts[i] == up {
                if out.len() > 0 {
                    let gone = out.pop();
                    assert(crate::text::texts(out@) =~= crate::text::texts(before).drop_last());
                }
            } else {
                out.push(self.parts[i].clone());
                assert(crate::text::texts(out@) =~= crate::text::texts(before).push(next.last()));
            }
            i = i + 1;
        }
        assert(self.parts@.take(self.parts@.len() as int) =~= self.parts@);
        PathParts { rooted: self.rooted, dotted: false, parts: out }
    }

    /// Whether the path names nothing.
    pub fn is_blank(&self) -> (r: bool)
        ensures
            r == blank(self@),
    {
        !self.rooted && !self.dotted && self.parts.len() == 0
    }

    /// Whether the path is `base` or lies below it.
    pub fn starts_with(&self, base: &PathParts) -> (r: bool)
        ensures
            r == within(self@, base@),
    {
        if base.is_blank() {
            return true;
        }
        if self.rooted != base.rooted || self.dotted != base.dotted || self.parts.len()
            < base.parts.len() {
            return false;
        }
        let mut i: usize = 0;
        let ghost head = self@.parts.take(base@.parts.len() as int);
        while i < base.parts.len()
            invariant
                i <= base.parts.len() <= self.parts.len(),
                head == self@.parts.take(base@.parts.len() as int),
                forall|j: int| 0 <= j < i ==> head[j] == base@.parts[j],
            decreases base.parts.len() - i,
        {
            assert(head[i as int] == self.parts@[i as int]@);
            if !(self.parts[i] == base.parts[i]) {
                assert(head[i as int] != base@.parts[i as int]);
                return false;
            }
            i = i + 1;
        }
        assert(head =~= base@.parts);
        true
    }

    /// `rest` below this path; an absolute `rest` replaces it.
    pub fn join(&self, rest: &PathParts) -> (r: PathParts)
        ensures
            r@ == below(self@, rest@),
    {
        let mut parts: Vec<String> = Vec::new();
        let mut i: usize = 0;
        if !rest.rooted {
            while i < self.parts.len()
                invariant
                    i <= self.parts.len(),
                    crate::text::texts(parts@) == self@.parts.take(i as int),
                decreases self.parts.len() - i,
            {
                let ghost before = parts@;
                parts.push(self.parts[i].clone());
                assert(crate::text::texts(parts@) =~= crate::text::texts(before).push(
                    self.parts@[i as int]@,
                ));
                assert(self@.parts.take(i + 1) =~= self@.parts.take(i as int).push(
                    self.parts@[i as int]@,
                ));
                i = i + 1;
            }
        }
        let ghost base = crate::text::texts(parts@);
        let mut k: usize = 0;
        assert(base + rest@.parts.take(0) =~= base);
        while k < rest.parts.len()
            invariant
                k <= rest.parts.len(),
                crate::text::texts(parts@) == base + rest@.parts.take(k as int),
            decreases rest.parts.len() - k,
        {
            let ghost before = parts@;
            parts.push(rest.parts[k].clone());
            assert(crate::text::texts(parts@) =~= crate::text::texts(before).push(
                rest.parts@[k as int]@,
            ));
            assert(base + rest@.parts.take(k + 1) =~= (base + rest@.parts.take(k as int)).push(
                rest.parts@[k as int]@,
            ));
            k = k + 1;
        }
        let rooted = if rest.rooted {
            true
        } else {
            self.rooted
        };
        proof {
            assert(rest@.parts.take(rest@.parts.len() as int) =~= rest@.parts);
            assert(self@.parts.take(self@.parts.len() as int) =~= self@.parts);
            assert(Seq::<Seq<char>>::empty() + rest@.parts =~= rest@.parts);
        }
        let dotted = if rest.rooted || self.is_blank() {
            rest.dotted
        } else {
            self.dotted
        };
        PathParts { rooted, dotted, parts }
    }

    /// The first `n` components.
    pub fn prefix(&self, n: usize) -> (r: PathParts)
        requires
            n <= self.parts.len(),
        ensures
            r@ == (PathView { parts: self@.parts.take(n as int), ..self@ }),
    {
        let mut parts: Vec<String> = Vec::new();
        let mut i: usize = 0;
        while i < n
            invariant
                i <= n <= self.parts.len(),
                crate::text::texts(parts@) == self@.parts.take(i as int),
            decreases n - i,
        {
            let ghost before = parts@;
            parts.push(self.parts[i].clone());
            assert(crate::text::texts(parts@) =~= crate::text::texts(before).push(
                self.parts@[i as int]@,
            ));
            assert(self@.parts.take(i + 1) =~= self@.parts.take(i as int).push(
                self.parts@[i as int]@,
            ));
            i = i + 1;
        }
        PathParts { rooted: self.rooted, dotted: self.dotted, parts }
    }

    /// The components after the first `n`, as a relative path.
    pub fn suffix(&self, n: usize) -> (r: PathParts)
        requires
            n <= self.parts.len(),
        ensures
            r@ == (PathView { rooted: false, dotted: false, parts: self@.parts.skip(n as int) }),
    {
        let mut parts: Vec<String> = Vec::new();
        let mut i: usize = n;
        while i < self.parts.len()
            invariant
                n <= i <= self.parts.len(),
                crate::text::texts(parts@) == self@.parts.subrange(n as int, i as int),
            decreases self.parts.len() - i,
        {
            let ghost before = parts@;
            parts.push(self.parts[i].clone());
            assert(crate::text::texts(parts@) =~= crate::text::texts(before).push(
                self.parts@[i as int]@,
            ));
            assert(self@.parts.subrange(n as int, i + 1) =~= self@.parts.subrange(
                n as int,
                i as int,
            ).push(self.parts@[i as int]@));
            i = i + 1;
        }
        assert(self@.parts.subrange(n as int, self@.parts.len() as int) =~= self@.parts.skip(
            n as int,
        ));
        PathParts { rooted: false, dotted: false, parts }
    }
}

/// Resolves `.` and `..` in a path without touching the file system. A `..` that
/// would climb above the start of the path takes nothing.
pub fn lexical_normalize(path: &str) -> (r: String)
    ensures
        r@ == rendered(normalized(parsed(path@))),
{
    PathParts::parse(path).normalize().render()
}

/// Whether a path lies at or below another, by their components.
pub fn path_within(path: &str, base: &str) -> (r: bool)
    ensures
        r == within(parsed(path@), parsed(base@)),
{
    PathParts::parse(path).starts_with(&PathParts::parse(base))
}

fn end_of(chars: &Vec<char>, at: usize) -> (r: usize)
    requires
        at <= chars.len(),
    ensures
        at <= r <= chars.len(),
        chars@.subrange(at as int, r as int) == end_trimmed(
            chars@.subrange(at as int, chars@.len() as int),
        ),
{
    let ghost all = chars@;
    let mut b: usize = chars.len();
    while b > at && (chars[b - 1] == '/' || (chars[b - 1] == '.' && (b == at + 1 || chars[b - 2]
        == '/')))
        invariant
            at <= b <= chars.len(),
            all == chars@,
            end_trimmed(all.subrange(at as int, all.len() as int)) == end_trimmed(
                all.subrange(at as int, b as int),
            ),
        decreases b,
    {
        assert(all.subrange(at as int, b as int).drop_last() =~= all.subrange(at as int, b - 1));
        b = b - 1;
    }
    b
}

fn remaining(chars: &Vec<char>, n: usize) -> (r: String)
    ensures
        r@ == remainder(chars@, n as nat),
{
    let ghost all = chars@;
    let mut at: usize = 0;
    let mut left: usize = n;
    assert(all.subrange(0, all.len() as int) =~= all);
    loop
        invariant
            at <= chars.len(),
            all == chars@,
            remainder(all, n as nat) == remainder(
                all.subrange(at as int, all.len() as int),
                left as nat,
            ),
        decreases chars.len() - at,
    {
        let ghost rest = all.subrange(at as int, all.len() as int);
        let end = crate::query::find_char(chars, at, chars.len(), '/');
        let empty = names_nothing(chars, at, end);
        assert(all.subrange(at as int, end as int) =~= rest.take(end - at));
        assert(end - at == crate::query::find(rest, '/'));
        if end < chars.len() && (empty || left > 0) {
            assert(rest.skip(end - at + 1) =~= all.subrange(end + 1, all.len() as int));
            if !empty {
                left = left - 1;
            }
            at = end + 1;
        } else if left > 0 {
            return String::new();
        } else {
            let b = end_of(chars, at);
            return substring(chars, at, b);
        }
    }
}

/// `path` relative to `base`, when it lies at or below it.
pub fn strip_prefix(path: &str, base: &str) -> (r: Option<String>)
    ensures
        r is Some == within(parsed(path@), parsed(base@)),
        r matches Some(rest) ==> rest@ == stripped(path@, base@),
{
    let p = PathParts::parse(path);
    let b = PathParts::parse(base);
    if !p.starts_with(&b) {
        None
    } else if b.is_blank() {
        Some(path.to_owned())
    } else {
        let chars = to_chars(path);
        Some(remaining(&chars, b.parts.len()))
    }
}

/// What became of `path` once the directory `from` moved to `to`: a path at or
/// below `from` lies at the same place below `to`, and any other path stays.
pub open spec fn moved(path: Seq<char>, from: Seq<char>, to: Seq<char>) -> Seq<char> {
    let p = parsed(path);
    let f = parsed(from);
    if within(p, f) {
        rendered(below(parsed(to), beyond(p, f)))
    } else {
        path
    }
}

/// The place of `path` once the directory `from` moved to `to`, when it lies at
/// or below `from`.
pub fn repointed(path: &str, from: &str, to: &str) -> (r: Option<String>)
    ensures
        r is Some == within(parsed(path@), parsed(from@)),
        r matches Some(t) ==> t@ == moved(path@, from@, to@),
{
    let p = PathParts::parse(path);
    let f = PathParts::parse(from);
    if p.starts_with(&f) {
        let rest = if f.is_blank() {
            p
        } else {
            p.suffix(f.parts.len())
        };
        Some(PathParts::parse(to).join(&rest).render())
    } else {
        None
    }
}

/// The last component of a path, if it has one and it is not `..`.
pub open spec fn spec_file_name(p: PathView) -> Option<Seq<char>> {
    if p.parts.len() == 0 || p.parts.last() == seq!['.', '.'] {
        None
    } else {
        Some(p.parts.last())
    }
}

/// The last component of a path, if it has one and it is not `..`.
pub fn file_name(path: &str) -> (r: Option<String>)
    ensures
        match r {
            Some(n) => spec_file_name(parsed(path@)) == Some(n@),
            None => spec_file_name(parsed(path@)) is None,
        },
{
    let p = PathParts::parse(path);
    proof {
        reveal_strlit("..");
        assert(".."@ =~= seq!['.', '.']);
    }
    if p.parts.len() == 0 {
        return None;
    }
    let last = p.parts[p.parts.len() - 1].clone();
    assert(last@ == p@.parts.last());
    if last == "..".to_owned() {
        None
    } else {
        Some(last)
    }
}

/// The path without its last component, if it has one.
pub fn parent(path: &str) -> (r: Option<String>)
    ensures
        match r {
            Some(t) => spec_parent(parsed(path@)) matches Some(up) && t@ == rendered(up),
            None => spec_parent(parsed(path@)) is None,
        },
{
    let p = PathParts::parse(path);
    if p.parts.len() > 0 {
        let up = p.prefix(p.parts.len() - 1);
        assert(p@.parts.take(p.parts.len() - 1) =~= p@.parts.drop_last());
        Some(up.render())
    } else if p.dotted {
        let up = PathParts { rooted: p.rooted, dotted: false, parts: p.parts };
        Some(up.render())
    } else {
        None
    }
}

/// The path `rest` taken from the directory `base`.
pub fn join_path(base: &str, rest: &str) -> (r: String)
    ensures
        r@ == rendered(below(parsed(base@), parsed(rest@))),
{
    PathParts::parse(base).join(&PathParts::parse(rest)).render()
}

/// Whether a path text is absolute.
pub fn is_absolute(path: &str) -> (r: bool)
    ensures
        r == absolute(path@),
{
    let chars = to_chars(path);
    chars.len() > 0 && chars[0] == '/'
}

/// The path itself and the directories above it, deepest first.
pub fn ancestors(path: &str) -> (r: Vec<String>)
    ensures
        r.len() == ancestor_count(parsed(path@)),
        forall|i: int|
            0 <= i < r.len() ==> (#[trigger] r@[i])@ == rendered(ancestor(parsed(path@), i)),
{
    let p = PathParts::parse(path);
    let mut out: Vec<String> = Vec::new();
    let mut n: usize = p.parts.len();
    out.push(p.prefix(n).render());
    while n > 0
        invariant
            n <= p.parts.len(),
            p@ == parsed(path@),
            p.parts@.len() == p@.parts.len(),
            out.len() == p@.parts.len() - n + 1,
            forall|i: int|
                0 <= i < out.len() ==> (#[trigger] out@[i])@ == rendered(ancestor(p@, i)),
        decreases n,
    {
        n = n - 1;
        out.push(p.prefix(n).render());
    }
    if p.dotted {
        let top = PathParts { rooted: p.rooted, dotted: false, parts: Vec::new() };
        assert(top@.parts =~= Seq::empty());
        out.push(top.render());
    }
    out
}

/// The deepest of a path's ancestors that resolved on disk: the first outcome
/// that is there, where `probes` holds what resolving each of [`ancestors`] gave.
pub fn existing_ancestor_canonical(probes: &Vec<Option<String>>) -> (r: Option<String>)
    ensures
        match r {
            Some(on_disk) => exists|i: int|
                0 <= i < probes.len() && #[trigger] probes@[i] == Some(on_disk) && forall|j: int|
                    0 <= j < i ==> (#[trigger] probes@[j]) is None,
            None => forall|i: int| 0 <= i < probes.len() ==> (#[trigger] probes@[i]) is None,
        },
{
    let mut i: usize = 0;
    while i < probes.len()
        invariant
            i <= probes.len(),
            forall|j: int| 0 <= j < i ==> (#[trigger] probes@[j]) is None,
        decreases probes.len() - i,
    {
        if let Some(on_disk) = &probes[i] {
            let found = on_disk.clone();
            assert(probes@[i as int] == Some(found));
            return Some(found);
        }
        i = i + 1;
    }
    None
}

/// Why an export destination is refused.
#[derive(Debug, Clone, Copy, PartialEq, Eq, Structural)]
pub enum ExportError {
    /// The typed path is blank.
    NoPath,
    /// The path leaves the workspace.
    Escapes,
    /// A link on the way leaves the workspace.
    EscapesByLink,
}

impl ExportError {
    /// The reason in words.
    pub open spec fn spec_text(self) -> Seq<char> {
        match self {
            ExportError::NoPath => "no path given"@,
            ExportError::Escapes => "path escapes the workspace root"@,
            ExportError::EscapesByLink => "path escapes the workspace root (symlinked component)"@,
        }
    }

    /// The reason in words.
    pub fn text(self) -> (r: &'static str)
        ensures
            r@ == self.spec_text(),
    {
        match self {
            ExportError::NoPath => "no path given",
            ExportError::Escapes => "path escapes the workspace root",
            ExportError::EscapesByLink => "path escapes the workspace root (symlinked component)",
        }
    }
}

/// Where a typed destination leads from `root`, with `.` and `..` resolved.
pub open spec fn export_path(root: Seq<char>, input: Seq<char>) -> PathView {
    normalized(below(parsed(root), parsed(crate::text::trimmed(input))))
}

/// Resolves a typed export destination against the workspace `root`, which is
/// in its canonical form. A blank path and one that leaves the root are refused.
pub fn export_candidate(root: &str, input: &str) -> (r: Result<String, ExportError>)
    ensures
        match r {
            Ok(t) => crate::text::trimmed(input@).len() > 0 && within(
                export_path(root@, input@),
                parsed(root@),
            ) && t@ == rendered(export_path(root@, input@)),
            Err(ExportError::NoPath) => crate::text::trimmed(input@).len() == 0,
            Err(ExportError::Escapes) => crate::text::trimmed(input@).len() > 0 && !within(
                export_path(root@, input@),
                parsed(root@),
            ),
            Err(ExportError::EscapesByLink) => false,
        },
{
    let input = trim(input);
    if input.as_str().is_empty() {
        return Err(ExportError::NoPath);
    }
    let base = PathParts::parse(root);
    let target = base.join(&PathParts::parse(input.as_str())).normalize();
    if target.starts_with(&base) {
        Ok(target.render())
    } else {
        Err(ExportError::Escapes)
    }
}

/// Resolves a typed export destination against the workspace `root`, which is
/// in its canonical form. `on_disk` is the deepest ancestor of the destination
/// that exists on disk, resolved: where a link on the way leads out of the
/// root, the destination is refused too.
pub fn export_target(root: &str, input: &str, on_disk: &Option<String>) -> (r: Result<
    String,
    ExportError,
>)
    ensures
        match r {
            Ok(t) => {
                &&& crate::text::trimmed(input@).len() > 0
                &&& within(export_path(root@, input@), parsed(root@))
                &&& (*on_disk matches Some(p) ==> within(parsed(p@), parsed(root@)))
                &&& t@ == rendered(export_path(root@, input@))
            },
            Err(ExportError::NoPath) => crate::text::trimmed(input@).len() == 0,
            Err(ExportError::Escapes) => crate::text::trimmed(input@).len() > 0 && !within(
                export_path(root@, input@),
                parsed(root@),
            ),
            Err(ExportError::EscapesByLink) => {
                &&& crate::text::trimmed(input@).len() > 0
                &&& within(export_path(root@, input@), parsed(root@))
                &&& *on_disk matches Some(p) && !within(parsed(p@), parsed(root@))
            },
        },
{
    let target = match export_candidate(root, input) {
        Ok(t) => t,
        Err(e) => {
            return Err(e);
        },
    };
    match on_disk {
        Some(p) => {
            if path_within(p.as_str(), root) {
                Ok(target)
            } else {
                Err(ExportError::EscapesByLink)
            }
        },
        None => Ok(target),
    }
}

/// The destination that an export prompt starts with, for a name: `exports/`,
/// the name in lower case with every run of other characters than ASCII letters
/// and digits as one `-`, and `.json`.
pub open spec fn slug(name: Seq<char>) -> Seq<char>
    decreases name.len(),
{
    if name.len() == 0 {
        Seq::empty()
    } else {
        let before = slug(name.drop_last());
        let c = name.last();
        if alphanumeric(c) {
            before.push(lowercase(c))
        } else if before.len() > 0 && before.last() == '-' {
            before
        } else {
            before.push('-')
        }
    }
}

/// The ASCII letters and digits.
pub open spec fn alphanumeric(c: char) -> bool {
    ('0' <= c && c <= '9') || ('a' <= c && c <= 'z') || ('A' <= c && c <= 'Z')
}

/// An ASCII letter in lower case; any other character as it is.
pub open spec fn lowercase(c: char) -> char {
    if 'A' <= c && c <= 'Z' {
        ((c as u32) + 32) as char
    } else {
        c
    }
}

/// `s` without the `-` at either end.
pub open spec fn undashed(s: Seq<char>) -> Seq<char>
    decreases s.len(),
{
    if s.len() > 0 && s[0] == '-' {
        undashed(s.skip(1))
    } else if s.len() > 0 && s.last() == '-' {
        undashed(s.drop_last())
    } else {
        s
    }
}

/// The slug that names an export; a name without letters and digits is `export`.
pub open spec fn export_slug(name: Seq<char>) -> Seq<char> {
    if undashed(slug(name)).len() == 0 {
        "export"@
    } else {
        undashed(slug(name))
    }
}

fn to_lowercase(c: char) -> (r: char)
    ensures
        r == lowercase(c),
{
    if 'A' <= c && c <= 'Z' {
        ((c as u8) + 32) as char
    } else {
        c
    }
}

fn undash(chars: &Vec<char>) -> (r: (usize, usize))
    ensures
        r.0 <= r.1 <= chars.len(),
        chars@.subrange(r.0 as int, r.1 as int) == undashed(chars@),
{
    let mut a: usize = 0;
    let mut b: usize = chars.len();
    assert(chars@.subrange(0, chars@.len() as int) =~= chars@);
    while a < b && (chars[a] == '-' || chars[b - 1] == '-')
        invariant
            a <= b <= chars.len(),
            undashed(chars@) == undashed(chars@.subrange(a as int, b as int)),
        decreases b - a,
    {
        let ghost now = chars@.subrange(a as int, b as int);
        if chars[a] == '-' {
            assert(now.skip(1) =~= chars@.subrange(a + 1, b as int));
            a = a + 1;
        } else {
            assert(now.drop_last() =~= chars@.subrange(a as int, b - 1));
            b = b - 1;
        }
    }
    (a, b)
}

/// A default export destination inside the workspace: `exports/<slug>.json`.
pub fn default_export_path(name: &str) -> (r: String)
    ensures
        r@ == "exports/"@ + export_slug(name@) + ".json"@,
{
    let chars = to_chars(name);
    let mut out: Vec<char> = Vec::new();
    let mut i: usize = 0;
    while i < chars.len()
        invariant
            i <= chars.len(),
            chars@ == name@,
            out@ == slug(name@.take(i as int)),
        decreases chars.len() - i,
    {
        let c = chars[i];
        assert(name@.take(i + 1).drop_last() =~= name@.take(i as int));
        if ('0' <= c && c <= '9') || ('a' <= c && c <= 'z') || ('A' <= c && c <= 'Z') {
            out.push(to_lowercase(c));
        } else if !(out.len() > 0 && out[out.len() - 1] == '-') {
            out.push('-');
        }
        i = i + 1;
    }
    assert(name@.take(name@.len() as int) =~= name@);
    let (a, b) = undash(&out);
    let mut path = "exports/".to_owned();
    if a == b {
        path.append("export");
    } else {
        let body = substring(&out, a, b);
        path.append(body.as_str());
    }
    path.append(".json");
    path
}

/// Every component that a path text names can be one, and none is `.`.
pub proof fn law_components_are_components(s: Seq<char>)
    ensures
        forall|i: int| 0 <= i < components(s).len() ==> is_component(#[trigger] components(s)[i]),
    decreases s.len(),
{
    crate::query::lemma_find(s, '/');
    let i = crate::query::find(s, '/');
    if i < s.len() {
        let head = s.take(i);
        let rest = components(s.skip(i + 1));
        law_components_are_components(s.skip(i + 1));
        assert forall|k: int| 0 <= k < components(s).len() implies is_component(
            #[trigger] components(s)[k],
        ) by {
            if k >= component(head).len() {
                assert(components(s)[k] == rest[k - component(head).len()]);
            }
        }
    }
}

proof fn lemma_components_concat(a: Seq<char>, b: Seq<char>)
    ensures
        components(a + seq!['/'] + b) == components(a) + components(b),
    decreases a.len(),
{
    let s = a + seq!['/'] + b;
    crate::query::lemma_find(a, '/');
    crate::query::lemma_find(s, '/');
    let i = crate::query::find(a, '/');
    assert(forall|k: int| 0 <= k < i ==> s[k] == a[k]);
    assert(s[i] == '/');
    crate::query::lemma_find_is(s, '/', i);
    assert(s.take(i) =~= a.take(i));
    if i < a.len() {
        assert(s.skip(i + 1) =~= a.skip(i + 1) + seq!['/'] + b);
        lemma_components_concat(a.skip(i + 1), b);
        assert(component(a.take(i)) + (components(a.skip(i + 1)) + components(b)) =~= (component(
            a.take(i),
        ) + components(a.skip(i + 1))) + components(b));
    } else {
        assert(a.take(i) =~= a);
        assert(s.skip(i + 1) =~= b);
    }
}

proof fn lemma_components_single(c: Seq<char>)
    requires
        is_component(c),
    ensures
        components(c) == seq![c],
{
    assert forall|i: int| 0 <= i < c.len() implies c[i] != '/' by {
        assert(c.contains(c[i]));
    }
    crate::query::lemma_find_is(c, '/', c.len() as int);
}

proof fn lemma_components_joined(parts: Seq<Seq<char>>)
    requires
        forall|i: int| 0 <= i < parts.len() ==> is_component(#[trigger] parts[i]),
    ensures
        components(crate::text::joined(parts, seq!['/'])) == parts,
        !absolute(crate::text::joined(parts, seq!['/'])),
        !starts_dotted(crate::text::joined(parts, seq!['/'])),
    decreases parts.len(),
{
    let text = crate::text::joined(parts, seq!['/']);
    if parts.len() == 0 {
        crate::query::lemma_find_is(text, '/', 0);
        assert(components(text) =~= parts);
        assert(seq!['.'].len() == 1);
    } else if parts.len() == 1 {
        assert(is_component(parts[0]));
        lemma_components_single(parts[0]);
        assert(components(text) =~= parts);
        assert(parts[0].contains(parts[0][0]));
        assert forall|i: int| 0 <= i < text.len() implies text[i] != '/' by {
            assert(text.contains(text[i]));
        }
        crate::query::lemma_find_is(text, '/', text.len() as int);
        assert(text.take(text.len() as int) =~= text);
    } else {
        let before = parts.drop_last();
        assert forall|i: int| 0 <= i < before.len() implies is_component(#[trigger] before[i]) by {
            assert(before[i] == parts[i]);
        }
        lemma_components_joined(before);
        assert(is_component(parts[parts.len() - 1]));
        lemma_components_single(parts.last());
        lemma_components_concat(crate::text::joined(before, seq!['/']), parts.last());
        assert(before + seq![parts.last()] =~= parts);
        let head = crate::text::joined(before, seq!['/']);
        assert(is_component(before[0]));
        if head.len() == 0 {
            lemma_components_concat(head, head);
            crate::query::lemma_find_is(head, '/', 0);
            assert(components(head).len() == 0);
        }
        assert(text[0] == head[0]);
        crate::query::lemma_find(head, '/');
        let k = crate::query::find(head, '/');
        assert(forall|j: int| 0 <= j < head.len() ==> text[j] == head[j]);
        assert(text[head.len() as int] == '/');
        crate::query::lemma_find_is(text, '/', k);
        assert(text.take(k) =~= head.take(k));
    }
}

/// Rendering a path and reading it back gives the same path.
pub proof fn law_rendered_path_reads_back(p: PathView)
    requires
        forall|i: int| 0 <= i < p.parts.len() ==> is_component(#[trigger] p.parts[i]),
        !(p.rooted && p.dotted),
    ensures
        parsed(rendered(p)) == p,
{
    lemma_components_joined(p.parts);
    let body = crate::text::joined(p.parts, seq!['/']);
    if p.dotted {
        let dot = seq!['.'];
        let text = rendered(p);
        crate::query::lemma_find_is(dot, '/', 1);
        assert(dot.take(1) =~= dot);
        assert(components(dot) =~= Seq::empty());
        crate::query::lemma_find_is(text, '/', 1);
        assert(text.take(1) =~= dot);
        if p.parts.len() > 0 {
            lemma_components_concat(dot, body);
            assert(components(dot) + p.parts =~= p.parts);
        } else {
            assert(p.parts =~= Seq::empty());
        }
    } else if p.rooted {
        let empty: Seq<char> = Seq::empty();
        let text = rendered(p);
        assert(text[0] == '/');
        crate::query::lemma_find_is(text, '/', 0);
        assert(seq!['.'].len() == 1);
        assert(seq!['/'] + body =~= empty + seq!['/'] + body);
        lemma_components_concat(empty, body);
        crate::query::lemma_find_is(empty, '/', 0);
        assert(components(empty) =~= Seq::empty());
        assert(components(empty) + p.parts =~= p.parts);
    }
}

proof fn lemma_end_trimmed(s: Seq<char>)
    ensures
        components(end_trimmed(s)) == components(s),
    decreases s.len(),
{
    if s.len() > 0 && end_trimmed(s) != s {
        let t = s.drop_last();
        let none: Seq<char> = Seq::empty();
        let dot = seq!['.'];
        lemma_end_trimmed(t);
        crate::query::lemma_find_is(none, '/', 0);
        assert(components(none) =~= Seq::empty());
        crate::query::lemma_find_is(dot, '/', 1);
        assert(components(dot) =~= Seq::empty());
        if s.last() == '/' {
            lemma_components_concat(t, none);
            assert(s =~= t + seq!['/'] + none);
            assert(components(t) + components(none) =~= components(t));
        } else if s.len() == 1 {
            assert(s =~= dot);
            assert(t =~= none);
        } else {
            let u = t.drop_last();
            lemma_components_concat(u, none);
            lemma_components_concat(u, dot);
            assert(t =~= u + seq!['/'] + none);
            assert(s =~= u + seq!['/'] + dot);
        }
    }
}

/// What is left of a path after its first components names the others.
pub proof fn law_remainder_names_the_rest(s: Seq<char>, n: nat)
    requires
        n <= components(s).len(),
    ensures
        components(remainder(s, n)) == components(s).skip(n as int),
    decreases s.len(),
{
    crate::query::lemma_find(s, '/');
    let i = crate::query::find(s, '/');
    if i < s.len() {
        let head = component(s.take(i));
        let rest = s.skip(i + 1);
        assert(components(s) == head + components(rest));
        if head.len() == 0 {
            law_remainder_names_the_rest(rest, n);
            assert(head + components(rest) =~= components(rest));
        } else if n > 0 {
            law_remainder_names_the_rest(rest, (n - 1) as nat);
            assert(components(s).skip(n as int) =~= components(rest).skip(n - 1));
        } else {
            lemma_end_trimmed(s);
            assert(components(s).skip(0) =~= components(s));
        }
    } else if n > 0 {
        let none: Seq<char> = Seq::empty();
        crate::query::lemma_find_is(none, '/', 0);
        assert(components(s).skip(n as int) =~= Seq::empty());
        assert(components(none) =~= Seq::empty());
    } else {
        lemma_end_trimmed(s);
        assert(components(s).skip(0) =~= components(s));
    }
}

/// Nothing is left of `..` once a path is normalized, and what is left was there.
pub proof fn law_normalized_has_no_parent_steps(parts: Seq<Seq<char>>)
    ensures
        forall|i: int|
            0 <= i < resolved(parts).len() ==> #[trigger] resolved(parts)[i] != seq!['.', '.'],
        forall|i: int|
            0 <= i < resolved(parts).len() ==> parts.contains(#[trigger] resolved(parts)[i]),
    decreases parts.len(),
{
    if parts.len() > 0 {
        law_normalized_has_no_parent_steps(parts.drop_last());
        let before = resolved(parts.drop_last());
        assert forall|i: int| 0 <= i < resolved(parts).len() implies parts.contains(
            #[trigger] resolved(parts)[i],
        ) by {
            if i < before.len() {
                assert(resolved(parts)[i] == before[i]);
                assert(parts.drop_last().contains(before[i]));
                let k = choose|k: int|
                    0 <= k < parts.drop_last().len() && parts.drop_last()[k] == before[i];
                assert(parts[k] == before[i]);
            } else {
                assert(parts[parts.len() - 1] == resolved(parts)[i]);
            }
        }
    }
}

/// A path without `..` is normalized already.
pub proof fn law_plain_path_is_normalized(parts: Seq<Seq<char>>)
    requires
        forall|i: int| 0 <= i < parts.len() ==> #[trigger] parts[i] != seq!['.', '.'],
    ensures
        resolved(parts) == parts,
    decreases parts.len(),
{
    if parts.len() > 0 {
        let before = parts.drop_last();
        assert forall|i: int| 0 <= i < before.len() implies #[trigger] before[i] != seq![
            '.',
            '.',
        ] by {
            assert(before[i] == parts[i]);
        }
        law_plain_path_is_normalized(before);
        assert(parts[parts.len() - 1] != seq!['.', '.']);
        assert(before.push(parts.last()) =~= parts);
    } else {
        assert(resolved(parts) =~= parts);
    }
}

/// Normalizing a normalized path changes nothing.
pub proof fn law_normalize_is_idempotent(path: Seq<char>)
    ensures
        normalized(normalized(parsed(path))) == normalized(parsed(path)),
        rendered(normalized(parsed(rendered(normalized(parsed(path)))))) == rendered(
            normalized(parsed(path)),
        ),
{
    let p = parsed(path);
    law_normalized_has_no_parent_steps(p.parts);
    law_plain_path_is_normalized(resolved(p.parts));
    law_components_are_components(path);
    assert forall|i: int| 0 <= i < normalized(p).parts.len() implies is_component(
        #[trigger] normalized(p).parts[i],
    ) by {
        assert(p.parts.contains(normalized(p).parts[i]));
    }
    law_rendered_path_reads_back(normalized(p));
}

proof fn lemma_below_components(root: Seq<char>, input: Seq<char>)
    ensures
        forall|i: int|
            0 <= i < below(parsed(root), parsed(input)).parts.len() ==> is_component(
                #[trigger] below(parsed(root), parsed(input)).parts[i],
            ),
{
    law_components_are_components(root);
    law_components_are_components(input);
    let b = below(parsed(root), parsed(input));
    assert forall|i: int| 0 <= i < b.parts.len() implies is_component(#[trigger] b.parts[i]) by {
        if !parsed(input).rooted {
            if i < components(root).len() {
                assert(b.parts[i] == components(root)[i]);
            } else {
                assert(b.parts[i] == components(input)[i - components(root).len()]);
            }
        }
    }
}

/// A destination that is accepted reads back as a path at or below the root,
/// and holds no `..`.
pub proof fn law_export_target_stays_inside(root: Seq<char>, input: Seq<char>)
    requires
        within(export_path(root, input), parsed(root)),
    ensures
        within(parsed(rendered(export_path(root, input))), parsed(root)),
        forall|i: int|
            0 <= i < parsed(rendered(export_path(root, input))).parts.len() ==> #[trigger] parsed(
                rendered(export_path(root, input)),
            ).parts[i] != seq!['.', '.'],
{
    let typed = crate::text::trimmed(input);
    let b = below(parsed(root), parsed(typed));
    lemma_below_components(root, typed);
    law_normalized_has_no_parent_steps(b.parts);
    let p = export_path(root, input);
    assert forall|i: int| 0 <= i < p.parts.len() implies is_component(#[trigger] p.parts[i]) by {
        assert(b.parts.contains(p.parts[i]));
    }
    law_rendered_path_reads_back(p);
}

proof fn lemma_slug_chars(name: Seq<char>)
    ensures
        forall|i: int|
            0 <= i < slug(name).len() ==> alphanumeric(#[trigger] slug(name)[i]) || slug(name)[i]
                == '-',
    decreases name.len(),
{
    if name.len() > 0 {
        let before = slug(name.drop_last());
        lemma_slug_chars(name.drop_last());
        assert forall|i: int| 0 <= i < slug(name).len() implies alphanumeric(
            #[trigger] slug(name)[i],
        ) || slug(name)[i] == '-' by {
            if i < before.len() {
                assert(slug(name)[i] == before[i]);
            } else {
                assert(slug(name)[i] == lowercase(name.last()) || slug(name)[i] == '-');
                assert(alphanumeric(name.last()) ==> alphanumeric(lowercase(name.last())));
            }
        }
    }
}

proof fn lemma_undashed_chars(s: Seq<char>)
    ensures
        forall|i: int| 0 <= i < undashed(s).len() ==> s.contains(#[trigger] undashed(s)[i]),
    decreases s.len(),
{
    let t = undashed(s);
    if s.len() > 0 && s[0] == '-' {
        lemma_undashed_chars(s.skip(1));
        assert forall|i: int| 0 <= i < t.len() implies s.contains(#[trigger] t[i]) by {
            assert(undashed(s.skip(1))[i] == t[i]);
            assert(s.skip(1).contains(t[i]));
            let k = choose|k: int| 0 <= k < s.skip(1).len() && s.skip(1)[k] == t[i];
            assert(s[k + 1] == t[i]);
        }
    } else if s.len() > 0 && s.last() == '-' {
        lemma_undashed_chars(s.drop_last());
        assert forall|i: int| 0 <= i < t.len() implies s.contains(#[trigger] t[i]) by {
            assert(undashed(s.drop_last())[i] == t[i]);
            assert(s.drop_last().contains(t[i]));
            let k = choose|k: int| 0 <= k < s.drop_last().len() && s.drop_last()[k] == t[i];
            assert(s[k] == t[i]);
        }
    }
}

/// The slug of a default destination holds only lower-case letters, digits and
/// `-`, and is never blank.
pub proof fn law_export_slug_is_plain(name: Seq<char>)
    ensures
        export_slug(name).len() > 0,
        forall|i: int|
            0 <= i < export_slug(name).len() ==> alphanumeric(#[trigger] export_slug(name)[i])
                || export_slug(name)[i] == '-',
{
    reveal_strlit("export");
    lemma_slug_chars(name);
    lemma_undashed_chars(slug(name));
    let t = undashed(slug(name));
    assert forall|i: int| 0 <= i < export_slug(name).len() implies alphanumeric(
        #[trigger] export_slug(name)[i],
    ) || export_slug(name)[i] == '-' by {
        if t.len() > 0 {
            assert(slug(name).contains(t[i]));
        }
    }
}

/// An ASCII letter in upper case; any other character as it is.
pub open spec fn uppercase(c: char) -> char {
    if 'a' <= c && c <= 'z' {
        ((c as u32) - 32) as char
    } else {
        c
    }
}

/// Whether a text holds only lower-case letters, digits and single `-`.
spec fn slugged(s: Seq<char>) -> bool {
    forall|i: int|
        0 <= i < s.len() ==> {
            ||| alphanumeric(#[trigger] s[i]) && lowercase(s[i]) == s[i]
            ||| s[i] == '-' && (i == 0 || s[i - 1] != '-')
        }
}

proof fn lemma_slug_is_slugged(name: Seq<char>)
    ensures
        slugged(slug(name)),
    decreases name.len(),
{
    if name.len() > 0 {
        let before = slug(name.drop_last());
        lemma_slug_is_slugged(name.drop_last());
        let c = lowercase(name.last());
        assert(alphanumeric(name.last()) ==> alphanumeric(c) && lowercase(c) == c);
        assert forall|i: int| 0 <= i < slug(name).len() implies ({
            ||| alphanumeric(#[trigger] slug(name)[i]) && lowercase(slug(name)[i]) == slug(name)[i]
            ||| slug(name)[i] == '-' && (i == 0 || slug(name)[i - 1] != '-')
        }) by {
            if i < before.len() {
                assert(slug(name)[i] == before[i]);
            }
        }
    }
}

proof fn lemma_undashed_is_slugged(s: Seq<char>)
    requires
        slugged(s),
    ensures
        slugged(undashed(s)),
        undashed(s).len() > 0 ==> undashed(s)[0] != '-' && undashed(s).last() != '-',
    decreases s.len(),
{
    if s.len() > 0 && s[0] == '-' {
        let t = s.skip(1);
        assert forall|i: int| 0 <= i < t.len() implies ({
            ||| alphanumeric(#[trigger] t[i]) && lowercase(t[i]) == t[i]
            ||| t[i] == '-' && (i == 0 || t[i - 1] != '-')
        }) by {
            assert(t[i] == s[i + 1]);
        }
        lemma_undashed_is_slugged(t);
    } else if s.len() > 0 && s.last() == '-' {
        let t = s.drop_last();
        assert forall|i: int| 0 <= i < t.len() implies ({
            ||| alphanumeric(#[trigger] t[i]) && lowercase(t[i]) == t[i]
            ||| t[i] == '-' && (i == 0 || t[i - 1] != '-')
        }) by {
            assert(t[i] == s[i]);
        }
        lemma_undashed_is_slugged(t);
    }
}

proof fn lemma_slug_of_slugged(s: Seq<char>)
    requires
        slugged(s),
    ensures
        slug(s) == s,
    decreases s.len(),
{
    if s.len() > 0 {
        let t = s.drop_last();
        assert forall|i: int| 0 <= i < t.len() implies ({
            ||| alphanumeric(#[trigger] t[i]) && lowercase(t[i]) == t[i]
            ||| t[i] == '-' && (i == 0 || t[i - 1] != '-')
        }) by {
            assert(t[i] == s[i]);
        }
        lemma_slug_of_slugged(t);
        let last = s[s.len() - 1];
        assert(s =~= t.push(last));
    }
}

/// The slug of a slug is the same slug.
pub proof fn law_slug_of_a_slug_is_the_slug(name: Seq<char>)
    ensures
        export_slug(export_slug(name)) == export_slug(name),
{
    let t = export_slug(name);
    reveal_strlit("export");
    lemma_slug_is_slugged(name);
    lemma_undashed_is_slugged(slug(name));
    assert(slugged(t));
    lemma_slug_of_slugged(t);
    assert(undashed(t) == t);
}

/// A name in upper case has the same slug.
pub proof fn law_slug_ignores_case(name: Seq<char>)
    ensures
        export_slug(name.map_values(|c: char| uppercase(c))) == export_slug(name),
{
    lemma_slug_ignores_case(name);
}

proof fn lemma_slug_ignores_case(name: Seq<char>)
    ensures
        slug(name.map_values(|c: char| uppercase(c))) == slug(name),
    decreases name.len(),
{
    let up = name.map_values(|c: char| uppercase(c));
    if name.len() > 0 {
        lemma_slug_ignores_case(name.drop_last());
        assert(up.drop_last() =~= name.drop_last().map_values(|c: char| uppercase(c)));
        let c = name.last();
        assert(up.last() == uppercase(c));
        assert(alphanumeric(uppercase(c)) == alphanumeric(c));
        assert(lowercase(uppercase(c)) == lowercase(c));
    }
}

/// The default destination for any name is accepted from any root that holds no
/// `..` and does not start with `.`: it lies directly below `exports`.
pub proof fn law_default_export_is_accepted(root: Seq<char>, name: Seq<char>)
    requires
        !starts_dotted(root),
        forall|i: int|
            0 <= i < components(root).len() ==> #[trigger] components(root)[i] != seq!['.', '.'],
    ensures
        ({
            let input = "exports/"@ + export_slug(name) + ".json"@;
            &&& crate::text::trimmed(input).len() > 0
            &&& within(export_path(root, input), parsed(root))
            &&& export_path(root, input).parts == components(root) + seq![
                "exports"@,
                export_slug(name) + ".json"@,
            ]
        }),
{
    let input = "exports/"@ + export_slug(name) + ".json"@;
    let file = export_slug(name) + ".json"@;
    reveal_strlit("exports/");
    reveal_strlit("exports");
    reveal_strlit(".json");
    law_export_slug_is_plain(name);
    assert(input[0] == 'e');
    assert(input.last() == 'n');
    assert(crate::text::trimmed(input) == input);
    assert(input =~= "exports"@ + seq!['/'] + file);
    assert(is_component("exports"@)) by {
        assert("exports"@.len() == 7);
        assert(seq!['.'].len() == 1);
    }
    assert(is_component(file)) by {
        assert(file.len() > 1);
        assert(seq!['.'].len() == 1);
        assert forall|i: int| 0 <= i < file.len() implies file[i] != '/' by {
            if i < export_slug(name).len() {
                assert(file[i] == export_slug(name)[i]);
            } else {
                assert(file[i] == ".json"@[i - export_slug(name).len()]);
            }
        }
    }
    lemma_components_single("exports"@);
    lemma_components_single(file);
    lemma_components_concat("exports"@, file);
    assert(components(input) =~= seq!["exports"@, file]);
    let all = components(root) + seq!["exports"@, file];
    assert(below(parsed(root), parsed(input)).parts =~= all);
    assert forall|i: int| 0 <= i < all.len() implies #[trigger] all[i] != seq!['.', '.'] by {
        assert(seq!['.', '.'].len() == 2);
        if i < components(root).len() {
            assert(all[i] == components(root)[i]);
        } else if i == components(root).len() {
            assert(all[i] == "exports"@);
        } else {
            assert(all[i] == file);
            assert(file.len() > 5);
        }
    }
    law_plain_path_is_normalized(all);
    assert(all.take(components(root).len() as int) =~= components(root));
}

/// A path as it is shown: one below the home directory starts with a tilde.
pub open spec fn shown_path(path: Seq<char>, home: Option<Seq<char>>) -> Seq<char> {
    match home {
        Some(h) => if within(parsed(path), parsed(h)) {
            "~/"@ + stripped(path, h)
        } else {
            path
        },
        None => path,
    }
}

/// A path as it is shown, given the home directory.
pub fn path_below_home(path: &str, home: &Option<String>) -> (r: String)
    ensures
        r@ == shown_path(
            path@,
            match *home {
                Some(h) => Some(h@),
                None => None,
            },
        ),
{
    if let Some(h) = home {
        if let Some(rest) = strip_prefix(path, h.as_str()) {
            return crate::text::join2("~/", rest.as_str());
        }
    }
    path.to_owned()
}

/// Trusted: `home_dir` of the crate dirs, as text where it is text. Nothing is
/// claimed of the directory, which rests on the user and the machine.
#[verifier::external_body]
pub(crate) fn home_dir() -> (r: Option<String>) {
    match dirs::home_dir() {
        Some(path) => path.to_str().map(String::from),
        None => None,
    }
}

/// The path of a workspace as it is shown: one below the home directory starts with
/// a tilde.
pub fn display_workspace_path(path: &str) -> (r: String)
    ensures
        exists|home: Option<Seq<char>>| r@ == #[trigger] shown_path(path@, home),
{
    let home = home_dir();
    let r = path_below_home(path, &home);
    proof {
        let h = match home {
            Some(h) => Some(h@),
            None => None,
        };
        assert(r@ == shown_path(path@, h));
    }
    r
}

/// The components of two paths with `/` between them are those of the first and then those of
/// the second; a name is one component, and nothing and `.` are none.
pub proof fn law_components_add_up(a: Seq<char>, b: Seq<char>, name: Seq<char>)
    requires
        name.len() > 0,
        name != seq!['.'],
        !name.contains('/'),
    ensures
        components(a + seq!['/'] + b) == components(a) + components(b),
        components(name) == seq![name],
        components(Seq::<char>::empty()) == Seq::<Seq<char>>::empty(),
        components(seq!['.']) == Seq::<Seq<char>>::empty(),
        absolute(seq!['/'] + b),
        !absolute(name),
{
    lemma_components_concat(a, b);
    lemma_components_single(name);
    let dot = seq!['.'];
    crate::query::lemma_find_is(dot, '/', 1);
    assert(name.contains(name[0]));
}

/// A path lies within another where its components begin with those of the other, and in no
/// other case.
pub proof fn law_within_is_a_common_beginning(p: PathView, base: PathView, rest: Seq<Seq<char>>)
    requires
        base.rooted || base.dotted || base.parts.len() > 0,
    ensures
        within(PathView { parts: base.parts + rest, ..base }, base),
        within(p, base) ==> p.rooted == base.rooted && p.dotted == base.dotted && p.parts.len()
            >= base.parts.len() && (forall|i: int|
            0 <= i < base.parts.len() ==> #[trigger] p.parts[i] == base.parts[i]),
        p.rooted != base.rooted ==> !within(p, base),
        p.parts.len() < base.parts.len() ==> !within(p, base),
{
    assert((base.parts + rest).take(base.parts.len() as int) =~= base.parts);
    if within(p, base) {
        assert forall|i: int| 0 <= i < base.parts.len() implies #[trigger] p.parts[i]
            == base.parts[i] by {
            assert(p.parts.take(base.parts.len() as int)[i] == p.parts[i]);
        }
    }
}

/// `..` takes back the component before it, and nothing where there is none; any other component
/// stays.
pub proof fn law_parent_step_takes_one_back(parts: Seq<Seq<char>>, name: Seq<char>)
    requires
        name != seq!['.', '.'],
    ensures
        resolved(parts.push(name)) == resolved(parts).push(name),
        resolved(parts.push(seq!['.', '.'])) == (if resolved(parts).len() == 0 {
            Seq::empty()
        } else {
            resolved(parts).drop_last()
        }),
        resolved(parts.push(name).push(seq!['.', '.'])) == resolved(parts),
{
    let up = seq!['.', '.'];
    assert(parts.push(name).drop_last() =~= parts);
    assert(parts.push(up).drop_last() =~= parts);
    assert(parts.push(name).push(up).drop_last() =~= parts.push(name));
    assert(resolved(parts.push(name)) == resolved(parts).push(name));
    assert(resolved(parts).push(name).drop_last() =~= resolved(parts));
}

/// A file of a directory that moved lies below the new one, under the same names; a file that was
/// not in it stays where it is.
pub proof fn law_moved_file_keeps_its_names(
    path: Seq<char>,
    from: Seq<char>,
    to: Seq<char>,
    rest: Seq<Seq<char>>,
)
    requires
        parsed(from).rooted || parsed(from).dotted || parsed(from).parts.len() > 0,
    ensures
        !within(parsed(path), parsed(from)) ==> moved(path, from, to) == path,
        within(parsed(path), parsed(from)) && components(path) == components(from) + rest
            ==> components(moved(path, from, to)) == components(to) + rest,
{
    if within(parsed(path), parsed(from)) && components(path) == components(from) + rest {
        let p = parsed(path);
        let f = parsed(from);
        let t = parsed(to);
        assert(p.parts.skip(f.parts.len() as int) =~= rest);
        let target = below(t, beyond(p, f));
        assert(target.parts =~= components(to) + rest);
        law_components_are_components(to);
        law_components_are_components(path);
        assert forall|i: int| 0 <= i < target.parts.len() implies is_component(
            #[trigger] target.parts[i],
        ) by {
            if i >= components(to).len() {
                let k = i - components(to).len();
                assert(rest[k] == components(path)[components(from).len() + k]);
            }
        }
        if target.rooted && target.dotted {
            lemma_not_both(to);
        }
        law_rendered_path_reads_back(target);
    }
}

proof fn lemma_not_both(s: Seq<char>)
    ensures
        !(absolute(s) && starts_dotted(s)),
{
    if absolute(s) {
        crate::query::lemma_find_is(s, '/', 0);
        assert(s.take(0).len() == 0);
    }
}

/// The parent of a path is the path without its last component, and its name is that component.
pub proof fn law_parent_and_name(p: PathView, name: Seq<char>)
    requires
        name != seq!['.', '.'],
    ensures
        spec_parent(PathView { parts: p.parts.push(name), ..p }) == Some(p),
        spec_file_name(PathView { parts: p.parts.push(name), ..p }) == Some(name),
        p.parts.len() == 0 ==> spec_file_name(p) is None,
{
    assert(p.parts.push(name).drop_last() =~= p.parts);
}

/// A slug is the name in lower case with one dash for each run of other characters.
pub proof fn law_slug_is_lower_case_with_dashes(name: Seq<char>, c: char)
    ensures
        'a' <= c <= 'z' || '0' <= c <= '9' ==> slug(name.push(c)) == slug(name).push(c),
        'A' <= c <= 'Z' ==> slug(name.push(c)) == slug(name).push(((c as u32) + 32) as char),
        !('a' <= c <= 'z' || '0' <= c <= '9' || 'A' <= c <= 'Z') && (slug(name).len() == 0 || slug(
            name,
        ).last() != '-') ==> slug(name.push(c)) == slug(name).push('-'),
        !('a' <= c <= 'z' || '0' <= c <= '9' || 'A' <= c <= 'Z') && slug(name).len() > 0 && slug(
            name,
        ).last() == '-' ==> slug(name.push(c)) == slug(name),
        slug(Seq::<char>::empty()).len() == 0,
        undashed(slug(name)).len() > 0 ==> export_slug(name) == undashed(slug(name)),
        undashed(slug(name)).len() == 0 ==> export_slug(name) == "export"@,
{
    assert(name.push(c).drop_last() =~= name);
}

/// A path below the home directory is shown from `~`, and any other as it is.
pub proof fn law_home_is_shown_as_a_tilde(path: Seq<char>, home: Seq<char>)
    ensures
        within(parsed(path), parsed(home)) ==> shown_path(path, Some(home)) == "~/"@ + stripped(
            path,
            home,
        ),
        !within(parsed(path), parsed(home)) ==> shown_path(path, Some(home)) == path,
        shown_path(path, None) == path,
{
}

} // verus!
