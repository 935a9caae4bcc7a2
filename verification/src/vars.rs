//! Variables: named values, and the scopes that they are looked up in.

use vstd::prelude::*;

verus! {

/// Named values. A name occurs once.
#[derive(Debug)]
pub struct Vars {
    /// The names and their values.
    pub pairs: Vec<(String, String)>,
}

/// What pairs of texts map to what: a later pair wins.
pub open spec fn pairs_map(pairs: Seq<(String, String)>) -> Map<Seq<char>, Seq<char>>
    decreases pairs.len(),
{
    if pairs.len() == 0 {
        Map::empty()
    } else {
        pairs_map(pairs.drop_last()).insert(pairs.last().0@, pairs.last().1@)
    }
}

impl View for Vars {
    type V = Map<Seq<char>, Seq<char>>;

    open spec fn view(&self) -> Map<Seq<char>, Seq<char>> {
        pairs_map(self.pairs@)
    }
}

proof fn lemma_pairs_dom(pairs: Seq<(String, String)>, name: Seq<char>)
    ensures
        pairs_map(pairs).dom().contains(name) <==> exists|i: int|
            0 <= i < pairs.len() && (#[trigger] pairs[i]).0@ == name,
    decreases pairs.len(),
{
    if pairs.len() > 0 {
        lemma_pairs_dom(pairs.drop_last(), name);
        let before = pairs.drop_last();
        if pairs_map(pairs).dom().contains(name) {
            if pairs.last().0@ == name {
                assert(pairs[pairs.len() - 1].0@ == name);
            } else {
                let i = choose|i: int| 0 <= i < before.len() && (#[trigger] before[i]).0@ == name;
                assert(pairs[i].0@ == name);
            }
        }
        if exists|i: int| 0 <= i < pairs.len() && (#[trigger] pairs[i]).0@ == name {
            let i = choose|i: int| 0 <= i < pairs.len() && (#[trigger] pairs[i]).0@ == name;
            if i < before.len() {
                assert(before[i].0@ == name);
            }
        }
    }
}

proof fn lemma_pairs_value(pairs: Seq<(String, String)>, i: int)
    requires
        0 <= i < pairs.len(),
        forall|j: int| i < j < pairs.len() ==> (#[trigger] pairs[j]).0@ != pairs[i].0@,
    ensures
        pairs_map(pairs).dom().contains(pairs[i].0@),
        pairs_map(pairs)[pairs[i].0@] == pairs[i].1@,
    decreases pairs.len(),
{
    if i < pairs.len() - 1 {
        let before = pairs.drop_last();
        assert forall|j: int| i < j < before.len() implies (#[trigger] before[j]).0@
            != before[i].0@ by {
            assert(before[j] == pairs[j]);
        }
        lemma_pairs_value(before, i);
        assert(pairs[pairs.len() - 1].0@ != pairs[i].0@);
    }
}

impl Vars {
    /// No name occurs twice.
    pub open spec fn wf(&self) -> bool {
        forall|i: int, j: int|
            0 <= i < j < self.pairs@.len() ==> self.pairs@[i].0@ != self.pairs@[j].0@
    }

    /// No variables.
    pub fn new() -> (r: Vars)
        ensures
            r@ == Map::<Seq<char>, Seq<char>>::empty(),
            r.wf(),
    {
        Vars { pairs: Vec::new() }
    }

    fn index_of(&self, name: &String) -> (r: Option<usize>)
        requires
            self.wf(),
        ensures
            match r {
                Some(i) => i < self.pairs@.len() && self.pairs@[i as int].0@ == name@
                    && self@.dom().contains(name@) && self@[name@] == self.pairs@[i as int].1@,
                None => !self@.dom().contains(name@) && forall|i: int|
                    0 <= i < self.pairs@.len() ==> (#[trigger] self.pairs@[i]).0@ != name@,
            },
    {
        let mut i: usize = 0;
        while i < self.pairs.len()
            invariant
                i <= self.pairs.len(),
                self.wf(),
                forall|j: int| 0 <= j < i ==> (#[trigger] self.pairs@[j]).0@ != name@,
            decreases self.pairs.len() - i,
        {
            if self.pairs[i].0 == *name {
                proof {
                    assert forall|j: int| i < j < self.pairs@.len() implies (
                    #[trigger] self.pairs@[j]).0@ != self.pairs@[i as int].0@ by {
                        assert(self.pairs@[i as int].0@ != self.pairs@[j].0@);
                    }
                    lemma_pairs_value(self.pairs@, i as int);
                }
                return Some(i);
            }
            i = i + 1;
        }
        proof {
            lemma_pairs_dom(self.pairs@, name@);
        }
        None
    }

    /// The value of a name.
    pub fn get(&self, name: &String) -> (r: Option<String>)
        requires
            self.wf(),
        ensures
            match r {
                Some(v) => self@.dom().contains(name@) && self@[name@] == v@,
                None => !self@.dom().contains(name@),
            },
    {
        match self.index_of(name) {
            Some(i) => Some(self.pairs[i].1.clone()),
            None => None,
        }
    }

    /// Gives a name a value, in place of any that it had.
    pub fn insert(&mut self, name: String, value: String)
        requires
            old(self).wf(),
        ensures
            final(self)@ == old(self)@.insert(name@, value@),
            final(self).wf(),
    {
        let ghost before = self.pairs@;
        let ghost n = name@;
        let ghost v = value@;
        if let Some(i) = self.index_of(&name) {
            let gone = self.pairs.remove(i);
            proof {
                lemma_remove(before, i as int);
                assert forall|a: int, b: int| 0 <= a < b < self.pairs@.len() implies self.pairs@[a].0@
                    != self.pairs@[b].0@ by {
                    let a2 = if a < i {
                        a
                    } else {
                        a + 1
                    };
                    let b2 = if b < i {
                        b
                    } else {
                        b + 1
                    };
                    assert(before[a2].0@ != before[b2].0@);
                }
                assert forall|a: int| 0 <= a < self.pairs@.len() implies (
                #[trigger] self.pairs@[a]).0@ != n by {
                    let a2 = if a < i {
                        a
                    } else {
                        a + 1
                    };
                    assert(self.pairs@[a] == before[a2]);
                    if a2 < i {
                        assert(before[a2].0@ != before[i as int].0@);
                    } else {
                        assert(before[i as int].0@ != before[a2].0@);
                    }
                }
                assert(pairs_map(self.pairs@).insert(n, v) =~= pairs_map(before).insert(n, v));
            }
        }
        let ghost mid = self.pairs@;
        self.pairs.push((name, value));
        assert(self.pairs@.drop_last() =~= mid);
    }

    /// Takes over the values of `other`, in place of any of the same names.
    pub fn extend(&mut self, other: &Vars)
        requires
            old(self).wf(),
        ensures
            final(self)@ == old(self)@.union_prefer_right(other@),
            final(self).wf(),
    {
        let ghost before = self@;
        let ghost all = other.pairs@;
        let mut i: usize = 0;
        assert(all.take(0) =~= Seq::empty());
        assert(before.union_prefer_right(Map::empty()) =~= before);
        while i < other.pairs.len()
            invariant
                i <= other.pairs.len(),
                all == other.pairs@,
                self.wf(),
                self@ == before.union_prefer_right(pairs_map(all.take(i as int))),
            decreases other.pairs.len() - i,
        {
            let name = other.pairs[i].0.clone();
            let value = other.pairs[i].1.clone();
            proof {
                let m = pairs_map(all.take(i as int));
                assert(all.take(i + 1).drop_last() =~= all.take(i as int));
                assert(pairs_map(all.take(i + 1)) == m.insert(name@, value@));
                assert(before.union_prefer_right(m.insert(name@, value@))
                    =~= before.union_prefer_right(m).insert(name@, value@));
            }
            self.insert(name, value);
            i = i + 1;
        }
        assert(all.take(all.len() as int) =~= all);
    }

    /// Whether there are no variables.
    pub fn is_empty(&self) -> (r: bool)
        ensures
            r == (self@ == Map::<Seq<char>, Seq<char>>::empty()),
    {
        proof {
            if self.pairs@.len() > 0 {
                assert(self@.dom().contains(self.pairs@.last().0@));
            }
        }
        self.pairs.len() == 0
    }

    /// Drops all variables.
    pub fn clear(&mut self)
        ensures
            final(self)@ == Map::<Seq<char>, Seq<char>>::empty(),
            final(self).wf(),
    {
        self.pairs.clear();
    }

    /// A copy of `self`.
    pub fn copy(&self) -> (r: Vars)
        ensures
            r@ == self@,
            self.wf() ==> r.wf(),
    {
        let mut out: Vec<(String, String)> = Vec::new();
        let mut i: usize = 0;
        while i < self.pairs.len()
            invariant
                i <= self.pairs.len(),
                out@ == self.pairs@.take(i as int),
            decreases self.pairs.len() - i,
        {
            let p = (self.pairs[i].0.clone(), self.pairs[i].1.clone());
            assert(p == self.pairs@[i as int]);
            out.push(p);
            assert(self.pairs@.take(i + 1) =~= self.pairs@.take(i as int).push(
                self.pairs@[i as int],
            ));
            i = i + 1;
        }
        assert(self.pairs@.take(self.pairs@.len() as int) =~= self.pairs@);
        Vars { pairs: out }
    }
}

proof fn lemma_remove(pairs: Seq<(String, String)>, i: int)
    requires
        0 <= i < pairs.len(),
        forall|a: int, b: int| 0 <= a < b < pairs.len() ==> pairs[a].0@ != pairs[b].0@,
    ensures
        pairs_map(pairs.remove(i)) == pairs_map(pairs).remove(pairs[i].0@),
    decreases pairs.len(),
{
    let before = pairs.drop_last();
    if i == pairs.len() - 1 {
        assert(pairs.remove(i) =~= before);
        lemma_pairs_dom(before, pairs[i].0@);
        assert(!pairs_map(before).dom().contains(pairs[i].0@)) by {
            if exists|j: int| 0 <= j < before.len() && (#[trigger] before[j]).0@ == pairs[i].0@ {
                let j = choose|j: int|
                    0 <= j < before.len() && (#[trigger] before[j]).0@ == pairs[i].0@;
                assert(pairs[j].0@ != pairs[i].0@);
            }
        }
        assert(pairs_map(before) =~= pairs_map(pairs).remove(pairs[i].0@));
    } else {
        assert forall|a: int, b: int| 0 <= a < b < before.len() implies before[a].0@
            != before[b].0@ by {
            assert(pairs[a].0@ != pairs[b].0@);
        }
        lemma_remove(before, i);
        assert(pairs.remove(i).drop_last() =~= before.remove(i));
        assert(pairs.remove(i).last() == pairs.last());
        assert(pairs[i].0@ != pairs[pairs.len() - 1].0@);
        assert(pairs_map(pairs.remove(i)) =~= pairs_map(pairs).remove(pairs[i].0@));
    }
}

/// The captured values of each workspace, kept for the session and nowhere else.
#[derive(Debug)]
pub struct Sessions {
    /// The workspaces by their canonical root, and what was captured in each.
    pub list: Vec<(String, Vars)>,
}

/// The place of the first entry of a workspace, or how many there are.
pub open spec fn session_at(list: Seq<(String, Vars)>, key: Seq<char>) -> int
    decreases list.len(),
{
    if list.len() == 0 || list[0].0@ == key {
        0
    } else {
        1 + session_at(list.skip(1), key)
    }
}

/// What was captured in a workspace.
pub open spec fn session_of(list: Seq<(String, Vars)>, key: Seq<char>) -> Map<
    Seq<char>,
    Seq<char>,
> {
    let i = session_at(list, key);
    if i < list.len() {
        list[i].1@
    } else {
        Map::empty()
    }
}

proof fn lemma_session_at(list: Seq<(String, Vars)>, key: Seq<char>)
    ensures
        0 <= session_at(list, key) <= list.len(),
        session_at(list, key) < list.len() ==> list[session_at(list, key)].0@ == key,
        forall|i: int| 0 <= i < session_at(list, key) ==> (#[trigger] list[i]).0@ != key,
    decreases list.len(),
{
    if list.len() > 0 && list[0].0@ != key {
        lemma_session_at(list.skip(1), key);
        assert forall|i: int| 0 <= i < session_at(list, key) implies (#[trigger] list[i]).0@
            != key by {
            if i > 0 {
                assert(list[i] == list.skip(1)[i - 1]);
            }
        }
    }
}

proof fn lemma_session_is(list: Seq<(String, Vars)>, key: Seq<char>, n: int)
    requires
        0 <= n <= list.len(),
        n < list.len() ==> list[n].0@ == key,
        forall|i: int| 0 <= i < n ==> (#[trigger] list[i]).0@ != key,
    ensures
        session_at(list, key) == n,
    decreases list.len(),
{
    lemma_session_at(list, key);
    let m = session_at(list, key);
    if m < n {
        assert(list[m].0@ != key);
    } else if n < m {
        assert(list[n].0@ != key);
    }
}

impl Sessions {
    /// The values are well formed.
    pub open spec fn wf(&self) -> bool {
        forall|i: int| 0 <= i < self.list@.len() ==> (#[trigger] self.list@[i]).1.wf()
    }

    /// Nothing was captured.
    pub fn new() -> (r: Sessions)
        ensures
            r.list@.len() == 0,
            r.wf(),
    {
        Sessions { list: Vec::new() }
    }

    fn index_of(&self, key: &String) -> (r: usize)
        ensures
            r == session_at(self.list@, key@),
            r <= self.list@.len(),
    {
        let mut i: usize = 0;
        while i < self.list.len() && self.list[i].0 != *key
            invariant
                i <= self.list.len(),
                forall|j: int| 0 <= j < i ==> (#[trigger] self.list@[j]).0@ != key@,
            decreases self.list.len() - i,
        {
            i = i + 1;
        }
        proof {
            lemma_session_is(self.list@, key@, i as int);
        }
        i
    }

    /// What was captured in a workspace.
    pub fn get(&self, key: &String) -> (r: Vars)
        requires
            self.wf(),
        ensures
            r@ == session_of(self.list@, key@),
            r.wf(),
    {
        let i = self.index_of(key);
        if i < self.list.len() {
            self.list[i].1.copy()
        } else {
            Vars::new()
        }
    }

    /// Keeps a captured value, in place of any of the same name in that workspace.
    /// The other workspaces are as they were.
    pub fn write(&mut self, key: &String, name: String, value: String)
        requires
            old(self).wf(),
        ensures
            session_of(final(self).list@, key@) == session_of(old(self).list@, key@).insert(
                name@,
                value@,
            ),
            forall|k: Seq<char>|
                k != key@ ==> #[trigger] session_of(final(self).list@, k) == session_of(
                    old(self).list@,
                    k,
                ),
            final(self).wf(),
    {
        let ghost before = self.list@;
        let i = self.index_of(key);
        proof {
            lemma_session_at(before, key@);
        }
        if i >= self.list.len() {
            self.list.push((key.clone(), Vars::new()));
        }
        let ghost mid = self.list@;
        proof {
            assert forall|k: Seq<char>| k != key@ implies #[trigger] session_of(mid, k)
                == session_of(before, k) by {
                lemma_session_at(before, k);
                let n = session_at(before, k);
                if n < before.len() {
                    lemma_session_is(mid, k, n);
                } else {
                    lemma_session_is(mid, k, mid.len() as int);
                }
            }
            lemma_session_is(mid, key@, i as int);
        }
        self.list[i].1.insert(name, value);
        proof {
            let after = self.list@;
            assert forall|k: Seq<char>| k != key@ implies #[trigger] session_of(after, k)
                == session_of(before, k) by {
                assert(session_of(mid, k) == session_of(before, k));
                lemma_session_at(mid, k);
                lemma_session_is(after, k, session_at(mid, k));
            }
            lemma_session_is(after, key@, i as int);
        }
    }

    /// Drops what was captured in a workspace. Returns whether there was anything.
    /// The other workspaces are as they were.
    pub fn clear(&mut self, key: &String) -> (cleared: bool)
        requires
            old(self).wf(),
        ensures
            cleared == (session_of(old(self).list@, key@) != Map::<Seq<char>, Seq<char>>::empty()),
            session_of(final(self).list@, key@) == Map::<Seq<char>, Seq<char>>::empty(),
            forall|k: Seq<char>|
                k != key@ ==> #[trigger] session_of(final(self).list@, k) == session_of(
                    old(self).list@,
                    k,
                ),
            final(self).wf(),
    {
        let ghost before = self.list@;
        let i = self.index_of(key);
        if i >= self.list.len() {
            return false;
        }
        if self.list[i].1.is_empty() {
            return false;
        }
        proof {
            lemma_session_at(before, key@);
        }
        self.list[i].1.clear();
        proof {
            let after = self.list@;
            assert forall|k: Seq<char>| k != key@ implies #[trigger] session_of(after, k)
                == session_of(before, k) by {
                lemma_session_at(before, k);
                lemma_session_is(after, k, session_at(before, k));
            }
            lemma_session_is(after, key@, i as int);
        }
        true
    }
}

/// The scopes of a lookup, the first of which wins.
#[derive(Debug, Clone, Copy, PartialEq, Eq, Structural)]
pub enum ScopeKind {
    /// What was captured in this session.
    Session,
    /// What the command line gives.
    Cli,
    /// The active profile.
    Profile,
    /// The endpoint's collection.
    Collection,
    /// The workspace.
    Workspace,
}

/// One scope.
#[derive(Debug)]
pub struct Scope {
    /// Where its variables come from.
    pub kind: ScopeKind,
    /// Its variables.
    pub vars: Vars,
}

/// The variables of each scope, in the order of the lookup.
#[derive(Debug)]
pub struct Resolver {
    /// The scopes, the first of which wins.
    pub scopes: Vec<Scope>,
}

/// What a name stands for: its value in the first scope that has it.
pub open spec fn looked_up(scopes: Seq<Scope>, name: Seq<char>) -> Option<Seq<char>>
    decreases scopes.len(),
{
    if scopes.len() == 0 {
        None
    } else if scopes[0].vars@.dom().contains(name) {
        Some(scopes[0].vars@[name])
    } else {
        looked_up(scopes.skip(1), name)
    }
}

impl Resolver {
    /// The scopes' variables are well formed.
    pub open spec fn wf(&self) -> bool {
        forall|i: int| 0 <= i < self.scopes@.len() ==> (#[trigger] self.scopes@[i]).vars.wf()
    }

    /// What a name stands for.
    pub fn lookup(&self, name: &String) -> (r: Option<String>)
        requires
            self.wf(),
        ensures
            crate::model::content(r) == looked_up(self.scopes@, name@),
    {
        let mut i: usize = 0;
        assert(self.scopes@.skip(0) =~= self.scopes@);
        while i < self.scopes.len()
            invariant
                i <= self.scopes.len(),
                self.wf(),
                looked_up(self.scopes@, name@) == looked_up(self.scopes@.skip(i as int), name@),
            decreases self.scopes.len() - i,
        {
            assert(self.scopes@.skip(i as int).skip(1) =~= self.scopes@.skip(i + 1));
            assert(self.scopes@[i as int].vars.wf());
            if let Some(v) = self.scopes[i].vars.get(name) {
                return Some(v);
            }
            i = i + 1;
        }
        None
    }
}

/// The variables of the scopes of a send.
pub struct ScopesView {
    /// What was captured in this session.
    pub session: Map<Seq<char>, Seq<char>>,
    /// What the command line gives.
    pub cli: Map<Seq<char>, Seq<char>>,
    /// The active profile's.
    pub profile: Map<Seq<char>, Seq<char>>,
    /// The collection's.
    pub collection: Map<Seq<char>, Seq<char>>,
    /// The workspace's.
    pub workspace: Map<Seq<char>, Seq<char>>,
}

/// A resolver that looks in the session, the command line, the profile, the
/// collection and the workspace, in this order.
pub open spec fn resolves(r: Resolver, s: ScopesView) -> bool {
    &&& r.scopes@.len() == 5
    &&& r.scopes@[0].kind == ScopeKind::Session && r.scopes@[0].vars@ == s.session
    &&& r.scopes@[1].kind == ScopeKind::Cli && r.scopes@[1].vars@ == s.cli
    &&& r.scopes@[2].kind == ScopeKind::Profile && r.scopes@[2].vars@ == s.profile
    &&& r.scopes@[3].kind == ScopeKind::Collection && r.scopes@[3].vars@ == s.collection
    &&& r.scopes@[4].kind == ScopeKind::Workspace && r.scopes@[4].vars@ == s.workspace
}

/// A resolver over the scopes of a send, in the order of precedence.
pub fn build_resolver(
    session: &Vars,
    cli: &Vars,
    profile: &Vars,
    collection: &Vars,
    workspace: &Vars,
) -> (r: Resolver)
    requires
        session.wf(),
        cli.wf(),
        profile.wf(),
        collection.wf(),
        workspace.wf(),
    ensures
        resolves(
            r,
            ScopesView {
                session: session@,
                cli: cli@,
                profile: profile@,
                collection: collection@,
                workspace: workspace@,
            },
        ),
        r.wf(),
{
    let scopes = vec![
        Scope { kind: ScopeKind::Session, vars: session.copy() },
        Scope { kind: ScopeKind::Cli, vars: cli.copy() },
        Scope { kind: ScopeKind::Profile, vars: profile.copy() },
        Scope { kind: ScopeKind::Collection, vars: collection.copy() },
        Scope { kind: ScopeKind::Workspace, vars: workspace.copy() },
    ];
    Resolver { scopes }
}

/// A resolver that leaves out the collection, which only a request has.
pub open spec fn resolves_env(r: Resolver, s: ScopesView) -> bool {
    &&& r.scopes@.len() == 4
    &&& r.scopes@[0].kind == ScopeKind::Session && r.scopes@[0].vars@ == s.session
    &&& r.scopes@[1].kind == ScopeKind::Cli && r.scopes@[1].vars@ == s.cli
    &&& r.scopes@[2].kind == ScopeKind::Profile && r.scopes@[2].vars@ == s.profile
    &&& r.scopes@[3].kind == ScopeKind::Workspace && r.scopes@[3].vars@ == s.workspace
}

/// A resolver for the environments editor, which is not tied to a collection.
pub fn build_env_resolver(session: &Vars, cli: &Vars, profile: &Vars, workspace: &Vars) -> (r:
    Resolver)
    requires
        session.wf(),
        cli.wf(),
        profile.wf(),
        workspace.wf(),
    ensures
        resolves_env(
            r,
            ScopesView {
                session: session@,
                cli: cli@,
                profile: profile@,
                collection: Map::empty(),
                workspace: workspace@,
            },
        ),
        r.wf(),
{
    let scopes = vec![
        Scope { kind: ScopeKind::Session, vars: session.copy() },
        Scope { kind: ScopeKind::Cli, vars: cli.copy() },
        Scope { kind: ScopeKind::Profile, vars: profile.copy() },
        Scope { kind: ScopeKind::Workspace, vars: workspace.copy() },
    ];
    Resolver { scopes }
}

/// A captured value wins over every other scope, the command line over the
/// profile, the profile over the collection and the workspace, and the
/// workspace is the last resort.
pub proof fn law_scope_precedence(r: Resolver, s: ScopesView, name: Seq<char>)
    requires
        resolves(r, s),
    ensures
        s.session.dom().contains(name) ==> looked_up(r.scopes@, name) == Some(s.session[name]),
        !s.session.dom().contains(name) && s.cli.dom().contains(name) ==> looked_up(
            r.scopes@,
            name,
        ) == Some(s.cli[name]),
        !s.session.dom().contains(name) && !s.cli.dom().contains(name)
            && s.profile.dom().contains(name) ==> looked_up(r.scopes@, name) == Some(
            s.profile[name],
        ),
        !s.session.dom().contains(name) && !s.cli.dom().contains(name)
            && !s.profile.dom().contains(name) && s.collection.dom().contains(name) ==> looked_up(
            r.scopes@,
            name,
        ) == Some(s.collection[name]),
        !s.session.dom().contains(name) && !s.cli.dom().contains(name)
            && !s.profile.dom().contains(name) && !s.collection.dom().contains(name)
            && s.workspace.dom().contains(name) ==> looked_up(r.scopes@, name) == Some(
            s.workspace[name],
        ),
        looked_up(r.scopes@, name) is None ==> !s.session.dom().contains(name)
            && !s.cli.dom().contains(name) && !s.profile.dom().contains(name)
            && !s.collection.dom().contains(name) && !s.workspace.dom().contains(name),
{
    reveal_with_fuel(looked_up, 6);
    let q = r.scopes@;
    assert(q.skip(1)[0] == q[1] && q.skip(1).skip(1)[0] == q[2] && q.skip(1).skip(1).skip(1)[0]
        == q[3] && q.skip(1).skip(1).skip(1).skip(1)[0] == q[4]);
}

/// A list of pairs holds for each name the value of the last pair with it, and no other name.
pub proof fn law_last_pair_wins(
    pairs: Seq<(String, String)>,
    last: (String, String),
    name: Seq<char>,
)
    ensures
        pairs_map(pairs.push(last)).dom().contains(last.0@),
        pairs_map(pairs.push(last))[last.0@] == last.1@,
        name != last.0@ ==> (pairs_map(pairs.push(last)).dom().contains(name) <==> pairs_map(
            pairs,
        ).dom().contains(name)),
        name != last.0@ && pairs_map(pairs).dom().contains(name) ==> pairs_map(
            pairs.push(last),
        )[name] == pairs_map(pairs)[name],
        pairs_map(Seq::<(String, String)>::empty()).dom() =~= Set::<Seq<char>>::empty(),
{
    assert(pairs.push(last).drop_last() =~= pairs);
}

/// Each workspace has its own captured values: those of the first entry with its key, and none
/// where no entry has it.
pub proof fn law_sessions_are_told_apart_by_their_key(
    list: Seq<(String, Vars)>,
    key: Seq<char>,
    i: int,
)
    requires
        0 <= i <= list.len(),
        i < list.len() ==> list[i].0@ == key,
        forall|j: int| 0 <= j < i ==> (#[trigger] list[j]).0@ != key,
    ensures
        i < list.len() ==> session_of(list, key) == list[i].1@,
        i == list.len() ==> session_of(list, key) == Map::<Seq<char>, Seq<char>>::empty(),
{
    lemma_session_is(list, key, i);
}

/// Without a collection a captured value still wins over the command line, that over the
/// profile, and that over the workspace.
pub proof fn law_scope_precedence_without_a_collection(
    r: Resolver,
    s: ScopesView,
    name: Seq<char>,
)
    requires
        resolves_env(r, s),
    ensures
        s.session.dom().contains(name) ==> looked_up(r.scopes@, name) == Some(s.session[name]),
        !s.session.dom().contains(name) && s.cli.dom().contains(name) ==> looked_up(
            r.scopes@,
            name,
        ) == Some(s.cli[name]),
        !s.session.dom().contains(name) && !s.cli.dom().contains(name)
            && s.profile.dom().contains(name) ==> looked_up(r.scopes@, name) == Some(
            s.profile[name],
        ),
        !s.session.dom().contains(name) && !s.cli.dom().contains(name)
            && !s.profile.dom().contains(name) && s.workspace.dom().contains(name) ==> looked_up(
            r.scopes@,
            name,
        ) == Some(s.workspace[name]),
        !s.session.dom().contains(name) && !s.cli.dom().contains(name)
            && !s.profile.dom().contains(name) && !s.workspace.dom().contains(name) ==> looked_up(
            r.scopes@,
            name,
        ) is None,
{
    reveal_with_fuel(looked_up, 5);
    let q = r.scopes@;
    assert(q.skip(1)[0] == q[1] && q.skip(1).skip(1)[0] == q[2] && q.skip(1).skip(1).skip(1)[0]
        == q[3]);
}

} // verus!
