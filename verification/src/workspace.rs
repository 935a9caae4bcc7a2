//! The workspace: its variables and its profiles.

use vstd::prelude::*;
use vstd::string::*;

use crate::text::{join, joined, texts};
use crate::vars::Vars;

verus! {

/// A named set of variables.
#[derive(Debug)]
pub struct Profile {
    /// Its name.
    pub name: String,
    /// Its variables.
    pub vars: Vars,
}

/// What is read of an open workspace.
#[derive(Debug)]
pub struct Workspace {
    /// Its root directory.
    pub root: String,
    /// Its root directory without symbolic links, which tells it from others.
    pub key: String,
    /// Its name.
    pub name: String,
    /// Its variables.
    pub vars: Vars,
    /// Its profiles.
    pub profiles: Vec<Profile>,
}

/// Why a workspace could not be opened.
#[derive(Debug)]
pub enum OpenError {
    /// There is none at that place.
    NotFound,
    /// Another reason.
    Other(String),
}

/// The workspace at a place: that there is none is no error, and the application then
/// starts empty.
pub fn open_workspace(opened: Result<Workspace, OpenError>) -> (r: Result<
    Option<Workspace>,
    String,
>)
    ensures
        r == (match opened {
            Ok(ws) => Ok(Some(ws)),
            Err(OpenError::NotFound) => Ok(None),
            Err(OpenError::Other(err)) => Err(err),
        }),
{
    match opened {
        Ok(ws) => Ok(Some(ws)),
        Err(OpenError::NotFound) => Ok(None),
        Err(OpenError::Other(err)) => Err(err),
    }
}

/// The place of the first profile with a name, or how many there are.
pub open spec fn profile_at(list: Seq<Profile>, name: Seq<char>) -> int
    decreases list.len(),
{
    if list.len() == 0 || list[0].name@ == name {
        0
    } else {
        1 + profile_at(list.skip(1), name)
    }
}

/// The names of profiles.
pub open spec fn profile_names(list: Seq<Profile>) -> Seq<Seq<char>> {
    list.map_values(|p: Profile| p.name@)
}

/// A text in quotes, as Rust writes it in a program.
pub uninterp spec fn quoted_text(s: Seq<char>) -> Seq<char>;

/// Trusted: std's `Debug` of `str`, which puts a text in quotes and escapes what
/// cannot stand there as it is. What it escapes is not said here; the result
/// rests on the text alone.
#[verifier::external_body]
fn quoted(s: &str) -> (r: String)
    ensures
        r@ == quoted_text(s@),
{
    format!("{:?}", s)
}

/// What is said of a profile that a workspace does not have.
pub open spec fn unknown_profile(quoted: Seq<char>, available: Seq<Seq<char>>) -> Seq<char> {
    "unknown profile "@ + quoted + " (available: "@ + (if available.len() == 0 {
        "none"@
    } else {
        joined(available, ", "@)
    }) + ")"@
}

impl Workspace {
    /// All variables are well formed.
    pub open spec fn wf(&self) -> bool {
        &&& self.vars.wf()
        &&& forall|i: int| 0 <= i < self.profiles@.len() ==> (#[trigger] self.profiles@[i]).vars.wf()
    }

    /// The variables of a profile; none where there is no such profile.
    pub open spec fn profile_map(&self, name: Seq<char>) -> Map<Seq<char>, Seq<char>> {
        let i = profile_at(self.profiles@, name);
        if i < self.profiles@.len() {
            self.profiles@[i].vars@
        } else {
            Map::empty()
        }
    }

    /// The place of a profile.
    pub fn profile_index(&self, name: &String) -> (r: Option<usize>)
        ensures
            match r {
                Some(i) => i == profile_at(self.profiles@, name@) && i < self.profiles@.len(),
                None => profile_at(self.profiles@, name@) == self.profiles@.len(),
            },
    {
        let mut i: usize = 0;
        assert(self.profiles@.skip(0) =~= self.profiles@);
        while i < self.profiles.len()
            invariant
                i <= self.profiles.len(),
                profile_at(self.profiles@, name@) == i + profile_at(
                    self.profiles@.skip(i as int),
                    name@,
                ),
            decreases self.profiles.len() - i,
        {
            assert(self.profiles@.skip(i as int).skip(1) =~= self.profiles@.skip(i + 1));
            if self.profiles[i].name == *name {
                return Some(i);
            }
            i = i + 1;
        }
        None
    }

    /// The variables of a profile; none where there is no such profile.
    pub fn profile_vars(&self, name: &String) -> (r: Vars)
        requires
            self.wf(),
        ensures
            r@ == self.profile_map(name@),
            r.wf(),
    {
        match self.profile_index(name) {
            Some(i) => self.profiles[i].vars.copy(),
            None => Vars::new(),
        }
    }

    /// The names of the profiles.
    pub fn names(&self) -> (r: Vec<String>)
        ensures
            texts(r@) == profile_names(self.profiles@),
            r@.len() == self.profiles@.len(),
            forall|i: int| 0 <= i < r@.len() ==> r@[i] == self.profiles@[i].name,
    {
        let mut out: Vec<String> = Vec::new();
        let mut i: usize = 0;
        while i < self.profiles.len()
            invariant
                i <= self.profiles.len(),
                out@.len() == i,
                forall|j: int| 0 <= j < i ==> out@[j] == self.profiles@[j].name,
            decreases self.profiles.len() - i,
        {
            out.push(self.profiles[i].name.clone());
            i = i + 1;
        }
        assert(texts(out@) =~= profile_names(self.profiles@));
        out
    }
}

/// The names of the profiles that there are.
pub open spec fn available(workspace: Option<Workspace>) -> Seq<Seq<char>> {
    match workspace {
        Some(ws) => profile_names(ws.profiles@),
        None => Seq::empty(),
    }
}

/// Whether there is a profile with a name.
pub open spec fn has_profile(workspace: Option<Workspace>, name: Seq<char>) -> bool {
    workspace matches Some(ws) && profile_at(ws.profiles@, name) < ws.profiles@.len()
}

/// Takes a profile by its name. A name that there is no profile of is an error
/// that lists the profiles that there are.
pub fn check_profile(workspace: &Option<Workspace>, profile: &Option<String>) -> (r: Result<
    (),
    String,
>)
    ensures
        match r {
            Ok(_) => *profile matches Some(name) ==> has_profile(*workspace, name@),
            Err(msg) => *profile matches Some(name) && !has_profile(*workspace, name@) && msg@
                == unknown_profile(quoted_text(name@), available(*workspace)),
        },
{
    let name = match profile {
        Some(name) => name,
        None => {
            return Ok(());
        },
    };
    let found = match workspace {
        Some(ws) => ws.profile_index(name).is_some(),
        None => false,
    };
    if found {
        return Ok(());
    }
    let q = quoted(name.as_str());
    Err(unknown_profile_message(q.as_str(), workspace))
}

/// What is said of a profile that a workspace does not have, given its name in
/// quotes.
pub fn unknown_profile_message(quoted: &str, workspace: &Option<Workspace>) -> (r: String)
    ensures
        r@ == unknown_profile(quoted@, available(*workspace)),
{
    let names: Vec<String> = match workspace {
        Some(ws) => ws.names(),
        None => Vec::new(),
    };
    assert(texts(names@) =~= available(*workspace));
    let mut out = String::new();
    out.append("unknown profile ");
    out.append(quoted);
    out.append(" (available: ");
    if names.len() == 0 {
        out.append("none");
    } else {
        let list = join(&names, ", ");
        out.append(list.as_str());
    }
    out.append(")");
    assert(out@ =~= unknown_profile(quoted@, available(*workspace)));
    out
}

/// Whether a profile is the active one.
pub open spec fn is_active(active: Option<String>, name: Seq<char>) -> bool {
    active matches Some(a) && a@ == name
}

/// The labels of the profile picker: no profile first, then the profiles, the
/// active one with a dot before it.
pub open spec fn profile_labels(profiles: Seq<Profile>, active: Option<String>) -> Seq<Seq<char>> {
    Seq::new(
        (profiles.len() + 1) as nat,
        |i: int|
            if i == 0 {
                if active is None {
                    "● (none)"@
                } else {
                    "(none)"@
                }
            } else if is_active(active, profiles[i - 1].name@) {
                "● "@ + profiles[i - 1].name@
            } else {
                profiles[i - 1].name@
            },
    )
}

/// The profiles behind the labels of the profile picker.
pub open spec fn profile_choices(profiles: Seq<Profile>) -> Seq<Option<String>> {
    Seq::new(
        (profiles.len() + 1) as nat,
        |i: int|
            if i == 0 {
                None
            } else {
                Some(profiles[i - 1].name)
            },
    )
}

/// The profiles of a workspace that may not be open.
pub open spec fn profiles_of(workspace: Option<Workspace>) -> Seq<Profile> {
    match workspace {
        Some(ws) => ws.profiles@,
        None => Seq::empty(),
    }
}

/// The labels of the profile picker, and the profiles behind them.
pub fn profile_items(workspace: &Option<Workspace>, active: &Option<String>) -> (r: (
    Vec<String>,
    Vec<Option<String>>,
))
    ensures
        texts(r.0@) == profile_labels(profiles_of(*workspace), *active),
        r.1@ == profile_choices(profiles_of(*workspace)),
{
    let ghost profiles = profiles_of(*workspace);
    let mut labels: Vec<String> = Vec::new();
    let mut choices: Vec<Option<String>> = Vec::new();
    labels.push(
        if active.is_none() {
            "● (none)".to_owned()
        } else {
            "(none)".to_owned()
        },
    );
    choices.push(None);
    if let Some(ws) = workspace {
        let mut i: usize = 0;
        while i < ws.profiles.len()
            invariant
                i <= ws.profiles.len(),
                profiles == ws.profiles@,
                labels@.len() == i + 1,
                choices@.len() == i + 1,
                forall|j: int|
                    0 <= j < i + 1 ==> (#[trigger] labels@[j])@ == profile_labels(
                        profiles,
                        *active,
                    )[j],
                forall|j: int|
                    0 <= j < i + 1 ==> #[trigger] choices@[j] == profile_choices(profiles)[j],
            decreases ws.profiles.len() - i,
        {
            let name = &ws.profiles[i].name;
            let marked = match active {
                Some(a) => *a == *name,
                None => false,
            };
            let mut label = String::new();
            if marked {
                label.append("● ");
            }
            label.append(name.as_str());
            assert(label@ =~= profile_labels(profiles, *active)[i + 1]);
            labels.push(label);
            choices.push(Some(name.clone()));
            i = i + 1;
        }
    }
    assert(texts(labels@) =~= profile_labels(profiles, *active));
    assert(choices@ =~= profile_choices(profiles));
    (labels, choices)
}

/// Behind each label of the profile picker stands the profile that it names, and
/// at most one label is marked where the names differ.
pub proof fn law_profile_labels_match_choices(
    profiles: Seq<Profile>,
    active: Option<String>,
    i: int,
)
    requires
        0 < i <= profiles.len(),
    ensures
        profile_choices(profiles)[i] == Some(profiles[i - 1].name),
        profile_labels(profiles, active)[i] == profiles[i - 1].name@ || profile_labels(
            profiles,
            active,
        )[i] == "● "@ + profiles[i - 1].name@,
        profile_labels(profiles, active).len() == profile_choices(profiles).len(),
{
}

/// The variables of a profile are those of the first profile with its name; there are none of a
/// name that no profile has.
pub proof fn law_profile_is_found_by_its_name(ws: Workspace, name: Seq<char>, i: int)
    requires
        0 <= i <= ws.profiles@.len(),
        i < ws.profiles@.len() ==> ws.profiles@[i].name@ == name,
        forall|j: int| 0 <= j < i ==> (#[trigger] ws.profiles@[j]).name@ != name,
    ensures
        i < ws.profiles@.len() ==> ws.profile_map(name) == ws.profiles@[i].vars@,
        i == ws.profiles@.len() ==> ws.profile_map(name) == Map::<Seq<char>, Seq<char>>::empty(),
        has_profile(Some(ws), name) <==> i < ws.profiles@.len(),
        !has_profile(None, name),
{
    lemma_profile_is(ws.profiles@, name, i);
}

proof fn lemma_profile_is(list: Seq<Profile>, name: Seq<char>, i: int)
    requires
        0 <= i <= list.len(),
        i < list.len() ==> list[i].name@ == name,
        forall|j: int| 0 <= j < i ==> (#[trigger] list[j]).name@ != name,
    ensures
        profile_at(list, name) == i,
    decreases i,
{
    if i > 0 {
        assert(list[0].name@ != name);
        assert forall|j: int| 0 <= j < i - 1 implies (#[trigger] list.skip(1)[j]).name@ != name by {
            assert(list.skip(1)[j] == list[j + 1]);
        }
        lemma_profile_is(list.skip(1), name, i - 1);
    }
}

/// The active profile, or no profile, has the dot before it, and no other has.
pub proof fn law_dot_is_before_the_active_profile(
    profiles: Seq<Profile>,
    active: Option<String>,
    i: int,
)
    requires
        0 <= i < profiles.len(),
    ensures
        active is None ==> profile_labels(profiles, active)[0] == "● (none)"@,
        active is Some ==> profile_labels(profiles, active)[0] == "(none)"@,
        active matches Some(a) ==> a@ == profiles[i].name@ ==> profile_labels(profiles, active)[i
            + 1] == "● "@ + profiles[i].name@,
        active matches Some(a) ==> a@ != profiles[i].name@ ==> profile_labels(profiles, active)[i
            + 1] == profiles[i].name@,
        active is None ==> profile_labels(profiles, active)[i + 1] == profiles[i].name@,
        profile_choices(profiles)[0] is None,
        profile_choices(profiles)[i + 1] == Some(profiles[i].name),
{
}

/// A profile that a workspace does not have is told with the ones that it has, or with none.
pub proof fn law_unknown_profile_lists_the_others(quoted: Seq<char>, a: Seq<char>, b: Seq<char>)
    ensures
        unknown_profile(quoted, Seq::<Seq<char>>::empty()) == "unknown profile "@ + quoted
            + " (available: "@ + "none"@ + ")"@,
        unknown_profile(quoted, seq![a]) == "unknown profile "@ + quoted + " (available: "@ + a
            + ")"@,
        unknown_profile(quoted, seq![a, b]) == "unknown profile "@ + quoted + " (available: "@ + (a
            + ", "@ + b) + ")"@,
{
    assert(seq![a, b].drop_last() =~= seq![a]);
    reveal_with_fuel(joined, 3);
}

} // verus!
