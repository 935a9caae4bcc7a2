//! The lists to pick from, the jump labels and the help in the application.

use vstd::prelude::*;

use crate::app::{App, DiskWork, Effect, PendingLoad};
use crate::explorer::Explorer;
use crate::jump::{Jump, JumpTarget};
use crate::keymap::Action;
use crate::keys::{Key, KeyEvent};
use crate::mode::Mode;
use crate::notice::Notice;
use crate::pane::Pane;
use crate::paths::{home_dir, parsed, path_below_home, path_within, shown_path, within};
use crate::picker::{picker_key, spec_picker_key, Choices, DestPurpose, Picker, PickerKey};
use crate::settings::text_of;
use crate::text::texts;
use crate::workspace::{profile_choices, profile_items, profile_labels, profiles_of};

verus! {

/// The labels of actions.
pub open spec fn action_labels(actions: Seq<Action>) -> Seq<Seq<char>> {
    actions.map_values(|a: Action| a.spec_label())
}

/// The files of the sequences.
pub open spec fn sequence_files(list: Seq<crate::explorer::SequenceItem>) -> Seq<String> {
    list.map_values(|s: crate::explorer::SequenceItem| s.file)
}

/// The names of the sequences.
pub open spec fn sequence_names(list: Seq<crate::explorer::SequenceItem>) -> Seq<Seq<char>> {
    list.map_values(|s: crate::explorer::SequenceItem| s.name@)
}

/// A collection among all of them, each behind the one that it is in.
#[derive(Debug)]
pub struct TreeDir {
    /// Its name.
    pub name: String,
    /// Its directory.
    pub path: String,
    /// The place of the collection that it is in, where it is in one.
    pub parent: Option<usize>,
}

/// The label of a collection: the names on the way to it.
pub open spec fn dir_label(dirs: Seq<TreeDir>, i: int) -> Seq<char>
    decreases i,
{
    if 0 <= i < dirs.len() {
        match dirs[i].parent {
            Some(p) if p < i => dir_label(dirs, p as int) + " / "@ + dirs[i].name@,
            _ => dirs[i].name@,
        }
    } else {
        Seq::empty()
    }
}

/// The labels of the directories to pick from: the root first.
pub open spec fn dest_labels(dirs: Seq<TreeDir>) -> Seq<Seq<char>> {
    Seq::new(
        (dirs.len() + 1) as nat,
        |i: int|
            if i == 0 {
                "(root)"@
            } else {
                dir_label(dirs, i - 1)
            },
    )
}

/// The directories to pick from: the root first.
pub open spec fn dest_dirs(root: Seq<char>, dirs: Seq<TreeDir>) -> Seq<Seq<char>> {
    Seq::new(
        (dirs.len() + 1) as nat,
        |i: int|
            if i == 0 {
                root
            } else {
                dirs[i - 1].path@
            },
    )
}

/// The directories to pick from, with their labels: the root first, then every
/// collection, with the names on the way to it.
pub fn collection_destinations(root: &str, dirs: &Vec<TreeDir>) -> (r: (Vec<String>, Vec<String>))
    ensures
        texts(r.0@) == dest_labels(dirs@),
        texts(r.1@) == dest_dirs(root@, dirs@),
{
    let mut labels: Vec<String> = Vec::new();
    let mut paths: Vec<String> = Vec::new();
    labels.push("(root)".to_owned());
    paths.push(root.to_owned());
    let mut i: usize = 0;
    while i < dirs.len()
        invariant
            i <= dirs.len(),
            labels@.len() == i + 1,
            paths@.len() == i + 1,
            forall|j: int| 0 <= j < i + 1 ==> (#[trigger] labels@[j])@ == dest_labels(dirs@)[j],
            forall|j: int| 0 <= j < i + 1 ==> (#[trigger] paths@[j])@ == dest_dirs(root@, dirs@)[j],
        decreases dirs.len() - i,
    {
        let label = match dirs[i].parent {
            Some(p) => if p < i {
                let above = crate::text::join2(labels[p + 1].as_str(), " / ");
                crate::text::join2(above.as_str(), dirs[i].name.as_str())
            } else {
                dirs[i].name.clone()
            },
            None => dirs[i].name.clone(),
        };
        proof {
            if let Some(p) = dirs@[i as int].parent {
                if p < i {
                    assert(labels@[p + 1]@ == dest_labels(dirs@)[p + 1]);
                }
            }
            assert(label@ == dir_label(dirs@, i as int));
        }
        labels.push(label);
        paths.push(dirs[i].path.clone());
        i = i + 1;
    }
    assert(texts(labels@) =~= dest_labels(dirs@));
    assert(texts(paths@) =~= dest_dirs(root@, dirs@));
    (labels, paths)
}

/// Whether a directory can be picked: it is not what moves or is copied, nor in it.
pub open spec fn may_hold(dir: Seq<char>, source: Option<Seq<char>>) -> bool {
    source matches Some(s) ==> !within(parsed(dir), parsed(s))
}

/// The items of a list whose directories can be picked.
pub open spec fn pickable<T>(items: Seq<T>, dirs: Seq<Seq<char>>, source: Option<Seq<char>>) -> Seq<
    T,
>
    decreases items.len(),
{
    if items.len() == 0 || dirs.len() == 0 {
        Seq::empty()
    } else {
        let before = pickable(items.drop_last(), dirs.drop_last(), source);
        if may_hold(dirs.last(), source) {
            before.push(items.last())
        } else {
            before
        }
    }
}

fn keep_pickable(labels: Vec<String>, dirs: Vec<String>, source: &Option<String>) -> (r: (
    Vec<String>,
    Vec<String>,
))
    requires
        labels@.len() == dirs@.len(),
    ensures
        texts(r.0@) == pickable(texts(labels@), texts(dirs@), text_of(*source)),
        texts(r.1@) == pickable(texts(dirs@), texts(dirs@), text_of(*source)),
{
    let ghost ls = texts(labels@);
    let ghost ds = texts(dirs@);
    let mut out_labels: Vec<String> = Vec::new();
    let mut out_dirs: Vec<String> = Vec::new();
    let mut i: usize = 0;
    assert(ls.take(0) =~= Seq::empty());
    assert(ds.take(0) =~= Seq::empty());
    assert(texts(out_labels@) =~= Seq::<Seq<char>>::empty());
    assert(texts(out_dirs@) =~= Seq::<Seq<char>>::empty());
    while i < dirs.len()
        invariant
            i <= dirs.len(),
            labels@.len() == dirs@.len(),
            ls == texts(labels@),
            ds == texts(dirs@),
            texts(out_labels@) == pickable(ls.take(i as int), ds.take(i as int), text_of(*source)),
            texts(out_dirs@) == pickable(ds.take(i as int), ds.take(i as int), text_of(*source)),
        decreases dirs.len() - i,
    {
        let fits = match source {
            Some(s) => !path_within(dirs[i].as_str(), s.as_str()),
            None => true,
        };
        let ghost l0 = out_labels@;
        let ghost d0 = out_dirs@;
        proof {
            assert(ls.take(i + 1).drop_last() =~= ls.take(i as int));
            assert(ds.take(i + 1).drop_last() =~= ds.take(i as int));
            assert(ds.take(i + 1).last() == dirs@[i as int]@);
            assert(ls.take(i + 1).last() == labels@[i as int]@);
        }
        if fits {
            out_labels.push(labels[i].clone());
            out_dirs.push(dirs[i].clone());
            assert(texts(out_labels@) =~= texts(l0).push(labels@[i as int]@));
            assert(texts(out_dirs@) =~= texts(d0).push(dirs@[i as int]@));
        }
        i = i + 1;
    }
    assert(ls.take(ls.len() as int) =~= ls);
    assert(ds.take(ds.len() as int) =~= ds);
    (out_labels, out_dirs)
}

impl App {
    /// The state with a list open.
    pub open spec fn picking(self, after: App, items: Seq<Seq<char>>, mode: Mode) -> bool {
        &&& after.picker matches Some(p) && p.opened(items)
        &&& after == (App { picker: after.picker, mode, ..self })
    }

    /// Takes in the endpoints that can be searched, and shows them.
    pub fn search_listed(&mut self, labels: Vec<String>, files: Vec<String>, explorer: Explorer)
        requires
            old(self).wf(),
            explorer.wf(),
        ensures
            exists|mid: App|
                {
                    &&& #[trigger] old(self).picking(mid, texts(labels@), Mode::Search)
                    &&& mid.picker->0.choices == Choices::Endpoints(files)
                    &&& mid.tree_shown(*final(self), explorer)
                },
            final(self).wf(),
    {
        self.picker = Some(Picker::new(labels, Choices::Endpoints(files)));
        self.mode = Mode::Search;
        let ghost mid = *self;
        assert(old(self).picking(mid, texts(labels@), Mode::Search));
        self.tree_changed(explorer);
    }

    /// What opening the command palette does.
    pub open spec fn opens_palette(self, after: App, actions: Vec<Action>) -> bool {
        &&& self.picking(after, action_labels(actions@), Mode::Palette)
        &&& after.picker->0.choices == Choices::Actions(actions)
    }

    /// Opens the command palette over actions.
    pub fn open_palette(&mut self, actions: Vec<Action>)
        requires
            old(self).wf(),
        ensures
            old(self).opens_palette(*final(self), actions),
            final(self).wf(),
    {
        let mut labels: Vec<String> = Vec::new();
        let mut i: usize = 0;
        while i < actions.len()
            invariant
                i <= actions.len(),
                labels@.len() == i,
                forall|j: int| 0 <= j < i ==> (#[trigger] labels@[j])@ == actions@[j].spec_label(),
            decreases actions.len() - i,
        {
            labels.push(actions[i].label().to_owned());
            i = i + 1;
        }
        assert(texts(labels@) =~= action_labels(actions@));
        self.picker = Some(Picker::new(labels, Choices::Actions(actions)));
        self.mode = Mode::Palette;
    }

    /// What opening the profile picker does.
    pub open spec fn opens_profiles(self, after: App) -> bool {
        &&& self.picking(
            after,
            profile_labels(profiles_of(self.workspace), self.active_profile),
            Mode::Palette,
        )
        &&& after.picker->0.choices matches Choices::Profiles(c) && c@ == profile_choices(
            profiles_of(self.workspace),
        )
    }

    /// Opens the profile picker.
    pub fn open_profile_picker(&mut self)
        requires
            old(self).wf(),
        ensures
            old(self).opens_profiles(*final(self)),
            final(self).wf(),
    {
        let (labels, choices) = profile_items(&self.workspace, &self.active_profile);
        self.picker = Some(Picker::new(labels, Choices::Profiles(choices)));
        self.mode = Mode::Palette;
    }

    /// What opening the list of sequences does, to run one or to edit it.
    #[verifier::opaque]
    pub open spec fn opens_sequences(self, after: App, run: bool) -> bool {
        if self.workspace is None {
            after == self.told(Notice::OpenWorkspaceFirst)
        } else if self.explorer.sequences@.len() == 0 {
            after == self.told(Notice::NoSequences)
        } else {
            &&& self.picking(
                after,
                sequence_names(self.explorer.sequences@),
                Mode::SequencePicker,
            )
            &&& after.picker->0.choices matches Choices::Sequences { files, run: r } && r == run
                && files@ == sequence_files(self.explorer.sequences@)
        }
    }

    /// Opens the list of sequences.
    pub fn open_sequence_picker(&mut self, run: bool)
        requires
            old(self).wf(),
        ensures
            old(self).opens_sequences(*final(self), run),
            final(self).wf(),
    {
        reveal(App::opens_sequences);
        if self.workspace.is_none() {
            self.message = Some(Notice::OpenWorkspaceFirst);
            return;
        }
        if self.explorer.sequences.len() == 0 {
            self.message = Some(Notice::NoSequences);
            return;
        }
        let mut names: Vec<String> = Vec::new();
        let mut files: Vec<String> = Vec::new();
        let mut i: usize = 0;
        while i < self.explorer.sequences.len()
            invariant
                i <= self.explorer.sequences.len(),
                names@.len() == i,
                files@.len() == i,
                forall|j: int|
                    0 <= j < i ==> (#[trigger] names@[j])@ == self.explorer.sequences@[j].name@,
                forall|j: int|
                    0 <= j < i ==> #[trigger] files@[j] == self.explorer.sequences@[j].file,
            decreases self.explorer.sequences.len() - i,
        {
            names.push(self.explorer.sequences[i].name.clone());
            files.push(self.explorer.sequences[i].file.clone());
            i = i + 1;
        }
        assert(texts(names@) =~= sequence_names(self.explorer.sequences@));
        assert(files@ =~= sequence_files(self.explorer.sequences@));
        self.picker = Some(Picker::new(names, Choices::Sequences { files, run }));
        self.mode = Mode::SequencePicker;
    }

    /// What opening the workspace picker does: the workspaces are to be listed where
    /// they are remembered.
    pub open spec fn asks_workspaces(self, after: App, fx: Seq<Effect>) -> bool {
        if self.has_history {
            after == self && fx == seq![Effect::Disk(DiskWork::RecentWorkspaces)]
        } else {
            after == self.told(Notice::NoRecentWorkspaces) && fx.len() == 0
        }
    }

    /// Opens the workspace picker.
    pub fn open_workspace_picker(&mut self) -> (fx: Vec<Effect>)
        requires
            old(self).wf(),
        ensures
            old(self).asks_workspaces(*final(self), fx@),
            final(self).wf(),
    {
        if !self.has_history {
            self.message = Some(Notice::NoRecentWorkspaces);
            return Vec::new();
        }
        let fx = vec![Effect::Disk(DiskWork::RecentWorkspaces)];
        assert(fx@ =~= seq![Effect::Disk(DiskWork::RecentWorkspaces)]);
        fx
    }

    /// The paths of workspaces as they are shown.
    pub open spec fn shown_paths(paths: Seq<String>, home: Option<Seq<char>>) -> Seq<Seq<char>> {
        paths.map_values(|p: String| shown_path(p@, home))
    }

    /// What the list of the workspaces does: it is shown where there are any.
    #[verifier::opaque]
    pub open spec fn shows_workspaces(
        self,
        after: App,
        recent: Result<Vec<String>, String>,
        home: Option<Seq<char>>,
    ) -> bool {
        match recent {
            Err(err) => after == self.told(Notice::PickerFailed { err }),
            Ok(paths) => if paths@.len() == 0 {
                after == self.told(Notice::NoRecentWorkspaces)
            } else {
                &&& self.picking(after, App::shown_paths(paths@, home), Mode::WorkspacePicker)
                &&& after.picker->0.choices == Choices::Workspaces(paths)
            },
        }
    }

    /// Takes in the workspaces that were opened last, given the home directory.
    pub fn recent_listed_below(
        &mut self,
        recent: Result<Vec<String>, String>,
        home: &Option<String>,
    )
        requires
            old(self).wf(),
        ensures
            old(self).shows_workspaces(*final(self), recent, text_of(*home)),
            final(self).wf(),
    {
        reveal(App::shows_workspaces);
        let paths = match recent {
            Ok(p) => p,
            Err(err) => {
                self.message = Some(Notice::PickerFailed { err });
                return;
            },
        };
        if paths.len() == 0 {
            self.message = Some(Notice::NoRecentWorkspaces);
            return;
        }
        let mut labels: Vec<String> = Vec::new();
        let mut i: usize = 0;
        while i < paths.len()
            invariant
                i <= paths.len(),
                labels@.len() == i,
                forall|j: int|
                    0 <= j < i ==> (#[trigger] labels@[j])@ == shown_path(
                        paths@[j]@,
                        text_of(*home),
                    ),
            decreases paths.len() - i,
        {
            labels.push(path_below_home(paths[i].as_str(), home));
            i = i + 1;
        }
        assert(texts(labels@) =~= App::shown_paths(paths@, text_of(*home)));
        self.picker = Some(Picker::new(labels, Choices::Workspaces(paths)));
        self.mode = Mode::WorkspacePicker;
    }

    /// Takes in the workspaces that were opened last.
    pub fn recent_listed(&mut self, recent: Result<Vec<String>, String>)
        requires
            old(self).wf(),
        ensures
            exists|home: Option<Seq<char>>|
                #[trigger] old(self).shows_workspaces(*final(self), recent, home),
            final(self).wf(),
    {
        let home = home_dir();
        self.recent_listed_below(recent, &home);
    }

    /// What asking for a directory does: the collections are to be listed.
    #[verifier::opaque]
    pub open spec fn asks_directory(
        self,
        after: App,
        purpose: DestPurpose,
        source: Option<String>,
        fx: Seq<Effect>,
    ) -> bool {
        if self.workspace is None {
            &&& after == self.told(
                if source is Some {
                    Notice::NoDestination
                } else {
                    Notice::OpenWorkspaceFirst
                },
            )
            &&& fx.len() == 0
        } else {
            after == self && fx == seq![
                Effect::Disk(DiskWork::ListCollections { dest: purpose, moved: source }),
            ]
        }
    }

    /// Asks for a directory.
    pub fn open_destination_picker(&mut self, purpose: DestPurpose, source: Option<String>) -> (fx:
        Vec<Effect>)
        requires
            old(self).wf(),
        ensures
            old(self).asks_directory(*final(self), purpose, source, fx@),
            final(self).wf(),
    {
        reveal(App::asks_directory);
        if self.workspace.is_none() {
            self.message = Some(
                if source.is_some() {
                    Notice::NoDestination
                } else {
                    Notice::OpenWorkspaceFirst
                },
            );
            return Vec::new();
        }
        let fx = vec![Effect::Disk(DiskWork::ListCollections { dest: purpose, moved: source })];
        assert(fx@ =~= seq![Effect::Disk(DiskWork::ListCollections { dest: purpose, moved: source })]);
        fx
    }

    /// What the list of the collections does: they are shown, without what moves or
    /// is copied and what is in it.
    #[verifier::opaque]
    pub open spec fn shows_directories(
        self,
        after: App,
        purpose: DestPurpose,
        source: Option<String>,
        dirs: Seq<TreeDir>,
    ) -> bool {
        match self.workspace {
            None => after == self,
            Some(ws) => {
                let all = dest_dirs(ws.root@, dirs);
                let left = pickable(all, all, text_of(source));
                if left.len() == 0 {
                    after == self.told(Notice::NoDestination)
                } else {
                    &&& self.picking(
                        after,
                        pickable(dest_labels(dirs), all, text_of(source)),
                        Mode::Palette,
                    )
                    &&& after.picker->0.choices matches Choices::Destinations {
                        dirs: d,
                        purpose: p,
                        source: s,
                    } && texts(d@) == left && p == purpose && s == source
                }
            },
        }
    }

    /// Takes in the collections, to pick a directory from.
    pub fn destinations_listed(
        &mut self,
        purpose: DestPurpose,
        source: Option<String>,
        dirs: Vec<TreeDir>,
    )
        requires
            old(self).wf(),
        ensures
            old(self).shows_directories(*final(self), purpose, source, dirs@),
            final(self).wf(),
    {
        reveal(App::shows_directories);
        let (labels, paths) = match &self.workspace {
            Some(ws) => collection_destinations(ws.root.as_str(), &dirs),
            None => {
                return;
            },
        };
        proof {
            assert(texts(labels@).len() == dest_labels(dirs@).len());
            assert(texts(paths@).len() == dest_dirs(self.workspace->0.root@, dirs@).len());
        }
        let (labels, paths) = keep_pickable(labels, paths, &source);
        assert(texts(paths@).len() == paths@.len());
        if paths.len() == 0 {
            self.message = Some(Notice::NoDestination);
            return;
        }
        self.picker = Some(
            Picker::new(labels, Choices::Destinations { dirs: paths, purpose, source }),
        );
        self.mode = Mode::Palette;
    }

    /// The state with the list closed; what it was opened for is forgotten.
    pub open spec fn overlay_closed(self) -> App {
        App { picker: None, load_runner_after_pick: false, mode: Mode::Normal, ..self }
    }

    /// Closes the list.
    pub fn close_overlay(&mut self)
        ensures
            *final(self) == old(self).overlay_closed(),
            old(self).wf() ==> final(self).wf(),
    {
        self.picker = None;
        self.load_runner_after_pick = false;
        self.mode = Mode::Normal;
    }

    /// The list after a key that moves the pick or types.
    pub open spec fn picker_keyed(p: Picker, after: Picker, key: PickerKey) -> bool {
        match key {
            PickerKey::Up => after == (Picker {
                selected: crate::explorer::cursor_up(p.selected),
                ..p
            }),
            PickerKey::Down => after == (Picker {
                selected: crate::explorer::cursor_down(p.selected, p.shown@.len()),
                ..p
            }),
            PickerKey::Backspace => {
                &&& after.query@ == (if p.query@.len() > 0 {
                    p.query@.drop_last()
                } else {
                    p.query@
                })
                &&& after == (Picker { query: after.query, ..p })
            },
            PickerKey::Type(c) => {
                &&& after.query@ == p.query@.push(c)
                &&& after == (Picker { query: after.query, ..p })
            },
            _ => after == p,
        }
    }

    /// What a key does in the list, other than to accept the pick: it closes the
    /// list, moves the pick, or types, after which the list is to be narrowed.
    #[verifier::opaque]
    pub open spec fn overlay_keyed(self, after: App, key: KeyEvent, fx: Seq<Effect>) -> bool {
        let k = spec_picker_key(key);
        match self.picker {
            None => after == self.overlay_closed() && fx.len() == 0,
            Some(p) => if k == PickerKey::Close {
                after == self.overlay_closed() && fx.len() == 0
            } else {
                &&& after.picker matches Some(q) && App::picker_keyed(p, q, k)
                &&& after == (App { picker: after.picker, ..self })
                &&& fx == (if k is Type || k == PickerKey::Backspace {
                    seq![Effect::FilterPicker]
                } else {
                    Seq::empty()
                })
            },
        }
    }

    /// Handles a key in the list, other than to accept the pick.
    pub fn move_in_overlay(&mut self, key: KeyEvent) -> (fx: Vec<Effect>)
        requires
            old(self).wf(),
        ensures
            old(self).overlay_keyed(*final(self), key, fx@),
            final(self).wf(),
    {
        reveal(App::overlay_keyed);
        let k = picker_key(key);
        if self.picker.is_none() || k == PickerKey::Close {
            self.close_overlay();
            return Vec::new();
        }
        if let Some(p) = self.picker.as_mut() {
            match k {
                PickerKey::Up => p.move_up(),
                PickerKey::Down => p.move_down(),
                PickerKey::Backspace => p.backspace(),
                PickerKey::Type(c) => p.push_char(c),
                _ => {},
            }
        }
        let narrow = match k {
            PickerKey::Type(_) | PickerKey::Backspace => true,
            _ => false,
        };
        let mut fx: Vec<Effect> = Vec::new();
        if narrow {
            fx.push(Effect::FilterPicker);
        }
        assert(fx@ =~= (if k is Type || k == PickerKey::Backspace {
            seq![Effect::FilterPicker]
        } else {
            Seq::empty()
        }));
        fx
    }

    /// Shows the items of the list that match what was typed.
    pub fn picker_filtered(&mut self, shown: Vec<usize>)
        requires
            old(self).wf(),
        ensures
            match old(self).picker {
                Some(p) => *final(self) == (App {
                    picker: Some(Picker { shown, selected: 0, ..p }),
                    ..*old(self)
                }),
                None => *final(self) == *old(self),
            },
            final(self).wf(),
    {
        if let Some(p) = self.picker.as_mut() {
            p.set_matches(shown);
        }
    }

    /// The state with the jump labels shown.
    pub open spec fn jumping(self) -> App {
        App {
            jump: Some(
                Jump {
                    first_row: self.explorer.first_visible,
                    row_count: self.explorer.rows@.len() as usize,
                },
            ),
            mode: Mode::Jump,
            ..self
        }
    }

    /// Shows the jump labels: on the panes, and on the rows from the first that is
    /// shown.
    pub fn open_jump(&mut self)
        ensures
            *final(self) == old(self).jumping(),
            old(self).wf() ==> final(self).wf(),
    {
        self.jump = Some(
            Jump { first_row: self.explorer.first_visible, row_count: self.explorer.rows.len() },
        );
        self.mode = Mode::Jump;
    }

    /// The state with the jump labels gone.
    pub open spec fn jump_closed(self) -> App {
        App { jump: None, mode: Mode::Normal, ..self }
    }

    /// Takes the jump labels away.
    pub fn close_jump(&mut self)
        ensures
            *final(self) == old(self).jump_closed(),
            old(self).wf() ==> final(self).wf(),
    {
        self.jump = None;
        self.mode = Mode::Normal;
    }

    /// Where a key leads while the jump labels are shown.
    pub open spec fn jump_target(&self, key: KeyEvent) -> Option<JumpTarget> {
        match (self.jump, key.code) {
            (Some(j), Key::Char(c)) => j.spec_target(c),
            _ => None,
        }
    }

    /// What a key does while the jump labels are shown: Esc takes them away, a label
    /// leads where it points, the jump key takes them away where it is no label, and
    /// any other key does nothing.
    #[verifier::opaque]
    pub open spec fn jump_keyed(self, after: App, key: KeyEvent, fx: Seq<Effect>) -> bool {
        if key.code == Key::Esc || self.jump is None {
            after == self.jump_closed() && fx.len() == 0
        } else {
            match self.jump_target(key) {
                Some(JumpTarget::Pane(pane)) => after == self.jump_closed().focused(pane)
                    && fx.len() == 0,
                Some(JumpTarget::Row(row)) => self.jump_closed().focused(Pane::Explorer).at_row(
                    row,
                ).guards_load(after, PendingLoad::Row(row), fx),
                None => {
                    &&& fx.len() == 0
                    &&& after == (if self.keymap.spec_lookup(key) == Some(Action::Jump) {
                        self.jump_closed()
                    } else {
                        self
                    })
                },
            }
        }
    }

    /// Handles a key while the jump labels are shown.
    pub fn handle_jump_key(&mut self, key: KeyEvent) -> (fx: Vec<Effect>)
        requires
            old(self).wf(),
        ensures
            old(self).jump_keyed(*final(self), key, fx@),
            final(self).wf(),
    {
        reveal(App::jump_keyed);
        if key.code == Key::Esc {
            self.close_jump();
            return Vec::new();
        }
        let target = match &self.jump {
            Some(j) => match key.code {
                Key::Char(c) => j.target_for(c),
                _ => None,
            },
            None => {
                self.close_jump();
                return Vec::new();
            },
        };
        match target {
            Some(JumpTarget::Pane(pane)) => {
                self.close_jump();
                self.set_focus(pane);
                Vec::new()
            },
            Some(JumpTarget::Row(row)) => {
                self.close_jump();
                self.set_focus(Pane::Explorer);
                self.activate_explorer_row(row)
            },
            None => {
                let again = match self.keymap.lookup(key) {
                    Some(Action::Jump) => true,
                    _ => false,
                };
                if again {
                    self.close_jump();
                }
                Vec::new()
            },
        }
    }
}

/// A list that is closed leaves nothing behind for the next one: not what it was
/// opened for, nor what stood behind its items.
pub proof fn law_closed_list_leaves_nothing(a: App)
    ensures
        a.overlay_closed().picker is None,
        !a.overlay_closed().load_runner_after_pick,
        a.overlay_closed().overlay_closed() == a.overlay_closed(),
{
}

proof fn lemma_pickable(dirs: Seq<Seq<char>>, source: Option<Seq<char>>, i: int)
    requires
        0 <= i < pickable(dirs, dirs, source).len(),
    ensures
        may_hold(pickable(dirs, dirs, source)[i], source),
    decreases dirs.len(),
{
    if dirs.len() > 0 {
        let before = pickable(dirs.drop_last(), dirs.drop_last(), source);
        if i < before.len() {
            lemma_pickable(dirs.drop_last(), source, i);
        }
    }
}

/// A collection is never offered itself, nor a collection in it, to move into.
pub proof fn law_no_move_into_itself(
    a: App,
    b: App,
    purpose: DestPurpose,
    source: String,
    dirs: Seq<TreeDir>,
    i: int,
)
    requires
        a.shows_directories(b, purpose, Some(source), dirs),
        a.picker is None,
        b.picker is Some,
        b.picker->0.choices is Destinations,
        0 <= i < b.picker->0.choices->dirs@.len(),
    ensures
        !within(parsed(b.picker->0.choices->dirs@[i]@), parsed(source@)),
{
    reveal(App::shows_directories);
    let all = dest_dirs(a.workspace->0.root@, dirs);
    lemma_pickable(all, Some(source@), i);
    assert(texts(b.picker->0.choices->dirs@)[i] == b.picker->0.choices->dirs@[i]@);
}

/// A directory can be picked where it is not what is moved and not below it: those that can be
/// are offered in their order, and no other is.
pub proof fn law_offered_directories_add_up<T>(
    items: Seq<T>,
    dirs: Seq<Seq<char>>,
    item: T,
    dir: Seq<char>,
    source: Seq<char>,
)
    requires
        items.len() == dirs.len(),
    ensures
        within(parsed(dir), parsed(source)) ==> pickable(
            items.push(item),
            dirs.push(dir),
            Some(source),
        ) == pickable(items, dirs, Some(source)),
        !within(parsed(dir), parsed(source)) ==> pickable(
            items.push(item),
            dirs.push(dir),
            Some(source),
        ) == pickable(items, dirs, Some(source)).push(item),
        pickable(items.push(item), dirs.push(dir), None) == pickable(items, dirs, None).push(item),
        pickable(Seq::<T>::empty(), Seq::<Seq<char>>::empty(), Some(source)) == Seq::<T>::empty(),
{
    assert(items.push(item).drop_last() =~= items);
    assert(dirs.push(dir).drop_last() =~= dirs);
}

/// The root is offered first, and then each collection under the names on the way to it.
pub proof fn law_destinations_are_labelled(root: Seq<char>, dirs: Seq<TreeDir>, i: int)
    requires
        0 <= i < dirs.len(),
    ensures
        dest_labels(dirs).len() == dirs.len() + 1,
        dest_dirs(root, dirs).len() == dirs.len() + 1,
        dest_labels(dirs)[0] == "(root)"@,
        dest_dirs(root, dirs)[0] == root,
        dest_dirs(root, dirs)[i + 1] == dirs[i].path@,
        dirs[i].parent is None ==> dest_labels(dirs)[i + 1] == dirs[i].name@,
        dirs[i].parent matches Some(p) ==> p < i ==> dest_labels(dirs)[i + 1] == dest_labels(
            dirs,
        )[p + 1] + " / "@ + dirs[i].name@,
{
}

/// A key in a list: the arrows move the selection by one within what is shown, a character is
/// added to the query and Backspace takes the last one, and both filter anew; Esc closes the
/// list.
pub proof fn law_list_keys(a: App, b: App, key: KeyEvent, fx: Seq<Effect>)
    requires
        a.overlay_keyed(b, key, fx),
        a.picker is Some,
        a.picker->0.selected < a.picker->0.shown@.len(),
    ensures
        ({
            let p = a.picker->0;
            let up = key.code is Up || key.code == Key::Char('k') && key.modifiers.control
                || key.code == Key::Char('p') && key.modifiers.control;
            let down = key.code is Down || key.code == Key::Char('j') && key.modifiers.control
                || key.code == Key::Char('n') && key.modifiers.control;
            &&& key.code is Esc ==> b.picker is None && b.mode == Mode::Normal && fx.len() == 0
            &&& up ==> (b.picker matches Some(q) && q.query == p.query && q.selected == (
            if p.selected > 0 {
                p.selected - 1
            } else {
                0
            })) && fx.len() == 0
            &&& down ==> (b.picker matches Some(q) && q.query == p.query && q.selected == (
            if p.selected + 1 < p.shown@.len() {
                p.selected + 1
            } else {
                p.selected as int
            })) && fx.len() == 0
            &&& !key.modifiers.control ==> (key.code matches Key::Char(c) ==> (b.picker matches Some(
                q,
            ) && q.query@ == p.query@.push(c)) && fx == seq![Effect::FilterPicker])
            &&& key.code is Backspace && p.query@.len() > 0 ==> (b.picker matches Some(q)
                && q.query@ == p.query@.drop_last()) && fx == seq![Effect::FilterPicker]
            &&& b.buffers == a.buffers
        }),
{
    reveal(App::overlay_keyed);
    assert(a.picker->0.shown.len() <= usize::MAX);
}

/// A jump labels the panes and the rows that are seen: a pane's letter focuses the pane, a row's
/// letter goes to the row, and Esc leaves everything as it was.
pub proof fn law_jump_goes_to_the_label(a: App, b: App, key: KeyEvent, fx: Seq<Effect>)
    requires
        a.jump_keyed(b, key, fx),
        a.jump is Some,
    ensures
        key.code is Esc ==> b.jump is None && b.mode == Mode::Normal && b.panes == a.panes
            && b.buffers == a.buffers && fx.len() == 0,
        key.code == Key::Char('e') ==> b.panes.focus == Pane::Explorer && b.jump is None,
        key.code == Key::Char('u') ==> b.panes.focus == Pane::UrlBar && b.jump is None,
        key.code == Key::Char('r') ==> b.panes.focus == Pane::Request && b.jump is None,
        key.code == Key::Char('s') ==> b.panes.focus == Pane::Response && b.jump is None,
{
    reveal(App::jump_keyed);
    reveal(App::focused);
}

/// A jump starts at the first row that is seen and knows how many rows there are.
pub proof fn law_jump_starts_at_the_first_seen_row(a: App)
    ensures
        a.jumping().mode == Mode::Jump,
        a.jumping().jump matches Some(j) && j.first_row == a.explorer.first_visible && j.row_count
            == a.explorer.rows@.len() as usize,
        a.jumping().buffers == a.buffers,
{
}

/// The lists to pick from hold what there is: the profiles, the sequences by their names, and the
/// workspaces of late; where there is nothing to pick that is said.
pub proof fn law_lists_hold_what_there_is(a: App, b: App, run: bool, i: int)
    requires
        a.opens_sequences(b, run),
        a.workspace is Some,
    ensures
        a.explorer.sequences@.len() == 0 ==> b.picker == a.picker && b.message == Some(
            Notice::NoSequences,
        ),
        a.explorer.sequences@.len() > 0 ==> b.mode == Mode::SequencePicker && (
        b.picker matches Some(p) && p.selected == 0 && p.query@.len() == 0 && p.items@.len()
            == a.explorer.sequences@.len() && (0 <= i < p.items@.len() ==> p.items@[i]@
            == a.explorer.sequences@[i].name@) && (p.choices matches Choices::Sequences {
            files,
            run: r,
        } && r == run && files@.len() == a.explorer.sequences@.len() && (0 <= i < files@.len()
            ==> files@[i] == a.explorer.sequences@[i].file))),
{
    reveal(App::opens_sequences);
    if a.explorer.sequences@.len() > 0 && 0 <= i < a.explorer.sequences@.len() {
        let p = b.picker->0;
        assert(texts(p.items@).len() == p.items@.len());
        assert(texts(p.items@)[i] == sequence_names(a.explorer.sequences@)[i]);
    }
    if a.explorer.sequences@.len() > 0 {
        assert(texts(b.picker->0.items@).len() == b.picker->0.items@.len());
    }
}

/// The workspaces of late are offered in their order; none of late, and a list that could not be
/// read, is said.
pub proof fn law_recent_workspaces_are_offered(
    a: App,
    b: App,
    recent: Result<Vec<String>, String>,
    home: Option<Seq<char>>,
)
    requires
        a.shows_workspaces(b, recent, home),
    ensures
        recent matches Err(err) ==> b.picker == a.picker && b.message == Some(
            Notice::PickerFailed { err },
        ),
        recent matches Ok(paths) ==> paths@.len() == 0 ==> b.picker == a.picker && b.message
            == Some(Notice::NoRecentWorkspaces),
        recent matches Ok(paths) ==> paths@.len() > 0 ==> b.mode == Mode::WorkspacePicker && (
        b.picker matches Some(p) && p.choices == Choices::Workspaces(paths) && p.items@.len()
            == paths@.len()),
{
    reveal(App::shows_workspaces);
    if let Ok(paths) = recent {
        if paths@.len() > 0 {
            assert(texts(b.picker->0.items@).len() == b.picker->0.items@.len());
        }
    }
}

} // verus!
