//! What every key keeps.

use vstd::prelude::*;

use crate::app::{App, Effect, PendingLoad, Surface};
use crate::keymap::{Action, LeaderEntry};
use crate::keys::{Key, KeyEvent};
use crate::mode::{ConfirmPurpose, LeaderState, Mode, PromptPurpose};
use crate::pane::{law_focus_keeps_wf, law_toggles_keep_wf, Pane};
use crate::picker::{spec_picker_key, Choices, PickerKey};
use crate::routing::{item_at, spec_kind, ActionKind, Facts, TypingIn};
use crate::sequence::Sequence;

verus! {

proof fn lemma_typed_keeps_panes(a: App, b: App, place: TypingIn, key: KeyEvent)
    requires
        a.types(b, place, key),
    ensures
        b.panes == a.panes,
{
    reveal(App::types);
    match place {
        TypingIn::Url => {
            reveal(App::url_keyed);
            reveal(App::commits_url);
        },
        TypingIn::Row => {
            reveal(App::edits_rows);
        },
        TypingIn::Body => {
            reveal(App::body_fed);
        },
    }
}

proof fn lemma_popup_keeps_panes(a: App, b: App, key: KeyEvent, motion: bool)
    requires
        a.popup_keyed(b, key, motion),
    ensures
        b.panes == a.panes,
{
    reveal(App::popup_keyed);
    reveal(App::commits_url);
}

proof fn lemma_view_keeps_panes(
    a: App,
    b: App,
    surface: Surface,
    action: Action,
    line: Option<usize>,
    fx: Seq<Effect>,
)
    requires
        a.acts_on_view(b, surface, action, line, fx),
    ensures
        b.panes == a.panes,
{
    reveal(App::acts_on_view);
    reveal(App::views);
    reveal(App::opens_search);
}

proof fn lemma_search_keeps_panes(a: App, b: App, key: KeyEvent, fx: Seq<Effect>)
    requires
        a.searches(b, key, fx),
    ensures
        b.panes == a.panes,
{
    reveal(App::searches);
    reveal(App::views);
}

proof fn lemma_commit_keeps_panes(
    a: App,
    b: App,
    purpose: PromptPurpose,
    text: String,
    fx: Seq<Effect>,
)
    requires
        a.commits(b, purpose, text, fx),
    ensures
        b.panes == a.panes,
{
    reveal(App::commits);
    reveal(App::creates_endpoint);
    reveal(App::creates_collection);
    reveal(App::deletes_collection);
    reveal(App::imports);
    reveal(App::exports);
    reveal(App::saves_body);
}

proof fn lemma_prompt_keeps_panes(
    a: App,
    b: App,
    key: KeyEvent,
    purpose: PromptPurpose,
    fx: Seq<Effect>,
)
    requires
        a.prompt_keyed(b, key, purpose, fx),
    ensures
        b.panes == a.panes,
{
    reveal(App::prompt_keyed);
    if key.code == Key::Enter {
        let text = choose|text: String|
            text@ == a.prompt_editor@.text && #[trigger] a.in_mode(Mode::Normal).commits(
                b,
                purpose,
                text,
                fx,
            );
        lemma_commit_keeps_panes(a.in_mode(Mode::Normal), b, purpose, text, fx);
    }
}

proof fn lemma_close_keeps_panes(a: App, b: App, key: KeyEvent, fx: Seq<Effect>)
    requires
        a.close_keyed(b, key, fx),
    ensures
        b.panes == a.panes,
{
    reveal(App::close_keyed);
    reveal(App::close_advanced);
    reveal(App::saves_asked);
    reveal(App::saves);
    reveal(App::drops_asked);
}

proof fn lemma_load_keeps_panes(a: App, b: App, target: PendingLoad, fx: Seq<Effect>)
    requires
        a.guards_load(b, target, fx),
    ensures
        b.panes == a.panes,
{
    reveal(App::guards_load);
    reveal(App::loads);
}

proof fn lemma_confirm_keeps_panes(
    a: App,
    b: App,
    key: KeyEvent,
    purpose: ConfirmPurpose,
    fx: Seq<Effect>,
)
    requires
        a.confirm_keyed(b, key, purpose, fx),
    ensures
        b.panes == a.panes,
{
    reveal(App::confirm_keyed);
    reveal(App::discard_keyed);
    reveal(App::loads);
    if a.close_keyed(b, key, fx) {
        lemma_close_keeps_panes(a, b, key, fx);
    }
}

proof fn lemma_sequence_keeps_panes(
    a: App,
    b: App,
    key: KeyEvent,
    on_response: bool,
    line: Option<usize>,
    checked: Result<Sequence, String>,
    fx: Seq<Effect>,
)
    requires
        a.sequence_keyed(b, key, on_response, line, checked, fx),
    ensures
        b.panes == a.panes,
{
    reveal(App::sequence_keyed);
    reveal(App::flips);
    reveal(App::acts_on_view);
    reveal(App::views);
    reveal(App::opens_search);
}

proof fn lemma_runner_keeps_panes(
    a: App,
    b: App,
    key: KeyEvent,
    on_response: bool,
    line: Option<usize>,
    fx: Seq<Effect>,
)
    requires
        a.load_keyed(b, key, on_response, line, fx),
    ensures
        b.panes == a.panes,
{
    reveal(App::load_keyed);
    reveal(App::acts_on_view);
    reveal(App::views);
    reveal(App::opens_search);
}

proof fn lemma_method_keeps_panes(
    a: App,
    b: App,
    key: KeyEvent,
    method: Option<crate::model::Method>,
)
    requires
        a.method_keyed(b, key, method),
    ensures
        b.panes == a.panes,
{
    reveal(App::method_keyed);
}

proof fn lemma_jump_keeps_panes_sound(a: App, b: App, key: KeyEvent, fx: Seq<Effect>)
    requires
        a.panes.wf(),
        a.jump_keyed(b, key, fx),
    ensures
        b.panes.wf(),
{
    reveal(App::jump_keyed);
    reveal(App::guards_load);
    reveal(App::loads);
    let n = a.explorer.sequences@.len();
    law_focus_keeps_wf(a.panes, Pane::Explorer, n);
    law_focus_keeps_wf(a.panes, Pane::UrlBar, n);
    law_focus_keeps_wf(a.panes, Pane::Request, n);
    law_focus_keeps_wf(a.panes, Pane::Response, n);
}

proof fn lemma_overlay_keeps_panes(a: App, b: App, key: KeyEvent, fx: Seq<Effect>)
    requires
        a.overlay_keyed(b, key, fx),
    ensures
        b.panes == a.panes,
{
    reveal(App::overlay_keyed);
}

proof fn lemma_panes_stay_sound(
    a: App,
    b: App,
    action: Action,
    key: Option<KeyEvent>,
    fx: Seq<Effect>,
)
    requires
        a.panes.wf(),
        a.acts_on_panes(b, action, key, fx),
    ensures
        b.panes.wf(),
{
    reveal(App::acts_on_panes);
    reveal(App::cancels);
    let n = a.explorer.sequences@.len();
    law_toggles_keep_wf(a.panes, n);
    law_focus_keeps_wf(a.panes, a.panes.focus.spec_next(), n);
    law_focus_keeps_wf(a.panes, a.panes.focus.spec_prev(), n);
    law_focus_keeps_wf(a.panes, Pane::Explorer, n);
    law_focus_keeps_wf(a.panes, Pane::UrlBar, n);
    law_focus_keeps_wf(a.panes, Pane::Request, n);
    law_focus_keeps_wf(a.panes, Pane::Response, n);
}

proof fn lemma_overlays_stay_sound(
    a: App,
    b: App,
    action: Action,
    palette: Vec<Action>,
    fx: Seq<Effect>,
)
    requires
        a.panes.wf(),
        a.acts_on_overlays(b, action, palette, fx),
    ensures
        b.panes.wf(),
{
    reveal(App::acts_on_overlays);
    reveal(App::runs_selected);
    reveal(App::starts_run);
    reveal(App::edits_selected);
    reveal(App::opens_sequences);
    reveal(App::opens_load);
    law_focus_keeps_wf(a.panes, Pane::UrlBar, a.explorer.sequences@.len());
}

proof fn lemma_session_stays_sound(a: App, b: App, action: Action, fx: Seq<Effect>)
    requires
        a.panes.wf(),
        a.acts_on_session(b, action, fx),
    ensures
        b.panes.wf(),
{
    reveal(App::acts_on_session);
    reveal(App::settings_opened);
    reveal(App::inspecting);
    reveal(App::debug_toggled);
    reveal(App::toggles_endpoint);
}

proof fn lemma_request_stays_sound(
    a: App,
    b: App,
    action: Action,
    key: Option<KeyEvent>,
    fx: Seq<Effect>,
)
    requires
        a.panes.wf(),
        a.acts_on_request(b, action, key, fx),
    ensures
        b.panes.wf(),
{
    reveal(App::acts_on_request);
    reveal(App::sends);
    reveal(App::cancels);
    reveal(App::saves);
    reveal(App::edits_url);
    reveal(App::acts_on_rows);
    reveal(App::edits_rows);
    reveal(App::body_fed);
    reveal(App::copies_curl);
    law_focus_keeps_wf(a.panes, Pane::UrlBar, a.explorer.sequences@.len());
}

proof fn lemma_tree_keeps_panes(a: App, b: App, action: Action, fx: Seq<Effect>)
    requires
        a.acts_on_tree(b, action, fx),
    ensures
        b.panes == a.panes,
{
    reveal(App::acts_on_tree);
    reveal(App::runs_selected);
    reveal(App::starts_run);
    reveal(App::asks_relocate);
    reveal(App::asks_directory);
    reveal(App::duplicates);
    reveal(App::reorders);
}

proof fn lemma_buffers_keep_panes(a: App, b: App, action: Action, fx: Seq<Effect>)
    requires
        a.acts_on_buffers(b, action, fx),
    ensures
        b.panes == a.panes,
{
    reveal(App::acts_on_buffers);
    reveal(App::closes);
    reveal(App::closes_all);
}

proof fn lemma_move_keeps_panes(
    a: App,
    b: App,
    action: Action,
    key: Option<KeyEvent>,
    line: Option<usize>,
    fx: Seq<Effect>,
)
    requires
        a.moves(b, action, key, line, fx),
    ensures
        b.panes == a.panes,
{
    reveal(App::moves);
    match a.panes.focus {
        Pane::Explorer => {
            reveal(App::explorer_acts);
            reveal(App::edits_selected);
            reveal(App::guards_load);
            reveal(App::loads);
        },
        Pane::UrlBar => {},
        Pane::Request => {
            reveal(App::navigates_request);
            reveal(App::edits_rows);
            reveal(App::body_fed);
        },
        Pane::Response => {
            lemma_view_keeps_panes(a, b, Surface::Main, action, line, fx);
        },
    }
}

/// Every action keeps the panes sound: neither a collapsed pane nor a hidden left column
/// has the focus after it.
pub proof fn law_actions_keep_the_panes_sound(
    a: App,
    b: App,
    action: Action,
    key: Option<KeyEvent>,
    facts: Facts,
    fx: Seq<Effect>,
)
    requires
        a.panes.wf(),
        a.dispatches(b, action, key, facts, fx),
    ensures
        b.panes.wf(),
{
    reveal(App::dispatches);
    match spec_kind(action) {
        ActionKind::Panes => lemma_panes_stay_sound(a, b, action, key, fx),
        ActionKind::Overlay => lemma_overlays_stay_sound(a, b, action, facts.palette, fx),
        ActionKind::Session => lemma_session_stays_sound(a, b, action, fx),
        ActionKind::Request => lemma_request_stays_sound(a, b, action, key, fx),
        ActionKind::Tree => lemma_tree_keeps_panes(a, b, action, fx),
        ActionKind::View => {
            if a.acts_on_view(b, Surface::Main, action, facts.line, fx) {
                lemma_view_keeps_panes(a, b, Surface::Main, action, facts.line, fx);
            }
        },
        ActionKind::Buffers => lemma_buffers_keep_panes(a, b, action, fx),
        ActionKind::Move => lemma_move_keeps_panes(a, b, action, key, facts.line, fx),
    }
}

proof fn lemma_normal_stays_sound(a: App, b: App, key: KeyEvent, facts: Facts, fx: Seq<Effect>)
    requires
        a.panes.wf(),
        a.normal_keyed(b, key, facts, fx),
    ensures
        b.panes.wf(),
{
    reveal(App::normal_keyed);
    match a.typing() {
        Some(place) => match a.intercepts(key) {
            Some(action) => law_actions_keep_the_panes_sound(a, b, action, Some(key), facts, fx),
            None => lemma_typed_keeps_panes(a, b, place, key),
        },
        None => {
            reveal(App::body_fed);
            match a.keymap.spec_lookup_ctx(key, a.panes.focus.spec_ctx()) {
                Some(action) => {
                    if a.dispatches(b, action, Some(key), facts, fx) {
                        law_actions_keep_the_panes_sound(a, b, action, Some(key), facts, fx);
                    }
                },
                None => {},
            }
        },
    }
}

proof fn lemma_leader_stays_sound(a: App, b: App, key: KeyEvent, facts: Facts, fx: Seq<Effect>)
    requires
        a.panes.wf(),
        a.leader_keyed(b, key, facts, fx),
    ensures
        b.panes.wf(),
{
    reveal(App::leader_keyed);
    let ended = App { leader: None, ..a };
    match a.leader {
        Some(LeaderState::Root) => match a.keymap.spec_leader_root(key) {
            Some(LeaderEntry::Act(action)) => {
                if ended.dispatches(b, action, Some(key), facts, fx) {
                    law_actions_keep_the_panes_sound(ended, b, action, Some(key), facts, fx);
                }
            },
            _ => {},
        },
        Some(LeaderState::Submenu(menu)) => match a.keymap.spec_leader_sub(menu, key) {
            Some(action) => {
                if ended.dispatches(b, action, Some(key), facts, fx) {
                    law_actions_keep_the_panes_sound(ended, b, action, Some(key), facts, fx);
                }
            },
            None => {},
        },
        None => {},
    }
}

proof fn lemma_pick_stays_sound(
    a: App,
    b: App,
    choices: Choices,
    i: usize,
    load: bool,
    facts: Facts,
    fx: Seq<Effect>,
)
    requires
        a.panes.wf(),
        a.picks(b, choices, i, load, facts, fx),
    ensures
        b.panes.wf(),
{
    reveal(App::picks);
    match choices {
        Choices::Endpoints(files) => {
            reveal(App::picks_endpoint);
        },
        Choices::Actions(actions) => match item_at(actions@, i) {
            Some(action) => law_actions_keep_the_panes_sound(a, b, action, None, facts, fx),
            None => {},
        },
        Choices::Workspaces(roots) => match item_at(roots@, i) {
            Some(root) => lemma_load_keeps_panes(a, b, PendingLoad::Workspace(root), fx),
            None => {},
        },
        Choices::Destinations { dirs, purpose, source } => {
            reveal(App::picks_directory);
        },
        _ => {},
    }
}

proof fn lemma_list_stays_sound(a: App, b: App, key: KeyEvent, facts: Facts, fx: Seq<Effect>)
    requires
        a.panes.wf(),
        a.list_keyed(b, key, facts, fx),
    ensures
        b.panes.wf(),
{
    reveal(App::list_keyed);
    if a.picker is Some && spec_picker_key(key) == PickerKey::Accept {
        reveal(App::accepts);
        let p = a.picker->0;
        match p.spec_current() {
            Some(i) => lemma_pick_stays_sound(
                a.overlay_closed(),
                b,
                p.choices,
                i,
                a.load_runner_after_pick,
                facts,
                fx,
            ),
            None => {},
        }
    } else {
        lemma_overlay_keeps_panes(a, b, key, fx);
    }
}

/// Every key keeps the panes sound, whatever the mode: neither a collapsed pane nor a
/// hidden left column has the focus after it.
pub proof fn law_keys_keep_the_panes_sound(
    a: App,
    b: App,
    key: KeyEvent,
    facts: Facts,
    fx: Seq<Effect>,
)
    requires
        a.panes.wf(),
        a.keyed(b, key, facts, fx),
    ensures
        b.panes.wf(),
{
    reveal(App::keyed);
    if a.help.open {
        reveal(App::help_keyed);
    } else if a.spec_popup() {
        lemma_popup_keeps_panes(a, b, key, facts.motion);
    } else if a.leader is Some {
        lemma_leader_stays_sound(a, b, key, facts, fx);
    } else {
        reveal(App::mode_keyed);
        match a.mode {
            Mode::Search | Mode::Palette | Mode::WorkspacePicker | Mode::SequencePicker => {
                lemma_list_stays_sound(a, b, key, facts, fx);
            },
            Mode::Jump => lemma_jump_keeps_panes_sound(a, b, key, fx),
            Mode::MethodMenu => lemma_method_keeps_panes(a, b, key, facts.menu_method),
            Mode::BodySearch => lemma_search_keeps_panes(a, b, key, fx),
            Mode::Prompt(purpose) => lemma_prompt_keeps_panes(a, b, key, purpose, fx),
            Mode::Confirm(purpose) => lemma_confirm_keeps_panes(a, b, key, purpose, fx),
            Mode::Sequence => lemma_sequence_keeps_panes(
                a,
                b,
                key,
                facts.on_response,
                facts.line,
                facts.checked,
                fx,
            ),
            Mode::LoadRunner => lemma_runner_keeps_panes(
                a,
                b,
                key,
                facts.on_response,
                facts.line,
                fx,
            ),
            Mode::Normal => lemma_normal_stays_sound(a, b, key, facts, fx),
            _ => {},
        }
    }
}

} // verus!
