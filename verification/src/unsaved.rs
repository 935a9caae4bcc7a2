//! What every key keeps of unsaved work.

use vstd::prelude::*;

use crate::app::{App, Effect, PendingClose, PendingLoad, Surface};
use crate::buffer::{dirty_flags, files, kept, Buffers, EndpointBuffer};
use crate::editing::RowOp;
use crate::keymap::{Action, LeaderEntry};
use crate::keys::{Key, KeyEvent};
use crate::meta::ResponseMeta;
use crate::mode::{ConfirmPurpose, LeaderState, Mode, PromptPurpose};
use crate::pane::Pane;
use crate::picker::{spec_picker_key, Choices, PickerKey};
use crate::response::{ViewerAsk, ViewerOp};
use crate::routing::{item_at, spec_kind, ActionKind, Facts, TypingIn};
use crate::sending::{lemma_awaiting, AppMsg, Landed};
use crate::sequence::Sequence;

verus! {

/// Each endpoint with unsaved changes is still open.
pub open spec fn still_open(a: Seq<EndpointBuffer>, b: Seq<EndpointBuffer>) -> bool {
    forall|i: int|
        0 <= i < a.len() && (#[trigger] a[i]).dirty() ==> files(b).contains(a[i].endpoint.file@)
}

/// The same files are open, in the same order.
pub open spec fn same_files(a: App, b: App) -> bool {
    files(b.buffers.list@) == files(a.buffers.list@)
}

proof fn lemma_same_files_open(a: App, b: App)
    requires
        same_files(a, b),
    ensures
        still_open(a.buffers.list@, b.buffers.list@),
{
    assert forall|i: int|
        0 <= i < a.buffers.list@.len() && (#[trigger] a.buffers.list@[i]).dirty() implies files(
        b.buffers.list@,
    ).contains(a.buffers.list@[i].endpoint.file@) by {
        assert(files(a.buffers.list@)[i] == a.buffers.list@[i].endpoint.file@);
        assert(files(b.buffers.list@)[i] == a.buffers.list@[i].endpoint.file@);
    }
}

proof fn lemma_changed_keeps_files(a: App, b: App)
    requires
        a.buffers.loaded(),
        b.buffers.list@ == a.buffers.list@.update(
            a.buffers.active as int,
            b.buffers.list@[a.buffers.active as int],
        ),
        b.buffers.list@[a.buffers.active as int].endpoint.file
            == a.buffers.current().endpoint.file,
    ensures
        same_files(a, b),
{
    assert(files(b.buffers.list@) =~= files(a.buffers.list@));
}

proof fn lemma_committed_keeps_files(a: App, b: App, url: Seq<char>)
    requires
        a.commits_url(b, url),
    ensures
        same_files(a, b),
{
    if a.buffers.loaded() {
        lemma_changed_keeps_files(a, b);
    }
}

proof fn lemma_rows_keep_files(a: App, b: App, op: RowOp)
    requires
        a.edits_rows(b, op),
    ensures
        same_files(a, b),
{
    reveal(App::edits_rows);
    if a.buffers.loaded() {
        if exists|mid: App| #[trigger] a.rows_changed(mid, op) && mid.picks_auth(b) {
            let mid = choose|mid: App| #[trigger] a.rows_changed(mid, op) && mid.picks_auth(b);
            lemma_changed_keeps_files(a, mid);
        } else {
            lemma_changed_keeps_files(a, b);
        }
    }
}

proof fn lemma_body_keeps_files(a: App, b: App, key: KeyEvent)
    requires
        a.body_fed(b, key),
    ensures
        same_files(a, b),
{
    reveal(App::body_fed);
    if a.buffers.loaded() {
        lemma_changed_keeps_files(a, b);
    }
}

proof fn lemma_typed_keeps_files(a: App, b: App, place: TypingIn, key: KeyEvent)
    requires
        a.types(b, place, key),
    ensures
        same_files(a, b),
{
    reveal(App::types);
    match place {
        TypingIn::Url => {
            reveal(App::url_keyed);
            if a.spec_url_editing() {
                let text = a.buffers.current().url_editor->0@.text;
                match key.code {
                    Key::Enter => {
                        let mid = choose|mid: App| #[trigger] a.url_editor_closed(mid)
                            && mid.commits_url(b, text);
                        lemma_changed_keeps_files(a, mid);
                        lemma_committed_keeps_files(mid, b, text);
                    },
                    _ => {
                        lemma_changed_keeps_files(a, b);
                    },
                }
            }
        },
        TypingIn::Row => lemma_rows_keep_files(a, b, RowOp::Key(key)),
        TypingIn::Body => lemma_body_keeps_files(a, b, key),
    }
}

proof fn lemma_popup_keeps_files(a: App, b: App, key: KeyEvent, motion: bool)
    requires
        a.popup_keyed(b, key, motion),
    ensures
        same_files(a, b),
{
    reveal(App::popup_keyed);
    if a.spec_popup() {
        let popup = a.buffers.current().url_popup->0;
        let text = crate::editing::one_line(popup.spec_text());
        if exists|mid: App| #[trigger] a.popup_closed(mid) && mid.commits_url(b, text) {
            let mid = choose|mid: App| #[trigger] a.popup_closed(mid) && mid.commits_url(b, text);
            lemma_changed_keeps_files(a, mid);
            lemma_committed_keeps_files(mid, b, text);
        } else if b != a {
            lemma_changed_keeps_files(a, b);
        }
    }
}

proof fn lemma_views_keep_files(a: App, b: App, surface: Surface, op: ViewerOp, fx: Seq<Effect>)
    requires
        a.views(b, surface, op, fx),
    ensures
        same_files(a, b),
{
    reveal(App::views);
    if a.shown_on(surface) is Some && a.buffers.loaded() {
        lemma_changed_keeps_files(a, b);
    } else {
        assert(files(b.buffers.list@) =~= files(a.buffers.list@));
    }
}

proof fn lemma_view_keeps_files(
    a: App,
    b: App,
    surface: Surface,
    action: Action,
    line: Option<usize>,
    fx: Seq<Effect>,
)
    requires
        a.acts_on_view(b, surface, action, line, fx),
    ensures
        same_files(a, b),
{
    reveal(App::acts_on_view);
    match App::action_op(action, line) {
        Some(op) => lemma_views_keep_files(a, b, surface, op, fx),
        None => {
            if action == Action::OpenBodySearch {
                lemma_search_opens_with_files(a, b, surface);
            }
        },
    }
}

proof fn lemma_search_opens_with_files(a: App, b: App, surface: Surface)
    requires
        a.opens_search(b, surface),
    ensures
        same_files(a, b),
{
    reveal(App::opens_search);
    if a.arrived_on(surface) {
        let ask = crate::viewing::ask_effect(surface, ViewerAsk::Center);
        let (mid, query) = choose|mid: App, query: String|
            {
                &&& #[trigger] a.views(mid, surface, ViewerOp::SetSearch { query, matches: 0 }, ask)
                &&& b == (App {
                    body_search_editor: b.body_search_editor,
                    body_search_return: a.mode,
                    body_searched: surface == Surface::Body,
                    mode: Mode::BodySearch,
                    ..mid
                })
            };
        lemma_views_keep_files(a, mid, surface, ViewerOp::SetSearch { query, matches: 0 }, ask);
    }
}

proof fn lemma_search_keeps_files(a: App, b: App, key: KeyEvent, fx: Seq<Effect>)
    requires
        a.searches(b, key, fx),
    ensures
        same_files(a, b),
{
    reveal(App::searches);
    if key.code == Key::Esc {
        lemma_views_keep_files(
            a.search_left(),
            b,
            a.searched_surface(),
            ViewerOp::ClearSearch,
            Seq::empty(),
        );
    }
}

proof fn lemma_prompt_keeps_files(
    a: App,
    b: App,
    key: KeyEvent,
    purpose: PromptPurpose,
    fx: Seq<Effect>,
)
    requires
        a.prompt_keyed(b, key, purpose, fx),
    ensures
        same_files(a, b),
{
    reveal(App::prompt_keyed);
    if key.code == Key::Enter {
        reveal(App::commits);
        reveal(App::creates_endpoint);
        reveal(App::creates_collection);
        reveal(App::deletes_collection);
        reveal(App::imports);
        reveal(App::exports);
        reveal(App::saves_body);
    }
}

proof fn lemma_sequence_keeps_files(
    a: App,
    b: App,
    key: KeyEvent,
    on_response: bool,
    line: Option<usize>,
    checked: Result<Sequence, String>,
    fx: Seq<Effect>,
)
    requires
        a.sequence_keyed(b, key, on_response, line, checked, fx),
    ensures
        same_files(a, b),
{
    reveal(App::sequence_keyed);
    reveal(App::flips);
    match a.keymap.spec_lookup_ctx(key, crate::pane::PaneCtx::Response) {
        Some(action) => {
            if a.acts_on_view(b, Surface::Step, action, line, fx) {
                lemma_view_keeps_files(a, b, Surface::Step, action, line, fx);
            }
        },
        None => {},
    }
}

proof fn lemma_runner_keeps_files(
    a: App,
    b: App,
    key: KeyEvent,
    on_response: bool,
    line: Option<usize>,
    fx: Seq<Effect>,
)
    requires
        a.load_keyed(b, key, on_response, line, fx),
    ensures
        same_files(a, b),
{
    reveal(App::load_keyed);
    match a.keymap.spec_lookup_ctx(key, crate::pane::PaneCtx::Response) {
        Some(action) => {
            if a.acts_on_view(b, Surface::Copy, action, line, fx) {
                lemma_view_keeps_files(a, b, Surface::Copy, action, line, fx);
            }
        },
        None => {},
    }
}

proof fn lemma_method_keeps_files(
    a: App,
    b: App,
    key: KeyEvent,
    method: Option<crate::model::Method>,
)
    requires
        a.method_keyed(b, key, method),
    ensures
        same_files(a, b),
{
    reveal(App::method_keyed);
    if a.buffers.loaded() && b.buffers != a.buffers {
        lemma_changed_keeps_files(a, b);
    }
}

proof fn lemma_overlay_keeps_files(a: App, b: App, key: KeyEvent, fx: Seq<Effect>)
    requires
        a.overlay_keyed(b, key, fx),
    ensures
        same_files(a, b),
{
    reveal(App::overlay_keyed);
}

proof fn lemma_opened_keeps_files(a: App, b: App, s: crate::buffer::SelectedEndpoint)
    requires
        a.opened(b, s),
    ensures
        still_open(a.buffers.list@, b.buffers.list@),
{
    let la = a.buffers.list@;
    let lb = b.buffers.list@;
    assert forall|i: int| 0 <= i < la.len() && (#[trigger] la[i]).dirty() implies files(
        lb,
    ).contains(la[i].endpoint.file@) by {
        assert(files(lb)[i] == la[i].endpoint.file@);
    }
}

proof fn lemma_load_keeps_unsaved(a: App, b: App, target: PendingLoad, fx: Seq<Effect>)
    requires
        a.guards_load(b, target, fx),
    ensures
        still_open(a.buffers.list@, b.buffers.list@),
{
    reveal(App::guards_load);
    reveal(App::loads);
    lemma_same_files_open(a, a);
    match target {
        PendingLoad::Row(row) => {
            if row < a.explorer.rows@.len() && a.explorer.rows@[row as int].endpoint is Some {
                let s = choose|s: crate::buffer::SelectedEndpoint|
                    crate::explorer::row_selects(a.explorer.rows@[row as int], s)
                        && #[trigger] a.at_row(row).opened(b, s);
                lemma_opened_keeps_files(a.at_row(row), b, s);
            }
        },
        _ => {},
    }
}

proof fn lemma_jump_keeps_unsaved(a: App, b: App, key: KeyEvent, fx: Seq<Effect>)
    requires
        a.jump_keyed(b, key, fx),
    ensures
        still_open(a.buffers.list@, b.buffers.list@),
{
    reveal(App::jump_keyed);
    lemma_same_files_open(a, a);
    if key.code != Key::Esc && a.jump is Some {
        match a.jump_target(key) {
            Some(crate::jump::JumpTarget::Row(row)) => lemma_load_keeps_unsaved(
                a.jump_closed().focused(Pane::Explorer).at_row(row),
                b,
                PendingLoad::Row(row),
                fx,
            ),
            _ => {},
        }
    }
}

proof fn lemma_dropped_clean(a: App, b: App, i: usize, fx: Seq<Effect>)
    requires
        i < a.buffers.list@.len(),
        !a.buffers.list@[i as int].dirty(),
        a.drops(b, i, fx),
    ensures
        still_open(a.buffers.list@, b.buffers.list@),
{
    let la = a.buffers.list@;
    let lb = b.buffers.list@;
    assert forall|k: int| 0 <= k < la.len() && (#[trigger] la[k]).dirty() implies files(
        lb,
    ).contains(la[k].endpoint.file@) by {
        if k < i {
            assert(lb[k] == la[k]);
            assert(files(lb)[k] == la[k].endpoint.file@);
        } else {
            assert(k != i);
            assert(lb[k - 1] == la[k]);
            assert(files(lb)[k - 1] == la[k].endpoint.file@);
        }
    }
}

proof fn lemma_kept_has_dirty(list: Seq<EndpointBuffer>, i: int)
    requires
        0 <= i < list.len(),
        list[i].dirty(),
    ensures
        kept(list, dirty_flags(list)).contains(list[i]),
    decreases list.len(),
{
    let flags = dirty_flags(list);
    assert(flags.drop_last() =~= dirty_flags(list.drop_last()));
    let before = kept(list.drop_last(), flags.drop_last());
    if i == list.len() - 1 {
        assert(flags.last());
        let all = kept(list, flags);
        assert(all == before.push(list.last()));
        assert(all[all.len() - 1] == list[i]);
    } else {
        lemma_kept_has_dirty(list.drop_last(), i);
        assert(before.contains(list[i]));
        let j = choose|j: int| 0 <= j < before.len() && before[j] == list[i];
        let all = kept(list, flags);
        assert(all[j] == list[i]);
    }
}

proof fn lemma_kept_is_dirty(list: Seq<EndpointBuffer>, j: int)
    requires
        0 <= j < kept(list, dirty_flags(list)).len(),
    ensures
        kept(list, dirty_flags(list))[j].dirty(),
    decreases list.len(),
{
    let flags = dirty_flags(list);
    assert(flags.drop_last() =~= dirty_flags(list.drop_last()));
    let before = kept(list.drop_last(), flags.drop_last());
    if j < before.len() {
        lemma_kept_is_dirty(list.drop_last(), j);
    } else {
        assert(flags.last() == list.last().dirty());
    }
}

proof fn lemma_kept_keeps_unsaved(a: Seq<EndpointBuffer>)
    ensures
        still_open(a, kept(a, dirty_flags(a))),
{
    let left = kept(a, dirty_flags(a));
    assert forall|i: int| 0 <= i < a.len() && (#[trigger] a[i]).dirty() implies files(
        left,
    ).contains(a[i].endpoint.file@) by {
        lemma_kept_has_dirty(a, i);
        let j = choose|j: int| 0 <= j < left.len() && left[j] == a[i];
        assert(files(left)[j] == a[i].endpoint.file@);
    }
}

proof fn lemma_close_all_keeps_unsaved(a: App, b: App, fx: Seq<Effect>)
    requires
        a.closes_all(b, fx),
    ensures
        still_open(a.buffers.list@, b.buffers.list@),
{
    reveal(App::closes_all);
    let (mid, queue, generations) = choose|mid: Buffers, queue: Seq<String>, generations: Seq<u64>|
        {
            &&& #[trigger] a.buffers.closed_all(mid, queue, generations)
            &&& fx == crate::switching::aborts(generations)
            &&& if queue.len() == 0 {
                a.emptied(b)
            } else {
                exists|mid_app: App|
                    {
                        &&& mid_app.pending_close matches Some(PendingClose::All(q)) && q@ == queue
                        &&& mid_app == (App {
                            buffers: mid,
                            pending_close: mid_app.pending_close,
                            ..a
                        })
                        &&& #[trigger] mid_app.asks_next(b, queue)
                    }
            }
        };
    let left = kept(a.buffers.list@, dirty_flags(a.buffers.list@));
    lemma_kept_keeps_unsaved(a.buffers.list@);
    assert(crate::text::texts(queue).len() == files(left).len());
    if queue.len() == 0 {
        assert forall|i: int|
            0 <= i < a.buffers.list@.len() && (#[trigger] a.buffers.list@[i]).dirty() implies files(
            b.buffers.list@,
        ).contains(a.buffers.list@[i].endpoint.file@) by {
            assert(files(left).contains(a.buffers.list@[i].endpoint.file@));
        }
    } else {
        let mid_app = choose|mid_app: App|
            {
                &&& mid_app == (App { buffers: mid, pending_close: mid_app.pending_close, ..a })
                &&& #[trigger] mid_app.asks_next(b, queue)
            };
        assert(crate::text::texts(queue)[0] == files(left)[0]);
        assert(queue[0]@ == left[0].endpoint.file@);
        lemma_kept_is_dirty(a.buffers.list@, 0);
        assert(mid.open_dirty(queue[0]@));
        assert(mid.settled(queue) == 0);
        assert(b.buffers == mid);
    }
}

proof fn lemma_buffers_keep_unsaved(a: App, b: App, action: Action, fx: Seq<Effect>)
    requires
        a.acts_on_buffers(b, action, fx),
    ensures
        still_open(a.buffers.list@, b.buffers.list@),
{
    reveal(App::acts_on_buffers);
    lemma_same_files_open(a, a);
    match action {
        Action::BufferNext | Action::BufferPrev => {
            assert(files(b.buffers.list@) =~= files(a.buffers.list@));
            lemma_same_files_open(a, b);
        },
        Action::BufferClose => {
            reveal(App::closes);
            let i = a.buffers.active;
            if i < a.buffers.list@.len() && !a.buffers.list@[i as int].dirty() {
                lemma_dropped_clean(a, b, i, fx);
            }
        },
        Action::BufferCloseAll => lemma_close_all_keeps_unsaved(a, b, fx),
        _ => {},
    }
}

proof fn lemma_panes_keep_files(
    a: App,
    b: App,
    action: Action,
    key: Option<KeyEvent>,
    fx: Seq<Effect>,
)
    requires
        a.acts_on_panes(b, action, key, fx),
    ensures
        same_files(a, b),
{
    reveal(App::acts_on_panes);
    if action == Action::Quit {
        lemma_cancel_keeps_files(a, b, fx);
    }
}

proof fn lemma_cancel_keeps_files(a: App, b: App, fx: Seq<Effect>)
    requires
        a.cancels(b, fx) || b.buffers == a.buffers,
    ensures
        same_files(a, b),
{
    reveal(App::cancels);
    if a.buffers.loaded() && b.buffers != a.buffers {
        lemma_changed_keeps_files(a, b);
    }
}

proof fn lemma_overlays_keep_files(
    a: App,
    b: App,
    action: Action,
    palette: Vec<Action>,
    fx: Seq<Effect>,
)
    requires
        a.acts_on_overlays(b, action, palette, fx),
    ensures
        same_files(a, b),
{
    reveal(App::acts_on_overlays);
    if action == Action::EditUrlPopup {
        if a.buffers.loaded() {
            lemma_changed_keeps_files(a, b);
        }
    } else {
        reveal(App::runs_selected);
        reveal(App::starts_run);
        reveal(App::edits_selected);
        reveal(App::opens_sequences);
        reveal(App::opens_load);
    }
}

proof fn lemma_session_keeps_files(a: App, b: App, action: Action, fx: Seq<Effect>)
    requires
        a.acts_on_session(b, action, fx),
    ensures
        same_files(a, b),
{
    reveal(App::acts_on_session);
    reveal(App::settings_opened);
    reveal(App::inspecting);
    reveal(App::debug_toggled);
    reveal(App::toggles_endpoint);
    if action == Action::ToggleEndpointInsecure && a.buffers.loaded() {
        lemma_changed_keeps_files(a, b);
    }
}

proof fn lemma_request_keeps_files(
    a: App,
    b: App,
    action: Action,
    key: Option<KeyEvent>,
    fx: Seq<Effect>,
)
    requires
        a.acts_on_request(b, action, key, fx),
    ensures
        same_files(a, b),
{
    reveal(App::acts_on_request);
    match action {
        Action::Send => {
            reveal(App::sends);
            if a.buffers.loaded() && b.buffers != a.buffers {
                lemma_changed_keeps_files(a, b);
            }
        },
        Action::Cancel => lemma_cancel_keeps_files(a, b, fx),
        Action::Save => {
            reveal(App::saves);
            if a.buffers.loaded() {
                lemma_changed_keeps_files(a, b);
            }
        },
        Action::EditUrl => {
            reveal(App::edits_url);
            if a.buffers.loaded() {
                lemma_changed_keeps_files(a, b);
            }
        },
        Action::RowAdd | Action::RowDelete | Action::RowToggle | Action::RowEdit => {
            reveal(App::acts_on_rows);
            if a.panes.focus == Pane::Request && a.spec_body_text() {
                match key {
                    Some(k) => lemma_body_keeps_files(a, b, k),
                    None => {},
                }
            } else {
                lemma_rows_keep_files(a, b, App::row_op(action));
            }
        },
        Action::CopyAsCurl | Action::CopyAsCurlResolved => {
            reveal(App::copies_curl);
        },
        _ => {
            if a.buffers.loaded() && b.buffers != a.buffers {
                lemma_changed_keeps_files(a, b);
            }
        },
    }
}

proof fn lemma_tree_keeps_files(a: App, b: App, action: Action, fx: Seq<Effect>)
    requires
        a.acts_on_tree(b, action, fx),
    ensures
        same_files(a, b),
{
    reveal(App::acts_on_tree);
    reveal(App::runs_selected);
    reveal(App::starts_run);
    reveal(App::asks_relocate);
    reveal(App::asks_directory);
    reveal(App::duplicates);
    reveal(App::reorders);
}

proof fn lemma_move_keeps_unsaved(
    a: App,
    b: App,
    action: Action,
    key: Option<KeyEvent>,
    line: Option<usize>,
    fx: Seq<Effect>,
)
    requires
        a.moves(b, action, key, line, fx),
    ensures
        still_open(a.buffers.list@, b.buffers.list@),
{
    reveal(App::moves);
    lemma_same_files_open(a, a);
    match a.panes.focus {
        Pane::Explorer => {
            reveal(App::explorer_acts);
            if action == Action::Select {
                if a.left_is_sequences() {
                    reveal(App::edits_selected);
                } else {
                    lemma_load_keeps_unsaved(
                        a.at_row(a.explorer.cursor),
                        b,
                        PendingLoad::Row(a.explorer.cursor),
                        fx,
                    );
                }
            }
        },
        Pane::UrlBar => {},
        Pane::Request => {
            reveal(App::navigates_request);
            if a.spec_body_text() {
                match key {
                    Some(k) => lemma_body_keeps_files(a, b, k),
                    None => {},
                }
            } else if action == Action::Select {
                lemma_rows_keep_files(a, b, RowOp::Edit);
            } else if a.buffers.loaded() && b.buffers != a.buffers {
                lemma_changed_keeps_files(a, b);
            }
            lemma_same_files_open(a, b);
        },
        Pane::Response => {
            lemma_view_keeps_files(a, b, Surface::Main, action, line, fx);
            lemma_same_files_open(a, b);
        },
    }
}

/// No action closes an endpoint that has unsaved changes.
pub proof fn law_actions_keep_unsaved_endpoints_open(
    a: App,
    b: App,
    action: Action,
    key: Option<KeyEvent>,
    facts: Facts,
    fx: Seq<Effect>,
)
    requires
        a.dispatches(b, action, key, facts, fx),
    ensures
        still_open(a.buffers.list@, b.buffers.list@),
{
    reveal(App::dispatches);
    match spec_kind(action) {
        ActionKind::Panes => {
            lemma_panes_keep_files(a, b, action, key, fx);
            lemma_same_files_open(a, b);
        },
        ActionKind::Overlay => {
            lemma_overlays_keep_files(a, b, action, facts.palette, fx);
            lemma_same_files_open(a, b);
        },
        ActionKind::Session => {
            lemma_session_keeps_files(a, b, action, fx);
            lemma_same_files_open(a, b);
        },
        ActionKind::Request => {
            lemma_request_keeps_files(a, b, action, key, fx);
            lemma_same_files_open(a, b);
        },
        ActionKind::Tree => {
            lemma_tree_keeps_files(a, b, action, fx);
            lemma_same_files_open(a, b);
        },
        ActionKind::View => {
            if a.acts_on_view(b, Surface::Main, action, facts.line, fx) {
                lemma_view_keeps_files(a, b, Surface::Main, action, facts.line, fx);
            }
            lemma_same_files_open(a, b);
        },
        ActionKind::Buffers => lemma_buffers_keep_unsaved(a, b, action, fx),
        ActionKind::Move => lemma_move_keeps_unsaved(a, b, action, key, facts.line, fx),
    }
}

proof fn lemma_normal_keeps_unsaved(a: App, b: App, key: KeyEvent, facts: Facts, fx: Seq<Effect>)
    requires
        a.normal_keyed(b, key, facts, fx),
    ensures
        still_open(a.buffers.list@, b.buffers.list@),
{
    reveal(App::normal_keyed);
    lemma_same_files_open(a, a);
    match a.typing() {
        Some(place) => match a.intercepts(key) {
            Some(action) => law_actions_keep_unsaved_endpoints_open(
                a,
                b,
                action,
                Some(key),
                facts,
                fx,
            ),
            None => {
                lemma_typed_keeps_files(a, b, place, key);
                lemma_same_files_open(a, b);
            },
        },
        None => match a.keymap.spec_lookup_ctx(key, a.panes.focus.spec_ctx()) {
            Some(action) => {
                if a.dispatches(b, action, Some(key), facts, fx) {
                    law_actions_keep_unsaved_endpoints_open(a, b, action, Some(key), facts, fx);
                }
            },
            None => {
                if a.body_fed(b, key) {
                    lemma_body_keeps_files(a, b, key);
                    lemma_same_files_open(a, b);
                }
            },
        },
    }
}

proof fn lemma_leader_keeps_unsaved(a: App, b: App, key: KeyEvent, facts: Facts, fx: Seq<Effect>)
    requires
        a.leader_keyed(b, key, facts, fx),
    ensures
        still_open(a.buffers.list@, b.buffers.list@),
{
    reveal(App::leader_keyed);
    lemma_same_files_open(a, a);
    let ended = App { leader: None, ..a };
    match a.leader {
        Some(LeaderState::Root) => match a.keymap.spec_leader_root(key) {
            Some(LeaderEntry::Act(action)) => {
                if ended.dispatches(b, action, Some(key), facts, fx) {
                    law_actions_keep_unsaved_endpoints_open(
                        ended,
                        b,
                        action,
                        Some(key),
                        facts,
                        fx,
                    );
                }
            },
            _ => {},
        },
        Some(LeaderState::Submenu(menu)) => match a.keymap.spec_leader_sub(menu, key) {
            Some(action) => {
                if ended.dispatches(b, action, Some(key), facts, fx) {
                    law_actions_keep_unsaved_endpoints_open(
                        ended,
                        b,
                        action,
                        Some(key),
                        facts,
                        fx,
                    );
                }
            },
            None => {},
        },
        None => {},
    }
}

proof fn lemma_pick_keeps_unsaved(
    a: App,
    b: App,
    choices: Choices,
    i: usize,
    load: bool,
    facts: Facts,
    fx: Seq<Effect>,
)
    requires
        a.picks(b, choices, i, load, facts, fx),
    ensures
        still_open(a.buffers.list@, b.buffers.list@),
{
    reveal(App::picks);
    lemma_same_files_open(a, a);
    match choices {
        Choices::Endpoints(files) => {
            reveal(App::picks_endpoint);
        },
        Choices::Actions(actions) => match item_at(actions@, i) {
            Some(action) => law_actions_keep_unsaved_endpoints_open(a, b, action, None, facts, fx),
            None => {},
        },
        Choices::Workspaces(roots) => match item_at(roots@, i) {
            Some(root) => lemma_load_keeps_unsaved(a, b, PendingLoad::Workspace(root), fx),
            None => {},
        },
        Choices::AuthKinds | Choices::BodyTypes => {
            if a.buffers.loaded() && b.buffers != a.buffers {
                lemma_changed_keeps_files(a, b);
            }
            lemma_same_files_open(a, b);
        },
        Choices::Destinations { dirs, purpose, source } => {
            reveal(App::picks_directory);
        },
        _ => {},
    }
}

proof fn lemma_list_keeps_unsaved(a: App, b: App, key: KeyEvent, facts: Facts, fx: Seq<Effect>)
    requires
        a.list_keyed(b, key, facts, fx),
    ensures
        still_open(a.buffers.list@, b.buffers.list@),
{
    reveal(App::list_keyed);
    lemma_same_files_open(a, a);
    if a.picker is Some && spec_picker_key(key) == PickerKey::Accept {
        reveal(App::accepts);
        let p = a.picker->0;
        match p.spec_current() {
            Some(i) => lemma_pick_keeps_unsaved(
                a.overlay_closed(),
                b,
                p.choices,
                i,
                a.load_runner_after_pick,
                facts,
                fx,
            ),
            None => {},
        }
    } else {
        lemma_overlay_keeps_files(a, b, key, fx);
        lemma_same_files_open(a, b);
    }
}

/// No key closes an endpoint that has unsaved changes, whatever the mode: only an answer
/// to the question about them does.
pub proof fn law_keys_keep_unsaved_endpoints_open(
    a: App,
    b: App,
    key: KeyEvent,
    facts: Facts,
    fx: Seq<Effect>,
)
    requires
        a.mode != Mode::Confirm(ConfirmPurpose::DiscardChanges),
        a.keyed(b, key, facts, fx),
    ensures
        still_open(a.buffers.list@, b.buffers.list@),
{
    reveal(App::keyed);
    lemma_same_files_open(a, a);
    if a.help.open {
        reveal(App::help_keyed);
    } else if a.spec_popup() {
        lemma_popup_keeps_files(a, b, key, facts.motion);
        lemma_same_files_open(a, b);
    } else if a.leader is Some {
        lemma_leader_keeps_unsaved(a, b, key, facts, fx);
    } else {
        reveal(App::mode_keyed);
        match a.mode {
            Mode::Search | Mode::Palette | Mode::WorkspacePicker | Mode::SequencePicker => {
                lemma_list_keeps_unsaved(a, b, key, facts, fx);
            },
            Mode::Jump => lemma_jump_keeps_unsaved(a, b, key, fx),
            Mode::MethodMenu => {
                lemma_method_keeps_files(a, b, key, facts.menu_method);
                lemma_same_files_open(a, b);
            },
            Mode::BodySearch => {
                lemma_search_keeps_files(a, b, key, fx);
                lemma_same_files_open(a, b);
            },
            Mode::Prompt(purpose) => {
                lemma_prompt_keeps_files(a, b, key, purpose, fx);
                lemma_same_files_open(a, b);
            },
            Mode::Confirm(purpose) => {
                reveal(App::confirm_keyed);
            },
            Mode::Sequence => {
                lemma_sequence_keeps_files(
                    a,
                    b,
                    key,
                    facts.on_response,
                    facts.line,
                    facts.checked,
                    fx,
                );
                lemma_same_files_open(a, b);
            },
            Mode::LoadRunner => {
                lemma_runner_keeps_files(a, b, key, facts.on_response, facts.line, fx);
                lemma_same_files_open(a, b);
            },
            Mode::Normal => lemma_normal_keeps_unsaved(a, b, key, facts, fx),
            _ => {},
        }
    }
}

proof fn lemma_answer_keeps_files(
    a: App,
    b: App,
    generation: u64,
    outcome: Result<Landed, String>,
    meta: ResponseMeta,
    fx: Seq<Effect>,
)
    requires
        a.answers(b, generation, outcome, meta, fx),
    ensures
        same_files(a, b),
        b.panes == a.panes,
        b.mode == a.mode,
{
    reveal(App::answers);
    lemma_awaiting(a.buffers.list@, generation);
    assert(files(b.buffers.list@) =~= files(a.buffers.list@));
}

/// No message of the work in the background opens or closes an endpoint, moves the
/// focus, or changes the mode: it never takes the keys from what has them.
pub proof fn law_messages_stay_in_the_background(a: App, b: App, msg: AppMsg, fx: Seq<Effect>)
    requires
        a.messaged(b, msg, fx),
    ensures
        same_files(a, b),
        b.panes == a.panes,
        b.mode == a.mode,
{
    reveal(App::messaged);
    match msg {
        AppMsg::Redraw => {},
        AppMsg::Response { generation, outcome, meta } => lemma_answer_keeps_files(
            a,
            b,
            generation,
            outcome,
            meta,
            fx,
        ),
        AppMsg::Highlighted { hash, lines } => {
            if a.buffers.loaded() {
                lemma_changed_keeps_files(a, b);
            }
        },
        AppMsg::SequenceStep { run_generation, index, outcome } => {
            reveal(App::step_lands);
        },
        AppMsg::LoadStarted { run_generation, index, now_ms } => {
            reveal(App::copy_starts);
        },
        AppMsg::LoadResult { run_generation, index, outcome, latency } => {
            reveal(App::copy_lands);
        },
    }
}

} // verus!
