//! Editing the open endpoint: its URL, its method, its rows and its body.

use edtui::EditorEventHandler;

use vstd::prelude::*;

use crate::app::{App, Effect, FilePickerOp};
use crate::body::{
    auth_of_kind, blank_auth, body_converted, body_text, convert_body, text_of_body, BodyTypeUi,
};
use crate::buffer::{lemma_updated_wf, Buffers, EndpointBuffer, SelectedEndpoint};
use crate::editor::{lf_lines, EditorMode, ModalEditor};
use crate::keymap::Action;
use crate::keys::{Key, KeyEvent};
use crate::line_editor::{LineEditor, LineView};
use crate::mode::{Mode, UrlEditMode};
use crate::model::{
    contents, AuthView, Body, BodyKind, BodyView, Endpoint, Method, Part, PartValue,
    PartValueView, Request, RequestView,
};
use crate::notice::Notice;
use crate::pane::{Pane, Panes};
use crate::paths::{
    absolute, below, is_absolute, join_path, parent, parsed, rendered, spec_parent,
};
use crate::picker::{Choices, Picker};
use crate::query::{
    find, law_query_follows_the_first_mark, merge, merge_query_params, merge_report, pair_texts,
    query_pairs, split_query, Merged,
};
use crate::request_pane::{
    active_tab_row_count, edit_view, handle_field_edit_key, row_add, row_delete, row_edit,
    row_toggle, EditView, RequestTab, RequestTabs, RowEdit,
};
use crate::settings::text_of;
use crate::text::{from_chars, texts, to_chars};

verus! {

/// A buffer whose request and tabs were edited, and nothing else of it.
pub open spec fn edited(b: EndpointBuffer, after: EndpointBuffer, e: EditView) -> bool {
    &&& after == (EndpointBuffer {
        endpoint: SelectedEndpoint {
            endpoint: Endpoint {
                request: after.endpoint.endpoint.request,
                ..b.endpoint.endpoint
            },
            ..b.endpoint
        },
        tabs: after.tabs,
        ..b
    })
    &&& edit_view(after.endpoint.endpoint.request, after.tabs) == e
}

/// The request and the tabs of a buffer.
pub open spec fn buffer_edit(b: EndpointBuffer) -> EditView {
    edit_view(b.endpoint.endpoint.request, b.tabs)
}

/// An edit of the rows of a request.
#[derive(Debug, Clone, Copy, PartialEq, Eq, Structural)]
pub enum RowOp {
    /// A row is added.
    Add,
    /// The selected row is deleted.
    Delete,
    /// The selected row is switched on or off.
    Toggle,
    /// The selected row is edited.
    Edit,
    /// A key while a field is edited.
    Key(KeyEvent),
}

/// The request and the tabs after an edit of the rows.
#[verifier::opaque]
pub open spec fn row_done(e: EditView, op: RowOp) -> EditView {
    match op {
        RowOp::Add => e.row_added(),
        RowOp::Delete => e.row_removed(e.tabs.selection()),
        RowOp::Toggle => e.row_toggled(),
        RowOp::Edit => e.row_edited(),
        RowOp::Key(key) => e.edit_keyed(key),
    }
}

fn do_row(b: &mut EndpointBuffer, op: RowOp) -> (pick_auth: bool)
    requires
        old(b).wf(),
    ensures
        edited(*old(b), *final(b), row_done(buffer_edit(*old(b)), op)),
        pick_auth == (op == RowOp::Edit && buffer_edit(*old(b)).on_auth_kind()),
        final(b).wf(),
{
    reveal(row_done);
    match op {
        RowOp::Add => {
            row_add(&mut b.endpoint.endpoint.request, &mut b.tabs);
            false
        },
        RowOp::Delete => {
            row_delete(&mut b.endpoint.endpoint.request, &mut b.tabs);
            false
        },
        RowOp::Toggle => {
            row_toggle(&mut b.endpoint.endpoint.request, &b.tabs);
            false
        },
        RowOp::Edit => row_edit(&mut b.endpoint.endpoint.request, &mut b.tabs)
            == RowEdit::PickAuthKind,
        RowOp::Key(key) => {
            handle_field_edit_key(&mut b.endpoint.endpoint.request, &mut b.tabs, key);
            false
        },
    }
}

fn do_row_open(buffers: &mut Buffers, op: RowOp) -> (pick_auth: bool)
    requires
        old(buffers).wf(),
        old(buffers).loaded(),
    ensures
        ({
            let b = old(buffers).current();
            let after = final(buffers).list@[old(buffers).active as int];
            &&& edited(b, after, row_done(buffer_edit(b), op))
            &&& final(buffers).list@ == old(buffers).list@.update(
                old(buffers).active as int,
                after,
            )
            &&& pick_auth == (op == RowOp::Edit && buffer_edit(b).on_auth_kind())
        }),
        final(buffers).active == old(buffers).active,
        final(buffers).wf(),
{
    let i = buffers.active;
    let ghost before = *buffers;
    let r = do_row(&mut buffers.list[i], op);
    proof {
        assert(buffers.list@ =~= before.list@.update(i as int, buffers.list@[i as int]));
        lemma_updated_wf(before, *buffers);
    }
    r
}

/// The endpoint's URL and parameters after a URL was committed: the query goes to
/// the parameters.
pub open spec fn url_committed(request: RequestView, url: Seq<char>) -> RequestView {
    RequestView {
        url: url.take(find(url, '?')),
        params: url_merge(request, url).rows,
        ..request
    }
}

/// How the query of a URL merges into the parameters.
pub open spec fn url_merge(request: RequestView, url: Seq<char>) -> Merged {
    let q = find(url, '?');
    merge(
        request.params,
        if q < url.len() {
            query_pairs(url.skip(q + 1))
        } else {
            Seq::empty()
        },
    )
}

/// A text without line breaks.
pub open spec fn one_line(s: Seq<char>) -> Seq<char>
    decreases s.len(),
{
    if s.len() == 0 {
        s
    } else if s.last() == '\n' || s.last() == '\r' {
        one_line(s.drop_last())
    } else {
        one_line(s.drop_last()).push(s.last())
    }
}

/// A text without line breaks.
pub fn single_line(s: &str) -> (r: String)
    ensures
        r@ == one_line(s@),
{
    let chars = to_chars(s);
    let mut out: Vec<char> = Vec::new();
    let mut i: usize = 0;
    assert(chars@.take(0) =~= Seq::empty());
    while i < chars.len()
        invariant
            i <= chars.len(),
            out@ == one_line(chars@.take(i as int)),
        decreases chars.len() - i,
    {
        assert(chars@.take(i + 1).drop_last() =~= chars@.take(i as int));
        if chars[i] != '\n' && chars[i] != '\r' {
            out.push(chars[i]);
        }
        i = i + 1;
    }
    assert(chars@.take(chars@.len() as int) =~= chars@);
    from_chars(&out)
}

impl App {
    /// The state after an edit of the rows of the open endpoint.
    pub open spec fn rows_changed(self, after: App, op: RowOp) -> bool {
        if self.buffers.loaded() {
            let b = self.buffers.current();
            let new = after.buffers.list@[self.buffers.active as int];
            &&& self.buffer_changed(after, new)
            &&& edited(b, new, row_done(buffer_edit(b), op))
        } else {
            after == self
        }
    }

    /// The state with the list of authorisation kinds open.
    pub open spec fn picks_auth(self, after: App) -> bool {
        &&& after.picker matches Some(p) && p.opened(auth_labels()) && p.choices
            == Choices::AuthKinds
        &&& after == (App { picker: after.picker, mode: Mode::Palette, ..self })
    }

    /// What an edit of the rows does; editing the kind of the authorisation opens
    /// the list of kinds.
    #[verifier::opaque]
    pub open spec fn edits_rows(self, after: App, op: RowOp) -> bool {
        if self.buffers.loaded() && op == RowOp::Edit && buffer_edit(
            self.buffers.current(),
        ).on_auth_kind() {
            exists|mid: App| #[trigger] self.rows_changed(mid, op) && mid.picks_auth(after)
        } else {
            self.rows_changed(after, op)
        }
    }

    /// Edits the rows of the open endpoint.
    pub fn edit_rows(&mut self, op: RowOp)
        requires
            old(self).wf(),
        ensures
            old(self).edits_rows(*final(self), op),
            final(self).wf(),
    {
        reveal(App::edits_rows);
        if self.buffers.active < self.buffers.list.len() {
            let pick_auth = do_row_open(&mut self.buffers, op);
            let ghost mid = *self;
            assert(old(self).rows_changed(mid, op));
            if pick_auth {
                self.open_auth_kind_picker();
            }
        }
    }

    /// Opens the list of authorisation kinds. Without an open endpoint nothing
    /// happens.
    pub fn open_auth_kind_picker(&mut self)
        requires
            old(self).wf(),
        ensures
            if old(self).buffers.loaded() {
                old(self).picks_auth(*final(self))
            } else {
                *final(self) == *old(self)
            },
            final(self).wf(),
    {
        if self.buffers.active >= self.buffers.list.len() {
            return;
        }
        let labels = vec![
            "None".to_owned(),
            "Basic".to_owned(),
            "Bearer".to_owned(),
            "ApiKey".to_owned(),
        ];
        assert(texts(labels@) =~= auth_labels());
        self.picker = Some(Picker::new(labels, Choices::AuthKinds));
        self.mode = Mode::Palette;
    }

    /// The buffer with another kind of authorisation, its fields empty.
    pub open spec fn auth_set(b: EndpointBuffer, after: EndpointBuffer, index: usize) -> bool {
        if index < 4 {
            &&& after.endpoint.endpoint@ == (crate::model::EndpointView {
                request: RequestView {
                    auth: auth_of_kind(b.endpoint.endpoint@.request.auth, index as nat),
                    ..b.endpoint.endpoint@.request
                },
                ..b.endpoint.endpoint@
            })
            &&& after == (EndpointBuffer {
                endpoint: SelectedEndpoint {
                    endpoint: Endpoint {
                        request: Request {
                            auth: after.endpoint.endpoint.request.auth,
                            ..b.endpoint.endpoint.request
                        },
                        ..b.endpoint.endpoint
                    },
                    ..b.endpoint
                },
                tabs: RequestTabs { auth_sel: 0, ..b.tabs },
                ..b
            })
        } else {
            after == b
        }
    }

    /// What picking a kind of authorisation does.
    pub open spec fn sets_auth(self, after: App, index: usize) -> bool {
        if self.buffers.loaded() {
            let new = after.buffers.list@[self.buffers.active as int];
            &&& self.buffer_changed(after, new)
            &&& App::auth_set(self.buffers.current(), new, index)
        } else {
            after == self
        }
    }

    /// Gives the open endpoint another kind of authorisation.
    pub fn set_auth_kind(&mut self, index: usize)
        requires
            old(self).wf(),
        ensures
            old(self).sets_auth(*final(self), index),
            final(self).wf(),
    {
        let i = self.buffers.active;
        if i >= self.buffers.list.len() {
            return;
        }
        if index < 4 {
            self.buffers.list[i].endpoint.endpoint.request.auth = blank_auth(index);
            self.buffers.list[i].tabs.auth_sel = 0;
        }
        proof {
            assert(self.buffers.list@ =~= old(self).buffers.list@.update(
                i as int,
                self.buffers.list@[i as int],
            ));
            lemma_updated_wf(old(self).buffers, self.buffers);
        }
    }

    /// What opening the list of body kinds does.
    pub open spec fn picks_body(self, after: App) -> bool {
        if self.buffers.loaded() {
            &&& after.picker matches Some(p) && p.opened(body_labels()) && p.choices
                == Choices::BodyTypes
            &&& after == (App { picker: after.picker, mode: Mode::Palette, ..self })
        } else {
            after == self
        }
    }

    /// Opens the list of body kinds.
    pub fn open_body_type_picker(&mut self)
        requires
            old(self).wf(),
        ensures
            old(self).picks_body(*final(self)),
            final(self).wf(),
    {
        if self.buffers.active >= self.buffers.list.len() {
            return;
        }
        let labels = vec![
            BodyTypeUi::Text.label().to_owned(),
            BodyTypeUi::Json.label().to_owned(),
            BodyTypeUi::Form.label().to_owned(),
            BodyTypeUi::Multipart.label().to_owned(),
        ];
        assert(texts(labels@) =~= body_labels());
        self.picker = Some(Picker::new(labels, Choices::BodyTypes));
        self.mode = Mode::Palette;
    }

    /// The buffer with another kind of body: what was typed goes with it where the
    /// kind has a text, and the editor holds the new body's text.
    pub open spec fn body_retyped(
        b: EndpointBuffer,
        after: EndpointBuffer,
        kind: BodyTypeUi,
    ) -> bool {
        let body = crate::body::body_folded(
            b.endpoint.endpoint@.request.body,
            b.editor.spec_text(),
        );
        if BodyTypeUi::spec_from_body(body) == kind {
            b.synced(after)
        } else {
            &&& after.endpoint.endpoint@.request.body == body_converted(body, kind)
            &&& after.editor.opened_over(body_text(body_converted(body, kind)))
            &&& after.editor.events == b.editor.events
            &&& after.editor.spec_text() == lf_lines(body_text(body_converted(body, kind)))
            &&& after.editor.spec_mode() == EditorMode::Normal
            &&& after == (EndpointBuffer {
                endpoint: SelectedEndpoint {
                    endpoint: Endpoint {
                        request: Request {
                            body: after.endpoint.endpoint.request.body,
                            ..b.endpoint.endpoint.request
                        },
                        ..b.endpoint.endpoint
                    },
                    ..b.endpoint
                },
                tabs: RequestTabs { parts_sel: 0, ..b.tabs },
                editor: after.editor,
                ..b
            })
        }
    }

    /// What picking a kind of body does.
    pub open spec fn sets_body(self, after: App, index: usize) -> bool {
        match BodyTypeUi::spec_at(index as nat) {
            Some(kind) if self.buffers.loaded() => {
                let new = after.buffers.list@[self.buffers.active as int];
                &&& self.buffer_changed(after, new)
                &&& App::body_retyped(self.buffers.current(), new, kind)
            },
            _ => after == self,
        }
    }

    /// Gives the open endpoint another kind of body.
    pub fn set_body_type(&mut self, index: usize)
        requires
            old(self).wf(),
        ensures
            old(self).sets_body(*final(self), index),
            final(self).wf(),
    {
        let kind = match BodyTypeUi::at(index) {
            Some(kind) => kind,
            None => {
                return;
            },
        };
        let i = self.buffers.active;
        if i >= self.buffers.list.len() {
            return;
        }
        retype(&mut self.buffers.list[i], kind);
        proof {
            assert(self.buffers.list@ =~= old(self).buffers.list@.update(
                i as int,
                self.buffers.list@[i as int],
            ));
            lemma_updated_wf(old(self).buffers, self.buffers);
        }
    }

    /// Whether the body of the open endpoint is made of parts.
    pub open spec fn spec_multipart(&self) -> bool {
        self.buffers.loaded() && (self.buffers.current().endpoint.endpoint.request.body matches
            Some(b) && b is Multipart)
    }

    /// Whether the body of the open endpoint is made of parts.
    pub fn body_is_multipart(&self) -> (r: bool)
        ensures
            r == self.spec_multipart(),
    {
        match self.live_request() {
            Some(q) => match &q.body {
                Some(Body::Multipart(_)) => true,
                _ => false,
            },
            None => false,
        }
    }

    /// The part of the open endpoint's body at an index.
    pub open spec fn part_at(&self, index: int) -> Option<Part> {
        if self.buffers.loaded() {
            match self.buffers.current().endpoint.endpoint.request.body {
                Some(Body::Multipart(parts)) => if 0 <= index < parts@.len() {
                    Some(parts@[index])
                } else {
                    None
                },
                _ => None,
            }
        } else {
            None
        }
    }

    /// Whether a row of the body tab is a part that is a file; the row before the
    /// parts is the kind of the body.
    pub fn body_part_is_file(&self, row: usize) -> (r: bool)
        ensures
            r == (self.part_at(row - 1) matches Some(p) && p.value is File),
    {
        if row == 0 {
            return false;
        }
        match self.live_request() {
            Some(q) => match &q.body {
                Some(Body::Multipart(parts)) => if row - 1 < parts.len() {
                    match &parts[row - 1].value {
                        PartValue::File { .. } => true,
                        _ => false,
                    }
                } else {
                    false
                },
                _ => false,
            },
            None => false,
        }
    }

    /// The directory that the file picker starts in: that of the part's file, or
    /// the root.
    pub open spec fn picker_dir(&self, root: Seq<char>, part: usize) -> Seq<char> {
        match self.part_at(part as int) {
            Some(p) => match p.value {
                PartValue::File { path, filename, mime } => {
                    let file = if absolute(path@) {
                        path@
                    } else {
                        rendered(below(parsed(root), parsed(path@)))
                    };
                    match spec_parent(parsed(file)) {
                        Some(dir) if path@.len() > 0 => rendered(dir),
                        _ => root,
                    }
                },
                _ => root,
            },
            None => root,
        }
    }

    /// What opening the file picker for a part does.
    pub open spec fn opens_files(self, after: App, part: usize, fx: Seq<Effect>) -> bool {
        match self.workspace {
            None => after == self.told(Notice::NoWorkspaceToBrowse) && fx.len() == 0,
            Some(ws) => {
                &&& after == (App { mode: Mode::FilePicker, file_part: part, ..self })
                &&& fx.len() == 1
                &&& fx[0] matches Effect::OpenFilePicker { root, start_dir, part: p } && root
                    == ws.root && p == part && start_dir@ == self.picker_dir(ws.root@, part)
            },
        }
    }

    /// Opens the file picker for a part of the body.
    pub fn open_file_picker(&mut self, part: usize) -> (fx: Vec<Effect>)
        requires
            old(self).wf(),
        ensures
            old(self).opens_files(*final(self), part, fx@),
            final(self).wf(),
    {
        let root = match &self.workspace {
            Some(ws) => ws.root.clone(),
            None => {
                self.message = Some(Notice::NoWorkspaceToBrowse);
                return Vec::new();
            },
        };
        let start_dir = self.start_dir(root.as_str(), part);
        self.file_part = part;
        self.mode = Mode::FilePicker;
        vec![Effect::OpenFilePicker { root, start_dir, part }]
    }

    fn start_dir(&self, root: &str, part: usize) -> (r: String)
        ensures
            r@ == self.picker_dir(root@, part),
    {
        if let Some(q) = self.live_request() {
            if let Some(Body::Multipart(parts)) = &q.body {
                if part < parts.len() {
                    if let PartValue::File { path, .. } = &parts[part].value {
                        if !path.as_str().is_empty() {
                            let file = if is_absolute(path.as_str()) {
                                path.clone()
                            } else {
                                join_path(root, path.as_str())
                            };
                            if let Some(dir) = parent(file.as_str()) {
                                return dir;
                            }
                        }
                    }
                }
            }
        }
        root.to_owned()
    }

    /// What a key does in the file picker.
    pub open spec fn files_keyed(self, after: App, key: KeyEvent, fx: Seq<Effect>) -> bool {
        match files_key(key) {
            Some(op) => after == self && fx == seq![Effect::FilePicker(op)],
            None => fx.len() == 0 && after == (if key.code == Key::Esc {
                self.in_mode(Mode::Normal)
            } else {
                self
            }),
        }
    }

    /// Handles a key in the file picker.
    pub fn handle_file_picker_key(&mut self, key: KeyEvent) -> (fx: Vec<Effect>)
        requires
            old(self).wf(),
        ensures
            old(self).files_keyed(*final(self), key, fx@),
            final(self).wf(),
    {
        let op = match key.code {
            Key::Esc => {
                self.mode = Mode::Normal;
                return Vec::new();
            },
            Key::Up => FilePickerOp::Up,
            Key::Down => FilePickerOp::Down,
            Key::Left | Key::Backspace => FilePickerOp::Parent,
            Key::Enter | Key::Right => FilePickerOp::Accept,
            Key::Char(c) => if c == 'k' {
                FilePickerOp::Up
            } else if c == 'j' {
                FilePickerOp::Down
            } else if c == 'h' || c == '-' {
                FilePickerOp::Parent
            } else if c == 'l' {
                FilePickerOp::Accept
            } else {
                return Vec::new();
            },
            _ => {
                return Vec::new();
            },
        };
        let fx = vec![Effect::FilePicker(op)];
        assert(fx@ =~= seq![Effect::FilePicker(op)]);
        fx
    }

    /// The body with a part that is a file.
    pub open spec fn part_filed(body: Option<BodyView>, part: usize, path: Seq<char>) -> Option<
        BodyView,
    > {
        match body {
            Some(BodyView::Multipart(parts)) => if part < parts.len() {
                Some(
                    BodyView::Multipart(
                        parts.update(
                            part as int,
                            crate::model::PartView {
                                value: PartValueView::File { path, filename: None, mime: None },
                                ..parts[part as int]
                            },
                        ),
                    ),
                )
            } else {
                body
            },
            _ => body,
        }
    }

    /// What a file that was picked does: the picker closes, and the part is that
    /// file.
    pub open spec fn takes_file(self, after: App, path: Seq<char>) -> bool {
        if self.buffers.loaded() {
            let b = self.buffers.current();
            let new = after.buffers.list@[self.buffers.active as int];
            &&& self.in_mode(Mode::Normal).buffer_changed(after, new)
            &&& new.endpoint.endpoint@.request.body == App::part_filed(
                b.endpoint.endpoint@.request.body,
                self.file_part,
                path,
            )
            &&& new == (EndpointBuffer {
                endpoint: SelectedEndpoint {
                    endpoint: Endpoint {
                        request: Request {
                            body: new.endpoint.endpoint.request.body,
                            ..b.endpoint.endpoint.request
                        },
                        ..b.endpoint.endpoint
                    },
                    ..b.endpoint
                },
                ..b
            })
        } else {
            after == self.in_mode(Mode::Normal)
        }
    }

    /// Takes the file that was picked for a part.
    pub fn accept_file_picker_entry(&mut self, stored: String)
        requires
            old(self).wf(),
        ensures
            old(self).takes_file(*final(self), stored@),
            final(self).wf(),
    {
        self.mode = Mode::Normal;
        let part = self.file_part;
        let i = self.buffers.active;
        if i < self.buffers.list.len() {
            file_part(&mut self.buffers.list[i].endpoint.endpoint.request, part, stored);
            proof {
                assert(self.buffers.list@ =~= old(self).buffers.list@.update(
                    i as int,
                    self.buffers.list@[i as int],
                ));
                lemma_updated_wf(old(self).buffers, self.buffers);
            }
        }
    }
}

/// The labels of the authorisation kinds.
pub open spec fn auth_labels() -> Seq<Seq<char>> {
    seq!["None"@, "Basic"@, "Bearer"@, "ApiKey"@]
}

/// The labels of the body kinds.
pub open spec fn body_labels() -> Seq<Seq<char>> {
    seq![
        BodyTypeUi::Text.spec_label(),
        BodyTypeUi::Json.spec_label(),
        BodyTypeUi::Form.spec_label(),
        BodyTypeUi::Multipart.spec_label(),
    ]
}

/// What a key is in the file picker, if it is for it.
pub open spec fn files_key(key: KeyEvent) -> Option<FilePickerOp> {
    match key.code {
        Key::Up => Some(FilePickerOp::Up),
        Key::Down => Some(FilePickerOp::Down),
        Key::Left | Key::Backspace => Some(FilePickerOp::Parent),
        Key::Enter | Key::Right => Some(FilePickerOp::Accept),
        Key::Char(c) => if c == 'k' {
            Some(FilePickerOp::Up)
        } else if c == 'j' {
            Some(FilePickerOp::Down)
        } else if c == 'h' || c == '-' {
            Some(FilePickerOp::Parent)
        } else if c == 'l' {
            Some(FilePickerOp::Accept)
        } else {
            None
        },
        _ => None,
    }
}

fn retype(b: &mut EndpointBuffer, kind: BodyTypeUi)
    requires
        old(b).wf(),
    ensures
        App::body_retyped(*old(b), *final(b), kind),
        final(b).wf(),
{
    b.sync_body();
    if !convert_body(&mut b.endpoint.endpoint.request, kind) {
        return;
    }
    b.tabs.parts_sel = 0;
    let text = text_of_body(&b.endpoint.endpoint.request.body);
    b.editor.restart(text.as_str());
}

fn open_popup(b: &mut EndpointBuffer)
    requires
        old(b).wf(),
    ensures
        App::popup_opened(*old(b), *final(b)),
        final(b).wf(),
{
    let kept = match b.url_popup.take() {
        Some(popup) => Some(popup.events),
        None => b.popup_events.take(),
    };
    b.popup_events = None;
    b.url_editor = None;
    let popup = match kept {
        Some(events) => {
            ModalEditor::with_events(b.endpoint.endpoint.request.url.as_str(), events)
        },
        None => ModalEditor::new(b.endpoint.endpoint.request.url.as_str()),
    };
    b.url_popup = Some(popup);
}

fn file_part(request: &mut Request, part: usize, path: String)
    ensures
        final(request)@.body == App::part_filed(old(request)@.body, part, path@),
        *final(request) == (Request { body: final(request).body, ..*old(request) }),
{
    if let Some(Body::Multipart(parts)) = &mut request.body {
        if part < parts.len() {
            let ghost before = parts@;
            parts[part].value = PartValue::File { path, filename: None, mime: None };
            proof {
                assert(contents(parts@) =~= contents(before).update(
                    part as int,
                    parts@[part as int]@,
                ));
            }
        }
    }
}

/// A buffer whose URL was committed: the query of it goes to the parameters.
pub open spec fn url_set(b: EndpointBuffer, after: EndpointBuffer, url: Seq<char>) -> bool {
    &&& after.endpoint.endpoint.request@ == url_committed(b.endpoint.endpoint.request@, url)
    &&& after == (EndpointBuffer {
        endpoint: SelectedEndpoint {
            endpoint: Endpoint {
                request: Request {
                    url: after.endpoint.endpoint.request.url,
                    params: after.endpoint.endpoint.request.params,
                    ..b.endpoint.endpoint.request
                },
                ..b.endpoint.endpoint
            },
            ..b.endpoint
        },
        ..b
    })
}

fn set_url(b: &mut EndpointBuffer, url: &str) -> (r: Option<String>)
    requires
        old(b).wf(),
    ensures
        url_set(*old(b), *final(b), url@),
        text_of(r) == merge_report(url_merge(old(b).endpoint.endpoint.request@, url@)),
        final(b).wf(),
{
    let (base, pairs) = split_query(url);
    assert(find(url@, '?') >= url@.len() ==> pair_texts(pairs@) =~= Seq::empty());
    b.endpoint.endpoint.request.url = base;
    merge_query_params(&mut b.endpoint.endpoint.request.params, &pairs)
}

impl App {
    /// What editing the URL in the bar does.
    pub open spec fn edits_url_inline(self, after: App) -> bool {
        if !self.buffers.loaded() {
            after == self.told(Notice::NoEndpointSelected)
        } else {
            let b = self.buffers.current();
            let new = after.buffers.list@[self.buffers.active as int];
            &&& self.focused(Pane::UrlBar).buffer_changed(after, new)
            &&& new.url_editor matches Some(e) && e@ == LineView::seeded(
                b.endpoint.endpoint.request.url@,
            )
            &&& new == (EndpointBuffer { url_editor: new.url_editor, ..b })
        }
    }

    /// Opens the editor of the URL in the bar.
    pub fn begin_url_edit_inline(&mut self)
        requires
            old(self).wf(),
        ensures
            old(self).edits_url_inline(*final(self)),
            final(self).wf(),
    {
        let i = self.buffers.active;
        if i >= self.buffers.list.len() {
            self.message = Some(Notice::NoEndpointSelected);
            return;
        }
        self.set_focus(Pane::UrlBar);
        let editor = LineEditor::new(self.buffers.list[i].endpoint.endpoint.request.url.as_str());
        self.buffers.list[i].url_editor = Some(editor);
        proof {
            assert(self.buffers.list@ =~= old(self).buffers.list@.update(
                i as int,
                self.buffers.list@[i as int],
            ));
            lemma_updated_wf(old(self).buffers, self.buffers);
        }
    }

    /// What editing the URL in the popup does.
    pub open spec fn edits_url_popup(self, after: App) -> bool {
        if !self.buffers.loaded() {
            after == self.told(Notice::NoEndpointSelected)
        } else {
            let b = self.buffers.current();
            let new = after.buffers.list@[self.buffers.active as int];
            &&& self.focused(Pane::UrlBar).buffer_changed(after, new)
            &&& App::popup_opened(b, new)
        }
    }

    /// Opens the editor of the URL in the popup.
    pub fn begin_url_popup(&mut self)
        requires
            old(self).wf(),
        ensures
            old(self).edits_url_popup(*final(self)),
            final(self).wf(),
    {
        let i = self.buffers.active;
        if i >= self.buffers.list.len() {
            self.message = Some(Notice::NoEndpointSelected);
            return;
        }
        self.set_focus(Pane::UrlBar);
        open_popup(&mut self.buffers.list[i]);
        proof {
            assert(self.buffers.list@ =~= old(self).buffers.list@.update(
                i as int,
                self.buffers.list@[i as int],
            ));
            lemma_updated_wf(old(self).buffers, self.buffers);
        }
    }

    /// What editing the URL does: in the bar or in the popup, as it is set.
    #[verifier::opaque]
    pub open spec fn edits_url(self, after: App) -> bool {
        match self.settings.url_edit {
            UrlEditMode::Inline => self.edits_url_inline(after),
            UrlEditMode::Popup => self.edits_url_popup(after),
        }
    }

    /// Edits the URL.
    pub fn begin_url_edit(&mut self)
        requires
            old(self).wf(),
        ensures
            old(self).edits_url(*final(self)),
            final(self).wf(),
    {
        reveal(App::edits_url);
        match self.settings.url_edit {
            UrlEditMode::Inline => self.begin_url_edit_inline(),
            UrlEditMode::Popup => self.begin_url_popup(),
        }
    }

    /// What committing a URL does: its query goes to the parameters, which is said
    /// where it changed any. Without an open endpoint nothing happens.
    pub open spec fn commits_url(self, after: App, url: Seq<char>) -> bool {
        if !self.buffers.loaded() {
            after == self
        } else {
            let b = self.buffers.current();
            let new = after.buffers.list@[self.buffers.active as int];
            &&& App { message: after.message, ..self }.buffer_changed(after, new)
            &&& url_set(b, new, url)
            &&& match merge_report(url_merge(b.endpoint.endpoint.request@, url)) {
                Some(t) => after.message matches Some(Notice::Params { report }) && report@ == t,
                None => after.message == self.message,
            }
        }
    }

    /// Commits a URL.
    pub fn commit_url(&mut self, url: &str)
        requires
            old(self).wf(),
        ensures
            old(self).commits_url(*final(self), url@),
            final(self).wf(),
    {
        let i = self.buffers.active;
        if i >= self.buffers.list.len() {
            return;
        }
        let report = set_url(&mut self.buffers.list[i], url);
        if let Some(report) = report {
            self.message = Some(Notice::Params { report });
        }
        proof {
            assert(self.buffers.list@ =~= old(self).buffers.list@.update(
                i as int,
                self.buffers.list@[i as int],
            ));
            lemma_updated_wf(old(self).buffers, self.buffers);
        }
    }

    /// The state with the editor of the URL in the bar closed.
    pub open spec fn url_editor_closed(self, after: App) -> bool {
        if self.buffers.loaded() {
            self.buffer_changed(
                after,
                EndpointBuffer { url_editor: None, ..self.buffers.current() },
            )
        } else {
            after == self
        }
    }

    /// What a key does while the URL is edited in the bar: Enter commits, Esc leaves
    /// the URL as it was, and every other key types.
    #[verifier::opaque]
    pub open spec fn url_keyed(self, after: App, key: KeyEvent) -> bool {
        if !self.spec_url_editing() {
            after == self
        } else {
            let b = self.buffers.current();
            match key.code {
                Key::Enter => exists|mid: App| #[trigger] self.url_editor_closed(mid)
                    && mid.commits_url(after, b.url_editor->0@.text),
                Key::Esc => self.url_editor_closed(after),
                _ => {
                    let new = after.buffers.list@[self.buffers.active as int];
                    &&& self.buffer_changed(after, new)
                    &&& new.url_editor matches Some(e) && e@ == b.url_editor->0@.keyed(key)
                    &&& new == (EndpointBuffer { url_editor: new.url_editor, ..b })
                },
            }
        }
    }

    /// Handles a key while the URL is edited in the bar.
    pub fn handle_url_edit_key(&mut self, key: KeyEvent)
        requires
            old(self).wf(),
        ensures
            old(self).url_keyed(*final(self), key),
            final(self).wf(),
    {
        reveal(App::url_keyed);
        if !self.url_editor_active() {
            return;
        }
        let i = self.buffers.active;
        match key.code {
            Key::Enter => {
                let taken = self.buffers.list[i].url_editor.take();
                proof {
                    assert(self.buffers.list@ =~= old(self).buffers.list@.update(
                        i as int,
                        self.buffers.list@[i as int],
                    ));
                    lemma_updated_wf(old(self).buffers, self.buffers);
                }
                let ghost mid = *self;
                assert(old(self).url_editor_closed(mid));
                if let Some(editor) = taken {
                    let text = editor.text();
                    self.commit_url(text.as_str());
                }
            },
            Key::Esc => {
                self.buffers.list[i].url_editor = None;
                proof {
                    assert(self.buffers.list@ =~= old(self).buffers.list@.update(
                        i as int,
                        self.buffers.list@[i as int],
                    ));
                    lemma_updated_wf(old(self).buffers, self.buffers);
                }
            },
            _ => {
                if let Some(editor) = self.buffers.list[i].url_editor.as_mut() {
                    editor.handle_key(key);
                }
                proof {
                    assert(self.buffers.list@ =~= old(self).buffers.list@.update(
                        i as int,
                        self.buffers.list@[i as int],
                    ));
                    lemma_updated_wf(old(self).buffers, self.buffers);
                }
            },
        }
    }

    /// The buffer with the popup open over its URL. The popup goes on with the key handler
    /// that it had before, if it had one.
    pub open spec fn popup_opened(b: EndpointBuffer, after: EndpointBuffer) -> bool {
        let url = b.endpoint.endpoint.request.url@;
        &&& after.url_popup matches Some(e) && e.opened_over(url) && e.spec_text() == lf_lines(url)
            && e.spec_mode() == EditorMode::Normal && match App::kept_events(b) {
            Some(events) => e.events == events,
            None => e.idle(),
        }
        &&& after == (EndpointBuffer {
            url_editor: None,
            url_popup: after.url_popup,
            popup_events: None,
            ..b
        })
    }

    /// The key handler that a popup over the buffer goes on with, if it had one before.
    pub open spec fn kept_events(b: EndpointBuffer) -> Option<EditorEventHandler> {
        match b.url_popup {
            Some(popup) => Some(popup.events),
            None => b.popup_events,
        }
    }

    /// The state with the popup closed; its key handler is kept.
    pub open spec fn popup_closed(self, after: App) -> bool {
        let b = self.buffers.current();
        self.buffer_changed(
            after,
            EndpointBuffer { url_popup: None, popup_events: App::kept_events(b), ..b },
        )
    }

    /// The state after the popup's editor got a key: nothing else changed.
    pub open spec fn popup_fed(self, after: App, key: KeyEvent) -> bool {
        let b = self.buffers.current();
        let new = after.buffers.list@[self.buffers.active as int];
        &&& self.buffer_changed(after, new)
        &&& new.url_popup is Some
        &&& b.url_popup->0.keyed(new.url_popup->0, key)
        &&& new == (EndpointBuffer { url_popup: new.url_popup, ..b })
    }

    /// Whether a key in the popup is first offered to the motions: it is not while
    /// the editor searches, types or selects, and Enter never is.
    pub open spec fn offers_popup_motion(&self, key: KeyEvent) -> bool {
        self.spec_popup() && self.buffers.current().url_popup->0.spec_mode() == EditorMode::Normal
            && key.code != Key::Enter
    }

    /// What a key does in the popup. While the editor searches, the editor gets
    /// every key. Else Enter commits the text as one line; then the motions, where
    /// they take the key; then Esc closes the popup where the editor is in its
    /// normal mode; and the editor gets every other key.
    #[verifier::opaque]
    pub open spec fn popup_keyed(self, after: App, key: KeyEvent, motion: bool) -> bool {
        if !self.spec_popup() {
            after == self
        } else {
            let popup = self.buffers.current().url_popup->0;
            if popup.spec_mode() == EditorMode::Search {
                self.popup_fed(after, key)
            } else if key.code == Key::Enter {
                exists|mid: App| #[trigger] self.popup_closed(mid) && mid.commits_url(
                    after,
                    one_line(popup.spec_text()),
                )
            } else if popup.spec_mode() == EditorMode::Normal && motion {
                after == self
            } else if popup.spec_mode() == EditorMode::Normal && key.code == Key::Esc {
                self.popup_closed(after)
            } else {
                self.popup_fed(after, key)
            }
        }
    }

    /// Handles a key in the popup; `motion` is whether a motion took the key, where
    /// it was offered to the motions.
    pub fn handle_url_popup_key(&mut self, key: KeyEvent, motion: bool)
        requires
            old(self).wf(),
        ensures
            old(self).popup_keyed(*final(self), key, motion),
            final(self).wf(),
    {
        reveal(App::popup_keyed);
        if !self.url_popup_active() {
            return;
        }
        let i = self.buffers.active;
        let mode = match &self.buffers.list[i].url_popup {
            Some(e) => e.mode(),
            None => EditorMode::Normal,
        };
        if mode == EditorMode::Search {
            self.feed_popup(key);
            return;
        }
        if key.code == Key::Enter {
            let mut text = String::new();
            if let Some(editor) = self.buffers.list[i].url_popup.take() {
                text = single_line(editor.text().as_str());
                self.buffers.list[i].popup_events = Some(editor.events);
            }
            proof {
                assert(self.buffers.list@ =~= old(self).buffers.list@.update(
                    i as int,
                    self.buffers.list@[i as int],
                ));
                lemma_updated_wf(old(self).buffers, self.buffers);
            }
            let ghost mid = *self;
            assert(old(self).popup_closed(mid));
            self.commit_url(text.as_str());
            return;
        }
        if mode == EditorMode::Normal && motion {
            return;
        }
        if mode == EditorMode::Normal && key.code == Key::Esc {
            if let Some(editor) = self.buffers.list[i].url_popup.take() {
                self.buffers.list[i].popup_events = Some(editor.events);
            }
            proof {
                assert(self.buffers.list@ =~= old(self).buffers.list@.update(
                    i as int,
                    self.buffers.list@[i as int],
                ));
                lemma_updated_wf(old(self).buffers, self.buffers);
            }
            return;
        }
        self.feed_popup(key);
    }

    fn feed_popup(&mut self, key: KeyEvent)
        requires
            old(self).wf(),
            old(self).spec_popup(),
        ensures
            old(self).popup_fed(*final(self), key),
            final(self).wf(),
    {
        let i = self.buffers.active;
        if let Some(editor) = self.buffers.list[i].url_popup.as_mut() {
            editor.handle_key(key);
        }
        proof {
            assert(self.buffers.list@ =~= old(self).buffers.list@.update(
                i as int,
                self.buffers.list@[i as int],
            ));
            lemma_updated_wf(old(self).buffers, self.buffers);
        }
    }

    /// The state after the body's editor got a key: nothing else changed. Without
    /// an open endpoint nothing happens.
    #[verifier::opaque]
    pub open spec fn body_fed(self, after: App, key: KeyEvent) -> bool {
        if self.buffers.loaded() {
            let b = self.buffers.current();
            let new = after.buffers.list@[self.buffers.active as int];
            &&& self.buffer_changed(after, new)
            &&& b.editor.keyed(new.editor, key)
            &&& new == (EndpointBuffer { editor: new.editor, ..b })
        } else {
            after == self
        }
    }

    /// Hands a key to the body's editor.
    pub fn body_editor_on_key(&mut self, key: KeyEvent)
        requires
            old(self).wf(),
        ensures
            old(self).body_fed(*final(self), key),
            final(self).wf(),
    {
        reveal(App::body_fed);
        let i = self.buffers.active;
        if i < self.buffers.list.len() {
            self.buffers.list[i].editor.handle_key(key);
            proof {
                assert(self.buffers.list@ =~= old(self).buffers.list@.update(
                    i as int,
                    self.buffers.list@[i as int],
                ));
                lemma_updated_wf(old(self).buffers, self.buffers);
            }
        }
    }

    /// The open buffer with another method.
    pub open spec fn with_method(b: EndpointBuffer, method: Method) -> EndpointBuffer {
        EndpointBuffer {
            endpoint: SelectedEndpoint {
                endpoint: Endpoint {
                    request: Request { method, ..b.endpoint.endpoint.request },
                    ..b.endpoint.endpoint
                },
                ..b.endpoint
            },
            ..b
        }
    }

    /// What cycling the method does.
    pub open spec fn cycles_method(self, after: App) -> bool {
        if self.buffers.loaded() {
            let b = self.buffers.current();
            self.buffer_changed(
                after,
                App::with_method(b, b.endpoint.endpoint.request.method.spec_cycle()),
            )
        } else {
            after == self.told(Notice::NoEndpointSelected)
        }
    }

    /// Goes on to the next method.
    pub fn cycle_method(&mut self)
        requires
            old(self).wf(),
        ensures
            old(self).cycles_method(*final(self)),
            final(self).wf(),
    {
        let i = self.buffers.active;
        if i < self.buffers.list.len() {
            let m = self.buffers.list[i].endpoint.endpoint.request.method;
            self.buffers.list[i].endpoint.endpoint.request.method = m.cycle();
            proof {
                assert(self.buffers.list@ =~= old(self).buffers.list@.update(
                    i as int,
                    self.buffers.list@[i as int],
                ));
                lemma_updated_wf(old(self).buffers, self.buffers);
            }
        } else {
            self.message = Some(Notice::NoEndpointSelected);
        }
    }

    /// What opening the method menu does.
    pub open spec fn opens_methods(self) -> App {
        if self.buffers.loaded() {
            App {
                panes: Panes { focus: Pane::UrlBar, ..self.panes },
                mode: Mode::MethodMenu,
                ..self
            }
        } else {
            self.told(Notice::NoEndpointSelected)
        }
    }

    /// Opens the method menu.
    pub fn open_method_menu(&mut self)
        ensures
            *final(self) == old(self).opens_methods(),
            old(self).wf() ==> final(self).wf(),
    {
        if self.buffers.active >= self.buffers.list.len() {
            self.message = Some(Notice::NoEndpointSelected);
            return;
        }
        self.panes.focus = Pane::UrlBar;
        self.mode = Mode::MethodMenu;
    }

    /// What a key does in the method menu: Esc closes it, a character that stands
    /// for a method sets it and closes the menu, and any other key does nothing.
    #[verifier::opaque]
    pub open spec fn method_keyed(self, after: App, key: KeyEvent, method: Option<Method>) -> bool {
        if key.code == Key::Esc {
            after == self.in_mode(Mode::Normal)
        } else {
            match method {
                Some(m) if key.code is Char && self.buffers.loaded() => self.in_mode(
                    Mode::Normal,
                ).buffer_changed(after, App::with_method(self.buffers.current(), m)),
                _ => after == self,
            }
        }
    }

    /// Handles a key in the method menu; `method` is the method that the character
    /// stands for.
    pub fn handle_method_menu_key(&mut self, key: KeyEvent, method: Option<Method>)
        requires
            old(self).wf(),
        ensures
            old(self).method_keyed(*final(self), key, method),
            final(self).wf(),
    {
        reveal(App::method_keyed);
        if key.code == Key::Esc {
            self.mode = Mode::Normal;
            return;
        }
        let typed = match key.code {
            Key::Char(_) => true,
            _ => false,
        };
        let i = self.buffers.active;
        if let Some(m) = method {
            if typed && i < self.buffers.list.len() {
                self.buffers.list[i].endpoint.endpoint.request.method = m;
                self.mode = Mode::Normal;
                proof {
                    assert(self.buffers.list@ =~= old(self).buffers.list@.update(
                        i as int,
                        self.buffers.list@[i as int],
                    ));
                    lemma_updated_wf(old(self).buffers, self.buffers);
                }
            }
        }
    }

    /// The state with the tabs of the open endpoint changed, and nothing else.
    pub open spec fn tabs_changed(self, after: App, tabs: crate::request_pane::TabsView) -> bool {
        if self.buffers.loaded() {
            let b = self.buffers.current();
            let new = after.buffers.list@[self.buffers.active as int];
            &&& self.buffer_changed(after, new)
            &&& new.tabs@ == tabs
            &&& new.tabs.editing == b.tabs.editing
            &&& new == (EndpointBuffer { tabs: new.tabs, ..b })
        } else {
            after == self
        }
    }

    /// The tabs after an action on them.
    pub open spec fn tabs_after(&self, op: TabOp) -> crate::request_pane::TabsView {
        let t = self.buffers.current().tabs@;
        match op {
            TabOp::Next => t.on_tab(crate::request_pane::tab_after(t.active)),
            TabOp::Prev => t.on_tab(crate::request_pane::tab_before(t.active)),
            TabOp::To(tab) => t.on_tab(tab),
            TabOp::Up => t.selecting(
                if t.selection() > 0 {
                    (t.selection() - 1) as nat
                } else {
                    0
                },
            ),
            TabOp::Down => t.selecting(
                crate::request_pane::clamped(
                    t.selection() + 1,
                    buffer_edit(self.buffers.current()).row_count(),
                ),
            ),
        }
    }

    /// Switches the tab, or moves the selected row.
    pub fn move_tabs(&mut self, op: TabOp)
        requires
            old(self).wf(),
        ensures
            old(self).tabs_changed(*final(self), old(self).tabs_after(op)),
            final(self).wf(),
    {
        let i = self.buffers.active;
        if i < self.buffers.list.len() {
            let rows = active_tab_row_count(
                &self.buffers.list[i].endpoint.endpoint.request,
                &self.buffers.list[i].tabs,
            );
            match op {
                TabOp::Next => {
                    self.buffers.list[i].tabs.tab_next();
                },
                TabOp::Prev => {
                    self.buffers.list[i].tabs.tab_prev();
                },
                TabOp::To(tab) => {
                    self.buffers.list[i].tabs.tab_jump(tab);
                },
                TabOp::Up => {
                    self.buffers.list[i].tabs.move_up();
                },
                TabOp::Down => {
                    self.buffers.list[i].tabs.move_down(rows);
                },
            }
            proof {
                assert(self.buffers.list@ =~= old(self).buffers.list@.update(
                    i as int,
                    self.buffers.list@[i as int],
                ));
                lemma_updated_wf(old(self).buffers, self.buffers);
            }
        }
    }

    /// Whether the body is shown in its editor: a body that is made of parts is shown
    /// as rows.
    pub open spec fn spec_body_text(&self) -> bool {
        self.spec_tab() == RequestTab::Body && !self.spec_multipart()
    }

    /// Whether the body is shown in its editor.
    pub fn body_text_active(&self) -> (r: bool)
        ensures
            r == self.spec_body_text(),
    {
        self.active_tab() == RequestTab::Body && !self.body_is_multipart()
    }

    /// What a navigation action does in the request pane: where the body is shown in
    /// its editor the key is the editor's; else the selected row moves, or is edited.
    #[verifier::opaque]
    pub open spec fn navigates_request(
        self,
        after: App,
        action: Action,
        key: Option<KeyEvent>,
    ) -> bool {
        if self.spec_body_text() {
            match key {
                Some(key) => self.body_fed(after, key),
                None => after == self,
            }
        } else {
            match action {
                Action::Up => self.tabs_changed(after, self.tabs_after(TabOp::Up)),
                Action::Down => self.tabs_changed(after, self.tabs_after(TabOp::Down)),
                Action::Select => self.edits_rows(after, RowOp::Edit),
                _ => after == self,
            }
        }
    }

    /// Handles a navigation action in the request pane.
    pub fn request_nav(&mut self, action: Action, key: Option<KeyEvent>)
        requires
            old(self).wf(),
        ensures
            old(self).navigates_request(*final(self), action, key),
            final(self).wf(),
    {
        reveal(App::navigates_request);
        if self.body_text_active() {
            if let Some(key) = key {
                self.body_editor_on_key(key);
            }
            return;
        }
        match action {
            Action::Up => self.move_tabs(TabOp::Up),
            Action::Down => self.move_tabs(TabOp::Down),
            Action::Select => self.edit_rows(RowOp::Edit),
            _ => {},
        }
    }
}

/// An action on the tabs of the request pane.
#[derive(Debug, Clone, Copy, PartialEq, Eq, Structural)]
pub enum TabOp {
    /// The next tab is shown.
    Next,
    /// The previous tab is shown.
    Prev,
    /// A tab is shown.
    To(RequestTab),
    /// The row above is selected.
    Up,
    /// The row below is selected.
    Down,
}

/// A committed URL has no query, and no line break where it was typed in the
/// popup.
pub proof fn law_committed_url_is_bare(a: App, b: App, url: Seq<char>)
    requires
        a.buffers.loaded(),
        a.commits_url(b, url),
    ensures
        !b.buffers.list@[a.buffers.active as int].endpoint.endpoint.request@.url.contains('?'),
{
    crate::query::lemma_find(url, '?');
    let new = b.buffers.list@[a.buffers.active as int].endpoint.endpoint.request@.url;
    if new.contains('?') {
        let k = choose|k: int| 0 <= k < new.len() && new[k] == '?';
        assert(new[k] == url[k]);
    }
}

proof fn lemma_one_line(s: Seq<char>, i: int)
    requires
        0 <= i < one_line(s).len(),
    ensures
        one_line(s)[i] != '\n',
        one_line(s)[i] != '\r',
    decreases s.len(),
{
    if s.len() > 0 {
        if s.last() == '\n' || s.last() == '\r' {
            lemma_one_line(s.drop_last(), i);
        } else if i < one_line(s.drop_last()).len() {
            lemma_one_line(s.drop_last(), i);
        }
    }
}

/// The text of the popup goes into one line, and a text of one line goes in as it
/// is.
pub proof fn law_popup_text_is_one_line(s: Seq<char>, i: int)
    requires
        0 <= i < one_line(s).len(),
    ensures
        one_line(s)[i] != '\n',
        one_line(s)[i] != '\r',
{
    lemma_one_line(s, i);
}

/// Esc in the popup, where no motion takes it and the editor is in its normal mode,
/// leaves the endpoint as it was.
pub proof fn law_popup_esc_keeps_the_endpoint(a: App, b: App, key: KeyEvent)
    requires
        a.spec_popup(),
        a.buffers.current().url_popup->0.spec_mode() == EditorMode::Normal,
        key.code == Key::Esc,
        a.popup_keyed(b, key, false),
    ensures
        b.buffers.list@[a.buffers.active as int].endpoint == a.buffers.current().endpoint,
        b.buffers.list@[a.buffers.active as int].url_popup is None,
{
    reveal(App::popup_keyed);
}

/// An edit of the rows is the edit that was asked for: what adding, deleting, switching,
/// editing and a key of an edit do to the open request is what they do to its rows, and the
/// buffers other than the open one stay.
pub proof fn law_row_edits_stay_in_the_open_request(a: App, b: App, op: RowOp, i: int)
    requires
        a.buffers.loaded(),
        a.rows_changed(b, op),
        0 <= i < a.buffers.list@.len(),
    ensures
        b.buffers.list@.len() == a.buffers.list@.len(),
        b.buffers.active == a.buffers.active,
        i != a.buffers.active ==> b.buffers.list@[i] == a.buffers.list@[i],
        ({
            let old_buffer = a.buffers.list@[a.buffers.active as int];
            let new = b.buffers.list@[a.buffers.active as int];
            let e = edit_view(old_buffer.endpoint.endpoint.request, old_buffer.tabs);
            let done = match op {
                RowOp::Add => e.row_added(),
                RowOp::Delete => e.row_removed(e.tabs.selection()),
                RowOp::Toggle => e.row_toggled(),
                RowOp::Edit => e.row_edited(),
                RowOp::Key(key) => e.edit_keyed(key),
            };
            &&& new.endpoint.endpoint.request@ == done.request
            &&& new.tabs@ == done.tabs
            &&& new.endpoint.endpoint.name == old_buffer.endpoint.endpoint.name
            &&& new.endpoint.file == old_buffer.endpoint.file
            &&& new.editor == old_buffer.editor
            &&& new.response == old_buffer.response
        }),
{
    reveal(row_done);
}

/// A deleted row of the open request is the selected one: the rows before it stay, and those
/// behind it move up.
pub proof fn law_delete_takes_the_selected_row_of_the_open_request(a: App, b: App, i: int)
    requires
        a.buffers.loaded(),
        a.rows_changed(b, RowOp::Delete),
    ensures
        ({
            let before = a.buffers.list@[a.buffers.active as int].endpoint.endpoint.request@;
            let after = b.buffers.list@[a.buffers.active as int].endpoint.endpoint.request@;
            let tabs = a.buffers.list@[a.buffers.active as int].tabs@;
            &&& tabs.active is Params && tabs.params_sel < before.params.len() ==> {
                &&& after.params.len() == before.params.len() - 1
                &&& 0 <= i < tabs.params_sel ==> after.params[i] == before.params[i]
                &&& tabs.params_sel <= i < after.params.len() ==> after.params[i]
                    == before.params[i + 1]
                &&& after.headers == before.headers
            }
            &&& tabs.active is Headers && tabs.headers_sel < before.headers.len() ==> {
                &&& after.headers.len() == before.headers.len() - 1
                &&& 0 <= i < tabs.headers_sel ==> after.headers[i] == before.headers[i]
                &&& tabs.headers_sel <= i < after.headers.len() ==> after.headers[i]
                    == before.headers[i + 1]
                &&& after.params == before.params
            }
            &&& tabs.active is Auth || tabs.active is Body ==> after == before
        }),
{
    reveal(row_done);
}

/// A URL that is committed becomes the URL up to its first `?`; without one it is the whole
/// text and the parameters stay. The method, the headers and the body stay either way, and so
/// does every other buffer.
pub proof fn law_committed_url_is_the_text_before_the_query(
    a: App,
    b: App,
    base: Seq<char>,
    query: Seq<char>,
    i: int,
)
    requires
        a.buffers.loaded(),
        !base.contains('?'),
        a.commits_url(b, base + seq!['?'] + query),
        0 <= i < a.buffers.list@.len(),
    ensures
        ({
            let before = a.buffers.list@[a.buffers.active as int].endpoint.endpoint.request@;
            let after = b.buffers.list@[a.buffers.active as int].endpoint.endpoint.request@;
            &&& after.url == base
            &&& after.params == merge(before.params, query_pairs(query)).rows
            &&& after.method == before.method
            &&& after.headers == before.headers
            &&& after.body == before.body
            &&& after.auth == before.auth
            &&& after.insecure == before.insecure
            &&& merge_report(merge(before.params, query_pairs(query))) matches Some(t) ==> (
            b.message matches Some(Notice::Params { report }) && report@ == t)
            &&& merge_report(merge(before.params, query_pairs(query))) is None ==> b.message
                == a.message
        }),
        i != a.buffers.active ==> b.buffers.list@[i] == a.buffers.list@[i],
{
    law_query_follows_the_first_mark(base, query);
    crate::query::lemma_find(base + seq!['?'] + query, '?');
    let url = base + seq!['?'] + query;
    assert(url[base.len() as int] == '?');
    if find(url, '?') >= url.len() {
        assert(url.take(find(url, '?')) =~= url);
        assert(url.len() == base.len());
    }
}

/// A URL without `?` is committed as it is, and the parameters stay.
pub proof fn law_committed_plain_url_keeps_the_parameters(a: App, b: App, url: Seq<char>)
    requires
        a.buffers.loaded(),
        !url.contains('?'),
        a.commits_url(b, url),
    ensures
        ({
            let before = a.buffers.list@[a.buffers.active as int].endpoint.endpoint.request@;
            let after = b.buffers.list@[a.buffers.active as int].endpoint.endpoint.request@;
            &&& after.url == url
            &&& after.params == before.params
            &&& after.headers == before.headers
            &&& after.method == before.method
            &&& after.body == before.body
            &&& b.message == a.message
        }),
{
    assert forall|k: int| 0 <= k < url.len() implies url[k] != '?' by {
        assert(url.contains(url[k]));
    }
    crate::query::lemma_find_is(url, '?', url.len() as int);
    assert(url.take(url.len() as int) =~= url);
}

/// Enter commits the text of the line that edits the URL and ends the edit, Esc ends it and
/// leaves the request as it was, and any other key goes to the line.
pub proof fn law_url_line_commits_on_enter(a: App, b: App, key: KeyEvent)
    requires
        a.buffers.loaded(),
        a.buffers.current().url_editor is Some,
        a.spec_url_editing(),
        a.url_keyed(b, key),
    ensures
        ({
            let before = a.buffers.list@[a.buffers.active as int];
            let after = b.buffers.list@[a.buffers.active as int];
            let text = before.url_editor->0@.text;
            &&& key.code is Enter ==> after.url_editor is None && (!text.contains('?')
                ==> after.endpoint.endpoint.request@.url == text)
            &&& key.code is Esc ==> after.url_editor is None && after.endpoint == before.endpoint
            &&& !(key.code is Enter || key.code is Esc) ==> after.endpoint == before.endpoint
                && after.url_editor is Some
        }),
{
    reveal(App::url_keyed);
    if key.code is Enter {
        let text = a.buffers.current().url_editor->0@.text;
        let mid = choose|mid: App| #[trigger] a.url_editor_closed(mid) && mid.commits_url(b, text);
        assert(mid.buffers.loaded());
        if !text.contains('?') {
            law_committed_plain_url_keeps_the_parameters(mid, b, text);
        }
        }
}

/// The line breaks are what a text loses when it becomes one line; the rest stays in order.
pub proof fn law_one_line_drops_only_line_breaks(s: Seq<char>, t: Seq<char>, c: char)
    ensures
        one_line(s + t) == one_line(s) + one_line(t),
        c != '\n' && c != '\r' ==> one_line(seq![c]) == seq![c],
        one_line(seq!['\n']) == Seq::<char>::empty(),
        one_line(seq!['\r']) == Seq::<char>::empty(),
    decreases t.len(),
{
    let none: Seq<char> = Seq::empty();
    assert(seq![c].drop_last() =~= none);
    assert(seq!['\n'].drop_last() =~= none);
    assert(seq!['\r'].drop_last() =~= none);
    assert(one_line(none) =~= none);
    assert(none.push(c) =~= seq![c]);
    if t.len() == 0 {
        assert(s + t =~= s);
        assert(one_line(s) + one_line(t) =~= one_line(s));
    } else {
        law_one_line_drops_only_line_breaks(s, t.drop_last(), c);
        assert((s + t).drop_last() =~= s + t.drop_last());
        assert((s + t).last() == t.last());
        assert(one_line(s + t) =~= one_line(s) + one_line(t));
    }
}

/// A kind of body that is picked is the kind that the request has from then on, with the text
/// that the editor held; a multipart body starts without parts. Nothing else changes.
pub proof fn law_picked_body_kind_keeps_the_text(a: App, b: App, index: usize)
    requires
        a.buffers.loaded(),
        a.sets_body(b, index),
        index < 4,
        a.buffers.current().editor.spec_text().len() > 0,
        !(a.buffers.current().endpoint.endpoint@.request.body matches Some(BodyView::Multipart(_))),
    ensures
        ({
            let before = a.buffers.list@[a.buffers.active as int];
            let after = b.buffers.list@[a.buffers.active as int];
            let text = before.editor.spec_text();
            let body = after.endpoint.endpoint@.request.body;
            &&& index == 0 ==> body == Some(
                BodyView::Simple { kind: BodyKind::Text, content: text },
            )
            &&& index == 1 ==> body == Some(
                BodyView::Simple { kind: BodyKind::Json, content: text },
            )
            &&& index == 2 ==> body == Some(
                BodyView::Simple { kind: BodyKind::Form, content: text },
            )
            &&& index == 3 ==> (body matches Some(BodyView::Multipart(parts)) && parts.len() == 0)
            &&& after.endpoint.endpoint@.request.url == before.endpoint.endpoint@.request.url
            &&& after.endpoint.endpoint@.request.headers
                == before.endpoint.endpoint@.request.headers
            &&& after.endpoint.endpoint@.request.params == before.endpoint.endpoint@.request.params
            &&& after.endpoint.endpoint@.request.auth == before.endpoint.endpoint@.request.auth
            &&& after.endpoint.file == before.endpoint.file
        }),
{
}

/// The kind of authentication that is picked is the one that the request has from then on, and
/// the kind's row is selected; nothing else of the request changes.
pub proof fn law_picked_auth_kind_is_set(a: App, b: App, index: usize)
    requires
        a.buffers.loaded(),
        a.sets_auth(b, index),
        index < 4,
    ensures
        ({
            let before = a.buffers.list@[a.buffers.active as int];
            let after = b.buffers.list@[a.buffers.active as int];
            let auth = after.endpoint.endpoint@.request.auth;
            &&& index == 0 ==> auth is None
            &&& index == 1 ==> (auth matches Some(AuthView::Basic { .. }))
            &&& index == 2 ==> (auth matches Some(AuthView::Bearer { .. }))
            &&& index == 3 ==> (auth matches Some(AuthView::ApiKey { .. }))
            &&& after.endpoint.endpoint@.request.url == before.endpoint.endpoint@.request.url
            &&& after.endpoint.endpoint@.request.headers
                == before.endpoint.endpoint@.request.headers
            &&& after.endpoint.endpoint@.request.params == before.endpoint.endpoint@.request.params
            &&& after.endpoint.endpoint@.request.body == before.endpoint.endpoint@.request.body
            &&& after.tabs.auth_sel == 0
        }),
{
}

/// A file that is picked becomes the value of the part that it was picked for, which keeps its
/// name; the other parts stay.
pub proof fn law_picked_file_goes_to_its_part(a: App, b: App, path: Seq<char>, i: int)
    requires
        a.buffers.loaded(),
        a.takes_file(b, path),
        a.buffers.current().endpoint.endpoint@.request.body matches Some(BodyView::Multipart(parts))
            && a.file_part < parts.len() && 0 <= i < parts.len(),
    ensures
        b.mode == Mode::Normal,
        ({
            let before = a.buffers.list@[a.buffers.active as int].endpoint.endpoint@.request.body;
            let after = b.buffers.list@[a.buffers.active as int].endpoint.endpoint@.request.body;
            after matches Some(BodyView::Multipart(parts)) && {
                let held = before->0->Multipart_0;
                &&& parts.len() == held.len()
                &&& i != a.file_part ==> parts[i] == held[i]
                &&& parts[a.file_part as int].name == held[a.file_part as int].name
                &&& parts[a.file_part as int].value matches PartValueView::File { path: p, .. } && p
                    == path
            }
        }),
{
}

/// A method that is picked is the method of the open request from then on, and nothing else
/// of it changes.
pub proof fn law_picked_method_is_set(a: App, b: App, key: KeyEvent, method: Method)
    requires
        a.buffers.loaded(),
        key.code is Char,
        a.method_keyed(b, key, Some(method)),
    ensures
        b.mode == Mode::Normal,
        ({
            let before = a.buffers.list@[a.buffers.active as int].endpoint.endpoint.request@;
            let after = b.buffers.list@[a.buffers.active as int].endpoint.endpoint.request@;
            &&& after.method == method
            &&& after.url == before.url
            &&& after.headers == before.headers
            &&& after.params == before.params
            &&& after.body == before.body
            &&& after.auth == before.auth
        }),
{
    reveal(App::method_keyed);
}

/// A tab that is gone to is the active one; Next and Prev go along the order Params, Headers,
/// Auth, Body and round. Up and Down move the selection by one row and stop at the ends.
pub proof fn law_tab_moves(a: App)
    requires
        a.buffers.loaded(),
    ensures
        ({
            let t = a.buffers.list@[a.buffers.active as int].tabs@;
            let n = a.tabs_after(TabOp::Next);
            let p = a.tabs_after(TabOp::Prev);
            &&& t.active is Params ==> n.active is Headers && p.active is Body
            &&& t.active is Headers ==> n.active is Auth && p.active is Params
            &&& t.active is Auth ==> n.active is Body && p.active is Headers
            &&& t.active is Body ==> n.active is Params && p.active is Auth
            &&& forall|tab: RequestTab| (#[trigger] a.tabs_after(TabOp::To(tab))).active == tab
            &&& t.active is Params ==> {
                let up = a.tabs_after(TabOp::Up).params_sel;
                let down = a.tabs_after(TabOp::Down).params_sel;
                let rows =
                    a.buffers.list@[a.buffers.active as int].endpoint.endpoint.request@.params.len();
                &&& up == (if t.params_sel > 0 {
                    t.params_sel - 1
                } else {
                    0
                })
                &&& t.params_sel + 1 < rows ==> down == t.params_sel + 1
                &&& t.params_sel + 1 == rows ==> down == t.params_sel
            }
            &&& t.active is Headers ==> {
                let up = a.tabs_after(TabOp::Up).headers_sel;
                let down = a.tabs_after(TabOp::Down).headers_sel;
                let rows =
                    a.buffers.list@[a.buffers.active as int].endpoint.endpoint.request@.headers.len();
                &&& up == (if t.headers_sel > 0 {
                    t.headers_sel - 1
                } else {
                    0
                })
                &&& t.headers_sel + 1 < rows ==> down == t.headers_sel + 1
                &&& t.headers_sel + 1 == rows ==> down == t.headers_sel
            }
        }),
{
}

/// The keys of the file picker: `j`, `k` and the arrows move, `l`, Right and Enter take, and `h`,
/// `-`, Left and Backspace go up.
pub proof fn law_file_picker_keys(key: KeyEvent)
    ensures
        key.code is Up || key.code == Key::Char('k') ==> files_key(key) == Some(FilePickerOp::Up),
        key.code is Down || key.code == Key::Char('j') ==> files_key(key) == Some(
            FilePickerOp::Down,
        ),
        key.code is Enter || key.code is Right || key.code == Key::Char('l') ==> files_key(key)
            == Some(FilePickerOp::Accept),
        key.code is Left || key.code is Backspace || key.code == Key::Char('h') || key.code
            == Key::Char('-') ==> files_key(key) == Some(FilePickerOp::Parent),
        key.code is Esc || key.code == Key::Char('q') ==> files_key(key) is None,
{
}

/// An edit of the URL starts from the URL that the request has: in a line on the URL's pane, or in
/// a popup over it.
pub proof fn law_url_edit_starts_from_the_url(a: App, b: App)
    requires
        a.edits_url(b),
        a.buffers.loaded(),
    ensures
        ({
            let before = a.buffers.list@[a.buffers.active as int];
            let after = b.buffers.list@[a.buffers.active as int];
            &&& b.panes.focus == Pane::UrlBar
            &&& after.endpoint == before.endpoint
            &&& a.settings.url_edit is Inline ==> (after.url_editor matches Some(e) && e@.text
                == before.endpoint.endpoint.request.url@)
            &&& a.settings.url_edit is Popup ==> after.url_editor is None && (
            after.url_popup matches Some(e) && e.spec_text() == lf_lines(
                before.endpoint.endpoint.request.url@,
            ) && e.spec_mode() == EditorMode::Normal)
        }),
{
    reveal(App::edits_url);
    reveal(App::focused);
}

/// Enter in the popup commits its text without line breaks and closes it; Esc in the normal mode
/// closes it and changes nothing.
pub proof fn law_popup_commits_on_enter(a: App, b: App, key: KeyEvent)
    requires
        a.spec_popup(),
        a.popup_keyed(b, key, false),
        a.buffers.current().url_popup->0.spec_mode() == EditorMode::Normal
            || a.buffers.current().url_popup->0.spec_mode() == EditorMode::Insert,
    ensures
        ({
            let before = a.buffers.list@[a.buffers.active as int];
            let after = b.buffers.list@[a.buffers.active as int];
            let text = one_line(before.url_popup->0.spec_text());
            &&& key.code is Enter ==> after.url_popup is None && (!text.contains('?')
                ==> after.endpoint.endpoint.request@.url == text)
            &&& key.code is Esc && before.url_popup->0.spec_mode() == EditorMode::Normal
                ==> after.url_popup is None && after.endpoint == before.endpoint
            &&& !(key.code is Enter) ==> after.endpoint == before.endpoint
        }),
{
    reveal(App::popup_keyed);
    if key.code is Enter {
        let text = one_line(a.buffers.current().url_popup->0.spec_text());
        let mid = choose|mid: App| #[trigger] a.popup_closed(mid) && mid.commits_url(b, text);
        assert(mid.buffers.loaded());
        if !text.contains('?') {
            law_committed_plain_url_keeps_the_parameters(mid, b, text);
        }
    }
}

/// The method of the open request goes to the next one, and nothing else of it changes.
pub proof fn law_method_goes_to_the_next(a: App, b: App)
    requires
        a.cycles_method(b),
        a.buffers.loaded(),
    ensures
        ({
            let before = a.buffers.list@[a.buffers.active as int].endpoint.endpoint.request@;
            let after = b.buffers.list@[a.buffers.active as int].endpoint.endpoint.request@;
            &&& before.method == Method::Get ==> after.method == Method::Post
            &&& before.method == Method::Post ==> after.method == Method::Put
            &&& before.method == Method::Put ==> after.method == Method::Patch
            &&& before.method == Method::Patch ==> after.method == Method::Delete
            &&& before.method == Method::Delete ==> after.method == Method::Head
            &&& before.method == Method::Head ==> after.method == Method::Options
            &&& before.method == Method::Options ==> after.method == Method::Get
            &&& after.url == before.url
            &&& after.headers == before.headers
            &&& after.params == before.params
            &&& after.body == before.body
            &&& after.auth == before.auth
        }),
{
}

/// The files for a part of the body are picked from the directory of the file that it has, and
/// from the root where it has none.
pub proof fn law_files_are_picked_for_their_part(a: App, b: App, part: usize, fx: Seq<Effect>)
    requires
        a.opens_files(b, part, fx),
    ensures
        a.workspace matches Some(ws) ==> b.mode == Mode::FilePicker && b.file_part == part
            && fx.len() == 1 && (fx[0] matches Effect::OpenFilePicker { root, part: p, .. } && root
            == ws.root && p == part),
        a.workspace is None ==> fx.len() == 0 && b.mode == a.mode && b.message == Some(
            Notice::NoWorkspaceToBrowse,
        ),
        !a.spec_multipart() ==> (a.workspace matches Some(ws) ==> (
        fx[0] matches Effect::OpenFilePicker { start_dir, .. } && start_dir@ == ws.root@)),
{
}

/// The kinds of authentication and of bodies are offered in the order in which they are picked.
pub proof fn law_kinds_are_offered_in_order(a: App, b: App, c: App)
    requires
        a.picks_auth(b),
        a.buffers.loaded(),
        a.picks_body(c),
    ensures
        b.mode == Mode::Palette,
        c.mode == Mode::Palette,
        b.picker matches Some(p) && p.choices == Choices::AuthKinds && texts(p.items@) == seq![
            "None"@,
            "Basic"@,
            "Bearer"@,
            "ApiKey"@,
        ],
        c.picker matches Some(p) && p.choices == Choices::BodyTypes && texts(p.items@) == seq![
            "text"@,
            "json"@,
            "form"@,
            "multipart"@,
        ],
{
}

/// In the request pane Up and Down move the selection of the tab, Select edits the selected row,
/// and in a text body every key goes to its editor.
pub proof fn law_request_pane_keys(
    a: App,
    b: App,
    action: Action,
    key: KeyEvent,
)
    requires
        a.navigates_request(b, action, Some(key)),
        a.buffers.loaded(),
    ensures
        a.spec_body_text() ==> a.body_fed(b, key),
        !a.spec_body_text() && action == Action::Select ==> a.edits_rows(b, RowOp::Edit),
        !a.spec_body_text() && action == Action::Up ==> b.buffers.list@[a.buffers.active as int].tabs@
            == a.tabs_after(TabOp::Up),
        !a.spec_body_text() && action == Action::Down
            ==> b.buffers.list@[a.buffers.active as int].tabs@ == a.tabs_after(TabOp::Down),
        a.spec_body_text() <==> (
        a.buffers.list@[a.buffers.active as int].tabs.active is Body
            && !(a.buffers.list@[a.buffers.active as int].endpoint.endpoint.request.body matches Some(
            Body::Multipart(_),
        ))),
{
    reveal(App::navigates_request);
}

} // verus!
