//! The request pane: its tabs, the selected rows, and the edit of one field.

use vstd::prelude::*;

use crate::body::{
    auth_field_count, auth_field_text, auth_written, placement_toggled, spec_auth_field_count,
    spec_auth_field_text, toggle_auth_placement, write_auth_field,
};
use crate::keys::{Key, KeyEvent};
use crate::line_editor::{LineEditor, LineView};
use crate::model::{content, contents, AuthView, Header, Param, Request, RequestView, RowView};

verus! {

/// The tabs of the request pane.
#[derive(Debug, Clone, Copy, PartialEq, Eq, Structural)]
pub enum RequestTab {
    /// Query parameters.
    Params,
    /// Headers.
    Headers,
    /// Authentication.
    Auth,
    /// The body.
    Body,
}

/// The field of a row that is edited.
#[derive(Debug, Clone, Copy, PartialEq, Eq, Structural)]
pub enum EditField {
    /// The name.
    Name,
    /// The value.
    Value,
}

/// An edit of one field.
#[derive(Debug)]
pub struct FieldEdit {
    /// The row.
    pub row: usize,
    /// The field.
    pub field: EditField,
    /// The line that is typed.
    pub editor: LineEditor,
}

/// What a [`FieldEdit`] holds.
pub struct FieldEditView {
    /// The row.
    pub row: nat,
    /// The field.
    pub field: EditField,
    /// The line that is typed.
    pub line: LineView,
}

impl View for FieldEdit {
    type V = FieldEditView;

    open spec fn view(&self) -> FieldEditView {
        FieldEditView { row: self.row as nat, field: self.field, line: self.editor@ }
    }
}

/// The active tab, the selected row of each tab, and the edit in progress.
#[derive(Debug)]
pub struct RequestTabs {
    /// The active tab.
    pub active: RequestTab,
    /// The selected parameter.
    pub params_sel: usize,
    /// The selected header.
    pub headers_sel: usize,
    /// The selected row of the Auth tab.
    pub auth_sel: usize,
    /// The selected part of a multipart body.
    pub parts_sel: usize,
    /// The edit in progress.
    pub editing: Option<FieldEdit>,
}

/// What a [`RequestTabs`] holds.
pub struct TabsView {
    /// The active tab.
    pub active: RequestTab,
    /// The selected parameter.
    pub params_sel: nat,
    /// The selected header.
    pub headers_sel: nat,
    /// The selected row of the Auth tab.
    pub auth_sel: nat,
    /// The selected part of a multipart body.
    pub parts_sel: nat,
    /// The edit in progress.
    pub editing: Option<FieldEditView>,
}

impl View for RequestTabs {
    type V = TabsView;

    open spec fn view(&self) -> TabsView {
        TabsView {
            active: self.active,
            params_sel: self.params_sel as nat,
            headers_sel: self.headers_sel as nat,
            auth_sel: self.auth_sel as nat,
            parts_sel: self.parts_sel as nat,
            editing: content(self.editing),
        }
    }
}

/// `sel` moved to the last of `rows` rows when it lies behind it.
pub open spec fn clamped(sel: nat, rows: nat) -> nat {
    if rows == 0 {
        0
    } else if sel >= rows {
        (rows - 1) as nat
    } else {
        sel
    }
}

fn clamp_index(sel: usize, rows: usize) -> (r: usize)
    ensures
        r == clamped(sel as nat, rows as nat),
{
    if rows == 0 {
        0
    } else if sel >= rows {
        rows - 1
    } else {
        sel
    }
}

impl TabsView {
    /// The tabs of a request that was just opened.
    pub open spec fn fresh() -> TabsView {
        TabsView {
            active: RequestTab::Params,
            params_sel: 0,
            headers_sel: 0,
            auth_sel: 0,
            parts_sel: 0,
            editing: None,
        }
    }

    /// The selected row of the active tab.
    pub open spec fn selection(self) -> nat {
        match self.active {
            RequestTab::Params => self.params_sel,
            RequestTab::Headers => self.headers_sel,
            RequestTab::Auth => self.auth_sel,
            RequestTab::Body => self.parts_sel,
        }
    }

    /// The tabs with another selected row in the active tab.
    pub open spec fn selecting(self, sel: nat) -> TabsView {
        match self.active {
            RequestTab::Params => TabsView { params_sel: sel, ..self },
            RequestTab::Headers => TabsView { headers_sel: sel, ..self },
            RequestTab::Auth => TabsView { auth_sel: sel, ..self },
            RequestTab::Body => TabsView { parts_sel: sel, ..self },
        }
    }

    /// The tabs with another active tab.
    pub open spec fn on_tab(self, tab: RequestTab) -> TabsView {
        TabsView { active: tab, ..self }
    }
}

/// The tab behind a tab, in a cycle.
pub open spec fn tab_after(tab: RequestTab) -> RequestTab {
    match tab {
        RequestTab::Params => RequestTab::Headers,
        RequestTab::Headers => RequestTab::Auth,
        RequestTab::Auth => RequestTab::Body,
        RequestTab::Body => RequestTab::Params,
    }
}

/// The tab before a tab, in a cycle.
pub open spec fn tab_before(tab: RequestTab) -> RequestTab {
    match tab {
        RequestTab::Params => RequestTab::Body,
        RequestTab::Headers => RequestTab::Params,
        RequestTab::Auth => RequestTab::Headers,
        RequestTab::Body => RequestTab::Auth,
    }
}

/// Next and previous undo each other.
pub proof fn law_tab_cycle(tab: RequestTab)
    ensures
        tab_before(tab_after(tab)) == tab,
        tab_after(tab_before(tab)) == tab,
{
}

impl RequestTabs {
    /// The line of an edit in progress has its cursor within it.
    pub open spec fn wf(&self) -> bool {
        self.editing matches Some(e) ==> e.editor.wf()
    }

    /// The tabs of a request that was just opened.
    pub fn new() -> (r: RequestTabs)
        ensures
            r@ == TabsView::fresh(),
            r.wf(),
    {
        RequestTabs {
            active: RequestTab::Params,
            params_sel: 0,
            headers_sel: 0,
            auth_sel: 0,
            parts_sel: 0,
            editing: None,
        }
    }

    /// The selected row of the active tab.
    pub fn selection(&self) -> (r: usize)
        ensures
            r == self@.selection(),
    {
        match self.active {
            RequestTab::Params => self.params_sel,
            RequestTab::Headers => self.headers_sel,
            RequestTab::Auth => self.auth_sel,
            RequestTab::Body => self.parts_sel,
        }
    }

    fn select(&mut self, sel: usize)
        ensures
            final(self)@ == old(self)@.selecting(sel as nat),
            final(self).editing == old(self).editing,
    {
        match self.active {
            RequestTab::Params => {
                self.params_sel = sel;
            },
            RequestTab::Headers => {
                self.headers_sel = sel;
            },
            RequestTab::Auth => {
                self.auth_sel = sel;
            },
            RequestTab::Body => {
                self.parts_sel = sel;
            },
        }
    }

    /// Moves the active tab's selection onto its last row when it lies behind it.
    pub fn clamp(&mut self, rows: usize)
        ensures
            final(self)@ == old(self)@.selecting(clamped(old(self)@.selection(), rows as nat)),
            final(self).editing == old(self).editing,
    {
        let sel = clamp_index(self.selection(), rows);
        self.select(sel);
    }

    /// Moves to the next tab.
    pub fn tab_next(&mut self)
        ensures
            final(self)@ == old(self)@.on_tab(tab_after(old(self).active)),
            final(self).editing == old(self).editing,
    {
        self.active = match self.active {
            RequestTab::Params => RequestTab::Headers,
            RequestTab::Headers => RequestTab::Auth,
            RequestTab::Auth => RequestTab::Body,
            RequestTab::Body => RequestTab::Params,
        };
    }

    /// Moves to the previous tab.
    pub fn tab_prev(&mut self)
        ensures
            final(self)@ == old(self)@.on_tab(tab_before(old(self).active)),
            final(self).editing == old(self).editing,
    {
        self.active = match self.active {
            RequestTab::Params => RequestTab::Body,
            RequestTab::Headers => RequestTab::Params,
            RequestTab::Auth => RequestTab::Headers,
            RequestTab::Body => RequestTab::Auth,
        };
    }

    /// Moves to a tab.
    pub fn tab_jump(&mut self, tab: RequestTab)
        ensures
            final(self)@ == old(self)@.on_tab(tab),
            final(self).editing == old(self).editing,
    {
        self.active = tab;
    }

    /// Moves the selection up by one row.
    pub fn move_up(&mut self)
        ensures
            final(self)@ == old(self)@.selecting(
                (if old(self)@.selection() > 0 {
                    (old(self)@.selection() - 1) as nat
                } else {
                    0
                }),
            ),
            final(self).editing == old(self).editing,
    {
        let sel = self.selection();
        self.select(if sel > 0 { sel - 1 } else { 0 });
    }

    /// Moves the selection down by one row of `rows`.
    pub fn move_down(&mut self, rows: usize)
        ensures
            final(self)@ == old(self)@.selecting(clamped(old(self)@.selection() + 1, rows as nat)),
            final(self).editing == old(self).editing,
    {
        let sel = self.selection();
        let next: usize = if rows == 0 {
            0
        } else if sel >= rows - 1 {
            rows - 1
        } else {
            sel + 1
        };
        self.select(next);
    }
}

/// What the request pane edits: a request, and its tabs.
pub struct EditView {
    /// The request.
    pub request: RequestView,
    /// The tabs.
    pub tabs: TabsView,
}

/// A row that was just added.
pub open spec fn blank_row() -> RowView {
    RowView { name: Seq::empty(), value: Seq::empty(), enabled: true }
}

/// An edit that starts on a text.
pub open spec fn edit_of(row: nat, field: EditField, text: Seq<char>) -> Option<FieldEditView> {
    Some(FieldEditView { row, field, line: LineView::seeded(text) })
}

/// The field of a row.
pub open spec fn field_of(row: RowView, field: EditField) -> Seq<char> {
    match field {
        EditField::Name => row.name,
        EditField::Value => row.value,
    }
}

/// A row with another text in one field.
pub open spec fn with_field(row: RowView, field: EditField, text: Seq<char>) -> RowView {
    match field {
        EditField::Name => RowView { name: text, ..row },
        EditField::Value => RowView { value: text, ..row },
    }
}

/// What `Enter` on a row does.
#[derive(Debug, Clone, Copy, PartialEq, Eq, Structural)]
pub enum RowEdit {
    /// The edit was started, or the row was toggled, or there is nothing to edit.
    Done,
    /// The picker of authentication kinds is to be opened.
    PickAuthKind,
}

impl EditView {
    /// How many rows the active tab has.
    pub open spec fn row_count(self) -> nat {
        match self.tabs.active {
            RequestTab::Params => self.request.params.len(),
            RequestTab::Headers => self.request.headers.len(),
            RequestTab::Auth => spec_auth_field_count(self.request.auth),
            RequestTab::Body => 0,
        }
    }

    /// A row added on the Params or Headers tab, selected, with its name edited.
    pub open spec fn row_added(self) -> EditView {
        match self.tabs.active {
            RequestTab::Params => EditView {
                request: RequestView { params: self.request.params.push(blank_row()), ..self.request
                },
                tabs: TabsView {
                    params_sel: self.request.params.len(),
                    editing: edit_of(self.request.params.len(), EditField::Name, Seq::empty()),
                    ..self.tabs
                },
            },
            RequestTab::Headers => EditView {
                request: RequestView {
                    headers: self.request.headers.push(blank_row()),
                    ..self.request
                },
                tabs: TabsView {
                    headers_sel: self.request.headers.len(),
                    editing: edit_of(self.request.headers.len(), EditField::Name, Seq::empty()),
                    ..self.tabs
                },
            },
            _ => self,
        }
    }

    /// A row of the Params or Headers tab removed; the selection stays on a row.
    pub open spec fn row_removed(self, row: nat) -> EditView {
        match self.tabs.active {
            RequestTab::Params => if row < self.request.params.len() {
                EditView {
                    request: RequestView {
                        params: self.request.params.remove(row as int),
                        ..self.request
                    },
                    tabs: self.tabs.selecting(
                        clamped(
                            self.tabs.selection(),
                            (self.request.params.len() - 1) as nat,
                        ),
                    ),
                }
            } else {
                self
            },
            RequestTab::Headers => if row < self.request.headers.len() {
                EditView {
                    request: RequestView {
                        headers: self.request.headers.remove(row as int),
                        ..self.request
                    },
                    tabs: self.tabs.selecting(
                        clamped(
                            self.tabs.selection(),
                            (self.request.headers.len() - 1) as nat,
                        ),
                    ),
                }
            } else {
                self
            },
            _ => self,
        }
    }

    /// The selected row toggled: a parameter or a header on or off, or the
    /// placement of an API key.
    pub open spec fn row_toggled(self) -> EditView {
        let sel = self.tabs.selection();
        let flip = |r: RowView| RowView { enabled: !r.enabled, ..r };
        match self.tabs.active {
            RequestTab::Params => if sel < self.request.params.len() {
                EditView {
                    request: RequestView {
                        params: self.request.params.update(
                            sel as int,
                            flip(self.request.params[sel as int]),
                        ),
                        ..self.request
                    },
                    ..self
                }
            } else {
                self
            },
            RequestTab::Headers => if sel < self.request.headers.len() {
                EditView {
                    request: RequestView {
                        headers: self.request.headers.update(
                            sel as int,
                            flip(self.request.headers[sel as int]),
                        ),
                        ..self.request
                    },
                    ..self
                }
            } else {
                self
            },
            RequestTab::Auth => EditView {
                request: RequestView {
                    auth: placement_toggled(self.request.auth, sel),
                    ..self.request
                },
                ..self
            },
            RequestTab::Body => self,
        }
    }

    /// The text of a field, where it has one that can be edited.
    pub open spec fn field_text(self, tab: RequestTab, row: nat, field: EditField) -> Option<
        Seq<char>,
    > {
        match tab {
            RequestTab::Params => if row < self.request.params.len() {
                Some(field_of(self.request.params[row as int], field))
            } else {
                None
            },
            RequestTab::Headers => if row < self.request.headers.len() {
                Some(field_of(self.request.headers[row as int], field))
            } else {
                None
            },
            RequestTab::Auth => spec_auth_field_text(self.request.auth, row),
            RequestTab::Body => None,
        }
    }

    /// The field that an edit of a row starts on: the value of an Auth row, the
    /// name of any other.
    pub open spec fn start_field(self) -> EditField {
        if self.tabs.active == RequestTab::Auth {
            EditField::Value
        } else {
            EditField::Name
        }
    }

    /// Whether `Enter` here opens the picker of authentication kinds.
    pub open spec fn on_auth_kind(self) -> bool {
        self.tabs.active == RequestTab::Auth && self.tabs.selection() == 0
    }

    /// The pane after `Enter` on the selected row: the placement's row is
    /// toggled, the kind's row is left to the picker, and any other row that has
    /// a text is edited.
    pub open spec fn row_edited(self) -> EditView {
        let sel = self.tabs.selection();
        if self.on_auth_kind() {
            self
        } else if self.tabs.active == RequestTab::Auth && sel == 3 {
            self.row_toggled()
        } else {
            match self.field_text(self.tabs.active, sel, self.start_field()) {
                Some(text) => EditView {
                    tabs: TabsView {
                        editing: edit_of(sel, self.start_field(), text),
                        ..self.tabs
                    },
                    ..self
                },
                None => self,
            }
        }
    }

    /// A text written into a field.
    pub open spec fn field_written(
        self,
        tab: RequestTab,
        row: nat,
        field: EditField,
        text: Seq<char>,
    ) -> EditView {
        match tab {
            RequestTab::Params => if row < self.request.params.len() {
                EditView {
                    request: RequestView {
                        params: self.request.params.update(
                            row as int,
                            with_field(self.request.params[row as int], field, text),
                        ),
                        ..self.request
                    },
                    ..self
                }
            } else {
                self
            },
            RequestTab::Headers => if row < self.request.headers.len() {
                EditView {
                    request: RequestView {
                        headers: self.request.headers.update(
                            row as int,
                            with_field(self.request.headers[row as int], field, text),
                        ),
                        ..self.request
                    },
                    ..self
                }
            } else {
                self
            },
            RequestTab::Auth => EditView {
                request: RequestView {
                    auth: auth_written(self.request.auth, row, text),
                    ..self.request
                },
                ..self
            },
            RequestTab::Body => self,
        }
    }

    /// The pane with the edit in progress replaced.
    pub open spec fn with_editing(self, editing: Option<FieldEditView>) -> EditView {
        EditView { tabs: TabsView { editing, ..self.tabs }, ..self }
    }

    /// The edit in progress committed: Enter and Tab go from the name to the
    /// value; Enter on the value ends the edit, and Tab goes back to the name.
    pub open spec fn advanced(self, commit_row: bool) -> EditView {
        match self.tabs.editing {
            None => self,
            Some(edit) => {
                let tab = self.tabs.active;
                let e = self.with_editing(None).field_written(
                    tab,
                    edit.row,
                    edit.field,
                    edit.line.text,
                );
                let other = match edit.field {
                    EditField::Name => EditField::Value,
                    EditField::Value => EditField::Name,
                };
                if edit.field == EditField::Value && commit_row {
                    e
                } else {
                    e.with_editing(
                        edit_of(
                            edit.row,
                            other,
                            match e.field_text(tab, edit.row, other) {
                                Some(t) => t,
                                None => Seq::empty(),
                            },
                        ),
                    )
                }
            },
        }
    }

    /// Whether a row of the active tab is a parameter or a header with neither
    /// name nor value.
    pub open spec fn is_ghost(self, row: nat) -> bool {
        match self.tabs.active {
            RequestTab::Params => row < self.request.params.len() && self.request.params[row
                as int].name.len() == 0 && self.request.params[row as int].value.len() == 0,
            RequestTab::Headers => row < self.request.headers.len() && self.request.headers[row
                as int].name.len() == 0 && self.request.headers[row as int].value.len() == 0,
            _ => false,
        }
    }

    /// A row without name and value removed; any other row stays.
    pub open spec fn ghost_discarded(self, row: nat) -> EditView {
        if self.is_ghost(row) {
            self.row_removed(row)
        } else {
            self
        }
    }

    /// The edit in progress dropped, with the row that it would leave blank.
    pub open spec fn edit_cancelled(self) -> EditView {
        match self.tabs.editing {
            None => self,
            Some(edit) => self.with_editing(None).ghost_discarded(edit.row),
        }
    }

    /// The pane after a key of an edit in progress.
    pub open spec fn edit_keyed(self, key: KeyEvent) -> EditView {
        match key.code {
            Key::Esc => self.edit_cancelled(),
            Key::Tab => self.advanced(false),
            Key::Enter => self.advanced(true),
            _ => match self.tabs.editing {
                None => self,
                Some(edit) => self.with_editing(
                    Some(FieldEditView { line: edit.line.keyed(key), ..edit }),
                ),
            },
        }
    }
}

/// What the request pane edits, as one view.
pub open spec fn edit_view(request: Request, tabs: RequestTabs) -> EditView {
    EditView { request: request@, tabs: tabs@ }
}

/// How many rows the active tab has.
pub fn active_tab_row_count(request: &Request, tabs: &RequestTabs) -> (r: usize)
    ensures
        r == edit_view(*request, *tabs).row_count(),
{
    match tabs.active {
        RequestTab::Params => request.params.len(),
        RequestTab::Headers => request.headers.len(),
        RequestTab::Auth => auth_field_count(&request.auth),
        RequestTab::Body => 0,
    }
}

/// Adds a row on the Params or Headers tab and starts to edit its name.
pub fn row_add(request: &mut Request, tabs: &mut RequestTabs)
    requires
        old(tabs).wf(),
    ensures
        edit_view(*final(request), *final(tabs)) == edit_view(*old(request), *old(tabs)).row_added(),
        final(tabs).wf(),
{
    let new_row = match tabs.active {
        RequestTab::Params => {
            let ghost before = request.params@;
            let row = request.params.len();
            let p = Param { name: String::new(), value: String::new(), enabled: true };
            let ghost view = p@;
            request.params.push(p);
            assert(view.name =~= Seq::empty() && view.value =~= Seq::empty());
            assert(contents(request.params@) =~= contents(before).push(view));
            tabs.params_sel = row;
            row
        },
        RequestTab::Headers => {
            let ghost before = request.headers@;
            let row = request.headers.len();
            let h = Header { name: String::new(), value: String::new(), enabled: true };
            let ghost view = h@;
            request.headers.push(h);
            assert(view.name =~= Seq::empty() && view.value =~= Seq::empty());
            assert(contents(request.headers@) =~= contents(before).push(view));
            tabs.headers_sel = row;
            row
        },
        _ => {
            return ;
        },
    };
    proof {
        reveal_strlit("");
        assert(""@ =~= Seq::empty());
    }
    tabs.editing = Some(
        FieldEdit { row: new_row, field: EditField::Name, editor: LineEditor::new("") },
    );
}

fn row_remove(request: &mut Request, tabs: &mut RequestTabs, row: usize)
    requires
        old(tabs).wf(),
    ensures
        edit_view(*final(request), *final(tabs)) == edit_view(
            *old(request),
            *old(tabs),
        ).row_removed(row as nat),
        final(tabs).wf(),
{
    match tabs.active {
        RequestTab::Params => {
            if row < request.params.len() {
                let ghost before = request.params@;
                let gone = request.params.remove(row);
                assert(contents(request.params@) =~= contents(before).remove(row as int));
                tabs.clamp(request.params.len());
            }
        },
        RequestTab::Headers => {
            if row < request.headers.len() {
                let ghost before = request.headers@;
                let gone = request.headers.remove(row);
                assert(contents(request.headers@) =~= contents(before).remove(row as int));
                tabs.clamp(request.headers.len());
            }
        },
        _ => {},
    }
}

/// Deletes the selected row of the Params or Headers tab.
pub fn row_delete(request: &mut Request, tabs: &mut RequestTabs)
    requires
        old(tabs).wf(),
    ensures
        edit_view(*final(request), *final(tabs)) == edit_view(
            *old(request),
            *old(tabs),
        ).row_removed(old(tabs)@.selection()),
        final(tabs).wf(),
{
    let sel = tabs.selection();
    row_remove(request, tabs, sel);
}

/// Toggles the selected row: a parameter or a header on or off, or where an API
/// key goes.
pub fn row_toggle(request: &mut Request, tabs: &RequestTabs)
    ensures
        edit_view(*final(request), *tabs) == edit_view(*old(request), *tabs).row_toggled(),
{
    let sel = tabs.selection();
    match tabs.active {
        RequestTab::Params => {
            if sel < request.params.len() {
                let ghost before = request.params@;
                let p = &request.params[sel];
                let q = Param { name: p.name.clone(), value: p.value.clone(), enabled: !p.enabled };
                let ghost view = q@;
                request.params.set(sel, q);
                assert(contents(request.params@) =~= contents(before).update(sel as int, view));
            }
        },
        RequestTab::Headers => {
            if sel < request.headers.len() {
                let ghost before = request.headers@;
                let h = &request.headers[sel];
                let q = Header { name: h.name.clone(), value: h.value.clone(), enabled: !h.enabled };
                let ghost view = q@;
                request.headers.set(sel, q);
                assert(contents(request.headers@) =~= contents(before).update(sel as int, view));
            }
        },
        RequestTab::Auth => {
            toggle_auth_placement(&mut request.auth, sel);
        },
        RequestTab::Body => {},
    }
}

/// The text of a field, where it has one that can be edited.
pub fn current_field_text(
    request: &Request,
    tabs: &RequestTabs,
    tab: RequestTab,
    row: usize,
    field: EditField,
) -> (r: Option<String>)
    ensures
        content(r) == edit_view(*request, *tabs).field_text(tab, row as nat, field),
{
    match tab {
        RequestTab::Params => {
            if row < request.params.len() {
                Some(
                    match field {
                        EditField::Name => request.params[row].name.clone(),
                        EditField::Value => request.params[row].value.clone(),
                    },
                )
            } else {
                None
            }
        },
        RequestTab::Headers => {
            if row < request.headers.len() {
                Some(
                    match field {
                        EditField::Name => request.headers[row].name.clone(),
                        EditField::Value => request.headers[row].value.clone(),
                    },
                )
            } else {
                None
            }
        },
        RequestTab::Auth => auth_field_text(&request.auth, row),
        RequestTab::Body => None,
    }
}

/// Starts to edit the selected row. The row of the authentication kind is left
/// to its picker; the placement's row is toggled.
pub fn row_edit(request: &mut Request, tabs: &mut RequestTabs) -> (r: RowEdit)
    requires
        old(tabs).wf(),
    ensures
        edit_view(*final(request), *final(tabs)) == edit_view(*old(request), *old(tabs)).row_edited(),
        (r == RowEdit::PickAuthKind) == edit_view(*old(request), *old(tabs)).on_auth_kind(),
        final(tabs).wf(),
{
    let sel = tabs.selection();
    let auth = tabs.active == RequestTab::Auth;
    if auth && sel == 0 {
        return RowEdit::PickAuthKind;
    }
    if auth && sel == 3 {
        row_toggle(request, tabs);
        return RowEdit::Done;
    }
    let field = if auth {
        EditField::Value
    } else {
        EditField::Name
    };
    if let Some(text) = current_field_text(request, tabs, tabs.active, sel, field) {
        tabs.editing = Some(FieldEdit { row: sel, field, editor: LineEditor::new(text.as_str()) });
    }
    RowEdit::Done
}

/// Writes a text into a field.
pub fn write_field(
    request: &mut Request,
    tabs: &RequestTabs,
    tab: RequestTab,
    row: usize,
    field: EditField,
    text: String,
)
    ensures
        edit_view(*final(request), *tabs) == edit_view(*old(request), *tabs).field_written(
            tab,
            row as nat,
            field,
            text@,
        ),
{
    match tab {
        RequestTab::Params => {
            if row < request.params.len() {
                let ghost before = request.params@;
                let p = &request.params[row];
                let q = match field {
                    EditField::Name => Param {
                        name: text,
                        value: p.value.clone(),
                        enabled: p.enabled,
                    },
                    EditField::Value => Param {
                        name: p.name.clone(),
                        value: text,
                        enabled: p.enabled,
                    },
                };
                let ghost view = q@;
                request.params.set(row, q);
                assert(contents(request.params@) =~= contents(before).update(row as int, view));
            }
        },
        RequestTab::Headers => {
            if row < request.headers.len() {
                let ghost before = request.headers@;
                let h = &request.headers[row];
                let q = match field {
                    EditField::Name => Header {
                        name: text,
                        value: h.value.clone(),
                        enabled: h.enabled,
                    },
                    EditField::Value => Header {
                        name: h.name.clone(),
                        value: text,
                        enabled: h.enabled,
                    },
                };
                let ghost view = q@;
                request.headers.set(row, q);
                assert(contents(request.headers@) =~= contents(before).update(row as int, view));
            }
        },
        RequestTab::Auth => {
            write_auth_field(&mut request.auth, row, text);
        },
        RequestTab::Body => {},
    }
}

/// Commits the edit in progress: from the name to the value, or, on the value,
/// to its end (`commit_row`) or back to the name.
pub fn field_edit_advance(request: &mut Request, tabs: &mut RequestTabs, commit_row: bool)
    requires
        old(tabs).wf(),
    ensures
        edit_view(*final(request), *final(tabs)) == edit_view(*old(request), *old(tabs)).advanced(
            commit_row,
        ),
        final(tabs).wf(),
{
    let edit = match tabs.editing.take() {
        Some(edit) => edit,
        None => {
            return ;
        },
    };
    let text = edit.editor.text();
    write_field(request, tabs, tabs.active, edit.row, edit.field, text);
    let other = match edit.field {
        EditField::Name => EditField::Value,
        EditField::Value => {
            if commit_row {
                return ;
            }
            EditField::Name
        },
    };
    let seed = match current_field_text(request, tabs, tabs.active, edit.row, other) {
        Some(t) => t,
        None => String::new(),
    };
    tabs.editing = Some(
        FieldEdit { row: edit.row, field: other, editor: LineEditor::new(seed.as_str()) },
    );
}

/// Removes a row of the Params or Headers tab that has neither name nor value:
/// what a cancelled new row would leave behind.
pub fn discard_row_if_empty(request: &mut Request, tabs: &mut RequestTabs, row: usize)
    requires
        old(tabs).wf(),
    ensures
        edit_view(*final(request), *final(tabs)) == edit_view(
            *old(request),
            *old(tabs),
        ).ghost_discarded(row as nat),
        final(tabs).wf(),
{
    let ghost_row = match tabs.active {
        RequestTab::Params => row < request.params.len()
            && request.params[row].name.as_str().is_empty()
            && request.params[row].value.as_str().is_empty(),
        RequestTab::Headers => row < request.headers.len()
            && request.headers[row].name.as_str().is_empty()
            && request.headers[row].value.as_str().is_empty(),
        _ => false,
    };
    if ghost_row {
        row_remove(request, tabs, row);
    }
}

/// Handles one key of an edit in progress: Tab and Enter commit the field, Esc
/// drops the edit, and any other key edits the line.
pub fn handle_field_edit_key(request: &mut Request, tabs: &mut RequestTabs, key: KeyEvent)
    requires
        old(tabs).wf(),
    ensures
        edit_view(*final(request), *final(tabs)) == edit_view(*old(request), *old(tabs)).edit_keyed(
            key,
        ),
        final(tabs).wf(),
{
    match key.code {
        Key::Esc => {
            if let Some(edit) = tabs.editing.take() {
                discard_row_if_empty(request, tabs, edit.row);
            }
        },
        Key::Tab => {
            field_edit_advance(request, tabs, false);
        },
        Key::Enter => {
            field_edit_advance(request, tabs, true);
        },
        _ => {
            if let Some(edit) = &mut tabs.editing {
                edit.editor.handle_key(key);
            }
        },
    }
}

/// Adding a row and cancelling its edit at once leaves the request as it was.
pub proof fn law_add_then_cancel_is_nothing(e: EditView)
    requires
        e.tabs.active is Params || e.tabs.active is Headers,
    ensures
        e.row_added().edit_cancelled().request == e.request,
        e.row_added().edit_cancelled().tabs.editing is None,
{
    let b = e.row_added().edit_cancelled();
    if e.tabs.active is Params {
        assert(e.request.params.push(blank_row()).remove(e.request.params.len() as int)
            =~= e.request.params);
    } else {
        assert(e.request.headers.push(blank_row()).remove(e.request.headers.len() as int)
            =~= e.request.headers);
    }
}

/// Toggling the selected row twice restores the request.
pub proof fn law_toggle_twice_restores(e: EditView)
    ensures
        e.row_toggled().row_toggled() == e,
{
    let t = e.row_toggled().row_toggled();
    assert(t.request.params =~= e.request.params);
    assert(t.request.headers =~= e.request.headers);
    crate::body::law_placement_toggle_twice(e.request.auth, e.tabs.selection());
}

/// What is written into a field is what the field shows.
pub proof fn law_written_field_reads_back(
    e: EditView,
    tab: RequestTab,
    row: nat,
    field: EditField,
    text: Seq<char>,
)
    requires
        e.field_text(tab, row, field) is Some,
    ensures
        e.field_written(tab, row, field, text).field_text(tab, row, field) == Some(text),
{
    if tab is Auth {
        crate::body::law_auth_write_reads_back(e.request.auth, row, text);
    }
}

/// Editing a name and a value and committing both leaves them in the row.
pub proof fn law_committed_row_holds_both(e: EditView, name: Seq<char>, value: Seq<char>)
    requires
        e.tabs.active is Params,
        e.tabs.editing matches Some(edit) && edit.field is Name && edit.row
            < e.request.params.len() && edit.line.text == name,
    ensures
        ({
            let row = e.tabs.editing->0.row;
            let mid = e.advanced(true);
            let typed = mid.with_editing(
                Some(
                    FieldEditView {
                        row,
                        field: EditField::Value,
                        line: LineView::seeded(value),
                    },
                ),
            );
            let done = typed.advanced(true);
            &&& mid.tabs.editing matches Some(next) && next.row == row && next.field is Value
            &&& done.tabs.editing is None
            &&& done.request.params[row as int].name == name
            &&& done.request.params[row as int].value == value
            &&& done.request.params.len() == e.request.params.len()
        }),
{
}

/// A deleted row is the selected one: the rows before it stay where they are, those behind
/// it move up by one, and nothing else of the request changes. The selection is again on a
/// row where there is one.
pub proof fn law_delete_takes_the_selected_row(e: EditView, i: int)
    requires
        e.tabs.active is Params || e.tabs.active is Headers,
        e.tabs.active is Params ==> e.tabs.params_sel < e.request.params.len(),
        e.tabs.active is Headers ==> e.tabs.headers_sel < e.request.headers.len(),
    ensures
        ({
            let d = e.row_removed(e.tabs.selection());
            &&& e.tabs.active is Params ==> {
                &&& d.request.params.len() == e.request.params.len() - 1
                &&& 0 <= i < e.tabs.params_sel ==> d.request.params[i] == e.request.params[i]
                &&& e.tabs.params_sel <= i < d.request.params.len() ==> d.request.params[i]
                    == e.request.params[i + 1]
                &&& d.request.headers == e.request.headers
                &&& d.request.params.len() > 0 ==> d.tabs.params_sel < d.request.params.len()
                &&& d.tabs.headers_sel == e.tabs.headers_sel
            }
            &&& e.tabs.active is Headers ==> {
                &&& d.request.headers.len() == e.request.headers.len() - 1
                &&& 0 <= i < e.tabs.headers_sel ==> d.request.headers[i] == e.request.headers[i]
                &&& e.tabs.headers_sel <= i < d.request.headers.len() ==> d.request.headers[i]
                    == e.request.headers[i + 1]
                &&& d.request.params == e.request.params
                &&& d.request.headers.len() > 0 ==> d.tabs.headers_sel < d.request.headers.len()
                &&& d.tabs.params_sel == e.tabs.params_sel
            }
            &&& d.request.method == e.request.method
            &&& d.request.url == e.request.url
            &&& d.request.body == e.request.body
            &&& d.request.auth == e.request.auth
            &&& d.request.insecure == e.request.insecure
            &&& d.tabs.active == e.tabs.active
            &&& d.tabs.auth_sel == e.tabs.auth_sel
        }),
{
}

/// A row that is added is the last one, blank and on; the rows before it stay, it is
/// selected, and its name is edited from nothing.
pub proof fn law_added_row_is_blank_and_last(e: EditView, i: int)
    requires
        e.tabs.active is Params || e.tabs.active is Headers,
    ensures
        ({
            let d = e.row_added();
            let old_rows = if e.tabs.active is Params {
                e.request.params
            } else {
                e.request.headers
            };
            let rows = if e.tabs.active is Params {
                d.request.params
            } else {
                d.request.headers
            };
            let sel = if e.tabs.active is Params {
                d.tabs.params_sel
            } else {
                d.tabs.headers_sel
            };
            &&& rows.len() == old_rows.len() + 1
            &&& 0 <= i < old_rows.len() ==> rows[i] == old_rows[i]
            &&& rows.last().name.len() == 0 && rows.last().value.len() == 0 && rows.last().enabled
            &&& sel == old_rows.len()
            &&& d.tabs.editing matches Some(edit) && edit.row == old_rows.len() && edit.field
                is Name && edit.line.text.len() == 0
            &&& e.tabs.active is Params ==> d.request.headers == e.request.headers
            &&& e.tabs.active is Headers ==> d.request.params == e.request.params
            &&& d.request.url == e.request.url
            &&& d.request.method == e.request.method
            &&& d.request.body == e.request.body
            &&& d.request.auth == e.request.auth
            &&& d.request.insecure == e.request.insecure
        }),
{
}

/// A toggle turns the selected row off where it is on and on where it is off, keeps its
/// name and value, and touches no other row.
pub proof fn law_toggle_flips_the_selected_row(e: EditView, i: int)
    requires
        e.tabs.active is Params || e.tabs.active is Headers,
    ensures
        ({
            let d = e.row_toggled();
            let on_params = e.tabs.active is Params;
            let old_rows = if on_params {
                e.request.params
            } else {
                e.request.headers
            };
            let rows = if on_params {
                d.request.params
            } else {
                d.request.headers
            };
            let sel = if on_params {
                e.tabs.params_sel
            } else {
                e.tabs.headers_sel
            };
            &&& rows.len() == old_rows.len()
            &&& 0 <= i < rows.len() ==> rows[i].name == old_rows[i].name && rows[i].value
                == old_rows[i].value && (rows[i].enabled != old_rows[i].enabled <==> i == sel)
            &&& on_params ==> d.request.headers == e.request.headers
            &&& !on_params ==> d.request.params == e.request.params
            &&& d.request.url == e.request.url
            &&& d.request.method == e.request.method
            &&& d.request.body == e.request.body
            &&& d.request.auth == e.request.auth
            &&& d.tabs == e.tabs
        }),
{
}

/// A text that is written into a field of a row goes into that field of that row; the
/// other field, the switch and every other row stay.
pub proof fn law_written_text_stays_in_its_field(
    e: EditView,
    row: nat,
    field: EditField,
    text: Seq<char>,
    i: int,
)
    ensures
        ({
            let p = e.field_written(RequestTab::Params, row, field, text).request;
            let h = e.field_written(RequestTab::Headers, row, field, text).request;
            &&& p.params.len() == e.request.params.len()
            &&& p.headers == e.request.headers
            &&& p.url == e.request.url && p.method == e.request.method && p.body == e.request.body
            &&& 0 <= i < p.params.len() ==> {
                &&& p.params[i].name == (if i == row && field is Name {
                    text
                } else {
                    e.request.params[i].name
                })
                &&& p.params[i].value == (if i == row && field is Value {
                    text
                } else {
                    e.request.params[i].value
                })
                &&& p.params[i].enabled == e.request.params[i].enabled
            }
            &&& h.headers.len() == e.request.headers.len()
            &&& h.params == e.request.params
            &&& h.url == e.request.url && h.method == e.request.method && h.body == e.request.body
            &&& 0 <= i < h.headers.len() ==> {
                &&& h.headers[i].name == (if i == row && field is Name {
                    text
                } else {
                    e.request.headers[i].name
                })
                &&& h.headers[i].value == (if i == row && field is Value {
                    text
                } else {
                    e.request.headers[i].value
                })
                &&& h.headers[i].enabled == e.request.headers[i].enabled
            }
        }),
{
}

/// Enter on a name commits it and goes on to the value of the same row, with its text;
/// Enter on a value commits it and ends the edit; Tab goes from either to the other; Esc
/// commits nothing.
pub proof fn law_edit_moves_between_name_and_value(e: EditView, key: KeyEvent)
    requires
        e.tabs.active is Headers || e.tabs.active is Params,
        e.tabs.editing matches Some(edit) && edit.row < (if e.tabs.active is Params {
            e.request.params.len()
        } else {
            e.request.headers.len()
        }),
    ensures
        ({
            let edit = e.tabs.editing->0;
            let row = edit.row as int;
            let d = e.edit_keyed(key);
            let old_row = if e.tabs.active is Params {
                e.request.params[row]
            } else {
                e.request.headers[row]
            };
            let new_row = if e.tabs.active is Params {
                d.request.params[row]
            } else {
                d.request.headers[row]
            };
            &&& (key.code is Enter || key.code is Tab) && edit.field is Name ==> {
                &&& new_row.name == edit.line.text && new_row.value == old_row.value
                &&& d.tabs.editing matches Some(next) && next.row == edit.row && next.field
                    is Value && next.line.text == old_row.value
            }
            &&& key.code is Enter && edit.field is Value ==> {
                &&& new_row.value == edit.line.text && new_row.name == old_row.name
                &&& d.tabs.editing is None
            }
            &&& key.code is Tab && edit.field is Value ==> {
                &&& new_row.value == edit.line.text && new_row.name == old_row.name
                &&& d.tabs.editing matches Some(next) && next.row == edit.row && next.field
                    is Name && next.line.text == old_row.name
            }
            &&& key.code is Esc ==> {
                &&& d.tabs.editing is None
                &&& old_row.name.len() > 0 || old_row.value.len() > 0 ==> d.request == e.request
            }
            &&& !(key.code is Enter || key.code is Tab || key.code is Esc) ==> d.request
                == e.request && (d.tabs.editing matches Some(next) && next.row == edit.row
                && next.field == edit.field)
        }),
{
}

/// An edit starts on the selected row: a parameter or a header at its name, a row of the Auth tab
/// at its value, each from the text that it has. The placement of a key is turned over instead,
/// and the kind is left to be picked.
pub proof fn law_edit_starts_on_the_selected_row(e: EditView)
    ensures
        ({
            let d = e.row_edited();
            &&& e.tabs.active is Params && e.tabs.params_sel < e.request.params.len() ==> {
                &&& d.request == e.request
                &&& d.tabs.editing matches Some(edit) && edit.row == e.tabs.params_sel && edit.field
                    is Name && edit.line.text
                    == e.request.params[e.tabs.params_sel as int].name
            }
            &&& e.tabs.active is Headers && e.tabs.headers_sel < e.request.headers.len() ==> {
                &&& d.request == e.request
                &&& d.tabs.editing matches Some(edit) && edit.row == e.tabs.headers_sel
                    && edit.field is Name && edit.line.text
                    == e.request.headers[e.tabs.headers_sel as int].name
            }
            &&& e.tabs.active is Auth && e.tabs.auth_sel == 1 ==> (e.request.auth matches Some(
                AuthView::Bearer { token },
            ) ==> (d.tabs.editing matches Some(edit) && edit.row == 1 && edit.field is Value
                && edit.line.text == token))
            &&& e.tabs.active is Auth && e.tabs.auth_sel == 0 ==> d == e
            &&& e.tabs.active is Auth && e.tabs.auth_sel == 3 ==> d == e.row_toggled()
            &&& e.tabs.active is Body ==> d == e
        }),
{
}

} // verus!
