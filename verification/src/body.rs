//! Request bodies and authentication as the request pane edits them.

use vstd::prelude::*;

use crate::model::{
    content, ApiKeyPlacement, Auth, AuthView, Body, BodyKind, BodyView, PartView, Request,
    RequestView,
};

verus! {

/// The body once the editor's text is folded in for saving: blank text drops a
/// text body, and a text without a body makes a plain one. A multipart body has
/// no text.
pub open spec fn body_folded(body: Option<BodyView>, text: Seq<char>) -> Option<BodyView> {
    match body {
        Some(BodyView::Multipart(parts)) => body,
        Some(BodyView::Simple { kind, content }) => if text.len() == 0 {
            None
        } else {
            Some(BodyView::Simple { kind, content: text })
        },
        None => if text.len() == 0 {
            None
        } else {
            Some(BodyView::Simple { kind: BodyKind::Text, content: text })
        },
    }
}

/// The body once the editor's text is put in for sending: a text body keeps its
/// kind even when the text is blank, and only a text that is not blank makes a
/// body.
pub open spec fn body_overwritten(body: Option<BodyView>, text: Seq<char>) -> Option<BodyView> {
    match body {
        Some(BodyView::Multipart(parts)) => body,
        Some(BodyView::Simple { kind, content }) => Some(BodyView::Simple { kind, content: text }),
        None => if text.len() == 0 {
            None
        } else {
            Some(BodyView::Simple { kind: BodyKind::Text, content: text })
        },
    }
}

/// Folds the editor's text into a request's body, for saving and for telling
/// whether anything changed.
pub fn fold_body_text(request: &mut Request, text: String)
    ensures
        final(request)@ == (RequestView {
            body: body_folded(old(request)@.body, text@),
            ..old(request)@
        }),
        *final(request) == (Request { body: final(request).body, ..*old(request) }),
{
    let kind = match &request.body {
        Some(Body::Multipart(_)) => {
            return ;
        },
        Some(Body::Simple { kind, .. }) => *kind,
        None => BodyKind::Text,
    };
    request.body = if text.as_str().is_empty() {
        None
    } else {
        Some(Body::Simple { kind, content: text })
    };
}

/// Puts the editor's text into a request's body, for sending and copying.
pub fn overwrite_body_text(request: &mut Request, text: String)
    ensures
        final(request)@ == (RequestView {
            body: body_overwritten(old(request)@.body, text@),
            ..old(request)@
        }),
        *final(request) == (Request { body: final(request).body, ..*old(request) }),
{
    let kind = match &request.body {
        Some(Body::Multipart(_)) => {
            return ;
        },
        Some(Body::Simple { kind, .. }) => *kind,
        None => {
            if text.as_str().is_empty() {
                return ;
            }
            BodyKind::Text
        },
    };
    request.body = Some(Body::Simple { kind, content: text });
}

/// Folding the text that a text body holds changes nothing, unless it is blank.
pub proof fn law_fold_of_own_text(kind: BodyKind, content: Seq<char>)
    requires
        content.len() > 0,
    ensures
        body_folded(Some(BodyView::Simple { kind, content }), content) == Some(
            BodyView::Simple { kind, content },
        ),
{
}

/// Folding twice is folding once with the last text, unless the first text was
/// blank, which forgets the kind.
pub proof fn law_fold_last_text_wins(body: Option<BodyView>, a: Seq<char>, b: Seq<char>)
    requires
        a.len() > 0,
    ensures
        body_folded(body_folded(body, a), b) == body_folded(body, b),
{
}

/// What is sent and what is saved differ only where the text is blank.
pub proof fn law_sent_body_is_saved_body(body: Option<BodyView>, text: Seq<char>)
    requires
        text.len() > 0,
    ensures
        body_overwritten(body, text) == body_folded(body, text),
{
}

/// The kinds of body that the picker offers, in its order.
#[derive(Debug, Clone, Copy, PartialEq, Eq, Structural)]
pub enum BodyTypeUi {
    /// Plain text.
    Text,
    /// JSON.
    Json,
    /// An encoded form.
    Form,
    /// Named parts.
    Multipart,
}

impl BodyTypeUi {
    /// The kind at a place of the picker.
    pub open spec fn spec_at(index: nat) -> Option<BodyTypeUi> {
        if index == 0 {
            Some(BodyTypeUi::Text)
        } else if index == 1 {
            Some(BodyTypeUi::Json)
        } else if index == 2 {
            Some(BodyTypeUi::Form)
        } else if index == 3 {
            Some(BodyTypeUi::Multipart)
        } else {
            None
        }
    }

    /// The kind at a place of the picker.
    pub fn at(index: usize) -> (r: Option<BodyTypeUi>)
        ensures
            r == BodyTypeUi::spec_at(index as nat),
    {
        if index == 0 {
            Some(BodyTypeUi::Text)
        } else if index == 1 {
            Some(BodyTypeUi::Json)
        } else if index == 2 {
            Some(BodyTypeUi::Form)
        } else if index == 3 {
            Some(BodyTypeUi::Multipart)
        } else {
            None
        }
    }

    /// The kind of a body; a request without one counts as plain text.
    pub open spec fn spec_from_body(body: Option<BodyView>) -> BodyTypeUi {
        match body {
            Some(BodyView::Simple { kind: BodyKind::Json, .. }) => BodyTypeUi::Json,
            Some(BodyView::Simple { kind: BodyKind::Form, .. }) => BodyTypeUi::Form,
            Some(BodyView::Multipart(_)) => BodyTypeUi::Multipart,
            _ => BodyTypeUi::Text,
        }
    }

    /// The kind of a body; a request without one counts as plain text.
    pub fn from_body(body: &Option<Body>) -> (r: BodyTypeUi)
        ensures
            r == BodyTypeUi::spec_from_body(content(*body)),
    {
        match body {
            Some(Body::Simple { kind: BodyKind::Json, .. }) => BodyTypeUi::Json,
            Some(Body::Simple { kind: BodyKind::Form, .. }) => BodyTypeUi::Form,
            Some(Body::Multipart(_)) => BodyTypeUi::Multipart,
            _ => BodyTypeUi::Text,
        }
    }

    /// The kind's name in the picker.
    pub open spec fn spec_label(self) -> Seq<char> {
        match self {
            BodyTypeUi::Text => "text"@,
            BodyTypeUi::Json => "json"@,
            BodyTypeUi::Form => "form"@,
            BodyTypeUi::Multipart => "multipart"@,
        }
    }

    /// The kind's name in the picker.
    pub fn label(self) -> (r: &'static str)
        ensures
            r@ == self.spec_label(),
    {
        match self {
            BodyTypeUi::Text => "text",
            BodyTypeUi::Json => "json",
            BodyTypeUi::Form => "form",
            BodyTypeUi::Multipart => "multipart",
        }
    }
}

/// The text of a body; a multipart body and a missing one have none.
pub open spec fn body_text(body: Option<BodyView>) -> Seq<char> {
    match body {
        Some(BodyView::Simple { content, .. }) => content,
        _ => Seq::empty(),
    }
}

/// The text of a body; a multipart body and a missing one have none.
pub fn text_of_body(body: &Option<Body>) -> (r: String)
    ensures
        r@ == body_text(content(*body)),
{
    match body {
        Some(Body::Simple { content, .. }) => content.clone(),
        _ => String::new(),
    }
}

/// A body turned into another kind: among the text kinds the text is kept, and
/// to or from parts it is dropped.
pub open spec fn body_converted(body: Option<BodyView>, kind: BodyTypeUi) -> Option<BodyView> {
    if BodyTypeUi::spec_from_body(body) == kind {
        body
    } else {
        Some(
            match kind {
                BodyTypeUi::Text => BodyView::Simple {
                    kind: BodyKind::Text,
                    content: body_text(body),
                },
                BodyTypeUi::Json => BodyView::Simple {
                    kind: BodyKind::Json,
                    content: body_text(body),
                },
                BodyTypeUi::Form => BodyView::Simple {
                    kind: BodyKind::Form,
                    content: body_text(body),
                },
                BodyTypeUi::Multipart => BodyView::Multipart(Seq::empty()),
            },
        )
    }
}

/// Turns a request's body into another kind. Returns whether it was of another
/// kind before.
pub fn convert_body(request: &mut Request, kind: BodyTypeUi) -> (changed: bool)
    ensures
        final(request)@ == (RequestView {
            body: body_converted(old(request)@.body, kind),
            ..old(request)@
        }),
        *final(request) == (Request { body: final(request).body, ..*old(request) }),
        changed == (BodyTypeUi::spec_from_body(old(request)@.body) != kind),
        !changed ==> *final(request) == *old(request),
{
    if BodyTypeUi::from_body(&request.body) == kind {
        return false;
    }
    let carried = text_of_body(&request.body);
    request.body = Some(
        match kind {
            BodyTypeUi::Text => Body::Simple { kind: BodyKind::Text, content: carried },
            BodyTypeUi::Json => Body::Simple { kind: BodyKind::Json, content: carried },
            BodyTypeUi::Form => Body::Simple { kind: BodyKind::Form, content: carried },
            BodyTypeUi::Multipart => {
                let none: Vec<crate::model::Part> = Vec::new();
                assert(crate::model::contents(none@) =~= Seq::empty());
                Body::Multipart(none)
            },
        },
    );
    true
}

/// Switching among the text kinds never loses text.
pub proof fn law_text_survives_kind_switch(body: Option<BodyView>, kind: BodyTypeUi)
    requires
        kind != BodyTypeUi::Multipart,
        !(body matches Some(BodyView::Multipart(_))),
    ensures
        body_text(body_converted(body, kind)) == body_text(body),
{
}

/// How many rows the Auth tab has: the kind, and one for each field.
pub open spec fn spec_auth_field_count(auth: Option<AuthView>) -> nat {
    match auth {
        None => 1,
        Some(AuthView::Basic { .. }) => 3,
        Some(AuthView::Bearer { .. }) => 2,
        Some(AuthView::ApiKey { .. }) => 4,
    }
}

/// How many rows the Auth tab has: the kind, and one for each field.
pub fn auth_field_count(auth: &Option<Auth>) -> (r: usize)
    ensures
        r == spec_auth_field_count(content(*auth)),
{
    match auth {
        None => 1,
        Some(Auth::Basic { .. }) => 3,
        Some(Auth::Bearer { .. }) => 2,
        Some(Auth::ApiKey { .. }) => 4,
    }
}

/// The text of a row of the Auth tab; the kind's row and the placement's row
/// have none.
pub open spec fn spec_auth_field_text(auth: Option<AuthView>, row: nat) -> Option<Seq<char>> {
    match auth {
        Some(AuthView::Basic { username, password }) => if row == 1 {
            Some(username)
        } else if row == 2 {
            Some(password)
        } else {
            None
        },
        Some(AuthView::Bearer { token }) => if row == 1 {
            Some(token)
        } else {
            None
        },
        Some(AuthView::ApiKey { name, value, .. }) => if row == 1 {
            Some(name)
        } else if row == 2 {
            Some(value)
        } else {
            None
        },
        None => None,
    }
}

/// The text of a row of the Auth tab; the kind's row and the placement's row
/// have none.
pub fn auth_field_text(auth: &Option<Auth>, row: usize) -> (r: Option<String>)
    ensures
        content(r) == spec_auth_field_text(content(*auth), row as nat),
{
    match auth {
        Some(Auth::Basic { username, password }) => if row == 1 {
            Some(username.clone())
        } else if row == 2 {
            Some(password.clone())
        } else {
            None
        },
        Some(Auth::Bearer { token }) => if row == 1 {
            Some(token.clone())
        } else {
            None
        },
        Some(Auth::ApiKey { name, value, .. }) => if row == 1 {
            Some(name.clone())
        } else if row == 2 {
            Some(value.clone())
        } else {
            None
        },
        None => None,
    }
}

/// The authentication once a row of the Auth tab holds `text`; a row without
/// text changes nothing.
pub open spec fn auth_written(auth: Option<AuthView>, row: nat, text: Seq<char>) -> Option<
    AuthView,
> {
    match auth {
        Some(AuthView::Basic { username, password }) => if row == 1 {
            Some(AuthView::Basic { username: text, password })
        } else if row == 2 {
            Some(AuthView::Basic { username, password: text })
        } else {
            auth
        },
        Some(AuthView::Bearer { token }) => if row == 1 {
            Some(AuthView::Bearer { token: text })
        } else {
            auth
        },
        Some(AuthView::ApiKey { name, value, placement }) => if row == 1 {
            Some(AuthView::ApiKey { name: text, value, placement })
        } else if row == 2 {
            Some(AuthView::ApiKey { name, value: text, placement })
        } else {
            auth
        },
        None => None,
    }
}

/// Writes the text of a row of the Auth tab. The fields have fixed labels, so
/// the text is always the row's value.
pub fn write_auth_field(auth: &mut Option<Auth>, row: usize, text: String)
    ensures
        content(*final(auth)) == auth_written(content(*old(auth)), row as nat, text@),
{
    match auth {
        Some(Auth::Basic { username, password }) => {
            if row == 1 {
                *username = text;
            } else if row == 2 {
                *password = text;
            }
        },
        Some(Auth::Bearer { token }) => {
            if row == 1 {
                *token = text;
            }
        },
        Some(Auth::ApiKey { name, value, .. }) => {
            if row == 1 {
                *name = text;
            } else if row == 2 {
                *value = text;
            }
        },
        None => {},
    }
}

/// What is written to a row of the Auth tab is read back from it.
pub proof fn law_auth_write_reads_back(auth: Option<AuthView>, row: nat, text: Seq<char>)
    requires
        spec_auth_field_text(auth, row) is Some,
    ensures
        spec_auth_field_text(auth_written(auth, row, text), row) == Some(text),
        spec_auth_field_count(auth_written(auth, row, text)) == spec_auth_field_count(auth),
{
}

/// The authentication once the placement's row is toggled.
pub open spec fn placement_toggled(auth: Option<AuthView>, row: nat) -> Option<AuthView> {
    match auth {
        Some(AuthView::ApiKey { name, value, placement }) if row == 3 => Some(
            AuthView::ApiKey {
                name,
                value,
                placement: match placement {
                    ApiKeyPlacement::Header => ApiKeyPlacement::Query,
                    ApiKeyPlacement::Query => ApiKeyPlacement::Header,
                },
            },
        ),
        _ => auth,
    }
}

/// Toggles where an API key goes, on the placement's row of the Auth tab.
pub fn toggle_auth_placement(auth: &mut Option<Auth>, row: usize)
    ensures
        content(*final(auth)) == placement_toggled(content(*old(auth)), row as nat),
{
    if row == 3 {
        if let Some(Auth::ApiKey { placement, .. }) = auth {
            *placement = match *placement {
                ApiKeyPlacement::Header => ApiKeyPlacement::Query,
                ApiKeyPlacement::Query => ApiKeyPlacement::Header,
            };
        }
    }
}

/// Toggling the placement twice restores it.
pub proof fn law_placement_toggle_twice(auth: Option<AuthView>, row: nat)
    ensures
        placement_toggled(placement_toggled(auth, row), row) == auth,
{
}

/// The authentication that a choice of the kind picker starts with; another
/// choice keeps what is there.
pub open spec fn auth_of_kind(auth: Option<AuthView>, index: nat) -> Option<AuthView> {
    if index == 0 {
        None
    } else if index == 1 {
        Some(AuthView::Basic { username: Seq::empty(), password: Seq::empty() })
    } else if index == 2 {
        Some(AuthView::Bearer { token: Seq::empty() })
    } else if index == 3 {
        Some(
            AuthView::ApiKey {
                name: Seq::empty(),
                value: Seq::empty(),
                placement: ApiKeyPlacement::Header,
            },
        )
    } else {
        auth
    }
}

/// The blank authentication of a choice of the kind picker.
pub fn blank_auth(index: usize) -> (r: Option<Auth>)
    requires
        index < 4,
    ensures
        content(r) == auth_of_kind(None, index as nat),
{
    if index == 0 {
        None
    } else if index == 1 {
        Some(Auth::Basic { username: String::new(), password: String::new() })
    } else if index == 2 {
        Some(Auth::Bearer { token: String::new() })
    } else {
        Some(
            Auth::ApiKey {
                name: String::new(),
                value: String::new(),
                placement: ApiKeyPlacement::Header,
            },
        )
    }
}

/// The text of the editor that a body takes when it is saved: it keeps the kind that it has,
/// is a plain text where it had none, and is no body where the text is empty. What is sent
/// differs in that an emptied text body is still sent as one. Parts are not touched by either.
pub proof fn law_body_takes_the_text(
    kind: BodyKind,
    content: Seq<char>,
    text: Seq<char>,
    parts: Seq<PartView>,
)
    ensures
        text.len() > 0 ==> body_folded(Some(BodyView::Simple { kind, content }), text) == Some(
            BodyView::Simple { kind, content: text },
        ),
        text.len() > 0 ==> body_folded(None, text) == Some(
            BodyView::Simple { kind: BodyKind::Text, content: text },
        ),
        text.len() == 0 ==> body_folded(Some(BodyView::Simple { kind, content }), text) is None,
        text.len() == 0 ==> body_folded(None, text) is None,
        body_folded(Some(BodyView::Multipart(parts)), text) == Some(BodyView::Multipart(parts)),
        body_overwritten(Some(BodyView::Simple { kind, content }), text) == Some(
            BodyView::Simple { kind, content: text },
        ),
        text.len() > 0 ==> body_overwritten(None, text) == Some(
            BodyView::Simple { kind: BodyKind::Text, content: text },
        ),
        text.len() == 0 ==> body_overwritten(None, text) is None,
        body_overwritten(Some(BodyView::Multipart(parts)), text) == Some(
            BodyView::Multipart(parts),
        ),
        body_text(Some(BodyView::Simple { kind, content })) == content,
        body_text(None).len() == 0,
        body_text(Some(BodyView::Multipart(parts))).len() == 0,
{
}

/// A body that is converted has the kind that was asked for, and one that has it stays as it is.
pub proof fn law_converted_body_has_the_kind(body: Option<BodyView>, kind: BodyTypeUi)
    ensures
        BodyTypeUi::spec_from_body(body) == kind ==> body_converted(body, kind) == body,
        BodyTypeUi::spec_from_body(body_converted(body, kind)) == kind,
        !(kind is Multipart) ==> body_text(body_converted(body, kind)) == body_text(body),
        BodyTypeUi::spec_from_body(None) is Text,
        forall|content: Seq<char>| #[trigger]
            BodyTypeUi::spec_from_body(
                Some(BodyView::Simple { kind: BodyKind::Json, content }),
            ) is Json,
        forall|content: Seq<char>| #[trigger]
            BodyTypeUi::spec_from_body(
                Some(BodyView::Simple { kind: BodyKind::Form, content }),
            ) is Form,
{
}

/// The rows of the Auth tab: the kind first, then the user name and the password, the token, or
/// the name, the value and the placement of the key. A text goes to its row's field and no other.
pub proof fn law_auth_rows_are_in_order(
    user: Seq<char>,
    password: Seq<char>,
    placement: ApiKeyPlacement,
    text: Seq<char>,
)
    ensures
        ({
            let basic = Some(AuthView::Basic { username: user, password });
            let bearer = Some(AuthView::Bearer { token: user });
            let key = Some(AuthView::ApiKey { name: user, value: password, placement });
            &&& spec_auth_field_count(None) == 1
            &&& spec_auth_field_count(basic) == 3
            &&& spec_auth_field_count(bearer) == 2
            &&& spec_auth_field_count(key) == 4
            &&& spec_auth_field_text(basic, 1) == Some(user)
            &&& spec_auth_field_text(basic, 2) == Some(password)
            &&& spec_auth_field_text(bearer, 1) == Some(user)
            &&& spec_auth_field_text(key, 1) == Some(user)
            &&& spec_auth_field_text(key, 2) == Some(password)
            &&& spec_auth_field_text(basic, 0) is None
            &&& spec_auth_field_text(key, 3) is None
            &&& auth_written(basic, 1, text) == Some(AuthView::Basic { username: text, password })
            &&& auth_written(basic, 2, text) == Some(
                AuthView::Basic { username: user, password: text },
            )
            &&& auth_written(bearer, 1, text) == Some(AuthView::Bearer { token: text })
            &&& auth_written(key, 1, text) == Some(
                AuthView::ApiKey { name: text, value: password, placement },
            )
            &&& auth_written(key, 2, text) == Some(
                AuthView::ApiKey { name: user, value: text, placement },
            )
            &&& auth_written(basic, 0, text) == basic
            &&& placement_toggled(key, 3) matches Some(
                AuthView::ApiKey { name, value, placement: p },
            ) && name == user && value == password && p != placement
            &&& placement_toggled(key, 1) == key
            &&& placement_toggled(basic, 3) == basic
        }),
{
}

/// The kinds of authentication to pick from start blank, and a key goes into a header.
pub proof fn law_picked_auth_is_blank(auth: Option<AuthView>)
    ensures
        auth_of_kind(auth, 0) is None,
        auth_of_kind(auth, 1) matches Some(AuthView::Basic { username, password }) && username.len()
            == 0 && password.len() == 0,
        auth_of_kind(auth, 2) matches Some(AuthView::Bearer { token }) && token.len() == 0,
        auth_of_kind(auth, 3) matches Some(AuthView::ApiKey { name, value, placement })
            && name.len() == 0 && value.len() == 0 && placement is Header,
{
}

} // verus!
