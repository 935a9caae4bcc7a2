//! Requests and endpoints, and the content that each of them stands for.
//!
//! Two values have the same content when their views are equal: names, values
//! and flags agree, wherever the text is stored.

use vstd::prelude::*;

verus! {

/// Values that are compared and copied by content.
pub trait Content: View + Sized {
    /// Whether `self` and `other` have the same content.
    fn same(&self, other: &Self) -> (r: bool)
        ensures
            r == (self@ == other@),
    ;

    /// A copy of `self`.
    fn copy(&self) -> (r: Self)
        ensures
            r@ == self@,
    ;
}

/// The content of each item of a vector.
pub open spec fn contents<T: View>(v: Seq<T>) -> Seq<T::V> {
    v.map_values(|t: T| t@)
}

/// The content of an optional value.
pub open spec fn content<T: View>(o: Option<T>) -> Option<T::V> {
    match o {
        Some(t) => Some(t@),
        None => None,
    }
}

/// Whether two vectors have the same content, item by item.
pub fn same_all<T: Content>(a: &Vec<T>, b: &Vec<T>) -> (r: bool)
    ensures
        r == (contents(a@) == contents(b@)),
{
    if a.len() != b.len() {
        assert(contents(a@).len() != contents(b@).len());
        return false;
    }
    let mut i: usize = 0;
    while i < a.len()
        invariant
            i <= a.len() == b.len(),
            forall|j: int| 0 <= j < i ==> a@[j]@ == b@[j]@,
        decreases a.len() - i,
    {
        if !a[i].same(&b[i]) {
            assert(contents(a@)[i as int] != contents(b@)[i as int]);
            return false;
        }
        i = i + 1;
    }
    assert(contents(a@) =~= contents(b@));
    true
}

/// A copy of a vector, item by item.
pub fn copy_all<T: Content>(a: &Vec<T>) -> (r: Vec<T>)
    ensures
        contents(r@) == contents(a@),
{
    let mut out: Vec<T> = Vec::new();
    let mut i: usize = 0;
    while i < a.len()
        invariant
            i <= a.len(),
            contents(out@) == contents(a@.take(i as int)),
        decreases a.len() - i,
    {
        let ghost before = out@;
        out.push(a[i].copy());
        assert(contents(out@) =~= contents(before).push(a@[i as int]@));
        assert(contents(a@.take(i + 1)) =~= contents(a@.take(i as int)).push(a@[i as int]@));
        i = i + 1;
    }
    assert(a@.take(a@.len() as int) =~= a@);
    out
}

/// Whether two optional values have the same content.
pub fn same_option<T: Content>(a: &Option<T>, b: &Option<T>) -> (r: bool)
    ensures
        r == (content(*a) == content(*b)),
{
    match (a, b) {
        (Some(x), Some(y)) => x.same(y),
        (None, None) => true,
        _ => false,
    }
}

/// A copy of an optional value.
pub fn copy_option<T: Content>(a: &Option<T>) -> (r: Option<T>)
    ensures
        content(r) == content(*a),
{
    match a {
        Some(x) => Some(x.copy()),
        None => None,
    }
}

impl Content for String {
    fn same(&self, other: &Self) -> (r: bool) {
        *self == *other
    }

    fn copy(&self) -> (r: Self) {
        self.clone()
    }
}

/// An HTTP method.
#[derive(Debug, Clone, Copy, PartialEq, Eq, Structural)]
pub enum Method {
    /// `GET`.
    Get,
    /// `POST`.
    Post,
    /// `PUT`.
    Put,
    /// `PATCH`.
    Patch,
    /// `DELETE`.
    Delete,
    /// `HEAD`.
    Head,
    /// `OPTIONS`.
    Options,
}

impl Method {
    /// The method after `self` in the cycle.
    pub open spec fn spec_cycle(self) -> Method {
        match self {
            Method::Get => Method::Post,
            Method::Post => Method::Put,
            Method::Put => Method::Patch,
            Method::Patch => Method::Delete,
            Method::Delete => Method::Head,
            Method::Head => Method::Options,
            Method::Options => Method::Get,
        }
    }

    /// The method after `self`: GET, POST, PUT, PATCH, DELETE, HEAD, OPTIONS, GET.
    pub fn cycle(self) -> (r: Method)
        ensures
            r == self.spec_cycle(),
    {
        match self {
            Method::Get => Method::Post,
            Method::Post => Method::Put,
            Method::Put => Method::Patch,
            Method::Patch => Method::Delete,
            Method::Delete => Method::Head,
            Method::Head => Method::Options,
            Method::Options => Method::Get,
        }
    }

    /// The method's token on the wire.
    pub open spec fn spec_name(self) -> Seq<char> {
        match self {
            Method::Get => "GET"@,
            Method::Post => "POST"@,
            Method::Put => "PUT"@,
            Method::Patch => "PATCH"@,
            Method::Delete => "DELETE"@,
            Method::Head => "HEAD"@,
            Method::Options => "OPTIONS"@,
        }
    }

    /// The method's token on the wire.
    pub fn name(self) -> (r: &'static str)
        ensures
            r@ == self.spec_name(),
    {
        match self {
            Method::Get => "GET",
            Method::Post => "POST",
            Method::Put => "PUT",
            Method::Patch => "PATCH",
            Method::Delete => "DELETE",
            Method::Head => "HEAD",
            Method::Options => "OPTIONS",
        }
    }
}

/// The content of a header or a query parameter.
pub struct RowView {
    /// The row's name.
    pub name: Seq<char>,
    /// The row's value.
    pub value: Seq<char>,
    /// Whether the row is sent.
    pub enabled: bool,
}

/// A request header.
#[derive(Debug)]
pub struct Header {
    /// The header's name.
    pub name: String,
    /// The header's value.
    pub value: String,
    /// Whether the header is sent.
    pub enabled: bool,
}

impl View for Header {
    type V = RowView;

    open spec fn view(&self) -> RowView {
        RowView { name: self.name@, value: self.value@, enabled: self.enabled }
    }
}

impl Content for Header {
    fn same(&self, other: &Self) -> (r: bool) {
        self.name == other.name && self.value == other.value && self.enabled == other.enabled
    }

    fn copy(&self) -> (r: Self) {
        Header { name: self.name.clone(), value: self.value.clone(), enabled: self.enabled }
    }
}

/// A query parameter.
#[derive(Debug)]
pub struct Param {
    /// The parameter's name.
    pub name: String,
    /// The parameter's value.
    pub value: String,
    /// Whether the parameter is sent.
    pub enabled: bool,
}

impl View for Param {
    type V = RowView;

    open spec fn view(&self) -> RowView {
        RowView { name: self.name@, value: self.value@, enabled: self.enabled }
    }
}

impl Content for Param {
    fn same(&self, other: &Self) -> (r: bool) {
        self.name == other.name && self.value == other.value && self.enabled == other.enabled
    }

    fn copy(&self) -> (r: Self) {
        Param { name: self.name.clone(), value: self.value.clone(), enabled: self.enabled }
    }
}

/// Where an API key goes.
#[derive(Debug, Clone, Copy, PartialEq, Eq, Structural)]
pub enum ApiKeyPlacement {
    /// In a header.
    Header,
    /// In the query string.
    Query,
}

/// How a request authenticates.
#[derive(Debug)]
pub enum Auth {
    /// A user name and a password.
    Basic {
        /// The user name.
        username: String,
        /// The password.
        password: String,
    },
    /// A bearer token.
    Bearer {
        /// The token.
        token: String,
    },
    /// A named key.
    ApiKey {
        /// The key's name.
        name: String,
        /// The key's value.
        value: String,
        /// Where the key goes.
        placement: ApiKeyPlacement,
    },
}

/// The content of an [`Auth`].
pub enum AuthView {
    /// A user name and a password.
    Basic {
        /// The user name.
        username: Seq<char>,
        /// The password.
        password: Seq<char>,
    },
    /// A bearer token.
    Bearer {
        /// The token.
        token: Seq<char>,
    },
    /// A named key.
    ApiKey {
        /// The key's name.
        name: Seq<char>,
        /// The key's value.
        value: Seq<char>,
        /// Where the key goes.
        placement: ApiKeyPlacement,
    },
}

impl View for Auth {
    type V = AuthView;

    open spec fn view(&self) -> AuthView {
        match *self {
            Auth::Basic { username, password } => AuthView::Basic {
                username: username@,
                password: password@,
            },
            Auth::Bearer { token } => AuthView::Bearer { token: token@ },
            Auth::ApiKey { name, value, placement } => AuthView::ApiKey {
                name: name@,
                value: value@,
                placement,
            },
        }
    }
}

impl Content for Auth {
    fn same(&self, other: &Self) -> (r: bool) {
        match (self, other) {
            (
                Auth::Basic { username: u1, password: p1 },
                Auth::Basic { username: u2, password: p2 },
            ) => *u1 == *u2 && *p1 == *p2,
            (Auth::Bearer { token: t1 }, Auth::Bearer { token: t2 }) => *t1 == *t2,
            (
                Auth::ApiKey { name: n1, value: v1, placement: p1 },
                Auth::ApiKey { name: n2, value: v2, placement: p2 },
            ) => *n1 == *n2 && *v1 == *v2 && *p1 == *p2,
            _ => false,
        }
    }

    fn copy(&self) -> (r: Self) {
        match self {
            Auth::Basic { username, password } => Auth::Basic {
                username: username.clone(),
                password: password.clone(),
            },
            Auth::Bearer { token } => Auth::Bearer { token: token.clone() },
            Auth::ApiKey { name, value, placement } => Auth::ApiKey {
                name: name.clone(),
                value: value.clone(),
                placement: *placement,
            },
        }
    }
}

/// How a body's text is to be read.
#[derive(Debug, Clone, Copy, PartialEq, Eq, Structural)]
pub enum BodyKind {
    /// Plain text.
    Text,
    /// JSON.
    Json,
    /// An encoded form.
    Form,
}

/// What a part of a multipart body holds.
#[derive(Debug)]
pub enum PartValue {
    /// A text.
    Text(String),
    /// The bytes of a file.
    File {
        /// The file's path.
        path: String,
        /// The name that is sent, if it is not the path's own.
        filename: Option<String>,
        /// The media type that is sent, if it is not guessed.
        mime: Option<String>,
    },
}

/// The content of a [`PartValue`].
pub enum PartValueView {
    /// A text.
    Text(Seq<char>),
    /// The bytes of a file.
    File {
        /// The file's path.
        path: Seq<char>,
        /// The name that is sent.
        filename: Option<Seq<char>>,
        /// The media type that is sent.
        mime: Option<Seq<char>>,
    },
}

impl View for PartValue {
    type V = PartValueView;

    open spec fn view(&self) -> PartValueView {
        match *self {
            PartValue::Text(t) => PartValueView::Text(t@),
            PartValue::File { path, filename, mime } => PartValueView::File {
                path: path@,
                filename: content(filename),
                mime: content(mime),
            },
        }
    }
}

impl Content for PartValue {
    fn same(&self, other: &Self) -> (r: bool) {
        match (self, other) {
            (PartValue::Text(a), PartValue::Text(b)) => *a == *b,
            (
                PartValue::File { path: p1, filename: f1, mime: m1 },
                PartValue::File { path: p2, filename: f2, mime: m2 },
            ) => *p1 == *p2 && same_option(f1, f2) && same_option(m1, m2),
            _ => false,
        }
    }

    fn copy(&self) -> (r: Self) {
        match self {
            PartValue::Text(t) => PartValue::Text(t.clone()),
            PartValue::File { path, filename, mime } => PartValue::File {
                path: path.clone(),
                filename: copy_option(filename),
                mime: copy_option(mime),
            },
        }
    }
}

/// One part of a multipart body.
#[derive(Debug)]
pub struct Part {
    /// The part's name.
    pub name: String,
    /// What the part holds.
    pub value: PartValue,
    /// Whether the part is sent.
    pub enabled: bool,
}

/// The content of a [`Part`].
pub struct PartView {
    /// The part's name.
    pub name: Seq<char>,
    /// What the part holds.
    pub value: PartValueView,
    /// Whether the part is sent.
    pub enabled: bool,
}

impl View for Part {
    type V = PartView;

    open spec fn view(&self) -> PartView {
        PartView { name: self.name@, value: self.value@, enabled: self.enabled }
    }
}

impl Content for Part {
    fn same(&self, other: &Self) -> (r: bool) {
        self.name == other.name && self.value.same(&other.value) && self.enabled == other.enabled
    }

    fn copy(&self) -> (r: Self) {
        Part { name: self.name.clone(), value: self.value.copy(), enabled: self.enabled }
    }
}

/// A request body.
#[derive(Debug)]
pub enum Body {
    /// One text.
    Simple {
        /// How the text is to be read.
        kind: BodyKind,
        /// The text.
        content: String,
    },
    /// Named parts.
    Multipart(Vec<Part>),
}

/// The content of a [`Body`].
pub enum BodyView {
    /// One text.
    Simple {
        /// How the text is to be read.
        kind: BodyKind,
        /// The text.
        content: Seq<char>,
    },
    /// Named parts.
    Multipart(Seq<PartView>),
}

impl View for Body {
    type V = BodyView;

    open spec fn view(&self) -> BodyView {
        match *self {
            Body::Simple { kind, content } => BodyView::Simple { kind, content: content@ },
            Body::Multipart(parts) => BodyView::Multipart(contents(parts@)),
        }
    }
}

impl Content for Body {
    fn same(&self, other: &Self) -> (r: bool) {
        match (self, other) {
            (Body::Simple { kind: k1, content: c1 }, Body::Simple { kind: k2, content: c2 }) => *k1
                == *k2 && *c1 == *c2,
            (Body::Multipart(a), Body::Multipart(b)) => same_all(a, b),
            _ => false,
        }
    }

    fn copy(&self) -> (r: Self) {
        match self {
            Body::Simple { kind, content } => Body::Simple { kind: *kind, content: content.clone() },
            Body::Multipart(parts) => Body::Multipart(copy_all(parts)),
        }
    }
}

/// A request as it is edited and sent.
#[derive(Debug)]
pub struct Request {
    /// The method.
    pub method: Method,
    /// The URL without its query.
    pub url: String,
    /// The headers in order.
    pub headers: Vec<Header>,
    /// The query parameters in order.
    pub params: Vec<Param>,
    /// The body, if there is one.
    pub body: Option<Body>,
    /// How the request authenticates, if it does.
    pub auth: Option<Auth>,
    /// Whether TLS certificates go unchecked for this request.
    pub insecure: bool,
}

/// The content of a [`Request`].
pub struct RequestView {
    /// The method.
    pub method: Method,
    /// The URL.
    pub url: Seq<char>,
    /// The headers in order.
    pub headers: Seq<RowView>,
    /// The query parameters in order.
    pub params: Seq<RowView>,
    /// The body.
    pub body: Option<BodyView>,
    /// How the request authenticates.
    pub auth: Option<AuthView>,
    /// Whether TLS certificates go unchecked.
    pub insecure: bool,
}

impl View for Request {
    type V = RequestView;

    open spec fn view(&self) -> RequestView {
        RequestView {
            method: self.method,
            url: self.url@,
            headers: contents(self.headers@),
            params: contents(self.params@),
            body: content(self.body),
            auth: content(self.auth),
            insecure: self.insecure,
        }
    }
}

impl Content for Request {
    fn same(&self, other: &Self) -> (r: bool) {
        self.method == other.method && self.url == other.url && same_all(
            &self.headers,
            &other.headers,
        ) && same_all(&self.params, &other.params) && same_option(&self.body, &other.body)
            && same_option(&self.auth, &other.auth) && self.insecure == other.insecure
    }

    fn copy(&self) -> (r: Self) {
        Request {
            method: self.method,
            url: self.url.clone(),
            headers: copy_all(&self.headers),
            params: copy_all(&self.params),
            body: copy_option(&self.body),
            auth: copy_option(&self.auth),
            insecure: self.insecure,
        }
    }
}

/// A named request with its place among its siblings.
#[derive(Debug)]
pub struct Endpoint {
    /// The place among the siblings.
    pub seq: u32,
    /// The name.
    pub name: String,
    /// The request.
    pub request: Request,
}

/// The content of an [`Endpoint`].
pub struct EndpointView {
    /// The place among the siblings.
    pub seq: u32,
    /// The name.
    pub name: Seq<char>,
    /// The request.
    pub request: RequestView,
}

impl View for Endpoint {
    type V = EndpointView;

    open spec fn view(&self) -> EndpointView {
        EndpointView { seq: self.seq, name: self.name@, request: self.request@ }
    }
}

impl Content for Endpoint {
    fn same(&self, other: &Self) -> (r: bool) {
        self.seq == other.seq && self.name == other.name && self.request.same(&other.request)
    }

    fn copy(&self) -> (r: Self) {
        Endpoint { seq: self.seq, name: self.name.clone(), request: self.request.copy() }
    }
}

/// The methods follow each other as GET, POST, PUT, PATCH, DELETE, HEAD and OPTIONS, and round.
pub proof fn law_methods_follow_each_other()
    ensures
        Method::Get.spec_cycle() == Method::Post,
        Method::Post.spec_cycle() == Method::Put,
        Method::Put.spec_cycle() == Method::Patch,
        Method::Patch.spec_cycle() == Method::Delete,
        Method::Delete.spec_cycle() == Method::Head,
        Method::Head.spec_cycle() == Method::Options,
        Method::Options.spec_cycle() == Method::Get,
{
}

/// No two methods have the same name.
pub proof fn law_method_names_are_distinct(a: Method, b: Method)
    requires
        a.spec_name() == b.spec_name(),
    ensures
        a == b,
{
    reveal_strlit("GET");
    reveal_strlit("POST");
    reveal_strlit("PUT");
    reveal_strlit("PATCH");
    reveal_strlit("DELETE");
    reveal_strlit("HEAD");
    reveal_strlit("OPTIONS");
    let (s, t) = (a.spec_name(), b.spec_name());
    assert(s.len() == t.len() && s[0] == t[0] && s[1] == t[1]);
}

} // verus!
