//! Session settings: the panel that changes them, and what of it is saved.

use vstd::prelude::*;
use vstd::string::*;

use crate::load::LoadCheck;
use crate::mode::UrlEditMode;
use crate::notice::Notice;

verus! {

/// What is said of the session's TLS checks.
pub open spec fn spec_insecure_message(insecure: bool) -> Seq<char> {
    if insecure {
        "⚠ TLS verification OFF — certificates not checked"@
    } else {
        "TLS verification on"@
    }
}

/// What is said of the session's TLS checks.
pub fn insecure_message(insecure: bool) -> (r: String)
    ensures
        r@ == spec_insecure_message(insecure),
{
    if insecure {
        "⚠ TLS verification OFF — certificates not checked".to_owned()
    } else {
        "TLS verification on".to_owned()
    }
}

/// What is said of an endpoint's own TLS checks.
pub open spec fn spec_endpoint_insecure_message(insecure: bool) -> Seq<char> {
    if insecure {
        "⚠ TLS verification OFF for this endpoint — saved"@
    } else {
        "TLS verification on for this endpoint — saved"@
    }
}

/// What is said of an endpoint's own TLS checks.
pub fn endpoint_insecure_message(insecure: bool) -> (r: String)
    ensures
        r@ == spec_endpoint_insecure_message(insecure),
{
    if insecure {
        "⚠ TLS verification OFF for this endpoint — saved".to_owned()
    } else {
        "TLS verification on for this endpoint — saved".to_owned()
    }
}

/// How redirects are followed.
#[derive(Debug, Clone, Copy, PartialEq, Eq, Structural)]
pub enum RedirectPolicy {
    /// Credentials are left out.
    Strip,
    /// They are not followed.
    Strict,
    /// They are followed as they come.
    FollowAll,
}

/// What a redirect policy is called.
pub open spec fn spec_redirect_label(policy: RedirectPolicy) -> Seq<char> {
    match policy {
        RedirectPolicy::Strip => "strip"@,
        RedirectPolicy::Strict => "strict"@,
        RedirectPolicy::FollowAll => "follow-all"@,
    }
}

/// What a redirect policy is called.
pub fn redirect_label(policy: RedirectPolicy) -> (r: &'static str)
    ensures
        r@ == spec_redirect_label(policy),
{
    match policy {
        RedirectPolicy::Strip => "strip",
        RedirectPolicy::Strict => "strict",
        RedirectPolicy::FollowAll => "follow-all",
    }
}

/// What a way to edit the URL is called.
pub open spec fn spec_url_edit_label(mode: UrlEditMode) -> Seq<char> {
    match mode {
        UrlEditMode::Inline => "inline"@,
        UrlEditMode::Popup => "popup"@,
    }
}

/// What a way to edit the URL is called.
pub fn url_edit_label(mode: UrlEditMode) -> (r: &'static str)
    ensures
        r@ == spec_url_edit_label(mode),
{
    match mode {
        UrlEditMode::Inline => "inline",
        UrlEditMode::Popup => "popup",
    }
}

/// What is done with a secret that would be written to a file.
#[derive(Debug, Clone, Copy, PartialEq, Eq, Structural)]
pub enum SecretPolicy {
    /// It is refused.
    Strict,
    /// It is written, with a warning.
    Warn,
}

/// What a secret policy is called.
pub open spec fn spec_secret_policy_label(policy: SecretPolicy) -> Seq<char> {
    match policy {
        SecretPolicy::Strict => "strict"@,
        SecretPolicy::Warn => "warn"@,
    }
}

/// What a secret policy is called.
pub fn secret_policy_label(policy: SecretPolicy) -> (r: &'static str)
    ensures
        r@ == spec_secret_policy_label(policy),
{
    match policy {
        SecretPolicy::Strict => "strict",
        SecretPolicy::Warn => "warn",
    }
}

/// The limits of load runs.
#[derive(Debug, Clone, Copy, PartialEq, Eq, Structural)]
pub struct LoadCaps {
    /// A run of more copies needs a confirmation.
    pub warn_total: usize,
    /// A run with more at once needs a confirmation.
    pub warn_concurrency: usize,
    /// A run of more copies is refused.
    pub max_total: usize,
    /// A run with more at once is refused.
    pub max_concurrency: usize,
}

/// One of the limits of load runs.
#[derive(Debug, Clone, Copy, PartialEq, Eq, Structural)]
pub enum LoadCapField {
    /// A run of more copies needs a confirmation.
    WarnTotal,
    /// A run with more at once needs a confirmation.
    WarnConcurrency,
    /// A run of more copies is refused.
    MaxTotal,
    /// A run with more at once is refused.
    MaxConcurrency,
}

impl LoadCapField {
    /// The limits with one of them changed.
    pub open spec fn put(self, caps: LoadCaps, value: usize) -> LoadCaps {
        match self {
            LoadCapField::WarnTotal => LoadCaps { warn_total: value, ..caps },
            LoadCapField::WarnConcurrency => LoadCaps { warn_concurrency: value, ..caps },
            LoadCapField::MaxTotal => LoadCaps { max_total: value, ..caps },
            LoadCapField::MaxConcurrency => LoadCaps { max_concurrency: value, ..caps },
        }
    }

    /// One of the limits.
    pub open spec fn of(self, caps: LoadCaps) -> usize {
        match self {
            LoadCapField::WarnTotal => caps.warn_total,
            LoadCapField::WarnConcurrency => caps.warn_concurrency,
            LoadCapField::MaxTotal => caps.max_total,
            LoadCapField::MaxConcurrency => caps.max_concurrency,
        }
    }

    /// The setting that it is.
    pub open spec fn spec_key(self) -> SettingKey {
        match self {
            LoadCapField::WarnTotal => SettingKey::LoadWarnTotal,
            LoadCapField::WarnConcurrency => SettingKey::LoadWarnConcurrency,
            LoadCapField::MaxTotal => SettingKey::LoadMaxTotal,
            LoadCapField::MaxConcurrency => SettingKey::LoadMaxConcurrency,
        }
    }

    /// Changes one of the limits.
    pub fn set(self, caps: &mut LoadCaps, value: usize)
        ensures
            *final(caps) == self.put(*old(caps), value),
    {
        match self {
            LoadCapField::WarnTotal => {
                caps.warn_total = value;
            },
            LoadCapField::WarnConcurrency => {
                caps.warn_concurrency = value;
            },
            LoadCapField::MaxTotal => {
                caps.max_total = value;
            },
            LoadCapField::MaxConcurrency => {
                caps.max_concurrency = value;
            },
        }
    }

    /// One of the limits.
    pub fn get(self, caps: &LoadCaps) -> (r: usize)
        ensures
            r == self.of(*caps),
    {
        match self {
            LoadCapField::WarnTotal => caps.warn_total,
            LoadCapField::WarnConcurrency => caps.warn_concurrency,
            LoadCapField::MaxTotal => caps.max_total,
            LoadCapField::MaxConcurrency => caps.max_concurrency,
        }
    }

    /// The setting that it is.
    pub fn setting_key(self) -> (r: SettingKey)
        ensures
            r == self.spec_key(),
    {
        match self {
            LoadCapField::WarnTotal => SettingKey::LoadWarnTotal,
            LoadCapField::WarnConcurrency => SettingKey::LoadWarnConcurrency,
            LoadCapField::MaxTotal => SettingKey::LoadMaxTotal,
            LoadCapField::MaxConcurrency => SettingKey::LoadMaxConcurrency,
        }
    }
}

/// The defaults that the advanced rows change.
#[derive(Debug, Clone, Copy, PartialEq, Eq, Structural)]
pub struct AdvancedLimits {
    /// How many copies of a load run are in flight at once.
    pub concurrency: usize,
    /// How many copies a load run sends.
    pub total: usize,
    /// The size limit of bodies.
    pub body_cap_bytes: u64,
    /// The timeout in seconds.
    pub timeout_secs: u64,
}

/// One of the advanced rows.
#[derive(Debug, Clone, Copy, PartialEq, Eq, Structural)]
pub enum AdvancedField {
    /// How many copies of a load run are in flight at once.
    Concurrency,
    /// How many copies a load run sends.
    Total,
    /// The size limit of bodies.
    BodyCapBytes,
    /// The timeout in seconds.
    TimeoutSecs,
}

/// A setting that the panel manages.
#[derive(Debug, Clone, Copy, PartialEq, Eq, Structural)]
pub enum SettingKey {
    /// The theme.
    Theme,
    /// The leader key.
    LeaderKey,
    /// The timeout.
    Timeout,
    /// The size limit of bodies.
    MaxBodyBytes,
    /// How the URL is edited.
    UrlEdit,
    /// What is done with secrets.
    SecretPolicy,
    /// How redirects are followed.
    Redirect,
    /// The proxy.
    Proxy,
    /// Whether certificates are checked.
    Insecure,
    /// Whether cookies are kept.
    Cookies,
    /// Whether sends are traced.
    Debug,
    /// The number of copies that needs a confirmation.
    LoadWarnTotal,
    /// The number at once that needs a confirmation.
    LoadWarnConcurrency,
    /// The largest number of copies.
    LoadMaxTotal,
    /// The largest number at once.
    LoadMaxConcurrency,
    /// The default number at once.
    AdvancedConcurrency,
    /// The default number of copies.
    AdvancedTotal,
}

/// The settings that were changed in the panel and not saved.
#[derive(Debug)]
pub struct Touched {
    /// The settings, in no order.
    pub keys: Vec<SettingKey>,
}

impl View for Touched {
    type V = Set<SettingKey>;

    open spec fn view(&self) -> Set<SettingKey> {
        Set::new(|k: SettingKey| self.keys@.contains(k))
    }
}

/// A set with one setting put in or taken out.
pub open spec fn put_key(t: Set<SettingKey>, key: SettingKey, on: bool) -> Set<SettingKey> {
    if on {
        t.insert(key)
    } else {
        t.remove(key)
    }
}

impl Touched {
    /// Nothing was changed.
    pub fn new() -> (r: Touched)
        ensures
            r@ == Set::<SettingKey>::empty(),
    {
        let r = Touched { keys: Vec::new() };
        assert(r@ =~= Set::<SettingKey>::empty());
        r
    }

    /// Whether a setting was changed.
    pub fn contains(&self, key: SettingKey) -> (r: bool)
        ensures
            r == self@.contains(key),
    {
        let mut i: usize = 0;
        while i < self.keys.len()
            invariant
                i <= self.keys.len(),
                forall|j: int| 0 <= j < i ==> self.keys@[j] != key,
            decreases self.keys.len() - i,
        {
            if self.keys[i] == key {
                return true;
            }
            i = i + 1;
        }
        false
    }

    /// Puts a setting in, or takes it out.
    pub fn set(&mut self, key: SettingKey, on: bool)
        ensures
            final(self)@ == put_key(old(self)@, key, on),
    {
        let mut keys: Vec<SettingKey> = Vec::new();
        let ghost before = self.keys@;
        let mut i: usize = 0;
        while i < self.keys.len()
            invariant
                i <= self.keys.len(),
                self.keys@ == before,
                forall|k: SettingKey|
                    keys@.contains(k) <==> k != key && (exists|j: int|
                        0 <= j < i && #[trigger] before[j] == k),
            decreases self.keys.len() - i,
        {
            let k = self.keys[i];
            let ghost old_keys = keys@;
            if k != key {
                keys.push(k);
                assert forall|q: SettingKey| keys@.contains(q) <==> q != key && (exists|j: int|
                    0 <= j < i + 1 && #[trigger] before[j] == q) by {
                    if keys@.contains(q) {
                        let n = choose|n: int| 0 <= n < keys@.len() && keys@[n] == q;
                        if n < old_keys.len() {
                            assert(old_keys[n] == q);
                            assert(old_keys.contains(q));
                        } else {
                            assert(before[i as int] == q);
                        }
                    }
                    if q != key && (exists|j: int| 0 <= j < i + 1 && #[trigger] before[j] == q) {
                        let j = choose|j: int| 0 <= j < i + 1 && #[trigger] before[j] == q;
                        if j < i {
                            assert(old_keys.contains(q));
                            let n = choose|n: int| 0 <= n < old_keys.len() && old_keys[n] == q;
                            assert(keys@[n] == q);
                        } else {
                            assert(keys@[keys@.len() - 1] == q);
                        }
                    }
                }
            }
            i = i + 1;
        }
        let ghost rest = keys@;
        if on {
            keys.push(key);
        }
        self.keys = keys;
        proof {
            assert forall|k: SettingKey| self@.contains(k) == put_key(old(self)@, key, on).contains(
                k,
            ) by {
                if on {
                    if k == key {
                        assert(self.keys@[self.keys@.len() - 1] == key);
                    } else {
                        if rest.contains(k) {
                            let n = choose|n: int| 0 <= n < rest.len() && rest[n] == k;
                            assert(self.keys@[n] == k);
                        }
                        if self.keys@.contains(k) {
                            let n = choose|n: int|
                                0 <= n < self.keys@.len() && self.keys@[n] == k;
                            assert(rest[n] == k);
                        }
                    }
                }
            }
            assert(self@ =~= put_key(old(self)@, key, on));
        }
    }
}

/// The values of the settings.
#[derive(Debug)]
pub struct Values {
    /// The theme.
    pub theme: String,
    /// The leader key.
    pub leader_key: String,
    /// How the URL is edited.
    pub url_edit: UrlEditMode,
    /// What is done with secrets.
    pub secret_policy: SecretPolicy,
    /// How redirects are followed.
    pub redirect: RedirectPolicy,
    /// The proxy; without one the environment's is used.
    pub proxy: Option<String>,
    /// Whether certificates are left unchecked.
    pub insecure: bool,
    /// Whether cookies are kept.
    pub cookies: bool,
    /// Whether sends are traced.
    pub debug: bool,
    /// The limits of load runs.
    pub load_caps: LoadCaps,
    /// The advanced defaults, the timeout and the size limit of bodies among them.
    pub advanced: AdvancedLimits,
}

/// What the panel says in its footer.
#[derive(Debug)]
pub enum PanelNote {
    /// The proxy was not taken.
    InvalidProxy {
        /// Why.
        err: String,
    },
    /// A change was not taken.
    CouldNotApply {
        /// Why.
        err: String,
    },
    /// A cookie was not taken.
    CouldNotSaveCookie {
        /// Why.
        err: String,
    },
    /// A limit was not taken.
    Refused {
        /// Why.
        reason: String,
    },
    /// A theme was not taken.
    CouldNotApplyTheme {
        /// Why.
        err: String,
    },
    /// The defaults were not saved.
    SaveFailed {
        /// Why.
        err: String,
    },
}

impl PanelNote {
    /// The words of the note.
    pub open spec fn spec_text(self) -> Seq<char> {
        match self {
            PanelNote::InvalidProxy { err } => "invalid proxy — "@ + err@,
            PanelNote::CouldNotApply { err } => "could not apply — "@ + err@,
            PanelNote::CouldNotSaveCookie { err } => "could not save cookie — "@ + err@,
            PanelNote::Refused { reason } => "refused — "@ + reason@,
            PanelNote::CouldNotApplyTheme { err } => "could not apply theme — "@ + err@,
            PanelNote::SaveFailed { err } => "save failed — "@ + err@,
        }
    }

    /// The words of the note.
    pub fn text(&self) -> (r: String)
        ensures
            r@ == self.spec_text(),
    {
        let mut out = String::new();
        match self {
            PanelNote::InvalidProxy { err } => {
                out.append("invalid proxy — ");
                out.append(err.as_str());
            },
            PanelNote::CouldNotApply { err } => {
                out.append("could not apply — ");
                out.append(err.as_str());
            },
            PanelNote::CouldNotSaveCookie { err } => {
                out.append("could not save cookie — ");
                out.append(err.as_str());
            },
            PanelNote::Refused { reason } => {
                out.append("refused — ");
                out.append(reason.as_str());
            },
            PanelNote::CouldNotApplyTheme { err } => {
                out.append("could not apply theme — ");
                out.append(err.as_str());
            },
            PanelNote::SaveFailed { err } => {
                out.append("save failed — ");
                out.append(err.as_str());
            },
        }
        assert(out@ =~= self.spec_text());
        out
    }
}

/// The settings of the session, and which of them the panel changed.
#[derive(Debug)]
pub struct Settings {
    /// The theme.
    pub theme: String,
    /// The leader key.
    pub leader_key: String,
    /// How the URL is edited.
    pub url_edit: UrlEditMode,
    /// What is done with secrets.
    pub secret_policy: SecretPolicy,
    /// How redirects are followed.
    pub redirect: RedirectPolicy,
    /// The proxy; without one the environment's is used.
    pub proxy: Option<String>,
    /// Whether certificates are left unchecked.
    pub insecure: bool,
    /// Whether cookies are kept.
    pub cookies: bool,
    /// Whether sends are traced.
    pub debug: bool,
    /// The limits of load runs.
    pub load_caps: LoadCaps,
    /// The advanced defaults.
    pub advanced: AdvancedLimits,
    /// The size limit of bodies that sends go by.
    pub max_body_bytes: u64,
    /// The timeout in seconds that the client goes by.
    pub client_timeout_secs: u64,
    /// The values that a change is measured against.
    pub baseline: Values,
    /// Whether the baseline was taken.
    pub baseline_established: bool,
    /// What was changed in the panel and not saved.
    pub touched: Touched,
    /// What the panel says in its footer.
    pub note: Option<PanelNote>,
}

/// The text of a value that may be absent.
pub open spec fn text_of(s: Option<String>) -> Option<Seq<char>> {
    match s {
        Some(s) => Some(s@),
        None => None,
    }
}

/// A copy of a text that may be absent.
pub fn copy_text(s: &Option<String>) -> (r: Option<String>)
    ensures
        r == *s,
{
    match s {
        Some(s) => Some(s.clone()),
        None => None,
    }
}

/// Whether two texts that may be absent are the same.
pub fn same_text(a: &Option<String>, b: &Option<String>) -> (r: bool)
    ensures
        r == (text_of(*a) == text_of(*b)),
{
    match (a, b) {
        (Some(a), Some(b)) => *a == *b,
        (None, None) => true,
        _ => false,
    }
}

/// Where a cookie is kept.
#[derive(Debug)]
pub struct CookieKey {
    /// The domain.
    pub domain: String,
    /// The name.
    pub name: String,
    /// The path.
    pub path: String,
}

impl CookieKey {
    /// Whether two cookies are kept in the same place.
    pub open spec fn same_place(self, other: CookieKey) -> bool {
        self.domain@ == other.domain@ && self.name@ == other.name@ && self.path@ == other.path@
    }

    /// Whether two cookies are kept in the same place.
    pub fn same(&self, other: &CookieKey) -> (r: bool)
        ensures
            r == self.same_place(*other),
    {
        self.domain == other.domain && self.name == other.name && self.path == other.path
    }
}

/// What was saved.
#[derive(Debug)]
pub struct SavedDefaults {
    /// The file.
    pub path: String,
    /// Whether the proxy was left out, because it holds credentials.
    pub proxy_skipped: bool,
}

/// A change that the panel asks for, with what came of the outside work that it
/// needs.
#[derive(Debug)]
pub enum SettingsEvent {
    /// Nothing changes.
    Consumed,
    /// The panel closes.
    Close,
    /// The proxy is to change.
    ApplyProxy {
        /// The proxy.
        proxy: Option<String>,
        /// The proxy as it is shown, without its password.
        masked: String,
        /// Whether the client could be built with it.
        rebuilt: Result<(), String>,
    },
    /// The check of certificates is to be switched.
    ToggleInsecure {
        /// Whether the client could be built with it.
        rebuilt: Result<(), String>,
    },
    /// The keeping of cookies is to be switched.
    ToggleCookies {
        /// Whether the client could be built with it.
        rebuilt: Result<(), String>,
    },
    /// A cookie was to be deleted.
    DeleteCookie {
        /// The domain.
        domain: String,
        /// The name.
        name: String,
        /// Whether there was one.
        removed: bool,
    },
    /// All cookies were deleted.
    ClearCookies,
    /// A cookie was to be added, or changed.
    UpsertCookie {
        /// Where it was kept before, if it was.
        previous: Option<CookieKey>,
        /// Where it is kept.
        key: CookieKey,
        /// Whether it was taken.
        upserted: Result<(), String>,
    },
    /// An advanced default is to change.
    ApplyAdvanced {
        /// Which.
        field: AdvancedField,
        /// Its value.
        value: u64,
        /// What it is called.
        label: String,
        /// What the limits say of a load run with it.
        check: LoadCheck,
        /// Whether the client could be built with it.
        rebuilt: Result<(), String>,
    },
    /// The tracing of sends is to be switched.
    ToggleDebug,
    /// How redirects are followed is to change.
    ApplyRedirect(RedirectPolicy),
    /// How the URL is edited is to change.
    ApplyUrlEdit(UrlEditMode),
    /// What is done with secrets is to change.
    ApplySecretPolicy(SecretPolicy),
    /// A limit of load runs is to change.
    ApplyLoadCap {
        /// Which.
        cap: LoadCapField,
        /// Its value.
        count: usize,
        /// What it is called.
        label: String,
    },
    /// The theme is to change.
    ApplyTheme {
        /// Its name.
        name: String,
        /// Whether there is such a theme.
        resolved: Result<(), String>,
    },
    /// The leader key is to change.
    ApplyLeaderKey {
        /// The key.
        combo: String,
        /// Whether it is the key of the baseline, however it is written.
        same: bool,
    },
    /// The changes were to be saved.
    SaveDefaults {
        /// What came of it.
        saved: Result<SavedDefaults, String>,
    },
}

/// What a change asks for outside of the settings.
#[derive(Debug)]
pub struct SettingsWork {
    /// What is said.
    pub notice: Option<Notice>,
    /// Whether the cookies are to be written to disk.
    pub persist_cookies: bool,
    /// The cookie that is to be dropped.
    pub drop_cookie: Option<CookieKey>,
    /// Whether the highlighter is to start anew.
    pub respawn_highlighter: bool,
    /// Whether the panel closes.
    pub close: bool,
}

/// Nothing to do but to say something.
pub open spec fn say(notice: Option<Notice>) -> SettingsWork {
    SettingsWork {
        notice,
        persist_cookies: false,
        drop_cookie: None,
        respawn_highlighter: false,
        close: false,
    }
}

fn saying(notice: Option<Notice>) -> (r: SettingsWork)
    ensures
        r == say(notice),
{
    SettingsWork {
        notice,
        persist_cookies: false,
        drop_cookie: None,
        respawn_highlighter: false,
        close: false,
    }
}

/// A number of copies from a number that was typed.
pub open spec fn clamped(value: u64) -> usize {
    if value <= usize::MAX {
        value as usize
    } else {
        usize::MAX
    }
}

impl AdvancedField {
    /// The defaults with one of them changed.
    pub open spec fn put(self, a: AdvancedLimits, value: u64) -> AdvancedLimits {
        match self {
            AdvancedField::Concurrency => AdvancedLimits { concurrency: clamped(value), ..a },
            AdvancedField::Total => AdvancedLimits { total: clamped(value), ..a },
            AdvancedField::BodyCapBytes => AdvancedLimits { body_cap_bytes: value, ..a },
            AdvancedField::TimeoutSecs => AdvancedLimits { timeout_secs: value, ..a },
        }
    }

    /// The defaults with one of them changed.
    pub fn set(self, a: AdvancedLimits, value: u64) -> (r: AdvancedLimits)
        ensures
            r == self.put(a, value),
    {
        let n: usize = if value <= usize::MAX as u64 {
            value as usize
        } else {
            usize::MAX
        };
        match self {
            AdvancedField::Concurrency => AdvancedLimits { concurrency: n, ..a },
            AdvancedField::Total => AdvancedLimits { total: n, ..a },
            AdvancedField::BodyCapBytes => AdvancedLimits { body_cap_bytes: value, ..a },
            AdvancedField::TimeoutSecs => AdvancedLimits { timeout_secs: value, ..a },
        }
    }

    /// The setting that it is.
    pub open spec fn spec_key(self) -> SettingKey {
        match self {
            AdvancedField::Concurrency => SettingKey::AdvancedConcurrency,
            AdvancedField::Total => SettingKey::AdvancedTotal,
            AdvancedField::BodyCapBytes => SettingKey::MaxBodyBytes,
            AdvancedField::TimeoutSecs => SettingKey::Timeout,
        }
    }
}

impl Settings {
    /// The values as they are now.
    pub open spec fn working(self) -> Values {
        Values {
            theme: self.theme,
            leader_key: self.leader_key,
            url_edit: self.url_edit,
            secret_policy: self.secret_policy,
            redirect: self.redirect,
            proxy: self.proxy,
            insecure: self.insecure,
            cookies: self.cookies,
            debug: self.debug,
            load_caps: self.load_caps,
            advanced: self.advanced,
        }
    }

    /// The settings of a session that starts with these values.
    pub fn new(values: Values) -> (r: Settings)
        ensures
            r.working() == values,
            r.max_body_bytes == values.advanced.body_cap_bytes,
            r.client_timeout_secs == values.advanced.timeout_secs,
            r.baseline == values,
            !r.baseline_established,
            r.touched@ == Set::<SettingKey>::empty(),
            r.note is None,
    {
        Settings {
            theme: values.theme.clone(),
            leader_key: values.leader_key.clone(),
            url_edit: values.url_edit,
            secret_policy: values.secret_policy,
            redirect: values.redirect,
            proxy: copy_text(&values.proxy),
            insecure: values.insecure,
            cookies: values.cookies,
            debug: values.debug,
            load_caps: values.load_caps,
            advanced: values.advanced,
            max_body_bytes: values.advanced.body_cap_bytes,
            client_timeout_secs: values.advanced.timeout_secs,
            baseline: values,
            baseline_established: false,
            touched: Touched::new(),
            note: None,
        }
    }

    /// The values as they are now.
    pub fn settings_working_copy(&self) -> (r: Values)
        ensures
            r == self.working(),
    {
        Values {
            theme: self.theme.clone(),
            leader_key: self.leader_key.clone(),
            url_edit: self.url_edit,
            secret_policy: self.secret_policy,
            redirect: self.redirect,
            proxy: copy_text(&self.proxy),
            insecure: self.insecure,
            cookies: self.cookies,
            debug: self.debug,
            load_caps: self.load_caps,
            advanced: self.advanced,
        }
    }

    /// The settings when the panel opens: the first time, the values become the
    /// baseline.
    pub open spec fn opened(self) -> Settings {
        if self.baseline_established {
            Settings { note: None, ..self }
        } else {
            Settings {
                baseline: self.working(),
                baseline_established: true,
                note: None,
                ..self
            }
        }
    }

    /// Opens the panel. A later opening leaves the baseline as it is, so a change
    /// that was not saved still counts as one.
    pub fn open_settings(&mut self)
        ensures
            *final(self) == old(self).opened(),
    {
        if !self.baseline_established {
            self.baseline = self.settings_working_copy();
            self.baseline_established = true;
        }
        self.note = None;
    }

    /// The settings with a note in the panel's footer.
    pub open spec fn noted(self, note: PanelNote) -> Settings {
        Settings { note: Some(note), ..self }
    }

    /// Records whether a setting is not what it is in the baseline.
    pub fn mark_setting(&mut self, key: SettingKey, on: bool)
        ensures
            *final(self) == (Settings { touched: final(self).touched, ..*old(self) }),
            final(self).touched@ == put_key(old(self).touched@, key, on),
    {
        self.touched.set(key, on);
    }

    /// The settings after a change of an advanced default.
    pub open spec fn advanced_applied(
        self,
        field: AdvancedField,
        value: u64,
        check: LoadCheck,
        rebuilt: Result<(), String>,
    ) -> Settings {
        let advanced = field.put(self.advanced, value);
        match field {
            AdvancedField::Concurrency => match check {
                LoadCheck::Refuse(reason) => self.noted(PanelNote::Refused { reason }),
                _ => Settings { advanced, ..self },
            },
            AdvancedField::Total => match check {
                LoadCheck::Refuse(reason) => self.noted(PanelNote::Refused { reason }),
                _ => Settings { advanced, ..self },
            },
            AdvancedField::BodyCapBytes => Settings {
                advanced,
                max_body_bytes: value,
                ..self
            },
            AdvancedField::TimeoutSecs => {
                let s = Settings { advanced, client_timeout_secs: value, ..self };
                match rebuilt {
                    Ok(_) => s,
                    Err(err) => s.noted(PanelNote::CouldNotApply { err }),
                }
            },
        }
    }

    /// What is said of a change of an advanced default.
    pub open spec fn advanced_notice(
        field: AdvancedField,
        value: u64,
        label: String,
        check: LoadCheck,
        rebuilt: Result<(), String>,
    ) -> Option<Notice> {
        match field {
            AdvancedField::Concurrency | AdvancedField::Total => if check is Refuse {
                None
            } else {
                Some(Notice::AdvancedSet { label, value })
            },
            AdvancedField::BodyCapBytes => Some(Notice::BodyCapSet { value }),
            AdvancedField::TimeoutSecs => if rebuilt is Ok {
                Some(Notice::TimeoutSet { value })
            } else {
                None
            },
        }
    }

    /// The load run that the limits are asked about before an advanced default
    /// changes.
    pub fn advanced_candidate(&self, field: AdvancedField, value: u64) -> (r:
        crate::load::LoadConfig)
        ensures
            r == (crate::load::LoadConfig {
                total: field.put(self.advanced, value).total,
                concurrency: field.put(self.advanced, value).concurrency,
                interval_ns: 0,
            }),
    {
        let a = field.set(self.advanced, value);
        crate::load::LoadConfig { total: a.total, concurrency: a.concurrency, interval_ns: 0 }
    }

    /// Changes an advanced default. A default for load runs that the limits
    /// refuse is not taken; one that they only warn of is.
    pub fn apply_advanced_limit(
        &mut self,
        field: AdvancedField,
        value: u64,
        label: String,
        check: LoadCheck,
        rebuilt: Result<(), String>,
    ) -> (r: Option<Notice>)
        ensures
            old(self).becomes(
                *final(self),
                SettingsEvent::ApplyAdvanced { field, value, label, check, rebuilt },
            ),
            r == Settings::advanced_notice(field, value, label, check, rebuilt),
    {
        reveal(Settings::applied);
        reveal(Settings::touched_after);
        reveal(Settings::work);
        let advanced = field.set(self.advanced, value);
        match field {
            AdvancedField::Concurrency => {
                if let LoadCheck::Refuse(reason) = check {
                    self.note = Some(PanelNote::Refused { reason });
                    return None;
                }
                self.advanced = advanced;
                let on = advanced.concurrency != self.baseline.advanced.concurrency;
                self.mark_setting(SettingKey::AdvancedConcurrency, on);
                Some(Notice::AdvancedSet { label, value })
            },
            AdvancedField::Total => {
                if let LoadCheck::Refuse(reason) = check {
                    self.note = Some(PanelNote::Refused { reason });
                    return None;
                }
                self.advanced = advanced;
                let on = advanced.total != self.baseline.advanced.total;
                self.mark_setting(SettingKey::AdvancedTotal, on);
                Some(Notice::AdvancedSet { label, value })
            },
            AdvancedField::BodyCapBytes => {
                self.advanced = advanced;
                self.max_body_bytes = value;
                let on = value != self.baseline.advanced.body_cap_bytes;
                self.mark_setting(SettingKey::MaxBodyBytes, on);
                Some(Notice::BodyCapSet { value })
            },
            AdvancedField::TimeoutSecs => {
                self.advanced = advanced;
                self.client_timeout_secs = value;
                let on = value != self.baseline.advanced.timeout_secs;
                self.mark_setting(SettingKey::Timeout, on);
                match rebuilt {
                    Ok(_) => Some(Notice::TimeoutSet { value }),
                    Err(err) => {
                        self.note = Some(PanelNote::CouldNotApply { err });
                        None
                    },
                }
            },
        }
    }

    /// The values after a save: what was written is the new baseline. A proxy
    /// that was left out keeps its baseline.
    pub open spec fn saved(self, saved: Result<SavedDefaults, String>) -> Settings {
        match saved {
            Ok(s) => if s.proxy_skipped {
                Settings {
                    baseline: Values { proxy: self.baseline.proxy, ..self.working() },
                    ..self
                }
            } else {
                Settings { baseline: self.working(), ..self }
            },
            Err(err) => self.noted(PanelNote::SaveFailed { err }),
        }
    }

    /// What counts as changed after a save: nothing, but a proxy that was left out
    /// where it did before.
    pub open spec fn touched_saved(self, saved: Result<SavedDefaults, String>) -> Set<SettingKey> {
        match saved {
            Ok(s) => if s.proxy_skipped {
                put_key(Set::empty(), SettingKey::Proxy, self.touched@.contains(SettingKey::Proxy))
            } else {
                Set::empty()
            },
            Err(_) => self.touched@,
        }
    }

    /// What is said of a save.
    pub open spec fn saved_notice(saved: Result<SavedDefaults, String>) -> Option<Notice> {
        match saved {
            Ok(s) => Some(
                Notice::DefaultsSaved { path: s.path, proxy_skipped: s.proxy_skipped },
            ),
            Err(_) => None,
        }
    }

    /// Takes in what came of a save.
    pub fn save_settings_defaults(&mut self, saved: Result<SavedDefaults, String>) -> (r: Option<
        Notice,
    >)
        ensures
            *final(self) == (Settings {
                touched: final(self).touched,
                ..old(self).saved(saved)
            }),
            final(self).touched@ == old(self).touched_saved(saved),
            r == Settings::saved_notice(saved),
    {
        match saved {
            Ok(s) => {
                if s.proxy_skipped {
                    let proxy = self.touched.contains(SettingKey::Proxy);
                    self.touched = Touched::new();
                    self.touched.set(SettingKey::Proxy, proxy);
                    let mut baseline = self.settings_working_copy();
                    baseline.proxy = copy_text(&self.baseline.proxy);
                    self.baseline = baseline;
                } else {
                    self.touched = Touched::new();
                    self.baseline = self.settings_working_copy();
                }
                Some(Notice::DefaultsSaved { path: s.path, proxy_skipped: s.proxy_skipped })
            },
            Err(err) => {
                self.note = Some(PanelNote::SaveFailed { err });
                None
            },
        }
    }

    /// The settings after the check of certificates was switched. Where the
    /// client could not be built, nothing changes.
    pub open spec fn insecure_toggled(self, rebuilt: Result<(), String>) -> Settings {
        if rebuilt is Ok {
            Settings { insecure: !self.insecure, ..self }
        } else {
            self
        }
    }

    /// What is said of a switch of the check of certificates.
    pub open spec fn insecure_notice(insecure: bool) -> Notice {
        if insecure {
            Notice::InsecureOn
        } else {
            Notice::InsecureOff
        }
    }

    /// Switches the check of certificates from outside the panel, which does not
    /// count as a change in the panel.
    pub fn toggle_insecure(&mut self, rebuilt: Result<(), String>) -> (r: Notice)
        ensures
            *final(self) == old(self).insecure_toggled(rebuilt),
            r == (match rebuilt {
                Ok(_) => Settings::insecure_notice(!old(self).insecure),
                Err(err) => Notice::TlsToggleFailed { err },
            }),
    {
        match rebuilt {
            Ok(_) => {
                self.insecure = !self.insecure;
                if self.insecure {
                    Notice::InsecureOn
                } else {
                    Notice::InsecureOff
                }
            },
            Err(err) => Notice::TlsToggleFailed { err },
        }
    }

    /// What is said of a switch of the tracing of sends.
    pub open spec fn debug_notice(debug: bool) -> Notice {
        if debug {
            Notice::DebugOn
        } else {
            Notice::DebugOff
        }
    }

    /// Switches the tracing of sends.
    pub fn toggle_debug(&mut self) -> (r: Notice)
        ensures
            *final(self) == (Settings { debug: !old(self).debug, ..*old(self) }),
            r == Settings::debug_notice(!old(self).debug),
    {
        self.debug = !self.debug;
        if self.debug {
            Notice::DebugOn
        } else {
            Notice::DebugOff
        }
    }

    /// The values after a change that the panel asked for. A change for which
    /// the client could not be built, or which is refused, is not taken, and the
    /// panel says why.
    #[verifier::opaque]
    pub open spec fn applied(self, e: SettingsEvent) -> Settings {
        match e {
            SettingsEvent::Consumed | SettingsEvent::Close | SettingsEvent::DeleteCookie { .. }
            | SettingsEvent::ClearCookies => self,
            SettingsEvent::ApplyProxy { proxy, masked, rebuilt } => match rebuilt {
                Ok(_) => Settings { proxy, ..self },
                Err(err) => self.noted(PanelNote::InvalidProxy { err }),
            },
            SettingsEvent::ToggleInsecure { rebuilt } => match rebuilt {
                Ok(_) => self.insecure_toggled(rebuilt),
                Err(err) => self.noted(PanelNote::CouldNotApply { err }),
            },
            SettingsEvent::ToggleCookies { rebuilt } => match rebuilt {
                Ok(_) => Settings { cookies: !self.cookies, ..self },
                Err(err) => self.noted(PanelNote::CouldNotApply { err }),
            },
            SettingsEvent::UpsertCookie { previous, key, upserted } => match upserted {
                Ok(_) => self,
                Err(err) => self.noted(PanelNote::CouldNotSaveCookie { err }),
            },
            SettingsEvent::ApplyAdvanced { field, value, label, check, rebuilt } =>
                self.advanced_applied(field, value, check, rebuilt),
            SettingsEvent::ToggleDebug => Settings { debug: !self.debug, ..self },
            SettingsEvent::ApplyRedirect(policy) => Settings { redirect: policy, ..self },
            SettingsEvent::ApplyUrlEdit(mode) => Settings { url_edit: mode, ..self },
            SettingsEvent::ApplySecretPolicy(policy) => Settings {
                secret_policy: policy,
                ..self
            },
            SettingsEvent::ApplyLoadCap { cap, count, label } => Settings {
                load_caps: cap.put(self.load_caps, count),
                ..self
            },
            SettingsEvent::ApplyTheme { name, resolved } => match resolved {
                Ok(_) => Settings { theme: name, ..self },
                Err(err) => self.noted(PanelNote::CouldNotApplyTheme { err }),
            },
            SettingsEvent::ApplyLeaderKey { combo, same } => Settings {
                leader_key: combo,
                ..self
            },
            SettingsEvent::SaveDefaults { saved } => self.saved(saved),
        }
    }

    /// What counts as changed after a change that the panel asked for: a setting
    /// that was changed is recorded by whether it is now not what it is in the
    /// baseline.
    #[verifier::opaque]
    pub open spec fn touched_after(self, e: SettingsEvent) -> Set<SettingKey> {
        match e {
            SettingsEvent::SaveDefaults { saved } => self.touched_saved(saved),
            SettingsEvent::ApplyLeaderKey { combo, same } => put_key(
                self.touched@,
                SettingKey::LeaderKey,
                !same,
            ),
            _ => match event_key(e) {
                Some(key) => if taken(e) {
                    put_key(self.touched@, key, differs(self.applied(e), key))
                } else {
                    self.touched@
                },
                None => self.touched@,
            },
        }
    }

    /// Whether `after` is what a change that the panel asked for leaves.
    pub open spec fn becomes(self, after: Settings, e: SettingsEvent) -> bool {
        &&& after == (Settings { touched: after.touched, ..self.applied(e) })
        &&& after.touched@ == self.touched_after(e)
    }

    /// What a change that the panel asked for asks for outside of the settings.
    #[verifier::opaque]
    pub open spec fn work(self, e: SettingsEvent) -> SettingsWork {
        match e {
            SettingsEvent::Consumed => say(None),
            SettingsEvent::Close => SettingsWork { close: true, ..say(None) },
            SettingsEvent::ApplyProxy { proxy, masked, rebuilt } => say(
                if rebuilt is Ok {
                    Some(
                        if proxy is Some {
                            Notice::ProxySet { masked }
                        } else {
                            Notice::ProxyCleared
                        },
                    )
                } else {
                    None
                },
            ),
            SettingsEvent::ToggleInsecure { rebuilt } => say(
                if rebuilt is Ok {
                    Some(Settings::insecure_notice(!self.insecure))
                } else {
                    None
                },
            ),
            SettingsEvent::ToggleCookies { rebuilt } => if rebuilt is Ok {
                SettingsWork {
                    persist_cookies: self.cookies,
                    ..say(
                        Some(
                            if self.cookies {
                                Notice::CookiesOff
                            } else {
                                Notice::CookiesOn
                            },
                        ),
                    )
                }
            } else {
                say(None)
            },
            SettingsEvent::DeleteCookie { domain, name, removed } => SettingsWork {
                persist_cookies: removed,
                ..say(
                    Some(
                        if removed {
                            Notice::CookieDeleted { name, domain }
                        } else {
                            Notice::CookieMissing { name, domain }
                        },
                    ),
                )
            },
            SettingsEvent::ClearCookies => SettingsWork {
                persist_cookies: true,
                ..say(Some(Notice::CookiesCleared))
            },
            SettingsEvent::UpsertCookie { previous, key, upserted } => if upserted is Ok {
                SettingsWork {
                    persist_cookies: true,
                    drop_cookie: match previous {
                        Some(p) => if p.same_place(key) {
                            None
                        } else {
                            Some(p)
                        },
                        None => None,
                    },
                    ..say(
                        Some(
                            if previous is Some {
                                Notice::CookieUpdated { name: key.name, domain: key.domain }
                            } else {
                                Notice::CookieAdded { name: key.name, domain: key.domain }
                            },
                        ),
                    )
                }
            } else {
                say(None)
            },
            SettingsEvent::ApplyAdvanced { field, value, label, check, rebuilt } => say(
                Settings::advanced_notice(field, value, label, check, rebuilt),
            ),
            SettingsEvent::ToggleDebug => say(Some(Settings::debug_notice(!self.debug))),
            SettingsEvent::ApplyRedirect(policy) => say(Some(Notice::RedirectSet { policy })),
            SettingsEvent::ApplyUrlEdit(mode) => say(Some(Notice::UrlEditSet { mode })),
            SettingsEvent::ApplySecretPolicy(policy) => say(
                Some(Notice::SecretPolicySet { secrets: policy }),
            ),
            SettingsEvent::ApplyLoadCap { cap, count, label } => say(
                Some(Notice::LimitSet { label, value: count as u64 }),
            ),
            SettingsEvent::ApplyTheme { name, resolved } => if resolved is Ok {
                SettingsWork { respawn_highlighter: true, ..say(Some(Notice::ThemeSet { name })) }
            } else {
                say(None)
            },
            SettingsEvent::ApplyLeaderKey { combo, same } => say(
                Some(Notice::LeaderKeySet { combo }),
            ),
            SettingsEvent::SaveDefaults { saved } => say(Settings::saved_notice(saved)),
        }
    }

    /// Changes the proxy.
    fn apply_proxy(
        &mut self,
        proxy: Option<String>,
        masked: String,
        rebuilt: Result<(), String>,
    ) -> (r: SettingsWork)
        ensures
            old(self).becomes(*final(self), SettingsEvent::ApplyProxy { proxy, masked, rebuilt }),
            r == old(self).work(SettingsEvent::ApplyProxy { proxy, masked, rebuilt }),
    {
        reveal(Settings::applied);
        reveal(Settings::touched_after);
        reveal(Settings::work);
        match rebuilt {
            Ok(_) => {
                let on = !same_text(&proxy, &self.baseline.proxy);
                let notice = if proxy.is_some() {
                    Notice::ProxySet { masked }
                } else {
                    Notice::ProxyCleared
                };
                self.proxy = proxy;
                self.mark_setting(SettingKey::Proxy, on);
                saying(Some(notice))
            },
            Err(err) => {
                self.note = Some(PanelNote::InvalidProxy { err });
                saying(None)
            },
        }
    }

    /// Switches the check of certificates in the panel.
    fn panel_insecure(&mut self, rebuilt: Result<(), String>) -> (r: SettingsWork)
        ensures
            old(self).becomes(*final(self), SettingsEvent::ToggleInsecure { rebuilt }),
            r == old(self).work(SettingsEvent::ToggleInsecure { rebuilt }),
    {
        reveal(Settings::applied);
        reveal(Settings::touched_after);
        reveal(Settings::work);
        match rebuilt {
            Ok(_) => {
                let notice = self.toggle_insecure(Ok(()));
                let on = self.insecure != self.baseline.insecure;
                self.mark_setting(SettingKey::Insecure, on);
                saying(Some(notice))
            },
            Err(err) => {
                self.note = Some(PanelNote::CouldNotApply { err });
                saying(None)
            },
        }
    }

    /// Switches the keeping of cookies in the panel.
    fn panel_cookies(&mut self, rebuilt: Result<(), String>) -> (r: SettingsWork)
        ensures
            old(self).becomes(*final(self), SettingsEvent::ToggleCookies { rebuilt }),
            r == old(self).work(SettingsEvent::ToggleCookies { rebuilt }),
    {
        reveal(Settings::applied);
        reveal(Settings::touched_after);
        reveal(Settings::work);
        match rebuilt {
            Ok(_) => {
                self.cookies = !self.cookies;
                let on = self.cookies != self.baseline.cookies;
                self.mark_setting(SettingKey::Cookies, on);
                let mut w = saying(
                    Some(
                        if self.cookies {
                            Notice::CookiesOn
                        } else {
                            Notice::CookiesOff
                        },
                    ),
                );
                w.persist_cookies = !self.cookies;
                w
            },
            Err(err) => {
                self.note = Some(PanelNote::CouldNotApply { err });
                saying(None)
            },
        }
    }

    /// Takes in a cookie that was added or changed.
    fn panel_upsert(
        &mut self,
        previous: Option<CookieKey>,
        key: CookieKey,
        upserted: Result<(), String>,
    ) -> (r: SettingsWork)
        ensures
            old(self).becomes(
                *final(self),
                SettingsEvent::UpsertCookie { previous, key, upserted },
            ),
            r == old(self).work(SettingsEvent::UpsertCookie { previous, key, upserted }),
    {
        reveal(Settings::applied);
        reveal(Settings::touched_after);
        reveal(Settings::work);
        match upserted {
            Ok(_) => {
                let name = key.name.clone();
                let domain = key.domain.clone();
                let mut w = saying(
                    Some(
                        if previous.is_some() {
                            Notice::CookieUpdated { name, domain }
                        } else {
                            Notice::CookieAdded { name, domain }
                        },
                    ),
                );
                w.persist_cookies = true;
                if let Some(p) = previous {
                    if !p.same(&key) {
                        w.drop_cookie = Some(p);
                    }
                }
                w
            },
            Err(err) => {
                self.note = Some(PanelNote::CouldNotSaveCookie { err });
                saying(None)
            },
        }
    }

    /// Changes a limit of load runs.
    fn apply_load_cap(
        &mut self,
        cap: LoadCapField,
        count: usize,
        label: String,
    ) -> (r: SettingsWork)
        ensures
            old(self).becomes(*final(self), SettingsEvent::ApplyLoadCap { cap, count, label }),
            r == old(self).work(SettingsEvent::ApplyLoadCap { cap, count, label }),
    {
        reveal(Settings::applied);
        reveal(Settings::touched_after);
        reveal(Settings::work);
        cap.set(&mut self.load_caps, count);
        let on = count != cap.get(&self.baseline.load_caps);
        self.mark_setting(cap.setting_key(), on);
        saying(Some(Notice::LimitSet { label, value: count as u64 }))
    }

    /// Changes the theme.
    fn apply_theme(&mut self, name: String, resolved: Result<(), String>) -> (r: SettingsWork)
        ensures
            old(self).becomes(*final(self), SettingsEvent::ApplyTheme { name, resolved }),
            r == old(self).work(SettingsEvent::ApplyTheme { name, resolved }),
    {
        reveal(Settings::applied);
        reveal(Settings::touched_after);
        reveal(Settings::work);
        match resolved {
            Ok(_) => {
                let on = name != self.baseline.theme;
                self.theme = name.clone();
                self.mark_setting(SettingKey::Theme, on);
                let mut w = saying(Some(Notice::ThemeSet { name }));
                w.respawn_highlighter = true;
                w
            },
            Err(err) => {
                self.note = Some(PanelNote::CouldNotApplyTheme { err });
                saying(None)
            },
        }
    }

    /// Nothing changes.
    fn panel_consumed(&mut self) -> (r: SettingsWork)
        ensures
            old(self).becomes(*final(self), SettingsEvent::Consumed),
            r == old(self).work(SettingsEvent::Consumed),
    {
        reveal(Settings::applied);
        reveal(Settings::touched_after);
        reveal(Settings::work);
        saying(None)
    }

    /// Closes the panel.
    fn panel_close(&mut self) -> (r: SettingsWork)
        ensures
            old(self).becomes(*final(self), SettingsEvent::Close),
            r == old(self).work(SettingsEvent::Close),
    {
        reveal(Settings::applied);
        reveal(Settings::touched_after);
        reveal(Settings::work);
        let mut w = saying(None);
        w.close = true;
        w
    }

    /// Takes in whether a cookie was deleted.
    fn panel_delete_cookie(
        &mut self,
        domain: String,
        name: String,
        removed: bool,
    ) -> (r: SettingsWork)
        ensures
            old(self).becomes(*final(self), SettingsEvent::DeleteCookie { domain, name, removed }),
            r == old(self).work(SettingsEvent::DeleteCookie { domain, name, removed }),
    {
        reveal(Settings::applied);
        reveal(Settings::touched_after);
        reveal(Settings::work);
        let mut w = saying(
            Some(
                if removed {
                    Notice::CookieDeleted { name, domain }
                } else {
                    Notice::CookieMissing { name, domain }
                },
            ),
        );
        w.persist_cookies = removed;
        w
    }

    /// Takes in that all cookies were deleted.
    fn panel_clear_cookies(&mut self) -> (r: SettingsWork)
        ensures
            old(self).becomes(*final(self), SettingsEvent::ClearCookies),
            r == old(self).work(SettingsEvent::ClearCookies),
    {
        reveal(Settings::applied);
        reveal(Settings::touched_after);
        reveal(Settings::work);
        let mut w = saying(Some(Notice::CookiesCleared));
        w.persist_cookies = true;
        w
    }

    /// Changes an advanced default in the panel.
    fn panel_advanced(
        &mut self,
        field: AdvancedField,
        value: u64,
        label: String,
        check: LoadCheck,
        rebuilt: Result<(), String>,
    ) -> (r: SettingsWork)
        ensures
            old(self).becomes(
                *final(self),
                SettingsEvent::ApplyAdvanced { field, value, label, check, rebuilt },
            ),
            r == old(self).work(SettingsEvent::ApplyAdvanced { field, value, label, check, rebuilt }),
    {
        reveal(Settings::applied);
        reveal(Settings::touched_after);
        reveal(Settings::work);
        let notice = self.apply_advanced_limit(field, value, label, check, rebuilt);
        saying(notice)
    }

    /// Switches the tracing of sends in the panel.
    fn panel_debug(&mut self) -> (r: SettingsWork)
        ensures
            old(self).becomes(*final(self), SettingsEvent::ToggleDebug),
            r == old(self).work(SettingsEvent::ToggleDebug),
    {
        reveal(Settings::applied);
        reveal(Settings::touched_after);
        reveal(Settings::work);
        let notice = self.toggle_debug();
        let on = self.debug != self.baseline.debug;
        self.mark_setting(SettingKey::Debug, on);
        saying(Some(notice))
    }

    /// Changes how redirects are followed.
    fn apply_redirect(&mut self, policy: RedirectPolicy) -> (r: SettingsWork)
        ensures
            old(self).becomes(*final(self), SettingsEvent::ApplyRedirect(policy)),
            r == old(self).work(SettingsEvent::ApplyRedirect(policy)),
    {
        reveal(Settings::applied);
        reveal(Settings::touched_after);
        reveal(Settings::work);
        self.redirect = policy;
        let on = policy != self.baseline.redirect;
        self.mark_setting(SettingKey::Redirect, on);
        saying(Some(Notice::RedirectSet { policy }))
    }

    /// Changes how the URL is edited.
    fn apply_url_edit(&mut self, mode: UrlEditMode) -> (r: SettingsWork)
        ensures
            old(self).becomes(*final(self), SettingsEvent::ApplyUrlEdit(mode)),
            r == old(self).work(SettingsEvent::ApplyUrlEdit(mode)),
    {
        reveal(Settings::applied);
        reveal(Settings::touched_after);
        reveal(Settings::work);
        self.url_edit = mode;
        let on = mode != self.baseline.url_edit;
        self.mark_setting(SettingKey::UrlEdit, on);
        saying(Some(Notice::UrlEditSet { mode }))
    }

    /// Changes what is done with secrets.
    fn apply_secret_policy(&mut self, policy: SecretPolicy) -> (r: SettingsWork)
        ensures
            old(self).becomes(*final(self), SettingsEvent::ApplySecretPolicy(policy)),
            r == old(self).work(SettingsEvent::ApplySecretPolicy(policy)),
    {
        reveal(Settings::applied);
        reveal(Settings::touched_after);
        reveal(Settings::work);
        self.secret_policy = policy;
        let on = policy != self.baseline.secret_policy;
        self.mark_setting(SettingKey::SecretPolicy, on);
        saying(Some(Notice::SecretPolicySet { secrets: policy }))
    }

    /// Changes the leader key.
    fn apply_leader_key(&mut self, combo: String, same: bool) -> (r: SettingsWork)
        ensures
            old(self).becomes(*final(self), SettingsEvent::ApplyLeaderKey { combo, same }),
            r == old(self).work(SettingsEvent::ApplyLeaderKey { combo, same }),
    {
        reveal(Settings::applied);
        reveal(Settings::touched_after);
        reveal(Settings::work);
        self.leader_key = combo.clone();
        self.mark_setting(SettingKey::LeaderKey, !same);
        saying(Some(Notice::LeaderKeySet { combo }))
    }

    /// Takes in what came of a save.
    fn panel_save(&mut self, saved: Result<SavedDefaults, String>) -> (r: SettingsWork)
        ensures
            old(self).becomes(*final(self), SettingsEvent::SaveDefaults { saved }),
            r == old(self).work(SettingsEvent::SaveDefaults { saved }),
    {
        reveal(Settings::applied);
        reveal(Settings::touched_after);
        reveal(Settings::work);
        let notice = self.save_settings_defaults(saved);
        saying(notice)
    }

    /// Makes a change that the panel asked for.
    pub fn apply(&mut self, e: SettingsEvent) -> (r: SettingsWork)
        ensures
            old(self).becomes(*final(self), e),
            r == old(self).work(e),
    {
        match e {
            SettingsEvent::Consumed => self.panel_consumed(),
            SettingsEvent::Close => self.panel_close(),
            SettingsEvent::ApplyProxy { proxy, masked, rebuilt } => self.apply_proxy(
                proxy,
                masked,
                rebuilt,
            ),
            SettingsEvent::ToggleInsecure { rebuilt } => self.panel_insecure(rebuilt),
            SettingsEvent::ToggleCookies { rebuilt } => self.panel_cookies(rebuilt),
            SettingsEvent::DeleteCookie { domain, name, removed } => self.panel_delete_cookie(
                domain,
                name,
                removed,
            ),
            SettingsEvent::ClearCookies => self.panel_clear_cookies(),
            SettingsEvent::UpsertCookie { previous, key, upserted } => self.panel_upsert(
                previous,
                key,
                upserted,
            ),
            SettingsEvent::ApplyAdvanced { field, value, label, check, rebuilt } => self.panel_advanced(
                field,
                value,
                label,
                check,
                rebuilt,
            ),
            SettingsEvent::ToggleDebug => self.panel_debug(),
            SettingsEvent::ApplyRedirect(policy) => self.apply_redirect(policy),
            SettingsEvent::ApplyUrlEdit(mode) => self.apply_url_edit(mode),
            SettingsEvent::ApplySecretPolicy(policy) => self.apply_secret_policy(policy),
            SettingsEvent::ApplyLoadCap { cap, count, label } => self.apply_load_cap(
                cap,
                count,
                label,
            ),
            SettingsEvent::ApplyTheme { name, resolved } => self.apply_theme(name, resolved),
            SettingsEvent::ApplyLeaderKey { combo, same } => self.apply_leader_key(combo, same),
            SettingsEvent::SaveDefaults { saved } => self.panel_save(saved),
        }
    }
}

/// The outside work that a change needs before it can be made.
#[derive(Debug)]
pub enum SettingsAsk {
    /// None.
    Nothing,
    /// The client is to be built anew.
    Rebuild {
        /// With this proxy.
        proxy: Option<String>,
        /// With certificates unchecked.
        insecure: bool,
        /// With the cookies kept.
        cookies: bool,
        /// With this timeout in seconds.
        timeout_secs: u64,
    },
    /// The limits are to be asked about a load run.
    CheckLoad(crate::load::LoadConfig),
    /// The changed settings are to be saved.
    Save(SettingsDefaults),
}

/// A change of the panel whose outside work rests on the other settings.
#[derive(Debug)]
pub enum SettingsChange {
    /// The proxy is to change.
    Proxy(Option<String>),
    /// The check of certificates is to be switched.
    Insecure,
    /// The keeping of cookies is to be switched.
    Cookies,
    /// An advanced default is to change.
    Advanced {
        /// Which.
        field: AdvancedField,
        /// Its value.
        value: u64,
    },
    /// The changes are to be saved.
    Save,
}

impl Settings {
    /// The outside work that a change needs: the client is built with the
    /// settings as they would be, of which the settings themselves take over only
    /// what could be built.
    pub open spec fn asked(self, change: SettingsChange) -> SettingsAsk {
        match change {
            SettingsChange::Proxy(proxy) => SettingsAsk::Rebuild {
                proxy,
                insecure: self.insecure,
                cookies: self.cookies,
                timeout_secs: self.client_timeout_secs,
            },
            SettingsChange::Insecure => SettingsAsk::Rebuild {
                proxy: self.proxy,
                insecure: !self.insecure,
                cookies: self.cookies,
                timeout_secs: self.client_timeout_secs,
            },
            SettingsChange::Cookies => SettingsAsk::Rebuild {
                proxy: self.proxy,
                insecure: self.insecure,
                cookies: !self.cookies,
                timeout_secs: self.client_timeout_secs,
            },
            SettingsChange::Advanced { field, value } => match field {
                AdvancedField::Concurrency | AdvancedField::Total => SettingsAsk::CheckLoad(
                    crate::load::LoadConfig {
                        total: field.put(self.advanced, value).total,
                        concurrency: field.put(self.advanced, value).concurrency,
                        interval_ns: 0,
                    },
                ),
                AdvancedField::BodyCapBytes => SettingsAsk::Nothing,
                AdvancedField::TimeoutSecs => SettingsAsk::Rebuild {
                    proxy: self.proxy,
                    insecure: self.insecure,
                    cookies: self.cookies,
                    timeout_secs: value,
                },
            },
            SettingsChange::Save => SettingsAsk::Save(self.edits()),
        }
    }

    /// The outside work that a change needs.
    pub fn ask(&self, change: SettingsChange) -> (r: SettingsAsk)
        ensures
            r == self.asked(change),
    {
        match change {
            SettingsChange::Proxy(proxy) => SettingsAsk::Rebuild {
                proxy,
                insecure: self.insecure,
                cookies: self.cookies,
                timeout_secs: self.client_timeout_secs,
            },
            SettingsChange::Insecure => SettingsAsk::Rebuild {
                proxy: copy_text(&self.proxy),
                insecure: !self.insecure,
                cookies: self.cookies,
                timeout_secs: self.client_timeout_secs,
            },
            SettingsChange::Cookies => SettingsAsk::Rebuild {
                proxy: copy_text(&self.proxy),
                insecure: self.insecure,
                cookies: !self.cookies,
                timeout_secs: self.client_timeout_secs,
            },
            SettingsChange::Advanced { field, value } => match field {
                AdvancedField::Concurrency | AdvancedField::Total => SettingsAsk::CheckLoad(
                    self.advanced_candidate(field, value),
                ),
                AdvancedField::BodyCapBytes => SettingsAsk::Nothing,
                AdvancedField::TimeoutSecs => SettingsAsk::Rebuild {
                    proxy: copy_text(&self.proxy),
                    insecure: self.insecure,
                    cookies: self.cookies,
                    timeout_secs: value,
                },
            },
            SettingsChange::Save => SettingsAsk::Save(self.settings_edits()),
        }
    }
}

/// A change that the options overlay asks for, with what came of the outside
/// work that it needs.
#[derive(Debug)]
pub enum OptionsEvent {
    /// Nothing changes.
    Consumed,
    /// The overlay closes.
    Close,
    /// The proxy is to change.
    ApplyProxy {
        /// The proxy.
        proxy: Option<String>,
        /// The proxy as it is shown, without its password.
        masked: String,
        /// Whether the client could be built with it.
        rebuilt: Result<(), String>,
    },
    /// The check of certificates is to be switched.
    ToggleInsecure {
        /// Whether the client could be built with it.
        rebuilt: Result<(), String>,
    },
    /// The keeping of cookies is to be switched.
    ToggleCookies {
        /// Whether the client could be built with it.
        rebuilt: Result<(), String>,
    },
    /// A cookie was to be deleted.
    DeleteCookie {
        /// The domain.
        domain: String,
        /// The name.
        name: String,
        /// Whether there was one.
        removed: bool,
    },
    /// All cookies were deleted.
    ClearCookies,
}

impl OptionsEvent {
    /// The change of the panel that does the same to the session.
    pub open spec fn as_setting(self) -> SettingsEvent {
        match self {
            OptionsEvent::Consumed => SettingsEvent::Consumed,
            OptionsEvent::Close => SettingsEvent::Close,
            OptionsEvent::ApplyProxy { proxy, masked, rebuilt } => SettingsEvent::ApplyProxy {
                proxy,
                masked,
                rebuilt,
            },
            OptionsEvent::ToggleInsecure { rebuilt } => SettingsEvent::ToggleInsecure { rebuilt },
            OptionsEvent::ToggleCookies { rebuilt } => SettingsEvent::ToggleCookies { rebuilt },
            OptionsEvent::DeleteCookie { domain, name, removed } => SettingsEvent::DeleteCookie {
                domain,
                name,
                removed,
            },
            OptionsEvent::ClearCookies => SettingsEvent::ClearCookies,
        }
    }
}

impl Settings {
    /// Makes a change that the options overlay asked for: as the panel would, but
    /// it does not count as a change in the panel.
    pub fn apply_option(&mut self, e: OptionsEvent) -> (r: SettingsWork)
        ensures
            *final(self) == (Settings {
                touched: final(self).touched,
                ..old(self).applied(e.as_setting())
            }),
            final(self).touched@ == old(self).touched@,
            r == old(self).work(e.as_setting()),
    {
        let touched = Touched { keys: self.touched.keys.clone() };
        let e = match e {
            OptionsEvent::Consumed => SettingsEvent::Consumed,
            OptionsEvent::Close => SettingsEvent::Close,
            OptionsEvent::ApplyProxy { proxy, masked, rebuilt } => SettingsEvent::ApplyProxy {
                proxy,
                masked,
                rebuilt,
            },
            OptionsEvent::ToggleInsecure { rebuilt } => SettingsEvent::ToggleInsecure { rebuilt },
            OptionsEvent::ToggleCookies { rebuilt } => SettingsEvent::ToggleCookies { rebuilt },
            OptionsEvent::DeleteCookie { domain, name, removed } => SettingsEvent::DeleteCookie {
                domain,
                name,
                removed,
            },
            OptionsEvent::ClearCookies => SettingsEvent::ClearCookies,
        };
        let w = self.apply(e);
        self.touched = touched;
        w
    }
}

/// What is written to the configuration: only what was changed in the panel.
#[derive(Debug)]
pub struct SettingsDefaults {
    /// The theme, where it is written.
    pub theme: Option<String>,
    /// The leader key, where it is written.
    pub leader_key: Option<String>,
    /// The timeout, where it is written.
    pub timeout_secs: Option<u64>,
    /// The size limit of bodies, where it is written.
    pub max_body_bytes: Option<u64>,
    /// How the URL is edited, where it is written.
    pub url_edit: Option<UrlEditMode>,
    /// What is done with secrets, where it is written.
    pub secret_policy: Option<SecretPolicy>,
    /// How redirects are followed, where it is written.
    pub redirect: Option<RedirectPolicy>,
    /// The proxy, where it is written.
    pub proxy: Option<Option<String>>,
    /// Whether certificates are checked, where it is written.
    pub insecure: Option<bool>,
    /// Whether cookies are kept, where it is written.
    pub cookies: Option<bool>,
    /// Whether sends are traced, where it is written.
    pub debug: Option<bool>,
    /// The number of copies that needs a confirmation, where it is written.
    pub load_warn_total: Option<usize>,
    /// The number at once that needs a confirmation, where it is written.
    pub load_warn_concurrency: Option<usize>,
    /// The largest number of copies, where it is written.
    pub load_max_total: Option<usize>,
    /// The largest number at once, where it is written.
    pub load_max_concurrency: Option<usize>,
    /// The default number at once, where it is written.
    pub advanced_concurrency: Option<usize>,
    /// The default number of copies, where it is written.
    pub advanced_total: Option<usize>,
}

/// A value, where it is to be written.
pub open spec fn when<T>(on: bool, value: T) -> Option<T> {
    if on {
        Some(value)
    } else {
        None
    }
}

impl Settings {
    /// What a save writes: the value of each setting that was changed in the
    /// panel, and nothing of the others.
    pub open spec fn edits(self) -> SettingsDefaults {
        SettingsDefaults {
            theme: when(self.touched@.contains(SettingKey::Theme), self.theme),
            leader_key: when(self.touched@.contains(SettingKey::LeaderKey), self.leader_key),
            timeout_secs: when(
                self.touched@.contains(SettingKey::Timeout),
                self.advanced.timeout_secs,
            ),
            max_body_bytes: when(
                self.touched@.contains(SettingKey::MaxBodyBytes),
                self.advanced.body_cap_bytes,
            ),
            url_edit: when(self.touched@.contains(SettingKey::UrlEdit), self.url_edit),
            secret_policy: when(
                self.touched@.contains(SettingKey::SecretPolicy),
                self.secret_policy,
            ),
            redirect: when(self.touched@.contains(SettingKey::Redirect), self.redirect),
            proxy: when(self.touched@.contains(SettingKey::Proxy), self.proxy),
            insecure: when(self.touched@.contains(SettingKey::Insecure), self.insecure),
            cookies: when(self.touched@.contains(SettingKey::Cookies), self.cookies),
            debug: when(self.touched@.contains(SettingKey::Debug), self.debug),
            load_warn_total: when(
                self.touched@.contains(SettingKey::LoadWarnTotal),
                self.load_caps.warn_total,
            ),
            load_warn_concurrency: when(
                self.touched@.contains(SettingKey::LoadWarnConcurrency),
                self.load_caps.warn_concurrency,
            ),
            load_max_total: when(
                self.touched@.contains(SettingKey::LoadMaxTotal),
                self.load_caps.max_total,
            ),
            load_max_concurrency: when(
                self.touched@.contains(SettingKey::LoadMaxConcurrency),
                self.load_caps.max_concurrency,
            ),
            advanced_concurrency: when(
                self.touched@.contains(SettingKey::AdvancedConcurrency),
                self.advanced.concurrency,
            ),
            advanced_total: when(
                self.touched@.contains(SettingKey::AdvancedTotal),
                self.advanced.total,
            ),
        }
    }

    /// What a save writes.
    pub fn settings_edits(&self) -> (r: SettingsDefaults)
        ensures
            r == self.edits(),
    {
        SettingsDefaults {
            theme: if self.touched.contains(SettingKey::Theme) {
                Some(self.theme.clone())
            } else {
                None
            },
            leader_key: if self.touched.contains(SettingKey::LeaderKey) {
                Some(self.leader_key.clone())
            } else {
                None
            },
            timeout_secs: if self.touched.contains(SettingKey::Timeout) {
                Some(self.advanced.timeout_secs)
            } else {
                None
            },
            max_body_bytes: if self.touched.contains(SettingKey::MaxBodyBytes) {
                Some(self.advanced.body_cap_bytes)
            } else {
                None
            },
            url_edit: if self.touched.contains(SettingKey::UrlEdit) {
                Some(self.url_edit)
            } else {
                None
            },
            secret_policy: if self.touched.contains(SettingKey::SecretPolicy) {
                Some(self.secret_policy)
            } else {
                None
            },
            redirect: if self.touched.contains(SettingKey::Redirect) {
                Some(self.redirect)
            } else {
                None
            },
            proxy: if self.touched.contains(SettingKey::Proxy) {
                Some(copy_text(&self.proxy))
            } else {
                None
            },
            insecure: if self.touched.contains(SettingKey::Insecure) {
                Some(self.insecure)
            } else {
                None
            },
            cookies: if self.touched.contains(SettingKey::Cookies) {
                Some(self.cookies)
            } else {
                None
            },
            debug: if self.touched.contains(SettingKey::Debug) {
                Some(self.debug)
            } else {
                None
            },
            load_warn_total: if self.touched.contains(SettingKey::LoadWarnTotal) {
                Some(self.load_caps.warn_total)
            } else {
                None
            },
            load_warn_concurrency: if self.touched.contains(SettingKey::LoadWarnConcurrency) {
                Some(self.load_caps.warn_concurrency)
            } else {
                None
            },
            load_max_total: if self.touched.contains(SettingKey::LoadMaxTotal) {
                Some(self.load_caps.max_total)
            } else {
                None
            },
            load_max_concurrency: if self.touched.contains(SettingKey::LoadMaxConcurrency) {
                Some(self.load_caps.max_concurrency)
            } else {
                None
            },
            advanced_concurrency: if self.touched.contains(SettingKey::AdvancedConcurrency) {
                Some(self.advanced.concurrency)
            } else {
                None
            },
            advanced_total: if self.touched.contains(SettingKey::AdvancedTotal) {
                Some(self.advanced.total)
            } else {
                None
            },
        }
    }
}

/// Whether a setting is not what it is in the baseline.
pub open spec fn differs(s: Settings, key: SettingKey) -> bool {
    match key {
        SettingKey::Theme => s.theme@ != s.baseline.theme@,
        SettingKey::LeaderKey => s.leader_key@ != s.baseline.leader_key@,
        SettingKey::Timeout => s.advanced.timeout_secs != s.baseline.advanced.timeout_secs,
        SettingKey::MaxBodyBytes => s.advanced.body_cap_bytes != s.baseline.advanced.body_cap_bytes,
        SettingKey::UrlEdit => s.url_edit != s.baseline.url_edit,
        SettingKey::SecretPolicy => s.secret_policy != s.baseline.secret_policy,
        SettingKey::Redirect => s.redirect != s.baseline.redirect,
        SettingKey::Proxy => text_of(s.proxy) != text_of(s.baseline.proxy),
        SettingKey::Insecure => s.insecure != s.baseline.insecure,
        SettingKey::Cookies => s.cookies != s.baseline.cookies,
        SettingKey::Debug => s.debug != s.baseline.debug,
        SettingKey::LoadWarnTotal => s.load_caps.warn_total != s.baseline.load_caps.warn_total,
        SettingKey::LoadWarnConcurrency => s.load_caps.warn_concurrency
            != s.baseline.load_caps.warn_concurrency,
        SettingKey::LoadMaxTotal => s.load_caps.max_total != s.baseline.load_caps.max_total,
        SettingKey::LoadMaxConcurrency => s.load_caps.max_concurrency
            != s.baseline.load_caps.max_concurrency,
        SettingKey::AdvancedConcurrency => s.advanced.concurrency
            != s.baseline.advanced.concurrency,
        SettingKey::AdvancedTotal => s.advanced.total != s.baseline.advanced.total,
    }
}

/// The setting that a change of the panel is about.
pub open spec fn event_key(e: SettingsEvent) -> Option<SettingKey> {
    match e {
        SettingsEvent::ApplyProxy { .. } => Some(SettingKey::Proxy),
        SettingsEvent::ToggleInsecure { .. } => Some(SettingKey::Insecure),
        SettingsEvent::ToggleCookies { .. } => Some(SettingKey::Cookies),
        SettingsEvent::ApplyAdvanced { field, .. } => Some(field.spec_key()),
        SettingsEvent::ToggleDebug => Some(SettingKey::Debug),
        SettingsEvent::ApplyRedirect(_) => Some(SettingKey::Redirect),
        SettingsEvent::ApplyUrlEdit(_) => Some(SettingKey::UrlEdit),
        SettingsEvent::ApplySecretPolicy(_) => Some(SettingKey::SecretPolicy),
        SettingsEvent::ApplyLoadCap { cap, .. } => Some(cap.spec_key()),
        SettingsEvent::ApplyTheme { .. } => Some(SettingKey::Theme),
        SettingsEvent::ApplyLeaderKey { .. } => Some(SettingKey::LeaderKey),
        _ => None,
    }
}

/// Whether a change is made: it is not refused, and the client could be built
/// with it.
pub open spec fn taken(e: SettingsEvent) -> bool {
    match e {
        SettingsEvent::ApplyProxy { rebuilt, .. } => rebuilt is Ok,
        SettingsEvent::ToggleInsecure { rebuilt } => rebuilt is Ok,
        SettingsEvent::ToggleCookies { rebuilt } => rebuilt is Ok,
        SettingsEvent::ApplyAdvanced { field, check, .. } => match field {
            AdvancedField::Concurrency | AdvancedField::Total => !(check is Refuse),
            _ => true,
        },
        SettingsEvent::ApplyTheme { resolved, .. } => resolved is Ok,
        _ => true,
    }
}

/// What counts as changed is what differs from the baseline, of every setting but
/// the leader key, which may be the same key written in another way.
pub open spec fn net_changed(s: Settings) -> bool {
    forall|key: SettingKey|
        key != SettingKey::LeaderKey ==> #[trigger] s.touched@.contains(key) == differs(s, key)
}

/// A change leaves every other setting, and a change that is refused leaves all
/// of them.
pub open spec fn leaves(s: Settings, e: SettingsEvent, key: SettingKey) -> bool {
    (event_key(e) != Some(key) || !taken(e)) ==> differs(s.applied(e), key) == differs(s, key)
}

proof fn lemma_leaves_apply_proxy(
    s: Settings,
    proxy: Option<String>,
    masked: String,
    rebuilt: Result<(), String>,
    key: SettingKey,
)
    ensures
        leaves(s, SettingsEvent::ApplyProxy { proxy, masked, rebuilt }, key),
{
    reveal(Settings::applied);
}

proof fn lemma_leaves_toggle_insecure(s: Settings, rebuilt: Result<(), String>, key: SettingKey)
    ensures
        leaves(s, SettingsEvent::ToggleInsecure { rebuilt }, key),
{
    reveal(Settings::applied);
}

proof fn lemma_leaves_toggle_cookies(s: Settings, rebuilt: Result<(), String>, key: SettingKey)
    ensures
        leaves(s, SettingsEvent::ToggleCookies { rebuilt }, key),
{
    reveal(Settings::applied);
}

proof fn lemma_leaves_upsert_cookie(
    s: Settings,
    previous: Option<CookieKey>,
    place: CookieKey,
    upserted: Result<(), String>,
    key: SettingKey,
)
    ensures
        leaves(s, SettingsEvent::UpsertCookie { previous, key: place, upserted }, key),
{
    reveal(Settings::applied);
}

proof fn lemma_leaves_apply_advanced(
    s: Settings,
    field: AdvancedField,
    value: u64,
    label: String,
    check: LoadCheck,
    rebuilt: Result<(), String>,
    key: SettingKey,
)
    ensures
        leaves(s, SettingsEvent::ApplyAdvanced { field, value, label, check, rebuilt }, key),
{
    reveal(Settings::applied);
}

proof fn lemma_leaves_apply_load_cap(
    s: Settings,
    cap: LoadCapField,
    count: usize,
    label: String,
    key: SettingKey,
)
    ensures
        leaves(s, SettingsEvent::ApplyLoadCap { cap, count, label }, key),
{
    reveal(Settings::applied);
}

proof fn lemma_leaves_apply_theme(
    s: Settings,
    name: String,
    resolved: Result<(), String>,
    key: SettingKey,
)
    ensures
        leaves(s, SettingsEvent::ApplyTheme { name, resolved }, key),
{
    reveal(Settings::applied);
}

proof fn lemma_leaves_apply_leader_key(s: Settings, combo: String, same: bool, key: SettingKey)
    ensures
        leaves(s, SettingsEvent::ApplyLeaderKey { combo, same }, key),
{
    reveal(Settings::applied);
}

proof fn lemma_leaves_delete_cookie(
    s: Settings,
    domain: String,
    name: String,
    removed: bool,
    key: SettingKey,
)
    ensures
        leaves(s, SettingsEvent::DeleteCookie { domain, name, removed }, key),
{
    reveal(Settings::applied);
}

proof fn lemma_leaves_rest(s: Settings, e: SettingsEvent, key: SettingKey)
    requires
        e is Consumed || e is Close || e is ClearCookies || e is ToggleDebug || e is ApplyRedirect
            || e is ApplyUrlEdit || e is ApplySecretPolicy,
    ensures
        leaves(s, e, key),
{
    reveal(Settings::applied);
}

proof fn lemma_leaves(s: Settings, e: SettingsEvent, key: SettingKey)
    requires
        !(e is SaveDefaults),
    ensures
        leaves(s, e, key),
{
    match e {
        SettingsEvent::ApplyProxy { proxy, masked, rebuilt } => {
            lemma_leaves_apply_proxy(s, proxy, masked, rebuilt, key);
        },
        SettingsEvent::ToggleInsecure { rebuilt } => {
            lemma_leaves_toggle_insecure(s, rebuilt, key);
        },
        SettingsEvent::ToggleCookies { rebuilt } => {
            lemma_leaves_toggle_cookies(s, rebuilt, key);
        },
        SettingsEvent::UpsertCookie { previous, key: place, upserted } => {
            lemma_leaves_upsert_cookie(s, previous, place, upserted, key);
        },
        SettingsEvent::ApplyAdvanced { field, value, label, check, rebuilt } => {
            lemma_leaves_apply_advanced(s, field, value, label, check, rebuilt, key);
        },
        SettingsEvent::ApplyLoadCap { cap, count, label } => {
            lemma_leaves_apply_load_cap(s, cap, count, label, key);
        },
        SettingsEvent::ApplyTheme { name, resolved } => {
            lemma_leaves_apply_theme(s, name, resolved, key);
        },
        SettingsEvent::ApplyLeaderKey { combo, same } => {
            lemma_leaves_apply_leader_key(s, combo, same, key);
        },
        SettingsEvent::DeleteCookie { domain, name, removed } => {
            lemma_leaves_delete_cookie(s, domain, name, removed, key);
        },
        _ => {
            lemma_leaves_rest(s, e, key);
        },
    }
}

proof fn lemma_saved_net(s: Settings, saved: Result<SavedDefaults, String>, key: SettingKey)
    requires
        key != SettingKey::LeaderKey,
        s.touched@.contains(key) == differs(s, key),
    ensures
        s.touched_saved(saved).contains(key) == differs(s.saved(saved), key),
{
}

/// Where what counts as changed is what differs from the baseline, it stays so
/// over every change of the panel: a setting that goes back to what it was no
/// longer counts as changed, and one that was only looked at never does.
pub proof fn law_touched_is_net_change(s: Settings, e: SettingsEvent, after: Settings)
    requires
        net_changed(s),
        s.becomes(after, e),
    ensures
        net_changed(after),
{
    assert forall|key: SettingKey| key != SettingKey::LeaderKey implies #[trigger] after.touched@.contains(
        key,
    ) == differs(after, key) by {
        assert(s.touched@.contains(key) == differs(s, key));
        assert(differs(after, key) == differs(s.applied(e), key));
        if let SettingsEvent::SaveDefaults { saved } = e {
            reveal(Settings::applied);
            reveal(Settings::touched_after);
            lemma_saved_net(s, saved, key);
        } else {
            lemma_leaves(s, e, key);
            reveal(Settings::touched_after);
        }
    }
}

/// Opening the panel keeps what counts as changed, so a change that was not saved
/// still counts after the panel was closed and opened again.
pub proof fn law_reopen_keeps_changes(s: Settings)
    requires
        s.baseline_established,
    ensures
        s.opened().touched == s.touched,
        s.opened().baseline == s.baseline,
        s.opened().edits() == s.edits(),
{
}

/// A change that could not be made leaves the proxy, the check of certificates
/// and the keeping of cookies as they were, and counts as no change.
pub proof fn law_failed_rebuild_changes_nothing(
    s: Settings,
    proxy: Option<String>,
    masked: String,
    err: String,
)
    ensures
        s.applied(
            SettingsEvent::ApplyProxy { proxy, masked, rebuilt: Err(err) },
        ) == s.noted(PanelNote::InvalidProxy { err }),
        s.applied(SettingsEvent::ToggleInsecure { rebuilt: Err(err) }) == s.noted(
            PanelNote::CouldNotApply { err },
        ),
        s.applied(SettingsEvent::ToggleCookies { rebuilt: Err(err) }) == s.noted(
            PanelNote::CouldNotApply { err },
        ),
        s.touched_after(SettingsEvent::ApplyProxy { proxy, masked, rebuilt: Err(err) })
            == s.touched@,
        s.touched_after(SettingsEvent::ToggleInsecure { rebuilt: Err(err) }) == s.touched@,
        s.touched_after(SettingsEvent::ToggleCookies { rebuilt: Err(err) }) == s.touched@,
        s.insecure_toggled(Err(err)) == s,
        !s.work(SettingsEvent::ToggleCookies { rebuilt: Err(err) }).persist_cookies,
{
    reveal(Settings::applied);
    reveal(Settings::touched_after);
    reveal(Settings::work);
}

/// After a save nothing is left to be written, but a proxy that was left out: it
/// is written at the next save. The values of the session stay.
pub proof fn law_save_writes_changes_once(s: Settings, saved: SavedDefaults, key: SettingKey)
    ensures
        s.touched_saved(Ok(saved)).contains(key) <==> saved.proxy_skipped && key
            == SettingKey::Proxy && s.touched@.contains(key),
        saved.proxy_skipped ==> s.saved(Ok(saved)).baseline.proxy == s.baseline.proxy,
        s.saved(Ok(saved)).working() == s.working(),
{
}

/// A save writes a setting where it counts as changed, and only there.
pub proof fn law_save_is_sparse(s: Settings)
    ensures
        s.edits().theme is Some <==> s.touched@.contains(SettingKey::Theme),
        s.edits().leader_key is Some <==> s.touched@.contains(SettingKey::LeaderKey),
        s.edits().timeout_secs is Some <==> s.touched@.contains(SettingKey::Timeout),
        s.edits().max_body_bytes is Some <==> s.touched@.contains(SettingKey::MaxBodyBytes),
        s.edits().url_edit is Some <==> s.touched@.contains(SettingKey::UrlEdit),
        s.edits().secret_policy is Some <==> s.touched@.contains(SettingKey::SecretPolicy),
        s.edits().redirect is Some <==> s.touched@.contains(SettingKey::Redirect),
        s.edits().proxy is Some <==> s.touched@.contains(SettingKey::Proxy),
        s.edits().insecure is Some <==> s.touched@.contains(SettingKey::Insecure),
        s.edits().cookies is Some <==> s.touched@.contains(SettingKey::Cookies),
        s.edits().debug is Some <==> s.touched@.contains(SettingKey::Debug),
        s.edits().load_warn_total is Some <==> s.touched@.contains(SettingKey::LoadWarnTotal),
        s.edits().load_warn_concurrency is Some <==> s.touched@.contains(
            SettingKey::LoadWarnConcurrency,
        ),
        s.edits().load_max_total is Some <==> s.touched@.contains(SettingKey::LoadMaxTotal),
        s.edits().load_max_concurrency is Some <==> s.touched@.contains(
            SettingKey::LoadMaxConcurrency,
        ),
        s.edits().advanced_concurrency is Some <==> s.touched@.contains(
            SettingKey::AdvancedConcurrency,
        ),
        s.edits().advanced_total is Some <==> s.touched@.contains(SettingKey::AdvancedTotal),
{
}

/// Switching the check of certificates from outside the panel does not count as a
/// change in the panel.
pub proof fn law_shortcut_is_no_panel_edit(s: Settings, rebuilt: Result<(), String>)
    ensures
        s.insecure_toggled(rebuilt).touched == s.touched,
        s.insecure_toggled(rebuilt).edits().insecure is Some <==> s.edits().insecure is Some,
{
}

/// Each event changes the setting that it names, to the value that it brings, and one that did
/// not come through leaves that setting as it was.
pub proof fn law_setting_takes_the_value_that_came(
    a: Settings,
    b: Settings,
    e: SettingsEvent,
)
    requires
        a.becomes(b, e),
    ensures
        match e {
            SettingsEvent::ApplyProxy { proxy, rebuilt, .. } => {
                &&& rebuilt is Ok ==> b.proxy == proxy
                &&& rebuilt matches Err(err) ==> b.proxy == a.proxy && b.note == Some(
                    PanelNote::InvalidProxy { err },
                )
            },
            SettingsEvent::ToggleInsecure { rebuilt } => {
                &&& rebuilt is Ok ==> b.insecure != a.insecure
                &&& rebuilt matches Err(err) ==> b.insecure == a.insecure && b.note == Some(
                    PanelNote::CouldNotApply { err },
                )
            },
            SettingsEvent::ToggleCookies { rebuilt } => {
                &&& rebuilt is Ok ==> b.cookies != a.cookies
                &&& rebuilt matches Err(err) ==> b.cookies == a.cookies && b.note == Some(
                    PanelNote::CouldNotApply { err },
                )
            },
            SettingsEvent::ToggleDebug => b.debug != a.debug,
            SettingsEvent::ApplyRedirect(policy) => b.redirect == policy,
            SettingsEvent::ApplyUrlEdit(mode) => b.url_edit == mode,
            SettingsEvent::ApplySecretPolicy(policy) => b.secret_policy == policy,
            SettingsEvent::ApplyLeaderKey { combo, .. } => b.leader_key == combo,
            SettingsEvent::ApplyTheme { name, resolved } => {
                &&& resolved is Ok ==> b.theme == name
                &&& resolved matches Err(err) ==> b.theme == a.theme && b.note == Some(
                    PanelNote::CouldNotApplyTheme { err },
                )
            },
            SettingsEvent::ApplyLoadCap { cap, count, .. } => {
                &&& cap is WarnTotal ==> b.load_caps.warn_total == count && b.load_caps.max_total
                    == a.load_caps.max_total
                &&& cap is WarnConcurrency ==> b.load_caps.warn_concurrency == count
                    && b.load_caps.max_concurrency == a.load_caps.max_concurrency
                &&& cap is MaxTotal ==> b.load_caps.max_total == count && b.load_caps.warn_total
                    == a.load_caps.warn_total
                &&& cap is MaxConcurrency ==> b.load_caps.max_concurrency == count
                    && b.load_caps.warn_concurrency == a.load_caps.warn_concurrency
            },
            SettingsEvent::ApplyAdvanced { field, value, check, rebuilt, .. } => {
                &&& field is BodyCapBytes ==> b.advanced.body_cap_bytes == value && b.max_body_bytes
                    == value
                &&& field is TimeoutSecs ==> b.advanced.timeout_secs == value
                    && b.client_timeout_secs == value
                &&& field is Total && check is Refuse ==> b.advanced == a.advanced
                &&& field is Concurrency && check is Refuse ==> b.advanced == a.advanced
                &&& field is Total && !(check is Refuse) && value <= usize::MAX ==> b.advanced.total
                    == value && b.advanced.concurrency == a.advanced.concurrency
                &&& field is Concurrency && !(check is Refuse) && value <= usize::MAX
                    ==> b.advanced.concurrency == value && b.advanced.total == a.advanced.total
                &&& field is Total || field is Concurrency ==> b.advanced.timeout_secs
                    == a.advanced.timeout_secs && b.max_body_bytes == a.max_body_bytes
            },
            SettingsEvent::SaveDefaults { saved } => b.theme == a.theme && b.proxy == a.proxy
                && b.insecure == a.insecure && b.cookies == a.cookies && b.advanced == a.advanced,
            _ => b.proxy == a.proxy && b.insecure == a.insecure && b.cookies == a.cookies && b.theme
                == a.theme && b.debug == a.debug,
        },
{
    reveal(Settings::applied);
}

/// A client is built again with the change that is asked for and with every other setting as it
/// is; the limits of a load run are asked about with the number that was changed.
pub proof fn law_rebuild_asks_for_the_change(a: Settings, proxy: Option<String>, value: u64)
    ensures
        a.asked(SettingsChange::Proxy(proxy)) == (SettingsAsk::Rebuild {
            proxy,
            insecure: a.insecure,
            cookies: a.cookies,
            timeout_secs: a.client_timeout_secs,
        }),
        a.asked(SettingsChange::Insecure) == (SettingsAsk::Rebuild {
            proxy: a.proxy,
            insecure: !a.insecure,
            cookies: a.cookies,
            timeout_secs: a.client_timeout_secs,
        }),
        a.asked(SettingsChange::Cookies) == (SettingsAsk::Rebuild {
            proxy: a.proxy,
            insecure: a.insecure,
            cookies: !a.cookies,
            timeout_secs: a.client_timeout_secs,
        }),
        a.asked(SettingsChange::Advanced { field: AdvancedField::TimeoutSecs, value }) == (
        SettingsAsk::Rebuild {
            proxy: a.proxy,
            insecure: a.insecure,
            cookies: a.cookies,
            timeout_secs: value,
        }),
        value <= usize::MAX ==> (a.asked(
            SettingsChange::Advanced { field: AdvancedField::Total, value },
        ) matches SettingsAsk::CheckLoad(cfg) && cfg.total == value && cfg.concurrency
            == a.advanced.concurrency),
        value <= usize::MAX ==> (a.asked(
            SettingsChange::Advanced { field: AdvancedField::Concurrency, value },
        ) matches SettingsAsk::CheckLoad(cfg) && cfg.concurrency == value && cfg.total
            == a.advanced.total),
{
}

/// What is told of a change says what it came to: on where a switch went on and off where it
/// went off, and nothing of a change that did not come through.
pub proof fn law_change_is_told_as_it_came_out(a: Settings, e: SettingsEvent)
    ensures
        match e {
            SettingsEvent::ToggleInsecure { rebuilt } => {
                &&& rebuilt is Ok && a.insecure ==> a.work(e).notice == Some(Notice::InsecureOff)
                &&& rebuilt is Ok && !a.insecure ==> a.work(e).notice == Some(Notice::InsecureOn)
                &&& rebuilt is Err ==> a.work(e).notice is None
            },
            SettingsEvent::ToggleDebug => a.work(e).notice == Some(
                if a.debug {
                    Notice::DebugOff
                } else {
                    Notice::DebugOn
                },
            ),
            SettingsEvent::ToggleCookies { rebuilt } => {
                &&& rebuilt is Ok && a.cookies ==> a.work(e).notice == Some(Notice::CookiesOff)
                    && a.work(e).persist_cookies
                &&& rebuilt is Ok && !a.cookies ==> a.work(e).notice == Some(Notice::CookiesOn)
                    && !a.work(e).persist_cookies
                &&& rebuilt is Err ==> a.work(e).notice is None
            },
            SettingsEvent::ApplyProxy { proxy, masked, rebuilt } => {
                &&& rebuilt is Ok && proxy is Some ==> a.work(e).notice == Some(
                    Notice::ProxySet { masked },
                )
                &&& rebuilt is Ok && proxy is None ==> a.work(e).notice == Some(
                    Notice::ProxyCleared,
                )
                &&& rebuilt is Err ==> a.work(e).notice is None
            },
            SettingsEvent::DeleteCookie { domain, name, removed } => {
                &&& removed ==> a.work(e).persist_cookies && a.work(e).notice == Some(
                    Notice::CookieDeleted { name, domain },
                )
                &&& !removed ==> !a.work(e).persist_cookies && a.work(e).notice == Some(
                    Notice::CookieMissing { name, domain },
                )
            },
            SettingsEvent::UpsertCookie { previous, key, upserted } => {
                &&& upserted is Ok ==> a.work(e).persist_cookies
                &&& upserted is Ok && previous is None ==> a.work(e).drop_cookie is None && a.work(
                    e,
                ).notice == Some(Notice::CookieAdded { name: key.name, domain: key.domain })
                &&& upserted is Ok && previous is Some && (previous->0.name@ != key.name@
                    || previous->0.domain@ != key.domain@ || previous->0.path@ != key.path@)
                    ==> a.work(e).drop_cookie == previous
                &&& upserted is Ok && previous is Some && previous->0.name@ == key.name@
                    && previous->0.domain@ == key.domain@ && previous->0.path@ == key.path@
                    ==> a.work(e).drop_cookie is None
                &&& upserted is Err ==> !a.work(e).persist_cookies && a.work(e).notice is None
            },
            SettingsEvent::ClearCookies => a.work(e).persist_cookies,
            SettingsEvent::ApplyTheme { name, resolved } => a.work(e).respawn_highlighter
                <==> resolved is Ok,
            SettingsEvent::ApplyRedirect(policy) => a.work(e).notice == Some(
                Notice::RedirectSet { policy },
            ),
            SettingsEvent::ApplyUrlEdit(mode) => a.work(e).notice == Some(
                Notice::UrlEditSet { mode },
            ),
            _ => true,
        },
        a.work(e).close <==> e is Close,
{
    reveal(Settings::work);
}

} // verus!
