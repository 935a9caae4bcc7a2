//! What the message row says.

use vstd::prelude::*;
use vstd::string::*;

use crate::mode::UrlEditMode;
use crate::paths::ExportError;
use crate::settings::{
    redirect_label, secret_policy_label, spec_redirect_label, spec_secret_policy_label,
    spec_url_edit_label, url_edit_label, RedirectPolicy, SecretPolicy,
};
use crate::text::{decimal, decimal_text, join, joined, texts};

verus! {

/// A message for the message row.
#[derive(Debug)]
pub enum Notice {
    /// Says: request already in flight — ctrl-c to cancel.
    RequestAlreadyInFlight,
    /// Says: no endpoint selected — nothing to send.
    NothingToSend,
    /// Says: no request in flight.
    NoRequestInFlight,
    /// Says: request cancelled.
    RequestCancelled,
    /// Says: no endpoint selected.
    NoEndpointSelected,
    /// Says: no endpoint to save.
    NoEndpointToSave,
    /// Says: no endpoint selected — select one to load-test.
    NoEndpointToLoadTest,
    /// Says: no workspace open.
    NoWorkspaceOpen,
    /// Says: open a workspace first.
    OpenWorkspaceFirst,
    /// Says: no workspace to save into.
    NoWorkspaceToSaveInto,
    /// Says: no workspace open — cannot browse for a file.
    NoWorkspaceToBrowse,
    /// Says: no sequences in this workspace.
    NoSequences,
    /// Says: select a sequence first.
    SelectSequenceFirst,
    /// Says: no sequence selected.
    NoSequenceSelected,
    /// Says: select a collection first.
    SelectCollectionFirst,
    /// Says: not available in the sequences pane.
    NotInSequencesPane,
    /// Says: nothing selected to rename.
    NothingToRename,
    /// Says: nothing selected to delete.
    NothingToDelete,
    /// Says: nothing selected to move.
    NothingToMove,
    /// Says: nothing selected to duplicate.
    NothingToDuplicate,
    /// Says: nothing selected to reorder.
    NothingToReorder,
    /// Says: sequences are root-only — nowhere to move to.
    SequencesRootOnly,
    /// Says: no destination available.
    NoDestination,
    /// Says: no path given.
    NoPathGiven,
    /// Says: name mismatch — not deleted.
    NameMismatch,
    /// Says: deleted endpoint.
    DeletedEndpoint,
    /// Says: deleted sequence.
    DeletedSequence,
    /// Says: save (w) before running.
    SaveBeforeRunning,
    /// Says: sequence saved.
    SequenceSaved,
    /// Says: run cancelled.
    RunCancelled,
    /// Says: load run cancelled.
    LoadRunCancelled,
    /// Says: no recent workspaces.
    NoRecentWorkspaces,
    /// Says: folding: no response.
    FoldNoResponse,
    /// Says: folding: body view only.
    FoldBodyOnly,
    /// Says: folding: JSON responses only.
    FoldJsonOnly,
    /// Says: pretty: JSON body only.
    PrettyJsonOnly,
    /// Says: sort: pretty JSON only.
    SortPrettyOnly,
    /// Says: no response to search.
    NoResponseToSearch,
    /// Says: no matches.
    NoMatches,
    /// Says: nothing to save — empty body.
    EmptyBody,
    /// Says: already in that collection.
    AlreadyInCollection,
    /// Says: already there.
    AlreadyThere,
    /// Says: already first.
    AlreadyFirst,
    /// Says: already last.
    AlreadyLast,
    /// Says: session captures cleared.
    SessionCleared,
    /// Says: no session captures to clear.
    NoSessionCaptures,
    /// Says: saved · vars applied.
    VarsApplied,
    /// Says: copy failed.
    CopyFailed,
    /// Says: copied curl.
    CopiedCurl,
    /// Says: copied curl (vars resolved — may contain secrets).
    CopiedResolvedCurl,
    /// Says: copied resolved curl (masked).
    CopiedMaskedCurl,
    /// Says: copied error.
    CopiedError,
    /// Says: copied block.
    CopiedBlock,
    /// Says: copied line.
    CopiedLine,
    /// Says: copied revealed value.
    CopiedRevealed,
    /// Says: copied value.
    CopiedValue,
    /// Says: debug capture ON — sends now build an inspectable trace.
    DebugOn,
    /// Says: debug capture off.
    DebugOff,
    /// Says: cookie jar enabled.
    CookiesOn,
    /// Says: cookie jar disabled.
    CookiesOff,
    /// Says: cookies cleared.
    CookiesCleared,
    /// Says: proxy cleared (using env proxy).
    ProxyCleared,
    /// Says: history disabled: no data directory.
    HistoryDisabledNoDir,
    /// Says: ⚠ TLS verification OFF — certificates not checked.
    InsecureOn,
    /// Says: TLS verification on.
    InsecureOff,
    /// Says: ⚠ TLS verification OFF for this endpoint — saved.
    EndpointInsecureOn,
    /// Says: TLS verification on for this endpoint — saved.
    EndpointInsecureOff,
    /// Says: duplicated endpoint.
    DuplicatedEndpoint,
    /// Says: duplicated collection.
    DuplicatedCollection,
    /// Says: duplicated sequence.
    DuplicatedSequence,
    /// A text that a component gives.
    Text {
        /// The text.
        text: String,
    },
    /// Says: params: _.
    Params {
        /// What was merged.
        report: String,
    },
    /// Says: Saved _.
    Saved {
        /// The name.
        name: String,
    },
    /// Says: not saved: secret auth values (_) — use {{var}}.
    SecretsRefused {
        /// The names of the fields.
        names: Vec<String>,
    },
    /// Says: save failed: _.
    SaveFailed {
        /// Why it failed.
        err: String,
    },
    /// Says: error: _.
    CrudError {
        /// Why it failed.
        err: String,
    },
    /// Says: created _.
    Created {
        /// The name.
        name: String,
    },
    /// Says: deleted _.
    Deleted {
        /// The name.
        name: String,
    },
    /// Says: renamed to _.
    Renamed {
        /// The name.
        name: String,
        /// How many steps of sequences were rewritten.
        steps: u64,
    },
    /// Says: moved endpoint.
    MovedEndpoint {
        /// How many steps of sequences were rewritten.
        steps: u64,
    },
    /// Says: moved collection.
    MovedCollection {
        /// How many steps of sequences were rewritten.
        steps: u64,
    },
    /// Says: copied endpoint.
    CopiedEndpoint,
    /// Says: copied collection.
    CopiedCollection,
    /// Says: _ file(s) skipped (unparseable): _.
    Skipped {
        /// How many files.
        count: u64,
        /// Which files.
        detail: String,
    },
    /// Says: match _/_.
    Match {
        /// The number of the match.
        ordinal: u64,
        /// How many matches there are.
        total: u64,
    },
    /// Says: imported _ endpoint(s) into _ collection(s).
    Imported {
        /// How many endpoints.
        endpoints: u64,
        /// How many collections.
        collections: u64,
        /// How many warnings.
        warnings: u64,
    },
    /// Says: import failed: _.
    ImportFailed {
        /// Why it failed.
        err: String,
    },
    /// Says: import failed: cannot read _: _.
    ImportUnreadable {
        /// The file.
        path: String,
        /// Why it failed.
        err: String,
    },
    /// Says: export failed: _.
    ExportFailed {
        /// Why it failed.
        err: String,
    },
    /// Says: exported to _.
    ExportedTo {
        /// The file.
        path: String,
    },
    /// Says: curl import failed: _.
    CurlImportFailed {
        /// Why it failed.
        err: String,
    },
    /// Says: pasted curl → _.
    PastedCurl {
        /// The name.
        name: String,
        /// How many warnings.
        warnings: u64,
    },
    /// Says: imported curl → _, which values were captured, and the warnings.
    ImportedCurl {
        /// The name.
        name: String,
        /// The names of the captured values.
        captured: Vec<String>,
        /// The warnings.
        notes: Vec<String>,
    },
    /// Says: export failed: _.
    ExportRefused {
        /// Why the destination is refused.
        why: ExportError,
    },
    /// Says: history write failed: _.
    HistoryFailed {
        /// Why it failed.
        err: String,
    },
    /// Says: history disabled: _.
    HistoryDisabled {
        /// Why it failed.
        err: String,
    },
    /// Says: load history write failed: _.
    LoadHistoryFailed {
        /// Why it failed.
        err: String,
    },
    /// Says: load refused: _.
    LoadRefused {
        /// Why it is refused.
        reason: String,
    },
    /// Says: switched to _.
    SwitchedTo {
        /// The name.
        name: String,
    },
    /// Says: failed to open workspace: _.
    OpenFailed {
        /// Why it failed.
        err: String,
    },
    /// Says: workspace picker failed: _.
    PickerFailed {
        /// Why it failed.
        err: String,
    },
    /// Says: couldn't open editor: _.
    EditorFailed {
        /// Why it failed.
        err: String,
    },
    /// Says: cannot edit sequence: _.
    CannotEditSequence {
        /// Why it failed.
        err: String,
    },
    /// Says: no tab _.
    NoTab {
        /// The number that was asked for.
        number: u64,
    },
    /// Says: proxy set: _.
    ProxySet {
        /// The address, without its password.
        masked: String,
    },
    /// Says: could not toggle TLS — _.
    TlsToggleFailed {
        /// Why it failed.
        err: String,
    },
    /// Says: could not save endpoint: _.
    EndpointSaveFailed {
        /// Why it failed.
        err: String,
    },
    /// Says: deleted cookie _ (_).
    CookieDeleted {
        /// The name.
        name: String,
        /// The domain.
        domain: String,
    },
    /// Says: no cookie _ (_).
    CookieMissing {
        /// The name.
        name: String,
        /// The domain.
        domain: String,
    },
    /// Says: added cookie _ (_).
    CookieAdded {
        /// The name.
        name: String,
        /// The domain.
        domain: String,
    },
    /// Says: updated cookie _ (_).
    CookieUpdated {
        /// The name.
        name: String,
        /// The domain.
        domain: String,
    },
    /// Says: redirect policy set to _.
    RedirectSet {
        /// What was set.
        policy: RedirectPolicy,
    },
    /// Says: URL edit mode set to _.
    UrlEditSet {
        /// What was set.
        mode: UrlEditMode,
    },
    /// Says: secret policy set to _.
    SecretPolicySet {
        /// What was set.
        secrets: SecretPolicy,
    },
    /// Says: _ set to _.
    LimitSet {
        /// What was set.
        label: String,
        /// The value.
        value: u64,
    },
    /// Says: advanced _ set to _.
    AdvancedSet {
        /// What was set.
        label: String,
        /// The value.
        value: u64,
    },
    /// Says: advanced body cap set to _ bytes.
    BodyCapSet {
        /// The value.
        value: u64,
    },
    /// Says: advanced timeout set to _s.
    TimeoutSet {
        /// The value.
        value: u64,
    },
    /// Says: theme set to _.
    ThemeSet {
        /// The name.
        name: String,
    },
    /// Says: leader key set to _ — press <leader>r (or restart) to apply.
    LeaderKeySet {
        /// The key.
        combo: String,
    },
    /// Says: saved defaults to _.
    DefaultsSaved {
        /// The file.
        path: String,
        /// Whether the proxy was left out.
        proxy_skipped: bool,
    },
    /// Says: copied _.
    CopiedBytes {
        /// The size.
        size: String,
        /// Whether the body was cut.
        truncated: bool,
    },
    /// Says: copied first _ of _.
    CopiedFirstBytes {
        /// The size of what is copied.
        queued: String,
        /// The size of the whole.
        full: String,
        /// Whether the body was cut.
        truncated: bool,
    },
    /// Says: saved _ bytes to _.
    BodySaved {
        /// How many bytes.
        bytes: u64,
        /// The file.
        path: String,
        /// Whether the body was cut.
        truncated: bool,
    },
    /// Says: save failed: cannot determine current directory: _.
    BodySaveNoDir {
        /// Why it failed.
        err: String,
    },
}

/// What a captured value is called.
pub open spec fn capture_name(name: Seq<char>) -> Seq<char> {
    if name == "token"@ {
        "Bearer token"@
    } else if name == "password"@ {
        "password"@
    } else {
        name
    }
}

/// What is said of a captured value: where it is kept, and that it is not shown.
pub open spec fn capture_text(name: Seq<char>) -> Seq<char> {
    " · "@ + capture_name(name) + " captured into session var {{"@ + name
        + "}} (masked, this session only)"@
}

/// What is said of captured values, one after the other.
pub open spec fn captures_text(names: Seq<Seq<char>>) -> Seq<char>
    decreases names.len(),
{
    if names.len() == 0 {
        Seq::empty()
    } else {
        captures_text(names.drop_last()) + capture_text(names.last())
    }
}

/// What is said of an endpoint that was made of a curl command.
pub open spec fn imported_curl_text(
    name: Seq<char>,
    captured: Seq<Seq<char>>,
    warnings: Seq<Seq<char>>,
) -> Seq<char> {
    "imported curl → "@ + name + captures_text(captured) + (if warnings.len() > 0 {
        " · "@ + joined(warnings, " · "@)
    } else {
        Seq::empty()
    })
}

fn imported_curl(name: &str, captured: &Vec<String>, warnings: &Vec<String>) -> (r: String)
    ensures
        r@ == imported_curl_text(name@, texts(captured@), texts(warnings@)),
{
    let ghost names = texts(captured@);
    let mut out = String::new();
    out.append("imported curl → ");
    out.append(name);
    let ghost head = out@;
    let mut i: usize = 0;
    assert(names.take(0) =~= Seq::empty());
    assert(head + captures_text(names.take(0)) =~= head);
    while i < captured.len()
        invariant
            i <= captured.len(),
            names == texts(captured@),
            out@ == head + captures_text(names.take(i as int)),
        decreases captured.len() - i,
    {
        let ghost before = out@;
        let n = captured[i].as_str();
        out.append(" · ");
        if captured[i] == "token".to_owned() {
            out.append("Bearer token");
        } else if captured[i] == "password".to_owned() {
            out.append("password");
        } else {
            out.append(n);
        }
        out.append(" captured into session var {{");
        out.append(n);
        out.append("}} (masked, this session only)");
        proof {
            assert(names.take(i + 1).drop_last() =~= names.take(i as int));
            assert(out@ =~= before + capture_text(names[i as int]));
            assert(out@ =~= head + captures_text(names.take(i + 1)));
        }
        i = i + 1;
    }
    assert(names.take(names.len() as int) =~= names);
    if warnings.len() > 0 {
        out.append(" · ");
        let all = join(warnings, " · ");
        out.append(all.as_str());
    }
    assert(texts(warnings@).len() == warnings@.len());
    assert(head =~= "imported curl → "@ + name@);
    assert(out@ =~= imported_curl_text(name@, texts(captured@), texts(warnings@)));
    out
}

impl Notice {
    /// The words of the message.
    pub open spec fn spec_text(self) -> Seq<char> {
        match self {
            Notice::RequestAlreadyInFlight => "request already in flight — ctrl-c to cancel"@,
            Notice::NothingToSend => "no endpoint selected — nothing to send"@,
            Notice::NoRequestInFlight => "no request in flight"@,
            Notice::RequestCancelled => "request cancelled"@,
            Notice::NoEndpointSelected => "no endpoint selected"@,
            Notice::NoEndpointToSave => "no endpoint to save"@,
            Notice::NoEndpointToLoadTest => "no endpoint selected — select one to load-test"@,
            Notice::NoWorkspaceOpen => "no workspace open"@,
            Notice::OpenWorkspaceFirst => "open a workspace first"@,
            Notice::NoWorkspaceToSaveInto => "no workspace to save into"@,
            Notice::NoWorkspaceToBrowse => "no workspace open — cannot browse for a file"@,
            Notice::NoSequences => "no sequences in this workspace"@,
            Notice::SelectSequenceFirst => "select a sequence first"@,
            Notice::NoSequenceSelected => "no sequence selected"@,
            Notice::SelectCollectionFirst => "select a collection first"@,
            Notice::NotInSequencesPane => "not available in the sequences pane"@,
            Notice::NothingToRename => "nothing selected to rename"@,
            Notice::NothingToDelete => "nothing selected to delete"@,
            Notice::NothingToMove => "nothing selected to move"@,
            Notice::NothingToDuplicate => "nothing selected to duplicate"@,
            Notice::NothingToReorder => "nothing selected to reorder"@,
            Notice::SequencesRootOnly => "sequences are root-only — nowhere to move to"@,
            Notice::NoDestination => "no destination available"@,
            Notice::NoPathGiven => "no path given"@,
            Notice::NameMismatch => "name mismatch — not deleted"@,
            Notice::DeletedEndpoint => "deleted endpoint"@,
            Notice::DeletedSequence => "deleted sequence"@,
            Notice::SaveBeforeRunning => "save (w) before running"@,
            Notice::SequenceSaved => "sequence saved"@,
            Notice::RunCancelled => "run cancelled"@,
            Notice::LoadRunCancelled => "load run cancelled"@,
            Notice::NoRecentWorkspaces => "no recent workspaces"@,
            Notice::FoldNoResponse => "folding: no response"@,
            Notice::FoldBodyOnly => "folding: body view only"@,
            Notice::FoldJsonOnly => "folding: JSON responses only"@,
            Notice::PrettyJsonOnly => "pretty: JSON body only"@,
            Notice::SortPrettyOnly => "sort: pretty JSON only"@,
            Notice::NoResponseToSearch => "no response to search"@,
            Notice::NoMatches => "no matches"@,
            Notice::EmptyBody => "nothing to save — empty body"@,
            Notice::AlreadyInCollection => "already in that collection"@,
            Notice::AlreadyThere => "already there"@,
            Notice::AlreadyFirst => "already first"@,
            Notice::AlreadyLast => "already last"@,
            Notice::SessionCleared => "session captures cleared"@,
            Notice::NoSessionCaptures => "no session captures to clear"@,
            Notice::VarsApplied => "saved · vars applied"@,
            Notice::CopyFailed => "copy failed"@,
            Notice::CopiedCurl => "copied curl"@,
            Notice::CopiedResolvedCurl => "copied curl (vars resolved — may contain secrets)"@,
            Notice::CopiedMaskedCurl => "copied resolved curl (masked)"@,
            Notice::CopiedError => "copied error"@,
            Notice::CopiedBlock => "copied block"@,
            Notice::CopiedLine => "copied line"@,
            Notice::CopiedRevealed => "copied revealed value"@,
            Notice::CopiedValue => "copied value"@,
            Notice::DebugOn => "debug capture ON — sends now build an inspectable trace"@,
            Notice::DebugOff => "debug capture off"@,
            Notice::CookiesOn => "cookie jar enabled"@,
            Notice::CookiesOff => "cookie jar disabled"@,
            Notice::CookiesCleared => "cookies cleared"@,
            Notice::ProxyCleared => "proxy cleared (using env proxy)"@,
            Notice::HistoryDisabledNoDir => "history disabled: no data directory"@,
            Notice::InsecureOn => "⚠ TLS verification OFF — certificates not checked"@,
            Notice::InsecureOff => "TLS verification on"@,
            Notice::EndpointInsecureOn => "⚠ TLS verification OFF for this endpoint — saved"@,
            Notice::EndpointInsecureOff => "TLS verification on for this endpoint — saved"@,
            Notice::DuplicatedEndpoint => "duplicated endpoint"@,
            Notice::DuplicatedCollection => "duplicated collection"@,
            Notice::DuplicatedSequence => "duplicated sequence"@,
            Notice::Text { text } => text@,
            Notice::Params { report } => "params: "@ + report@,
            Notice::Saved { name } => "Saved "@ + name@,
            Notice::SecretsRefused { names } => {
                "not saved: secret auth values ("@ + joined(texts(names@), ", "@)
                + ") — use {{var}}"@
            },
            Notice::SaveFailed { err } => "save failed: "@ + err@,
            Notice::CrudError { err } => "error: "@ + err@,
            Notice::Created { name } => "created "@ + name@,
            Notice::Deleted { name } => "deleted "@ + name@,
            Notice::Renamed { name, steps } => {
                "renamed to "@ + name@ + (if steps > 0 {
                    " · "@ + decimal(steps as nat) + " step(s) repointed"@
                } else {
                    Seq::empty()
                })
            },
            Notice::MovedEndpoint { steps } => {
                "moved endpoint"@ + (if steps > 0 {
                    " · "@ + decimal(steps as nat) + " step(s) repointed"@
                } else {
                    Seq::empty()
                })
            },
            Notice::MovedCollection { steps } => {
                "moved collection"@ + (if steps > 0 {
                    " · "@ + decimal(steps as nat) + " step(s) repointed"@
                } else {
                    Seq::empty()
                })
            },
            Notice::CopiedEndpoint => "copied endpoint"@,
            Notice::CopiedCollection => "copied collection"@,
            Notice::Skipped { count, detail } => {
                decimal(count as nat) + " file(s) skipped (unparseable): "@ + detail@
            },
            Notice::Match { ordinal, total } => {
                "match "@ + decimal(ordinal as nat) + "/"@ + decimal(total as nat)
            },
            Notice::Imported { endpoints, collections, warnings } => {
                "imported "@ + decimal(endpoints as nat) + " endpoint(s) into "@
                + decimal(collections as nat) + " collection(s)"@ + (if warnings > 0 {
                    " ("@ + decimal(warnings as nat) + " warning(s))"@
                } else {
                    Seq::empty()
                })
            },
            Notice::ImportFailed { err } => "import failed: "@ + err@,
            Notice::ImportUnreadable { path, err } => {
                "import failed: cannot read "@ + path@ + ": "@ + err@
            },
            Notice::ExportFailed { err } => "export failed: "@ + err@,
            Notice::ExportedTo { path } => "exported to "@ + path@,
            Notice::CurlImportFailed { err } => "curl import failed: "@ + err@,
            Notice::PastedCurl { name, warnings } => {
                "pasted curl → "@ + name@ + (if warnings > 0 {
                    " ("@ + decimal(warnings as nat) + " warning(s))"@
                } else {
                    Seq::empty()
                })
            },
            Notice::ImportedCurl { name, captured, notes } => imported_curl_text(
                name@,
                texts(captured@),
                texts(notes@),
            ),
            Notice::ExportRefused { why } => "export failed: "@ + why.spec_text(),
            Notice::HistoryFailed { err } => "history write failed: "@ + err@,
            Notice::HistoryDisabled { err } => "history disabled: "@ + err@,
            Notice::LoadHistoryFailed { err } => "load history write failed: "@ + err@,
            Notice::LoadRefused { reason } => "load refused: "@ + reason@,
            Notice::SwitchedTo { name } => "switched to "@ + name@,
            Notice::OpenFailed { err } => "failed to open workspace: "@ + err@,
            Notice::PickerFailed { err } => "workspace picker failed: "@ + err@,
            Notice::EditorFailed { err } => "couldn't open editor: "@ + err@,
            Notice::CannotEditSequence { err } => "cannot edit sequence: "@ + err@,
            Notice::NoTab { number } => "no tab "@ + decimal(number as nat),
            Notice::ProxySet { masked } => "proxy set: "@ + masked@,
            Notice::TlsToggleFailed { err } => "could not toggle TLS — "@ + err@,
            Notice::EndpointSaveFailed { err } => "could not save endpoint: "@ + err@,
            Notice::CookieDeleted { name, domain } => {
                "deleted cookie "@ + name@ + " ("@ + domain@ + ")"@
            },
            Notice::CookieMissing { name, domain } => {
                "no cookie "@ + name@ + " ("@ + domain@ + ")"@
            },
            Notice::CookieAdded { name, domain } => {
                "added cookie "@ + name@ + " ("@ + domain@ + ")"@
            },
            Notice::CookieUpdated { name, domain } => {
                "updated cookie "@ + name@ + " ("@ + domain@ + ")"@
            },
            Notice::RedirectSet { policy } => {
                "redirect policy set to "@ + spec_redirect_label(policy)
            },
            Notice::UrlEditSet { mode } => "URL edit mode set to "@ + spec_url_edit_label(mode),
            Notice::SecretPolicySet { secrets } => {
                "secret policy set to "@ + spec_secret_policy_label(secrets)
            },
            Notice::LimitSet { label, value } => label@ + " set to "@ + decimal(value as nat),
            Notice::AdvancedSet { label, value } => {
                "advanced "@ + label@ + " set to "@ + decimal(value as nat)
            },
            Notice::BodyCapSet { value } => {
                "advanced body cap set to "@ + decimal(value as nat) + " bytes"@
            },
            Notice::TimeoutSet { value } => {
                "advanced timeout set to "@ + decimal(value as nat) + "s"@
            },
            Notice::ThemeSet { name } => "theme set to "@ + name@,
            Notice::LeaderKeySet { combo } => {
                "leader key set to "@ + combo@ + " — press <leader>r (or restart) to apply"@
            },
            Notice::DefaultsSaved { path, proxy_skipped } => {
                "saved defaults to "@ + path@ + (if proxy_skipped {
                    " — proxy not persisted (contains credentials)"@
                } else {
                    Seq::empty()
                })
            },
            Notice::CopiedBytes { size, truncated } => {
                "copied "@ + size@ + (if truncated { " (truncated)"@ } else { Seq::empty() })
            },
            Notice::CopiedFirstBytes { queued, full, truncated } => {
                "copied first "@ + queued@ + " of "@ + full@ + (if truncated {
                    " (truncated)"@
                } else {
                    Seq::empty()
                })
            },
            Notice::BodySaved { bytes, path, truncated } => {
                "saved "@ + decimal(bytes as nat) + " bytes"@ + (if truncated {
                    " (response was truncated)"@
                } else {
                    Seq::empty()
                }) + " to "@ + path@
            },
            Notice::BodySaveNoDir { err } => {
                "save failed: cannot determine current directory: "@ + err@
            },
        }
    }

    /// The words of the message.
    pub fn text(&self) -> (r: String)
        ensures
            r@ == self.spec_text(),
    {
        let mut out = String::new();
        match self {
            Notice::RequestAlreadyInFlight => {
                out.append("request already in flight — ctrl-c to cancel");
            },
            Notice::NothingToSend => {
                out.append("no endpoint selected — nothing to send");
            },
            Notice::NoRequestInFlight => {
                out.append("no request in flight");
            },
            Notice::RequestCancelled => {
                out.append("request cancelled");
            },
            Notice::NoEndpointSelected => {
                out.append("no endpoint selected");
            },
            Notice::NoEndpointToSave => {
                out.append("no endpoint to save");
            },
            Notice::NoEndpointToLoadTest => {
                out.append("no endpoint selected — select one to load-test");
            },
            Notice::NoWorkspaceOpen => {
                out.append("no workspace open");
            },
            Notice::OpenWorkspaceFirst => {
                out.append("open a workspace first");
            },
            Notice::NoWorkspaceToSaveInto => {
                out.append("no workspace to save into");
            },
            Notice::NoWorkspaceToBrowse => {
                out.append("no workspace open — cannot browse for a file");
            },
            Notice::NoSequences => {
                out.append("no sequences in this workspace");
            },
            Notice::SelectSequenceFirst => {
                out.append("select a sequence first");
            },
            Notice::NoSequenceSelected => {
                out.append("no sequence selected");
            },
            Notice::SelectCollectionFirst => {
                out.append("select a collection first");
            },
            Notice::NotInSequencesPane => {
                out.append("not available in the sequences pane");
            },
            Notice::NothingToRename => {
                out.append("nothing selected to rename");
            },
            Notice::NothingToDelete => {
                out.append("nothing selected to delete");
            },
            Notice::NothingToMove => {
                out.append("nothing selected to move");
            },
            Notice::NothingToDuplicate => {
                out.append("nothing selected to duplicate");
            },
            Notice::NothingToReorder => {
                out.append("nothing selected to reorder");
            },
            Notice::SequencesRootOnly => {
                out.append("sequences are root-only — nowhere to move to");
            },
            Notice::NoDestination => {
                out.append("no destination available");
            },
            Notice::NoPathGiven => {
                out.append("no path given");
            },
            Notice::NameMismatch => {
                out.append("name mismatch — not deleted");
            },
            Notice::DeletedEndpoint => {
                out.append("deleted endpoint");
            },
            Notice::DeletedSequence => {
                out.append("deleted sequence");
            },
            Notice::SaveBeforeRunning => {
                out.append("save (w) before running");
            },
            Notice::SequenceSaved => {
                out.append("sequence saved");
            },
            Notice::RunCancelled => {
                out.append("run cancelled");
            },
            Notice::LoadRunCancelled => {
                out.append("load run cancelled");
            },
            Notice::NoRecentWorkspaces => {
                out.append("no recent workspaces");
            },
            Notice::FoldNoResponse => {
                out.append("folding: no response");
            },
            Notice::FoldBodyOnly => {
                out.append("folding: body view only");
            },
            Notice::FoldJsonOnly => {
                out.append("folding: JSON responses only");
            },
            Notice::PrettyJsonOnly => {
                out.append("pretty: JSON body only");
            },
            Notice::SortPrettyOnly => {
                out.append("sort: pretty JSON only");
            },
            Notice::NoResponseToSearch => {
                out.append("no response to search");
            },
            Notice::NoMatches => {
                out.append("no matches");
            },
            Notice::EmptyBody => {
                out.append("nothing to save — empty body");
            },
            Notice::AlreadyInCollection => {
                out.append("already in that collection");
            },
            Notice::AlreadyThere => {
                out.append("already there");
            },
            Notice::AlreadyFirst => {
                out.append("already first");
            },
            Notice::AlreadyLast => {
                out.append("already last");
            },
            Notice::SessionCleared => {
                out.append("session captures cleared");
            },
            Notice::NoSessionCaptures => {
                out.append("no session captures to clear");
            },
            Notice::VarsApplied => {
                out.append("saved · vars applied");
            },
            Notice::CopyFailed => {
                out.append("copy failed");
            },
            Notice::CopiedCurl => {
                out.append("copied curl");
            },
            Notice::CopiedResolvedCurl => {
                out.append("copied curl (vars resolved — may contain secrets)");
            },
            Notice::CopiedMaskedCurl => {
                out.append("copied resolved curl (masked)");
            },
            Notice::CopiedError => {
                out.append("copied error");
            },
            Notice::CopiedBlock => {
                out.append("copied block");
            },
            Notice::CopiedLine => {
                out.append("copied line");
            },
            Notice::CopiedRevealed => {
                out.append("copied revealed value");
            },
            Notice::CopiedValue => {
                out.append("copied value");
            },
            Notice::DebugOn => {
                out.append("debug capture ON — sends now build an inspectable trace");
            },
            Notice::DebugOff => {
                out.append("debug capture off");
            },
            Notice::CookiesOn => {
                out.append("cookie jar enabled");
            },
            Notice::CookiesOff => {
                out.append("cookie jar disabled");
            },
            Notice::CookiesCleared => {
                out.append("cookies cleared");
            },
            Notice::ProxyCleared => {
                out.append("proxy cleared (using env proxy)");
            },
            Notice::HistoryDisabledNoDir => {
                out.append("history disabled: no data directory");
            },
            Notice::InsecureOn => {
                out.append("⚠ TLS verification OFF — certificates not checked");
            },
            Notice::InsecureOff => {
                out.append("TLS verification on");
            },
            Notice::EndpointInsecureOn => {
                out.append("⚠ TLS verification OFF for this endpoint — saved");
            },
            Notice::EndpointInsecureOff => {
                out.append("TLS verification on for this endpoint — saved");
            },
            Notice::DuplicatedEndpoint => {
                out.append("duplicated endpoint");
            },
            Notice::DuplicatedCollection => {
                out.append("duplicated collection");
            },
            Notice::DuplicatedSequence => {
                out.append("duplicated sequence");
            },
            Notice::Text { text } => {
                out.append(text.as_str());
            },
            Notice::Params { report } => {
                out.append("params: ");
                out.append(report.as_str());
            },
            Notice::Saved { name } => {
                out.append("Saved ");
                out.append(name.as_str());
            },
            Notice::SecretsRefused { names } => {
                out.append("not saved: secret auth values (");
                out.append(join(names, ", ").as_str());
                out.append(") — use {{var}}");
            },
            Notice::SaveFailed { err } => {
                out.append("save failed: ");
                out.append(err.as_str());
            },
            Notice::CrudError { err } => {
                out.append("error: ");
                out.append(err.as_str());
            },
            Notice::Created { name } => {
                out.append("created ");
                out.append(name.as_str());
            },
            Notice::Deleted { name } => {
                out.append("deleted ");
                out.append(name.as_str());
            },
            Notice::Renamed { name, steps } => {
                out.append("renamed to ");
                out.append(name.as_str());
                if *steps > 0 {
                    out.append(" · ");
                    out.append(decimal_text(*steps).as_str());
                    out.append(" step(s) repointed");
                }
            },
            Notice::MovedEndpoint { steps } => {
                out.append("moved endpoint");
                if *steps > 0 {
                    out.append(" · ");
                    out.append(decimal_text(*steps).as_str());
                    out.append(" step(s) repointed");
                }
            },
            Notice::MovedCollection { steps } => {
                out.append("moved collection");
                if *steps > 0 {
                    out.append(" · ");
                    out.append(decimal_text(*steps).as_str());
                    out.append(" step(s) repointed");
                }
            },
            Notice::CopiedEndpoint => {
                out.append("copied endpoint");
            },
            Notice::CopiedCollection => {
                out.append("copied collection");
            },
            Notice::Skipped { count, detail } => {
                out.append(decimal_text(*count).as_str());
                out.append(" file(s) skipped (unparseable): ");
                out.append(detail.as_str());
            },
            Notice::Match { ordinal, total } => {
                out.append("match ");
                out.append(decimal_text(*ordinal).as_str());
                out.append("/");
                out.append(decimal_text(*total).as_str());
            },
            Notice::Imported { endpoints, collections, warnings } => {
                out.append("imported ");
                out.append(decimal_text(*endpoints).as_str());
                out.append(" endpoint(s) into ");
                out.append(decimal_text(*collections).as_str());
                out.append(" collection(s)");
                if *warnings > 0 {
                    out.append(" (");
                    out.append(decimal_text(*warnings).as_str());
                    out.append(" warning(s))");
                }
            },
            Notice::ImportFailed { err } => {
                out.append("import failed: ");
                out.append(err.as_str());
            },
            Notice::ImportUnreadable { path, err } => {
                out.append("import failed: cannot read ");
                out.append(path.as_str());
                out.append(": ");
                out.append(err.as_str());
            },
            Notice::ExportFailed { err } => {
                out.append("export failed: ");
                out.append(err.as_str());
            },
            Notice::ExportedTo { path } => {
                out.append("exported to ");
                out.append(path.as_str());
            },
            Notice::CurlImportFailed { err } => {
                out.append("curl import failed: ");
                out.append(err.as_str());
            },
            Notice::PastedCurl { name, warnings } => {
                out.append("pasted curl → ");
                out.append(name.as_str());
                if *warnings > 0 {
                    out.append(" (");
                    out.append(decimal_text(*warnings).as_str());
                    out.append(" warning(s))");
                }
            },
            Notice::ImportedCurl { name, captured, notes } => {
                out = imported_curl(name.as_str(), captured, notes);
            },
            Notice::ExportRefused { why } => {
                out.append("export failed: ");
                out.append(why.text());
            },
            Notice::HistoryFailed { err } => {
                out.append("history write failed: ");
                out.append(err.as_str());
            },
            Notice::HistoryDisabled { err } => {
                out.append("history disabled: ");
                out.append(err.as_str());
            },
            Notice::LoadHistoryFailed { err } => {
                out.append("load history write failed: ");
                out.append(err.as_str());
            },
            Notice::LoadRefused { reason } => {
                out.append("load refused: ");
                out.append(reason.as_str());
            },
            Notice::SwitchedTo { name } => {
                out.append("switched to ");
                out.append(name.as_str());
            },
            Notice::OpenFailed { err } => {
                out.append("failed to open workspace: ");
                out.append(err.as_str());
            },
            Notice::PickerFailed { err } => {
                out.append("workspace picker failed: ");
                out.append(err.as_str());
            },
            Notice::EditorFailed { err } => {
                out.append("couldn't open editor: ");
                out.append(err.as_str());
            },
            Notice::CannotEditSequence { err } => {
                out.append("cannot edit sequence: ");
                out.append(err.as_str());
            },
            Notice::NoTab { number } => {
                out.append("no tab ");
                out.append(decimal_text(*number).as_str());
            },
            Notice::ProxySet { masked } => {
                out.append("proxy set: ");
                out.append(masked.as_str());
            },
            Notice::TlsToggleFailed { err } => {
                out.append("could not toggle TLS — ");
                out.append(err.as_str());
            },
            Notice::EndpointSaveFailed { err } => {
                out.append("could not save endpoint: ");
                out.append(err.as_str());
            },
            Notice::CookieDeleted { name, domain } => {
                out.append("deleted cookie ");
                out.append(name.as_str());
                out.append(" (");
                out.append(domain.as_str());
                out.append(")");
            },
            Notice::CookieMissing { name, domain } => {
                out.append("no cookie ");
                out.append(name.as_str());
                out.append(" (");
                out.append(domain.as_str());
                out.append(")");
            },
            Notice::CookieAdded { name, domain } => {
                out.append("added cookie ");
                out.append(name.as_str());
                out.append(" (");
                out.append(domain.as_str());
                out.append(")");
            },
            Notice::CookieUpdated { name, domain } => {
                out.append("updated cookie ");
                out.append(name.as_str());
                out.append(" (");
                out.append(domain.as_str());
                out.append(")");
            },
            Notice::RedirectSet { policy } => {
                out.append("redirect policy set to ");
                out.append(redirect_label(*policy));
            },
            Notice::UrlEditSet { mode } => {
                out.append("URL edit mode set to ");
                out.append(url_edit_label(*mode));
            },
            Notice::SecretPolicySet { secrets } => {
                out.append("secret policy set to ");
                out.append(secret_policy_label(*secrets));
            },
            Notice::LimitSet { label, value } => {
                out.append(label.as_str());
                out.append(" set to ");
                out.append(decimal_text(*value).as_str());
            },
            Notice::AdvancedSet { label, value } => {
                out.append("advanced ");
                out.append(label.as_str());
                out.append(" set to ");
                out.append(decimal_text(*value).as_str());
            },
            Notice::BodyCapSet { value } => {
                out.append("advanced body cap set to ");
                out.append(decimal_text(*value).as_str());
                out.append(" bytes");
            },
            Notice::TimeoutSet { value } => {
                out.append("advanced timeout set to ");
                out.append(decimal_text(*value).as_str());
                out.append("s");
            },
            Notice::ThemeSet { name } => {
                out.append("theme set to ");
                out.append(name.as_str());
            },
            Notice::LeaderKeySet { combo } => {
                out.append("leader key set to ");
                out.append(combo.as_str());
                out.append(" — press <leader>r (or restart) to apply");
            },
            Notice::DefaultsSaved { path, proxy_skipped } => {
                out.append("saved defaults to ");
                out.append(path.as_str());
                if *proxy_skipped {
                    out.append(" — proxy not persisted (contains credentials)");
                }
            },
            Notice::CopiedBytes { size, truncated } => {
                out.append("copied ");
                out.append(size.as_str());
                if *truncated {
                    out.append(" (truncated)");
                }
            },
            Notice::CopiedFirstBytes { queued, full, truncated } => {
                out.append("copied first ");
                out.append(queued.as_str());
                out.append(" of ");
                out.append(full.as_str());
                if *truncated {
                    out.append(" (truncated)");
                }
            },
            Notice::BodySaved { bytes, path, truncated } => {
                out.append("saved ");
                out.append(decimal_text(*bytes).as_str());
                out.append(" bytes");
                if *truncated {
                    out.append(" (response was truncated)");
                }
                out.append(" to ");
                out.append(path.as_str());
            },
            Notice::BodySaveNoDir { err } => {
                out.append("save failed: cannot determine current directory: ");
                out.append(err.as_str());
            },
        }
        assert(out@ =~= self.spec_text());
        out
    }
}

/// The steps of sequences that a rename or a move brought along are told where there are any.
pub proof fn law_repointed_steps_are_told(name: String, steps: u64)
    ensures
        (Notice::Renamed { name, steps: 0 }).spec_text() == "renamed to "@ + name@,
        steps > 0 ==> (Notice::Renamed { name, steps }).spec_text() == "renamed to "@ + name@ + (
        " · "@ + decimal(steps as nat) + " step(s) repointed"@),
        (Notice::MovedEndpoint { steps: 0 }).spec_text() == "moved endpoint"@,
        steps > 0 ==> (Notice::MovedEndpoint { steps }).spec_text() == "moved endpoint"@ + (" · "@
            + decimal(steps as nat) + " step(s) repointed"@),
        (Notice::MovedCollection { steps: 0 }).spec_text() == "moved collection"@,
        (Notice::Saved { name }).spec_text() == "Saved "@ + name@,
        (Notice::Params { report: name }).spec_text() == "params: "@ + name@,
{
    assert("renamed to "@ + name@ + Seq::<char>::empty() =~= "renamed to "@ + name@);
    assert("moved endpoint"@ + Seq::<char>::empty() =~= "moved endpoint"@);
    assert("moved collection"@ + Seq::<char>::empty() =~= "moved collection"@);
}

} // verus!
