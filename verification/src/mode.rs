//! The input modes of the application and what their overlays say.

use vstd::prelude::*;

use crate::text::{is_whitespace, leading_whitespace, to_chars};

verus! {

/// The dialects that a collection is exported in.
#[derive(Debug, Clone, Copy, PartialEq, Eq, Structural)]
pub enum JsonDialect {
    /// Postman v2.1.
    Postman,
    /// churl's own JSON.
    Native,
}

/// The top-level input mode.
#[derive(Debug, Clone, Copy, PartialEq, Eq, Structural)]
pub enum Mode {
    /// Pane navigation and editing.
    Normal,
    /// The endpoint search.
    Search,
    /// The command palette, or one of the pickers that share it.
    Palette,
    /// The workspace picker.
    WorkspacePicker,
    /// The sequence picker.
    SequencePicker,
    /// Jump labels.
    Jump,
    /// The method menu.
    MethodMenu,
    /// The search in the response body.
    BodySearch,
    /// A text prompt.
    Prompt(PromptPurpose),
    /// A question.
    Confirm(ConfirmPurpose),
    /// The environments editor.
    EnvEditor,
    /// The sequence surface.
    Sequence,
    /// The load runner.
    LoadRunner,
    /// The session options.
    Options,
    /// The settings panel.
    Settings,
    /// The exchange inspector.
    Inspector,
    /// The file picker of a multipart part.
    FilePicker,
}

/// What a prompt collects text for.
#[derive(Debug, Clone, Copy, PartialEq, Eq, Structural)]
pub enum PromptPurpose {
    /// The name of a new endpoint.
    NewEndpoint,
    /// The name of a new collection.
    NewCollection,
    /// The new name of the selected endpoint or collection.
    Rename,
    /// The name of the selected collection, typed to delete it.
    DeleteCollectionConfirm,
    /// The path of a JSON collection to import.
    ImportCollection,
    /// The destination of a collection export.
    ExportCollection(JsonDialect),
    /// The destination of a workspace export.
    ExportWorkspace(JsonDialect),
    /// A curl command to import as an endpoint.
    PasteCurl,
    /// The name of a new sequence.
    NewSequence,
    /// The path that the response body is saved to.
    SaveResponseBody,
}

impl PromptPurpose {
    /// The prompt's title.
    pub open spec fn spec_title(self) -> Seq<char> {
        match self {
            PromptPurpose::NewEndpoint => "New endpoint"@,
            PromptPurpose::NewCollection => "New collection"@,
            PromptPurpose::Rename => "Rename"@,
            PromptPurpose::DeleteCollectionConfirm => "Delete collection"@,
            PromptPurpose::ImportCollection => "Import collection (JSON path)"@,
            PromptPurpose::ExportCollection(JsonDialect::Postman) => {
                "Export collection · Postman v2.1"@
            },
            PromptPurpose::ExportCollection(JsonDialect::Native) => {
                "Export collection · churl JSON"@
            },
            PromptPurpose::ExportWorkspace(JsonDialect::Postman) => {
                "Export workspace · Postman v2.1"@
            },
            PromptPurpose::ExportWorkspace(JsonDialect::Native) => {
                "Export workspace · churl JSON"@
            },
            PromptPurpose::PasteCurl => "Paste curl"@,
            PromptPurpose::NewSequence => "New sequence"@,
            PromptPurpose::SaveResponseBody => "Save response body"@,
        }
    }

    /// The prompt's title.
    pub fn title(self) -> (r: &'static str)
        ensures
            r@ == self.spec_title(),
    {
        match self {
            PromptPurpose::NewEndpoint => "New endpoint",
            PromptPurpose::NewCollection => "New collection",
            PromptPurpose::Rename => "Rename",
            PromptPurpose::DeleteCollectionConfirm => "Delete collection",
            PromptPurpose::ImportCollection => "Import collection (JSON path)",
            PromptPurpose::ExportCollection(JsonDialect::Postman) => {
                "Export collection · Postman v2.1"
            },
            PromptPurpose::ExportCollection(JsonDialect::Native) => {
                "Export collection · churl JSON"
            },
            PromptPurpose::ExportWorkspace(JsonDialect::Postman) => {
                "Export workspace · Postman v2.1"
            },
            PromptPurpose::ExportWorkspace(JsonDialect::Native) => "Export workspace · churl JSON",
            PromptPurpose::PasteCurl => "Paste curl",
            PromptPurpose::NewSequence => "New sequence",
            PromptPurpose::SaveResponseBody => "Save response body",
        }
    }
}

/// What a question gates.
#[derive(Debug, Clone, Copy, PartialEq, Eq, Structural)]
pub enum ConfirmPurpose {
    /// Deleting the selected endpoint.
    DeleteEndpoint,
    /// Deleting the selected sequence.
    DeleteSequence,
    /// Losing unsaved changes.
    DiscardChanges,
}

/// The title, the question and the keys of a question.
pub open spec fn spec_confirm_text(purpose: ConfirmPurpose) -> (Seq<char>, Seq<char>, Seq<char>) {
    match purpose {
        ConfirmPurpose::DeleteEndpoint => (
            "Delete endpoint"@,
            "Delete this endpoint?"@,
            "[y/n]"@,
        ),
        ConfirmPurpose::DeleteSequence => (
            "Delete sequence"@,
            "Delete this sequence?"@,
            "[y/n]"@,
        ),
        ConfirmPurpose::DiscardChanges => (
            "Unsaved changes"@,
            "Save changes before switching?"@,
            "s save · d discard · esc stay"@,
        ),
    }
}

/// The title, the question and the keys of a question.
pub fn confirm_text(purpose: ConfirmPurpose) -> (r: (&'static str, &'static str, &'static str))
    ensures
        (r.0@, r.1@, r.2@) == spec_confirm_text(purpose),
{
    match purpose {
        ConfirmPurpose::DeleteEndpoint => ("Delete endpoint", "Delete this endpoint?", "[y/n]"),
        ConfirmPurpose::DeleteSequence => ("Delete sequence", "Delete this sequence?", "[y/n]"),
        ConfirmPurpose::DiscardChanges => (
            "Unsaved changes",
            "Save changes before switching?",
            "s save · d discard · esc stay",
        ),
    }
}

/// The submenus of the leader key.
#[derive(Debug, Clone, Copy, PartialEq, Eq, Structural)]
pub enum LeaderMenu {
    /// Sequences.
    Sequences,
    /// Load runs.
    Load,
    /// Open tabs.
    Tabs,
}

impl LeaderMenu {
    /// The submenu's name.
    pub open spec fn spec_label(self) -> Seq<char> {
        match self {
            LeaderMenu::Sequences => "sequences"@,
            LeaderMenu::Load => "load"@,
            LeaderMenu::Tabs => "tabs"@,
        }
    }

    /// The submenu's name.
    pub fn label(self) -> (r: &'static str)
        ensures
            r@ == self.spec_label(),
    {
        match self {
            LeaderMenu::Sequences => "sequences",
            LeaderMenu::Load => "load",
            LeaderMenu::Tabs => "tabs",
        }
    }
}

/// The level of a leader chord in progress.
#[derive(Debug, Clone, Copy, PartialEq, Eq, Structural)]
pub enum LeaderState {
    /// The first level.
    Root,
    /// A submenu.
    Submenu(LeaderMenu),
}

/// The face of the sequence surface.
#[derive(Debug, Clone, Copy, PartialEq, Eq, Structural)]
pub enum SeqView {
    /// The editor.
    Edit,
    /// The run.
    Run,
}

/// What pressing `i` or Enter on the URL bar opens.
#[derive(Debug, Clone, Copy, PartialEq, Eq, Structural)]
pub enum UrlEditMode {
    /// The editor in the bar.
    Inline,
    /// The popup.
    Popup,
}

/// Whether a text is a curl command: behind leading white space it is the word
/// `curl`.
pub open spec fn is_curl(s: Seq<char>) -> bool {
    let t = crate::text::trimmed_start(s);
    &&& t.len() >= 4
    &&& t.take(4) == seq!['c', 'u', 'r', 'l']
    &&& (t.len() == 4 || crate::text::whitespace(t[4]))
}

/// Whether a prompt's text is a pasted curl command: it starts with the word
/// `curl`, so that `curls` and `curling` do not count.
pub fn looks_like_curl(text: &str) -> (r: bool)
    ensures
        r == is_curl(text@),
{
    let chars = to_chars(text);
    let n = leading_whitespace(&chars);
    let ghost t = chars@.skip(n as int);
    if chars.len() - n < 4 {
        return false;
    }
    let word = chars[n] == 'c' && chars[n + 1] == 'u' && chars[n + 2] == 'r' && chars[n + 3] == 'l';
    proof {
        let w = seq!['c', 'u', 'r', 'l'];
        assert(t.take(4)[0] == chars@[n as int] && t.take(4)[1] == chars@[n + 1] && t.take(4)[2]
            == chars@[n + 2] && t.take(4)[3] == chars@[n + 3]);
        if word {
            assert(t.take(4) =~= w);
        } else {
            assert(w[0] == 'c' && w[1] == 'u' && w[2] == 'r' && w[3] == 'l');
        }
    }
    word && (chars.len() - n == 4 || is_whitespace(chars[n + 4]))
}

/// A text that begins with the word `curl`, with or without white space before it, is a curl
/// command; one in which that word goes on is not, nor is one that begins with another letter.
pub proof fn law_curl_commands_begin_with_the_word(before: Seq<char>, rest: Seq<char>, c: char)
    requires
        forall|i: int|
            0 <= i < before.len() ==> before[i] == ' ' || before[i] == '\t' || before[i] == '\n',
        'a' <= c <= 'z' || '0' <= c <= '9',
    ensures
        is_curl(before + seq!['c', 'u', 'r', 'l']),
        is_curl(before + (seq!['c', 'u', 'r', 'l', ' '] + rest)),
        !is_curl(before + (seq!['c', 'u', 'r', 'l', c] + rest)),
        c != 'c' ==> !is_curl(before + (seq![c] + rest)),
{
    let word = seq!['c', 'u', 'r', 'l'];
    lemma_leading_space(before, word);
    lemma_leading_space(before, seq!['c', 'u', 'r', 'l', ' '] + rest);
    lemma_leading_space(before, seq!['c', 'u', 'r', 'l', c] + rest);
    lemma_leading_space(before, seq![c] + rest);
    assert(word.take(4) =~= word);
    assert((seq!['c', 'u', 'r', 'l', ' '] + rest).take(4) =~= word);
    let other = seq![c] + rest;
    if c != 'c' && other.len() >= 4 {
        assert(other.take(4)[0] == c);
    }
}

proof fn lemma_leading_space(before: Seq<char>, s: Seq<char>)
    requires
        forall|i: int|
            0 <= i < before.len() ==> before[i] == ' ' || before[i] == '\t' || before[i] == '\n',
        s.len() > 0,
        'a' <= s[0] <= 'z' || '0' <= s[0] <= '9',
    ensures
        crate::text::trimmed_start(before + s) == s,
    decreases before.len(),
{
    if before.len() > 0 {
        assert((before + s).skip(1) =~= before.skip(1) + s);
        assert((before + s)[0] == before[0]);
        lemma_leading_space(before.skip(1), s);
    } else {
        assert(before + s =~= s);
    }
}

} // verus!
