//! Naming a language server and reporting how its installation goes.

use vstd::prelude::*;

verus! {

/// The ID of a language server. Its view is the text of the ID.
#[derive(Debug, PartialEq, Eq, PartialOrd, Ord, Hash, Clone)]
pub struct LanguageServerId(String);

impl View for LanguageServerId {
    type V = Seq<char>;

    closed spec fn view(&self) -> Seq<char> {
        self.0@
    }
}

impl LanguageServerId {
    /// The ID that wraps `text`.
    pub closed spec fn wrapping(text: String) -> LanguageServerId {
        LanguageServerId(text)
    }

    /// An ID reads as the text it wraps.
    pub proof fn lemma_wrapping_view(text: String)
        ensures
            LanguageServerId::wrapping(text)@ == text@,
    {
    }

    /// Wraps the text that the host sent as the ID of a language server.
    pub(crate) fn new(text: String) -> (id: LanguageServerId)
        ensures
            id == LanguageServerId::wrapping(text),
            id@ == text@,
    {
        LanguageServerId(text)
    }

    /// The text of the ID, as an owned string.
    pub fn to_string(&self) -> (text: String)
        ensures
            text@ == self@,
    {
        self.0.clone()
    }
}

impl AsRef<str> for LanguageServerId {
    fn as_ref(&self) -> (text: &str)
        ensures
            text@ == self@,
    {
        self.0.as_str()
    }
}

/// How far the installation of a language server has come. `Idle` is the
/// status of a server for which nothing is under way.
#[derive(Debug, Clone, PartialEq, Eq)]
pub enum LanguageServerInstallationStatus {
    Idle,
    Downloading,
    CheckingForUpdate,
    Failed(String),
}

/// A status report for the host: which language server, and its status.
#[derive(Debug, Clone, Copy)]
pub struct InstallationStatusUpdate<'a> {
    pub language_server_id: &'a str,
    pub status: &'a LanguageServerInstallationStatus,
}

/// Prepares the report that sets the installation status of the given
/// language server: it names the server by the text of its ID and carries
/// `status` as it is.
pub fn set_language_server_installation_status<'a>(
    language_server_id: &'a LanguageServerId,
    status: &'a LanguageServerInstallationStatus,
) -> (update: InstallationStatusUpdate<'a>)
    ensures
        update.language_server_id@ == language_server_id@,
        update.status == status,
{
    InstallationStatusUpdate { language_server_id: language_server_id.as_ref(), status }
}

} // verus!
