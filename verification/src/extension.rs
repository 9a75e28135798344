//! The capabilities of an extension. An extension implements [`Extension`]
//! and overrides the capabilities it offers; each of the others keeps its
//! default, which declines or answers with nothing.

use vstd::prelude::*;
use crate::language_server::LanguageServerId;
use crate::lsp::Completion;
use crate::lsp::Symbol;
use crate::wire::CodeLabel;
use crate::wire::Command;
use crate::wire::Worktree;

verus! {

/// `answer` is the failure that names `language_server_command` as not
/// implemented.
pub open spec fn is_command_not_implemented(answer: Result<Command, String>) -> bool {
    answer matches Err(message) && message@ == "`language_server_command` not implemented"@
}

/// The answer of an extension that offers no language server command: a
/// failure that names the capability.
pub fn command_not_implemented() -> (answer: Result<Command, String>)
    ensures
        is_command_not_implemented(answer),
{
    Err("`language_server_command` not implemented".to_owned())
}

/// The answer of an extension that has no configuration to give: a success
/// without a value.
pub fn no_configuration() -> (answer: Result<Option<serde_json::Value>, String>)
    ensures
        answer == Ok::<Option<serde_json::Value>, String>(None),
{
    Ok(None)
}

/// The answer of an extension that labels nothing.
pub fn no_label() -> (answer: Option<CodeLabel>)
    ensures
        answer is None,
{
    None
}

/// A Klyx extension.
///
/// Of a capability that an implementation answers itself the library
/// promises nothing: the dispatch layer hands on whatever comes back. An
/// implementation says which capabilities those are by overriding, beside
/// the capability, the `provides_*` predicate of the same name. A capability
/// that it leaves alone keeps its default, and of the default the contract
/// says what it answers: `command_not_implemented`, `no_configuration` or
/// `no_label`. The default `uninstall` does nothing.
pub trait Extension: Send + Sync {
    /// Returns a new instance of the extension.
    fn new() -> Self where Self: Sized;

    /// This is called when the extension is removed from Klyx.
    /// It can be used to clean up resources or perform any necessary
    /// finalization.
    fn uninstall(&mut self) {
    }

    /// Returns the command used to start the language server for the
    /// specified language.
    fn language_server_command(
        &mut self,
        _language_server_id: &LanguageServerId,
        _worktree: &Worktree,
    ) -> (answer: Result<Command, String>)
        ensures
            !old(self).provides_language_server_command() ==> is_command_not_implemented(answer),
    {
        command_not_implemented()
    }

    /// Returns the initialization options to pass to the specified language
    /// server.
    fn language_server_initialization_options(
        &mut self,
        _language_server_id: &LanguageServerId,
        _worktree: &Worktree,
    ) -> (answer: Result<Option<serde_json::Value>, String>)
        ensures
            !old(self).provides_language_server_initialization_options() ==> answer == Ok::<
                Option<serde_json::Value>,
                String,
            >(None),
    {
        no_configuration()
    }

    /// Returns the workspace configuration options to pass to the language
    /// server.
    fn language_server_workspace_configuration(
        &mut self,
        _language_server_id: &LanguageServerId,
        _worktree: &Worktree,
    ) -> (answer: Result<Option<serde_json::Value>, String>)
        ensures
            !old(self).provides_language_server_workspace_configuration() ==> answer == Ok::<
                Option<serde_json::Value>,
                String,
            >(None),
    {
        no_configuration()
    }

    /// Returns the initialization options to pass to the other language
    /// server.
    fn language_server_additional_initialization_options(
        &mut self,
        _language_server_id: &LanguageServerId,
        _target_language_server_id: &LanguageServerId,
        _worktree: &Worktree,
    ) -> (answer: Result<Option<serde_json::Value>, String>)
        ensures
            !old(self).provides_language_server_additional_initialization_options() ==> answer == Ok::<
                Option<serde_json::Value>,
                String,
            >(None),
    {
        no_configuration()
    }

    /// Returns the workspace configuration options to pass to the other
    /// language server.
    fn language_server_additional_workspace_configuration(
        &mut self,
        _language_server_id: &LanguageServerId,
        _target_language_server_id: &LanguageServerId,
        _worktree: &Worktree,
    ) -> (answer: Result<Option<serde_json::Value>, String>)
        ensures
            !old(self).provides_language_server_additional_workspace_configuration() ==> answer == Ok::<
                Option<serde_json::Value>,
                String,
            >(None),
    {
        no_configuration()
    }

    /// Returns the label for the given completion.
    fn label_for_completion(
        &self,
        _language_server_id: &LanguageServerId,
        _completion: Completion,
    ) -> (answer: Option<CodeLabel>)
        ensures
            !self.provides_label_for_completion() ==> answer is None,
    {
        no_label()
    }

    /// Returns the label for the given symbol.
    fn label_for_symbol(
        &self,
        _language_server_id: &LanguageServerId,
        _symbol: Symbol,
    ) -> (answer: Option<CodeLabel>)
        ensures
            !self.provides_label_for_symbol() ==> answer is None,
    {
        no_label()
    }
    /// Whether this extension answers `language_server_command` itself.
    open spec fn provides_language_server_command(&self) -> bool {
        false
    }

    /// Whether this extension answers
    /// `language_server_initialization_options` itself.
    open spec fn provides_language_server_initialization_options(&self) -> bool {
        false
    }

    /// Whether this extension answers
    /// `language_server_workspace_configuration` itself.
    open spec fn provides_language_server_workspace_configuration(&self) -> bool {
        false
    }

    /// Whether this extension answers
    /// `language_server_additional_initialization_options` itself.
    open spec fn provides_language_server_additional_initialization_options(&self) -> bool {
        false
    }

    /// Whether this extension answers
    /// `language_server_additional_workspace_configuration` itself.
    open spec fn provides_language_server_additional_workspace_configuration(&self) -> bool {
        false
    }

    /// Whether this extension answers `label_for_completion` itself.
    open spec fn provides_label_for_completion(&self) -> bool {
        false
    }

    /// Whether this extension answers `label_for_symbol` itself.
    open spec fn provides_label_for_symbol(&self) -> bool {
        false
    }
}

} // verus!
