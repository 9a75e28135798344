//! The entry points that the host calls. Each one resolves the registered
//! extension, wraps the raw identifiers, makes exactly one call of the
//! matching capability (one per item for the label queries), and shapes the
//! answer for the boundary.

use vstd::prelude::*;
use crate::config::config_reply;
use crate::config::is_config_reply;
use crate::extension::Extension;
use crate::labels::labels_for;
use crate::labels::sparse_prefix;
use crate::language_server::LanguageServerId;
use crate::lsp::Completion;
use crate::lsp::Symbol;
use crate::registry::ExtensionRegistry;
use crate::wire::CodeLabel;
use crate::wire::Command;
use crate::wire::Worktree;

verus! {

/// `dense` holds, for each completion in turn, a label that `extension` may
/// give it for the language server `id`.
pub open spec fn are_completion_labels<E: Extension>(
    extension: E,
    id: LanguageServerId,
    completions: Seq<Completion>,
    dense: Seq<Option<CodeLabel>>,
) -> bool {
    &&& dense.len() == completions.len()
    &&& forall|i: int|
        0 <= i < completions.len() ==> call_ensures(
            E::label_for_completion,
            (&extension, &id, completions[i]),
            #[trigger] dense[i],
        )
}

/// `dense` holds, for each symbol in turn, a label that `extension` may give
/// it for the language server `id`.
pub open spec fn are_symbol_labels<E: Extension>(
    extension: E,
    id: LanguageServerId,
    symbols: Seq<Symbol>,
    dense: Seq<Option<CodeLabel>>,
) -> bool {
    &&& dense.len() == symbols.len()
    &&& forall|i: int|
        0 <= i < symbols.len() ==> call_ensures(
            E::label_for_symbol,
            (&extension, &id, symbols[i]),
            #[trigger] dense[i],
        )
}

/// The boundary-facing side of the extension.
pub struct Component;

impl Component {
    /// Tells the extension that it is being removed.
    pub fn uninstall<E: Extension>(registry: &mut ExtensionRegistry<E>)
        requires
            old(registry)@ is Some,
        ensures
            exists|lent: &mut E|
                old(registry)@ == Some(*lent) && final(registry)@ == Some(*final(lent))
                    && #[trigger] call_ensures(E::uninstall, (lent,), ()),
    {
        registry.current().uninstall();
    }

    /// Asks the extension for the command that starts a language server.
    /// The answer goes back as it came, a failure with its message.
    pub fn language_server_command<E: Extension>(
        registry: &mut ExtensionRegistry<E>,
        language_server_id: String,
        worktree: &Worktree,
    ) -> (reply: Result<Command, String>)
        requires
            old(registry)@ is Some,
        ensures
            exists|lent: &mut E|
                old(registry)@ == Some(*lent) && final(registry)@ == Some(*final(lent))
                    && #[trigger] call_ensures(
                    E::language_server_command,
                    (lent, &LanguageServerId::wrapping(language_server_id), worktree),
                    reply,
                ),
    {
        let language_server_id = LanguageServerId::new(language_server_id);
        registry.current().language_server_command(&language_server_id, worktree)
    }

    /// Asks the extension for the initialization options of a language
    /// server and replies with their transport form.
    pub fn language_server_initialization_options<E: Extension>(
        registry: &mut ExtensionRegistry<E>,
        language_server_id: String,
        worktree: &Worktree,
    ) -> (reply: Result<Option<String>, String>)
        requires
            old(registry)@ is Some,
        ensures
            exists|lent: &mut E, outcome: Result<Option<serde_json::Value>, String>|
                old(registry)@ == Some(*lent) && final(registry)@ == Some(*final(lent))
                    && #[trigger] call_ensures(
                    E::language_server_initialization_options,
                    (lent, &LanguageServerId::wrapping(language_server_id), worktree),
                    outcome,
                ) && is_config_reply(outcome, reply),
    {
        let language_server_id = LanguageServerId::new(language_server_id);
        let outcome = registry.current().language_server_initialization_options(
            &language_server_id,
            worktree,
        );
        config_reply(outcome)
    }

    /// Asks the extension for the workspace configuration of a language
    /// server and replies with its transport form.
    pub fn language_server_workspace_configuration<E: Extension>(
        registry: &mut ExtensionRegistry<E>,
        language_server_id: String,
        worktree: &Worktree,
    ) -> (reply: Result<Option<String>, String>)
        requires
            old(registry)@ is Some,
        ensures
            exists|lent: &mut E, outcome: Result<Option<serde_json::Value>, String>|
                old(registry)@ == Some(*lent) && final(registry)@ == Some(*final(lent))
                    && #[trigger] call_ensures(
                    E::language_server_workspace_configuration,
                    (lent, &LanguageServerId::wrapping(language_server_id), worktree),
                    outcome,
                ) && is_config_reply(outcome, reply),
    {
        let language_server_id = LanguageServerId::new(language_server_id);
        let outcome = registry.current().language_server_workspace_configuration(
            &language_server_id,
            worktree,
        );
        config_reply(outcome)
    }

    /// Asks the extension for the initialization options that one language
    /// server adds for another, and replies with their transport form.
    pub fn language_server_additional_initialization_options<E: Extension>(
        registry: &mut ExtensionRegistry<E>,
        language_server_id: String,
        target_language_server_id: String,
        worktree: &Worktree,
    ) -> (reply: Result<Option<String>, String>)
        requires
            old(registry)@ is Some,
        ensures
            exists|lent: &mut E, outcome: Result<Option<serde_json::Value>, String>|
                old(registry)@ == Some(*lent) && final(registry)@ == Some(*final(lent))
                    && #[trigger] call_ensures(
                    E::language_server_additional_initialization_options,
                    (
                        lent,
                        &LanguageServerId::wrapping(language_server_id),
                        &LanguageServerId::wrapping(target_language_server_id),
                        worktree,
                    ),
                    outcome,
                ) && is_config_reply(outcome, reply),
    {
        let language_server_id = LanguageServerId::new(language_server_id);
        let target_language_server_id = LanguageServerId::new(target_language_server_id);
        let outcome = registry.current().language_server_additional_initialization_options(
            &language_server_id,
            &target_language_server_id,
            worktree,
        );
        config_reply(outcome)
    }

    /// Asks the extension for the workspace configuration that one language
    /// server adds for another, and replies with its transport form.
    pub fn language_server_additional_workspace_configuration<E: Extension>(
        registry: &mut ExtensionRegistry<E>,
        language_server_id: String,
        target_language_server_id: String,
        worktree: &Worktree,
    ) -> (reply: Result<Option<String>, String>)
        requires
            old(registry)@ is Some,
        ensures
            exists|lent: &mut E, outcome: Result<Option<serde_json::Value>, String>|
                old(registry)@ == Some(*lent) && final(registry)@ == Some(*final(lent))
                    && #[trigger] call_ensures(
                    E::language_server_additional_workspace_configuration,
                    (
                        lent,
                        &LanguageServerId::wrapping(language_server_id),
                        &LanguageServerId::wrapping(target_language_server_id),
                        worktree,
                    ),
                    outcome,
                ) && is_config_reply(outcome, reply),
    {
        let language_server_id = LanguageServerId::new(language_server_id);
        let target_language_server_id = LanguageServerId::new(target_language_server_id);
        let outcome = registry.current().language_server_additional_workspace_configuration(
            &language_server_id,
            &target_language_server_id,
            worktree,
        );
        config_reply(outcome)
    }

    /// Asks the extension for the label of each completion and replies with
    /// the shortest prefix of the answers that holds every label given. The
    /// reply is always a success, and the extension is left as it was.
    pub fn labels_for_completions<E: Extension>(
        registry: &mut ExtensionRegistry<E>,
        language_server_id: String,
        completions: Vec<Completion>,
    ) -> (reply: Result<Vec<Option<CodeLabel>>, String>)
        requires
            old(registry)@ is Some,
        ensures
            final(registry)@ == old(registry)@,
            reply matches Ok(labels) && exists|dense: Seq<Option<CodeLabel>>| #[trigger]
                are_completion_labels(
                    old(registry)@->0,
                    LanguageServerId::wrapping(language_server_id),
                    completions@,
                    dense,
                ) && labels@ == sparse_prefix(dense),
    {
        let language_server_id = LanguageServerId::new(language_server_id);
        let extension: &E = registry.current();
        let label_of = |completion: Completion| -> (label: Option<CodeLabel>)
            ensures
                call_ensures(
                    E::label_for_completion,
                    (extension, &language_server_id, completion),
                    label,
                ),
            { extension.label_for_completion(&language_server_id, completion) };
        let ghost items = completions@;
        let labels = labels_for(completions, label_of);
        proof {
            let dense = choose|dense: Seq<Option<CodeLabel>>| #[trigger]
                crate::labels::is_labeling(label_of, items, dense) && labels@ == sparse_prefix(
                    dense,
                );
            assert forall|i: int| 0 <= i < items.len() implies call_ensures(
                E::label_for_completion,
                (&old(registry)@->0, &language_server_id, items[i]),
                #[trigger] dense[i],
            ) by {
                assert(call_ensures(label_of, (items[i],), dense[i]));
            }
            assert(are_completion_labels(old(registry)@->0, language_server_id, items, dense));
        }
        Ok(labels)
    }

    /// Asks the extension for the label of each symbol and replies with the
    /// shortest prefix of the answers that holds every label given. The
    /// reply is always a success, and the extension is left as it was.
    pub fn labels_for_symbols<E: Extension>(
        registry: &mut ExtensionRegistry<E>,
        language_server_id: String,
        symbols: Vec<Symbol>,
    ) -> (reply: Result<Vec<Option<CodeLabel>>, String>)
        requires
            old(registry)@ is Some,
        ensures
            final(registry)@ == old(registry)@,
            reply matches Ok(labels) && exists|dense: Seq<Option<CodeLabel>>| #[trigger]
                are_symbol_labels(
                    old(registry)@->0,
                    LanguageServerId::wrapping(language_server_id),
                    symbols@,
                    dense,
                ) && labels@ == sparse_prefix(dense),
    {
        let language_server_id = LanguageServerId::new(language_server_id);
        let extension: &E = registry.current();
        let label_of = |symbol: Symbol| -> (label: Option<CodeLabel>)
            ensures
                call_ensures(E::label_for_symbol, (extension, &language_server_id, symbol), label),
            { extension.label_for_symbol(&language_server_id, symbol) };
        let ghost items = symbols@;
        let labels = labels_for(symbols, label_of);
        proof {
            let dense = choose|dense: Seq<Option<CodeLabel>>| #[trigger]
                crate::labels::is_labeling(label_of, items, dense) && labels@ == sparse_prefix(
                    dense,
                );
            assert forall|i: int| 0 <= i < items.len() implies call_ensures(
                E::label_for_symbol,
                (&old(registry)@->0, &language_server_id, items[i]),
                #[trigger] dense[i],
            ) by {
                assert(call_ensures(label_of, (items[i],), dense[i]));
            }
            assert(are_symbol_labels(old(registry)@->0, language_server_id, items, dense));
        }
        Ok(labels)
    }
}

} // verus!
