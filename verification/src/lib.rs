//! Guest-side API of the Klyx extension host: the capability trait an
//! extension implements, the registry that owns the one extension instance,
//! and the dispatch layer that turns boundary calls into trait calls.

pub mod android;
pub mod config;
pub mod dispatch;
pub mod extension;
pub mod labels;
pub mod language_server;
pub mod lsp;
pub mod registry;
pub mod wire;

pub use android::{toast_duration_code, ToastDuration};
pub use dispatch::Component;
pub use extension::Extension;
pub use language_server::{
    set_language_server_installation_status, InstallationStatusUpdate, LanguageServerId,
    LanguageServerInstallationStatus,
};
pub use registry::{register_extension, ExtensionRegistry};
pub use wire::{
    CodeLabel, CodeLabelSpan, CodeLabelSpanLiteral, Command, EnvVars, Range, Worktree,
};
