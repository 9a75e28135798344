//! The registry that owns the one instance of the extension.

use vstd::prelude::*;
use crate::extension::Extension;

verus! {

/// What a registry holds once `instance` is registered in one that held
/// `previous`: the new instance, whatever was there.
pub open spec fn after_registration<E>(previous: Option<E>, instance: E) -> Option<E> {
    Some(instance)
}

/// Registration always succeeds, and of two registrations the later one
/// stays: the instance registered last is the one the registry holds.
pub proof fn lemma_last_registration_wins<E>(previous: Option<E>, first: E, second: E)
    ensures
        after_registration(previous, first) == Some(first),
        after_registration(after_registration(previous, first), second) == Some(second),
{
}

/// Holds the extension of this process: nothing until an extension is
/// registered, and from then on the instance registered last. Its view is
/// that instance, if any.
pub struct ExtensionRegistry<E: Extension> {
    instance: Option<E>,
}

impl<E: Extension> View for ExtensionRegistry<E> {
    type V = Option<E>;

    closed spec fn view(&self) -> Option<E> {
        self.instance
    }
}

impl<E: Extension> ExtensionRegistry<E> {
    /// A registry in which nothing is registered.
    pub fn new() -> (registry: Self)
        ensures
            registry@ is None,
    {
        ExtensionRegistry { instance: None }
    }

    /// Whether an extension has been registered.
    pub fn is_registered(&self) -> (registered: bool)
        ensures
            registered == (self@ is Some),
    {
        self.instance.is_some()
    }

    /// The registered instance, for the span of one call. To ask for it
    /// before an extension is registered is a fault of the caller.
    pub fn current(&mut self) -> (instance: &mut E)
        requires
            old(self)@ is Some,
        ensures
            *instance == old(self)@->0,
            final(self)@ == Some(*final(instance)),
    {
        self.instance.as_mut().unwrap()
    }
}

/// Builds the extension with `build_extension` and stores it in `registry`.
/// Whatever was registered before is replaced: the last registration wins.
pub fn register_extension<E: Extension, F: FnOnce() -> E>(
    registry: &mut ExtensionRegistry<E>,
    build_extension: F,
)
    requires
        call_requires(build_extension, ()),
    ensures
        final(registry)@ matches Some(instance) && call_ensures(build_extension, (), instance)
            && final(registry)@ == after_registration(old(registry)@, instance),
{
    registry.instance = Some(build_extension());
}

} // verus!
