//! The entry points that the shell calls over the life of the module, each as
//! a decision: what to ask of the shell, and which status to return.
//!
//! The shell calls them in this order: `setup_` when the module is loaded,
//! `features_` to learn what the module offers, `enables_` with what is to be
//! enabled, `boot_` once that is done, and on unloading `cleanup_` and then
//! `finish_`. The first of them that needs the module's state fills its
//! table; after that none changes it, so the feature set that the shell was
//! shown stays the one that it enables and disables.

use crate::module::{Features, Module, ModuleView};
use crate::SUCCESS;
use vstd::prelude::*;

verus! {

/// What an entry point does before it returns.
#[derive(Clone, Copy, Debug, PartialEq, Eq)]
pub enum Action {
    /// Nothing is asked of the shell; the entry point returns the status.
    Return(i32),
    /// The shell builds the array of feature names for the feature set, the
    /// entry point stores the array where the shell asked for it and returns
    /// success.
    FeaturesArray(Features),
    /// The shell reconciles the feature set with the enable vector that it
    /// passed to the entry point, which returns the shell's status.
    HandleFeatures(Features),
    /// The shell sets the enables of the feature set from no vector at all,
    /// which disables every feature of the set; the entry point returns the
    /// shell's status.
    DisableFeatures(Features),
}

impl Action {
    /// The status that the entry point returns once the shell has returned
    /// `host_status` from what it was asked.
    pub open spec fn status_spec(self, host_status: i32) -> i32 {
        match self {
            Action::Return(status) => status,
            Action::FeaturesArray(_) => SUCCESS,
            Action::HandleFeatures(_) => host_status,
            Action::DisableFeatures(_) => host_status,
        }
    }

    /// The status that the entry point returns once the shell has returned
    /// `host_status` from what it was asked. Where nothing was asked, or what
    /// was asked returns no status, `host_status` is not looked at.
    pub fn status(&self, host_status: i32) -> (status: i32)
        ensures
            status == self.status_spec(host_status),
    {
        match self {
            Action::Return(status) => *status,
            Action::FeaturesArray(_) => SUCCESS,
            Action::HandleFeatures(_) => host_status,
            Action::DisableFeatures(_) => host_status,
        }
    }
}

/// The state and the decision of `features_`, by the state before it.
pub open spec fn features_step(module: ModuleView) -> (ModuleView, Action) {
    (module.populated(), Action::FeaturesArray(module.populated().features))
}

/// The state and the decision of `enables_`, by the state before it.
pub open spec fn enables_step(module: ModuleView) -> (ModuleView, Action) {
    (module.populated(), Action::HandleFeatures(module.populated().features))
}

/// The state and the decision of `cleanup_`, by the state before it.
pub open spec fn cleanup_step(module: ModuleView) -> (ModuleView, Action) {
    (module.populated(), Action::DisableFeatures(module.populated().features))
}

/// Called once when the module is loaded: there is nothing to prepare.
pub fn setup_() -> (action: Action)
    ensures
        action == Action::Return(SUCCESS),
{
    Action::Return(SUCCESS)
}

/// Called for the features that the module offers: the shell is shown the
/// module's feature set. This may be the module's first use.
pub fn features_(module: &mut Module) -> (action: Action)
    ensures
        (final(module)@, action) == features_step(old(module)@),
{
    module.populate();
    Action::FeaturesArray(module.features())
}

/// Called with the features to enable: the shell reconciles the module's
/// feature set with them. This may be the module's first use.
pub fn enables_(module: &mut Module) -> (action: Action)
    ensures
        (final(module)@, action) == enables_step(old(module)@),
{
    module.populate();
    Action::HandleFeatures(module.features())
}

/// Called once the features are enabled: there is nothing more to do.
pub fn boot_() -> (action: Action)
    ensures
        action == Action::Return(SUCCESS),
{
    Action::Return(SUCCESS)
}

/// Called before the module is unloaded: every feature of the module's
/// feature set is disabled. This may be the module's first use.
pub fn cleanup_(module: &mut Module) -> (action: Action)
    ensures
        (final(module)@, action) == cleanup_step(old(module)@),
{
    module.populate();
    Action::DisableFeatures(module.features())
}

/// Called last: the module holds nothing that it would have to release.
pub fn finish_() -> (action: Action)
    ensures
        action == Action::Return(SUCCESS),
{
    Action::Return(SUCCESS)
}

/// Asking for the features twice in a row shows the shell the same feature
/// set over the same table: the second call changes nothing and decides as
/// the first did.
pub proof fn lemma_features_query_repeats(module: ModuleView)
    requires
        module.wf(),
    ensures
        ({
            let (first, shown) = features_step(module);
            let (second, shown_again) = features_step(first);
            &&& second == first
            &&& shown_again == shown
            &&& shown == Action::FeaturesArray(first.features)
            &&& first.features.builtins(first.bintab) == first.bintab
        }),
{
}

/// From the query to the unloading the shell is handed one feature set over
/// one table: what `features_` showed is what `enables_` offers and what
/// `cleanup_` disables, and the table does not change in between.
pub proof fn lemma_feature_set_stays_put(module: ModuleView)
    requires
        module.wf(),
    ensures
        ({
            let (queried, shown) = features_step(module);
            let (enabled, offer) = enables_step(queried);
            let (cleaned, request) = cleanup_step(enabled);
            &&& enabled == queried
            &&& cleaned == queried
            &&& shown == Action::FeaturesArray(queried.features)
            &&& offer == Action::HandleFeatures(queried.features)
            &&& request == Action::DisableFeatures(queried.features)
        }),
{
}

/// After the features were enabled, `cleanup_` asks the shell to disable the
/// very feature set that `enables_` handed over, and that set holds every
/// builtin of the module's table: none is left out of the request.
pub proof fn lemma_cleanup_disables_what_enables_offered(module: ModuleView)
    requires
        module.wf(),
    ensures
        ({
            let (enabled, offer) = enables_step(module);
            let (cleaned, request) = cleanup_step(enabled);
            &&& cleaned == enabled
            &&& offer == Action::HandleFeatures(enabled.features)
            &&& request == Action::DisableFeatures(enabled.features)
            &&& enabled.features.builtins(cleaned.bintab) == cleaned.bintab
        }),
{
}

} // verus!
