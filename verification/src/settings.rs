//! Per-policy configuration as the workers consume it.

use vstd::prelude::*;

verus! {

/// How a policy's verdict is enforced.
///
/// In `Protect` mode the verdict returned by the evaluator is enforced; in
/// `Monitor` mode the verdict is only recorded and the request is always
/// allowed.
#[derive(Clone, Copy, Debug, PartialEq, Eq, Structural)]
pub enum PolicyMode {
    Protect,
    Monitor,
}

/// The settings a worker keeps beside each policy evaluator.
#[derive(Clone, Debug)]
pub struct PolicySettings {
    pub policy_mode: PolicyMode,
    pub allowed_to_mutate: bool,
    pub always_accept_admission_reviews_on_namespace: Option<String>,
}

/// Mathematical image of `PolicySettings`.
#[verifier::ext_equal]
pub struct PolicySettingsView {
    pub policy_mode: PolicyMode,
    pub allowed_to_mutate: bool,
    pub always_accept_admission_reviews_on_namespace: Option<Seq<char>>,
}

impl View for PolicySettings {
    type V = PolicySettingsView;

    open spec fn view(&self) -> PolicySettingsView {
        PolicySettingsView {
            policy_mode: self.policy_mode,
            allowed_to_mutate: self.allowed_to_mutate,
            always_accept_admission_reviews_on_namespace:
                self.always_accept_admission_reviews_on_namespace.deep_view(),
        }
    }
}

impl PolicySettings {
    /// An explicit copy; the contract ties the copy to the value copied.
    pub fn duplicate(&self) -> (r: PolicySettings)
        ensures
            r@ == self@,
    {
        let ns: Option<String> = match &self.always_accept_admission_reviews_on_namespace {
            Some(n) => Some(n.clone()),
            None => None,
        };
        PolicySettings {
            policy_mode: self.policy_mode,
            allowed_to_mutate: self.allowed_to_mutate,
            always_accept_admission_reviews_on_namespace: ns,
        }
    }
}

} // verus!
