//! The record emitted for every evaluation: the labels of the latency
//! histogram and of the evaluation counter.

use vstd::prelude::*;

use crate::settings::PolicyMode;

verus! {

/// The label set of one policy evaluation. The registry that turns it into
/// metric series lives with the process; this type fixes what is recorded.
#[derive(Clone, Debug)]
pub struct PolicyEvaluation {
    pub policy_name: String,
    pub policy_mode: PolicyMode,
    pub resource_namespace: Option<String>,
    pub resource_kind: String,
    pub resource_request_operation: String,
    pub accepted: bool,
    pub mutated: bool,
    pub error_code: Option<u16>,
}

#[verifier::ext_equal]
pub struct PolicyEvaluationView {
    pub policy_name: Seq<char>,
    pub policy_mode: PolicyMode,
    pub resource_namespace: Option<Seq<char>>,
    pub resource_kind: Seq<char>,
    pub resource_request_operation: Seq<char>,
    pub accepted: bool,
    pub mutated: bool,
    pub error_code: Option<u16>,
}

impl View for PolicyEvaluation {
    type V = PolicyEvaluationView;

    open spec fn view(&self) -> PolicyEvaluationView {
        PolicyEvaluationView {
            policy_name: self.policy_name@,
            policy_mode: self.policy_mode,
            resource_namespace: self.resource_namespace.deep_view(),
            resource_kind: self.resource_kind@,
            resource_request_operation: self.resource_request_operation@,
            accepted: self.accepted,
            mutated: self.mutated,
            error_code: self.error_code,
        }
    }
}

} // verus!
