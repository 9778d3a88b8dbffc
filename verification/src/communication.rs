//! The envelope the HTTP front-end hands to the worker pool.

use vstd::prelude::*;

use crate::admission::{AdmissionRequest, AdmissionRequestView};

verus! {

/// One evaluation request: the policy to run and the admission request to run
/// it on. The transport pairs it with a one-shot reply sink and the parent
/// trace context; the sink is consumed exactly once, by the reply.
pub struct EvalRequest {
    pub policy_id: String,
    pub req: AdmissionRequest,
}

#[verifier::ext_equal]
pub struct EvalRequestView {
    pub policy_id: Seq<char>,
    pub req: AdmissionRequestView,
}

impl View for EvalRequest {
    type V = EvalRequestView;

    open spec fn view(&self) -> EvalRequestView {
        EvalRequestView { policy_id: self.policy_id@, req: self.req@ }
    }
}

impl DeepView for EvalRequest {
    type V = EvalRequestView;

    open spec fn deep_view(&self) -> EvalRequestView {
        self.view()
    }
}

} // verus!
