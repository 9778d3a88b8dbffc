//! The decisions of the HTTP front-end: which status and body answer each
//! outcome of a validation request, and the span fields recorded for
//! observability.

use vstd::prelude::*;

use crate::admission::{AdmissionRequest, AdmissionRequestView, AdmissionResponse};

verus! {

use vstd::string::StringExecFns;

/// How one validation request went, as the front-end sees it: the review body
/// had no request, the pool refused the send, the reply channel broke, the
/// policy was not known, or a response came back.
pub enum ValidationOutcome {
    MissingRequest,
    SendFailed,
    ChannelBroken,
    PolicyNotKnown,
    Evaluated(AdmissionResponse),
}

/// The body of the HTTP answer: the message of the JSON error envelope, or
/// the admission response to wrap in the review sent back.
pub enum ReplyBody {
    ErrorMessage(String),
    Review(AdmissionResponse),
}

/// One HTTP answer: status code and body.
pub struct HttpReply {
    pub status_code: u16,
    pub body: ReplyBody,
}

/// The answer the front-end returns for each outcome of a validation request:
/// 400 when the review carries no request, 500 when the queue or the reply
/// channel failed, 404 when the policy is not known, and 200 with the
/// evaluated response otherwise.
pub fn validation_reply(outcome: ValidationOutcome) -> (r: HttpReply)
    ensures
        outcome is MissingRequest ==> r.status_code == 400 && (r.body matches
            ReplyBody::ErrorMessage(m)
            && m@ == "No Request object defined inside AdmissionReview object"@),
        outcome is SendFailed ==> r.status_code == 500 && (r.body matches ReplyBody::ErrorMessage(m)
            && m@ == "error while sending request from API to Worker pool"@),
        outcome is ChannelBroken ==> r.status_code == 500 && (r.body matches
            ReplyBody::ErrorMessage(m)
            && m@ == "broken channel"@),
        outcome is PolicyNotKnown ==> r.status_code == 404 && (r.body matches
            ReplyBody::ErrorMessage(m)
            && m@ == "requested policy not known"@),
        outcome matches ValidationOutcome::Evaluated(vr) ==> r.status_code == 200 && (r.body
            matches ReplyBody::Review(out) && out@ == vr@),
{
    match outcome {
        ValidationOutcome::MissingRequest => HttpReply {
            status_code: 400,
            body: ReplyBody::ErrorMessage(
                "No Request object defined inside AdmissionReview object".to_owned(),
            ),
        },
        ValidationOutcome::SendFailed => HttpReply {
            status_code: 500,
            body: ReplyBody::ErrorMessage(
                "error while sending request from API to Worker pool".to_owned(),
            ),
        },
        ValidationOutcome::ChannelBroken => HttpReply {
            status_code: 500,
            body: ReplyBody::ErrorMessage("broken channel".to_owned()),
        },
        ValidationOutcome::PolicyNotKnown => HttpReply {
            status_code: 404,
            body: ReplyBody::ErrorMessage("requested policy not known".to_owned()),
        },
        ValidationOutcome::Evaluated(vr) => HttpReply {
            status_code: 200,
            body: ReplyBody::Review(vr),
        },
    }
}

/// The string recorded for an optional field: its value, or empty when absent.
pub open spec fn or_empty(o: Option<Seq<char>>) -> Seq<char> {
    match o {
        Some(s) => s,
        None => Seq::empty(),
    }
}

/// The fixed span-field schema filled from an admission request, in recording
/// order.
pub open spec fn admission_request_span_fields(req: AdmissionRequestView) -> Seq<
    (Seq<char>, Seq<char>),
> {
    seq![
        ("kind"@, req.kind.kind),
        ("kind_group"@, req.kind.group),
        ("kind_version"@, req.kind.version),
        ("name"@, or_empty(req.name)),
        ("namespace"@, or_empty(req.namespace)),
        ("operation"@, req.operation),
        ("request_uid"@, req.uid),
        ("resource"@, req.resource.resource),
        ("resource_group"@, req.resource.group),
        ("resource_version"@, req.resource.version),
        ("subresource"@, or_empty(req.sub_resource)),
    ]
}

fn string_or_empty(o: &Option<String>) -> (r: String)
    ensures
        r@ == or_empty(o.deep_view()),
{
    match o {
        Some(s) => s.clone(),
        None => String::new(),
    }
}

/// The span fields an admission request populates, as name/value pairs in
/// recording order; absent optional fields are recorded as empty strings.
/// The recording itself happens where the span lives.
pub fn populate_span_with_admission_request_data(adm_req: &AdmissionRequest) -> (r: Vec<
    (String, String),
>)
    ensures
        r.deep_view() == admission_request_span_fields(adm_req@),
{
    let mut fields: Vec<(String, String)> = Vec::new();
    fields.push(("kind".to_owned(), adm_req.kind.kind.clone()));
    fields.push(("kind_group".to_owned(), adm_req.kind.group.clone()));
    fields.push(("kind_version".to_owned(), adm_req.kind.version.clone()));
    fields.push(("name".to_owned(), string_or_empty(&adm_req.name)));
    fields.push(("namespace".to_owned(), string_or_empty(&adm_req.namespace)));
    fields.push(("operation".to_owned(), adm_req.operation.clone()));
    fields.push(("request_uid".to_owned(), adm_req.uid.clone()));
    fields.push(("resource".to_owned(), adm_req.resource.resource.clone()));
    fields.push(("resource_group".to_owned(), adm_req.resource.group.clone()));
    fields.push(("resource_version".to_owned(), adm_req.resource.version.clone()));
    fields.push(("subresource".to_owned(), string_or_empty(&adm_req.sub_resource)));
    proof {
        assert(fields.deep_view() =~= admission_request_span_fields(adm_req@));
    }
    fields
}

/// The span fields recorded once a policy evaluation finished.
pub struct EvaluationSpanFields {
    pub allowed: bool,
    pub mutated: bool,
    pub response_code: Option<u16>,
    pub response_message: Option<String>,
}

/// The span fields a finished evaluation populates: the verdict, whether it
/// mutates, and the status code and message when the response carries them.
pub fn populate_span_with_policy_evaluation_results(response: &AdmissionResponse) -> (r:
    EvaluationSpanFields)
    ensures
        r.allowed == response@.allowed,
        r.mutated == (response@.patch is Some),
        r.response_code == (match response@.status {
            Some(s) => s.code,
            None => None::<u16>,
        }),
        r.response_message.deep_view() == (match response@.status {
            Some(s) => s.message,
            None => None::<Seq<char>>,
        }),
{
    let (code, message): (Option<u16>, Option<String>) = match &response.status {
        Some(s) => (
            s.code,
            match &s.message {
                Some(m) => Some(m.clone()),
                None => None,
            },
        ),
        None => (None, None),
    };
    EvaluationSpanFields {
        allowed: response.allowed,
        mutated: response.patch.is_some(),
        response_code: code,
        response_message: message,
    }
}

} // verus!
