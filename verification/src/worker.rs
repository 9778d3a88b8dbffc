//! The policy worker: the response-shaping rules applied to every raw
//! verdict, and the per-request logic a worker runs between dequeueing an
//! evaluation request and sending its reply.

use itertools::Itertools;
use vstd::prelude::*;

use crate::admission::{AdmissionRequest, AdmissionRequestView, AdmissionResponse,
    AdmissionResponseStatus, AdmissionResponseStatusView, AdmissionResponseView};
use crate::communication::EvalRequestView;
use crate::metrics::{PolicyEvaluation, PolicyEvaluationView};
use crate::settings::{PolicyMode, PolicySettings, PolicySettingsView};

verus! {

use vstd::string::StringExecFns;

/// The items of `parts` in order, with `sep` between consecutive items.
pub open spec fn join_with(parts: Seq<Seq<char>>, sep: Seq<char>) -> Seq<char>
    decreases parts.len(),
{
    if parts.len() == 0 {
        Seq::empty()
    } else if parts.len() == 1 {
        parts[0]
    } else {
        parts[0] + sep + join_with(parts.subrange(1, parts.len() as int), sep)
    }
}

/// Relies on itertools' `Itertools::join`: the items in order, with the
/// separator between consecutive items, and the empty string for no items.
#[verifier::external_body]
fn join_strings(parts: &Vec<String>, sep: &str) -> (r: String)
    ensures
        r@ == join_with(parts.deep_view(), sep@),
{
    parts.iter().map(|p| p.as_str()).join(sep)
}

/// The message returned when a policy tries to mutate a request while its
/// configuration forbids mutation. Byte-for-byte stable: cluster operators
/// match on it.
pub open spec fn rejection_message(policy_id: Seq<char>) -> Seq<char> {
    "Request rejected by policy "@ + policy_id
        + ". The policy attempted to mutate the request, but it is currently configured to not allow mutations."@
}

/// The raw verdict projected through the policy's mode.
///
/// In `Monitor` mode the request is always allowed and patch, patch type and
/// status are cleared. In `Protect` mode a verdict that carries a patch while
/// the policy may not mutate becomes the canonical rejection; any other
/// verdict passes through unchanged.
pub open spec fn projected_by_mode(
    policy_id: Seq<char>,
    policy_mode: PolicyMode,
    allowed_to_mutate: bool,
    raw: AdmissionResponseView,
) -> AdmissionResponseView {
    match policy_mode {
        PolicyMode::Protect => if raw.patch is Some && !allowed_to_mutate {
            AdmissionResponseView {
                uid: raw.uid,
                allowed: false,
                patch: None,
                patch_type: None,
                status: Some(AdmissionResponseStatusView {
                    message: Some(rejection_message(policy_id)),
                    code: None,
                }),
            }
        } else {
            raw
        },
        PolicyMode::Monitor => AdmissionResponseView {
            uid: raw.uid,
            allowed: true,
            patch: None,
            patch_type: None,
            status: None,
        },
    }
}

/// The namespace override: when the server is configured to always accept
/// admission reviews on one namespace and the request comes from exactly that
/// namespace, the response is forced to `allowed` while every other field is
/// kept.
pub open spec fn namespace_override(
    accept_ns: Option<Seq<char>>,
    req_namespace: Option<Seq<char>>,
    r: AdmissionResponseView,
) -> AdmissionResponseView {
    if accept_ns is Some && req_namespace == accept_ns {
        AdmissionResponseView {
            uid: r.uid,
            allowed: true,
            patch: r.patch,
            patch_type: r.patch_type,
            status: r.status,
        }
    } else {
        r
    }
}

/// The full response shape: mode projection first, namespace override second.
pub open spec fn shape(
    policy_id: Seq<char>,
    policy_mode: PolicyMode,
    allowed_to_mutate: bool,
    accept_ns: Option<Seq<char>>,
    raw: AdmissionResponseView,
    req_namespace: Option<Seq<char>>,
) -> AdmissionResponseView {
    namespace_override(
        accept_ns,
        req_namespace,
        projected_by_mode(policy_id, policy_mode, allowed_to_mutate, raw),
    )
}

/// Builds the canonical rejection message for one policy.
pub fn rejection_message_for(policy_id: &str) -> (r: String)
    ensures
        r@ == rejection_message(policy_id@),
{
    let mut r = "Request rejected by policy ".to_owned();
    r.append(policy_id);
    r.append(
        ". The policy attempted to mutate the request, but it is currently configured to not allow mutations.",
    );
    r
}

/// A worker: the per-policy settings it holds beside its evaluators, keyed by
/// policy id. The evaluator instances themselves live with the process that
/// runs the sandbox; this type carries everything the reply logic reads.
pub struct Worker {
    evaluators: Vec<(String, PolicySettings)>,
}

impl Worker {
    /// The raw verdict of a policy, with the server's constraints applied:
    /// a policy may have tried to mutate while it is not allowed to, and a
    /// policy in `Monitor` mode never rejects.
    pub fn validation_response_with_constraints(
        policy_id: &str,
        policy_mode: &PolicyMode,
        allowed_to_mutate: bool,
        validation_response: AdmissionResponse,
    ) -> (r: AdmissionResponse)
        ensures
            r@ == projected_by_mode(
                policy_id@,
                *policy_mode,
                allowed_to_mutate,
                validation_response@,
            ),
    {
        match policy_mode {
            PolicyMode::Protect => {
                if validation_response.patch.is_some() && !allowed_to_mutate {
                    let r = AdmissionResponse {
                        uid: validation_response.uid,
                        allowed: false,
                        patch: None,
                        patch_type: None,
                        status: Some(AdmissionResponseStatus {
                            message: Some(rejection_message_for(policy_id)),
                            code: None,
                        }),
                    };
                    proof {
                        assert(r@ =~= projected_by_mode(
                            policy_id@,
                            *policy_mode,
                            allowed_to_mutate,
                            validation_response@,
                        ));
                    }
                    r
                } else {
                    validation_response
                }
            },
            PolicyMode::Monitor => {
                let r = AdmissionResponse {
                    uid: validation_response.uid,
                    allowed: true,
                    patch: None,
                    patch_type: None,
                    status: None,
                };
                proof {
                    assert(r@ =~= projected_by_mode(
                        policy_id@,
                        *policy_mode,
                        allowed_to_mutate,
                        validation_response@,
                    ));
                }
                r
            },
        }
    }

    /// The namespace override applied after the mode projection: force
    /// `allowed` when the request's namespace is the always-accepted one,
    /// keep everything else.
    pub fn with_namespace_override(
        accept_ns: &Option<String>,
        req_namespace: &Option<String>,
        response: AdmissionResponse,
    ) -> (r: AdmissionResponse)
        ensures
            r@ == namespace_override(accept_ns.deep_view(), req_namespace.deep_view(), response@),
    {
        let overridden: bool = match (accept_ns, req_namespace) {
            (Some(a), Some(n)) => *a == *n,
            _ => false,
        };
        if overridden {
            let r = AdmissionResponse {
                uid: response.uid,
                allowed: true,
                patch: response.patch,
                patch_type: response.patch_type,
                status: response.status,
            };
            proof {
                assert(r@ =~= namespace_override(
                    accept_ns.deep_view(),
                    req_namespace.deep_view(),
                    response@,
                ));
            }
            r
        } else {
            response
        }
    }
}

/// Law: in `Monitor` mode, whatever the raw verdict and the mutation
/// permission, the shaped response allows the request and carries no patch,
/// no patch type and no status.
pub proof fn lemma_monitor_always_allows(
    policy_id: Seq<char>,
    allowed_to_mutate: bool,
    raw: AdmissionResponseView,
    req_namespace: Option<Seq<char>>,
)
    ensures
        shape(policy_id, PolicyMode::Monitor, allowed_to_mutate, None, raw, req_namespace).allowed,
        shape(policy_id, PolicyMode::Monitor, allowed_to_mutate, None, raw, req_namespace).patch
            is None,
        shape(
            policy_id,
            PolicyMode::Monitor,
            allowed_to_mutate,
            None,
            raw,
            req_namespace,
        ).patch_type is None,
        shape(policy_id, PolicyMode::Monitor, allowed_to_mutate, None, raw, req_namespace).status
            is None,
{
}

/// Law: in `Protect` mode without mutation permission, a raw verdict without
/// a patch passes through the shaper unchanged.
pub proof fn lemma_protect_without_patch_is_identity(
    policy_id: Seq<char>,
    raw: AdmissionResponseView,
    req_namespace: Option<Seq<char>>,
)
    requires
        raw.patch is None,
    ensures
        shape(policy_id, PolicyMode::Protect, false, None, raw, req_namespace) == raw,
{
}

/// Law: in `Protect` mode without mutation permission, a raw verdict that
/// carries a patch becomes exactly the canonical rejection: not allowed, no
/// patch, no patch type, and a status holding the stable message and no code.
pub proof fn lemma_protect_rejects_disallowed_mutation(
    policy_id: Seq<char>,
    raw: AdmissionResponseView,
    req_namespace: Option<Seq<char>>,
)
    requires
        raw.patch is Some,
    ensures
        shape(policy_id, PolicyMode::Protect, false, None, raw, req_namespace)
            == (AdmissionResponseView {
            uid: raw.uid,
            allowed: false,
            patch: None,
            patch_type: None,
            status: Some(AdmissionResponseStatusView {
                message: Some(rejection_message(policy_id)),
                code: None,
            }),
        }),
{
}

/// Law: in `Protect` mode with mutation permission, every raw verdict passes
/// through the shaper unchanged.
pub proof fn lemma_protect_with_mutation_is_identity(
    policy_id: Seq<char>,
    raw: AdmissionResponseView,
    req_namespace: Option<Seq<char>>,
)
    ensures
        shape(policy_id, PolicyMode::Protect, true, None, raw, req_namespace) == raw,
{
}

/// Law: when the always-accepted namespace is set and the request comes from
/// exactly that namespace, the shaped response allows the request, whatever
/// the mode, the permission and the raw verdict.
pub proof fn lemma_namespace_override_allows(
    policy_id: Seq<char>,
    policy_mode: PolicyMode,
    allowed_to_mutate: bool,
    raw: AdmissionResponseView,
    ns: Seq<char>,
)
    ensures
        shape(policy_id, policy_mode, allowed_to_mutate, Some(ns), raw, Some(ns)).allowed,
{
}

/// Law: when the request's namespace differs from the always-accepted one,
/// the override has no effect: the result equals the shape computed with no
/// override configured at all.
pub proof fn lemma_namespace_override_inert_elsewhere(
    policy_id: Seq<char>,
    policy_mode: PolicyMode,
    allowed_to_mutate: bool,
    raw: AdmissionResponseView,
    accept_ns: Seq<char>,
    req_ns: Seq<char>,
)
    requires
        accept_ns != req_ns,
    ensures
        shape(policy_id, policy_mode, allowed_to_mutate, Some(accept_ns), raw, Some(req_ns))
            == shape(policy_id, policy_mode, allowed_to_mutate, None, raw, Some(req_ns)),
{
}

/// One display line of the build-error aggregate.
pub open spec fn error_line(policy: Seq<char>, error: Seq<char>) -> Seq<char> {
    "["@ + policy + ": "@ + error + "]"@
}

/// The entry recorded when one policy's evaluator cannot be built.
pub open spec fn build_failure_message(policy_id: Seq<char>, detail: Seq<char>) -> Seq<char> {
    "["@ + policy_id + "] could not create PolicyEvaluator: "@ + detail
}

/// The build errors of a worker, one entry per policy that could not get its
/// evaluator; the sentinel key `*` stands for an engine-level failure.
pub struct PolicyErrors(Vec<(String, String)>);

impl View for PolicyErrors {
    type V = Seq<(Seq<char>, Seq<char>)>;

    closed spec fn view(&self) -> Seq<(Seq<char>, Seq<char>)> {
        self.0.deep_view()
    }
}

impl PolicyErrors {
    /// The aggregate for a failure of the sandbox engine itself: one entry
    /// under the sentinel key.
    pub fn engine_failure(detail: &str) -> (r: PolicyErrors)
        ensures
            r@ == seq![("*"@, "Cannot create wasmtime::Engine: "@ + detail@)],
    {
        let mut msg = "Cannot create wasmtime::Engine: ".to_owned();
        msg.append(detail);
        let mut entries: Vec<(String, String)> = Vec::new();
        entries.push(("*".to_owned(), msg));
        let r = PolicyErrors(entries);
        proof {
            assert(r@ =~= seq![("*"@, "Cannot create wasmtime::Engine: "@ + detail@)]);
        }
        r
    }

    /// The one-line rendering of the aggregate: each entry as
    /// `[policy: error]`, the lines joined with `, `.
    pub fn to_display_string(&self) -> (r: String)
        ensures
            r@ == join_with(
                self@.map_values(|e: (Seq<char>, Seq<char>)| error_line(e.0, e.1)),
                ", "@,
            ),
    {
        let mut pieces: Vec<String> = Vec::new();
        let mut i: usize = 0;
        while i < self.0.len()
            invariant
                i <= self.0.len(),
                pieces.deep_view() == self@.take(i as int).map_values(
                    |e: (Seq<char>, Seq<char>)| error_line(e.0, e.1),
                ),
            decreases self.0.len() - i,
        {
            let mut line = "[".to_owned();
            line.append(self.0[i].0.as_str());
            line.append(": ");
            line.append(self.0[i].1.as_str());
            line.append("]");
            let ghost pieces_pre = pieces.deep_view();
            pieces.push(line);
            proof {
                assert(pieces.deep_view() =~= pieces_pre.push(
                    error_line(self@[i as int].0, self@[i as int].1),
                ));
                assert(pieces.deep_view() =~= self@.take(i as int + 1).map_values(
                    |e: (Seq<char>, Seq<char>)| error_line(e.0, e.1),
                ));
            }
            i += 1;
        }
        proof {
            assert(self@.take(self.0.len() as int) =~= self@);
        }
        join_strings(&pieces, ", ")
    }
}

/// The settings map a sequence of worker entries stands for.
pub open spec fn settings_map_of(entries: Seq<(String, PolicySettings)>) -> Map<
    Seq<char>,
    PolicySettingsView,
>
    decreases entries.len(),
{
    if entries.len() == 0 {
        Map::empty()
    } else {
        settings_map_of(entries.drop_last()).insert(entries.last().0@, entries.last().1@)
    }
}

/// The settings map that the successful entries of a build run stand for.
pub open spec fn ok_settings_map(builds: Seq<(String, Result<PolicySettings, String>)>) -> Map<
    Seq<char>,
    PolicySettingsView,
>
    decreases builds.len(),
{
    if builds.len() == 0 {
        Map::empty()
    } else {
        let rest = ok_settings_map(builds.drop_last());
        match builds.last().1 {
            Ok(s) => rest.insert(builds.last().0@, s@),
            Err(_) => rest,
        }
    }
}

/// The error entries of a build run, in build order.
pub open spec fn failure_entries(builds: Seq<(String, Result<PolicySettings, String>)>) -> Seq<
    (Seq<char>, Seq<char>),
>
    decreases builds.len(),
{
    if builds.len() == 0 {
        Seq::empty()
    } else {
        failure_entries(builds.drop_last()) + (match builds.last().1 {
            Ok(_) => Seq::empty(),
            Err(detail) => seq![
                (builds.last().0@, build_failure_message(builds.last().0@, detail@)),
            ],
        })
    }
}

/// The key belongs to one of the first `n` build entries.
spec fn key_from_prefix(
    key: Seq<char>,
    builds: Seq<(String, Result<PolicySettings, String>)>,
    n: int,
) -> bool {
    exists|b: int| 0 <= b < n && key == #[trigger] builds[b].0@
}

proof fn lemma_key_from_prefix_mono(
    key: Seq<char>,
    builds: Seq<(String, Result<PolicySettings, String>)>,
    n: int,
    m: int,
)
    requires
        key_from_prefix(key, builds, n),
        n <= m,
    ensures
        key_from_prefix(key, builds, m),
{
    let b = choose|b: int| 0 <= b < n && key == #[trigger] builds[b].0@;
    assert(0 <= b < m && key == builds[b].0@);
}

proof fn lemma_settings_map_contains(entries: Seq<(String, PolicySettings)>, i: int)
    requires
        0 <= i < entries.len(),
        forall|j: int, k: int|
            0 <= j < k < entries.len() ==> entries[j].0@ != entries[k].0@,
    ensures
        settings_map_of(entries).contains_key(entries[i].0@),
        settings_map_of(entries)[entries[i].0@] == entries[i].1@,
    decreases entries.len(),
{
    if i < entries.len() - 1 {
        lemma_settings_map_contains(entries.drop_last(), i);
        assert(entries.last().0@ != entries[i].0@);
    }
}

proof fn lemma_settings_map_absent(entries: Seq<(String, PolicySettings)>, key: Seq<char>)
    requires
        forall|j: int| 0 <= j < entries.len() ==> entries[j].0@ != key,
    ensures
        !settings_map_of(entries).contains_key(key),
    decreases entries.len(),
{
    if entries.len() > 0 {
        lemma_settings_map_absent(entries.drop_last(), key);
    }
}

/// Law: a build run fails exactly when some policy's evaluator could not be
/// built: the error aggregate is empty if and only if every build succeeded.
pub proof fn lemma_failure_entries_empty_iff_all_ok(
    builds: Seq<(String, Result<PolicySettings, String>)>,
)
    ensures
        failure_entries(builds).len() == 0 <==> (forall|i: int|
            0 <= i < builds.len() ==> builds[i].1 is Ok),
    decreases builds.len(),
{
    if builds.len() > 0 {
        lemma_failure_entries_empty_iff_all_ok(builds.drop_last());
        assert(builds.drop_last().len() == builds.len() - 1);
        if forall|i: int| 0 <= i < builds.len() ==> builds[i].1 is Ok {
            assert(forall|i: int|
                0 <= i < builds.drop_last().len() ==> builds.drop_last()[i].1 is Ok);
        }
        if failure_entries(builds).len() == 0 {
            assert forall|i: int| 0 <= i < builds.len() implies builds[i].1 is Ok by {
                if i < builds.len() - 1 {
                    assert(builds.drop_last()[i] == builds[i]);
                }
            }
        }
    }
}

/// Law: the shaper never touches the response's uid: the shaped response
/// echoes the uid of the raw verdict.
pub proof fn lemma_shape_preserves_uid(
    policy_id: Seq<char>,
    policy_mode: PolicyMode,
    allowed_to_mutate: bool,
    accept_ns: Option<Seq<char>>,
    raw: AdmissionResponseView,
    req_namespace: Option<Seq<char>>,
)
    ensures
        shape(policy_id, policy_mode, allowed_to_mutate, accept_ns, raw, req_namespace).uid
            == raw.uid,
{
}

impl View for Worker {
    type V = Map<Seq<char>, PolicySettingsView>;

    closed spec fn view(&self) -> Map<Seq<char>, PolicySettingsView> {
        settings_map_of(self.evaluators@)
    }
}

impl Worker {
    /// Policy ids are unique within a worker.
    pub closed spec fn wf(&self) -> bool {
        forall|j: int, k: int|
            0 <= j < k < self.evaluators@.len() ==> self.evaluators@[j].0@
                != self.evaluators@[k].0@
    }

    /// Builds a worker from one build attempt per configured policy: the id
    /// and, for each, either the settings to keep beside the fresh evaluator
    /// or the failure detail. The worker exists only if every build
    /// succeeded; otherwise the aggregate holds one entry per failed policy.
    pub fn new(builds: Vec<(String, Result<PolicySettings, String>)>) -> (r: Result<
        Worker,
        PolicyErrors,
    >)
        requires
            forall|j: int, k: int|
                0 <= j < k < builds@.len() ==> builds@[j].0@ != builds@[k].0@,
        ensures
            match r {
                Ok(w) => failure_entries(builds@).len() == 0 && w.wf() && w@ == ok_settings_map(
                    builds@,
                ),
                Err(e) => failure_entries(builds@).len() > 0 && e@ == failure_entries(builds@),
            },
    {
        let mut evs: Vec<(String, PolicySettings)> = Vec::new();
        let mut errs: Vec<(String, String)> = Vec::new();
        let mut i: usize = 0;
        while i < builds.len()
            invariant
                i <= builds@.len(),
                forall|j: int, k: int|
                    0 <= j < k < builds@.len() ==> builds@[j].0@ != builds@[k].0@,
                settings_map_of(evs@) == ok_settings_map(builds@.take(i as int)),
                errs.deep_view() == failure_entries(builds@.take(i as int)),
                forall|j: int, k: int|
                    0 <= j < k < evs@.len() ==> evs@[j].0@ != evs@[k].0@,
                forall|j: int|
                    0 <= j < evs@.len() ==> key_from_prefix(
                        (#[trigger] evs@[j]).0@,
                        builds@,
                        i as int,
                    ),
            decreases builds@.len() - i,
        {
            let ghost evs_pre = evs@;
            let ghost errs_pre = errs.deep_view();
            match &builds[i].1 {
                Ok(s) => {
                    let entry = (builds[i].0.clone(), s.duplicate());
                    proof {
                        assert(entry.0@ == builds@[i as int].0@);
                        assert forall|j: int| 0 <= j < evs_pre.len() implies evs_pre[j].0@
                            != entry.0@ by {
                            let b = choose|b: int|
                                0 <= b < i && evs_pre[j].0@ == #[trigger] builds@[b].0@;
                            assert(builds@[b].0@ != builds@[i as int].0@);
                        }
                    }
                    evs.push(entry);
                    proof {
                        assert forall|j: int| 0 <= j < evs@.len() implies key_from_prefix(
                            (#[trigger] evs@[j]).0@,
                            builds@,
                            i as int + 1,
                        ) by {
                            if j < evs_pre.len() {
                                lemma_key_from_prefix_mono(
                                    evs_pre[j].0@,
                                    builds@,
                                    i as int,
                                    i as int + 1,
                                );
                            } else {
                                assert(evs@[j].0@ == builds@[i as int].0@);
                            }
                        }
                        assert(evs@.drop_last() =~= evs_pre);
                        assert(builds@.take(i as int + 1).drop_last() =~= builds@.take(i as int));
                        assert(builds@.take(i as int + 1).last() == builds@[i as int]);
                        assert(settings_map_of(evs@) == ok_settings_map(
                            builds@.take(i as int + 1),
                        ));
                        assert(errs.deep_view() =~= failure_entries(builds@.take(i as int + 1)));
                    }
                },
                Err(d) => {
                    let mut msg = "[".to_owned();
                    msg.append(builds[i].0.as_str());
                    msg.append("] could not create PolicyEvaluator: ");
                    msg.append(d.as_str());
                    errs.push((builds[i].0.clone(), msg));
                    proof {
                        assert(builds@.take(i as int + 1).drop_last() =~= builds@.take(i as int));
                        assert(builds@.take(i as int + 1).last() == builds@[i as int]);
                        assert(errs.deep_view() =~= errs_pre.push(
                            (
                                builds@[i as int].0@,
                                build_failure_message(builds@[i as int].0@, builds@[i as int].1->Err_0@),
                            ),
                        ));
                        assert(errs.deep_view() =~= failure_entries(builds@.take(i as int + 1)));
                    }
                },
            }
            i += 1;
        }
        proof {
            assert(builds@.take(builds@.len() as int) =~= builds@);
        }
        if errs.len() > 0 {
            Err(PolicyErrors(errs))
        } else {
            Ok(Worker { evaluators: evs })
        }
    }

    /// Looks the requested policy up in this worker's map. `None` stands for
    /// the "policy not known" reply: the caller sends that signal at once,
    /// and no evaluator runs for the request.
    pub fn route(&self, policy_id: &String) -> (r: Option<&PolicySettings>)
        requires
            self.wf(),
        ensures
            match r {
                Some(s) => self@.contains_key(policy_id@) && s@ == self@[policy_id@],
                None => !self@.contains_key(policy_id@),
            },
    {
        let mut i: usize = 0;
        while i < self.evaluators.len()
            invariant
                self.wf(),
                i <= self.evaluators.len(),
                forall|j: int| 0 <= j < i ==> self.evaluators@[j].0@ != policy_id@,
            decreases self.evaluators.len() - i,
        {
            if self.evaluators[i].0 == *policy_id {
                proof {
                    lemma_settings_map_contains(self.evaluators@, i as int);
                }
                return Some(&self.evaluators[i].1);
            }
            i += 1;
        }
        proof {
            lemma_settings_map_absent(self.evaluators@, policy_id@);
        }
        None
    }
}

/// What the outside steps of one evaluation handed back: the admission
/// request could not be serialized, the evaluator crashed, or it returned a
/// raw verdict.
pub enum EvaluationOutcome {
    SerializationFailure(String),
    EvaluatorFailure(String),
    Verdict(AdmissionResponse),
}

pub enum EvaluationOutcomeView {
    SerializationFailure(Seq<char>),
    EvaluatorFailure(Seq<char>),
    Verdict(AdmissionResponseView),
}

impl View for EvaluationOutcome {
    type V = EvaluationOutcomeView;

    open spec fn view(&self) -> EvaluationOutcomeView {
        match self {
            EvaluationOutcome::SerializationFailure(d) => EvaluationOutcomeView::SerializationFailure(
                d@,
            ),
            EvaluationOutcome::EvaluatorFailure(d) => EvaluationOutcomeView::EvaluatorFailure(d@),
            EvaluationOutcome::Verdict(r) => EvaluationOutcomeView::Verdict(r@),
        }
    }
}

/// The response sent back for one evaluation of a known policy: a synthetic
/// rejection with code 400 when the request could not be serialized, a
/// synthetic rejection with code 500 when the evaluator crashed, and the
/// shaped verdict otherwise.
pub open spec fn response_for(
    policy_id: Seq<char>,
    settings: PolicySettingsView,
    req: AdmissionRequestView,
    outcome: EvaluationOutcomeView,
) -> AdmissionResponseView {
    match outcome {
        EvaluationOutcomeView::SerializationFailure(detail) => AdmissionResponseView {
            uid: policy_id,
            allowed: false,
            patch: None,
            patch_type: None,
            status: Some(AdmissionResponseStatusView {
                message: Some("Failed to serialize AdmissionReview: "@ + detail),
                code: Some(400),
            }),
        },
        EvaluationOutcomeView::EvaluatorFailure(detail) => AdmissionResponseView {
            uid: policy_id,
            allowed: false,
            patch: None,
            patch_type: None,
            status: Some(AdmissionResponseStatusView { message: Some(detail), code: Some(500) }),
        },
        EvaluationOutcomeView::Verdict(raw) => shape(
            policy_id,
            settings.policy_mode,
            settings.allowed_to_mutate,
            settings.always_accept_admission_reviews_on_namespace,
            raw,
            req.namespace,
        ),
    }
}

/// The metric labels recorded for one evaluation: the raw verdict before
/// shaping decides `accepted`, `mutated` and `error_code`; the synthetic
/// failures count as evaluations with their own codes.
pub open spec fn evaluation_record_for(
    policy_id: Seq<char>,
    settings: PolicySettingsView,
    req: AdmissionRequestView,
    outcome: EvaluationOutcomeView,
) -> PolicyEvaluationView {
    PolicyEvaluationView {
        policy_name: policy_id,
        policy_mode: settings.policy_mode,
        resource_namespace: req.namespace,
        resource_kind: match req.request_kind {
            Some(k) => k.kind,
            None => Seq::empty(),
        },
        resource_request_operation: req.operation,
        accepted: match outcome {
            EvaluationOutcomeView::Verdict(raw) => raw.allowed,
            _ => false,
        },
        mutated: match outcome {
            EvaluationOutcomeView::Verdict(raw) => raw.patch is Some,
            _ => false,
        },
        error_code: match outcome {
            EvaluationOutcomeView::SerializationFailure(_) => Some(400u16),
            EvaluationOutcomeView::EvaluatorFailure(_) => Some(500u16),
            EvaluationOutcomeView::Verdict(raw) => match raw.status {
                Some(s) => s.code,
                None => None,
            },
        },
    }
}

impl Worker {
    /// Finishes one evaluation of a known policy: the reply to send on the
    /// request's sink, and the record for the metrics registry.
    pub fn complete_evaluation(
        policy_id: &String,
        settings: &PolicySettings,
        req: &AdmissionRequest,
        outcome: EvaluationOutcome,
    ) -> (r: (AdmissionResponse, PolicyEvaluation))
        ensures
            r.0@ == response_for(policy_id@, settings@, req@, outcome@),
            r.1@ == evaluation_record_for(policy_id@, settings@, req@, outcome@),
    {
        let ghost outcome_view = outcome@;
        let (response, accepted, mutated, error_code): (
            AdmissionResponse,
            bool,
            bool,
            Option<u16>,
        ) = match outcome {
            EvaluationOutcome::SerializationFailure(detail) => {
                let mut msg = "Failed to serialize AdmissionReview: ".to_owned();
                msg.append(detail.as_str());
                (AdmissionResponse::reject(policy_id.clone(), msg, 400), false, false, Some(400u16))
            },
            EvaluationOutcome::EvaluatorFailure(detail) => {
                (
                    AdmissionResponse::reject(policy_id.clone(), detail, 500),
                    false,
                    false,
                    Some(500u16),
                )
            },
            EvaluationOutcome::Verdict(raw) => {
                let accepted = raw.allowed;
                let mutated = raw.patch.is_some();
                let error_code: Option<u16> = match &raw.status {
                    Some(s) => s.code,
                    None => None,
                };
                let shaped = Worker::validation_response_with_constraints(
                    policy_id.as_str(),
                    &settings.policy_mode,
                    settings.allowed_to_mutate,
                    raw,
                );
                let final_response = Worker::with_namespace_override(
                    &settings.always_accept_admission_reviews_on_namespace,
                    &req.namespace,
                    shaped,
                );
                (final_response, accepted, mutated, error_code)
            },
        };
        proof {
            assert(response@ =~= response_for(policy_id@, settings@, req@, outcome_view));
        }
        let resource_namespace: Option<String> = match &req.namespace {
            Some(n) => Some(n.clone()),
            None => None,
        };
        let resource_kind: String = match &req.request_kind {
            Some(k) => k.kind.clone(),
            None => String::new(),
        };
        let record = PolicyEvaluation {
            policy_name: policy_id.clone(),
            policy_mode: settings.policy_mode,
            resource_namespace,
            resource_kind,
            resource_request_operation: req.operation.clone(),
            accepted,
            mutated,
            error_code,
        };
        proof {
            assert(record@ =~= evaluation_record_for(policy_id@, settings@, req@, outcome_view));
        }
        (response, record)
    }
}

/// The single reply a worker sends for one dequeued request: the "policy not
/// known" signal (`None`) exactly when the policy id is absent from its map,
/// and the response of the evaluation otherwise.
pub open spec fn reply_spec(
    evaluators: Map<Seq<char>, PolicySettingsView>,
    req: EvalRequestView,
    outcome: EvaluationOutcomeView,
) -> Option<AdmissionResponseView> {
    if evaluators.contains_key(req.policy_id) {
        Some(response_for(req.policy_id, evaluators[req.policy_id], req.req, outcome))
    } else {
        None
    }
}

/// Law: every dequeued request is answered by exactly one reply, fully
/// determined by the worker's map, the request and the outcome of the outside
/// steps: the "policy not known" signal exactly when the policy id is absent
/// — in which case no evaluator runs — and exactly one evaluation response
/// otherwise.
pub proof fn lemma_one_reply_per_request(
    evaluators: Map<Seq<char>, PolicySettingsView>,
    req: EvalRequestView,
    outcome: EvaluationOutcomeView,
)
    ensures
        reply_spec(evaluators, req, outcome) is None <==> !evaluators.contains_key(req.policy_id),
        evaluators.contains_key(req.policy_id) ==> reply_spec(evaluators, req, outcome) == Some(
            response_for(req.policy_id, evaluators[req.policy_id], req.req, outcome),
        ),
{
}

} // verus!
