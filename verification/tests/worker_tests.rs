use policy_server::admission::{
    AdmissionRequest, AdmissionResponse, AdmissionResponseStatus, GroupVersionKind,
    GroupVersionResource,
};
use policy_server::settings::{PolicyMode, PolicySettings};
use policy_server::worker::{EvaluationOutcome, Worker};

const POLICY_ID: &str = "policy-id";

#[test]
fn validation_response_with_constraints_not_allowed_to_mutate() {
    let rejection_response = AdmissionResponse {
        allowed: false,
        patch: None,
        patch_type: None,
        status: Some(AdmissionResponseStatus {
            message: Some("Request rejected by policy policy-id. The policy attempted to mutate the request, but it is currently configured to not allow mutations.".to_string()),
            ..Default::default()
        }),
        ..Default::default()
    };
    let accept_response = AdmissionResponse {
        allowed: true,
        ..Default::default()
    };

    assert_eq!(
        Worker::validation_response_with_constraints(
            POLICY_ID,
            &PolicyMode::Protect,
            false,
            AdmissionResponse {
                allowed: true,
                patch: Some("patch".to_string()),
                patch_type: Some("application/json-patch+json".to_string()),
                ..Default::default()
            },
        ),
        rejection_response,
    );

    assert_eq!(
        Worker::validation_response_with_constraints(
            POLICY_ID,
            &PolicyMode::Monitor,
            false,
            AdmissionResponse {
                allowed: true,
                patch: Some("patch".to_string()),
                patch_type: Some("application/json-patch+json".to_string()),
                ..Default::default()
            },
        ),
        accept_response,
    );
}

#[test]
fn validation_response_with_constraints_monitor_mode() {
    let admission_response = AdmissionResponse {
        allowed: true,
        ..Default::default()
    };

    assert_eq!(
        Worker::validation_response_with_constraints(
            POLICY_ID,
            &PolicyMode::Monitor,
            true,
            AdmissionResponse {
                allowed: true,
                patch: Some("patch".to_string()),
                patch_type: Some("application/json-patch+json".to_string()),
                ..Default::default()
            },
        ),
        admission_response,
        "Mutated request from a policy allowed to mutate should be accepted in monitor mode"
    );

    assert_eq!(
        Worker::validation_response_with_constraints(
            POLICY_ID,
            &PolicyMode::Monitor,
            false,
            AdmissionResponse {
                allowed: true,
                patch: Some("patch".to_string()),
                patch_type: Some("application/json-patch+json".to_string()),
                ..Default::default()
            },
        ),
        admission_response, "Mutated request from a policy not allowed to mutate should be accepted in monitor mode"
    );

    assert_eq!(
        Worker::validation_response_with_constraints(
            POLICY_ID,
            &PolicyMode::Monitor,
            true,
            AdmissionResponse {
                allowed: true,
                ..Default::default()
            },
        ),
        admission_response,
        "Accepted request from a policy allowed to mutate should be accepted in monitor mode"
    );

    assert_eq!(
        Worker::validation_response_with_constraints(
            POLICY_ID,
            &PolicyMode::Monitor,
            true,
            AdmissionResponse {
                allowed: false,
                status: Some(AdmissionResponseStatus {
                    message: Some("some rejection message".to_string()),
                    code: Some(500),
                }),
                ..Default::default()
            },
        ),
        admission_response, "Not accepted request from a policy allowed to mutate should be accepted in monitor mode"
    );

    assert_eq!(
        Worker::validation_response_with_constraints(
            POLICY_ID,
            &PolicyMode::Monitor,
            false,
            AdmissionResponse {
                allowed: true,
                ..Default::default()
            },
        ),
        admission_response, "Accepted request from a policy not allowed to mutate should be accepted in monitor mode"
    );

    assert_eq!(
        Worker::validation_response_with_constraints(
            POLICY_ID,
            &PolicyMode::Monitor,
            false,
            AdmissionResponse {
                allowed: false,
                status: Some(AdmissionResponseStatus {
                    message: Some("some rejection message".to_string()),
                    code: Some(500),
                }),
                ..Default::default()
            },
        ),
        admission_response, "Not accepted request from a policy not allowed to mutate should be accepted in monitor mode"
    );
}

#[test]
fn validation_response_with_constraints_protect_mode() {
    let admission_response = AdmissionResponse {
        allowed: true,
        ..Default::default()
    };

    assert_eq!(
        Worker::validation_response_with_constraints(
            POLICY_ID,
            &PolicyMode::Protect,
            true,
            AdmissionResponse {
                allowed: true,
                patch: Some("patch".to_string()),
                patch_type: Some("application/json-patch+json".to_string()),
                ..Default::default()
            },
        ),
        AdmissionResponse {
            allowed: true,
            patch: Some("patch".to_string()),
            patch_type: Some("application/json-patch+json".to_string()),
            ..Default::default()
        },
        "Mutated request from a policy allowed to mutate should be accepted in protect mode"
    );

    assert_eq!(
        Worker::validation_response_with_constraints(
            POLICY_ID,
            &PolicyMode::Protect,
            false,
            AdmissionResponse {
                allowed: true,
                patch: Some("patch".to_string()),
                patch_type: Some("application/json-patch+json".to_string()),
                ..Default::default()
            },
        ),
        AdmissionResponse {
        allowed: false,
        patch: None,
        patch_type: None,
        status: Some(AdmissionResponseStatus {
            message: Some("Request rejected by policy policy-id. The policy attempted to mutate the request, but it is currently configured to not allow mutations.".to_string()),
            ..Default::default()
        }),
        ..Default::default()
    },
        "Mutated request from a policy not allowed to mutate should be reject in protect mode"
    );

    assert_eq!(
        Worker::validation_response_with_constraints(
            POLICY_ID,
            &PolicyMode::Protect,
            true,
            AdmissionResponse {
                allowed: true,
                ..Default::default()
            },
        ),
        admission_response,
        "Accepted request from a policy allowed to mutate should be accepted in protect mode"
    );

    assert_eq!(
        Worker::validation_response_with_constraints(
            POLICY_ID,
            &PolicyMode::Protect,
            true,
            AdmissionResponse {
                allowed: false,
                status: Some(AdmissionResponseStatus {
                    message: Some("some rejection message".to_string()),
                    code: Some(500),
                }),
                ..Default::default()
            },
        ),
        AdmissionResponse {
                allowed: false,
                status: Some(AdmissionResponseStatus {
                    message: Some("some rejection message".to_string()),
                    code: Some(500),
                }),
                ..Default::default()
            }, "Not accepted request from a policy allowed to mutate should be rejected in protect mode"
    );

    assert_eq!(
        Worker::validation_response_with_constraints(
            POLICY_ID,
            &PolicyMode::Protect,
            false,
            AdmissionResponse {
                allowed: true,
                ..Default::default()
            },
        ),
        admission_response, "Accepted request from a policy not allowed to mutate should be accepted in protect mode"
    );

    assert_eq!(
        Worker::validation_response_with_constraints(
            POLICY_ID,
            &PolicyMode::Protect,
            false,
            AdmissionResponse {
                allowed: false,
                status: Some(AdmissionResponseStatus {
                    message: Some("some rejection message".to_string()),
                    code: Some(500),
                }),
                ..Default::default()
            },
        ),
        AdmissionResponse {
                allowed: false,
                status: Some(AdmissionResponseStatus {
                    message: Some("some rejection message".to_string()),
                    code: Some(500),
                }),
                ..Default::default()
            }, "Not accepted request from a policy not allowed to mutate should be rejected in protect mode"
    );
}

fn settings(
    mode: PolicyMode,
    allowed_to_mutate: bool,
    accept_ns: Option<&str>,
) -> PolicySettings {
    PolicySettings {
        policy_mode: mode,
        allowed_to_mutate,
        always_accept_admission_reviews_on_namespace: accept_ns.map(|s| s.to_string()),
    }
}

#[test]
fn worker_new_collects_build_failures() {
    let builds = vec![
        ("good".to_string(), Ok(settings(PolicyMode::Protect, false, None))),
        ("bad".to_string(), Err("no such artifact".to_string())),
        ("worse".to_string(), Err("corrupt module".to_string())),
    ];
    let errors = Worker::new(builds).err().expect("the build must fail");
    assert_eq!(
        errors.to_display_string(),
        "[bad: [bad] could not create PolicyEvaluator: no such artifact], \
         [worse: [worse] could not create PolicyEvaluator: corrupt module]"
    );
}

#[test]
fn worker_new_succeeds_when_every_build_does() {
    let builds = vec![
        ("a".to_string(), Ok(settings(PolicyMode::Protect, true, None))),
        ("b".to_string(), Ok(settings(PolicyMode::Monitor, false, None))),
    ];
    let worker = Worker::new(builds).ok().expect("the build must succeed");
    assert!(worker.route(&"a".to_string()).is_some());
    assert!(worker.route(&"b".to_string()).is_some());
    assert!(worker.route(&"c".to_string()).is_none());
}

#[test]
fn route_unknown_policy_yields_not_known_without_evaluation() {
    let builds = vec![("known".to_string(), Ok(settings(PolicyMode::Protect, false, None)))];
    let worker = Worker::new(builds).ok().unwrap();
    assert!(worker.route(&"unknown".to_string()).is_none());
    let found = worker.route(&"known".to_string()).expect("known policy must route");
    assert_eq!(found.allowed_to_mutate, false);
}

fn plain_request(namespace: Option<&str>) -> AdmissionRequest {
    AdmissionRequest {
        uid: "U1".to_string(),
        kind: GroupVersionKind {
            group: "apps".to_string(),
            version: "v1".to_string(),
            kind: "Deployment".to_string(),
        },
        resource: GroupVersionResource {
            group: "apps".to_string(),
            version: "v1".to_string(),
            resource: "deployments".to_string(),
        },
        sub_resource: None,
        name: Some("nginx".to_string()),
        namespace: namespace.map(|s| s.to_string()),
        operation: "CREATE".to_string(),
        request_kind: Some(GroupVersionKind {
            group: "apps".to_string(),
            version: "v1".to_string(),
            kind: "Deployment".to_string(),
        }),
    }
}

#[test]
fn complete_evaluation_protect_rejects_disallowed_patch() {
    let raw = AdmissionResponse {
        uid: "U1".to_string(),
        allowed: true,
        patch: Some("P".to_string()),
        patch_type: Some("application/json-patch+json".to_string()),
        status: None,
    };
    let (response, record) = Worker::complete_evaluation(
        &"psp-caps".to_string(),
        &settings(PolicyMode::Protect, false, None),
        &plain_request(Some("dev")),
        EvaluationOutcome::Verdict(raw),
    );
    assert_eq!(response.uid, "U1");
    assert!(!response.allowed);
    assert_eq!(response.patch, None);
    assert_eq!(response.patch_type, None);
    let status = response.status.unwrap();
    assert_eq!(
        status.message.unwrap(),
        "Request rejected by policy psp-caps. The policy attempted to mutate the request, \
         but it is currently configured to not allow mutations."
    );
    assert_eq!(status.code, None);
    assert!(record.accepted);
    assert!(record.mutated);
    assert_eq!(record.error_code, None);
    assert_eq!(record.policy_name, "psp-caps");
    assert_eq!(record.resource_namespace, Some("dev".to_string()));
    assert_eq!(record.resource_kind, "Deployment");
    assert_eq!(record.resource_request_operation, "CREATE");
}

#[test]
fn complete_evaluation_protect_keeps_patch_when_allowed() {
    let raw = AdmissionResponse {
        uid: "U1".to_string(),
        allowed: true,
        patch: Some("P".to_string()),
        patch_type: Some("application/json-patch+json".to_string()),
        status: None,
    };
    let (response, _) = Worker::complete_evaluation(
        &"psp-caps".to_string(),
        &settings(PolicyMode::Protect, true, None),
        &plain_request(Some("dev")),
        EvaluationOutcome::Verdict(raw.clone()),
    );
    assert_eq!(response, raw);
}

#[test]
fn complete_evaluation_monitor_always_allows() {
    let raw = AdmissionResponse {
        uid: "U1".to_string(),
        allowed: false,
        patch: None,
        patch_type: None,
        status: Some(AdmissionResponseStatus {
            message: Some("bad".to_string()),
            code: Some(500),
        }),
    };
    let (response, record) = Worker::complete_evaluation(
        &"psp-caps".to_string(),
        &settings(PolicyMode::Monitor, false, None),
        &plain_request(Some("dev")),
        EvaluationOutcome::Verdict(raw),
    );
    assert_eq!(response.uid, "U1");
    assert!(response.allowed);
    assert_eq!(response.patch, None);
    assert_eq!(response.status, None);
    assert!(!record.accepted);
    assert!(!record.mutated);
    assert_eq!(record.error_code, Some(500));
}

#[test]
fn complete_evaluation_namespace_override_forces_allowed() {
    let raw = AdmissionResponse {
        uid: "U1".to_string(),
        allowed: false,
        patch: None,
        patch_type: None,
        status: Some(AdmissionResponseStatus { message: Some("no".to_string()), code: None }),
    };
    let (response, _) = Worker::complete_evaluation(
        &"psp-caps".to_string(),
        &settings(PolicyMode::Protect, false, Some("kube-system")),
        &plain_request(Some("kube-system")),
        EvaluationOutcome::Verdict(raw),
    );
    assert_eq!(response.uid, "U1");
    assert!(response.allowed);
    assert_eq!(
        response.status,
        Some(AdmissionResponseStatus { message: Some("no".to_string()), code: None })
    );
}

#[test]
fn complete_evaluation_namespace_override_ignores_other_namespaces() {
    let raw = AdmissionResponse {
        uid: "U1".to_string(),
        allowed: false,
        patch: None,
        patch_type: None,
        status: Some(AdmissionResponseStatus { message: Some("no".to_string()), code: None }),
    };
    let (response, _) = Worker::complete_evaluation(
        &"psp-caps".to_string(),
        &settings(PolicyMode::Protect, false, Some("kube-system")),
        &plain_request(Some("dev")),
        EvaluationOutcome::Verdict(raw.clone()),
    );
    assert_eq!(response, raw);
}

#[test]
fn complete_evaluation_serialization_failure_rejects_with_400() {
    let (response, record) = Worker::complete_evaluation(
        &"psp-caps".to_string(),
        &settings(PolicyMode::Protect, false, None),
        &plain_request(Some("dev")),
        EvaluationOutcome::SerializationFailure("unexpected end of input".to_string()),
    );
    assert!(!response.allowed);
    let status = response.status.unwrap();
    assert_eq!(
        status.message.unwrap(),
        "Failed to serialize AdmissionReview: unexpected end of input"
    );
    assert_eq!(status.code, Some(400));
    assert!(!record.accepted);
    assert!(!record.mutated);
    assert_eq!(record.error_code, Some(400));
}

#[test]
fn complete_evaluation_evaluator_failure_rejects_with_500() {
    let (response, record) = Worker::complete_evaluation(
        &"psp-caps".to_string(),
        &settings(PolicyMode::Monitor, false, None),
        &plain_request(None),
        EvaluationOutcome::EvaluatorFailure("guest trap".to_string()),
    );
    assert!(!response.allowed);
    let status = response.status.unwrap();
    assert_eq!(status.message.unwrap(), "guest trap");
    assert_eq!(status.code, Some(500));
    assert_eq!(record.error_code, Some(500));
    assert_eq!(record.resource_namespace, None);
}

#[test]
fn engine_failure_uses_the_sentinel_key() {
    let errors = policy_server::worker::PolicyErrors::engine_failure("bad configuration");
    assert_eq!(
        errors.to_display_string(),
        "[*: Cannot create wasmtime::Engine: bad configuration]"
    );
}
