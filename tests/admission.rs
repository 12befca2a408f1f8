use mutilator::aiven_object::{AivenObject, DynamicObject, ObjectMeta};
use mutilator::aiven_types::aiven_redis::{Redis, RedisSpec};
use mutilator::json::JsonValue;
use mutilator::patch::{PatchOperation, PatchValue};
use mutilator::settings::{parse_otel, AppConfig, LogFormat, LogLevel, Tenant, WebConfig};
use mutilator::web::{
    bad_request, is_allowed_kind, mutate, mutate_handler, AdmissionOutcome, AdmissionRequest,
    Operation,
};

fn config() -> AppConfig {
    AppConfig {
        log_format: LogFormat::Plain,
        log_level: LogLevel::default(),
        web: WebConfig {
            bind_address: "0.0.0.0:9443".to_string(),
            certificate_path: None,
            private_key_path: None,
        },
        tenant: Tenant {
            environment: "prod".to_string(),
            name: "acme".to_string(),
        },
        project_vpc_id: "vpc-1".to_string(),
        location: "eu-north1".to_string(),
        otel_enabled: false,
    }
}

fn text(s: &str) -> JsonValue {
    JsonValue::String(s.to_string())
}

fn entries(items: &[(&str, &str)]) -> JsonValue {
    JsonValue::Object(items.iter().map(|(k, v)| (k.to_string(), text(v))).collect())
}

fn resource(namespace: Option<&str>, spec: Vec<(&str, JsonValue)>) -> DynamicObject {
    DynamicObject {
        metadata: ObjectMeta {
            name: Some("cache".to_string()),
            namespace: namespace.map(|s| s.to_string()),
        },
        data: JsonValue::Object(vec![(
            "spec".to_string(),
            JsonValue::Object(spec.into_iter().map(|(k, v)| (k.to_string(), v)).collect()),
        )]),
    }
}

fn request(kind: &str, operation: Operation, object: Option<DynamicObject>) -> AdmissionRequest {
    AdmissionRequest {
        uid: "705ab4f5-6393-11e8-b7cc-42010a800002".to_string(),
        kind: kind.to_string(),
        operation,
        object,
    }
}

fn add(path: &str, value: PatchValue) -> PatchOperation {
    PatchOperation::Add { path: path.to_string(), value }
}

fn replace(path: &str, value: PatchValue) -> PatchOperation {
    PatchOperation::Replace { path: path.to_string(), value }
}

fn string(s: &str) -> PatchValue {
    PatchValue::String(s.to_string())
}

fn allowed_patch(outcome: AdmissionOutcome) -> Vec<PatchOperation> {
    match outcome {
        AdmissionOutcome::Allowed { patch } => patch,
        other => panic!("expected an allowed outcome, got {:?}", other),
    }
}

fn complete_spec() -> Vec<(&'static str, JsonValue)> {
    vec![
        ("tags", entries(&[("environment", "prod"), ("tenant", "acme"), ("team", "team-x")])),
        ("terminationProtection", JsonValue::Bool(true)),
        ("projectVpcId", text("vpc-1")),
        ("cloudName", text("google-eu-north1")),
    ]
}

#[test]
fn bare_resource_gets_every_field() {
    let obj = resource(Some("team-x"), vec![("plan", text("startup-4"))]);
    let outcome = mutate_handler(&config(), Some(request("Valkey", Operation::Create, Some(obj))));
    assert_eq!(outcome.status_code(), 200);
    assert_eq!(
        allowed_patch(outcome),
        vec![
            add("/spec/projectVpcId", string("vpc-1")),
            add("/spec/terminationProtection", PatchValue::Bool(true)),
            add(
                "/spec/tags",
                PatchValue::Object(vec![
                    ("environment".to_string(), "prod".to_string()),
                    ("tenant".to_string(), "acme".to_string()),
                    ("team".to_string(), "team-x".to_string()),
                ])
            ),
            add("/spec/cloudName", string("google-eu-north1")),
        ]
    );
}

#[test]
fn compliant_resource_only_reasserts_placement() {
    let obj = resource(Some("team-x"), complete_spec());
    let outcome = mutate_handler(&config(), Some(request("Valkey", Operation::Update, Some(obj))));
    assert_eq!(
        allowed_patch(outcome),
        vec![replace("/spec/cloudName", string("google-eu-north1"))]
    );
}

#[test]
fn wrong_environment_tag() {
    let obj = resource(Some("team-x"), vec![("tags", entries(&[("environment", "wrong")]))]);
    let outcome =
        mutate_handler(&config(), Some(request("OpenSearch", Operation::Create, Some(obj))));
    assert_eq!(
        allowed_patch(outcome),
        vec![
            add("/spec/projectVpcId", string("vpc-1")),
            add("/spec/terminationProtection", PatchValue::Bool(true)),
            replace("/spec/tags/environment", string("prod")),
            add("/spec/tags/tenant", string("acme")),
            add("/spec/tags/team", string("team-x")),
            add("/spec/cloudName", string("google-eu-north1")),
        ]
    );
}

#[test]
fn malformed_envelope_is_bad_request() {
    let outcome = mutate_handler(&config(), None);
    assert_eq!(outcome.status_code(), 400);
    assert!(!outcome.allowed());
    assert_eq!(outcome, AdmissionOutcome::Invalid { reason: "missing request".to_string() });
}

#[test]
fn delete_is_allowed_without_patch() {
    let obj = resource(Some("team-x"), vec![]);
    let outcome = mutate_handler(&config(), Some(request("Valkey", Operation::Delete, Some(obj))));
    assert_eq!(outcome.status_code(), 200);
    assert!(outcome.allowed());
    assert!(allowed_patch(outcome).is_empty());
}

#[test]
fn connect_and_unmanaged_kinds_pass_through() {
    let outcome = mutate_handler(
        &config(),
        Some(request("Valkey", Operation::Connect, Some(resource(Some("team-x"), vec![])))),
    );
    assert!(allowed_patch(outcome).is_empty());
    let outcome = mutate_handler(
        &config(),
        Some(request("Kafka", Operation::Create, Some(resource(Some("team-x"), vec![])))),
    );
    assert!(allowed_patch(outcome).is_empty());
    let outcome = mutate_handler(&config(), Some(request("Kafka", Operation::Create, None)));
    assert!(allowed_patch(outcome).is_empty());
}

#[test]
fn managed_kinds() {
    assert!(is_allowed_kind(&"Valkey".to_string()));
    assert!(is_allowed_kind(&"OpenSearch".to_string()));
    assert!(!is_allowed_kind(&"Redis".to_string()));
    assert!(!is_allowed_kind(&"valkey".to_string()));
}

#[test]
fn missing_object_is_denied() {
    let outcome = mutate_handler(&config(), Some(request("Valkey", Operation::Create, None)));
    assert_eq!(outcome.status_code(), 200);
    assert_eq!(outcome, AdmissionOutcome::Denied { reason: "no object specified".to_string() });
}

#[test]
fn missing_namespace_is_denied() {
    let obj = resource(None, vec![]);
    let outcome = mutate_handler(&config(), Some(request("Valkey", Operation::Create, Some(obj))));
    assert_eq!(outcome.status_code(), 200);
    assert_eq!(
        outcome,
        AdmissionOutcome::Denied {
            reason: "resource has no namespace to take the team tag from".to_string()
        }
    );
}

fn fixture_config() -> AppConfig {
    let mut c = config();
    c.tenant.environment = "test-tenant-env".to_string();
    c.tenant.name = "test-tenant-name".to_string();
    c.project_vpc_id = "test-vpc-id".to_string();
    c.location = "test-location".to_string();
    c
}

fn fixture_ops(tags: PatchOperation) -> Vec<PatchOperation> {
    vec![
        add("/spec/projectVpcId", string("test-vpc-id")),
        add("/spec/terminationProtection", PatchValue::Bool(true)),
        tags,
        add("/spec/cloudName", string("google-test-location")),
    ]
}

fn all_tags() -> PatchValue {
    PatchValue::Object(vec![
        ("environment".to_string(), "test-tenant-env".to_string()),
        ("tenant".to_string(), "test-tenant-name".to_string()),
        ("team".to_string(), "test-namespace".to_string()),
    ])
}

#[test]
fn test_mutate() {
    let cases: Vec<(&str, Vec<(&str, JsonValue)>, Vec<PatchOperation>)> = vec![
        (
            "Valkey",
            vec![("plan", text("hobbyist")), ("project", text("test-project"))],
            fixture_ops(add("/spec/tags", all_tags())),
        ),
        (
            "OpenSearch",
            vec![("plan", text("hobbyist")), ("project", text("test-project"))],
            fixture_ops(add("/spec/tags", all_tags())),
        ),
        (
            "Valkey",
            vec![
                ("plan", text("hobbyist")),
                (
                    "tags",
                    entries(&[
                        ("environment", "test-tenant-env"),
                        ("tenant", "test-tenant-name"),
                        ("team", "test-namespace"),
                    ]),
                ),
            ],
            vec![
                add("/spec/projectVpcId", string("test-vpc-id")),
                add("/spec/terminationProtection", PatchValue::Bool(true)),
                add("/spec/cloudName", string("google-test-location")),
            ],
        ),
        ("Kafka", vec![("partitions", JsonValue::Number("3".to_string()))], vec![]),
    ];
    for (kind, spec, expected) in cases {
        let obj = resource(Some("test-namespace"), spec);
        let outcome =
            mutate_handler(&fixture_config(), Some(request(kind, Operation::Create, Some(obj))));
        assert_eq!(outcome.status_code(), 200, "Unexpected status code");
        assert!(outcome.allowed(), "Result should be allowed");
        let patch = allowed_patch(outcome);
        assert_eq!(patch.len(), expected.len(), "Unexpected number of patches");
        for (i, p) in patch.iter().enumerate() {
            assert_eq!(p, &expected[i], "Unexpected patch");
        }
    }
}

#[test]
fn second_run_after_patch_only_reasserts_placement() {
    let first = mutate(&resource(Some("team-x"), vec![("tags", entries(&[("cool", "tag")]))]), &config())
        .unwrap();
    assert_eq!(first.len(), 6);
    let mut spec = complete_spec();
    spec[0] = (
        "tags",
        entries(&[("cool", "tag"), ("environment", "prod"), ("tenant", "acme"), ("team", "team-x")]),
    );
    let second = mutate(&resource(Some("team-x"), spec), &config()).unwrap();
    assert_eq!(second, vec![replace("/spec/cloudName", string("google-eu-north1"))]);
}

#[test]
fn runs_are_deterministic() {
    let obj = resource(Some("team-x"), vec![("tags", entries(&[("environment", "x")]))]);
    assert_eq!(mutate(&obj, &config()), mutate(&obj, &config()));
}

#[test]
fn unrelated_tags_are_never_patched() {
    let obj = resource(
        Some("team-x"),
        vec![("tags", entries(&[("owner", "someone"), ("cost-center", "42")]))],
    );
    for op in mutate(&obj, &config()).unwrap() {
        let path = match &op {
            PatchOperation::Add { path, .. } | PatchOperation::Replace { path, .. } => path.clone(),
        };
        assert!(!path.contains("owner") && !path.contains("cost-center"), "{:?}", op);
    }
}

#[test]
fn dynamic_view_reads_defensively() {
    let obj = resource(
        Some("team-x"),
        vec![
            ("cloudName", JsonValue::Number("3".to_string())),
            ("tags", JsonValue::Object(vec![("count".to_string(), JsonValue::Bool(true))])),
            ("terminationProtection", text("yes")),
        ],
    );
    assert_eq!(obj.get_cloud_name(), None);
    assert_eq!(obj.get_tags(), Some(vec![("count".to_string(), "".to_string())]));
    assert_eq!(obj.get_termination_protection(), None);
    assert_eq!(obj.get_project_vpc_id(), None);
    assert_eq!(obj.get_team_name(), Some("team-x".to_string()));
    assert_eq!(obj.tag_path("team"), "/spec/tags/team");
    let no_spec = DynamicObject {
        metadata: ObjectMeta { name: None, namespace: None },
        data: JsonValue::Array(vec![]),
    };
    assert_eq!(no_spec.get_tags(), None);
    assert_eq!(no_spec.get_team_name(), None);
}

fn redis_spec() -> RedisSpec {
    RedisSpec {
        auth_secret_ref: None,
        cloud_name: Some("google-europe-west1".to_string()),
        conn_info_secret_target: None,
        disk_space: None,
        maintenance_window_dow: None,
        maintenance_window_time: None,
        plan: "startup-4".to_string(),
        project: "acme".to_string(),
        project_vpc_ref: None,
        project_vpc_id: None,
        service_integrations: None,
        tags: Some(vec![("tenant".to_string(), "acme".to_string())]),
        termination_protection: Some(false),
        user_config: None,
    }
}

#[test]
fn typed_view_matches_dynamic_view() {
    let redis = Redis {
        metadata: ObjectMeta {
            name: Some("cache".to_string()),
            namespace: Some("team-x".to_string()),
        },
        spec: redis_spec(),
        status: None,
    };
    assert_eq!(redis.get_cloud_name(), Some("google-europe-west1".to_string()));
    assert_eq!(redis.get_team_name(), Some("team-x".to_string()));
    assert_eq!(redis.get_tags(), Some(vec![("tenant".to_string(), "acme".to_string())]));
    assert_eq!(redis.get_termination_protection(), Some(false));
    assert_eq!(redis.get_project_vpc_id(), None);
    assert_eq!(redis.cloud_name_path(), "/spec/cloudName");
    assert_eq!(redis.project_vpc_id_path(), "/spec/projectVpcId");
    assert_eq!(redis.termination_protection_path(), "/spec/terminationProtection");
    assert_eq!(redis.tags_path(), "/spec/tags");
    assert_eq!(
        mutate(&redis, &config()).unwrap(),
        vec![
            add("/spec/projectVpcId", string("vpc-1")),
            add("/spec/tags/environment", string("prod")),
            add("/spec/tags/team", string("team-x")),
            replace("/spec/cloudName", string("google-eu-north1")),
        ]
    );
}

#[test]
fn bad_request_carries_reason() {
    let outcome = bad_request("missing request");
    assert_eq!(outcome.status_code(), 400);
    assert_eq!(outcome, AdmissionOutcome::Invalid { reason: "missing request".to_string() });
}

#[test]
fn otel_endpoint_setting() {
    assert_eq!(parse_otel("https://localhost:4317".to_string()).unwrap(), Some(true));
    assert_eq!(parse_otel("  http://collector:4317 \n".to_string()).unwrap(), Some(true));
    assert_eq!(parse_otel("".to_string()).unwrap(), None);
    assert_eq!(parse_otel("localhost:4317".to_string()).unwrap(), None);
    assert_eq!(parse_otel("x https://localhost".to_string()).unwrap(), None);
}

#[test]
fn default_log_level_is_info() {
    assert_eq!(LogLevel::default(), LogLevel::Info);
}
