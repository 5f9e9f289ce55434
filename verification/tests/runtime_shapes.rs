use worker::artifacts::{
    ArtifactsCreateOptions, ArtifactsImportParams, ArtifactsImportSource, ArtifactsImportTarget,
    ArtifactsImportTargetOptions, ArtifactsLogOptions,
};
use worker::json::{JsonMember, JsonValue, RuntimeShape};
use worker::workflows::{
    WorkflowInstanceCreateOptions, WorkflowInstanceRestartOptions, WorkflowRestartFrom,
    WorkflowDuration, WorkflowRetentionPolicy, WorkflowStepType,
};

fn object(members: Vec<(&str, JsonValue)>) -> JsonValue {
    JsonValue::Object(
        members
            .into_iter()
            .map(|(key, value)| JsonMember { key: key.to_string(), value })
            .collect(),
    )
}

fn string(s: &str) -> JsonValue {
    JsonValue::String(s.to_string())
}

#[test]
fn artifact_options_use_runtime_field_names() {
    let create = ArtifactsCreateOptions::new()
        .read_only(true)
        .description("test")
        .default_branch("trunk");
    assert_eq!(
        create.runtime_shape(),
        object(vec![
            ("readOnly", JsonValue::Bool(true)),
            ("description", string("test")),
            ("setDefaultBranch", string("trunk")),
        ])
    );

    let log = ArtifactsLogOptions::new()
        .git_ref("main")
        .limit(10)
        .offset(2);
    assert_eq!(
        log.runtime_shape(),
        object(vec![
            ("ref", string("main")),
            ("limit", JsonValue::Number(10)),
            ("offset", JsonValue::Number(2)),
        ])
    );
}

#[test]
fn import_params_match_the_nested_runtime_shape() {
    let params = ArtifactsImportParams {
        source: ArtifactsImportSource::new("https://example.com/repo.git")
            .branch("main")
            .depth(1),
        target: ArtifactsImportTarget::new("copy").options(
            ArtifactsImportTargetOptions::new()
                .description("imported")
                .read_only(true),
        ),
    };

    assert_eq!(
        params.runtime_shape(),
        object(vec![
            (
                "source",
                object(vec![
                    ("url", string("https://example.com/repo.git")),
                    ("branch", string("main")),
                    ("depth", JsonValue::Number(1)),
                ])
            ),
            (
                "target",
                object(vec![
                    ("name", string("copy")),
                    (
                        "opts",
                        object(vec![
                            ("description", string("imported")),
                            ("readOnly", JsonValue::Bool(true)),
                        ])
                    ),
                ])
            ),
        ])
    );
}

#[test]
fn create_options_match_the_runtime_shape() {
    let options = WorkflowInstanceCreateOptions::new()
        .id("instance-1")
        .retention(
            WorkflowRetentionPolicy::new()
                .success("1 day")
                .error(86_400_u64),
        )
        .params(object(vec![("user_id", string("user-1"))]));

    assert_eq!(
        options.runtime_shape(),
        object(vec![
            ("id", string("instance-1")),
            ("params", object(vec![("user_id", string("user-1"))])),
            (
                "retention",
                object(vec![
                    ("successRetention", string("1 day")),
                    ("errorRetention", JsonValue::Number(86400)),
                ])
            ),
        ])
    );
}

#[test]
fn restart_options_match_the_runtime_shape() {
    let options = WorkflowInstanceRestartOptions::new().from(
        WorkflowRestartFrom::new("process")
            .count(3)
            .step_type(WorkflowStepType::WaitForEvent),
    );

    assert_eq!(
        options.runtime_shape(),
        object(vec![(
            "from",
            object(vec![
                ("name", string("process")),
                ("count", JsonValue::Number(3)),
                ("type", string("waitForEvent")),
            ])
        )])
    );
}

#[test]
fn absent_options_are_left_out_of_the_runtime_shape() {
    assert_eq!(ArtifactsCreateOptions::new().runtime_shape(), object(vec![]));
    assert_eq!(ArtifactsLogOptions::new().runtime_shape(), object(vec![]));
    assert_eq!(WorkflowInstanceCreateOptions::new().runtime_shape(), object(vec![]));
    assert_eq!(
        ArtifactsImportParams::new("https://a", "b").runtime_shape(),
        object(vec![
            ("source", object(vec![("url", string("https://a"))])),
            ("target", object(vec![("name", string("b"))])),
        ])
    );
}

#[test]
fn valid_javascript_identifiers() {
    assert!(worker::exports::is_valid_javascript_identifier("OrderWorkflow"));
    assert!(worker::exports::is_valid_javascript_identifier("_$a9"));
    assert!(!worker::exports::is_valid_javascript_identifier(""));
    assert!(!worker::exports::is_valid_javascript_identifier("9lives"));
    assert!(!worker::exports::is_valid_javascript_identifier("a-b"));
}

#[test]
fn durations_convert_from_numbers_and_text() {
    assert_eq!(WorkflowDuration::from(500_u64), WorkflowDuration::Milliseconds(500));
    assert_eq!(
        WorkflowDuration::from("2 hours"),
        WorkflowDuration::Expression("2 hours".to_string())
    );
    assert_eq!(
        WorkflowDuration::from("2 hours".to_string()),
        WorkflowDuration::Expression("2 hours".to_string())
    );
    let policy = WorkflowRetentionPolicy::new().error("30 minutes");
    assert_eq!(policy.error_retention, Some(WorkflowDuration::Expression("30 minutes".to_string())));
    assert_eq!(policy.success_retention, None);
}

#[test]
fn unit_params_reach_the_runtime_as_undefined() {
    assert_eq!(().runtime_shape(), JsonValue::Undefined);
    let options = WorkflowInstanceCreateOptions::<()>::new().id("instance-2").params(());
    assert_eq!(
        options.runtime_shape(),
        object(vec![("id", string("instance-2")), ("params", JsonValue::Undefined)])
    );
}
