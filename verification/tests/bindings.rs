use worker::artifacts::{ArtifactsRepo, ArtifactsRepoInfo};
use worker::entrypoint::{
    TestWorkflow, TestWorkflowAction, TestWorkflowEvent, TestWorkflowInput, TestWorkflowState,
};
use worker::json::{JsonMember, JsonValue};
use worker::workflows::{workflow_event, WorkflowInstance};

#[test]
fn repository_getters_report_its_metadata() {
    let info = ArtifactsRepoInfo {
        id: "r1".to_string(),
        name: "repo".to_string(),
        description: Some("d".to_string()),
        default_branch: "main".to_string(),
        created_at: "c".to_string(),
        updated_at: "u".to_string(),
        last_push_at: None,
        source: Some("https://x".to_string()),
        read_only: true,
        remote: None,
        status: None,
    };
    let repo = ArtifactsRepo::from_info(info, "https://remote".to_string());
    assert_eq!(repo.id(), "r1");
    assert_eq!(repo.name(), "repo");
    assert_eq!(repo.description(), Some("d".to_string()));
    assert_eq!(repo.default_branch(), "main");
    assert_eq!(repo.created_at(), "c");
    assert_eq!(repo.updated_at(), "u");
    assert_eq!(repo.last_push_at(), None);
    assert_eq!(repo.source(), Some("https://x".to_string()));
    assert!(repo.read_only());
    assert_eq!(repo.remote(), "https://remote");
    assert_eq!(WorkflowInstance::with_id("i-1".to_string()).id(), "i-1");
}

#[test]
fn events_carry_type_and_payload() {
    let event = workflow_event("approval", &JsonValue::Bool(true));
    assert_eq!(
        event,
        JsonValue::Object(vec![
            JsonMember { key: "type".to_string(), value: JsonValue::String("approval".to_string()) },
            JsonMember { key: "payload".to_string(), value: JsonValue::Bool(true) },
        ])
    );
}

#[test]
fn test_workflow_echoes_its_input() {
    let _ = TestWorkflow::new();
    let (state, action) = TestWorkflow::run(
        TestWorkflowState::Idle,
        TestWorkflowEvent::Start(TestWorkflowInput { value: "hello".to_string() }),
    );
    match action {
        TestWorkflowAction::RunEchoStep { name, value } => {
            assert_eq!(name, "echo input");
            assert_eq!(value, "hello");
        }
        other => panic!("unexpected {:?}", other),
    }
    let (state, action) = TestWorkflow::run(state, TestWorkflowEvent::StepSucceeded("hello".to_string()));
    assert!(matches!(state, TestWorkflowState::Done));
    match action {
        TestWorkflowAction::Complete(output) => assert_eq!(output.value, "hello"),
        other => panic!("unexpected {:?}", other),
    }
    let (_, action) = TestWorkflow::run(state, TestWorkflowEvent::StepSucceeded("again".to_string()));
    assert!(matches!(action, TestWorkflowAction::Ignore));
}

#[test]
fn test_workflow_fails_on_non_retryable_input() {
    let (state, action) = TestWorkflow::run(
        TestWorkflowState::Idle,
        TestWorkflowEvent::Start(TestWorkflowInput { value: "non-retryable".to_string() }),
    );
    match action {
        TestWorkflowAction::RunFailingStep { name, retry_limit, retry_delay_ms } => {
            assert_eq!(name, "terminal failure");
            assert_eq!(retry_limit, 3);
            assert_eq!(retry_delay_ms, 1);
        }
        other => panic!("unexpected {:?}", other),
    }
    let message = TestWorkflow::terminal_failure_message(4);
    assert_eq!(message, "terminal failure on attempt 4");
    assert_eq!(TestWorkflow::terminal_failure_message(120), "terminal failure on attempt 120");
    let (state, action) = TestWorkflow::run(state, TestWorkflowEvent::StepFailed(message));
    assert!(matches!(state, TestWorkflowState::Done));
    match action {
        TestWorkflowAction::Fail(m) => assert_eq!(m, "terminal failure on attempt 4"),
        other => panic!("unexpected {:?}", other),
    }
}
