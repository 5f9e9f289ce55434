//! The `#[workflow]` attribute's checks and the build marker it exports,
//! and the decisions of the test Workflow that exercises them.

use vstd::prelude::*;
use vstd::string::*;

use crate::text::{decimal, push_decimal};

verus! {

broadcast use vstd::string::group_string_axioms;

/// Why `#[workflow]` rejects the item it is applied to.
#[derive(Debug, Clone, Copy, PartialEq, Eq)]
pub enum WorkflowAttributeError {
    /// The attribute was given arguments.
    HasArguments,
    /// The struct has generic parameters.
    GenericStruct,
}

impl WorkflowAttributeError {
    /// The compiler error that reports this rejection.
    pub fn message(&self) -> (r: String)
        ensures
            r@ == match self {
                WorkflowAttributeError::HasArguments => "#[workflow] does not accept arguments"@,
                WorkflowAttributeError::GenericStruct => "Workflow entrypoint structs cannot be generic"@,
            },
    {
        match self {
            WorkflowAttributeError::HasArguments => String::from_str(
                "#[workflow] does not accept arguments",
            ),
            WorkflowAttributeError::GenericStruct => String::from_str(
                "Workflow entrypoint structs cannot be generic",
            ),
        }
    }
}

/// Checks the use of `#[workflow]`: it takes no arguments, and it applies
/// to a struct without generic parameters; arguments are reported first.
pub fn check_workflow_attribute(attribute_is_empty: bool, generic_parameters: usize) -> (r: Result<
    (),
    WorkflowAttributeError,
>)
    ensures
        !attribute_is_empty ==> r == Err::<(), _>(WorkflowAttributeError::HasArguments),
        attribute_is_empty && generic_parameters > 0 ==> r == Err::<(), _>(
            WorkflowAttributeError::GenericStruct,
        ),
        attribute_is_empty && generic_parameters == 0 ==> r is Ok,
{
    if !attribute_is_empty {
        Err(WorkflowAttributeError::HasArguments)
    } else if generic_parameters > 0 {
        Err(WorkflowAttributeError::GenericStruct)
    } else {
        Ok(())
    }
}

/// The name of the function that `#[workflow]` exports for the entrypoint
/// struct `target`, which the build recognises as a Workflow marker.
pub open spec fn marker_name(target: Seq<char>) -> Seq<char> {
    crate::exports::marker_prefix() + target
}

/// Builds the marker function's name for the entrypoint struct `target`.
pub fn workflow_marker_name(target: &str) -> (r: String)
    ensures
        r@ == marker_name(target@),
{
    let mut r = String::from_str("__worker_workflow_entrypoint_");
    r.append(target);
    r
}

// ---------------------------------------------------------------------------
// The test Workflow

/// The input of the test Workflow.
#[derive(Debug, Clone)]
pub struct TestWorkflowInput {
    pub value: String,
}

/// The output of the test Workflow.
#[derive(Debug, Clone)]
pub struct TestWorkflowOutput {
    pub value: String,
}

/// The test Workflow: echoes its input through a step, after a step that
/// always fails when the input is `"non-retryable"`.
#[derive(Debug, Clone, Copy)]
pub struct TestWorkflow;

/// Where a run of the test Workflow stands.
#[derive(Debug, Clone)]
pub enum TestWorkflowState {
    /// The run has not started.
    Idle,
    /// The failing step is running; the input is kept for the echo step.
    AwaitingTerminalFailure(String),
    /// The echo step is running.
    AwaitingEcho,
    /// The run has ended.
    Done,
}

/// What the Workflow runtime reports to the run.
#[derive(Debug, Clone)]
pub enum TestWorkflowEvent {
    /// The run starts with this input.
    Start(TestWorkflowInput),
    /// The current step returned this value.
    StepSucceeded(String),
    /// The current step failed for good with this message.
    StepFailed(String),
}

/// What the run asks of the Workflow runtime.
#[derive(Debug, Clone)]
pub enum TestWorkflowAction {
    /// Run the step `name` that always fails without retry, with at most
    /// `retry_limit` retries `retry_delay_ms` milliseconds apart.
    RunFailingStep { name: String, retry_limit: u32, retry_delay_ms: u64 },
    /// Run the step `name` that returns `value`.
    RunEchoStep { name: String, value: String },
    /// End the run with this output.
    Complete(TestWorkflowOutput),
    /// End the run with this error.
    Fail(String),
    /// Nothing: the event does not concern the run.
    Ignore,
}

/// The abstract value of an action.
pub enum TestWorkflowActionView {
    RunFailingStep { name: Seq<char>, retry_limit: u32, retry_delay_ms: u64 },
    RunEchoStep { name: Seq<char>, value: Seq<char> },
    Complete(Seq<char>),
    Fail(Seq<char>),
    Ignore,
}

impl View for TestWorkflowAction {
    type V = TestWorkflowActionView;

    open spec fn view(&self) -> TestWorkflowActionView {
        match self {
            TestWorkflowAction::RunFailingStep { name, retry_limit, retry_delay_ms } => TestWorkflowActionView::RunFailingStep {
                name: name@,
                retry_limit: *retry_limit,
                retry_delay_ms: *retry_delay_ms,
            },
            TestWorkflowAction::RunEchoStep { name, value } => TestWorkflowActionView::RunEchoStep {
                name: name@,
                value: value@,
            },
            TestWorkflowAction::Complete(o) => TestWorkflowActionView::Complete(o.value@),
            TestWorkflowAction::Fail(m) => TestWorkflowActionView::Fail(m@),
            TestWorkflowAction::Ignore => TestWorkflowActionView::Ignore,
        }
    }
}

/// The abstract value of a run's state.
pub enum TestWorkflowStateView {
    Idle,
    AwaitingTerminalFailure(Seq<char>),
    AwaitingEcho,
    Done,
}

impl View for TestWorkflowState {
    type V = TestWorkflowStateView;

    open spec fn view(&self) -> TestWorkflowStateView {
        match self {
            TestWorkflowState::Idle => TestWorkflowStateView::Idle,
            TestWorkflowState::AwaitingTerminalFailure(v) => TestWorkflowStateView::AwaitingTerminalFailure(v@),
            TestWorkflowState::AwaitingEcho => TestWorkflowStateView::AwaitingEcho,
            TestWorkflowState::Done => TestWorkflowStateView::Done,
        }
    }
}

/// The abstract value of an event.
pub enum TestWorkflowEventView {
    Start(Seq<char>),
    StepSucceeded(Seq<char>),
    StepFailed(Seq<char>),
}

impl View for TestWorkflowEvent {
    type V = TestWorkflowEventView;

    open spec fn view(&self) -> TestWorkflowEventView {
        match self {
            TestWorkflowEvent::Start(i) => TestWorkflowEventView::Start(i.value@),
            TestWorkflowEvent::StepSucceeded(v) => TestWorkflowEventView::StepSucceeded(v@),
            TestWorkflowEvent::StepFailed(m) => TestWorkflowEventView::StepFailed(m@),
        }
    }
}

/// The echo step, which returns `value`.
pub open spec fn echo_step(value: Seq<char>) -> TestWorkflowActionView {
    TestWorkflowActionView::RunEchoStep { name: "echo input"@, value }
}

/// The step that always fails without retry, allowed three retries a
/// millisecond apart.
pub open spec fn failing_step() -> TestWorkflowActionView {
    TestWorkflowActionView::RunFailingStep {
        name: "terminal failure"@,
        retry_limit: 3,
        retry_delay_ms: 1,
    }
}

/// The run's next state and action after an event.
pub open spec fn test_workflow_transition(
    state: TestWorkflowStateView,
    event: TestWorkflowEventView,
) -> (TestWorkflowStateView, TestWorkflowActionView) {
    match (state, event) {
        (TestWorkflowStateView::Idle, TestWorkflowEventView::Start(value)) => {
            if value == "non-retryable"@ {
                (TestWorkflowStateView::AwaitingTerminalFailure(value), failing_step())
            } else {
                (TestWorkflowStateView::AwaitingEcho, echo_step(value))
            }
        },
        (
            TestWorkflowStateView::AwaitingTerminalFailure(value),
            TestWorkflowEventView::StepSucceeded(_),
        ) => (TestWorkflowStateView::AwaitingEcho, echo_step(value)),
        (TestWorkflowStateView::AwaitingEcho, TestWorkflowEventView::StepSucceeded(out)) => (
            TestWorkflowStateView::Done,
            TestWorkflowActionView::Complete(out),
        ),
        (TestWorkflowStateView::AwaitingTerminalFailure(_), TestWorkflowEventView::StepFailed(m)) => (
            TestWorkflowStateView::Done,
            TestWorkflowActionView::Fail(m),
        ),
        (TestWorkflowStateView::AwaitingEcho, TestWorkflowEventView::StepFailed(m)) => (
            TestWorkflowStateView::Done,
            TestWorkflowActionView::Fail(m),
        ),
        (s, _) => (s, TestWorkflowActionView::Ignore),
    }
}

/// The error the failing step raises on attempt `attempt`.
pub open spec fn terminal_failure_text(attempt: u32) -> Seq<char> {
    "terminal failure on attempt "@ + decimal(attempt as nat)
}

impl TestWorkflow {
    /// The Workflow, as the runtime constructs it.
    pub fn new() -> (r: TestWorkflow)
        ensures
            r == TestWorkflow,
    {
        TestWorkflow
    }

    /// The message of the non-retryable error that the failing step raises
    /// on attempt `attempt`.
    pub fn terminal_failure_message(attempt: u32) -> (r: String)
        ensures
            r@ == terminal_failure_text(attempt),
    {
        let mut r = String::from_str("terminal failure on attempt ");
        push_decimal(&mut r, attempt);
        r
    }

    /// Decides the run's next state and the action to take after `event`.
    pub fn run(state: TestWorkflowState, event: TestWorkflowEvent) -> (r: (
        TestWorkflowState,
        TestWorkflowAction,
    ))
        ensures
            (r.0@, r.1@) == test_workflow_transition(state@, event@),
    {
        match (state, event) {
            (TestWorkflowState::Idle, TestWorkflowEvent::Start(input)) => {
                let marker = String::from_str("non-retryable");
                if input.value == marker {
                    (
                        TestWorkflowState::AwaitingTerminalFailure(input.value),
                        TestWorkflowAction::RunFailingStep {
                            name: String::from_str("terminal failure"),
                            retry_limit: 3,
                            retry_delay_ms: 1,
                        },
                    )
                } else {
                    (
                        TestWorkflowState::AwaitingEcho,
                        TestWorkflowAction::RunEchoStep {
                            name: String::from_str("echo input"),
                            value: input.value,
                        },
                    )
                }
            },
            (TestWorkflowState::AwaitingTerminalFailure(value), TestWorkflowEvent::StepSucceeded(_)) => {
                (
                    TestWorkflowState::AwaitingEcho,
                    TestWorkflowAction::RunEchoStep { name: String::from_str("echo input"), value },
                )
            },
            (TestWorkflowState::AwaitingEcho, TestWorkflowEvent::StepSucceeded(out)) => {
                (
                    TestWorkflowState::Done,
                    TestWorkflowAction::Complete(TestWorkflowOutput { value: out }),
                )
            },
            (TestWorkflowState::AwaitingTerminalFailure(_), TestWorkflowEvent::StepFailed(m)) => {
                (TestWorkflowState::Done, TestWorkflowAction::Fail(m))
            },
            (TestWorkflowState::AwaitingEcho, TestWorkflowEvent::StepFailed(m)) => {
                (TestWorkflowState::Done, TestWorkflowAction::Fail(m))
            },
            (s, _) => (s, TestWorkflowAction::Ignore),
        }
    }
}

} // verus!
