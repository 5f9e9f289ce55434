//! Options, results and instance metadata of Cloudflare Workflows.

use vstd::prelude::*;
use vstd::std_specs::convert::{FromSpec, FromSpecImpl};
use vstd::string::*;

use crate::artifacts::opt_text;
use crate::json::{
    bool_json, bool_value, fields_of, lemma_object_view, number_json, number_value,
    optional_field, push_member, push_optional, shape_json, JsonMember, JsonValue, JsonView,
    RuntimeShape,
};

verus! {

/// The runtime shape of an optional value, or nothing.
pub open spec fn optional_shape<T: RuntimeShape>(v: Option<T>) -> Option<JsonView> {
    match v {
        Some(x) => Some(x.shape()),
        None => None,
    }
}

// ---------------------------------------------------------------------------
// Creating an instance

/// Options for creating a Workflow instance.
#[derive(Debug, Clone)]
pub struct WorkflowInstanceCreateOptions<T = ()> {
    pub id: Option<String>,
    pub params: Option<T>,
    pub retention: Option<WorkflowRetentionPolicy>,
}

impl<T> Default for WorkflowInstanceCreateOptions<T> {
    fn default() -> (r: Self)
        ensures
            r.id is None,
            r.params is None,
            r.retention is None,
    {
        WorkflowInstanceCreateOptions { id: None, params: None, retention: None }
    }
}

impl WorkflowInstanceCreateOptions<()> {
    /// Options with no ID, parameters or retention policy.
    pub fn new() -> (r: Self)
        ensures
            r.id is None,
            r.params is None,
            r.retention is None,
    {
        WorkflowInstanceCreateOptions { id: None, params: None, retention: None }
    }
}

impl<T> WorkflowInstanceCreateOptions<T> {
    /// Sets the instance's ID.
    pub fn id(self, id: &str) -> (r: Self)
        ensures
            opt_text(r.id) == Some(id@),
            r.params == self.params,
            r.retention == self.retention,
    {
        WorkflowInstanceCreateOptions { id: Some(String::from_str(id)), ..self }
    }

    /// Sets the parameters, changing the options' parameter type in the process.
    pub fn params<U>(self, params: U) -> (r: WorkflowInstanceCreateOptions<U>)
        ensures
            r.id == self.id,
            r.params == Some(params),
            r.retention == self.retention,
    {
        WorkflowInstanceCreateOptions { id: self.id, params: Some(params), retention: self.retention }
    }

    /// Sets how long the instance is kept after it finishes.
    pub fn retention(self, retention: WorkflowRetentionPolicy) -> (r: Self)
        ensures
            r.id == self.id,
            r.params == self.params,
            r.retention == Some(retention),
    {
        WorkflowInstanceCreateOptions { retention: Some(retention), ..self }
    }
}

impl<T: RuntimeShape> RuntimeShape for WorkflowInstanceCreateOptions<T> {
    /// `{ id?, params?, retention? }`.
    open spec fn shape(&self) -> JsonView {
        JsonView::Object(
            optional_field("id"@, crate::json::string_value(self.id)) + optional_field(
                "params"@,
                optional_shape(self.params),
            ) + optional_field("retention"@, optional_shape(self.retention)),
        )
    }

    fn runtime_shape(&self) -> (r: JsonValue) {
        let mut ms: Vec<JsonMember> = Vec::new();
        assert(fields_of(ms@) =~= seq![]);
        push_optional(&mut ms, "id", crate::json::string_json(&self.id));
        push_optional(&mut ms, "params", shape_json(&self.params));
        push_optional(&mut ms, "retention", shape_json(&self.retention));
        proof {
            lemma_object_view(ms);
        }
        JsonValue::Object(ms)
    }
}

// ---------------------------------------------------------------------------
// Retention

/// How long to retain a Workflow instance after it reaches a terminal state.
#[derive(Debug, Clone)]
pub struct WorkflowRetentionPolicy {
    pub success_retention: Option<WorkflowDuration>,
    pub error_retention: Option<WorkflowDuration>,
}

impl Default for WorkflowRetentionPolicy {
    fn default() -> (r: Self)
        ensures
            r.success_retention is None,
            r.error_retention is None,
    {
        WorkflowRetentionPolicy { success_retention: None, error_retention: None }
    }
}

impl WorkflowRetentionPolicy {
    /// A policy that leaves both durations to the service's defaults.
    pub fn new() -> (r: Self)
        ensures
            r.success_retention is None,
            r.error_retention is None,
    {
        WorkflowRetentionPolicy { success_retention: None, error_retention: None }
    }

    /// Sets how long a successful instance is kept: milliseconds, or an
    /// expression such as `"1 day"`, converted by `WorkflowDuration::from`.
    pub fn success<D>(self, duration: D) -> (r: Self) where WorkflowDuration: From<D>
        ensures
            <WorkflowDuration as FromSpec<D>>::obeys_from_spec() ==> r.success_retention == Some(
                <WorkflowDuration as FromSpec<D>>::from_spec(duration),
            ),
            r.error_retention == self.error_retention,
            r.success_retention matches Some(d) && call_ensures(
                <WorkflowDuration as From<D>>::from,
                (duration,),
                d,
            ),
    {
        WorkflowRetentionPolicy { success_retention: Some(WorkflowDuration::from(duration)), ..self }
    }

    /// Sets how long a failed instance is kept: milliseconds, or an
    /// expression such as `"1 day"`, converted by `WorkflowDuration::from`.
    pub fn error<D>(self, duration: D) -> (r: Self) where WorkflowDuration: From<D>
        ensures
            r.success_retention == self.success_retention,
            <WorkflowDuration as FromSpec<D>>::obeys_from_spec() ==> r.error_retention == Some(
                <WorkflowDuration as FromSpec<D>>::from_spec(duration),
            ),
            r.error_retention matches Some(d) && call_ensures(
                <WorkflowDuration as From<D>>::from,
                (duration,),
                d,
            ),
    {
        WorkflowRetentionPolicy { error_retention: Some(WorkflowDuration::from(duration)), ..self }
    }
}

impl RuntimeShape for WorkflowRetentionPolicy {
    /// `{ successRetention?, errorRetention? }`.
    open spec fn shape(&self) -> JsonView {
        JsonView::Object(
            optional_field("successRetention"@, optional_shape(self.success_retention))
                + optional_field("errorRetention"@, optional_shape(self.error_retention)),
        )
    }

    fn runtime_shape(&self) -> (r: JsonValue) {
        let mut ms: Vec<JsonMember> = Vec::new();
        assert(fields_of(ms@) =~= seq![]);
        push_optional(&mut ms, "successRetention", shape_json(&self.success_retention));
        push_optional(&mut ms, "errorRetention", shape_json(&self.error_retention));
        proof {
            lemma_object_view(ms);
        }
        JsonValue::Object(ms)
    }
}

/// A duration accepted by the Workflows API: milliseconds, or an expression
/// such as `"1 day"`.
#[derive(Debug, Clone, PartialEq, Eq)]
pub enum WorkflowDuration {
    Milliseconds(u64),
    Expression(String),
}

impl RuntimeShape for WorkflowDuration {
    /// The number of milliseconds, or the expression as a string.
    open spec fn shape(&self) -> JsonView {
        match self {
            WorkflowDuration::Milliseconds(n) => JsonView::Number(*n),
            WorkflowDuration::Expression(s) => JsonView::Str(s@),
        }
    }

    fn runtime_shape(&self) -> (r: JsonValue) {
        match self {
            WorkflowDuration::Milliseconds(n) => JsonValue::Number(*n),
            WorkflowDuration::Expression(s) => JsonValue::String(s.clone()),
        }
    }
}

impl From<u64> for WorkflowDuration {
    fn from(milliseconds: u64) -> (r: Self) {
        WorkflowDuration::Milliseconds(milliseconds)
    }
}

impl FromSpecImpl<u64> for WorkflowDuration {
    open spec fn obeys_from_spec() -> bool {
        true
    }

    open spec fn from_spec(milliseconds: u64) -> WorkflowDuration {
        WorkflowDuration::Milliseconds(milliseconds)
    }
}

impl From<String> for WorkflowDuration {
    fn from(expression: String) -> (r: Self) {
        WorkflowDuration::Expression(expression)
    }
}

impl FromSpecImpl<String> for WorkflowDuration {
    open spec fn obeys_from_spec() -> bool {
        true
    }

    open spec fn from_spec(expression: String) -> WorkflowDuration {
        WorkflowDuration::Expression(expression)
    }
}

impl<'a> From<&'a str> for WorkflowDuration {
    /// The expression, copied into a `String` of the same characters.
    fn from(expression: &'a str) -> (r: Self)
        ensures
            r matches WorkflowDuration::Expression(s) && s@ == expression@,
    {
        WorkflowDuration::Expression(String::from_str(expression))
    }
}

/// A `String` is known to Verus by its characters only, so no single value
/// can be named as what `from` returns for a `&str`: `obeys_from_spec` is
/// `false`, and `from`'s own `ensures` says what it gives.
impl<'a> FromSpecImpl<&'a str> for WorkflowDuration {
    open spec fn obeys_from_spec() -> bool {
        false
    }

    open spec fn from_spec(expression: &'a str) -> WorkflowDuration {
        WorkflowDuration::Expression(choose|s: String| s@ == expression@)
    }
}

// ---------------------------------------------------------------------------
// Batch deletion

/// The result of deleting a batch of Workflow instances.
#[derive(Debug, Clone)]
pub struct WorkflowBatchDeleteResult {
    pub deleted: Vec<WorkflowBatchDeletedInstance>,
    pub errors: Vec<WorkflowBatchDeleteError>,
}

/// An instance that a batch deletion removed.
#[derive(Debug, Clone)]
pub struct WorkflowBatchDeletedInstance {
    pub id: String,
}

/// An instance that a batch deletion could not remove, and why.
#[derive(Debug, Clone)]
pub struct WorkflowBatchDeleteError {
    pub id: String,
    pub code: u32,
    pub message: String,
}

// ---------------------------------------------------------------------------
// An instance

/// One Workflow instance, by the ID its handle reports.
#[derive(Debug, Clone)]
pub struct WorkflowInstance {
    id: String,
}

impl WorkflowInstance {
    /// The instance with ID `id`.
    pub fn with_id(id: String) -> (r: Self)
        ensures
            r.spec_id() == id,
    {
        WorkflowInstance { id }
    }

    pub closed spec fn spec_id(&self) -> String {
        self.id
    }

    /// The instance's ID.
    pub fn id(&self) -> (r: String)
        ensures
            r == self.spec_id(),
    {
        self.id.clone()
    }
}

/// The event sent to a matching `waitForEvent` step: `{ type, payload }`.
pub open spec fn event_shape(event_type: Seq<char>, payload: JsonView) -> JsonView {
    JsonView::Object(seq![("type"@, JsonView::Str(event_type)), ("payload"@, payload)])
}

/// Builds the event sent to a matching `waitForEvent` step.
pub fn workflow_event<T: RuntimeShape>(event_type: &str, payload: &T) -> (r: JsonValue)
    ensures
        r.view() == event_shape(event_type@, payload.shape()),
{
    let mut ms: Vec<JsonMember> = Vec::new();
    assert(fields_of(ms@) =~= seq![]);
    push_member(&mut ms, "type", JsonValue::String(String::from_str(event_type)));
    push_member(&mut ms, "payload", payload.runtime_shape());
    proof {
        lemma_object_view(ms);
        assert(fields_of(ms@) =~= seq![
            ("type"@, JsonView::Str(event_type@)),
            ("payload"@, payload.shape()),
        ]);
    }
    JsonValue::Object(ms)
}

/// Options controlling Workflow instance termination.
#[derive(Debug, Clone)]
pub struct WorkflowInstanceTerminateOptions {
    pub rollback: Option<bool>,
}

impl Default for WorkflowInstanceTerminateOptions {
    fn default() -> (r: Self)
        ensures
            r.rollback is None,
    {
        WorkflowInstanceTerminateOptions { rollback: None }
    }
}

impl WorkflowInstanceTerminateOptions {
    /// Options that leave rollback to the service's default.
    pub fn new() -> (r: Self)
        ensures
            r.rollback is None,
    {
        WorkflowInstanceTerminateOptions { rollback: None }
    }

    /// Sets whether registered rollback handlers run.
    pub fn rollback(self, rollback: bool) -> (r: Self)
        ensures
            r.rollback == Some(rollback),
    {
        WorkflowInstanceTerminateOptions { rollback: Some(rollback) }
    }
}

impl RuntimeShape for WorkflowInstanceTerminateOptions {
    /// `{ rollback? }`.
    open spec fn shape(&self) -> JsonView {
        JsonView::Object(optional_field("rollback"@, bool_value(self.rollback)))
    }

    fn runtime_shape(&self) -> (r: JsonValue) {
        let mut ms: Vec<JsonMember> = Vec::new();
        assert(fields_of(ms@) =~= seq![]);
        push_optional(&mut ms, "rollback", bool_json(self.rollback));
        proof {
            lemma_object_view(ms);
            assert(seq![] + optional_field("rollback"@, bool_value(self.rollback)) =~= optional_field(
                "rollback"@,
                bool_value(self.rollback),
            ));
        }
        JsonValue::Object(ms)
    }
}

/// Options controlling where a Workflow instance restarts.
#[derive(Debug, Clone)]
pub struct WorkflowInstanceRestartOptions {
    pub from: Option<WorkflowRestartFrom>,
}

impl Default for WorkflowInstanceRestartOptions {
    fn default() -> (r: Self)
        ensures
            r.from is None,
    {
        WorkflowInstanceRestartOptions { from: None }
    }
}

impl WorkflowInstanceRestartOptions {
    /// Options that restart the instance from the beginning.
    pub fn new() -> (r: Self)
        ensures
            r.from is None,
    {
        WorkflowInstanceRestartOptions { from: None }
    }

    /// Restarts from `step`.
    pub fn from(self, step: WorkflowRestartFrom) -> (r: Self)
        ensures
            r.from == Some(step),
    {
        WorkflowInstanceRestartOptions { from: Some(step) }
    }
}

impl RuntimeShape for WorkflowInstanceRestartOptions {
    /// `{ from? }`.
    open spec fn shape(&self) -> JsonView {
        JsonView::Object(optional_field("from"@, optional_shape(self.from)))
    }

    fn runtime_shape(&self) -> (r: JsonValue) {
        let mut ms: Vec<JsonMember> = Vec::new();
        assert(fields_of(ms@) =~= seq![]);
        push_optional(&mut ms, "from", shape_json(&self.from));
        proof {
            lemma_object_view(ms);
            assert(seq![] + optional_field("from"@, optional_shape(self.from)) =~= optional_field(
                "from"@,
                optional_shape(self.from),
            ));
        }
        JsonValue::Object(ms)
    }
}

/// Identifies a step from which to restart a Workflow instance.
#[derive(Debug, Clone)]
pub struct WorkflowRestartFrom {
    pub name: String,
    pub count: Option<u32>,
    pub step_type: Option<WorkflowStepType>,
}

impl WorkflowRestartFrom {
    /// The step called `name`.
    pub fn new(name: &str) -> (r: Self)
        ensures
            r.name@ == name@,
            r.count is None,
            r.step_type is None,
    {
        WorkflowRestartFrom { name: String::from_str(name), count: None, step_type: None }
    }

    /// Picks the `count`-th step of that name.
    pub fn count(self, count: u32) -> (r: Self)
        ensures
            r.name == self.name,
            r.count == Some(count),
            r.step_type == self.step_type,
    {
        WorkflowRestartFrom { count: Some(count), ..self }
    }

    /// Picks a step of that name and type.
    pub fn step_type(self, step_type: WorkflowStepType) -> (r: Self)
        ensures
            r.name == self.name,
            r.count == self.count,
            r.step_type == Some(step_type),
    {
        WorkflowRestartFrom { step_type: Some(step_type), ..self }
    }
}

impl RuntimeShape for WorkflowRestartFrom {
    /// `{ name, count?, type? }`.
    open spec fn shape(&self) -> JsonView {
        JsonView::Object(
            seq![("name"@, JsonView::Str(self.name@))] + optional_field(
                "count"@,
                number_value(self.count),
            ) + optional_field("type"@, optional_shape(self.step_type)),
        )
    }

    fn runtime_shape(&self) -> (r: JsonValue) {
        let mut ms: Vec<JsonMember> = Vec::new();
        assert(fields_of(ms@) =~= seq![]);
        push_member(&mut ms, "name", JsonValue::String(self.name.clone()));
        assert(fields_of(ms@) =~= seq![("name"@, JsonView::Str(self.name@))]);
        push_optional(&mut ms, "count", number_json(self.count));
        push_optional(&mut ms, "type", shape_json(&self.step_type));
        proof {
            lemma_object_view(ms);
        }
        JsonValue::Object(ms)
    }
}

/// A Workflow step type used to disambiguate restart targets.
#[derive(Debug, Clone, Copy, PartialEq, Eq)]
pub enum WorkflowStepType {
    Do,
    Sleep,
    WaitForEvent,
}

/// The runtime's name for a step type.
pub open spec fn step_type_name(t: WorkflowStepType) -> Seq<char> {
    match t {
        WorkflowStepType::Do => "do"@,
        WorkflowStepType::Sleep => "sleep"@,
        WorkflowStepType::WaitForEvent => "waitForEvent"@,
    }
}

impl RuntimeShape for WorkflowStepType {
    /// `"do"`, `"sleep"` or `"waitForEvent"`.
    open spec fn shape(&self) -> JsonView {
        JsonView::Str(step_type_name(*self))
    }

    fn runtime_shape(&self) -> (r: JsonValue) {
        let name = match self {
            WorkflowStepType::Do => "do",
            WorkflowStepType::Sleep => "sleep",
            WorkflowStepType::WaitForEvent => "waitForEvent",
        };
        JsonValue::String(String::from_str(name))
    }
}

// ---------------------------------------------------------------------------
// Status

/// Lifecycle state of a Workflow instance.
#[derive(Debug, Clone, Copy, PartialEq, Eq)]
pub enum WorkflowStatus {
    Queued,
    Running,
    Paused,
    Errored,
    Terminated,
    Complete,
    Waiting,
    WaitingForPause,
    Unknown,
}

/// Error reported by a Workflow instance or rollback.
#[derive(Debug, Clone)]
pub struct WorkflowError {
    pub name: String,
    pub message: String,
}

/// Result of registered rollback handlers after a Workflow reaches a terminal state.
#[derive(Debug, Clone)]
pub struct WorkflowRollbackStatus {
    pub outcome: WorkflowRollbackOutcome,
    pub error: Option<WorkflowError>,
}

/// How the rollback handlers ended.
#[derive(Debug, Clone, Copy, PartialEq, Eq)]
pub enum WorkflowRollbackOutcome {
    Complete,
    Failed,
    Unknown,
}

} // verus!
