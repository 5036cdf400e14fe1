//! Handing a tool call to a worker through the broker's queue, and what the
//! worker does with it.

use crate::json::{json_parse, json_text, Json, JsonValue};
use crate::mcp::{ToolCall, ToolCallView};
use crate::text::same_text;
use vstd::prelude::*;

verus! {

/// The list in the broker onto which tasks are pushed.
pub open spec fn task_queue() -> Seq<char> {
    "mcp::tasks::all"@
}

/// How the key begins under which a task's result is published.
pub open spec fn result_key_prefix() -> Seq<char> {
    "mcp::result::"@
}

/// The seconds for which a result is awaited.
pub const POLL_TIMEOUT_SECS: u64 = 30;

/// The seconds after which a published result expires.
pub const RESULT_TTL_SECS: u64 = 3600;

/// The seconds for which a worker rests when the queue is empty.
pub const IDLE_SLEEP_SECS: u64 = 1;

/// The seconds for which a worker rests after the broker failed.
pub const FAILURE_SLEEP_SECS: u64 = 5;

/// The kind of work that a task asks for.
#[derive(Debug, PartialEq, Eq, Structural, Clone, Copy)]
pub enum TaskType {
    Shell,
    Docker,
}

/// The kind of work that a tool's name stands for: `exec` and `shell` are
/// shell work, `docker` is container work, and every other name is shell work
/// too.
pub open spec fn task_type_of(tool: Seq<char>) -> TaskType {
    if tool == "exec"@ || tool == "shell"@ {
        TaskType::Shell
    } else if tool == "docker"@ {
        TaskType::Docker
    } else {
        TaskType::Shell
    }
}

/// The name under which a kind of work is written in a task.
pub open spec fn task_type_name(task_type: TaskType) -> Seq<char> {
    match task_type {
        TaskType::Shell => "SHELL"@,
        TaskType::Docker => "DOCKER"@,
    }
}

/// The kind of work that a name in a task stands for.
pub open spec fn task_type_named(name: Seq<char>) -> Option<TaskType> {
    if name == "SHELL"@ {
        Some(TaskType::Shell)
    } else if name == "DOCKER"@ {
        Some(TaskType::Docker)
    } else {
        None
    }
}

impl TaskType {
    /// The kind of work that a tool's name stands for.
    pub fn classify(tool: &str) -> (t: TaskType)
        ensures
            t == task_type_of(tool@),
    {
        if same_text(tool, "docker") {
            proof {
                reveal_strlit("docker");
                reveal_strlit("exec");
                reveal_strlit("shell");
                assert("docker"@.len() == 6 && "exec"@.len() == 4 && "shell"@.len() == 5);
            }
            TaskType::Docker
        } else {
            TaskType::Shell
        }
    }

    /// The name under which the kind is written in a task.
    pub fn name(&self) -> (s: &'static str)
        ensures
            s@ == task_type_name(*self),
    {
        match self {
            TaskType::Shell => "SHELL",
            TaskType::Docker => "DOCKER",
        }
    }

    /// The kind of work that a name in a task stands for.
    pub fn named(name: &str) -> (r: Option<TaskType>)
        ensures
            r == task_type_named(name@),
    {
        if same_text(name, "SHELL") {
            Some(TaskType::Shell)
        } else if same_text(name, "DOCKER") {
            Some(TaskType::Docker)
        } else {
            None
        }
    }
}

/// A kind's name reads back as the kind.
pub proof fn lemma_task_type_round_trip(task_type: TaskType)
    ensures
        task_type_named(task_type_name(task_type)) == Some(task_type),
{
    reveal_strlit("SHELL");
    reveal_strlit("DOCKER");
    assert("SHELL"@.len() == 5 && "DOCKER"@.len() == 6);
}

/// One unit of work for a worker.
#[derive(Debug)]
pub struct Task {
    pub id: String,
    pub target_host: String,
    pub task_type: TaskType,
    pub details: Json,
}

/// What a [`Task`] stands for.
pub struct TaskView {
    pub id: Seq<char>,
    pub target_host: Seq<char>,
    pub task_type: TaskType,
    pub details: JsonValue,
}

impl View for Task {
    type V = TaskView;

    open spec fn view(&self) -> TaskView {
        TaskView {
            id: self.id@,
            target_host: self.target_host@,
            task_type: self.task_type,
            details: self.details@,
        }
    }
}

/// The task that a tool call makes: its kind by the tool's name, its details
/// the call's arguments.
pub open spec fn task_for(id: Seq<char>, target_host: Seq<char>, call: ToolCallView) -> TaskView {
    TaskView { id, target_host, task_type: task_type_of(call.tool), details: call.params }
}

/// The JSON text of a task: an object with `id`, `target_host`, `task_type`
/// and `details`, in this order, written without spaces.
pub open spec fn task_text(task: TaskView) -> Seq<char> {
    "{\"id\":"@ + json_text(JsonValue::Str(task.id)) + ",\"target_host\":"@ + json_text(
        JsonValue::Str(task.target_host),
    ) + ",\"task_type\":"@ + json_text(JsonValue::Str(task_type_name(task.task_type)))
        + ",\"details\":"@ + json_text(task.details) + "}"@
}

/// The task that a JSON value holds: an object whose `id` and `target_host`
/// are strings, whose `task_type` is one of the two names, and which has
/// `details`.
pub open spec fn decode_task(value: JsonValue) -> Option<TaskView> {
    match (
        value.get("id"@),
        value.get("target_host"@),
        value.get("task_type"@),
        value.get("details"@),
    ) {
        (
            Some(JsonValue::Str(id)),
            Some(JsonValue::Str(target_host)),
            Some(JsonValue::Str(name)),
            Some(details),
        ) => match task_type_named(name) {
            Some(task_type) => Some(TaskView { id, target_host, task_type, details }),
            None => None,
        },
        _ => None,
    }
}

/// The key under which the result of the task `id` is published.
pub open spec fn result_key_of(id: Seq<char>) -> Seq<char> {
    result_key_prefix() + id
}

/// The key under which the result of the task `id` is published.
pub fn result_key(id: &str) -> (key: String)
    ensures
        key@ == result_key_of(id@),
{
    "mcp::result::".to_owned().concat(id)
}

impl Task {
    /// The task that a tool call makes.
    pub fn for_call(id: String, target_host: String, call: ToolCall) -> (task: Task)
        ensures
            task@ == task_for(id@, target_host@, call@),
    {
        let task_type = TaskType::classify(call.tool.as_str());
        Task { id, target_host, task_type, details: call.params }
    }

    /// The task as JSON text, as it is pushed onto the queue.
    pub fn to_json_text(&self) -> (s: String)
        ensures
            s@ == task_text(self@),
    {
        let id = Json::string(self.id.as_str()).to_text();
        let host = Json::string(self.target_host.as_str()).to_text();
        let kind = Json::string(self.task_type.name()).to_text();
        let details = self.details.to_text();
        let mut s = "{\"id\":".to_owned();
        s.append(id.as_str());
        s.append(",\"target_host\":");
        s.append(host.as_str());
        s.append(",\"task_type\":");
        s.append(kind.as_str());
        s.append(",\"details\":");
        s.append(details.as_str());
        s.append("}");
        s
    }

    /// The task that a JSON value holds, if it holds one.
    pub fn from_json(value: &Json) -> (r: Option<Task>)
        ensures
            match r {
                Some(task) => decode_task(value@) == Some(task@),
                None => decode_task(value@) is None,
            },
    {
        let id = match value.get("id") {
            Some(Json::Str(id)) => id,
            _ => {
                return None;
            },
        };
        let target_host = match value.get("target_host") {
            Some(Json::Str(host)) => host,
            _ => {
                return None;
            },
        };
        let name = match value.get("task_type") {
            Some(Json::Str(name)) => name,
            _ => {
                return None;
            },
        };
        let details = match value.get("details") {
            Some(details) => details,
            None => {
                return None;
            },
        };
        match TaskType::named(name.as_str()) {
            Some(task_type) => Some(
                Task {
                    id: id.clone(),
                    target_host: target_host.clone(),
                    task_type,
                    details: details.duplicate(),
                },
            ),
            None => None,
        }
    }
}

/// What is handed to the broker for one tool call: the text to push, the
/// list to push it onto, the key on which to wait for the result, and for
/// how many seconds.
#[derive(Debug)]
pub struct Submission {
    pub queue: String,
    pub payload: String,
    pub result_key: String,
    pub timeout_secs: u64,
}

/// Prepares the hand-over of a tool call to a worker. `id` names the task
/// and must not have been used before; making it is the caller's part.
pub fn submit_task(id: String, target_host: String, call: ToolCall) -> (s: Submission)
    ensures
        s.queue@ == task_queue(),
        s.payload@ == task_text(task_for(id@, target_host@, call@)),
        s.result_key@ == result_key_of(id@),
        s.timeout_secs == POLL_TIMEOUT_SECS,
{
    let key = result_key(id.as_str());
    let task = Task::for_call(id, target_host, call);
    Submission {
        queue: "mcp::tasks::all".to_owned(),
        payload: task.to_json_text(),
        result_key: key,
        timeout_secs: POLL_TIMEOUT_SECS,
    }
}

/// Why a tool call that went through the queue has no result.
#[derive(Debug)]
pub enum QueueError {
    /// The broker did not take the task.
    PushFailed(String),
    /// No result appeared in time.
    ResultTimeout,
    /// The broker failed while the result was awaited.
    BrokerFailed(String),
}

/// What a [`QueueError`] stands for.
pub enum QueueErrorView {
    PushFailed(Seq<char>),
    ResultTimeout,
    BrokerFailed(Seq<char>),
}

impl View for QueueError {
    type V = QueueErrorView;

    open spec fn view(&self) -> QueueErrorView {
        match self {
            QueueError::PushFailed(e) => QueueErrorView::PushFailed(e@),
            QueueError::ResultTimeout => QueueErrorView::ResultTimeout,
            QueueError::BrokerFailed(e) => QueueErrorView::BrokerFailed(e@),
        }
    }
}

/// The words for a queue error.
pub open spec fn queue_error_text(error: QueueErrorView) -> Seq<char> {
    match error {
        QueueErrorView::PushFailed(e) => "Failed to submit task: "@ + e,
        QueueErrorView::ResultTimeout => "Timed out waiting for the task result"@,
        QueueErrorView::BrokerFailed(e) => "Failed to read the task result: "@ + e,
    }
}

impl QueueError {
    /// The error in words.
    pub fn message(&self) -> (s: String)
        ensures
            s@ == queue_error_text(self@),
    {
        match self {
            QueueError::PushFailed(e) => "Failed to submit task: ".to_owned().concat(e.as_str()),
            QueueError::ResultTimeout => "Timed out waiting for the task result".to_owned(),
            QueueError::BrokerFailed(e) => "Failed to read the task result: ".to_owned().concat(
                e.as_str(),
            ),
        }
    }
}

/// What the wait for a result comes to: the value that appeared under the
/// result key, unchanged; a timeout where none appeared within the bound; the
/// broker's failure where it failed.
pub open spec fn poll_outcome(reply: Result<Option<Seq<char>>, Seq<char>>) -> Result<
    Seq<char>,
    QueueErrorView,
> {
    match reply {
        Ok(Some(value)) => Ok(value),
        Ok(None) => Err(QueueErrorView::ResultTimeout),
        Err(e) => Err(QueueErrorView::BrokerFailed(e)),
    }
}

/// The view of what the broker answered to a bounded wait.
pub open spec fn reply_view(reply: Result<Option<String>, String>) -> Result<
    Option<Seq<char>>,
    Seq<char>,
> {
    match reply {
        Ok(Some(value)) => Ok(Some(value@)),
        Ok(None) => Ok(None),
        Err(e) => Err(e@),
    }
}

/// Turns what the broker answered to the bounded wait on a result key into
/// the tool's result.
pub fn poll_result(reply: Result<Option<String>, String>) -> (r: Result<String, QueueError>)
    ensures
        match r {
            Ok(text) => poll_outcome(reply_view(reply)) == Ok::<Seq<char>, QueueErrorView>(text@),
            Err(e) => poll_outcome(reply_view(reply)) == Err::<Seq<char>, QueueErrorView>(e@),
        },
{
    match reply {
        Ok(Some(value)) => Ok(value),
        Ok(None) => Err(QueueError::ResultTimeout),
        Err(e) => Err(QueueError::BrokerFailed(e)),
    }
}

/// The value that a worker publishes for the outcome of a task.
pub open spec fn result_text(outcome: Result<Seq<char>, Seq<char>>) -> Seq<char> {
    match outcome {
        Ok(output) => "SUCCESS: "@ + output,
        Err(message) => "ERROR: "@ + message,
    }
}

/// The value that a worker publishes for the outcome of a task.
pub fn result_value(outcome: &Result<String, String>) -> (s: String)
    ensures
        s@ == result_text(
            match outcome {
                Ok(output) => Ok(output@),
                Err(message) => Err(message@),
            },
        ),
{
    match outcome {
        Ok(output) => "SUCCESS: ".to_owned().concat(output.as_str()),
        Err(message) => "ERROR: ".to_owned().concat(message.as_str()),
    }
}

/// What a worker reports for a task of a kind: for now a fixed sentence.
pub open spec fn execution_report(task_type: TaskType) -> Seq<char> {
    match task_type {
        TaskType::Shell => "Shell command executed successfully."@,
        TaskType::Docker => "Docker command executed successfully."@,
    }
}

/// Executes a task. No kind of task runs anything yet: each reports success
/// with a fixed sentence.
pub fn execute_task(task: &Task) -> (r: Result<String, String>)
    ensures
        r matches Ok(output) && output@ == execution_report(task.task_type),
{
    match task.task_type {
        TaskType::Shell => Ok("Shell command executed successfully.".to_owned()),
        TaskType::Docker => Ok("Docker command executed successfully.".to_owned()),
    }
}

/// What a worker does next.
#[derive(Debug)]
pub enum WorkerAction {
    /// Publish `value` under `key`: push it onto the list of that name, from
    /// which the client pops it, and let the list expire after `ttl_secs`
    /// seconds.
    Publish { key: String, value: String, ttl_secs: u64 },
    /// The text that was popped holds no task: go on with the next one.
    Skip,
    /// Rest for so many seconds before asking again.
    Sleep(u64),
}

/// What a [`WorkerAction`] stands for.
pub enum WorkerActionView {
    Publish { key: Seq<char>, value: Seq<char>, ttl_secs: u64 },
    Skip,
    Sleep(u64),
}

impl View for WorkerAction {
    type V = WorkerActionView;

    open spec fn view(&self) -> WorkerActionView {
        match self {
            WorkerAction::Publish { key, value, ttl_secs } => WorkerActionView::Publish {
                key: key@,
                value: value@,
                ttl_secs: *ttl_secs,
            },
            WorkerAction::Skip => WorkerActionView::Skip,
            WorkerAction::Sleep(secs) => WorkerActionView::Sleep(*secs),
        }
    }
}

/// The task that a text from the queue holds.
pub open spec fn task_in(text: Seq<char>) -> Option<TaskView> {
    match json_parse(text) {
        Ok(value) => decode_task(value),
        Err(_) => None,
    }
}

/// What a worker does with what it popped from the queue: a task is
/// executed and its result published under the task's key; a text that holds
/// no task is passed over; an empty queue and a failing broker make it rest.
pub open spec fn worker_action(popped: Result<Option<Seq<char>>, Seq<char>>) -> WorkerActionView {
    match popped {
        Ok(Some(text)) => match task_in(text) {
            Some(task) => WorkerActionView::Publish {
                key: result_key_of(task.id),
                value: result_text(Ok(execution_report(task.task_type))),
                ttl_secs: RESULT_TTL_SECS,
            },
            None => WorkerActionView::Skip,
        },
        Ok(None) => WorkerActionView::Sleep(IDLE_SLEEP_SECS),
        Err(_) => WorkerActionView::Sleep(FAILURE_SLEEP_SECS),
    }
}

/// One round of a worker: from what the broker answered to a pop from the
/// task queue to what the worker does next.
pub fn command_listener(popped: Result<Option<String>, String>) -> (action: WorkerAction)
    ensures
        action@ == worker_action(reply_view(popped)),
{
    match popped {
        Ok(Some(text)) => {
            let value = match Json::parse(text.as_str()) {
                Ok(value) => value,
                Err(_) => {
                    return WorkerAction::Skip;
                },
            };
            match Task::from_json(&value) {
                Some(task) => {
                    let outcome = execute_task(&task);
                    WorkerAction::Publish {
                        key: result_key(task.id.as_str()),
                        value: result_value(&outcome),
                        ttl_secs: RESULT_TTL_SECS,
                    }
                },
                None => WorkerAction::Skip,
            }
        },
        Ok(None) => WorkerAction::Sleep(IDLE_SLEEP_SECS),
        Err(_) => WorkerAction::Sleep(FAILURE_SLEEP_SECS),
    }
}

/// A result that a worker published in time comes back from the wait as it
/// was published, and a wait on which nothing appeared ends in a timeout.
pub proof fn lemma_published_result_is_polled(outcome: Result<Seq<char>, Seq<char>>)
    ensures
        poll_outcome(Ok(Some(result_text(outcome)))) == Ok::<Seq<char>, QueueErrorView>(
            result_text(outcome),
        ),
        outcome matches Ok(output) ==> poll_outcome(Ok(Some(result_text(outcome)))) == Ok::<
            Seq<char>,
            QueueErrorView,
        >("SUCCESS: "@ + output),
        poll_outcome(Ok(None)) == Err::<Seq<char>, QueueErrorView>(
            QueueErrorView::ResultTimeout,
        ),
{
}

/// The host on which the broker is looked for where none is named.
pub open spec fn default_broker_host() -> Seq<char> {
    "127.0.0.1"@
}

/// The address of the broker on a host.
pub open spec fn broker_address(host: Option<Seq<char>>) -> Seq<char> {
    "redis://"@ + (match host {
        Some(h) => h,
        None => default_broker_host(),
    }) + "/"@
}

/// The address of the broker on the host that the environment names, or on
/// this machine where it names none.
pub fn broker_url(host: Option<&str>) -> (url: String)
    ensures
        url@ == broker_address(
            match host {
                Some(h) => Some(h@),
                None => None,
            },
        ),
{
    let mut url = "redis://".to_owned();
    match host {
        Some(h) => url.append(h),
        None => url.append("127.0.0.1"),
    }
    url.append("/");
    url
}

/// The list onto which tasks for the container worker are pushed.
pub open spec fn docker_queue() -> Seq<char> {
    "mcp::tasks::docker"@
}

/// One unit of work for the container worker.
#[derive(Debug)]
pub struct DockerTask {
    pub id: String,
    pub action: String,
    pub params: Json,
}

/// What a [`DockerTask`] stands for.
pub struct DockerTaskView {
    pub id: Seq<char>,
    pub action: Seq<char>,
    pub params: JsonValue,
}

impl View for DockerTask {
    type V = DockerTaskView;

    open spec fn view(&self) -> DockerTaskView {
        DockerTaskView { id: self.id@, action: self.action@, params: self.params@ }
    }
}

/// The container task that a JSON value holds: an object whose `id` and
/// `action` are strings, and which has `params`.
pub open spec fn decode_docker_task(value: JsonValue) -> Option<DockerTaskView> {
    match (value.get("id"@), value.get("action"@), value.get("params"@)) {
        (Some(JsonValue::Str(id)), Some(JsonValue::Str(action)), Some(params)) => Some(
            DockerTaskView { id, action, params },
        ),
        _ => None,
    }
}

impl DockerTask {
    /// The container task that a JSON value holds, if it holds one.
    pub fn from_json(value: &Json) -> (r: Option<DockerTask>)
        ensures
            match r {
                Some(task) => decode_docker_task(value@) == Some(task@),
                None => decode_docker_task(value@) is None,
            },
    {
        let id = match value.get("id") {
            Some(Json::Str(id)) => id,
            _ => {
                return None;
            },
        };
        let action = match value.get("action") {
            Some(Json::Str(action)) => action,
            _ => {
                return None;
            },
        };
        match value.get("params") {
            Some(params) => Some(
                DockerTask { id: id.clone(), action: action.clone(), params: params.duplicate() },
            ),
            None => None,
        }
    }
}

/// What the container worker does with what it popped from its queue: for a
/// task it publishes the word `Success` under the task's result key, without
/// an expiry; everything else it passes over. `None` stands for nothing to do.
pub open spec fn docker_result(popped: Result<Option<Seq<char>>, Seq<char>>) -> Option<
    (Seq<char>, Seq<char>),
> {
    match popped {
        Ok(Some(text)) => match json_parse(text) {
            Ok(value) => match decode_docker_task(value) {
                Some(task) => Some((result_key_of(task.id), "Success"@)),
                None => None,
            },
            Err(_) => None,
        },
        _ => None,
    }
}

/// One round of the container worker: the key and the value to publish for
/// what was popped, if it was a task.
pub fn docker_listener(popped: Result<Option<String>, String>) -> (r: Option<(String, String)>)
    ensures
        match r {
            Some((key, value)) => docker_result(reply_view(popped)) == Some((key@, value@)),
            None => docker_result(reply_view(popped)) is None,
        },
{
    let text = match popped {
        Ok(Some(text)) => text,
        _ => {
            return None;
        },
    };
    let value = match Json::parse(text.as_str()) {
        Ok(value) => value,
        Err(_) => {
            return None;
        },
    };
    match DockerTask::from_json(&value) {
        Some(task) => Some((result_key(task.id.as_str()), "Success".to_owned())),
        None => None,
    }
}

} // verus!
