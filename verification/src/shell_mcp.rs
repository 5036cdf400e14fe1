//! The tool server's side of the RPC: reading a request, choosing the
//! method, and framing the answer. Running a command is left to the caller.

use crate::json::{
    int_value, items_view, json_parse, json_text, lookup, members_view, Json, JsonValue,
};
use crate::rpc::{optional, INTERNAL_ERROR, INVALID_PARAMS, METHOD_NOT_FOUND, PARSE_ERROR};
use crate::text::{lines_view, or_empty, same_text};
use vstd::prelude::*;

verus! {

/// A request as the server reads it.
#[derive(Debug)]
pub struct RpcRequest {
    /// The id, which the answer repeats; any JSON value.
    pub id: Json,
    pub method: String,
    pub params: Option<Json>,
}

/// What an [`RpcRequest`] stands for.
pub struct RpcRequestView {
    pub id: JsonValue,
    pub method: Seq<char>,
    pub params: Option<JsonValue>,
}

impl View for RpcRequest {
    type V = RpcRequestView;

    open spec fn view(&self) -> RpcRequestView {
        RpcRequestView {
            id: self.id@,
            method: self.method@,
            params: match self.params {
                Some(p) => Some(p@),
                None => None,
            },
        }
    }
}

/// An answer of the server: a result or an error, never both.
#[derive(Debug)]
pub struct RpcResponse {
    pub id: Json,
    pub result: Option<Json>,
    pub error: Option<Json>,
}

/// What an [`RpcResponse`] stands for.
pub struct RpcResponseView {
    pub id: JsonValue,
    pub result: Option<JsonValue>,
    pub error: Option<JsonValue>,
}

impl View for RpcResponse {
    type V = RpcResponseView;

    open spec fn view(&self) -> RpcResponseView {
        RpcResponseView {
            id: self.id@,
            result: match self.result {
                Some(r) => Some(r@),
                None => None,
            },
            error: match self.error {
                Some(e) => Some(e@),
                None => None,
            },
        }
    }
}

/// The error object for a code and a message.
pub open spec fn error_value(code: i64, message: Seq<char>) -> JsonValue {
    JsonValue::Object(seq![("code"@, int_value(code)), ("message"@, JsonValue::Str(message))])
}

/// An answer that reports an error.
pub open spec fn failure(id: JsonValue, code: i64, message: Seq<char>) -> RpcResponseView {
    RpcResponseView { id, result: None, error: Some(error_value(code, message)) }
}

/// An answer that carries a result.
pub open spec fn success(id: JsonValue, result: JsonValue) -> RpcResponseView {
    RpcResponseView { id, result: Some(result), error: None }
}

/// The code of the error that an answer reports, if it reports one.
pub open spec fn error_code(response: RpcResponseView) -> Option<JsonValue> {
    match response.error {
        Some(error) => error.get("code"@),
        None => None,
    }
}

/// The text of an answer: an object with `id` and `jsonrpc`, then `result`
/// and `error` as far as they are there, written without spaces.
pub open spec fn response_text(response: RpcResponseView) -> Seq<char> {
    "{\"id\":"@ + json_text(response.id) + ",\"jsonrpc\":\"2.0\""@ + (match response.result {
        Some(result) => ",\"result\":"@ + json_text(result),
        None => Seq::empty(),
    }) + (match response.error {
        Some(error) => ",\"error\":"@ + json_text(error),
        None => Seq::empty(),
    }) + "}"@
}

/// The request that a JSON value holds: an object with an `id`, a `method`
/// that is a string, and maybe `params`.
pub open spec fn decode_request(value: JsonValue) -> Option<RpcRequestView> {
    match (value.get("id"@), value.get("method"@)) {
        (Some(id), Some(JsonValue::Str(method))) => Some(
            RpcRequestView { id, method, params: optional(value.get("params"@)) },
        ),
        _ => None,
    }
}

/// Why a JSON value holds no request, in words; `None` where it holds one.
pub open spec fn shape_fault(value: JsonValue) -> Option<Seq<char>> {
    if !(value is Object) {
        Some("invalid type: expected a request object"@)
    } else if value.get("id"@) is None {
        Some("missing field `id`"@)
    } else {
        match value.get("method"@) {
            None => Some("missing field `method`"@),
            Some(JsonValue::Str(_)) => None,
            Some(_) => Some("invalid type: `method` is no string"@),
        }
    }
}

/// Why a line holds no request, in words: the words of the JSON error for a
/// line that is no JSON, and else what is wrong with the value's shape;
/// `None` where the line holds a request.
pub open spec fn request_fault(line: Seq<char>) -> Option<Seq<char>> {
    match json_parse(line) {
        Err(e) => Some(e),
        Ok(value) => shape_fault(value),
    }
}

/// The request that a line holds.
pub open spec fn request_in(line: Seq<char>) -> Option<RpcRequestView> {
    match json_parse(line) {
        Ok(value) => decode_request(value),
        Err(_) => None,
    }
}

/// A command for the server's host to run.
#[derive(Debug)]
pub enum Job {
    /// Run `command` in the local shell.
    Shell { command: String },
    /// Run `command` on `host` over the secure shell.
    Remote { host: String, command: String },
}

/// What a [`Job`] stands for.
pub enum JobView {
    Shell { command: Seq<char> },
    Remote { host: Seq<char>, command: Seq<char> },
}

impl View for Job {
    type V = JobView;

    open spec fn view(&self) -> JobView {
        match self {
            Job::Shell { command } => JobView::Shell { command: command@ },
            Job::Remote { host, command } => JobView::Remote { host: host@, command: command@ },
        }
    }
}

/// The program that runs a job.
pub open spec fn job_program(job: JobView) -> Seq<char> {
    match job {
        JobView::Shell { .. } => "sh"@,
        JobView::Remote { .. } => "ssh"@,
    }
}

/// The arguments with which the program is run.
pub open spec fn job_arguments(job: JobView) -> Seq<Seq<char>> {
    match job {
        JobView::Shell { command } => seq!["-c"@, command],
        JobView::Remote { host, command } => seq![host, command],
    }
}

impl Job {
    /// The program that runs the job.
    pub fn program(&self) -> (p: &'static str)
        ensures
            p@ == job_program(self@),
    {
        match self {
            Job::Shell { .. } => "sh",
            Job::Remote { .. } => "ssh",
        }
    }

    /// The arguments with which the program is run.
    pub fn arguments(&self) -> (args: Vec<String>)
        ensures
            lines_view(args@) == job_arguments(self@),
    {
        let args = match self {
            Job::Shell { command } => vec!["-c".to_owned(), command.clone()],
            Job::Remote { host, command } => vec![host.clone(), command.clone()],
        };
        args
    }
}

/// What the server does with a request: answer at once, or run a job and
/// answer when it has ended.
#[derive(Debug)]
pub enum ServerStep {
    Reply(RpcResponse),
    Run { id: Json, job: Job },
}

/// What a [`ServerStep`] stands for.
pub enum ServerStepView {
    Reply(RpcResponseView),
    Run { id: JsonValue, job: JobView },
}

impl View for ServerStep {
    type V = ServerStepView;

    open spec fn view(&self) -> ServerStepView {
        match self {
            ServerStep::Reply(response) => ServerStepView::Reply(response@),
            ServerStep::Run { id, job } => ServerStepView::Run { id: id@, job: job@ },
        }
    }
}

/// The string under `name` in the parameters.
pub open spec fn text_param(params: JsonValue, name: Seq<char>) -> Option<Seq<char>> {
    match params.get(name) {
        Some(JsonValue::Str(text)) => Some(text),
        _ => None,
    }
}

/// What `exec` does with a request: the parameters must be an object, and
/// `command` in it a string.
pub open spec fn exec_step(request: RpcRequestView) -> ServerStepView {
    match request.params {
        Some(JsonValue::Object(members)) => match text_param(
            JsonValue::Object(members),
            "command"@,
        ) {
            Some(command) => ServerStepView::Run {
                id: request.id,
                job: JobView::Shell { command },
            },
            None => ServerStepView::Reply(
                failure(request.id, INVALID_PARAMS, "Missing or invalid 'command' parameter"@),
            ),
        },
        _ => ServerStepView::Reply(failure(request.id, INVALID_PARAMS, "Invalid params"@)),
    }
}

/// What `remote_exec` does with a request: the parameters must be an object,
/// and `host` and `command` in it strings.
pub open spec fn remote_exec_step(request: RpcRequestView) -> ServerStepView {
    match request.params {
        Some(JsonValue::Object(members)) => {
            let params = JsonValue::Object(members);
            match text_param(params, "host"@) {
                None => ServerStepView::Reply(
                    failure(request.id, INVALID_PARAMS, "Missing 'host' parameter"@),
                ),
                Some(host) => match text_param(params, "command"@) {
                    None => ServerStepView::Reply(
                        failure(request.id, INVALID_PARAMS, "Missing 'command' parameter"@),
                    ),
                    Some(command) => ServerStepView::Run {
                        id: request.id,
                        job: JobView::Remote { host, command },
                    },
                },
            }
        },
        _ => ServerStepView::Reply(failure(request.id, INVALID_PARAMS, "Invalid params"@)),
    }
}

/// An answer that reports an error.
pub fn error_response(id: Json, code: i64, message: String) -> (response: RpcResponse)
    ensures
        response@ == failure(id@, code, message@),
{
    let members = vec![
        Json::member("code", Json::integer(code)),
        Json::member("message", Json::Str(message)),
    ];
    assert(members_view(members@) =~= seq![
        ("code"@, int_value(code)),
        ("message"@, JsonValue::Str(message@)),
    ]);
    RpcResponse { id, result: None, error: Some(Json::Object(members)) }
}

/// The string under `name` in the parameters.
fn text_parameter<'a>(params: &'a Json, name: &str) -> (r: Option<&'a String>)
    ensures
        match r {
            Some(text) => text_param(params@, name@) == Some(text@),
            None => text_param(params@, name@) is None,
        },
{
    match params.get(name) {
        Some(Json::Str(text)) => Some(text),
        _ => None,
    }
}

/// Answers `exec`: checks the parameters, and asks for the command to be run
/// in the local shell.
pub fn handle_exec(request: &RpcRequest) -> (step: ServerStep)
    ensures
        step@ == exec_step(request@),
{
    let params = match &request.params {
        Some(params) => params,
        None => {
            return ServerStep::Reply(
                error_response(
                    request.id.duplicate(),
                    INVALID_PARAMS,
                    "Invalid params".to_owned(),
                ),
            );
        },
    };
    if !params.is_object() {
        return ServerStep::Reply(
            error_response(request.id.duplicate(), INVALID_PARAMS, "Invalid params".to_owned()),
        );
    }
    match text_parameter(params, "command") {
        Some(command) => ServerStep::Run {
            id: request.id.duplicate(),
            job: Job::Shell { command: command.clone() },
        },
        None => ServerStep::Reply(
            error_response(
                request.id.duplicate(),
                INVALID_PARAMS,
                "Missing or invalid 'command' parameter".to_owned(),
            ),
        ),
    }
}

/// Answers `remote_exec`: checks the parameters, and asks for the command to
/// be run on the host over the secure shell.
pub fn handle_remote_exec(request: &RpcRequest) -> (step: ServerStep)
    ensures
        step@ == remote_exec_step(request@),
{
    let params = match &request.params {
        Some(params) => params,
        None => {
            return ServerStep::Reply(
                error_response(
                    request.id.duplicate(),
                    INVALID_PARAMS,
                    "Invalid params".to_owned(),
                ),
            );
        },
    };
    if !params.is_object() {
        return ServerStep::Reply(
            error_response(request.id.duplicate(), INVALID_PARAMS, "Invalid params".to_owned()),
        );
    }
    let host = match text_parameter(params, "host") {
        Some(host) => host,
        None => {
            return ServerStep::Reply(
                error_response(
                    request.id.duplicate(),
                    INVALID_PARAMS,
                    "Missing 'host' parameter".to_owned(),
                ),
            );
        },
    };
    match text_parameter(params, "command") {
        Some(command) => ServerStep::Run {
            id: request.id.duplicate(),
            job: Job::Remote { host: host.clone(), command: command.clone() },
        },
        None => ServerStep::Reply(
            error_response(
                request.id.duplicate(),
                INVALID_PARAMS,
                "Missing 'command' parameter".to_owned(),
            ),
        ),
    }
}

/// The description of a parameter that is a string.
pub open spec fn string_property(description: Seq<char>) -> JsonValue {
    JsonValue::Object(
        seq![("type"@, JsonValue::Str("string"@)), ("description"@, JsonValue::Str(description))],
    )
}

/// The catalogue's entry for a tool: its name, what it does, and the
/// parameters that it takes, with the names of those that it needs.
pub open spec fn tool_entry(
    name: Seq<char>,
    description: Seq<char>,
    properties: Seq<(Seq<char>, JsonValue)>,
    required: Seq<JsonValue>,
) -> JsonValue {
    JsonValue::Object(
        seq![
            ("name"@, JsonValue::Str(name)),
            ("description"@, JsonValue::Str(description)),
            (
                "parameters"@,
                JsonValue::Object(
                    seq![
                        ("type"@, JsonValue::Str("object"@)),
                        ("properties"@, JsonValue::Object(properties)),
                        ("required"@, JsonValue::Array(required)),
                    ],
                ),
            ),
        ],
    )
}

/// The catalogue of the server's tools.
pub open spec fn tools_catalogue() -> JsonValue {
    JsonValue::Array(
        seq![
            tool_entry(
                "exec"@,
                "Execute a shell command on the local machine."@,
                seq![("command"@, string_property("The shell command to execute."@))],
                seq![JsonValue::Str("command"@)],
            ),
            tool_entry(
                "remote_exec"@,
                "Execute a non-interactive shell command on a remote host via SSH."@,
                seq![
                    (
                        "host"@,
                        string_property(
                            "The remote host to connect to, e.g., 'user@hostname'."@,
                        ),
                    ),
                    ("command"@, string_property("The command to execute on the remote host."@)),
                ],
                seq![JsonValue::Str("host"@), JsonValue::Str("command"@)],
            ),
        ],
    )
}

/// The description of a parameter that is a string.
fn describe_string(description: &str) -> (j: Json)
    ensures
        j@ == string_property(description@),
{
    let members = vec![
        Json::member("type", Json::string("string")),
        Json::member("description", Json::string(description)),
    ];
    assert(members_view(members@) =~= seq![
        ("type"@, JsonValue::Str("string"@)),
        ("description"@, JsonValue::Str(description@)),
    ]);
    Json::Object(members)
}

/// The catalogue's entry for a tool.
fn describe_tool(
    name: &str,
    description: &str,
    properties: Vec<(String, Json)>,
    required: Vec<Json>,
) -> (j: Json)
    ensures
        j@ == tool_entry(name@, description@, members_view(properties@), items_view(required@)),
{
    let parameters = vec![
        Json::member("type", Json::string("object")),
        Json::member("properties", Json::Object(properties)),
        Json::member("required", Json::Array(required)),
    ];
    assert(members_view(parameters@) =~= seq![
        ("type"@, JsonValue::Str("object"@)),
        ("properties"@, JsonValue::Object(members_view(properties@))),
        ("required"@, JsonValue::Array(items_view(required@))),
    ]);
    let members = vec![
        Json::member("name", Json::string(name)),
        Json::member("description", Json::string(description)),
        Json::member("parameters", Json::Object(parameters)),
    ];
    assert(members_view(members@) =~= seq![
        ("name"@, JsonValue::Str(name@)),
        ("description"@, JsonValue::Str(description@)),
        ("parameters"@, JsonValue::Object(members_view(parameters@))),
    ]);
    Json::Object(members)
}

/// Answers `list_tools` with the catalogue of the server's tools.
pub fn handle_list_tools(request: &RpcRequest) -> (response: RpcResponse)
    ensures
        response@ == success(request@.id, tools_catalogue()),
{
    let exec_properties = vec![
        Json::member("command", describe_string("The shell command to execute.")),
    ];
    assert(members_view(exec_properties@) =~= seq![
        ("command"@, string_property("The shell command to execute."@)),
    ]);
    let exec_required = vec![Json::string("command")];
    assert(items_view(exec_required@) =~= seq![JsonValue::Str("command"@)]);
    let exec = describe_tool(
        "exec",
        "Execute a shell command on the local machine.",
        exec_properties,
        exec_required,
    );
    let remote_properties = vec![
        Json::member(
            "host",
            describe_string("The remote host to connect to, e.g., 'user@hostname'."),
        ),
        Json::member("command", describe_string("The command to execute on the remote host.")),
    ];
    assert(members_view(remote_properties@) =~= seq![
        ("host"@, string_property("The remote host to connect to, e.g., 'user@hostname'."@)),
        ("command"@, string_property("The command to execute on the remote host."@)),
    ]);
    let remote_required = vec![Json::string("host"), Json::string("command")];
    assert(items_view(remote_required@) =~= seq![
        JsonValue::Str("host"@),
        JsonValue::Str("command"@),
    ]);
    let remote = describe_tool(
        "remote_exec",
        "Execute a non-interactive shell command on a remote host via SSH.",
        remote_properties,
        remote_required,
    );
    let tools = vec![exec, remote];
    assert(items_view(tools@) =~= seq![exec@, remote@]);
    RpcResponse { id: request.id.duplicate(), result: Some(Json::Array(tools)), error: None }
}

/// What the server does with a request: the method chooses.
pub open spec fn server_step(request: RpcRequestView) -> ServerStepView {
    if request.method == "list_tools"@ {
        ServerStepView::Reply(success(request.id, tools_catalogue()))
    } else if request.method == "exec"@ {
        exec_step(request)
    } else if request.method == "remote_exec"@ {
        remote_exec_step(request)
    } else {
        ServerStepView::Reply(failure(request.id, METHOD_NOT_FOUND, "Method not found"@))
    }
}

/// What the server does with a line: a request is handed to its method,
/// and a line that holds none is answered with a parse error, under the id
/// `null`, that says what is wrong with the line.
pub open spec fn line_step(line: Seq<char>) -> ServerStepView {
    match request_in(line) {
        Some(request) => server_step(request),
        None => ServerStepView::Reply(
            failure(
                JsonValue::Null,
                PARSE_ERROR,
                "Parse error: "@ + or_empty(request_fault(line)),
            ),
        ),
    }
}

/// A line has a fault exactly where it holds no request.
pub proof fn lemma_fault_or_request(line: Seq<char>)
    ensures
        request_fault(line) is Some <==> request_in(line) is None,
{
}

impl RpcRequest {
    /// The request that a JSON value holds, if it holds one.
    pub fn from_json(value: &Json) -> (r: Option<RpcRequest>)
        ensures
            match r {
                Some(request) => decode_request(value@) == Some(request@),
                None => decode_request(value@) is None,
            },
    {
        let id = match value.get("id") {
            Some(id) => id,
            None => {
                return None;
            },
        };
        let method = match value.get("method") {
            Some(Json::Str(method)) => method,
            _ => {
                return None;
            },
        };
        let params = match value.get("params") {
            None => None,
            Some(Json::Null) => None,
            Some(params) => Some(params.duplicate()),
        };
        Some(RpcRequest { id: id.duplicate(), method: method.clone(), params })
    }
}

impl RpcResponse {
    /// The answer as JSON text, without the line feed that ends it.
    pub fn to_json_text(&self) -> (s: String)
        ensures
            s@ == response_text(self@),
    {
        let id = self.id.to_text();
        let mut s = "{\"id\":".to_owned();
        s.append(id.as_str());
        s.append(",\"jsonrpc\":\"2.0\"");
        if let Some(result) = &self.result {
            let text = result.to_text();
            s.append(",\"result\":");
            s.append(text.as_str());
        }
        if let Some(error) = &self.error {
            let text = error.to_text();
            s.append(",\"error\":");
            s.append(text.as_str());
        }
        s.append("}");
        s
    }
}

/// Chooses the method for a request.
pub fn dispatch(request: &RpcRequest) -> (step: ServerStep)
    ensures
        step@ == server_step(request@),
{
    if same_text(request.method.as_str(), "list_tools") {
        ServerStep::Reply(handle_list_tools(request))
    } else if same_text(request.method.as_str(), "exec") {
        handle_exec(request)
    } else if same_text(request.method.as_str(), "remote_exec") {
        handle_remote_exec(request)
    } else {
        ServerStep::Reply(
            error_response(
                request.id.duplicate(),
                METHOD_NOT_FOUND,
                "Method not found".to_owned(),
            ),
        )
    }
}

/// Takes one line from the client and says what the server does with it.
pub fn handle_line(line: &str) -> (step: ServerStep)
    ensures
        step@ == line_step(line@),
{
    let value = match Json::parse(line) {
        Ok(value) => value,
        Err(e) => {
            return ServerStep::Reply(
                error_response(
                    Json::Null,
                    PARSE_ERROR,
                    "Parse error: ".to_owned().concat(e.as_str()),
                ),
            );
        },
    };
    match RpcRequest::from_json(&value) {
        Some(request) => dispatch(&request),
        None => {
            let fault = if !value.is_object() {
                "invalid type: expected a request object"
            } else if value.get("id").is_none() {
                "missing field `id`"
            } else if value.get("method").is_none() {
                "missing field `method`"
            } else {
                "invalid type: `method` is no string"
            };
            ServerStep::Reply(
                error_response(
                    Json::Null,
                    PARSE_ERROR,
                    "Parse error: ".to_owned().concat(fault),
                ),
            )
        },
    }
}

/// What a command left behind when it ended.
#[derive(Debug)]
pub struct ProcessOutput {
    pub stdout: String,
    pub stderr: String,
    /// The exit code; `None` where the command was ended by a signal.
    pub status: Option<i32>,
}

/// The result that reports what a command left behind.
pub open spec fn output_value(stdout: Seq<char>, stderr: Seq<char>, status: Option<i32>) -> JsonValue {
    JsonValue::Object(
        seq![
            (
                "status"@,
                match status {
                    Some(code) => int_value(code as i64),
                    None => JsonValue::Null,
                },
            ),
            ("stderr"@, JsonValue::Str(stderr)),
            ("stdout"@, JsonValue::Str(stdout)),
        ],
    )
}

/// How the report of a job that could not be run begins.
pub open spec fn job_failure_prefix(job: JobView) -> Seq<char> {
    match job {
        JobView::Shell { .. } => "Failed to execute command: "@,
        JobView::Remote { .. } => "Failed to execute ssh command: "@,
    }
}

/// The answer to a request whose job has ended: what the command left
/// behind, or, where it could not be run, an internal error that says why.
pub fn job_finished(id: Json, job: &Job, outcome: Result<ProcessOutput, String>) -> (response:
    RpcResponse)
    ensures
        response@ == match outcome {
            Ok(output) => success(
                id@,
                output_value(output.stdout@, output.stderr@, output.status),
            ),
            Err(e) => failure(id@, INTERNAL_ERROR, job_failure_prefix(job@) + e@),
        },
{
    match outcome {
        Ok(output) => {
            let status = match output.status {
                Some(code) => Json::integer(code as i64),
                None => Json::Null,
            };
            let ghost wanted = output_value(output.stdout@, output.stderr@, output.status);
            let members = vec![
                Json::member("status", status),
                Json::member("stderr", Json::Str(output.stderr)),
                Json::member("stdout", Json::Str(output.stdout)),
            ];
            let result = Json::Object(members);
            assert(wanted matches JsonValue::Object(fields) && fields =~= members_view(members@));
            RpcResponse { id, result: Some(result), error: None }
        },
        Err(e) => {
            let prefix = match job {
                Job::Shell { .. } => "Failed to execute command: ",
                Job::Remote { .. } => "Failed to execute ssh command: ",
            };
            error_response(id, INTERNAL_ERROR, prefix.to_owned().concat(e.as_str()))
        },
    }
}

/// The id under which a step answers.
pub open spec fn step_id(step: ServerStepView) -> JsonValue {
    match step {
        ServerStepView::Reply(response) => response.id,
        ServerStepView::Run { id, .. } => id,
    }
}

/// Every answer carries the id of the request that it answers.
pub proof fn lemma_answer_repeats_id(request: RpcRequestView)
    ensures
        step_id(server_step(request)) == request.id,
{
}

/// A method that the server does not have is answered with the code for
/// "method not found".
pub proof fn lemma_unknown_method(request: RpcRequestView)
    requires
        request.method != "list_tools"@,
        request.method != "exec"@,
        request.method != "remote_exec"@,
    ensures
        server_step(request) matches ServerStepView::Reply(response) && error_code(response)
            == Some(int_value(METHOD_NOT_FOUND)),
{
}

/// A request for `exec` or `remote_exec` that lacks a parameter which the
/// method needs is answered with the code for "invalid params".
pub proof fn lemma_missing_parameter(request: RpcRequestView)
    requires
        request.method == "exec"@ || request.method == "remote_exec"@,
        match request.params {
            Some(JsonValue::Object(members)) => {
                ||| text_param(JsonValue::Object(members), "command"@) is None
                ||| (request.method == "remote_exec"@ && text_param(
                    JsonValue::Object(members),
                    "host"@,
                ) is None)
            },
            _ => true,
        },
    ensures
        server_step(request) matches ServerStepView::Reply(response) && error_code(response)
            == Some(int_value(INVALID_PARAMS)),
{
    reveal_strlit("list_tools");
    reveal_strlit("exec");
    reveal_strlit("remote_exec");
    assert("list_tools"@.len() == 10 && "exec"@.len() == 4 && "remote_exec"@.len() == 11);
}

/// A line that cannot be read as a request is answered with the code for
/// "parse error".
pub proof fn lemma_unparsable_request(line: Seq<char>)
    requires
        request_in(line) is None,
    ensures
        line_step(line) matches ServerStepView::Reply(response) && error_code(response) == Some(
            int_value(PARSE_ERROR),
        ) && response.id == JsonValue::Null,
{
}

} // verus!
