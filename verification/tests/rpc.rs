use lucius::json::Json;
use lucius::rpc::{McpClient, INTERNAL_ERROR, INVALID_PARAMS, METHOD_NOT_FOUND, PARSE_ERROR};
use lucius::shell_mcp::{
    dispatch, error_response, handle_exec, handle_line, handle_list_tools, handle_remote_exec,
    job_finished, Job, ProcessOutput, RpcRequest, RpcResponse, ServerStep,
};

fn reply(step: ServerStep) -> RpcResponse {
    match step {
        ServerStep::Reply(r) => r,
        other => panic!("no reply: {:?}", other),
    }
}

fn code(r: &RpcResponse) -> i64 {
    match r.error.as_ref().unwrap().get("code").unwrap() {
        Json::NegInt(n) => *n,
        other => panic!("no code: {:?}", other),
    }
}

fn message(r: &RpcResponse) -> String {
    r.error.as_ref().unwrap().get("message").unwrap().as_str().unwrap().to_string()
}

#[test]
fn error_codes() {
    assert_eq!(PARSE_ERROR, -32700);
    assert_eq!(METHOD_NOT_FOUND, -32601);
    assert_eq!(INVALID_PARAMS, -32602);
    assert_eq!(INTERNAL_ERROR, -32603);
}

#[test]
fn ids_start_at_one_and_grow() {
    let mut client = McpClient::new();
    assert_eq!(client.next_id(), 1);
    let first = client.begin_call("list_tools", &Json::Null).unwrap();
    let second = client.begin_call("exec", &Json::Object(vec![Json::member("command", Json::string("ls"))])).unwrap();
    let third = client.begin_call("exec", &Json::Null).unwrap();
    assert_eq!((first.id, second.id, third.id), (1, 2, 3));
    assert!(first.id < second.id && second.id < third.id);
    assert_eq!(client.next_id(), 4);
    assert_eq!(first.line, "{\"jsonrpc\":\"2.0\",\"method\":\"list_tools\",\"params\":null,\"id\":1}\n");
    assert_eq!(
        second.line,
        "{\"jsonrpc\":\"2.0\",\"method\":\"exec\",\"params\":{\"command\":\"ls\"},\"id\":2}\n"
    );
}

#[test]
fn answers_are_read() {
    let ok = McpClient::end_call(1, "{\"jsonrpc\":\"2.0\",\"result\":{\"stdout\":\"a\"},\"id\":1}\n").unwrap();
    assert_eq!(ok.to_text(), "{\"stdout\":\"a\"}");
    let e = McpClient::end_call(1, "{\"jsonrpc\":\"2.0\",\"error\":{\"code\":-32601,\"message\":\"Method not found\"},\"id\":1}").unwrap_err();
    assert_eq!(e, "{\"code\":-32601,\"message\":\"Method not found\"}");
    let e = McpClient::end_call(1, "{\"jsonrpc\":\"2.0\",\"result\":1,\"error\":\"both\",\"id\":1}").unwrap_err();
    assert_eq!(e, "\"both\"");
    assert_eq!(McpClient::end_call(1, "{\"jsonrpc\":\"2.0\",\"id\":1}").unwrap_err(), "No result in response");
    assert_eq!(
        McpClient::end_call(1, "{\"jsonrpc\":\"2.0\",\"result\":null,\"error\":null,\"id\":1}").unwrap_err(),
        "No result in response"
    );
    assert_eq!(McpClient::end_call(1, "").unwrap_err(), "EOF while parsing a value at line 1 column 0");
    assert_eq!(McpClient::end_call(1, "{\"result\":1,\"id\":1}").unwrap_err(), "Invalid response: no version");
    assert_eq!(McpClient::end_call(1, "{\"jsonrpc\":\"2.0\",\"result\":1}").unwrap_err(), "Invalid response: no id");
    assert_eq!(
        McpClient::end_call(1, "{\"jsonrpc\":\"2.0\",\"result\":1,\"id\":-1}").unwrap_err(),
        "Invalid response: no id"
    );
}

#[test]
fn an_answer_under_another_id_is_not_taken() {
    let line = "{\"jsonrpc\":\"2.0\",\"result\":{\"stdout\":\"a\"},\"id\":7}";
    assert_eq!(McpClient::end_call(7, line).unwrap().to_text(), "{\"stdout\":\"a\"}");
    for id in [0, 1, 6, 8, u64::MAX] {
        assert_eq!(
            McpClient::end_call(id, line).unwrap_err(),
            "Invalid response: the id is not the request's"
        );
    }
    let failed = "{\"jsonrpc\":\"2.0\",\"error\":\"no\",\"id\":7}";
    assert_eq!(McpClient::end_call(7, failed).unwrap_err(), "\"no\"");
    assert_eq!(
        McpClient::end_call(8, failed).unwrap_err(),
        "Invalid response: the id is not the request's"
    );
    assert_eq!(
        McpClient::end_call(7, "{\"jsonrpc\":\"2.0\",\"result\":1,\"id\":7.0}").unwrap_err(),
        "Invalid response: no id"
    );
}

#[test]
fn two_calls_are_each_answered_under_their_own_id() {
    let mut client = McpClient::new();
    let first = client.begin_call("list_tools", &Json::Null).unwrap();
    let second = client.begin_call("list_tools", &Json::Null).unwrap();
    let first_answer = reply(handle_line(first.line.trim_end())).to_json_text();
    let second_answer = reply(handle_line(second.line.trim_end())).to_json_text();
    assert!(McpClient::end_call(first.id, &first_answer).is_ok());
    assert!(McpClient::end_call(second.id, &second_answer).is_ok());
    assert!(McpClient::end_call(first.id, &second_answer).is_err());
    assert!(McpClient::end_call(second.id, &first_answer).is_err());
}

#[test]
fn unknown_method_is_not_found() {
    let r = reply(handle_line("{\"jsonrpc\":\"2.0\",\"method\":\"nope\",\"params\":{},\"id\":9}"));
    assert_eq!(code(&r), -32601);
    assert_eq!(message(&r), "Method not found");
    assert_eq!(r.id.as_u64(), Some(9));
    assert!(r.result.is_none());
    assert_eq!(
        r.to_json_text(),
        "{\"id\":9,\"jsonrpc\":\"2.0\",\"error\":{\"code\":-32601,\"message\":\"Method not found\"}}"
    );
}

#[test]
fn missing_parameter_is_invalid_params() {
    let r = reply(handle_line("{\"method\":\"exec\",\"params\":{},\"id\":1}"));
    assert_eq!(code(&r), -32602);
    assert_eq!(message(&r), "Missing or invalid 'command' parameter");
    let r = reply(handle_line("{\"method\":\"exec\",\"params\":{\"command\":5},\"id\":1}"));
    assert_eq!(code(&r), -32602);
    let r = reply(handle_line("{\"method\":\"exec\",\"id\":1}"));
    assert_eq!((code(&r), message(&r)), (-32602, "Invalid params".to_string()));
    let r = reply(handle_line("{\"method\":\"exec\",\"params\":[\"ls\"],\"id\":1}"));
    assert_eq!((code(&r), message(&r)), (-32602, "Invalid params".to_string()));
    let r = reply(handle_line("{\"method\":\"remote_exec\",\"params\":{\"command\":\"ls\"},\"id\":\"a\"}"));
    assert_eq!((code(&r), message(&r)), (-32602, "Missing 'host' parameter".to_string()));
    assert_eq!(r.id.as_str(), Some("a"));
    let r = reply(handle_line("{\"method\":\"remote_exec\",\"params\":{\"host\":\"h\"},\"id\":1}"));
    assert_eq!((code(&r), message(&r)), (-32602, "Missing 'command' parameter".to_string()));
    let r = reply(handle_line("{\"method\":\"remote_exec\",\"params\":null,\"id\":1}"));
    assert_eq!((code(&r), message(&r)), (-32602, "Invalid params".to_string()));
}

#[test]
fn unparsable_request_is_a_parse_error() {
    let r = reply(handle_line("{not json"));
    assert_eq!(code(&r), -32700);
    assert_eq!(message(&r), "Parse error: key must be a string at line 1 column 2");
    assert!(matches!(r.id, Json::Null));
    assert_eq!(
        r.to_json_text(),
        "{\"id\":null,\"jsonrpc\":\"2.0\",\"error\":{\"code\":-32700,\"message\":\"Parse error: key must be a string at line 1 column 2\"}}"
    );
    let r = reply(handle_line("{\"method\":\"exec\"}"));
    assert_eq!((code(&r), message(&r)), (-32700, "Parse error: missing field `id`".to_string()));
    let r = reply(handle_line("{\"id\":1}"));
    assert_eq!((code(&r), message(&r)), (-32700, "Parse error: missing field `method`".to_string()));
    let r = reply(handle_line("{\"id\":1,\"method\":7}"));
    assert_eq!((code(&r), message(&r)), (-32700, "Parse error: invalid type: `method` is no string".to_string()));
    let r = reply(handle_line("7"));
    assert_eq!((code(&r), message(&r)), (-32700, "Parse error: invalid type: expected a request object".to_string()));
}

#[test]
fn exec_asks_for_the_shell() {
    match handle_line("{\"method\":\"exec\",\"params\":{\"command\":\"uptime\"},\"id\":3}") {
        ServerStep::Run { id, job } => {
            assert_eq!(id.as_u64(), Some(3));
            assert_eq!(job.program(), "sh");
            assert_eq!(job.arguments(), vec!["-c".to_string(), "uptime".to_string()]);
        }
        other => panic!("no job: {:?}", other),
    }
}

#[test]
fn remote_exec_asks_for_the_secure_shell() {
    match handle_line("{\"method\":\"remote_exec\",\"params\":{\"host\":\"me@box\",\"command\":\"ls\"},\"id\":3}") {
        ServerStep::Run { id, job } => {
            assert_eq!(id.as_u64(), Some(3));
            assert_eq!(job.program(), "ssh");
            assert_eq!(job.arguments(), vec!["me@box".to_string(), "ls".to_string()]);
        }
        other => panic!("no job: {:?}", other),
    }
}

#[test]
fn handlers_can_be_called_directly() {
    let request = RpcRequest { id: Json::PosInt(1), method: "whatever".to_string(), params: None };
    assert_eq!(code(&reply(handle_exec(&request))), -32602);
    assert_eq!(code(&reply(handle_remote_exec(&request))), -32602);
    assert_eq!(code(&reply(dispatch(&request))), -32601);
    let r = error_response(Json::Null, -1, "m".to_string());
    assert_eq!(r.to_json_text(), "{\"id\":null,\"jsonrpc\":\"2.0\",\"error\":{\"code\":-1,\"message\":\"m\"}}");
}

#[test]
fn list_tools_gives_the_catalogue() {
    let r = reply(handle_line("{\"method\":\"list_tools\",\"id\":[1]}"));
    assert!(r.error.is_none());
    assert_eq!(r.id.to_text(), "[1]");
    let expected = "[{\"description\":\"Execute a shell command on the local machine.\",\"name\":\"exec\",\"parameters\":{\"properties\":{\"command\":{\"description\":\"The shell command to execute.\",\"type\":\"string\"}},\"required\":[\"command\"],\"type\":\"object\"}},{\"description\":\"Execute a non-interactive shell command on a remote host via SSH.\",\"name\":\"remote_exec\",\"parameters\":{\"properties\":{\"command\":{\"description\":\"The command to execute on the remote host.\",\"type\":\"string\"},\"host\":{\"description\":\"The remote host to connect to, e.g., 'user@hostname'.\",\"type\":\"string\"}},\"required\":[\"host\",\"command\"],\"type\":\"object\"}}]";
    assert_eq!(r.result.as_ref().unwrap().to_text(), expected);
    let request = RpcRequest { id: Json::Null, method: "list_tools".to_string(), params: None };
    assert_eq!(handle_list_tools(&request).result.unwrap().to_text(), expected);
}

#[test]
fn a_finished_job_is_reported() {
    let job = Job::Shell { command: "ls".to_string() };
    let out = ProcessOutput { stdout: "a\n".to_string(), stderr: String::new(), status: Some(0) };
    let r = job_finished(Json::PosInt(5), &job, Ok(out));
    assert_eq!(
        r.to_json_text(),
        "{\"id\":5,\"jsonrpc\":\"2.0\",\"result\":{\"status\":0,\"stderr\":\"\",\"stdout\":\"a\\n\"}}"
    );
    let out = ProcessOutput { stdout: String::new(), stderr: "x".to_string(), status: None };
    let r = job_finished(Json::PosInt(5), &job, Ok(out));
    assert_eq!(r.result.unwrap().to_text(), "{\"status\":null,\"stderr\":\"x\",\"stdout\":\"\"}");
    let out = ProcessOutput { stdout: String::new(), stderr: String::new(), status: Some(-1) };
    let r = job_finished(Json::PosInt(5), &job, Ok(out));
    assert_eq!(r.result.unwrap().to_text(), "{\"status\":-1,\"stderr\":\"\",\"stdout\":\"\"}");
}

#[test]
fn a_job_that_could_not_run_is_an_internal_error() {
    let r = job_finished(Json::PosInt(5), &Job::Shell { command: "ls".to_string() }, Err("no sh".to_string()));
    assert_eq!((code(&r), message(&r)), (-32603, "Failed to execute command: no sh".to_string()));
    let job = Job::Remote { host: "h".to_string(), command: "ls".to_string() };
    let r = job_finished(Json::PosInt(5), &job, Err("no ssh".to_string()));
    assert_eq!((code(&r), message(&r)), (-32603, "Failed to execute ssh command: no ssh".to_string()));
    assert_eq!(r.id.as_u64(), Some(5));
}

#[test]
fn a_call_is_answered_under_its_id() {
    let mut client = McpClient::new();
    for _ in 0..3 {
        let call = client.begin_call("nope", &Json::Null).unwrap();
        let answer = reply(handle_line(call.line.trim_end()));
        assert_eq!(answer.id.as_u64(), Some(call.id));
        let line = answer.to_json_text();
        assert_eq!(
            McpClient::end_call(call.id, &line).unwrap_err(),
            "{\"code\":-32601,\"message\":\"Method not found\"}"
        );
    }
}
