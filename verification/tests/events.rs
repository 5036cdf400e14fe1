use lucius::events::{handle_llm_turn, last_response, Turn, TurnStep};
use lucius::json::Json;
use lucius::llm::{chat_request, chat_stream, LLMResponse};
use lucius::mcp::ToolCall;
use lucius::queue::{command_listener, poll_result, submit_task, QueueError, TaskType, WorkerAction};

fn content_line(content: &str, done: bool) -> String {
    let quoted = Json::string(content).to_text();
    format!("{{\"message\":{{\"content\":{}}},\"done\":{}}}", quoted, done)
}

fn exec_call() -> ToolCall {
    ToolCall {
        tool: "exec".to_string(),
        params: Json::Object(vec![Json::member("command", Json::string("ls"))]),
    }
}

#[test]
fn a_final_answer_is_delivered() {
    let turn = Turn::new(vec!["You: hi".to_string()]);
    let step = handle_llm_turn(turn, Ok(LLMResponse::FinalResponse("hello".to_string())), true);
    assert!(matches!(step, TurnStep::Deliver(t) if t == "hello"));
}

#[test]
fn a_broken_stream_is_delivered_as_text() {
    let turn = Turn::new(vec!["You: hi".to_string()]);
    let step = handle_llm_turn(turn, Err("connection refused".to_string()), true);
    assert!(matches!(step, TurnStep::Deliver(t) if t == "Error from chat stream: connection refused"));
}

#[test]
fn a_tool_call_is_recorded_and_run() {
    let turn = Turn::new(vec!["You: list files".to_string()]);
    let waiting = match handle_llm_turn(turn, Ok(LLMResponse::ToolCallDetected(exec_call())), true) {
        TurnStep::CallTool(w) => w,
        other => panic!("no call: {:?}", other),
    };
    assert_eq!(
        waiting.messages(),
        &vec![
            "You: list files".to_string(),
            "Tool Call: {\"tool\":\"exec\",\"params\":{\"command\":\"ls\"}}".to_string(),
        ]
    );
    assert!(waiting.call().same(&exec_call()));
    let turn = waiting.resolve(Ok("SUCCESS: ok".to_string()));
    assert_eq!(turn.messages().len(), 3);
    assert_eq!(turn.messages()[2], "Tool Result: SUCCESS: ok");
}

#[test]
fn a_failed_tool_becomes_a_result_that_says_so() {
    let turn = Turn::new(Vec::new());
    let waiting = match handle_llm_turn(turn, Ok(LLMResponse::ToolCallDetected(exec_call())), true) {
        TurnStep::CallTool(w) => w,
        other => panic!("no call: {:?}", other),
    };
    let error = poll_result(Ok(None)).map_err(|e: QueueError| e.message());
    let turn = waiting.resolve(error);
    assert_eq!(
        turn.messages()[1],
        "Tool Result: Tool Error: Timed out waiting for the task result"
    );
}

#[test]
fn without_a_tool_server_the_model_is_told_at_once() {
    let turn = Turn::new(vec!["You: list files".to_string()]);
    let turn = match handle_llm_turn(turn, Ok(LLMResponse::ToolCallDetected(exec_call())), false) {
        TurnStep::AskModel(t) => t,
        other => panic!("not asked again: {:?}", other),
    };
    assert_eq!(
        turn.messages(),
        &vec![
            "You: list files".to_string(),
            "Tool Call: {\"tool\":\"exec\",\"params\":{\"command\":\"ls\"}}".to_string(),
            "Tool Result: Tool Call detected, but MCP Redis client is not connected.".to_string(),
        ]
    );
}

#[test]
fn end_to_end_turn_with_one_tool_call() {
    // The user sends a message, and the model streams a tool call.
    let mut turn = Turn::new(vec!["You: list files".to_string()]);
    let first_request = chat_request(turn.messages(), "llama3", None);
    assert_eq!(
        first_request,
        "{\"messages\":[{\"content\":\"list files\",\"role\":\"user\"}],\"model\":\"llama3\",\"stream\":true}"
    );
    let stream = vec![
        content_line("[TOOL_CALL]{\"tool\":\"exec\",", false),
        content_line("\"params\":{\"command\":\"ls\"}}[END_TOOL_CALL]", false),
        content_line("", true),
    ];
    let (response, taken) = chat_stream(&stream);
    assert_eq!(taken, 2);
    let waiting = match handle_llm_turn(turn, Ok(response), true) {
        TurnStep::CallTool(w) => w,
        other => panic!("no call: {:?}", other),
    };

    // The call is dispatched as a shell task.
    let submission = submit_task("t1".to_string(), "localhost".to_string(), waiting.call().duplicate());
    assert_eq!(TaskType::classify(&waiting.call().tool), TaskType::Shell);
    assert!(submission.payload.contains("\"task_type\":\"SHELL\""));
    match command_listener(Ok(Some(submission.payload.clone()))) {
        WorkerAction::Publish { key, .. } => assert_eq!(key, submission.result_key),
        other => panic!("no result: {:?}", other),
    }

    // The worker publishes its result, and the history gains it.
    let polled = poll_result(Ok(Some("SUCCESS: file1\nfile2".to_string()))).map_err(|e| e.message());
    turn = waiting.resolve(polled);
    assert_eq!(
        turn.messages(),
        &vec![
            "You: list files".to_string(),
            "Tool Call: {\"tool\":\"exec\",\"params\":{\"command\":\"ls\"}}".to_string(),
            "Tool Result: SUCCESS: file1\nfile2".to_string(),
        ]
    );

    // The model is asked again with the history as it now is, and answers in prose.
    let second_request = chat_request(turn.messages(), "llama3", None);
    assert_eq!(
        second_request,
        "{\"messages\":[{\"content\":\"list files\",\"role\":\"user\"},{\"content\":\"Tool Call: {\\\"tool\\\":\\\"exec\\\",\\\"params\\\":{\\\"command\\\":\\\"ls\\\"}}\",\"role\":\"assistant\"},{\"content\":\"SUCCESS: file1\\nfile2\",\"role\":\"tool\"}],\"model\":\"llama3\",\"stream\":true}"
    );
    let stream = vec![content_line("There are two files:", false), content_line(" file1 and file2.", true)];
    let (response, _) = chat_stream(&stream);
    match handle_llm_turn(turn, Ok(response), true) {
        TurnStep::Deliver(text) => assert_eq!(text, "There are two files: file1 and file2."),
        other => panic!("not delivered: {:?}", other),
    }
}

#[test]
fn a_turn_may_call_tools_any_number_of_times() {
    let mut turn = Turn::new(Vec::new());
    for round in 0..50 {
        let waiting = match handle_llm_turn(turn, Ok(LLMResponse::ToolCallDetected(exec_call())), true) {
            TurnStep::CallTool(w) => w,
            other => panic!("no call: {:?}", other),
        };
        turn = waiting.resolve(Ok(format!("round {}", round)));
    }
    assert_eq!(turn.messages().len(), 100);
    assert_eq!(turn.messages()[99], "Tool Result: round 49");
}

#[test]
fn last_response_is_the_models_last_line() {
    let history = vec![
        "You: a".to_string(),
        "Lucius:  first \n".to_string(),
        "You: b".to_string(),
        "Lucius:second".to_string(),
        "Tool Result: x".to_string(),
    ];
    assert_eq!(last_response(&history), Some("Lucius:second".to_string()));
    assert_eq!(last_response(&history[..2].to_vec()), Some("first".to_string()));
    assert_eq!(last_response(&history[..1].to_vec()), None);
    assert_eq!(last_response(&Vec::new()), None);
    assert_eq!(last_response(&vec!["Lucius: ".to_string()]), Some(String::new()));
}
