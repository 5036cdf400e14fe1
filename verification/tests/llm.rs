use lucius::llm::{
    chat_chunks, chat_messages, chat_request, chat_stream, chat_url, tags_url, ChatStream,
    LLMResponse, Message, TagsResponse,
};
use lucius::text::split_lines;

fn content_line(content: &str, done: bool) -> String {
    let quoted = lucius::json::Json::string(content).to_text();
    format!("{{\"message\":{{\"role\":\"assistant\",\"content\":{}}},\"done\":{}}}", quoted, done)
}

fn final_text(r: &LLMResponse) -> &str {
    match r {
        LLMResponse::FinalResponse(text) => text,
        LLMResponse::ToolCallDetected(call) => panic!("a tool call: {:?}", call),
    }
}

#[test]
fn message_reads_the_four_prefixes() {
    assert!(matches!(Message::parse("You: hi"), Some(Message::User(t)) if t == "hi"));
    assert!(matches!(Message::parse("Lucius: yes"), Some(Message::Assistant(t)) if t == "yes"));
    assert!(matches!(Message::parse("Tool Result: ok"), Some(Message::ToolResult(t)) if t == "ok"));
    assert!(matches!(Message::parse("Tool Call: {}"), Some(Message::ToolCallRecord(t)) if t == "{}"));
    assert!(matches!(Message::parse("You: "), Some(Message::User(t)) if t.is_empty()));
    assert!(Message::parse("You:").is_none());
    assert!(Message::parse("Error: x").is_none());
    assert!(Message::parse("").is_none());
    assert!(Message::parse(" You: hi").is_none());
}

#[test]
fn message_round_trip() {
    for m in [
        Message::User("a\nb".to_string()),
        Message::Assistant("Lucius: twice".to_string()),
        Message::ToolCallRecord("{\"tool\":\"exec\",\"params\":{}}".to_string()),
        Message::ToolResult("You: not the user".to_string()),
    ] {
        let entry = m.render();
        let back = Message::parse(&entry).unwrap();
        assert_eq!(format!("{:?}", back), format!("{:?}", m));
    }
}

#[test]
fn chat_messages_keep_order_and_drop_what_is_no_message() {
    let history = vec![
        "You: list files".to_string(),
        "Error: something".to_string(),
        "Tool Call: {\"tool\":\"exec\",\"params\":{}}".to_string(),
        "Tool Result: SUCCESS: a".to_string(),
        "Lucius: done".to_string(),
    ];
    let messages = chat_messages(&history, Some("be brief"));
    let pairs: Vec<(String, String)> =
        messages.into_iter().map(|m| (m.role, m.content)).collect();
    assert_eq!(
        pairs,
        vec![
            ("system".to_string(), "be brief".to_string()),
            ("user".to_string(), "list files".to_string()),
            ("assistant".to_string(), "Tool Call: {\"tool\":\"exec\",\"params\":{}}".to_string()),
            ("tool".to_string(), "SUCCESS: a".to_string()),
            ("assistant".to_string(), "done".to_string()),
        ]
    );
    assert!(chat_messages(&Vec::new(), None).is_empty());
}

#[test]
fn chat_request_is_the_body_that_the_server_takes() {
    let history = vec!["You: hi".to_string()];
    assert_eq!(
        chat_request(&history, "llama3", None),
        "{\"messages\":[{\"content\":\"hi\",\"role\":\"user\"}],\"model\":\"llama3\",\"stream\":true}"
    );
    assert_eq!(
        chat_request(&Vec::new(), "m", Some("ctx")),
        "{\"messages\":[{\"content\":\"ctx\",\"role\":\"system\"}],\"model\":\"m\",\"stream\":true}"
    );
}

#[test]
fn urls_are_under_the_base_address() {
    assert_eq!(chat_url("http://localhost:11434"), "http://localhost:11434/api/chat");
    assert_eq!(tags_url("http://localhost:11434"), "http://localhost:11434/api/tags");
}

#[test]
fn stream_without_markers_ends_with_the_pieces_joined() {
    let lines = vec![
        content_line("Hel", false),
        content_line("lo, ", false),
        content_line("world", false),
        content_line("!", true),
        content_line(" never read", false),
    ];
    let (r, taken) = chat_stream(&lines);
    assert_eq!(final_text(&r), "Hello, world!");
    assert_eq!(taken, 4);
}

#[test]
fn stream_ends_at_the_piece_that_completes_a_call() {
    let lines = vec![
        content_line("I will look. [TOOL_", false),
        content_line("CALL]{\"tool\":\"exec\",", false),
        content_line("\"params\":{\"command\":\"ls\"}}[END_TOOL", false),
        content_line("_CALL]", false),
        content_line(" trailing prose", false),
        content_line("", true),
    ];
    let (r, taken) = chat_stream(&lines);
    match r {
        LLMResponse::ToolCallDetected(call) => {
            assert_eq!(call.tool, "exec");
            assert_eq!(call.params.to_text(), "{\"command\":\"ls\"}");
        }
        other => panic!("no tool call: {:?}", other),
    }
    assert_eq!(taken, 4);
}

#[test]
fn stream_detects_a_call_before_it_heeds_done() {
    let lines = vec![content_line("[TOOL_CALL]{\"tool\":\"t\",\"params\":0}[END_TOOL_CALL]", true)];
    let (r, taken) = chat_stream(&lines);
    assert!(matches!(r, LLMResponse::ToolCallDetected(_)));
    assert_eq!(taken, 1);
}

#[test]
fn stream_passes_over_lines_that_do_not_decode() {
    let lines = vec![
        content_line("a", false),
        "{\"message\":{\"content\":\"lost".to_string(),
        "   ".to_string(),
        "".to_string(),
        "[1,2]".to_string(),
        "{\"message\":\"no object\"}".to_string(),
        "{\"message\":{\"role\":\"assistant\"}}".to_string(),
        "{\"message\":{\"content\":5}}".to_string(),
        content_line("b", false),
        "{\"done\":true}".to_string(),
    ];
    let (r, taken) = chat_stream(&lines);
    assert_eq!(final_text(&r), "ab");
    assert_eq!(taken, 10);
}

#[test]
fn stream_that_closes_without_done_gets_one_last_look() {
    let lines = vec![content_line("half an ", false), content_line("answer", false)];
    let (r, taken) = chat_stream(&lines);
    assert_eq!(final_text(&r), "half an answer");
    assert_eq!(taken, 2);
    let (r, taken) = chat_stream(&Vec::new());
    assert_eq!(final_text(&r), "");
    assert_eq!(taken, 0);
}

#[test]
fn done_must_be_true() {
    let lines = vec![
        "{\"message\":{\"content\":\"a\"},\"done\":\"true\"}".to_string(),
        "{\"message\":{\"content\":\"b\"},\"done\":1}".to_string(),
        "{\"message\":{\"content\":\"c\"},\"done\":false}".to_string(),
        "{\"message\":{\"content\":\"d\"}}".to_string(),
    ];
    let (r, taken) = chat_stream(&lines);
    assert_eq!(final_text(&r), "abcd");
    assert_eq!(taken, 4);
}

#[test]
fn feed_line_by_line() {
    let mut stream = ChatStream::new();
    assert!(stream.feed_line(&content_line("a", false)).is_none());
    assert_eq!(stream.buffer(), "a");
    assert!(stream.feed_line("not json").is_none());
    assert_eq!(stream.buffer(), "a");
    let r = stream.feed_line(&content_line("b", true)).unwrap();
    assert_eq!(final_text(&r), "ab");
}

#[test]
fn feed_chunk_takes_the_lines_of_a_chunk() {
    let mut stream = ChatStream::new();
    let chunk = format!("{}\r\n\n{}\n", content_line("x", false), content_line("y", false));
    assert!(stream.feed_chunk(&chunk).is_none());
    assert_eq!(stream.buffer(), "xy");
    let chunk = format!("{}\n{}\n", content_line("z", true), content_line("w", false));
    let r = stream.feed_chunk(&chunk).unwrap();
    assert_eq!(final_text(&r), "xyz");
    assert_eq!(stream.buffer(), "xyz");
    let r = stream.finish();
    assert_eq!(final_text(&r), "xyz");
}

#[test]
fn finish_looks_for_a_call() {
    let mut stream = ChatStream::new();
    assert!(stream.feed_line(&content_line("[TOOL_CALL]{\"tool\":\"exec\",\"params\"", false)).is_none());
    assert!(matches!(stream.finish(), LLMResponse::FinalResponse(_)));
}

#[test]
fn lines_are_split_as_the_standard_library_splits_them() {
    for text in [
        "", "\n", "a", "a\n", "a\nb", "a\r\nb\r\n", "a\rb", "\r\n", "\n\n", "a\n\nb\n", "a\r", "\ra\n",
        "x\r\r\ny", "tr\u{e4}\nz\n\u{2028}",
    ] {
        let expected: Vec<String> = text.lines().map(|l| l.to_string()).collect();
        assert_eq!(split_lines(text), expected, "for {:?}", text);
    }
}

#[test]
fn catalogue_is_read_from_the_servers_answer() {
    let tags = TagsResponse::parse("{\"models\":[{\"name\":\"llama3\",\"size\":1},{\"name\":\"phi\"}]}").unwrap();
    let names: Vec<String> = tags.models.into_iter().map(|m| m.name).collect();
    assert_eq!(names, vec!["llama3".to_string(), "phi".to_string()]);
    assert!(TagsResponse::parse("{\"models\":[]}").unwrap().models.is_empty());
    assert!(TagsResponse::parse("{\"models\":[{\"name\":\"a\"},{\"nom\":\"b\"}]}").is_none());
    assert!(TagsResponse::parse("{\"models\":{}}").is_none());
    assert!(TagsResponse::parse("{}").is_none());
    assert!(TagsResponse::parse("not json").is_none());
}

fn outcome_text(r: &LLMResponse) -> String {
    match r {
        LLMResponse::FinalResponse(text) => format!("final: {}", text),
        LLMResponse::ToolCallDetected(call) => format!("call: {}", call.to_json_text()),
    }
}

#[test]
fn a_line_cut_by_a_chunk_boundary_is_not_lost() {
    let line = content_line("Hello, world", false);
    let (left, right) = line.split_at(20);
    let mut stream = ChatStream::new();
    assert!(stream.feed_chunk(left).is_none());
    assert_eq!(stream.buffer(), "");
    assert_eq!(stream.pending(), left);
    assert!(stream.feed_chunk(&format!("{}\n", right)).is_none());
    assert_eq!(stream.buffer(), "Hello, world");
    assert_eq!(stream.pending(), "");
    let done = content_line("!", true);
    let (left, right) = done.split_at(5);
    assert!(stream.feed_chunk(left).is_none());
    let r = stream.feed_chunk(&format!("{}\nnever read", right)).unwrap();
    assert_eq!(final_text(&r), "Hello, world!");
    assert_eq!(stream.pending(), "never read");
}

#[test]
fn a_line_feed_may_come_in_a_chunk_of_its_own() {
    let mut stream = ChatStream::new();
    assert!(stream.feed_chunk(&content_line("a", false)).is_none());
    assert_eq!(stream.buffer(), "");
    assert!(stream.feed_chunk("\r").is_none());
    assert_eq!(stream.buffer(), "");
    assert!(stream.feed_chunk("\n").is_none());
    assert_eq!(stream.buffer(), "a");
    assert!(stream.feed_chunk("").is_none());
    assert!(stream.feed_chunk("\n\n").is_none());
    assert_eq!(stream.buffer(), "a");
}

#[test]
fn a_last_line_without_a_line_feed_is_taken_when_the_stream_closes() {
    let mut stream = ChatStream::new();
    assert!(stream.feed_chunk(&format!("{}\n{}", content_line("a", false), content_line("b", false))).is_none());
    assert_eq!(stream.buffer(), "a");
    assert_eq!(final_text(&stream.finish()), "ab");

    let mut stream = ChatStream::new();
    let call = content_line("[TOOL_CALL]{\"tool\":\"t\",\"params\":1}[END_TOOL_CALL]", false);
    assert!(stream.feed_chunk(&call).is_none());
    assert!(matches!(stream.finish(), LLMResponse::ToolCallDetected(c) if c.tool == "t"));

    let mut stream = ChatStream::new();
    assert!(stream.feed_chunk("{\"message\":{\"content\":\"cut off").is_none());
    assert_eq!(final_text(&stream.finish()), "");
}

#[test]
fn every_way_of_cutting_a_stream_ends_the_turn_alike() {
    let texts = [
        format!(
            "{}\n{}\r\n\n{}\n{}\n",
            content_line("Hel", false),
            content_line("lo \u{e4}", false),
            content_line("!", true),
            content_line("never", false)
        ),
        format!(
            "{}\n{}\n{}",
            content_line("x [TOOL_CALL]{\"tool\":\"exec\",", false),
            content_line("\"params\":{\"command\":\"ls\"}}[END_TOOL_CALL]", false),
            content_line("after", true)
        ),
        format!("{}\nbroken\n{}", content_line("a", false), content_line("b", false)),
        String::new(),
    ];
    for text in &texts {
        let lines: Vec<String> = text.lines().map(|l| l.to_string()).collect();
        let expected = outcome_text(&chat_stream(&lines).0);
        assert_eq!(outcome_text(&chat_chunks(&vec![text.clone()])), expected);
        let cuts: Vec<usize> = (0..=text.len()).filter(|i| text.is_char_boundary(*i)).collect();
        for (n, &first) in cuts.iter().enumerate() {
            let one = vec![text[..first].to_string(), text[first..].to_string()];
            assert_eq!(outcome_text(&chat_chunks(&one)), expected, "cut at {}", first);
            if n % 5 != 0 {
                continue;
            }
            for &second in cuts.iter().filter(|c| **c >= first).step_by(17) {
                let two = vec![
                    text[..first].to_string(),
                    text[first..second].to_string(),
                    text[second..].to_string(),
                ];
                assert_eq!(outcome_text(&chat_chunks(&two)), expected, "cuts at {} and {}", first, second);
            }
        }
        let each: Vec<String> = text.chars().map(|c| c.to_string()).collect();
        assert_eq!(outcome_text(&chat_chunks(&each)), expected);
    }
    assert_eq!(outcome_text(&chat_chunks(&Vec::new())), "final: ");
}
