use lucius::json::Json;
use lucius::mcp::{parse_tool_call, ToolCall};

#[test]
fn test_parse_tool_call_valid() {
    let input = "Some prefix [TOOL_CALL]{\"tool\":\"exec\",\"params\":{\"command\":\"uptime\"}}[END_TOOL_CALL] suffix";
    let call = parse_tool_call(input).expect("Should parse tool call");
    assert_eq!(call.tool, "exec");
    assert!(call.params.get("command").unwrap().as_str().unwrap() == "uptime");
}

#[test]
fn test_parse_tool_call_invalid_json() {
    let input = "[TOOL_CALL]{not_json}[END_TOOL_CALL]";
    let call = parse_tool_call(input);
    assert!(call.is_none());
}

#[test]
fn parse_without_a_complete_pair_is_none() {
    assert!(parse_tool_call("").is_none());
    assert!(parse_tool_call("plain prose").is_none());
    assert!(parse_tool_call("[TOOL_CALL]{\"tool\":\"exec\",\"params\":{}}").is_none());
    assert!(parse_tool_call("{\"tool\":\"exec\",\"params\":{}}[END_TOOL_CALL]").is_none());
    assert!(parse_tool_call("[END_TOOL_CALL]{\"tool\":\"exec\",\"params\":{}}[TOOL_CALL]").is_none());
    assert!(parse_tool_call("[TOOL_CALL{\"tool\":\"exec\",\"params\":{}}[END_TOOL_CALL]").is_none());
}

#[test]
fn parse_reads_across_line_breaks() {
    let input = "before\n[TOOL_CALL]\n{\n  \"tool\": \"exec\",\n  \"params\": {\n    \"command\": \"ls\"\n  }\n}\n[END_TOOL_CALL]\nafter";
    let call = parse_tool_call(input).unwrap();
    assert_eq!(call.tool, "exec");
    assert_eq!(call.params.to_text(), "{\"command\":\"ls\"}");
}

#[test]
fn parse_leaves_white_space_off_the_payload() {
    let input = "[TOOL_CALL]\u{a0}\u{2003} {\"tool\":\"t\",\"params\":1} \u{3000}[END_TOOL_CALL]";
    let call = parse_tool_call(input).unwrap();
    assert_eq!(call.tool, "t");
    assert_eq!(call.params.as_u64(), Some(1));
}

#[test]
fn parse_takes_the_first_call_and_ignores_the_rest() {
    let input = "[TOOL_CALL]{\"tool\":\"a\",\"params\":{}}[END_TOOL_CALL] and [TOOL_CALL]{\"tool\":\"b\",\"params\":{}}[END_TOOL_CALL]";
    assert_eq!(parse_tool_call(input).unwrap().tool, "a");
    let input = "[TOOL_CALL]{bad}[END_TOOL_CALL][TOOL_CALL]{\"tool\":\"b\",\"params\":{}}[END_TOOL_CALL]";
    assert!(parse_tool_call(input).is_none());
}

#[test]
fn parse_is_the_same_with_other_surroundings() {
    let body = "{\"tool\":\"exec\",\"params\":{\"command\":\"ls\"}}";
    let bare = format!("[TOOL_CALL]{}[END_TOOL_CALL]", body);
    let wrapped = format!("Sure. [END_TOOL_CALL] [TOOL_CAL [TOOL_CALL]{}[END_TOOL_CALL] [TOOL_CALL] x", body);
    let a = parse_tool_call(&bare).unwrap();
    let b = parse_tool_call(&wrapped).unwrap();
    assert!(a.same(&b));
}

#[test]
fn parse_stops_at_a_closing_marker_inside_the_body() {
    let input = "[TOOL_CALL]{\"tool\":\"exec\",\"params\":{\"command\":\"echo [END_TOOL_CALL]\"}}[END_TOOL_CALL]";
    assert!(parse_tool_call(input).is_none());
}

#[test]
fn parse_twice_gives_the_same() {
    let input = "x [TOOL_CALL]{\"tool\":\"exec\",\"params\":[1,2]}[END_TOOL_CALL]";
    let a = parse_tool_call(input).unwrap();
    let b = parse_tool_call(input).unwrap();
    assert!(a.same(&b));
    assert!(parse_tool_call("x").is_none());
    assert!(parse_tool_call("x").is_none());
}

#[test]
fn decode_asks_for_a_name_and_arguments() {
    assert!(parse_tool_call("[TOOL_CALL]{\"tool\":\"\",\"params\":{}}[END_TOOL_CALL]").is_none());
    assert!(parse_tool_call("[TOOL_CALL]{\"tool\":\"exec\"}[END_TOOL_CALL]").is_none());
    assert!(parse_tool_call("[TOOL_CALL]{\"params\":{}}[END_TOOL_CALL]").is_none());
    assert!(parse_tool_call("[TOOL_CALL]{\"tool\":5,\"params\":{}}[END_TOOL_CALL]").is_none());
    assert!(parse_tool_call("[TOOL_CALL][\"exec\",{}][END_TOOL_CALL]").is_none());
    assert!(parse_tool_call("[TOOL_CALL]\"exec\"[END_TOOL_CALL]").is_none());
    let call = parse_tool_call("[TOOL_CALL]{\"tool\":\"exec\",\"params\":null,\"more\":1}[END_TOOL_CALL]").unwrap();
    assert!(matches!(call.params, Json::Null));
}

#[test]
fn from_json_takes_the_first_of_two_members() {
    let value = Json::Object(vec![
        Json::member("tool", Json::string("first")),
        Json::member("params", Json::PosInt(1)),
        Json::member("tool", Json::string("second")),
        Json::member("params", Json::PosInt(2)),
    ]);
    let call = ToolCall::from_json(value).unwrap();
    assert_eq!(call.tool, "first");
    assert_eq!(call.params.as_u64(), Some(1));
}

#[test]
fn tool_call_text_has_tool_before_params() {
    let call = ToolCall {
        tool: "exec".to_string(),
        params: Json::Object(vec![Json::member("command", Json::string("ls"))]),
    };
    assert_eq!(call.to_json_text(), "{\"tool\":\"exec\",\"params\":{\"command\":\"ls\"}}");
    let copy = call.duplicate();
    assert!(copy.same(&call));
    let back = parse_tool_call(&format!("[TOOL_CALL]{}[END_TOOL_CALL]", call.to_json_text())).unwrap();
    assert!(back.same(&call));
}
