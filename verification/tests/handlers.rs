use lucius::app::{App, SharedState};
use lucius::config::Config;
use lucius::handlers::{handle_event, Editors, Effect, Event, KeyCode, KeyEvent, MouseEvent, MouseKind};
use lucius::json::Json;
use lucius::llm::Model;
use lucius::mcp::ToolCall;
use lucius::mouse::Rect;
use lucius::renderer::{active_model_name, draw_chat, draw_confirmation, draw_settings, draw_ui, Screen};
use lucius::ui::{Action, AppMode, ConfirmationModal, Focus};

fn fresh() -> (App, SharedState) {
    let mut state = SharedState::new(Config::default(), None, false);
    state.models = vec![Model { name: "a".to_string() }, Model { name: "b".to_string() }];
    (App::new(), state)
}

fn editors(input: &str) -> Editors {
    Editors { input: input.to_string(), url: "http://x".to_string(), mcp_url: "redis-host".to_string() }
}

fn key(code: KeyCode) -> Event {
    Event::Key(KeyEvent { code, control: false, press: true })
}

fn ctrl(c: char) -> Event {
    Event::Key(KeyEvent { code: KeyCode::Char(c), control: true, press: true })
}

fn mouse(kind: MouseKind, column: u16, row: u16) -> Event {
    Event::Mouse(MouseEvent { kind, column, row })
}

fn names(effects: &[Effect]) -> Vec<String> {
    effects.iter().map(|e| format!("{:?}", e)).collect()
}

fn question(open: bool) -> AppMode {
    AppMode::Confirmation(ConfirmationModal::ExecuteTool {
        tool_call: ToolCall { tool: "exec".to_string(), params: Json::Null },
        awaiting_answer: open,
    })
}

#[test]
fn a_question_takes_only_its_answer() {
    for (code, answer) in [
        (KeyCode::Char('y'), true),
        (KeyCode::Char('Y'), true),
        (KeyCode::Char('n'), false),
        (KeyCode::Char('N'), false),
        (KeyCode::Esc, false),
    ] {
        let (mut app, mut state) = fresh();
        state.mode = question(true);
        let effects = handle_event(&mut app, &mut state, key(code), &editors(""));
        assert_eq!(names(&effects), vec![format!("Answer({})", answer)]);
        assert!(matches!(state.mode, AppMode::Chat));
    }
    let (mut app, mut state) = fresh();
    state.mode = question(true);
    for event in [key(KeyCode::Char('x')), key(KeyCode::Enter), ctrl('q'), mouse(MouseKind::ScrollDown, 0, 0), Event::Other] {
        let effects = handle_event(&mut app, &mut state, event, &editors("text"));
        assert!(effects.is_empty());
        assert!(matches!(state.mode, AppMode::Confirmation(_)));
        assert_eq!(app.scroll, 0);
    }
    let release = Event::Key(KeyEvent { code: KeyCode::Char('y'), control: false, press: false });
    assert!(handle_event(&mut app, &mut state, release, &editors("")).is_empty());
    assert!(matches!(state.mode, AppMode::Confirmation(_)));
}

#[test]
fn a_used_slot_takes_no_second_answer() {
    let (mut app, mut state) = fresh();
    state.mode = question(false);
    let effects = handle_event(&mut app, &mut state, key(KeyCode::Char('y')), &editors(""));
    assert!(effects.is_empty());
    assert!(matches!(state.mode, AppMode::Chat));
}

#[test]
fn control_keys() {
    let (mut app, mut state) = fresh();
    let e = editors("");
    assert!(handle_event(&mut app, &mut state, ctrl('h'), &e).is_empty());
    assert!(matches!(state.mode, AppMode::Help));
    assert!(handle_event(&mut app, &mut state, ctrl('h'), &e).is_empty());
    assert!(matches!(state.mode, AppMode::Chat));

    assert_eq!(names(&handle_event(&mut app, &mut state, ctrl('q'), &e)), vec!["Quit"]);

    assert_eq!(names(&handle_event(&mut app, &mut state, ctrl('r'), &e)), Vec::<String>::new());
    assert!(state.config.ollama_url.is_none());

    assert_eq!(
        names(&handle_event(&mut app, &mut state, ctrl('s'), &e)),
        vec!["Send(RefreshModelsAndStatus)"]
    );
    assert!(matches!(state.mode, AppMode::Settings));

    assert_eq!(
        names(&handle_event(&mut app, &mut state, ctrl('r'), &e)),
        vec!["SaveConfig", "Send(RefreshModelsAndStatus)"]
    );
    assert_eq!(state.config.ollama_url.as_deref(), Some("http://x"));

    state.chat_history.push("You: a".to_string());
    app.scroll = 9;
    assert!(handle_event(&mut app, &mut state, ctrl('l'), &e).is_empty());
    assert!(state.chat_history.is_empty());
    assert_eq!(app.scroll, 0);

    assert!(handle_event(&mut app, &mut state, ctrl('t'), &e).is_empty());
    assert_eq!(state.status_message.as_deref(), Some("MCP Redis client not connected."));
    state.mcp_connected = true;
    assert!(handle_event(&mut app, &mut state, ctrl('t'), &e).is_empty());
    assert_eq!(state.status_message.as_deref(), Some("MCP is connected via Redis."));

    for c in ['c', 'y', 'z'] {
        assert!(handle_event(&mut app, &mut state, ctrl(c), &e).is_empty());
    }
    let enter = Event::Key(KeyEvent { code: KeyCode::Enter, control: true, press: true });
    assert!(handle_event(&mut app, &mut state, enter, &editors("hi")).is_empty());
    let release = Event::Key(KeyEvent { code: KeyCode::Char('q'), control: true, press: false });
    assert!(handle_event(&mut app, &mut state, release, &e).is_empty());
}

#[test]
fn enter_sends_the_message() {
    let (mut app, mut state) = fresh();
    let effects = handle_event(&mut app, &mut state, key(KeyCode::Enter), &editors("list files\nplease"));
    match &effects[..] {
        [Effect::Send(Action::SendMessage(text)), Effect::ResetInput] => assert_eq!(text, "list files\nplease"),
        other => panic!("{:?}", other),
    }
    assert_eq!(app.scroll, u16::MAX);
    assert!(state.chat_history.is_empty());

    let (mut app, mut state) = fresh();
    for blank in ["", "  ", "\n\t \n", "\u{a0}"] {
        assert!(handle_event(&mut app, &mut state, key(KeyCode::Enter), &editors(blank)).is_empty());
    }
    assert_eq!(app.scroll, 0);
    assert_eq!(names(&handle_event(&mut app, &mut state, key(KeyCode::Char('a')), &editors(""))), vec!["InputKey"]);
    assert_eq!(names(&handle_event(&mut app, &mut state, key(KeyCode::Esc), &editors(""))), vec!["InputKey"]);
}

#[test]
fn settings_go_from_part_to_part() {
    let (mut app, mut state) = fresh();
    state.mode = AppMode::Settings;
    let e = editors("");
    assert_eq!(names(&handle_event(&mut app, &mut state, key(KeyCode::Char('x')), &e)), vec!["UrlKey"]);
    assert!(state.config.ollama_url.is_none());
    assert_eq!(names(&handle_event(&mut app, &mut state, key(KeyCode::Tab), &e)), vec!["SaveConfig"]);
    assert_eq!(app.focus, Focus::McpUrl);
    assert_eq!(state.config.ollama_url.as_deref(), Some("http://x"));
    assert_eq!(names(&handle_event(&mut app, &mut state, key(KeyCode::Char('x')), &e)), vec!["McpUrlKey"]);
    assert_eq!(names(&handle_event(&mut app, &mut state, key(KeyCode::Tab), &e)), vec!["SaveConfig"]);
    assert_eq!(app.focus, Focus::Models);
    assert_eq!(state.config.mcp_redis_host.as_deref(), Some("redis-host"));
    assert!(handle_event(&mut app, &mut state, key(KeyCode::Char('x')), &e).is_empty());
    assert!(handle_event(&mut app, &mut state, key(KeyCode::Down), &e).is_empty());
    assert_eq!(app.selected, Some(0));
    assert!(handle_event(&mut app, &mut state, key(KeyCode::Down), &e).is_empty());
    assert_eq!(app.selected, Some(1));
    assert!(handle_event(&mut app, &mut state, key(KeyCode::Up), &e).is_empty());
    assert_eq!(app.selected, Some(0));
    assert!(handle_event(&mut app, &mut state, key(KeyCode::Up), &e).is_empty());
    assert_eq!(app.selected, Some(1));
    assert_eq!(names(&handle_event(&mut app, &mut state, key(KeyCode::Enter), &e)), vec!["SaveConfig"]);
    assert_eq!(state.config.selected_model.as_deref(), Some("b"));
    assert!(matches!(state.mode, AppMode::Chat));
}

#[test]
fn settings_leave_by_enter_and_escape() {
    for code in [KeyCode::Enter, KeyCode::Esc] {
        let (mut app, mut state) = fresh();
        state.mode = AppMode::Settings;
        assert_eq!(names(&handle_event(&mut app, &mut state, key(code), &editors(""))), vec!["SaveConfig"]);
        assert!(matches!(state.mode, AppMode::Chat));
        assert_eq!(state.config.ollama_url.as_deref(), Some("http://x"));

        let (mut app, mut state) = fresh();
        state.mode = AppMode::Settings;
        app.focus = Focus::McpUrl;
        assert_eq!(names(&handle_event(&mut app, &mut state, key(code), &editors(""))), vec!["SaveConfig"]);
        assert!(matches!(state.mode, AppMode::Chat));
        assert_eq!(state.config.mcp_redis_host.as_deref(), Some("redis-host"));

        let (mut app, mut state) = fresh();
        state.mode = AppMode::Settings;
        app.focus = Focus::Models;
        assert!(handle_event(&mut app, &mut state, key(code), &editors("")).is_empty());
        assert!(matches!(state.mode, AppMode::Chat));
        assert!(state.config.selected_model.is_none());

        let (mut app, mut state) = fresh();
        state.mode = AppMode::Settings;
        app.focus = Focus::Models;
        app.selected = Some(5);
        state.config.selected_model = Some("old".to_string());
        assert_eq!(names(&handle_event(&mut app, &mut state, key(code), &editors(""))), vec!["SaveConfig"]);
        assert!(state.config.selected_model.is_none());
    }
    let (mut app, mut state) = fresh();
    state.mode = AppMode::Settings;
    app.focus = Focus::Models;
    assert!(handle_event(&mut app, &mut state, key(KeyCode::Tab), &editors("")).is_empty());
    assert_eq!(app.focus, Focus::Url);
}

#[test]
fn help_leaves_by_escape() {
    let (mut app, mut state) = fresh();
    state.mode = AppMode::Help;
    assert!(handle_event(&mut app, &mut state, key(KeyCode::Enter), &editors("hi")).is_empty());
    assert!(matches!(state.mode, AppMode::Help));
    assert!(handle_event(&mut app, &mut state, key(KeyCode::Esc), &editors("")).is_empty());
    assert!(matches!(state.mode, AppMode::Chat));
}

#[test]
fn the_mouse_scrolls_and_marks() {
    let (mut app, mut state) = fresh();
    app.conversation_area = Rect { x: 1, y: 7, width: 80, height: 10 };
    let e = editors("");
    assert!(handle_event(&mut app, &mut state, mouse(MouseKind::ScrollDown, 0, 0), &e).is_empty());
    assert!(handle_event(&mut app, &mut state, mouse(MouseKind::ScrollDown, 0, 0), &e).is_empty());
    assert!(handle_event(&mut app, &mut state, mouse(MouseKind::ScrollUp, 0, 0), &e).is_empty());
    assert_eq!(app.scroll, 1);

    handle_event(&mut app, &mut state, mouse(MouseKind::Drag, 5, 9), &e);
    assert_eq!(app.selection_range, None);
    handle_event(&mut app, &mut state, mouse(MouseKind::Down, 5, 3), &e);
    assert_eq!(app.selection_range, None);
    handle_event(&mut app, &mut state, mouse(MouseKind::Down, 0, 9), &e);
    assert_eq!(app.selection_range, None);
    handle_event(&mut app, &mut state, mouse(MouseKind::Down, 5, 9), &e);
    assert_eq!(app.selection_range, Some(((2, 4), (2, 4))));
    handle_event(&mut app, &mut state, mouse(MouseKind::Drag, 9, 11), &e);
    assert_eq!(app.selection_range, Some(((2, 4), (4, 8))));
    handle_event(&mut app, &mut state, mouse(MouseKind::Drag, 9, 40), &e);
    assert_eq!(app.selection_range, Some(((2, 4), (4, 8))));
    handle_event(&mut app, &mut state, mouse(MouseKind::Other, 9, 11), &e);
    assert_eq!(app.selection_range, Some(((2, 4), (4, 8))));
    handle_event(&mut app, &mut state, mouse(MouseKind::Up, 0, 0), &e);
    assert_eq!(app.selection_range, None);
    assert!(handle_event(&mut app, &mut state, Event::Other, &e).is_empty());
}

#[test]
fn the_chat_screen() {
    let (mut app, mut state) = fresh();
    app.scroll = u16::MAX;
    let area = Rect { x: 0, y: 7, width: 80, height: 12 };
    let screen = draw_chat(&mut app, &state, area, 25);
    assert_eq!(screen.scroll, 15);
    assert_eq!(app.scroll, 15);
    assert_eq!(app.conversation_area, area);
    assert!(screen.status_is_note);
    assert_eq!(screen.status_text, "Connecting to Ollama...");
    assert_eq!(screen.model_line, "Model: a");

    state.status_message = None;
    app.selected = Some(1);
    app.scroll = 3;
    let screen = draw_chat(&mut app, &state, area, 8);
    assert_eq!(screen.scroll, 0);
    assert!(!screen.status_is_note);
    assert_eq!(screen.status_text, "using: 0 LUCIUS.md | 0 MCP server");
    assert_eq!(screen.model_line, "Model: b");

    state.lucius_context = Some("ctx".to_string());
    state.mcp_connected = true;
    app.selected = Some(2);
    app.scroll = 4;
    let screen = draw_chat(&mut app, &state, Rect { x: 0, y: 0, width: 1, height: 1 }, 10);
    assert_eq!(screen.scroll, 4);
    assert_eq!(screen.status_text, "using: 1 LUCIUS.md | 1 MCP server");
    assert_eq!(screen.model_line, "Model: No model selected");
    assert_eq!(active_model_name(&Vec::new(), None), "No model selected");

    app.scroll = u16::MAX;
    let screen = draw_chat(&mut app, &state, Rect { x: 0, y: 0, width: 1, height: 2 }, 65536 + 7);
    assert_eq!(screen.scroll, 7);
}

#[test]
fn the_other_screens() {
    let (mut app, mut state) = fresh();
    state.mode = AppMode::Settings;
    state.status = true;
    app.selected = Some(1);
    app.scroll = 9;
    let area = Rect { x: 0, y: 0, width: 80, height: 5 };
    match draw_ui(&mut app, &state, area, 0) {
        Screen::Settings(s) => {
            assert_eq!(s.focus, Focus::Url);
            assert!(s.connected);
            assert_eq!(s.status_text, "Status: Connected");
            assert_eq!(s.models, vec!["a".to_string(), "b".to_string()]);
            assert_eq!(s.selected, Some(1));
        }
        other => panic!("{:?}", other),
    }
    assert_eq!(app.scroll, 9);
    assert_eq!(app.conversation_area, Rect::default());
    state.status = false;
    assert_eq!(draw_settings(&app, &state).status_text, "Status: Disconnected");

    state.mode = AppMode::Help;
    assert!(matches!(draw_ui(&mut app, &state, area, 0), Screen::Help));
    assert_eq!(app.scroll, 9);

    state.mode = AppMode::Chat;
    assert!(matches!(draw_ui(&mut app, &state, area, 0), Screen::Chat(c) if c.scroll == 0));
    assert_eq!(app.scroll, 0);

    let call = ToolCall {
        tool: "exec".to_string(),
        params: Json::Object(vec![Json::member("command", Json::string("ls"))]),
    };
    let expected = vec![
        "Execute Command?".to_string(),
        String::new(),
        "Tool: exec".to_string(),
        "Params: {\"command\":\"ls\"}".to_string(),
        String::new(),
        "Press 'y' to confirm, 'n' to cancel.".to_string(),
    ];
    assert_eq!(draw_confirmation(&call), expected);
    state.mode = AppMode::Confirmation(ConfirmationModal::ExecuteTool { tool_call: call, awaiting_answer: true });
    app.scroll = 50;
    match draw_ui(&mut app, &state, area, 10) {
        Screen::Confirmation(chat, lines) => {
            assert_eq!(chat.scroll, 7);
            assert_eq!(lines, expected);
        }
        other => panic!("{:?}", other),
    }
    assert_eq!(app.scroll, 7);
}
