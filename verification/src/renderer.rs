//! What the screen shows, worked out from the client's state. Putting it
//! onto the terminal is left to the caller.

use crate::app::{App, SharedState, SharedStateView};
use crate::json::json_text;
use crate::llm::{names_view, Model};
use crate::mcp::{ToolCall, ToolCallView};
use crate::mouse::Rect;
use crate::text::lines_view;
use crate::ui::{AppMode, AppModeView, ConfirmationModalView, Focus};
use vstd::prelude::*;

verus! {

/// The rows of the conversation's area that show text: all but the border
/// at the top and the one at the bottom.
pub open spec fn text_rows(conversation_area: Rect) -> u16 {
    if conversation_area.height >= 2 {
        (conversation_area.height - 2) as u16
    } else {
        0
    }
}

/// The greatest offset to which a conversation of so many lines scrolls in
/// so many rows, in the sixteen bits that an offset has.
pub open spec fn max_scroll_offset(history_lines: usize, rows: u16) -> u16 {
    if history_lines > rows {
        (history_lines - rows) as u16
    } else {
        0
    }
}

/// An offset, held to the greatest one.
pub open spec fn clamped_scroll(scroll: u16, history_lines: usize, rows: u16) -> u16 {
    if scroll <= max_scroll_offset(history_lines, rows) {
        scroll
    } else {
        max_scroll_offset(history_lines, rows)
    }
}

/// The status line when there is no note: how many preambles and how many
/// tool servers are in use.
pub open spec fn idle_status(has_context: bool, mcp_connected: bool) -> Seq<char> {
    "using: "@ + (if has_context {
        "1"@
    } else {
        "0"@
    }) + " LUCIUS.md | "@ + (if mcp_connected {
        "1"@
    } else {
        "0"@
    }) + " MCP server"@
}

/// The name of the model in use: the marked one, or the first one where
/// none is marked; a sentence that says so where there is no such model.
pub open spec fn active_model(models: Seq<Seq<char>>, selected: Option<usize>) -> Seq<char> {
    let index = match selected {
        Some(i) => i,
        None => 0,
    };
    if index < models.len() {
        models[index as int]
    } else {
        "No model selected"@
    }
}

/// The chat screen.
#[derive(Debug)]
pub struct ChatScreen {
    /// The status line.
    pub status_text: String,
    /// Whether the status line shows a note.
    pub status_is_note: bool,
    /// The line that names the model in use.
    pub model_line: String,
    /// How far the conversation is scrolled.
    pub scroll: u16,
}

/// What a [`ChatScreen`] stands for.
pub struct ChatScreenView {
    pub status_text: Seq<char>,
    pub status_is_note: bool,
    pub model_line: Seq<char>,
    pub scroll: u16,
}

impl View for ChatScreen {
    type V = ChatScreenView;

    open spec fn view(&self) -> ChatScreenView {
        ChatScreenView {
            status_text: self.status_text@,
            status_is_note: self.status_is_note,
            model_line: self.model_line@,
            scroll: self.scroll,
        }
    }
}

/// The settings screen.
#[derive(Debug)]
pub struct SettingsScreen {
    pub focus: Focus,
    /// Whether the model server answered the last probe.
    pub connected: bool,
    /// The line that says so.
    pub status_text: String,
    /// The names of the models, in the catalogue's order.
    pub models: Vec<String>,
    /// The model that is marked.
    pub selected: Option<usize>,
}

/// What a [`SettingsScreen`] stands for.
pub struct SettingsScreenView {
    pub focus: Focus,
    pub connected: bool,
    pub status_text: Seq<char>,
    pub models: Seq<Seq<char>>,
    pub selected: Option<usize>,
}

impl View for SettingsScreen {
    type V = SettingsScreenView;

    open spec fn view(&self) -> SettingsScreenView {
        SettingsScreenView {
            focus: self.focus,
            connected: self.connected,
            status_text: self.status_text@,
            models: lines_view(self.models@),
            selected: self.selected,
        }
    }
}

/// What the screen shows.
#[derive(Debug)]
pub enum Screen {
    Chat(ChatScreen),
    Settings(SettingsScreen),
    Help,
    /// The question, in lines, over the chat screen.
    Confirmation(ChatScreen, Vec<String>),
}

/// What a [`Screen`] stands for.
pub enum ScreenView {
    Chat(ChatScreenView),
    Settings(SettingsScreenView),
    Help,
    Confirmation(ChatScreenView, Seq<Seq<char>>),
}

impl View for Screen {
    type V = ScreenView;

    open spec fn view(&self) -> ScreenView {
        match self {
            Screen::Chat(chat) => ScreenView::Chat(chat@),
            Screen::Settings(settings) => ScreenView::Settings(settings@),
            Screen::Help => ScreenView::Help,
            Screen::Confirmation(chat, lines) => ScreenView::Confirmation(
                chat@,
                lines_view(lines@),
            ),
        }
    }
}

/// The lines of the question whether to run a tool.
pub open spec fn confirmation_lines(call: ToolCallView) -> Seq<Seq<char>> {
    seq![
        "Execute Command?"@,
        ""@,
        "Tool: "@ + call.tool,
        "Params: "@ + json_text(call.params),
        ""@,
        "Press 'y' to confirm, 'n' to cancel."@,
    ]
}

/// The chat screen of a state, for a display layer that was scrolled to
/// `scroll` and had `selected` marked: the status line shows the note, if
/// there is one, and the offset is held to the greatest one.
pub open spec fn chat_screen(
    state: SharedStateView,
    scroll: u16,
    selected: Option<usize>,
    conversation_area: Rect,
    history_lines: usize,
) -> ChatScreenView {
    ChatScreenView {
        status_text: match state.status_message {
            Some(note) => note,
            None => idle_status(state.lucius_context is Some, state.mcp_connected),
        },
        status_is_note: state.status_message is Some,
        model_line: "Model: "@ + active_model(state.models, selected),
        scroll: clamped_scroll(scroll, history_lines, text_rows(conversation_area)),
    }
}

/// The settings screen of a state.
pub open spec fn settings_screen(state: SharedStateView, app: App) -> SettingsScreenView {
    SettingsScreenView {
        focus: app.focus,
        connected: state.status,
        status_text: if state.status {
            "Status: Connected"@
        } else {
            "Status: Disconnected"@
        },
        models: state.models,
        selected: app.selected,
    }
}

/// What the screen shows for a state: by the mode, the chat, the settings,
/// the help, or a question over the chat.
pub open spec fn screen_of(
    state: SharedStateView,
    app: App,
    conversation_area: Rect,
    history_lines: usize,
) -> ScreenView {
    let chat = chat_screen(state, app.scroll, app.selected, conversation_area, history_lines);
    match state.mode {
        AppModeView::Chat => ScreenView::Chat(chat),
        AppModeView::Settings => ScreenView::Settings(settings_screen(state, app)),
        AppModeView::Help => ScreenView::Help,
        AppModeView::Confirmation(
            ConfirmationModalView::ExecuteTool { tool_call, .. },
        ) => ScreenView::Confirmation(chat, confirmation_lines(tool_call)),
    }
}

/// The display layer's state once the screen was worked out: the chat, with
/// or without a question over it, holds the offset to the greatest one and
/// notes where the conversation is drawn; the other screens touch nothing.
pub open spec fn app_after_drawing(
    state: SharedStateView,
    app: App,
    conversation_area: Rect,
    history_lines: usize,
) -> App {
    if state.mode is Chat || state.mode is Confirmation {
        App {
            scroll: clamped_scroll(app.scroll, history_lines, text_rows(conversation_area)),
            conversation_area,
            ..app
        }
    } else {
        app
    }
}

/// The name of the model in use.
pub fn active_model_name(models: &Vec<Model>, selected: Option<usize>) -> (name: String)
    ensures
        name@ == active_model(names_view(models@), selected),
{
    let index: usize = match selected {
        Some(i) => i,
        None => 0,
    };
    if index < models.len() {
        models[index].name.clone()
    } else {
        "No model selected".to_owned()
    }
}

/// Works out the chat screen for a conversation that takes `history_lines`
/// lines and is drawn in `conversation_area`. The offset is held to the
/// greatest one, and the area is noted for the mouse.
pub fn draw_chat(app: &mut App, state: &SharedState, conversation_area: Rect, history_lines: usize) -> (screen:
    ChatScreen)
    ensures
        final(app).scroll == clamped_scroll(
            old(app).scroll,
            history_lines,
            text_rows(conversation_area),
        ),
        final(app).conversation_area == conversation_area,
        final(app).selected == old(app).selected,
        final(app).focus == old(app).focus,
        final(app).selection_range == old(app).selection_range,
        screen@ == chat_screen(
            state@,
            old(app).scroll,
            old(app).selected,
            conversation_area,
            history_lines,
        ),
{
    let rows: u16 = if conversation_area.height >= 2 {
        conversation_area.height - 2
    } else {
        0
    };
    let greatest: u16 = if history_lines > rows as usize {
        #[verifier::truncate]
        ((history_lines - rows as usize) as u16)
    } else {
        0
    };
    if app.scroll > greatest {
        app.scroll = greatest;
    }
    app.conversation_area = conversation_area;
    let status_text = match &state.status_message {
        Some(note) => note.clone(),
        None => {
            let mut text = "using: ".to_owned();
            text.append(
                if state.lucius_context.is_some() {
                    "1"
                } else {
                    "0"
                },
            );
            text.append(" LUCIUS.md | ");
            text.append(
                if state.mcp_connected {
                    "1"
                } else {
                    "0"
                },
            );
            text.append(" MCP server");
            text
        },
    };
    let name = active_model_name(&state.models, app.selected);
    ChatScreen {
        status_text,
        status_is_note: state.status_message.is_some(),
        model_line: "Model: ".to_owned().concat(name.as_str()),
        scroll: app.scroll,
    }
}

/// Works out the settings screen.
pub fn draw_settings(app: &App, state: &SharedState) -> (screen: SettingsScreen)
    ensures
        screen@ == settings_screen(state@, *app),
{
    let mut models: Vec<String> = Vec::new();
    let mut i: usize = 0;
    while i < state.models.len()
        invariant
            i <= state.models.len(),
            lines_view(models@) == names_view(state.models@).take(i as int),
        decreases state.models.len() - i,
    {
        models.push(state.models[i].name.clone());
        assert(names_view(state.models@).take(i + 1) =~= names_view(state.models@).take(
            i as int,
        ).push(state.models@[i as int].name@));
        i += 1;
    }
    assert(names_view(state.models@).take(state.models.len() as int) =~= names_view(
        state.models@,
    ));
    SettingsScreen {
        focus: app.focus,
        connected: state.status,
        status_text: if state.status {
            "Status: Connected".to_owned()
        } else {
            "Status: Disconnected".to_owned()
        },
        models,
        selected: app.selected,
    }
}

/// The lines of the question whether to run a tool.
pub fn draw_confirmation(call: &ToolCall) -> (lines: Vec<String>)
    ensures
        lines_view(lines@) == confirmation_lines(call@),
{
    let params = call.params.to_text();
    let lines = vec![
        "Execute Command?".to_owned(),
        "".to_owned(),
        "Tool: ".to_owned().concat(call.tool.as_str()),
        "Params: ".to_owned().concat(params.as_str()),
        "".to_owned(),
        "Press 'y' to confirm, 'n' to cancel.".to_owned(),
    ];
    lines
}

/// Works out what the screen shows: by the mode, the chat, the settings,
/// the help, or a question over the chat. Only the chat, with or without a
/// question over it, touches the display layer's state.
pub fn draw_ui(app: &mut App, state: &SharedState, conversation_area: Rect, history_lines: usize) -> (screen:
    Screen)
    ensures
        screen@ == screen_of(state@, *old(app), conversation_area, history_lines),
        *final(app) == app_after_drawing(state@, *old(app), conversation_area, history_lines),
{
    match &state.mode {
        AppMode::Chat => Screen::Chat(draw_chat(app, state, conversation_area, history_lines)),
        AppMode::Settings => Screen::Settings(draw_settings(app, state)),
        AppMode::Help => Screen::Help,
        AppMode::Confirmation(modal) => {
            let chat = draw_chat(app, state, conversation_area, history_lines);
            Screen::Confirmation(chat, draw_confirmation(modal.tool_call()))
        },
    }
}

/// The chat screen is never scrolled past the greatest offset, and a
/// conversation that fits into its rows is not scrolled at all.
pub proof fn lemma_scroll_is_held(
    state: SharedStateView,
    scroll: u16,
    selected: Option<usize>,
    conversation_area: Rect,
    history_lines: usize,
)
    ensures
        chat_screen(state, scroll, selected, conversation_area, history_lines).scroll
            <= max_scroll_offset(history_lines, text_rows(conversation_area)),
        chat_screen(state, scroll, selected, conversation_area, history_lines).scroll <= scroll,
        history_lines <= text_rows(conversation_area) ==> chat_screen(
            state,
            scroll,
            selected,
            conversation_area,
            history_lines,
        ).scroll == 0,
{
}

} // verus!
