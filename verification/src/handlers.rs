//! What a key or a move of the mouse does to the client.

use crate::app::{next_index, previous_index, App, SharedState};
use crate::config::ConfigView;
use crate::llm::names_view;
use crate::mouse::{can_locate, get_text_coordinates, text_coordinates, Rect};
use crate::text::{blank, chars_of, is_blank, lines_view, text_view};
use crate::ui::{
    Action, ActionView, AppMode, AppModeView, ConfirmationModal, ConfirmationModalView, Focus,
};
use vstd::prelude::*;

verus! {

/// A key of the keyboard, as far as the client tells keys apart.
#[derive(Debug, PartialEq, Eq, Structural, Clone, Copy)]
pub enum KeyCode {
    Char(char),
    Enter,
    Esc,
    Tab,
    Up,
    Down,
    Other,
}

/// A key that was pressed or released.
#[derive(Debug, PartialEq, Eq, Structural, Clone, Copy)]
pub struct KeyEvent {
    pub code: KeyCode,
    /// Whether the control key, and no other modifier, was held.
    pub control: bool,
    /// Whether the key went down.
    pub press: bool,
}

/// What the mouse did.
#[derive(Debug, PartialEq, Eq, Structural, Clone, Copy)]
pub enum MouseKind {
    ScrollUp,
    ScrollDown,
    Down,
    Drag,
    Up,
    Other,
}

/// What the mouse did, and where.
#[derive(Debug, PartialEq, Eq, Structural, Clone, Copy)]
pub struct MouseEvent {
    pub kind: MouseKind,
    pub column: u16,
    pub row: u16,
}

/// What came from the terminal.
#[derive(Debug, PartialEq, Eq, Structural, Clone, Copy)]
pub enum Event {
    Key(KeyEvent),
    Mouse(MouseEvent),
    Other,
}

/// What the editors of the screen hold at the time of an event.
#[derive(Debug)]
pub struct Editors {
    /// The message that is being written, its lines joined by line feeds.
    pub input: String,
    /// The address of the model server, its lines joined.
    pub url: String,
    /// The address of the broker, its lines joined.
    pub mcp_url: String,
}

/// What an [`Editors`] stands for.
pub struct EditorsView {
    pub input: Seq<char>,
    pub url: Seq<char>,
    pub mcp_url: Seq<char>,
}

impl View for Editors {
    type V = EditorsView;

    open spec fn view(&self) -> EditorsView {
        EditorsView { input: self.input@, url: self.url@, mcp_url: self.mcp_url@ }
    }
}

/// What is left for the caller to do after an event.
#[derive(Debug)]
pub enum Effect {
    /// End the program.
    Quit,
    /// Put the user's answer into the slot of the question.
    Answer(bool),
    /// Offer the action to the worker; it is lost if the worker's queue is
    /// full.
    Send(Action),
    /// Write the settings to disk.
    SaveConfig,
    /// Empty the editor of the message.
    ResetInput,
    /// Hand the key to the editor of the message.
    InputKey,
    /// Hand the key to the editor of the model server's address.
    UrlKey,
    /// Hand the key to the editor of the broker's address.
    McpUrlKey,
}

/// What an [`Effect`] stands for.
pub enum EffectView {
    Quit,
    Answer(bool),
    Send(ActionView),
    SaveConfig,
    ResetInput,
    InputKey,
    UrlKey,
    McpUrlKey,
}

impl View for Effect {
    type V = EffectView;

    open spec fn view(&self) -> EffectView {
        match self {
            Effect::Quit => EffectView::Quit,
            Effect::Answer(answer) => EffectView::Answer(*answer),
            Effect::Send(action) => EffectView::Send(action@),
            Effect::SaveConfig => EffectView::SaveConfig,
            Effect::ResetInput => EffectView::ResetInput,
            Effect::InputKey => EffectView::InputKey,
            Effect::UrlKey => EffectView::UrlKey,
            Effect::McpUrlKey => EffectView::McpUrlKey,
        }
    }
}

/// The views of a list of effects.
pub open spec fn effects_view(effects: Seq<Effect>) -> Seq<EffectView> {
    Seq::new(effects.len(), |i: int| effects[i]@)
}

/// The client as an event finds it and leaves it: the shared state and the
/// display layer's own.
pub struct Ui {
    pub mode: AppModeView,
    pub models: Seq<Seq<char>>,
    pub chat_history: Seq<Seq<char>>,
    pub status: bool,
    pub lucius_context: Option<Seq<char>>,
    pub config: ConfigView,
    pub status_message: Option<Seq<char>>,
    pub mcp_connected: bool,
    pub selected: Option<usize>,
    pub focus: Focus,
    pub scroll: u16,
    pub selection_range: Option<((usize, usize), (usize, usize))>,
    pub conversation_area: Rect,
}

/// The client that a shared state and a display layer's state make.
pub open spec fn ui_of(app: App, state: SharedState) -> Ui {
    Ui {
        mode: state.mode@,
        models: names_view(state.models@),
        chat_history: lines_view(state.chat_history@),
        status: state.status,
        lucius_context: text_view(state.lucius_context),
        config: state.config@,
        status_message: text_view(state.status_message),
        mcp_connected: state.mcp_connected,
        selected: app.selected,
        focus: app.focus,
        scroll: app.scroll,
        selection_range: app.selection_range,
        conversation_area: app.conversation_area,
    }
}

/// The answer that a key gives to a question: `y` says yes, `n` and escape
/// say no, in either case of the letter.
pub open spec fn answer_of(code: KeyCode) -> Option<bool> {
    match code {
        KeyCode::Char(c) => if c == 'y' || c == 'Y' {
            Some(true)
        } else if c == 'n' || c == 'N' {
            Some(false)
        } else {
            None
        },
        KeyCode::Esc => Some(false),
        _ => None,
    }
}

/// What an event does while a question is on the screen: a key that answers
/// it closes it, and the answer goes into the slot if the slot is still
/// open; nothing else has any effect.
pub open spec fn confirmation_outcome(ui: Ui, awaiting_answer: bool, event: Event) -> (
    Ui,
    Seq<EffectView>,
) {
    match event {
        Event::Key(key) => if key.press {
            match answer_of(key.code) {
                Some(answer) => (
                    Ui { mode: AppModeView::Chat, ..ui },
                    if awaiting_answer {
                        seq![EffectView::Answer(answer)]
                    } else {
                        Seq::empty()
                    },
                ),
                None => (ui, Seq::empty()),
            }
        } else {
            (ui, Seq::empty())
        },
        _ => (ui, Seq::empty()),
    }
}

/// The note that says whether the broker is connected.
pub open spec fn mcp_note(connected: bool) -> Seq<char> {
    if connected {
        "MCP is connected via Redis."@
    } else {
        "MCP Redis client not connected."@
    }
}

/// What a key does that is pressed together with the control key.
pub open spec fn control_outcome(ui: Ui, code: KeyCode, editors: EditorsView) -> (
    Ui,
    Seq<EffectView>,
) {
    match code {
        KeyCode::Char(c) => if c == 'h' {
            (
                Ui {
                    mode: if ui.mode is Help {
                        AppModeView::Chat
                    } else {
                        AppModeView::Help
                    },
                    ..ui
                },
                Seq::empty(),
            )
        } else if c == 'q' {
            (ui, seq![EffectView::Quit])
        } else if c == 's' {
            (
                Ui { mode: AppModeView::Settings, ..ui },
                seq![EffectView::Send(ActionView::RefreshModelsAndStatus)],
            )
        } else if c == 'l' {
            (Ui { chat_history: Seq::empty(), scroll: 0, ..ui }, Seq::empty())
        } else if c == 'r' && ui.mode is Settings {
            (
                Ui { config: ConfigView { ollama_url: Some(editors.url), ..ui.config }, ..ui },
                seq![
                    EffectView::SaveConfig,
                    EffectView::Send(ActionView::RefreshModelsAndStatus),
                ],
            )
        } else if c == 't' {
            (Ui { status_message: Some(mcp_note(ui.mcp_connected)), ..ui }, Seq::empty())
        } else {
            (ui, Seq::empty())
        },
        _ => (ui, Seq::empty()),
    }
}

/// What a key does on the chat screen: the enter key sends the message,
/// unless it is blank, and shows the end of the conversation; every other
/// key goes to the editor.
pub open spec fn chat_outcome(ui: Ui, code: KeyCode, editors: EditorsView) -> (
    Ui,
    Seq<EffectView>,
) {
    match code {
        KeyCode::Enter => if is_blank(editors.input) {
            (ui, Seq::empty())
        } else {
            (
                Ui { scroll: u16::MAX, ..ui },
                seq![
                    EffectView::Send(ActionView::SendMessage(editors.input)),
                    EffectView::ResetInput,
                ],
            )
        },
        _ => (ui, seq![EffectView::InputKey]),
    }
}

/// The name of the model that is marked, where one is marked that is in the
/// catalogue.
pub open spec fn marked_model(ui: Ui) -> Option<Seq<char>> {
    match ui.selected {
        Some(i) => if i < ui.models.len() {
            Some(ui.models[i as int])
        } else {
            None
        },
        None => None,
    }
}

/// What a key does on the settings screen; the part in focus decides.
pub open spec fn settings_outcome(ui: Ui, code: KeyCode, editors: EditorsView) -> (
    Ui,
    Seq<EffectView>,
) {
    match ui.focus {
        Focus::Url => {
            let kept = Ui {
                config: ConfigView { ollama_url: Some(editors.url), ..ui.config },
                ..ui
            };
            match code {
                KeyCode::Tab => (Ui { focus: Focus::McpUrl, ..kept }, seq![EffectView::SaveConfig]),
                KeyCode::Enter | KeyCode::Esc => (
                    Ui { mode: AppModeView::Chat, ..kept },
                    seq![EffectView::SaveConfig],
                ),
                _ => (ui, seq![EffectView::UrlKey]),
            }
        },
        Focus::McpUrl => {
            let kept = Ui {
                config: ConfigView { mcp_redis_host: Some(editors.mcp_url), ..ui.config },
                ..ui
            };
            match code {
                KeyCode::Tab => (Ui { focus: Focus::Models, ..kept }, seq![EffectView::SaveConfig]),
                KeyCode::Enter | KeyCode::Esc => (
                    Ui { mode: AppModeView::Chat, ..kept },
                    seq![EffectView::SaveConfig],
                ),
                _ => (ui, seq![EffectView::McpUrlKey]),
            }
        },
        Focus::Models => match code {
            KeyCode::Esc | KeyCode::Enter => if ui.selected is Some {
                (
                    Ui {
                        mode: AppModeView::Chat,
                        config: ConfigView { selected_model: marked_model(ui), ..ui.config },
                        ..ui
                    },
                    seq![EffectView::SaveConfig],
                )
            } else {
                (Ui { mode: AppModeView::Chat, ..ui }, Seq::empty())
            },
            KeyCode::Down => (
                Ui { selected: Some(next_index(ui.selected, ui.models.len() as usize)), ..ui },
                Seq::empty(),
            ),
            KeyCode::Up => (
                Ui {
                    selected: Some(previous_index(ui.selected, ui.models.len() as usize)),
                    ..ui
                },
                Seq::empty(),
            ),
            KeyCode::Tab => (Ui { focus: Focus::Url, ..ui }, Seq::empty()),
            _ => (ui, Seq::empty()),
        },
    }
}

/// What a key does on the help screen: escape leaves it.
pub open spec fn help_outcome(ui: Ui, code: KeyCode) -> (Ui, Seq<EffectView>) {
    match code {
        KeyCode::Esc => (Ui { mode: AppModeView::Chat, ..ui }, Seq::empty()),
        _ => (ui, Seq::empty()),
    }
}

/// Where the mouse points in the conversation; `None` where it is outside
/// of it, or where the place cannot be told.
pub open spec fn pointed_at(ui: Ui, mouse: MouseEvent) -> Option<(usize, usize)> {
    let area = ui.conversation_area;
    if area.y + area.height <= u16::MAX && area.x <= mouse.column {
        text_coordinates(area, mouse.column, mouse.row)
    } else {
        None
    }
}

/// What the mouse does: the wheel scrolls by a line; a button that goes
/// down in the conversation begins a mark there, a drag moves the mark's end,
/// and the button's release takes the mark away.
pub open spec fn mouse_outcome(ui: Ui, mouse: MouseEvent) -> Ui {
    match mouse.kind {
        MouseKind::ScrollUp => Ui {
            scroll: if ui.scroll == 0 {
                0
            } else {
                (ui.scroll - 1) as u16
            },
            ..ui
        },
        MouseKind::ScrollDown => Ui {
            scroll: if ui.scroll == u16::MAX {
                u16::MAX
            } else {
                (ui.scroll + 1) as u16
            },
            ..ui
        },
        MouseKind::Down => match pointed_at(ui, mouse) {
            Some(place) => Ui { selection_range: Some((place, place)), ..ui },
            None => ui,
        },
        MouseKind::Drag => match (ui.selection_range, pointed_at(ui, mouse)) {
            (Some((start, _)), Some(end)) => Ui { selection_range: Some((start, end)), ..ui },
            _ => ui,
        },
        MouseKind::Up => Ui { selection_range: None, ..ui },
        MouseKind::Other => ui,
    }
}

/// What an event does to the client, and what it leaves for the caller to
/// do. While a question is on the screen, only an answer to it counts.
/// Otherwise a key that goes down acts by the control key or by the mode of
/// the screen, and the mouse scrolls and marks.
pub open spec fn event_outcome(ui: Ui, event: Event, editors: EditorsView) -> (
    Ui,
    Seq<EffectView>,
) {
    match ui.mode {
        AppModeView::Confirmation(
            ConfirmationModalView::ExecuteTool { awaiting_answer, .. },
        ) => confirmation_outcome(ui, awaiting_answer, event),
        _ => match event {
            Event::Key(key) => if !key.press {
                (ui, Seq::empty())
            } else if key.control {
                control_outcome(ui, key.code, editors)
            } else {
                match ui.mode {
                    AppModeView::Chat => chat_outcome(ui, key.code, editors),
                    AppModeView::Settings => settings_outcome(ui, key.code, editors),
                    AppModeView::Help => help_outcome(ui, key.code),
                    AppModeView::Confirmation(_) => (ui, Seq::empty()),
                }
            },
            Event::Mouse(mouse) => (mouse_outcome(ui, mouse), Seq::empty()),
            Event::Other => (ui, Seq::empty()),
        },
    }
}

/// The effects of an event that leaves nothing to do.
fn nothing() -> (effects: Vec<Effect>)
    ensures
        effects_view(effects@) == Seq::<EffectView>::empty(),
{
    Vec::new()
}

/// The effects of an event that leaves one thing to do.
fn one(effect: Effect) -> (effects: Vec<Effect>)
    ensures
        effects_view(effects@) == seq![effect@],
{
    vec![effect]
}

/// The effects of an event that leaves two things to do.
fn two(first: Effect, second: Effect) -> (effects: Vec<Effect>)
    ensures
        effects_view(effects@) == seq![first@, second@],
{
    vec![first, second]
}

/// The answer that a key gives to a question.
fn answer(code: KeyCode) -> (r: Option<bool>)
    ensures
        r == answer_of(code),
{
    match code {
        KeyCode::Char(c) => {
            if c == 'y' || c == 'Y' {
                Some(true)
            } else if c == 'n' || c == 'N' {
                Some(false)
            } else {
                None
            }
        },
        KeyCode::Esc => Some(false),
        _ => None,
    }
}

/// An event while a question is on the screen.
fn on_confirmation(app: &App, state: &mut SharedState, awaiting_answer: bool, event: Event) -> (effects:
    Vec<Effect>)
    ensures
        (ui_of(*app, *final(state)), effects_view(effects@)) == confirmation_outcome(
            ui_of(*app, *old(state)),
            awaiting_answer,
            event,
        ),
{
    if let Event::Key(key) = event {
        if key.press {
            if let Some(reply) = answer(key.code) {
                state.mode = AppMode::Chat;
                if awaiting_answer {
                    return one(Effect::Answer(reply));
                } else {
                    return nothing();
                }
            }
        }
    }
    nothing()
}

/// A key that is pressed together with the control key.
fn on_control_key(app: &mut App, state: &mut SharedState, code: KeyCode, editors: &Editors) -> (effects:
    Vec<Effect>)
    ensures
        (ui_of(*final(app), *final(state)), effects_view(effects@)) == control_outcome(
            ui_of(*old(app), *old(state)),
            code,
            editors@,
        ),
{
    let c = match code {
        KeyCode::Char(c) => c,
        _ => {
            return nothing();
        },
    };
    if c == 'h' {
        let help = match state.mode {
            AppMode::Help => true,
            _ => false,
        };
        state.mode = if help {
            AppMode::Chat
        } else {
            AppMode::Help
        };
        nothing()
    } else if c == 'q' {
        one(Effect::Quit)
    } else if c == 's' {
        state.mode = AppMode::Settings;
        one(Effect::Send(Action::RefreshModelsAndStatus))
    } else if c == 'l' {
        state.chat_history = Vec::new();
        assert(lines_view(state.chat_history@) =~= Seq::<Seq<char>>::empty());
        app.scroll = 0;
        nothing()
    } else if c == 'r' && matches!(state.mode, AppMode::Settings) {
        state.config.ollama_url = Some(editors.url.clone());
        two(Effect::SaveConfig, Effect::Send(Action::RefreshModelsAndStatus))
    } else if c == 't' {
        state.status_message = if state.mcp_connected {
            Some("MCP is connected via Redis.".to_owned())
        } else {
            Some("MCP Redis client not connected.".to_owned())
        };
        nothing()
    } else {
        nothing()
    }
}

/// A key on the chat screen.
fn on_chat_key(app: &mut App, state: &SharedState, code: KeyCode, editors: &Editors) -> (effects:
    Vec<Effect>)
    ensures
        (ui_of(*final(app), *state), effects_view(effects@)) == chat_outcome(
            ui_of(*old(app), *state),
            code,
            editors@,
        ),
{
    match code {
        KeyCode::Enter => {
            let chars = chars_of(editors.input.as_str());
            if blank(&chars) {
                nothing()
            } else {
                app.scroll = u16::MAX;
                two(Effect::Send(Action::SendMessage(editors.input.clone())), Effect::ResetInput)
            }
        },
        _ => one(Effect::InputKey),
    }
}

/// A key on the settings screen.
fn on_settings_key(app: &mut App, state: &mut SharedState, code: KeyCode, editors: &Editors) -> (effects:
    Vec<Effect>)
    ensures
        (ui_of(*final(app), *final(state)), effects_view(effects@)) == settings_outcome(
            ui_of(*old(app), *old(state)),
            code,
            editors@,
        ),
{
    match app.focus {
        Focus::Url => match code {
            KeyCode::Tab => {
                state.config.ollama_url = Some(editors.url.clone());
                app.focus = Focus::McpUrl;
                one(Effect::SaveConfig)
            },
            KeyCode::Enter | KeyCode::Esc => {
                state.config.ollama_url = Some(editors.url.clone());
                state.mode = AppMode::Chat;
                one(Effect::SaveConfig)
            },
            _ => one(Effect::UrlKey),
        },
        Focus::McpUrl => match code {
            KeyCode::Tab => {
                state.config.mcp_redis_host = Some(editors.mcp_url.clone());
                app.focus = Focus::Models;
                one(Effect::SaveConfig)
            },
            KeyCode::Enter | KeyCode::Esc => {
                state.config.mcp_redis_host = Some(editors.mcp_url.clone());
                state.mode = AppMode::Chat;
                one(Effect::SaveConfig)
            },
            _ => one(Effect::McpUrlKey),
        },
        Focus::Models => match code {
            KeyCode::Esc | KeyCode::Enter => {
                let effects = match app.selected {
                    Some(i) => {
                        state.config.selected_model = if i < state.models.len() {
                            Some(state.models[i].name.clone())
                        } else {
                            None
                        };
                        one(Effect::SaveConfig)
                    },
                    None => nothing(),
                };
                state.mode = AppMode::Chat;
                effects
            },
            KeyCode::Down => {
                app.models_next(state.models.len());
                nothing()
            },
            KeyCode::Up => {
                app.models_previous(state.models.len());
                nothing()
            },
            KeyCode::Tab => {
                app.focus = Focus::Url;
                nothing()
            },
            _ => nothing(),
        },
    }
}

/// A key on the help screen.
fn on_help_key(app: &App, state: &mut SharedState, code: KeyCode) -> (effects: Vec<Effect>)
    ensures
        (ui_of(*app, *final(state)), effects_view(effects@)) == help_outcome(
            ui_of(*app, *old(state)),
            code,
        ),
{
    match code {
        KeyCode::Esc => {
            state.mode = AppMode::Chat;
        },
        _ => {},
    }
    nothing()
}

/// Where the mouse points in the conversation.
fn pointed(app: &App, state: &SharedState, mouse: MouseEvent) -> (r: Option<(usize, usize)>)
    ensures
        r == pointed_at(ui_of(*app, *state), mouse),
{
    if can_locate(app.conversation_area, mouse.column) {
        get_text_coordinates(app.conversation_area, mouse.column, mouse.row)
    } else {
        None
    }
}

/// A move of the mouse.
fn on_mouse(app: &mut App, state: &SharedState, mouse: MouseEvent)
    ensures
        ui_of(*final(app), *state) == mouse_outcome(ui_of(*old(app), *state), mouse),
{
    match mouse.kind {
        MouseKind::ScrollUp => app.scroll_up(),
        MouseKind::ScrollDown => app.scroll_down(),
        MouseKind::Down => {
            if let Some(place) = pointed(app, state, mouse) {
                app.selection_range = Some((place, place));
            }
        },
        MouseKind::Drag => {
            if let Some((start, _)) = app.selection_range {
                if let Some(end) = pointed(app, state, mouse) {
                    app.selection_range = Some((start, end));
                }
            }
        },
        MouseKind::Up => {
            app.selection_range = None;
        },
        MouseKind::Other => {},
    }
}

/// Takes an event from the terminal: changes the client's state, and
/// returns, in order, what is left for the caller to do.
pub fn handle_event(app: &mut App, state: &mut SharedState, event: Event, editors: &Editors) -> (effects:
    Vec<Effect>)
    ensures
        (ui_of(*final(app), *final(state)), effects_view(effects@)) == event_outcome(
            ui_of(*old(app), *old(state)),
            event,
            editors@,
        ),
{
    let question: Option<bool> = match &state.mode {
        AppMode::Confirmation(ConfirmationModal::ExecuteTool { awaiting_answer, .. }) => Some(
            *awaiting_answer,
        ),
        _ => None,
    };
    if let Some(awaiting_answer) = question {
        return on_confirmation(app, state, awaiting_answer, event);
    }
    match event {
        Event::Key(key) => {
            if !key.press {
                nothing()
            } else if key.control {
                on_control_key(app, state, key.code, editors)
            } else {
                if matches!(state.mode, AppMode::Chat) {
                    on_chat_key(app, state, key.code, editors)
                } else if matches!(state.mode, AppMode::Settings) {
                    on_settings_key(app, state, key.code, editors)
                } else if matches!(state.mode, AppMode::Help) {
                    on_help_key(app, state, key.code)
                } else {
                    nothing()
                }
            }
        },
        Event::Mouse(mouse) => {
            on_mouse(app, state, mouse);
            nothing()
        },
        Event::Other => nothing(),
    }
}

/// While a question is on the screen, no event changes anything but the
/// mode, and none but an answer to the question has an effect.
pub proof fn lemma_question_holds_everything_up(ui: Ui, event: Event, editors: EditorsView)
    requires
        ui.mode is Confirmation,
    ensures
        ({
            let (after, effects) = event_outcome(ui, event, editors);
            &&& after == ui || after == (Ui { mode: AppModeView::Chat, ..ui })
            &&& effects.len() <= 1
            &&& forall|i: int| 0 <= i < effects.len() ==> effects[i] is Answer
        }),
{
}

/// The slot of a question takes one answer: an event is answered into the
/// slot only where the slot is open, and the question is gone after it.
pub proof fn lemma_answer_given_once(ui: Ui, event: Event, editors: EditorsView)
    ensures
        ({
            let (after, effects) = event_outcome(ui, event, editors);
            forall|i: int|
                0 <= i < effects.len() && effects[i] is Answer ==> {
                    &&& ui.mode matches AppModeView::Confirmation(
                        ConfirmationModalView::ExecuteTool { awaiting_answer, .. },
                    )
                    &&& awaiting_answer
                    &&& after.mode is Chat
                }
        }),
{
}

/// No event changes a line of the conversation: an event leaves the
/// conversation as it is, or empties it.
pub proof fn lemma_conversation_kept_or_emptied(ui: Ui, event: Event, editors: EditorsView)
    ensures
        ({
            let after = event_outcome(ui, event, editors).0;
            after.chat_history == ui.chat_history || after.chat_history.len() == 0
        }),
{
}

/// No event touches what only the worker changes: the catalogue, the state
/// of the model server, the preamble, and the state of the broker.
pub proof fn lemma_events_leave_the_workers_part(ui: Ui, event: Event, editors: EditorsView)
    ensures
        ({
            let after = event_outcome(ui, event, editors).0;
            &&& after.models == ui.models
            &&& after.status == ui.status
            &&& after.lucius_context == ui.lucius_context
            &&& after.mcp_connected == ui.mcp_connected
            &&& after.conversation_area == ui.conversation_area
        }),
{
}

} // verus!
