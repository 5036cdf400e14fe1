//! The state of the client: what the worker and the display layer share,
//! and what the display layer keeps for itself.

use crate::config::{Config, ConfigView};
use crate::llm::{assistant_prefix, names_view, user_prefix, Model};
use crate::mouse::Rect;
use crate::text::{copy_text, lines_view, or_empty, text_view};
use crate::ui::{Action, ActionView, AppMode, AppModeView, Focus};
use vstd::prelude::*;

verus! {

/// What the worker and the display layer share. The worker changes it one
/// step at a time; the display layer reads it.
#[derive(Debug)]
pub struct SharedState {
    pub mode: AppMode,
    /// The catalogue of models.
    pub models: Vec<Model>,
    /// The conversation: lines are added at its end and never changed.
    pub chat_history: Vec<String>,
    /// Whether the model server answered the last probe.
    pub status: bool,
    /// The preamble that goes before every conversation.
    pub lucius_context: Option<String>,
    pub config: Config,
    /// A passing note for the status line.
    pub status_message: Option<String>,
    /// Whether the broker for tool calls is connected.
    pub mcp_connected: bool,
}

/// What the model has to be told when a message is sent: the conversation,
/// the model's name, the server's address, and the preamble.
#[derive(Debug)]
pub struct TurnRequest {
    pub history: Vec<String>,
    pub model: String,
    pub url: String,
    pub context: Option<String>,
}

/// What the worker is told.
#[derive(Debug)]
pub enum WorkerEvent {
    /// The display layer asks for something.
    Requested(Action),
    /// The probe of the model server has ended.
    Probed(bool),
    /// The catalogue was fetched, or could not be.
    ModelsFetched(Option<Vec<Model>>),
    /// The turn has ended with this text.
    TurnEnded(String),
}

/// What the worker has to do next.
#[derive(Debug)]
pub enum WorkerCommand {
    /// Nothing: wait for the next request.
    Idle,
    /// Probe the model server at this address.
    Probe(String),
    /// Fetch the catalogue from this address.
    FetchModels(String),
    /// Run a turn of the conversation.
    RunTurn(TurnRequest),
}

/// What a [`WorkerCommand`] stands for.
pub enum WorkerCommandView {
    Idle,
    Probe(Seq<char>),
    FetchModels(Seq<char>),
    RunTurn { history: Seq<Seq<char>>, model: Seq<char>, url: Seq<char>, context: Option<Seq<char>> },
}

impl View for WorkerCommand {
    type V = WorkerCommandView;

    open spec fn view(&self) -> WorkerCommandView {
        match self {
            WorkerCommand::Idle => WorkerCommandView::Idle,
            WorkerCommand::Probe(url) => WorkerCommandView::Probe(url@),
            WorkerCommand::FetchModels(url) => WorkerCommandView::FetchModels(url@),
            WorkerCommand::RunTurn(request) => WorkerCommandView::RunTurn {
                history: lines_view(request.history@),
                model: request.model@,
                url: request.url@,
                context: text_view(request.context),
            },
        }
    }
}

/// A copy of a list of lines.
pub fn copy_lines(lines: &Vec<String>) -> (copy: Vec<String>)
    ensures
        lines_view(copy@) == lines_view(lines@),
{
    let mut copy: Vec<String> = Vec::new();
    let mut i: usize = 0;
    while i < lines.len()
        invariant
            i <= lines.len(),
            lines_view(copy@) == lines_view(lines@).take(i as int),
        decreases lines.len() - i,
    {
        copy.push(lines[i].clone());
        assert(lines_view(lines@).take(i + 1) =~= lines_view(lines@).take(i as int).push(
            lines@[i as int]@,
        ));
        i += 1;
    }
    copy
}

/// What a [`SharedState`] stands for.
pub struct SharedStateView {
    pub mode: AppModeView,
    pub models: Seq<Seq<char>>,
    pub chat_history: Seq<Seq<char>>,
    pub status: bool,
    pub lucius_context: Option<Seq<char>>,
    pub config: ConfigView,
    pub status_message: Option<Seq<char>>,
    pub mcp_connected: bool,
}

impl View for SharedState {
    type V = SharedStateView;

    open spec fn view(&self) -> SharedStateView {
        SharedStateView {
            mode: self.mode@,
            models: names_view(self.models@),
            chat_history: lines_view(self.chat_history@),
            status: self.status,
            lucius_context: text_view(self.lucius_context),
            config: self.config@,
            status_message: text_view(self.status_message),
            mcp_connected: self.mcp_connected,
        }
    }
}

/// What a [`WorkerEvent`] stands for.
pub enum WorkerEventView {
    Requested(ActionView),
    Probed(bool),
    ModelsFetched(Option<Seq<Seq<char>>>),
    TurnEnded(Seq<char>),
}

impl View for WorkerEvent {
    type V = WorkerEventView;

    open spec fn view(&self) -> WorkerEventView {
        match self {
            WorkerEvent::Requested(action) => WorkerEventView::Requested(action@),
            WorkerEvent::Probed(online) => WorkerEventView::Probed(*online),
            WorkerEvent::ModelsFetched(fetched) => WorkerEventView::ModelsFetched(
                match fetched {
                    Some(models) => Some(names_view(models@)),
                    None => None,
                },
            ),
            WorkerEvent::TurnEnded(text) => WorkerEventView::TurnEnded(text@),
        }
    }
}

/// The state at the start: the chat screen, no models, an empty
/// conversation, the server not yet probed.
pub open spec fn initial_state(
    config: ConfigView,
    lucius_context: Option<Seq<char>>,
    mcp_connected: bool,
) -> SharedStateView {
    SharedStateView {
        mode: AppModeView::Chat,
        models: Seq::empty(),
        chat_history: Seq::empty(),
        status: false,
        lucius_context,
        config,
        status_message: Some("Connecting to Ollama..."@),
        mcp_connected,
    }
}

/// The note for the status line after a probe.
pub open spec fn probe_note(online: bool) -> Seq<char> {
    if online {
        "Ollama is online."@
    } else {
        "Ollama is offline."@
    }
}

/// One step of the worker: what an event makes of the state, and what is to
/// be done next.
///
/// A request to refresh starts a probe. A server that answered the probe is
/// asked for its catalogue; one that did not leaves the catalogue empty. A
/// catalogue that arrived replaces the old one; one that could not be
/// fetched changes nothing. A request to send a message adds the user's line
/// to the conversation and starts a turn with the conversation as it then
/// is; the text with which the turn ends is added as the model's line, to the
/// conversation as it is by then.
pub open spec fn worker_step(state: SharedStateView, event: WorkerEventView) -> (
    SharedStateView,
    WorkerCommandView,
) {
    match event {
        WorkerEventView::Requested(ActionView::RefreshModelsAndStatus) => (
            state,
            WorkerCommandView::Probe(or_empty(state.config.ollama_url)),
        ),
        WorkerEventView::Probed(online) => {
            let probed = SharedStateView {
                status: online,
                status_message: Some(probe_note(online)),
                ..state
            };
            if online {
                (probed, WorkerCommandView::FetchModels(or_empty(state.config.ollama_url)))
            } else {
                (SharedStateView { models: Seq::empty(), ..probed }, WorkerCommandView::Idle)
            }
        },
        WorkerEventView::ModelsFetched(fetched) => match fetched {
            Some(models) => (
                SharedStateView { models, status_message: Some("Models updated."@), ..state },
                WorkerCommandView::Idle,
            ),
            None => (state, WorkerCommandView::Idle),
        },
        WorkerEventView::Requested(ActionView::SendMessage(input)) => {
            let history = state.chat_history.push(user_prefix() + input);
            (
                SharedStateView { chat_history: history, ..state },
                WorkerCommandView::RunTurn {
                    history,
                    model: or_empty(state.config.selected_model),
                    url: or_empty(state.config.ollama_url),
                    context: state.lucius_context,
                },
            )
        },
        WorkerEventView::TurnEnded(text) => (
            SharedStateView {
                chat_history: state.chat_history.push(assistant_prefix() + text),
                ..state
            },
            WorkerCommandView::Idle,
        ),
    }
}

impl SharedState {
    /// The state at the start.
    pub fn new(initial_config: Config, lucius_context: Option<String>, mcp_connected: bool) -> (state:
        SharedState)
        ensures
            state@ == initial_state(initial_config@, text_view(lucius_context), mcp_connected),
    {
        let state = SharedState {
            mode: AppMode::Chat,
            models: Vec::new(),
            chat_history: Vec::new(),
            status: false,
            lucius_context,
            config: initial_config,
            status_message: Some("Connecting to Ollama...".to_owned()),
            mcp_connected,
        };
        assert(names_view(state.models@) =~= Seq::<Seq<char>>::empty());
        assert(lines_view(state.chat_history@) =~= Seq::<Seq<char>>::empty());
        state
    }

    /// One step of the worker: takes what happened, changes the state, and
    /// says what to do next.
    pub fn background_worker(&mut self, event: WorkerEvent) -> (command: WorkerCommand)
        ensures
            (final(self)@, command@) == worker_step(old(self)@, event@),
    {
        match event {
            WorkerEvent::Requested(Action::RefreshModelsAndStatus) => WorkerCommand::Probe(
                self.config.url(),
            ),
            WorkerEvent::Probed(online) => {
                self.status = online;
                if online {
                    self.status_message = Some("Ollama is online.".to_owned());
                    WorkerCommand::FetchModels(self.config.url())
                } else {
                    self.status_message = Some("Ollama is offline.".to_owned());
                    self.models = Vec::new();
                    assert(names_view(self.models@) =~= Seq::<Seq<char>>::empty());
                    WorkerCommand::Idle
                }
            },
            WorkerEvent::ModelsFetched(fetched) => {
                if let Some(models) = fetched {
                    self.models = models;
                    self.status_message = Some("Models updated.".to_owned());
                }
                WorkerCommand::Idle
            },
            WorkerEvent::Requested(Action::SendMessage(input)) => {
                let ghost before = lines_view(self.chat_history@);
                let entry = "You: ".to_owned().concat(input.as_str());
                self.chat_history.push(entry);
                assert(lines_view(self.chat_history@) =~= before.push(user_prefix() + input@));
                WorkerCommand::RunTurn(
                    TurnRequest {
                        history: copy_lines(&self.chat_history),
                        model: self.config.model(),
                        url: self.config.url(),
                        context: copy_text(&self.lucius_context),
                    },
                )
            },
            WorkerEvent::TurnEnded(text) => {
                let ghost before = lines_view(self.chat_history@);
                let entry = "Lucius: ".to_owned().concat(text.as_str());
                self.chat_history.push(entry);
                assert(lines_view(self.chat_history@) =~= before.push(
                    assistant_prefix() + text@,
                ));
                WorkerCommand::Idle
            },
        }
    }
}

/// The worker only adds to the conversation: what stood in it before a step
/// stands in it after the step, at the same places.
pub proof fn lemma_worker_only_appends(state: SharedStateView, event: WorkerEventView)
    ensures
        ({
            let after = worker_step(state, event).0;
            &&& state.chat_history.len() <= after.chat_history.len()
            &&& after.chat_history.take(state.chat_history.len() as int) == state.chat_history
        }),
{
    let after = worker_step(state, event).0;
    assert(after.chat_history.take(state.chat_history.len() as int) =~= state.chat_history);
}

/// The turn that a request starts is told the conversation with the user's
/// new line at its end.
pub proof fn lemma_turn_sees_the_users_line(state: SharedStateView, input: Seq<char>)
    ensures
        worker_step(
            state,
            WorkerEventView::Requested(ActionView::SendMessage(input)),
        ).1 matches WorkerCommandView::RunTurn { history, .. } && history.last() == user_prefix()
            + input && history.drop_last() == state.chat_history,
{
    let history = state.chat_history.push(user_prefix() + input);
    assert(history.drop_last() =~= state.chat_history);
}

/// The display layer's own state.
#[derive(Debug)]
pub struct App {
    /// The model that is marked in the list of models.
    pub selected: Option<usize>,
    pub focus: Focus,
    /// How far the conversation is scrolled, in lines.
    pub scroll: u16,
    /// The text that is marked with the mouse: where the mark began and
    /// where it ends, each as a line and a column.
    pub selection_range: Option<((usize, usize), (usize, usize))>,
    /// Where the conversation was last drawn.
    pub conversation_area: Rect,
}

/// The model that is marked after a step down the list: the next one, and
/// the first one after the last and where none was marked.
pub open spec fn next_index(selected: Option<usize>, model_count: usize) -> usize {
    match selected {
        Some(i) => if model_count == 0 || i >= model_count - 1 {
            0
        } else {
            (i + 1) as usize
        },
        None => 0,
    }
}

/// The model that is marked after a step up the list: the one before, the
/// last one before the first, and the first one where none was marked.
pub open spec fn previous_index(selected: Option<usize>, model_count: usize) -> usize {
    match selected {
        Some(i) => if model_count == 0 {
            0
        } else if i == 0 {
            (model_count - 1) as usize
        } else {
            (i - 1) as usize
        },
        None => 0,
    }
}

impl App {
    /// The state at the start: nothing marked, the address of the model
    /// server in focus, the conversation at its top.
    pub fn new() -> (app: App)
        ensures
            app.selected is None,
            app.focus == Focus::Url,
            app.scroll == 0,
            app.selection_range is None,
            app.conversation_area == (Rect { x: 0, y: 0, width: 0, height: 0 }),
    {
        App {
            selected: None,
            focus: Focus::Url,
            scroll: 0,
            selection_range: None,
            conversation_area: Rect { x: 0, y: 0, width: 0, height: 0 },
        }
    }

    /// Scrolls one line up, and stays at the top.
    pub fn scroll_up(&mut self)
        ensures
            final(self).scroll == if old(self).scroll == 0 {
                0
            } else {
                old(self).scroll - 1
            },
            final(self).selected == old(self).selected,
            final(self).focus == old(self).focus,
            final(self).selection_range == old(self).selection_range,
            final(self).conversation_area == old(self).conversation_area,
    {
        if self.scroll > 0 {
            self.scroll = self.scroll - 1;
        }
    }

    /// Scrolls one line down, and stays at the greatest offset.
    pub fn scroll_down(&mut self)
        ensures
            final(self).scroll == if old(self).scroll == u16::MAX {
                u16::MAX as int
            } else {
                old(self).scroll + 1
            },
            final(self).selected == old(self).selected,
            final(self).focus == old(self).focus,
            final(self).selection_range == old(self).selection_range,
            final(self).conversation_area == old(self).conversation_area,
    {
        if self.scroll < u16::MAX {
            self.scroll = self.scroll + 1;
        }
    }

    /// Marks the next model in a list of `model_count`.
    pub fn models_next(&mut self, model_count: usize)
        ensures
            final(self).selected == Some(next_index(old(self).selected, model_count)),
            final(self).scroll == old(self).scroll,
            final(self).focus == old(self).focus,
            final(self).selection_range == old(self).selection_range,
            final(self).conversation_area == old(self).conversation_area,
    {
        let i: usize = match self.selected {
            Some(i) => {
                if model_count == 0 {
                    0
                } else if i >= model_count - 1 {
                    0
                } else {
                    i + 1
                }
            },
            None => 0,
        };
        self.selected = Some(i);
    }

    /// Marks the model before in a list of `model_count`.
    pub fn models_previous(&mut self, model_count: usize)
        ensures
            final(self).selected == Some(previous_index(old(self).selected, model_count)),
            final(self).scroll == old(self).scroll,
            final(self).focus == old(self).focus,
            final(self).selection_range == old(self).selection_range,
            final(self).conversation_area == old(self).conversation_area,
    {
        let i: usize = match self.selected {
            Some(i) => {
                if model_count == 0 {
                    0
                } else if i == 0 {
                    model_count - 1
                } else {
                    i - 1
                }
            },
            None => 0,
        };
        self.selected = Some(i);
    }
}

/// Where a list is not empty and a model in it is marked, a step marks a
/// model in it again.
pub proof fn lemma_selection_stays_in_list(selected: Option<usize>, model_count: usize)
    requires
        model_count > 0,
        selected matches Some(i) ==> i < model_count,
    ensures
        next_index(selected, model_count) < model_count,
        previous_index(selected, model_count) < model_count,
{
}

/// A step down and a step up again leave the mark where it was.
pub proof fn lemma_next_then_previous(i: usize, model_count: usize)
    requires
        i < model_count,
    ensures
        previous_index(Some(next_index(Some(i), model_count)), model_count) == i,
        next_index(Some(previous_index(Some(i), model_count)), model_count) == i,
{
}

} // verus!
