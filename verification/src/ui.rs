//! What the display layer and the worker say to each other, and the modes
//! of the screen.

use crate::llm::Model;
use crate::mcp::{ToolCall, ToolCallView};
use vstd::prelude::*;

verus! {

/// What the display layer asks of the worker.
#[derive(Debug, Clone)]
pub enum Action {
    /// Probe the model server and refresh the catalogue.
    RefreshModelsAndStatus,
    /// Send a new user message to the model.
    SendMessage(String),
}

/// What an [`Action`] stands for.
pub enum ActionView {
    RefreshModelsAndStatus,
    SendMessage(Seq<char>),
}

impl View for Action {
    type V = ActionView;

    open spec fn view(&self) -> ActionView {
        match self {
            Action::RefreshModelsAndStatus => ActionView::RefreshModelsAndStatus,
            Action::SendMessage(text) => ActionView::SendMessage(text@),
        }
    }
}

/// What the worker reports back.
#[derive(Debug)]
pub enum Update {
    /// A new catalogue was fetched.
    Models(Vec<Model>),
    /// The server was probed.
    Status(bool),
    /// A piece of the model's answer has arrived.
    LLMChunk(String),
}

/// Which part of the settings screen takes the keys.
#[derive(Debug, PartialEq, Eq, Structural, Clone, Copy)]
pub enum Focus {
    Url,
    McpUrl,
    Models,
}

/// A question to the user that holds up everything else until it is answered.
#[derive(Debug)]
pub enum ConfirmationModal {
    /// Whether to run a tool. The answer goes through a slot that takes one
    /// answer and no more: `awaiting_answer` says whether it is still open.
    ExecuteTool { tool_call: ToolCall, awaiting_answer: bool },
}

/// What a [`ConfirmationModal`] stands for.
pub enum ConfirmationModalView {
    ExecuteTool { tool_call: ToolCallView, awaiting_answer: bool },
}

impl View for ConfirmationModal {
    type V = ConfirmationModalView;

    open spec fn view(&self) -> ConfirmationModalView {
        match self {
            ConfirmationModal::ExecuteTool {
                tool_call,
                awaiting_answer,
            } => ConfirmationModalView::ExecuteTool {
                tool_call: tool_call@,
                awaiting_answer: *awaiting_answer,
            },
        }
    }
}

impl ConfirmationModal {
    /// The tool call that the question is about.
    pub open spec fn subject(self) -> ToolCallView {
        match self {
            ConfirmationModal::ExecuteTool { tool_call, .. } => tool_call@,
        }
    }

    /// The tool call that the question is about.
    pub fn tool_call(&self) -> (call: &ToolCall)
        ensures
            call@ == self.subject(),
    {
        match self {
            ConfirmationModal::ExecuteTool { tool_call, .. } => tool_call,
        }
    }
}

impl Clone for ConfirmationModal {
    /// A copy asks about the same tool call, but its slot is closed: the one
    /// answer belongs to the question that was copied.
    fn clone(&self) -> (copy: ConfirmationModal)
        ensures
            copy@ == (ConfirmationModalView::ExecuteTool {
                tool_call: self.subject(),
                awaiting_answer: false,
            }),
    {
        match self {
            ConfirmationModal::ExecuteTool { tool_call, .. } => ConfirmationModal::ExecuteTool {
                tool_call: tool_call.duplicate(),
                awaiting_answer: false,
            },
        }
    }
}

impl PartialEq for ConfirmationModal {
    /// Two questions are the same where they are about the same tool call,
    /// whatever has become of their slots.
    fn eq(&self, other: &ConfirmationModal) -> (r: bool) {
        match (self, other) {
            (
                ConfirmationModal::ExecuteTool { tool_call: a, .. },
                ConfirmationModal::ExecuteTool { tool_call: b, .. },
            ) => a.same(b),
        }
    }
}

impl vstd::std_specs::cmp::PartialEqSpecImpl for ConfirmationModal {
    open spec fn obeys_eq_spec() -> bool {
        true
    }

    open spec fn eq_spec(&self, other: &ConfirmationModal) -> bool {
        self.subject() == other.subject()
    }
}

/// What the screen shows.
#[derive(Debug, Clone)]
pub enum AppMode {
    Chat,
    Settings,
    Help,
    Confirmation(ConfirmationModal),
}

/// What an [`AppMode`] stands for.
pub enum AppModeView {
    Chat,
    Settings,
    Help,
    Confirmation(ConfirmationModalView),
}

impl View for AppMode {
    type V = AppModeView;

    open spec fn view(&self) -> AppModeView {
        match self {
            AppMode::Chat => AppModeView::Chat,
            AppMode::Settings => AppModeView::Settings,
            AppMode::Help => AppModeView::Help,
            AppMode::Confirmation(modal) => AppModeView::Confirmation(modal@),
        }
    }
}

impl PartialEq for AppMode {
    /// Two modes are the same where they are the same screen, and, for a
    /// question, the same question.
    fn eq(&self, other: &AppMode) -> (r: bool) {
        match (self, other) {
            (AppMode::Chat, AppMode::Chat) => true,
            (AppMode::Settings, AppMode::Settings) => true,
            (AppMode::Help, AppMode::Help) => true,
            (AppMode::Confirmation(a), AppMode::Confirmation(b)) => a == b,
            _ => false,
        }
    }
}

impl vstd::std_specs::cmp::PartialEqSpecImpl for AppMode {
    open spec fn obeys_eq_spec() -> bool {
        true
    }

    open spec fn eq_spec(&self, other: &AppMode) -> bool {
        match (self, other) {
            (AppMode::Chat, AppMode::Chat) => true,
            (AppMode::Settings, AppMode::Settings) => true,
            (AppMode::Help, AppMode::Help) => true,
            (AppMode::Confirmation(a), AppMode::Confirmation(b)) => a.subject() == b.subject(),
            _ => false,
        }
    }
}

/// The keys and what they do, as the help screen shows them.
pub const HELP_MESSAGE: &'static str = "\n--- Help ---\nCtrl+H: Toggle Help\nCtrl+S: Toggle Settings\nCtrl+Q: Quit\nCtrl+L: Clear Chat\nCtrl+Y: Yank (Copy) Last Response\nCtrl+T: MCP Status\nEsc: Interrupt current stream (if any)\nMouse Scroll: Scroll chat history\nShift + Mouse Drag: Select text for copying\nEnter: Send message (Chat mode), Select model (Settings mode)\nTab: Switch focus (Settings mode)\nCtrl+R: Refresh models (Settings mode)\nEsc: Go to Chat (Settings mode)\n-----------------\n";

/// The banner above the conversation.
pub const ASCII_ART: &'static str = "\n _               _              ____ _     ___ \n| |   _   _  ___(_)_   _ ___   / ___| |   |_ _|\n| |  | | | |/ __| | | | / __| | |   | |    | |\n| |__| |_| | (__| | |_| \\__ \\ | |___| |___ | |\n|_____\\__,_|\\___|_|\\__,_|___/  \\____|_____|___|\n";

} // verus!
