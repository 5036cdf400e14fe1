//! A turn of the conversation: the model is asked, tools are run for it as
//! often as it calls for one, and its final answer is delivered.

use crate::llm::{
    assistant_prefix, lemma_message_round_trip, message_of, tool_call_prefix, tool_result_prefix,
    LLMResponse, LLMResponseView, MessageView,
};
use crate::mcp::{tool_call_text, ToolCall, ToolCallView};
use crate::text::{
    chars_of, has_prefix, lemma_trim_bounds_shift, lines_view, starts_with, trim, trimmed,
};
use vstd::prelude::*;

verus! {

/// A turn that waits for the model: the conversation to send to it.
#[derive(Debug)]
pub struct Turn {
    messages: Vec<String>,
}

impl View for Turn {
    type V = Seq<Seq<char>>;

    closed spec fn view(&self) -> Seq<Seq<char>> {
        lines_view(self.messages@)
    }
}

/// A turn that waits for a tool: the conversation, which already holds the
/// record of the call, and the call to run.
#[derive(Debug)]
pub struct AwaitingTool {
    messages: Vec<String>,
    call: ToolCall,
}

/// What an [`AwaitingTool`] stands for.
pub struct AwaitingToolView {
    pub messages: Seq<Seq<char>>,
    pub call: ToolCallView,
}

impl View for AwaitingTool {
    type V = AwaitingToolView;

    closed spec fn view(&self) -> AwaitingToolView {
        AwaitingToolView { messages: lines_view(self.messages@), call: self.call@ }
    }
}

/// How a turn goes on after the model has answered.
#[derive(Debug)]
pub enum TurnStep {
    /// The turn is over: hand this text to the user.
    Deliver(String),
    /// Ask the model again, with the conversation as it now is.
    AskModel(Turn),
    /// Run the tool, then go on with its outcome.
    CallTool(AwaitingTool),
}

/// What a [`TurnStep`] stands for.
pub enum TurnStepView {
    Deliver(Seq<char>),
    AskModel(Seq<Seq<char>>),
    CallTool(AwaitingToolView),
}

impl View for TurnStep {
    type V = TurnStepView;

    open spec fn view(&self) -> TurnStepView {
        match self {
            TurnStep::Deliver(text) => TurnStepView::Deliver(text@),
            TurnStep::AskModel(turn) => TurnStepView::AskModel(turn@),
            TurnStep::CallTool(waiting) => TurnStepView::CallTool(waiting@),
        }
    }
}

/// What the tool's result says when no tool server can be reached.
pub open spec fn no_tools_text() -> Seq<char> {
    "Tool Call detected, but MCP Redis client is not connected."@
}

/// How the text begins that stands for a model that could not be reached.
pub open spec fn stream_error_prefix() -> Seq<char> {
    "Error from chat stream: "@
}

/// How the result of a tool that failed begins.
pub open spec fn tool_error_prefix() -> Seq<char> {
    "Tool Error: "@
}

/// The line that records a tool call in the conversation.
pub open spec fn record_entry(call: ToolCallView) -> Seq<char> {
    tool_call_prefix() + tool_call_text(call)
}

/// The line that holds a tool's outcome: what it returned, or why it failed.
pub open spec fn result_entry(outcome: Result<Seq<char>, Seq<char>>) -> Seq<char> {
    match outcome {
        Ok(text) => tool_result_prefix() + text,
        Err(e) => tool_result_prefix() + (tool_error_prefix() + e),
    }
}

/// How a turn goes on after the model has answered. A final answer is
/// delivered, and so is the error of a model that could not be reached. A
/// tool call is recorded; it is then run, or, where no tool server can be
/// reached, answered at once with a result that says so.
pub open spec fn turn_step(
    messages: Seq<Seq<char>>,
    response: Result<LLMResponseView, Seq<char>>,
    tools_available: bool,
) -> TurnStepView {
    match response {
        Ok(LLMResponseView::FinalResponse(text)) => TurnStepView::Deliver(text),
        Err(e) => TurnStepView::Deliver(stream_error_prefix() + e),
        Ok(LLMResponseView::ToolCallDetected(call)) => {
            let recorded = messages.push(record_entry(call));
            if tools_available {
                TurnStepView::CallTool(AwaitingToolView { messages: recorded, call })
            } else {
                TurnStepView::AskModel(recorded.push(result_entry(Ok(no_tools_text()))))
            }
        },
    }
}

/// The view of the model's response or of the error in its place.
pub open spec fn response_view(response: Result<LLMResponse, String>) -> Result<
    LLMResponseView,
    Seq<char>,
> {
    match response {
        Ok(r) => Ok(r@),
        Err(e) => Err(e@),
    }
}

impl Turn {
    /// A turn for a conversation.
    pub fn new(history: Vec<String>) -> (turn: Turn)
        ensures
            turn@ == lines_view(history@),
    {
        Turn { messages: history }
    }

    /// The conversation to send to the model.
    pub fn messages(&self) -> (messages: &Vec<String>)
        ensures
            lines_view(messages@) == self@,
    {
        &self.messages
    }
}

impl AwaitingTool {
    /// The call to run.
    pub fn call(&self) -> (call: &ToolCall)
        ensures
            call@ == self@.call,
    {
        &self.call
    }

    /// The conversation so far.
    pub fn messages(&self) -> (messages: &Vec<String>)
        ensures
            lines_view(messages@) == self@.messages,
    {
        &self.messages
    }

    /// Takes the tool's outcome into the conversation, as a result that the
    /// model will read: what the tool returned, or why it failed. The model
    /// is asked again after it.
    pub fn resolve(self, outcome: Result<String, String>) -> (turn: Turn)
        ensures
            turn@ == self@.messages.push(
                result_entry(
                    match outcome {
                        Ok(text) => Ok(text@),
                        Err(e) => Err(e@),
                    },
                ),
            ),
    {
        let mut messages = self.messages;
        let entry = match outcome {
            Ok(text) => "Tool Result: ".to_owned().concat(text.as_str()),
            Err(e) => {
                let words = "Tool Error: ".to_owned().concat(e.as_str());
                "Tool Result: ".to_owned().concat(words.as_str())
            },
        };
        messages.push(entry);
        Turn { messages }
    }
}

/// Takes the model's response, or the error in its place, and says how the
/// turn goes on.
pub fn handle_llm_turn(
    turn: Turn,
    response: Result<LLMResponse, String>,
    tools_available: bool,
) -> (step: TurnStep)
    ensures
        step@ == turn_step(turn@, response_view(response), tools_available),
{
    match response {
        Ok(LLMResponse::FinalResponse(text)) => TurnStep::Deliver(text),
        Err(e) => TurnStep::Deliver("Error from chat stream: ".to_owned().concat(e.as_str())),
        Ok(LLMResponse::ToolCallDetected(call)) => {
            let mut messages = turn.messages;
            let ghost before = lines_view(messages@);
            let text = call.to_json_text();
            let record = "Tool Call: ".to_owned().concat(text.as_str());
            messages.push(record);
            assert(lines_view(messages@) =~= before.push(record_entry(call@)));
            if tools_available {
                TurnStep::CallTool(AwaitingTool { messages, call })
            } else {
                let ghost recorded = lines_view(messages@);
                let entry = "Tool Result: ".to_owned().concat(
                    "Tool Call detected, but MCP Redis client is not connected.",
                );
                messages.push(entry);
                assert(lines_view(messages@) =~= recorded.push(
                    result_entry(Ok(no_tools_text())),
                ));
                TurnStep::AskModel(Turn { messages })
            }
        },
    }
}

/// The conversation as a step leaves it; a step that delivers leaves it as
/// it was.
pub open spec fn messages_after(messages: Seq<Seq<char>>, step: TurnStepView) -> Seq<Seq<char>> {
    match step {
        TurnStepView::Deliver(_) => messages,
        TurnStepView::AskModel(after) => after,
        TurnStepView::CallTool(waiting) => waiting.messages,
    }
}

/// The conversation only grows: whatever the model answers, what stood in
/// the conversation before a step stands there after it, at the same places.
pub proof fn lemma_history_only_grows(
    messages: Seq<Seq<char>>,
    response: Result<LLMResponseView, Seq<char>>,
    tools_available: bool,
)
    ensures
        ({
            let after = messages_after(messages, turn_step(messages, response, tools_available));
            &&& messages.len() <= after.len()
            &&& after.take(messages.len() as int) == messages
        }),
{
    let after = messages_after(messages, turn_step(messages, response, tools_available));
}

/// A tool's outcome adds one line at the end of the conversation and changes
/// nothing before it, whether the tool ran or failed.
pub proof fn lemma_tool_outcome_is_appended(
    messages: Seq<Seq<char>>,
    outcome: Result<Seq<char>, Seq<char>>,
)
    ensures
        messages.push(result_entry(outcome)).drop_last() == messages,
        message_of(result_entry(outcome)) matches Some(
            MessageView::ToolResult(_),
        ),
{
    match outcome {
        Ok(text) => {
            lemma_message_round_trip(MessageView::ToolResult(text));
        },
        Err(e) => {
            lemma_message_round_trip(
                MessageView::ToolResult(tool_error_prefix() + e),
            );
        },
    }
}

/// How a line begins that is taken for the model's answer.
pub open spec fn response_mark() -> Seq<char> {
    "Lucius:"@
}

/// The text of the model's answer in a line: the line without the prefix of
/// the model's lines, if it has it, and without the white space at its ends.
pub open spec fn response_text(entry: Seq<char>) -> Seq<char> {
    if has_prefix(entry, assistant_prefix()) {
        trim(entry.skip(assistant_prefix().len() as int))
    } else {
        trim(entry)
    }
}

/// The text of the model's last answer among the first `n` lines of a
/// conversation.
pub open spec fn last_response_in(history: Seq<Seq<char>>, n: int) -> Option<Seq<char>>
    decreases n,
{
    if n <= 0 || n > history.len() {
        None
    } else if has_prefix(history[n - 1], response_mark()) {
        Some(response_text(history[n - 1]))
    } else {
        last_response_in(history, n - 1)
    }
}

/// The text of the model's last answer in a conversation, as it is copied to
/// the clipboard; `None` where the model has not answered yet.
pub fn last_response(history: &Vec<String>) -> (r: Option<String>)
    ensures
        match r {
            Some(text) => last_response_in(lines_view(history@), history.len() as int) == Some(
                text@,
            ),
            None => last_response_in(lines_view(history@), history.len() as int) is None,
        },
{
    let mark = chars_of("Lucius:");
    let prefix = chars_of("Lucius: ");
    let mut n: usize = history.len();
    while n > 0
        invariant
            n <= history.len(),
            mark@ == response_mark(),
            prefix@ == assistant_prefix(),
            last_response_in(lines_view(history@), history.len() as int) == last_response_in(
                lines_view(history@),
                n as int,
            ),
        decreases n,
    {
        let entry = history[n - 1].as_str();
        let chars = chars_of(entry);
        if starts_with(&chars, &mark) {
            let from: usize = if starts_with(&chars, &prefix) {
                prefix.len()
            } else {
                0
            };
            let (a, b) = trimmed(&chars, from, chars.len());
            proof {
                lemma_trim_bounds_shift(
                    entry@,
                    from as int,
                    entry@.len() as int,
                    entry@.skip(from as int),
                );
            }
            return Some(entry.substring_char(a, b).to_owned());
        }
        n -= 1;
    }
    None
}

} // verus!
