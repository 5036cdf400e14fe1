//! One turn of the model's answer: the request that is sent, and the stream
//! of lines that comes back.

use crate::json::{items_view, json_parse, json_text, lookup, members_view, Json, JsonValue};
use crate::mcp::{
    lemma_no_marker_no_call, open_marker, parse_tool_call, tool_call_in, ToolCall, ToolCallView,
};
use crate::text::{
    blank, chars_of, complete_len, complete_length, contains, has_prefix, is_blank,
    lemma_complete_len, lemma_contains_in_longer, lemma_lines_of_concat, lines_of, lines_view,
    split_lines, starts_with,
};
use vstd::prelude::*;

verus! {

/// A model that the server offers.
#[derive(Debug, Clone)]
pub struct Model {
    pub name: String,
}

/// The server's catalogue of models.
#[derive(Debug)]
pub struct TagsResponse {
    pub models: Vec<Model>,
}

/// The names of a list of models.
pub open spec fn names_view(models: Seq<Model>) -> Seq<Seq<char>> {
    Seq::new(models.len(), |i: int| models[i].name@)
}

/// The name of a model in the catalogue: the string under `name`.
pub open spec fn model_name(item: JsonValue) -> Option<Seq<char>> {
    match item.get("name"@) {
        Some(JsonValue::Str(name)) => Some(name),
        _ => None,
    }
}

/// The names of the first `n` items, if each of them has one.
pub open spec fn model_names(items: Seq<JsonValue>, n: int) -> Option<Seq<Seq<char>>>
    decreases n,
{
    if n <= 0 || n > items.len() {
        Some(Seq::empty())
    } else {
        match (model_names(items, n - 1), model_name(items[n - 1])) {
            (Some(names), Some(name)) => Some(names.push(name)),
            _ => None,
        }
    }
}

/// The names of the models in a catalogue: `models` is a list, and each of
/// its items has a name.
pub open spec fn catalogue_names(value: JsonValue) -> Option<Seq<Seq<char>>> {
    match value.get("models"@) {
        Some(JsonValue::Array(items)) => model_names(items, items.len() as int),
        _ => None,
    }
}

impl TagsResponse {
    /// The catalogue that a JSON value holds, if it holds one.
    pub fn from_json(value: &Json) -> (r: Option<TagsResponse>)
        ensures
            match r {
                Some(tags) => catalogue_names(value@) == Some(names_view(tags.models@)),
                None => catalogue_names(value@) is None,
            },
    {
        let items = match value.get("models") {
            Some(Json::Array(items)) => items,
            _ => {
                return None;
            },
        };
        let mut models: Vec<Model> = Vec::new();
        let mut i: usize = 0;
        while i < items.len()
            invariant
                i <= items.len(),
                value@.get("models"@) == Some(JsonValue::Array(items_view(items@))),
                model_names(items_view(items@), i as int) == Some(names_view(models@)),
            decreases items.len() - i,
        {
            let name = match items[i].get("name") {
                Some(Json::Str(name)) => name,
                _ => {
                    proof {
                        lemma_model_names_stay_none(
                            items_view(items@),
                            i + 1,
                            items.len() as int,
                        );
                    }
                    return None;
                },
            };
            models.push(Model { name: name.clone() });
            i += 1;
        }
        Some(TagsResponse { models })
    }

    /// The catalogue that the server's answer holds, if it holds one.
    pub fn parse(body: &str) -> (r: Option<TagsResponse>)
        ensures
            match r {
                Some(tags) => json_parse(body@) matches Ok(value) && catalogue_names(value)
                    == Some(names_view(tags.models@)),
                None => json_parse(body@) matches Ok(value) ==> catalogue_names(value) is None,
            },
    {
        match Json::parse(body) {
            Ok(value) => TagsResponse::from_json(&value),
            Err(_) => None,
        }
    }
}

/// Once an item has no name, no longer list has names for all.
pub proof fn lemma_model_names_stay_none(items: Seq<JsonValue>, m: int, n: int)
    requires
        0 < m <= n <= items.len(),
        model_names(items, m) is None,
    ensures
        model_names(items, n) is None,
    decreases n - m,
{
    if m < n {
        lemma_model_names_stay_none(items, m, n - 1);
    }
}

/// How one turn of the model ended.
#[derive(Debug)]
pub enum LLMResponse {
    /// The model answered in prose.
    FinalResponse(String),
    /// The model asked for a tool.
    ToolCallDetected(ToolCall),
}

/// What an [`LLMResponse`] stands for.
pub enum LLMResponseView {
    FinalResponse(Seq<char>),
    ToolCallDetected(ToolCallView),
}

impl View for LLMResponse {
    type V = LLMResponseView;

    open spec fn view(&self) -> LLMResponseView {
        match self {
            LLMResponse::FinalResponse(text) => LLMResponseView::FinalResponse(text@),
            LLMResponse::ToolCallDetected(call) => LLMResponseView::ToolCallDetected(call@),
        }
    }
}

/// An entry of the conversation, by the role that it plays.
#[derive(Debug)]
pub enum Message {
    /// What the user wrote.
    User(String),
    /// What the model answered.
    Assistant(String),
    /// A tool call that the model made, as JSON text.
    ToolCallRecord(String),
    /// What a tool returned, or why it did not.
    ToolResult(String),
}

/// What a [`Message`] stands for.
pub enum MessageView {
    User(Seq<char>),
    Assistant(Seq<char>),
    ToolCallRecord(Seq<char>),
    ToolResult(Seq<char>),
}

impl View for Message {
    type V = MessageView;

    open spec fn view(&self) -> MessageView {
        match self {
            Message::User(t) => MessageView::User(t@),
            Message::Assistant(t) => MessageView::Assistant(t@),
            Message::ToolCallRecord(t) => MessageView::ToolCallRecord(t@),
            Message::ToolResult(t) => MessageView::ToolResult(t@),
        }
    }
}

/// How a user's entry begins in the conversation.
pub open spec fn user_prefix() -> Seq<char> {
    "You: "@
}

/// How the model's entry begins.
pub open spec fn assistant_prefix() -> Seq<char> {
    "Lucius: "@
}

/// How the record of a tool call begins.
pub open spec fn tool_call_prefix() -> Seq<char> {
    "Tool Call: "@
}

/// How a tool's result begins.
pub open spec fn tool_result_prefix() -> Seq<char> {
    "Tool Result: "@
}

/// The message that a line of the conversation holds; `None` for a line that
/// begins with none of the four prefixes.
pub open spec fn message_of(entry: Seq<char>) -> Option<MessageView> {
    if has_prefix(entry, user_prefix()) {
        Some(MessageView::User(entry.skip(user_prefix().len() as int)))
    } else if has_prefix(entry, assistant_prefix()) {
        Some(MessageView::Assistant(entry.skip(assistant_prefix().len() as int)))
    } else if has_prefix(entry, tool_result_prefix()) {
        Some(MessageView::ToolResult(entry.skip(tool_result_prefix().len() as int)))
    } else if has_prefix(entry, tool_call_prefix()) {
        Some(MessageView::ToolCallRecord(entry.skip(tool_call_prefix().len() as int)))
    } else {
        None
    }
}

/// The line that holds a message.
pub open spec fn entry_of(message: MessageView) -> Seq<char> {
    match message {
        MessageView::User(t) => user_prefix() + t,
        MessageView::Assistant(t) => assistant_prefix() + t,
        MessageView::ToolCallRecord(t) => tool_call_prefix() + t,
        MessageView::ToolResult(t) => tool_result_prefix() + t,
    }
}

/// A message as the model server takes it.
#[derive(Debug)]
pub struct ChatMessage {
    pub role: String,
    pub content: String,
}

/// What a [`ChatMessage`] stands for.
pub struct ChatMessageView {
    pub role: Seq<char>,
    pub content: Seq<char>,
}

impl View for ChatMessage {
    type V = ChatMessageView;

    open spec fn view(&self) -> ChatMessageView {
        ChatMessageView { role: self.role@, content: self.content@ }
    }
}

/// The role and content under which a message goes to the model: the record
/// of a tool call goes as the model's own words, prefix included.
pub open spec fn chat_message_of(message: MessageView) -> ChatMessageView {
    match message {
        MessageView::User(t) => ChatMessageView { role: "user"@, content: t },
        MessageView::Assistant(t) => ChatMessageView { role: "assistant"@, content: t },
        MessageView::ToolCallRecord(t) => ChatMessageView {
            role: "assistant"@,
            content: tool_call_prefix() + t,
        },
        MessageView::ToolResult(t) => ChatMessageView { role: "tool"@, content: t },
    }
}

/// The messages that a conversation makes, in its order; lines that hold no
/// message are left out.
pub open spec fn history_messages(history: Seq<Seq<char>>) -> Seq<ChatMessageView>
    decreases history.len(),
{
    if history.len() == 0 {
        Seq::empty()
    } else {
        let before = history_messages(history.drop_last());
        match message_of(history.last()) {
            Some(m) => before.push(chat_message_of(m)),
            None => before,
        }
    }
}

/// The messages of a request: the preamble, if there is one, under the role
/// `system`, and then the conversation.
pub open spec fn request_messages(
    history: Seq<Seq<char>>,
    system_message: Option<Seq<char>>,
) -> Seq<ChatMessageView> {
    match system_message {
        Some(s) => seq![ChatMessageView { role: "system"@, content: s }] + history_messages(
            history,
        ),
        None => history_messages(history),
    }
}

/// The views of a list of messages.
pub open spec fn messages_view(messages: Seq<ChatMessage>) -> Seq<ChatMessageView> {
    Seq::new(messages.len(), |i: int| messages[i]@)
}

impl Message {
    /// Reads a line of the conversation.
    pub fn parse(entry: &str) -> (r: Option<Message>)
        ensures
            match r {
                Some(m) => message_of(entry@) == Some(m@),
                None => message_of(entry@) is None,
            },
    {
        let chars = chars_of(entry);
        let n: usize = chars.len();
        let user = chars_of("You: ");
        let assistant = chars_of("Lucius: ");
        let result = chars_of("Tool Result: ");
        let call = chars_of("Tool Call: ");
        if starts_with(&chars, &user) {
            let rest = entry.substring_char(user.len(), n);
            Some(Message::User(rest.to_owned()))
        } else if starts_with(&chars, &assistant) {
            let rest = entry.substring_char(assistant.len(), n);
            Some(Message::Assistant(rest.to_owned()))
        } else if starts_with(&chars, &result) {
            let rest = entry.substring_char(result.len(), n);
            Some(Message::ToolResult(rest.to_owned()))
        } else if starts_with(&chars, &call) {
            let rest = entry.substring_char(call.len(), n);
            Some(Message::ToolCallRecord(rest.to_owned()))
        } else {
            None
        }
    }

    /// Writes the message as a line of the conversation.
    pub fn render(&self) -> (entry: String)
        ensures
            entry@ == entry_of(self@),
    {
        match self {
            Message::User(t) => "You: ".to_owned().concat(t.as_str()),
            Message::Assistant(t) => "Lucius: ".to_owned().concat(t.as_str()),
            Message::ToolCallRecord(t) => "Tool Call: ".to_owned().concat(t.as_str()),
            Message::ToolResult(t) => "Tool Result: ".to_owned().concat(t.as_str()),
        }
    }

    /// The message as the model server takes it.
    pub fn to_chat(&self) -> (m: ChatMessage)
        ensures
            m@ == chat_message_of(self@),
    {
        match self {
            Message::User(t) => ChatMessage { role: "user".to_owned(), content: t.clone() },
            Message::Assistant(t) => ChatMessage {
                role: "assistant".to_owned(),
                content: t.clone(),
            },
            Message::ToolCallRecord(t) => ChatMessage {
                role: "assistant".to_owned(),
                content: "Tool Call: ".to_owned().concat(t.as_str()),
            },
            Message::ToolResult(t) => ChatMessage { role: "tool".to_owned(), content: t.clone() },
        }
    }
}

/// A line that was written for a message reads back as that message.
pub proof fn lemma_message_round_trip(message: MessageView)
    ensures
        message_of(entry_of(message)) == Some(message),
{
    reveal_strlit("You: ");
    reveal_strlit("Lucius: ");
    reveal_strlit("Tool Call: ");
    reveal_strlit("Tool Result: ");
    let entry = entry_of(message);
    match message {
        MessageView::User(t) => {
            assert(entry.take(user_prefix().len() as int) =~= user_prefix());
            assert(entry.skip(user_prefix().len() as int) =~= t);
        },
        MessageView::Assistant(t) => {
            assert(entry.take(user_prefix().len() as int)[0] == 'L');
            assert(entry.take(assistant_prefix().len() as int) =~= assistant_prefix());
            assert(entry.skip(assistant_prefix().len() as int) =~= t);
        },
        MessageView::ToolCallRecord(t) => {
            assert(entry.take(assistant_prefix().len() as int)[0] == 'T');
            if entry.len() >= tool_result_prefix().len() {
                assert(entry.take(tool_result_prefix().len() as int)[5] == 'C');
            }
            assert(entry.take(tool_call_prefix().len() as int) =~= tool_call_prefix());
            assert(entry.skip(tool_call_prefix().len() as int) =~= t);
        },
        MessageView::ToolResult(t) => {
            assert(entry.take(assistant_prefix().len() as int)[0] == 'T');
            assert(entry.take(tool_result_prefix().len() as int) =~= tool_result_prefix());
            assert(entry.skip(tool_result_prefix().len() as int) =~= t);
        },
    }
}

/// The messages that go to the model for a conversation: the preamble first,
/// if there is one, then each line that holds a message, in order.
pub fn chat_messages(history: &Vec<String>, system_message: Option<&str>) -> (messages: Vec<
    ChatMessage,
>)
    ensures
        messages_view(messages@) == request_messages(
            lines_view(history@),
            match system_message {
                Some(s) => Some(s@),
                None => None,
            },
        ),
{
    let mut messages: Vec<ChatMessage> = Vec::new();
    if let Some(s) = system_message {
        messages.push(ChatMessage { role: "system".to_owned(), content: s.to_owned() });
    }
    let ghost head = messages_view(messages@);
    let ghost lines = lines_view(history@);
    let mut i: usize = 0;
    while i < history.len()
        invariant
            i <= history.len(),
            lines == lines_view(history@),
            messages_view(messages@) == head + history_messages(lines.take(i as int)),
        decreases history.len() - i,
    {
        let ghost before = messages_view(messages@);
        assert(lines.take(i + 1).drop_last() =~= lines.take(i as int));
        if let Some(m) = Message::parse(history[i].as_str()) {
            messages.push(m.to_chat());
            assert(messages_view(messages@) =~= before.push(chat_message_of(m@)));
        }
        i += 1;
    }
    assert(lines.take(history.len() as int) =~= lines);
    messages
}

/// The JSON object for one message of a request.
pub open spec fn chat_message_value(message: ChatMessageView) -> JsonValue {
    JsonValue::Object(
        seq![
            ("role"@, JsonValue::Str(message.role)),
            ("content"@, JsonValue::Str(message.content)),
        ],
    )
}

/// The JSON object of a chat request: the model's name, streaming switched
/// on, and the messages.
pub open spec fn chat_request_value(model: Seq<char>, messages: Seq<ChatMessageView>) -> JsonValue {
    JsonValue::Object(
        seq![
            ("model"@, JsonValue::Str(model)),
            ("stream"@, JsonValue::Bool(true)),
            (
                "messages"@,
                JsonValue::Array(Seq::new(messages.len(), |i: int| chat_message_value(messages[i]))),
            ),
        ],
    )
}

/// The body of the request that asks the model to go on with a
/// conversation, as JSON text.
pub fn chat_request(history: &Vec<String>, model: &str, system_message: Option<&str>) -> (body:
    String)
    ensures
        body@ == json_text(
            chat_request_value(
                model@,
                request_messages(
                    lines_view(history@),
                    match system_message {
                        Some(s) => Some(s@),
                        None => None,
                    },
                ),
            ),
        ),
{
    let messages = chat_messages(history, system_message);
    let ghost wanted = messages_view(messages@);
    let mut items: Vec<Json> = Vec::new();
    let mut i: usize = 0;
    while i < messages.len()
        invariant
            i <= messages.len(),
            wanted == messages_view(messages@),
            items_view(items@) == Seq::new(i as nat, |k: int| chat_message_value(wanted[k])),
        decreases messages.len() - i,
    {
        let ghost before = items_view(items@);
        let members = vec![
            ("role".to_owned(), Json::Str(messages[i].role.clone())),
            ("content".to_owned(), Json::Str(messages[i].content.clone())),
        ];
        let item = Json::Object(members);
        assert(item@ == chat_message_value(wanted[i as int])) by {
            assert(members_view(members@) =~= seq![
                ("role"@, JsonValue::Str(wanted[i as int].role)),
                ("content"@, JsonValue::Str(wanted[i as int].content)),
            ]);
        }
        items.push(item);
        assert(items_view(items@) =~= before.push(chat_message_value(wanted[i as int])));
        i += 1;
    }
    let members = vec![
        ("model".to_owned(), Json::string(model)),
        ("stream".to_owned(), Json::Bool(true)),
        ("messages".to_owned(), Json::Array(items)),
    ];
    let body = Json::Object(members);
    assert(body@ == chat_request_value(model@, wanted)) by {
        assert(members_view(members@) =~= seq![
            ("model"@, JsonValue::Str(model@)),
            ("stream"@, JsonValue::Bool(true)),
            (
                "messages"@,
                JsonValue::Array(Seq::new(wanted.len(), |i: int| chat_message_value(wanted[i]))),
            ),
        ]);
    }
    body.to_text()
}

/// The address of the chat endpoint under a server's base address.
pub fn chat_url(base: &str) -> (url: String)
    ensures
        url@ == base@ + "/api/chat"@,
{
    base.to_owned().concat("/api/chat")
}

/// The address of the catalogue of models under a server's base address.
pub fn tags_url(base: &str) -> (url: String)
    ensures
        url@ == base@ + "/api/tags"@,
{
    base.to_owned().concat("/api/tags")
}

/// The piece of the answer that a decoded line carries: the string under
/// `message.content`.
pub open spec fn fragment_of(value: JsonValue) -> Option<Seq<char>> {
    match value.get("message"@) {
        Some(JsonValue::Object(message)) => match lookup(message, "content"@) {
            Some(JsonValue::Str(content)) => Some(content),
            _ => None,
        },
        _ => None,
    }
}

/// Whether a decoded line says that the answer is complete: `done` is `true`.
pub open spec fn done_of(value: JsonValue) -> bool {
    value.get("done"@) == Some(JsonValue::Bool(true))
}

/// What a line of the stream decodes to; `None` for a blank line and for one
/// that is no JSON, which are passed over.
pub open spec fn line_value(line: Seq<char>) -> Option<JsonValue> {
    if is_blank(line) {
        None
    } else {
        match json_parse(line) {
            Ok(value) => Some(value),
            Err(_) => None,
        }
    }
}

/// The piece of the answer that a line carries.
pub open spec fn line_fragment(line: Seq<char>) -> Option<Seq<char>> {
    match line_value(line) {
        Some(value) => fragment_of(value),
        None => None,
    }
}

/// Whether a line says that the answer is complete.
pub open spec fn line_done(line: Seq<char>) -> bool {
    match line_value(line) {
        Some(value) => done_of(value),
        None => false,
    }
}

/// The buffer once a line's piece was added to it.
pub open spec fn grown(buffer: Seq<char>, line: Seq<char>) -> Seq<char> {
    match line_fragment(line) {
        Some(fragment) => buffer + fragment,
        None => buffer,
    }
}

/// How a line ends the turn, if it does: with the tool call that the buffer
/// holds once the line's piece was added, or else, where the line says that
/// the answer is complete, with the buffer as the answer.
pub open spec fn line_outcome(buffer: Seq<char>, line: Seq<char>) -> Option<LLMResponseView> {
    let after = grown(buffer, line);
    if line_fragment(line) is Some && tool_call_in(after) is Some {
        Some(LLMResponseView::ToolCallDetected(tool_call_in(after).unwrap()))
    } else if line_done(line) {
        Some(LLMResponseView::FinalResponse(after))
    } else {
        None
    }
}

/// How a turn ends when the stream closes without saying that the answer is
/// complete: one last look for a tool call, and else the buffer as the answer.
pub open spec fn closing(buffer: Seq<char>) -> LLMResponseView {
    match tool_call_in(buffer) {
        Some(call) => LLMResponseView::ToolCallDetected(call),
        None => LLMResponseView::FinalResponse(buffer),
    }
}

/// How a turn ends on the lines from index `i` on, with `buffer` gathered so
/// far, and how many lines were taken up to then.
pub open spec fn run_from(buffer: Seq<char>, lines: Seq<Seq<char>>, i: int) -> (
    LLMResponseView,
    int,
)
    decreases lines.len() - i,
{
    if i < 0 || i >= lines.len() {
        (closing(buffer), lines.len() as int)
    } else {
        match line_outcome(buffer, lines[i]) {
            Some(outcome) => (outcome, i + 1),
            None => run_from(grown(buffer, lines[i]), lines, i + 1),
        }
    }
}

/// How a turn ends on a stream of lines, and how many of them were taken.
pub open spec fn stream_outcome(lines: Seq<Seq<char>>) -> (LLMResponseView, int) {
    run_from(Seq::empty(), lines, 0)
}

/// The pieces that the lines carry, joined in their order.
pub open spec fn fragments(lines: Seq<Seq<char>>) -> Seq<char>
    decreases lines.len(),
{
    if lines.len() == 0 {
        Seq::empty()
    } else {
        grown(fragments(lines.drop_last()), lines.last())
    }
}

/// How the lines from index `i` on end the turn, if they do, and the buffer
/// after them; the lines after the one that ends the turn leave no trace.
pub open spec fn feed_from(buffer: Seq<char>, lines: Seq<Seq<char>>, i: int) -> (
    Option<LLMResponseView>,
    Seq<char>,
)
    decreases lines.len() - i,
{
    if i < 0 || i >= lines.len() {
        (None, buffer)
    } else {
        match line_outcome(buffer, lines[i]) {
            Some(outcome) => (Some(outcome), grown(buffer, lines[i])),
            None => feed_from(grown(buffer, lines[i]), lines, i + 1),
        }
    }
}

/// The state of a turn while its stream is read: the answer gathered so
/// far, and the beginning of a line whose end has not arrived yet.
#[derive(Debug)]
pub struct ChatStream {
    buffer: String,
    tail: String,
}

impl View for ChatStream {
    type V = Seq<char>;

    closed spec fn view(&self) -> Seq<char> {
        self.buffer@
    }
}

/// What a chunk that arrives makes of the stream: the unfinished line and the
/// chunk together are cut behind their last line feed; the lines before the
/// cut are taken, up to one that ends the turn, and what stands behind the
/// cut is the unfinished line from then on. The three parts are how the turn
/// ends, if it does, the answer gathered, and the unfinished line.
pub open spec fn chunk_step(buffer: Seq<char>, unfinished: Seq<char>, chunk: Seq<char>) -> (
    Option<LLMResponseView>,
    Seq<char>,
    Seq<char>,
) {
    let text = unfinished + chunk;
    let cut = complete_len(text);
    let fed = feed_from(buffer, lines_of(text.take(cut)), 0);
    (fed.0, fed.1, text.skip(cut))
}

/// How a turn ends when the stream closes: what is left of an unfinished line
/// is taken as the last line, and if it does not end the turn, there is one
/// last look for a tool call, and else the buffer is the answer.
pub open spec fn finish_outcome(buffer: Seq<char>, unfinished: Seq<char>) -> LLMResponseView {
    run_from(buffer, lines_of(unfinished), 0).0
}

/// The chunks from index `i` on, put together.
pub open spec fn joined_from(chunks: Seq<Seq<char>>, i: int) -> Seq<char>
    decreases chunks.len() - i,
{
    if i < 0 || i >= chunks.len() {
        Seq::empty()
    } else {
        chunks[i] + joined_from(chunks, i + 1)
    }
}

/// How a turn ends on a stream that arrives in chunks, from chunk `i` on,
/// and closes after the last one.
pub open spec fn chunks_outcome(
    buffer: Seq<char>,
    unfinished: Seq<char>,
    chunks: Seq<Seq<char>>,
    i: int,
) -> LLMResponseView
    decreases chunks.len() - i,
{
    if i < 0 || i >= chunks.len() {
        finish_outcome(buffer, unfinished)
    } else {
        let step = chunk_step(buffer, unfinished, chunks[i]);
        match step.0 {
            Some(outcome) => outcome,
            None => chunks_outcome(step.1, step.2, chunks, i + 1),
        }
    }
}

impl ChatStream {
    /// The beginning of a line whose end has not arrived yet.
    pub closed spec fn unfinished(&self) -> Seq<char> {
        self.tail@
    }

    /// The state before the first line.
    pub fn new() -> (s: ChatStream)
        ensures
            s@ == Seq::<char>::empty(),
            s.unfinished() == Seq::<char>::empty(),
    {
        ChatStream { buffer: String::new(), tail: String::new() }
    }

    /// The answer gathered so far.
    pub fn buffer(&self) -> (b: &str)
        ensures
            b@ == self@,
    {
        self.buffer.as_str()
    }

    /// The beginning of a line whose end has not arrived yet.
    pub fn pending(&self) -> (t: &str)
        ensures
            t@ == self.unfinished(),
    {
        self.tail.as_str()
    }

    /// Takes one line of the stream. A blank line and a line that is no JSON
    /// change nothing. A piece of the answer is added to the buffer, and the
    /// buffer is searched for a tool call. `Some` ends the turn: no further
    /// line is to be fed.
    pub fn feed_line(&mut self, line: &str) -> (r: Option<LLMResponse>)
        ensures
            final(self)@ == grown(old(self)@, line@),
            final(self).unfinished() == old(self).unfinished(),
            match r {
                Some(outcome) => line_outcome(old(self)@, line@) == Some(outcome@),
                None => line_outcome(old(self)@, line@) is None,
            },
    {
        let chars = chars_of(line);
        if blank(&chars) {
            return None;
        }
        let value = match Json::parse(line) {
            Ok(value) => value,
            Err(_) => {
                return None;
            },
        };
        if let Some(message) = value.get("message") {
            if let Some(Json::Str(fragment)) = message.get("content") {
                self.buffer.append(fragment.as_str());
                if let Some(call) = parse_tool_call(self.buffer.as_str()) {
                    return Some(LLMResponse::ToolCallDetected(call));
                }
            }
        }
        let done = match value.get("done") {
            Some(Json::Bool(true)) => true,
            _ => false,
        };
        if done {
            Some(LLMResponse::FinalResponse(self.buffer.clone()))
        } else {
            None
        }
    }

    /// Takes lines one after the other, up to one that ends the turn.
    fn feed_lines(&mut self, lines: &Vec<String>) -> (r: Option<LLMResponse>)
        ensures
            final(self)@ == feed_from(old(self)@, lines_view(lines@), 0).1,
            final(self).unfinished() == old(self).unfinished(),
            match r {
                Some(outcome) => feed_from(old(self)@, lines_view(lines@), 0).0 == Some(outcome@),
                None => feed_from(old(self)@, lines_view(lines@), 0).0 is None,
            },
    {
        let mut i: usize = 0;
        while i < lines.len()
            invariant
                i <= lines.len(),
                self.unfinished() == old(self).unfinished(),
                feed_from(old(self)@, lines_view(lines@), 0) == feed_from(
                    self@,
                    lines_view(lines@),
                    i as int,
                ),
            decreases lines.len() - i,
        {
            if let Some(outcome) = self.feed_line(lines[i].as_str()) {
                return Some(outcome);
            }
            i += 1;
        }
        None
    }

    /// Takes a piece of the stream as it arrived. A chunk may end in the
    /// middle of a line: only lines whose line feed has arrived are taken,
    /// one after the other, up to one that ends the turn, and the beginning
    /// of the next line is kept until its end arrives.
    pub fn feed_chunk(&mut self, chunk: &str) -> (r: Option<LLMResponse>)
        ensures
            final(self)@ == chunk_step(old(self)@, old(self).unfinished(), chunk@).1,
            final(self).unfinished() == chunk_step(old(self)@, old(self).unfinished(), chunk@).2,
            match r {
                Some(outcome) => chunk_step(old(self)@, old(self).unfinished(), chunk@).0 == Some(
                    outcome@,
                ),
                None => chunk_step(old(self)@, old(self).unfinished(), chunk@).0 is None,
            },
    {
        let mut text = self.tail.clone();
        text.append(chunk);
        let chars = chars_of(text.as_str());
        let cut = complete_length(&chars);
        let whole = text.as_str().substring_char(0, cut);
        let rest = text.as_str().substring_char(cut, chars.len());
        assert(whole@ =~= text@.take(cut as int));
        assert(rest@ =~= text@.skip(cut as int));
        self.tail = rest.to_owned();
        let lines = split_lines(whole);
        self.feed_lines(&lines)
    }

    /// Ends the turn of a stream that closed without saying that the answer
    /// was complete: what is left of an unfinished line is taken as the last
    /// line.
    pub fn finish(self) -> (r: LLMResponse)
        ensures
            r@ == finish_outcome(self@, self.unfinished()),
    {
        let mut stream = self;
        let lines = split_lines(stream.tail.as_str());
        proof {
            lemma_run_is_feed_then_run(self@, lines_view(lines@), Seq::<Seq<char>>::empty());
            assert(lines_view(lines@) + Seq::<Seq<char>>::empty() =~= lines_view(lines@));
        }
        match stream.feed_lines(&lines) {
            Some(outcome) => outcome,
            None => match parse_tool_call(stream.buffer.as_str()) {
                Some(call) => LLMResponse::ToolCallDetected(call),
                None => LLMResponse::FinalResponse(stream.buffer),
            },
        }
    }
}

/// Running over the lines behind a list of lines is running over those lines
/// alone: how the turn ends does not depend on lines that were taken before.
pub proof fn lemma_run_after(
    buffer: Seq<char>,
    before: Seq<Seq<char>>,
    lines: Seq<Seq<char>>,
    k: int,
)
    requires
        0 <= k <= lines.len(),
    ensures
        run_from(buffer, before + lines, before.len() + k).0 == run_from(buffer, lines, k).0,
    decreases lines.len() - k,
{
    if k < lines.len() {
        assert((before + lines)[before.len() + k] == lines[k]);
        if line_outcome(buffer, lines[k]) is None {
            lemma_run_after(grown(buffer, lines[k]), before, lines, k + 1);
        }
    }
}

/// Running over two lists of lines, one after the other, is feeding the
/// first and, if it does not end the turn, running over the second with the
/// buffer that the first left.
pub proof fn lemma_run_from_is_feed_then_run(
    buffer: Seq<char>,
    first: Seq<Seq<char>>,
    second: Seq<Seq<char>>,
    i: int,
)
    requires
        0 <= i <= first.len(),
    ensures
        run_from(buffer, first + second, i).0 == match feed_from(buffer, first, i).0 {
            Some(outcome) => outcome,
            None => run_from(feed_from(buffer, first, i).1, second, 0).0,
        },
    decreases first.len() - i,
{
    if i == first.len() {
        lemma_run_after(buffer, first, second, 0);
    } else {
        assert((first + second)[i] == first[i]);
        if line_outcome(buffer, first[i]) is None {
            lemma_run_from_is_feed_then_run(grown(buffer, first[i]), first, second, i + 1);
        }
    }
}

/// The same, from the first line on.
pub proof fn lemma_run_is_feed_then_run(
    buffer: Seq<char>,
    first: Seq<Seq<char>>,
    second: Seq<Seq<char>>,
)
    ensures
        run_from(buffer, first + second, 0).0 == match feed_from(buffer, first, 0).0 {
            Some(outcome) => outcome,
            None => run_from(feed_from(buffer, first, 0).1, second, 0).0,
        },
{
    lemma_run_from_is_feed_then_run(buffer, first, second, 0);
}

/// Where a stream is cut into chunks does not matter: taking its chunks one
/// after the other, with the unfinished line carried from chunk to chunk, and
/// closing the stream after the last one ends the turn as the lines of the
/// whole stream end it.
pub proof fn lemma_chunks_are_lines(
    buffer: Seq<char>,
    unfinished: Seq<char>,
    chunks: Seq<Seq<char>>,
    i: int,
)
    requires
        0 <= i <= chunks.len(),
    ensures
        chunks_outcome(buffer, unfinished, chunks, i) == run_from(
            buffer,
            lines_of(unfinished + joined_from(chunks, i)),
            0,
        ).0,
    decreases chunks.len() - i,
{
    if i == chunks.len() {
        assert(unfinished + joined_from(chunks, i) =~= unfinished);
    } else {
        let text = unfinished + chunks[i];
        let cut = complete_len(text);
        lemma_complete_len(text);
        let whole = text.take(cut);
        let rest = text.skip(cut);
        let later = joined_from(chunks, i + 1);
        assert(unfinished + joined_from(chunks, i) =~= whole + (rest + later));
        lemma_lines_of_concat(whole, rest + later);
        lemma_run_is_feed_then_run(buffer, lines_of(whole), lines_of(rest + later));
        let step = chunk_step(buffer, unfinished, chunks[i]);
        if step.0 is None {
            lemma_chunks_are_lines(step.1, step.2, chunks, i + 1);
        }
    }
}

/// A stream that arrives in chunks ends the turn as the lines of its text
/// end it, wherever the chunks are cut.
pub proof fn lemma_chunk_boundaries_do_not_matter(chunks: Seq<Seq<char>>)
    ensures
        chunks_outcome(Seq::empty(), Seq::empty(), chunks, 0) == stream_outcome(
            lines_of(joined_from(chunks, 0)),
        ).0,
{
    lemma_chunks_are_lines(Seq::empty(), Seq::empty(), chunks, 0);
    assert(Seq::<char>::empty() + joined_from(chunks, 0) =~= joined_from(chunks, 0));
}

/// Two ways of cutting one text into chunks end the turn alike.
pub proof fn lemma_same_text_same_outcome(first: Seq<Seq<char>>, second: Seq<Seq<char>>)
    requires
        joined_from(first, 0) == joined_from(second, 0),
    ensures
        chunks_outcome(Seq::empty(), Seq::empty(), first, 0) == chunks_outcome(
            Seq::empty(),
            Seq::empty(),
            second,
            0,
        ),
{
    lemma_chunk_boundaries_do_not_matter(first);
    lemma_chunk_boundaries_do_not_matter(second);
}

/// Reads a recorded stream that arrived in chunks, and says how the turn
/// ends. No chunk after the one that ends the turn is looked at.
pub fn chat_chunks(chunks: &Vec<String>) -> (r: LLMResponse)
    ensures
        r@ == chunks_outcome(Seq::empty(), Seq::empty(), lines_view(chunks@), 0),
        r@ == stream_outcome(lines_of(joined_from(lines_view(chunks@), 0))).0,
{
    proof {
        lemma_chunk_boundaries_do_not_matter(lines_view(chunks@));
    }
    let mut stream = ChatStream::new();
    let mut i: usize = 0;
    while i < chunks.len()
        invariant
            i <= chunks.len(),
            chunks_outcome(Seq::empty(), Seq::empty(), lines_view(chunks@), 0) == stream_outcome(
                lines_of(joined_from(lines_view(chunks@), 0)),
            ).0,
            chunks_outcome(Seq::empty(), Seq::empty(), lines_view(chunks@), 0) == chunks_outcome(
                stream@,
                stream.unfinished(),
                lines_view(chunks@),
                i as int,
            ),
        decreases chunks.len() - i,
    {
        if let Some(outcome) = stream.feed_chunk(chunks[i].as_str()) {
            return outcome;
        }
        i += 1;
    }
    stream.finish()
}

/// Reads a recorded stream of lines from its first line on, and says how the
/// turn ends and how many lines were taken for it. No line after the one that
/// ends the turn is looked at.
pub fn chat_stream(lines: &Vec<String>) -> (r: (LLMResponse, usize))
    ensures
        (r.0@, r.1 as int) == stream_outcome(lines_view(lines@)),
        r.1 <= lines.len(),
{
    let mut stream = ChatStream::new();
    let mut i: usize = 0;
    while i < lines.len()
        invariant
            i <= lines.len(),
            stream.unfinished() == Seq::<char>::empty(),
            stream_outcome(lines_view(lines@)) == run_from(stream@, lines_view(lines@), i as int),
        decreases lines.len() - i,
    {
        if let Some(outcome) = stream.feed_line(lines[i].as_str()) {
            return (outcome, i + 1);
        }
        i += 1;
    }
    assert(finish_outcome(stream@, Seq::empty()) == closing(stream@));
    (stream.finish(), i)
}

/// While no line ends the turn, the buffer is the pieces of the lines taken
/// so far.
pub proof fn lemma_run_unrolls(lines: Seq<Seq<char>>, i: int)
    requires
        0 <= i <= lines.len(),
        forall|j: int| 0 <= j < i ==> line_outcome(fragments(lines.take(j)), lines[j]) is None,
    ensures
        stream_outcome(lines) == run_from(fragments(lines.take(i)), lines, i),
    decreases i,
{
    if i == 0 {
    } else {
        lemma_run_unrolls(lines, i - 1);
        lemma_fragments_step(lines, i - 1);
    }
}

/// The pieces of one more line.
pub proof fn lemma_fragments_step(lines: Seq<Seq<char>>, i: int)
    requires
        0 <= i < lines.len(),
    ensures
        fragments(lines.take(i + 1)) == grown(fragments(lines.take(i)), lines[i]),
{
    assert(lines.take(i + 1).drop_last() =~= lines.take(i));
}

/// The pieces of the first `j` lines begin the pieces of the first `k`.
pub proof fn lemma_fragments_prefix(lines: Seq<Seq<char>>, j: int, k: int) -> (rest: Seq<char>)
    requires
        0 <= j <= k <= lines.len(),
    ensures
        fragments(lines.take(k)) == fragments(lines.take(j)) + rest,
    decreases k - j,
{
    if j == k {
        Seq::empty()
    } else {
        let head = lemma_fragments_prefix(lines, j, k - 1);
        lemma_fragments_step(lines, k - 1);
        match line_fragment(lines[k - 1]) {
            Some(f) => {
                head + f
            },
            None => head,
        }
    }
}

/// A stream that says at line `k`, and not before, that the answer is
/// complete, and whose pieces up to there hold no opening marker, ends with
/// those pieces, joined in the order in which they came, as the answer; line
/// `k` is the last one taken.
pub proof fn lemma_plain_answer(lines: Seq<Seq<char>>, k: int)
    requires
        0 <= k < lines.len(),
        line_done(lines[k]),
        forall|j: int| 0 <= j < k ==> !line_done(lines[j]),
        !contains(fragments(lines.take(k + 1)), open_marker()),
    ensures
        stream_outcome(lines) == (
            LLMResponseView::FinalResponse(fragments(lines.take(k + 1))),
            k + 1,
        ),
{
    assert forall|j: int| 0 <= j <= k implies tool_call_in(
        #[trigger] fragments(lines.take(j + 1)),
    ) is None by {
        let rest = lemma_fragments_prefix(lines, j + 1, k + 1);
        if contains(fragments(lines.take(j + 1)), open_marker()) {
            lemma_contains_in_longer(fragments(lines.take(j + 1)), rest, open_marker());
        }
        lemma_no_marker_no_call(fragments(lines.take(j + 1)));
    }
    assert forall|j: int| 0 <= j < k implies line_outcome(
        fragments(lines.take(j)),
        #[trigger] lines[j],
    ) is None by {
        lemma_fragments_step(lines, j);
    }
    lemma_run_unrolls(lines, k);
    lemma_fragments_step(lines, k);
}

/// A stream whose buffer first holds a tool call once the piece of line `k`
/// was added, and which did not say before that the answer was complete,
/// ends with that tool call; line `k` is the last one taken, so that line
/// `k + 1` is never looked at.
pub proof fn lemma_tool_call_ends_turn(lines: Seq<Seq<char>>, k: int)
    requires
        0 <= k < lines.len(),
        forall|j: int|
            0 <= j < k ==> !line_done(lines[j]) && tool_call_in(
                #[trigger] fragments(lines.take(j + 1)),
            ) is None,
        tool_call_in(fragments(lines.take(k + 1))) is Some,
    ensures
        stream_outcome(lines) == (
            LLMResponseView::ToolCallDetected(
                tool_call_in(fragments(lines.take(k + 1))).unwrap(),
            ),
            k + 1,
        ),
{
    assert forall|j: int| 0 <= j < k implies line_outcome(
        fragments(lines.take(j)),
        #[trigger] lines[j],
    ) is None by {
        lemma_fragments_step(lines, j);
    }
    lemma_run_unrolls(lines, k);
    lemma_fragments_step(lines, k);
    if line_fragment(lines[k]) is None {
        if k == 0 {
            assert(!contains(Seq::<char>::empty(), open_marker())) by {
                reveal_strlit("[TOOL_CALL]");
            }
            lemma_no_marker_no_call(Seq::<char>::empty());
        } else {
            assert(tool_call_in(fragments(lines.take(k - 1 + 1))) is None);
        }
    }
}

} // verus!
