//! Tool calls: what one is, and how one is found in a model's answer.

use crate::json::{json_parse, json_text, lookup, members_view, Json, JsonValue};
use crate::text::{
    chars_of, contains, find, find_from, lemma_find_from, lemma_find_from_is,
    lemma_trim_bounds_shift, occurs_at, trim, trim_bounds, trimmed,
};
use vstd::prelude::*;

verus! {

/// A request, made by the model, to run a tool.
#[derive(Debug)]
pub struct ToolCall {
    /// The tool's name; not empty in a call that was decoded.
    pub tool: String,
    /// The arguments, as the model gave them.
    pub params: Json,
}

/// What a [`ToolCall`] stands for.
pub struct ToolCallView {
    pub tool: Seq<char>,
    pub params: JsonValue,
}

impl View for ToolCall {
    type V = ToolCallView;

    open spec fn view(&self) -> ToolCallView {
        ToolCallView { tool: self.tool@, params: self.params@ }
    }
}

/// The token that opens a tool call in a model's answer.
pub open spec fn open_marker() -> Seq<char> {
    "[TOOL_CALL]"@
}

/// The token that closes it.
pub open spec fn close_marker() -> Seq<char> {
    "[END_TOOL_CALL]"@
}

/// Where the text between the markers begins and ends: after the first
/// opening marker, and before the first closing marker that follows it.
pub open spec fn enclosed(text: Seq<char>) -> Option<(int, int)> {
    match find_from(text, open_marker(), 0) {
        None => None,
        Some(o) => match find_from(text, close_marker(), o + open_marker().len()) {
            None => None,
            Some(c) => Some((o + open_marker().len(), c)),
        },
    }
}

/// The text between the markers, without the white space at its ends.
pub open spec fn payload(text: Seq<char>) -> Option<Seq<char>> {
    match enclosed(text) {
        None => None,
        Some((lo, hi)) => {
            let (a, b) = trim_bounds(text, lo, hi);
            Some(text.subrange(a, b))
        },
    }
}

/// The tool call that a JSON value holds: an object whose member `tool` is a
/// string that is not empty, and which has a member `params`.
pub open spec fn decode(value: JsonValue) -> Option<ToolCallView> {
    match (value.get("tool"@), value.get("params"@)) {
        (Some(JsonValue::Str(tool)), Some(params)) => if tool.len() > 0 {
            Some(ToolCallView { tool, params })
        } else {
            None
        },
        _ => None,
    }
}

/// The tool call that a payload holds.
pub open spec fn decode_payload(payload: Seq<char>) -> Option<ToolCallView> {
    match json_parse(payload) {
        Ok(value) => decode(value),
        Err(_) => None,
    }
}

/// The tool call that a text holds.
pub open spec fn tool_call_in(text: Seq<char>) -> Option<ToolCallView> {
    match payload(text) {
        None => None,
        Some(p) => decode_payload(p),
    }
}

/// The JSON text of a tool call: an object with `tool` first and `params`
/// second, written without spaces.
pub open spec fn tool_call_text(call: ToolCallView) -> Seq<char> {
    "{\"tool\":"@ + json_text(JsonValue::Str(call.tool)) + ",\"params\":"@ + json_text(call.params)
        + "}"@
}

/// Looking a name up in a list that grew by one member at its end.
pub proof fn lemma_lookup_push(
    members: Seq<(Seq<char>, JsonValue)>,
    last: (Seq<char>, JsonValue),
    key: Seq<char>,
)
    ensures
        lookup(members.push(last), key) == if lookup(members, key) is Some {
            lookup(members, key)
        } else if last.0 == key {
            Some(last.1)
        } else {
            None
        },
    decreases members.len(),
{
    if members.len() == 0 {
        assert(members.push(last).drop_first() =~= members);
    } else {
        assert(members.push(last).drop_first() =~= members.drop_first().push(last));
        if members[0].0 != key {
            lemma_lookup_push(members.drop_first(), last, key);
        }
    }
}

/// The two names that a tool call is read by are not the same name.
proof fn lemma_names_differ()
    ensures
        "tool"@ != "params"@,
{
    reveal_strlit("tool");
    reveal_strlit("params");
    assert("tool"@.len() == 4 && "params"@.len() == 6);
}

impl ToolCall {
    /// The tool call that `value` holds, if it holds one.
    pub fn from_json(value: Json) -> (r: Option<ToolCall>)
        ensures
            match r {
                Some(call) => decode(value@) == Some(call@),
                None => decode(value@) is None,
            },
    {
        let mut members = match value {
            Json::Object(members) => members,
            _ => {
                return None;
            },
        };
        let ghost all = members_view(members@);
        let tool_key = "tool".to_owned();
        let params_key = "params".to_owned();
        let mut tool: Option<Json> = None;
        let mut params: Option<Json> = None;
        while members.len() > 0
            invariant
                tool_key@ == "tool"@,
                params_key@ == "params"@,
                lookup(all, "tool"@) == if lookup(members_view(members@), "tool"@) is Some {
                    lookup(members_view(members@), "tool"@)
                } else {
                    match tool {
                        Some(t) => Some(t@),
                        None => None,
                    }
                },
                lookup(all, "params"@) == if lookup(members_view(members@), "params"@) is Some {
                    lookup(members_view(members@), "params"@)
                } else {
                    match params {
                        Some(p) => Some(p@),
                        None => None,
                    }
                },
            decreases members.len(),
        {
            let ghost before = members_view(members@);
            let (name, member) = members.pop().unwrap();
            proof {
                lemma_names_differ();
                let last = (name@, member@);
                assert(before =~= members_view(members@).push(last));
                lemma_lookup_push(members_view(members@), last, "tool"@);
                lemma_lookup_push(members_view(members@), last, "params"@);
            }
            if name == tool_key {
                tool = Some(member);
            } else if name == params_key {
                params = Some(member);
            }
        }
        match (tool, params) {
            (Some(Json::Str(tool)), Some(params)) => {
                if tool.as_str().unicode_len() > 0 {
                    Some(ToolCall { tool, params })
                } else {
                    None
                }
            },
            _ => None,
        }
    }

    /// A copy of the call.
    pub fn duplicate(&self) -> (r: ToolCall)
        ensures
            r@ == self@,
    {
        ToolCall { tool: self.tool.clone(), params: self.params.duplicate() }
    }

    /// Whether two calls name the same tool with the same arguments.
    pub fn same(&self, other: &ToolCall) -> (r: bool)
        ensures
            r == (self@ == other@),
    {
        self.tool == other.tool && self.params.same(&other.params)
    }

    /// The call as JSON text, as it is recorded in a conversation.
    pub fn to_json_text(&self) -> (s: String)
        ensures
            s@ == tool_call_text(self@),
    {
        let name = Json::string(self.tool.as_str()).to_text();
        let params = self.params.to_text();
        let mut s = "{\"tool\":".to_owned();
        s.append(name.as_str());
        s.append(",\"params\":");
        s.append(params.as_str());
        s.append("}");
        s
    }
}

/// Finds the tool call in a model's answer: the text between the first
/// opening marker and the first closing marker after it, read as JSON. `None`
/// where a marker is missing or the text between them holds no tool call, as
/// it does while the answer is still arriving.
pub fn parse_tool_call(response: &str) -> (r: Option<ToolCall>)
    ensures
        match r {
            Some(call) => tool_call_in(response@) == Some(call@),
            None => tool_call_in(response@) is None,
        },
{
    let text = chars_of(response);
    let open = chars_of("[TOOL_CALL]");
    let close = chars_of("[END_TOOL_CALL]");
    let o = match find(&text, &open, 0) {
        Some(o) => o,
        None => {
            return None;
        },
    };
    proof {
        lemma_find_from(text@, open@, 0);
    }
    let lo: usize = o + open.len();
    let hi = match find(&text, &close, lo) {
        Some(c) => c,
        None => {
            return None;
        },
    };
    proof {
        lemma_find_from(text@, close@, lo as int);
    }
    let (a, b) = trimmed(&text, lo, hi);
    let inner = response.substring_char(a, b);
    match Json::parse(inner) {
        Ok(value) => ToolCall::from_json(value),
        Err(_) => None,
    }
}

/// A text in which no opening marker is followed by a closing marker holds
/// no tool call.
pub proof fn lemma_no_pair_no_call(text: Seq<char>)
    requires
        forall|o: int, c: int|
            occurs_at(text, open_marker(), o) && occurs_at(text, close_marker(), c) ==> c < o
                + open_marker().len(),
    ensures
        tool_call_in(text) is None,
{
    lemma_find_from(text, open_marker(), 0);
    match find_from(text, open_marker(), 0) {
        None => {},
        Some(o) => {
            lemma_find_from(text, close_marker(), o + open_marker().len());
        },
    }
}

/// A text without an opening marker holds no tool call.
pub proof fn lemma_no_marker_no_call(text: Seq<char>)
    requires
        !contains(text, open_marker()),
    ensures
        tool_call_in(text) is None,
{
    lemma_no_pair_no_call(text);
}

/// Where the markers stand in a text that was put together from what
/// precedes the call, the markers with a body between them, and what follows.
pub proof fn lemma_enclosed_of_surrounded(pre: Seq<char>, body: Seq<char>, post: Seq<char>)
    requires
        !contains(pre, open_marker()),
        !contains(body, close_marker()),
    ensures
        enclosed(pre + open_marker() + body + close_marker() + post) == Some(
            (
                (pre.len() + open_marker().len()) as int,
                (pre.len() + open_marker().len() + body.len()) as int,
            ),
        ),
{
    reveal_strlit("[TOOL_CALL]");
    reveal_strlit("[END_TOOL_CALL]");
    let open = open_marker();
    let close = close_marker();
    let text = pre + open + body + close + post;
    let o = pre.len() as int;
    let lo = o + open.len();
    let c = lo + body.len();
    assert(text.subrange(o, o + open.len()) =~= open);
    assert(text.subrange(c, c + close.len()) =~= close);
    assert forall|j: int| 0 <= j < o implies !occurs_at(text, open, j) by {
        if occurs_at(text, open, j) {
            if j + open.len() <= pre.len() {
                assert(pre.subrange(j, j + open.len()) =~= text.subrange(j, j + open.len()));
                assert(occurs_at(pre, open, j));
            } else {
                let k = o - j;
                assert(text.subrange(j, j + open.len())[k] == text[o]);
            }
        }
    }
    lemma_find_from_is(text, open, 0, o);
    assert forall|j: int| lo <= j < c implies !occurs_at(text, close, j) by {
        if occurs_at(text, close, j) {
            if j + close.len() <= c {
                assert(body.subrange(j - lo, j - lo + close.len()) =~= text.subrange(
                    j,
                    j + close.len(),
                ));
                assert(occurs_at(body, close, j - lo));
            } else {
                let k = c - j;
                assert(text.subrange(j, j + close.len())[k] == text[c]);
            }
        }
    }
    lemma_find_from_is(text, close, lo, c);
}

/// The payload of a text that holds a body between markers is the body
/// without the white space at its ends.
pub proof fn lemma_payload_of_surrounded(pre: Seq<char>, body: Seq<char>, post: Seq<char>)
    requires
        !contains(pre, open_marker()),
        !contains(body, close_marker()),
    ensures
        payload(pre + open_marker() + body + close_marker() + post) == Some(
            trim(body),
        ),
{
    lemma_enclosed_of_surrounded(pre, body, post);
    let text = pre + open_marker() + body + close_marker() + post;
    let lo = (pre.len() + open_marker().len()) as int;
    let hi = lo + body.len();
    assert(text.subrange(lo, hi) =~= body);
    lemma_trim_bounds_shift(text, lo, hi, body);
}

/// What surrounds the markers does not matter: a text that holds a body
/// between markers holds the tool call that the body, without the white
/// space at its ends, decodes to.
pub proof fn lemma_surroundings_ignored(pre: Seq<char>, body: Seq<char>, post: Seq<char>)
    requires
        !contains(pre, open_marker()),
        !contains(body, close_marker()),
    ensures
        tool_call_in(pre + open_marker() + body + close_marker() + post) == decode_payload(
            trim(body),
        ),
        tool_call_in(pre + open_marker() + body + close_marker() + post) == tool_call_in(
            open_marker() + body + close_marker(),
        ),
{
    lemma_payload_of_surrounded(pre, body, post);
    let none = Seq::<char>::empty();
    assert(!contains(none, open_marker())) by {
        reveal_strlit("[TOOL_CALL]");
    }
    lemma_payload_of_surrounded(none, body, none);
}

/// A tool call that was read from a text names its tool: the name is not
/// empty.
pub proof fn lemma_decoded_tool_is_named(text: Seq<char>)
    ensures
        tool_call_in(text) matches Some(call) ==> call.tool.len() > 0,
{
}

/// Reading a text again gives the same: what a text holds depends on the
/// text alone.
pub proof fn lemma_parse_again(first: Seq<char>, again: Seq<char>)
    requires
        first == again,
    ensures
        tool_call_in(first) == tool_call_in(again),
{
}

} // verus!
