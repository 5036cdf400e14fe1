//! The line-delimited RPC between the client and a tool server that runs as
//! its child process: one JSON object per line in each direction.

use crate::json::{json_parse, json_text, Json, JsonValue};
use vstd::prelude::*;

verus! {

/// The request could not be read.
pub const PARSE_ERROR: i64 = -32700;

/// The server has no such method.
pub const METHOD_NOT_FOUND: i64 = -32601;

/// The parameters are missing or of the wrong shape.
pub const INVALID_PARAMS: i64 = -32602;

/// The method failed while it ran.
pub const INTERNAL_ERROR: i64 = -32603;

/// A member of an envelope that may be left out: a member that is missing
/// and one that is `null` both count as absent.
pub open spec fn optional(member: Option<JsonValue>) -> Option<JsonValue> {
    match member {
        None => None,
        Some(JsonValue::Null) => None,
        Some(value) => Some(value),
    }
}

/// The text of a request: an object with `jsonrpc`, `method`, `params` and
/// `id`, in this order, written without spaces, and a line feed after it.
pub open spec fn request_text(method: Seq<char>, params: JsonValue, id: u64) -> Seq<char> {
    "{\"jsonrpc\":\"2.0\",\"method\":"@ + json_text(JsonValue::Str(method)) + ",\"params\":"@
        + json_text(params) + ",\"id\":"@ + json_text(JsonValue::PosInt(id)) + "}\n"@
}

/// The id that a request gets on a connection whose next id is `next`, and
/// the connection's next id after it; `None` once every id has been used.
pub open spec fn allocate(next: u64) -> Option<(u64, u64)> {
    if next < u64::MAX {
        Some((next, (next + 1) as u64))
    } else {
        None
    }
}

/// What a request fails with once every id has been used.
pub open spec fn ids_exhausted_text() -> Seq<char> {
    "No request id is left"@
}

/// The client's side of one connection: the id that the next request gets.
/// Ids start at 1 and grow by one with each request.
#[derive(Debug)]
pub struct McpClient {
    next_id: u64,
}

impl View for McpClient {
    type V = u64;

    closed spec fn view(&self) -> u64 {
        self.next_id
    }
}

/// A request that is ready to be written: its id and its line.
#[derive(Debug)]
pub struct PendingCall {
    pub id: u64,
    pub line: String,
}

impl McpClient {
    /// The state of a fresh connection.
    pub fn new() -> (client: McpClient)
        ensures
            client@ == 1,
    {
        McpClient { next_id: 1 }
    }

    /// The id that the next request gets.
    pub fn next_id(&self) -> (id: u64)
        ensures
            id == self@,
    {
        self.next_id
    }

    /// Allocates the next id and frames a request with it. Fails, with
    /// words that say so, and changes nothing, only once every id has been
    /// used.
    pub fn begin_call(&mut self, method: &str, params: &Json) -> (r: Result<PendingCall, String>)
        ensures
            match r {
                Ok(call) => {
                    &&& allocate(old(self)@) == Some((call.id, final(self)@))
                    &&& call.line@ == request_text(method@, params@, call.id)
                },
                Err(e) => {
                    &&& allocate(old(self)@) is None
                    &&& final(self)@ == old(self)@
                    &&& e@ == ids_exhausted_text()
                },
            },
    {
        if self.next_id == u64::MAX {
            return Err("No request id is left".to_owned());
        }
        let id: u64 = self.next_id;
        self.next_id = id + 1;
        let name = Json::string(method).to_text();
        let arguments = params.to_text();
        let number = Json::PosInt(id).to_text();
        let mut line = "{\"jsonrpc\":\"2.0\",\"method\":".to_owned();
        line.append(name.as_str());
        line.append(",\"params\":");
        line.append(arguments.as_str());
        line.append(",\"id\":");
        line.append(number.as_str());
        line.append("}\n");
        Ok(PendingCall { id, line })
    }

    /// Reads the line with which the server answered the request that was
    /// written under `id`. An answer under another id is not taken for this
    /// request's answer.
    pub fn end_call(id: u64, line: &str) -> (r: Result<Json, String>)
        ensures
            match r {
                Ok(result) => call_result(id, line@) == Ok::<JsonValue, Seq<char>>(result@),
                Err(e) => call_result(id, line@) == Err::<JsonValue, Seq<char>>(e@),
            },
    {
        let value = match Json::parse(line) {
            Ok(value) => value,
            Err(e) => {
                return Err(e);
            },
        };
        match value.get("jsonrpc") {
            Some(Json::Str(_)) => {},
            _ => {
                return Err("Invalid response: no version".to_owned());
            },
        }
        match value.get("id") {
            Some(Json::PosInt(answered)) => {
                if *answered != id {
                    return Err("Invalid response: the id is not the request's".to_owned());
                }
            },
            _ => {
                return Err("Invalid response: no id".to_owned());
            },
        }
        match value.get("error") {
            None => {},
            Some(Json::Null) => {},
            Some(error) => {
                return Err(error.to_text());
            },
        }
        match value.get("result") {
            None => Err("No result in response".to_owned()),
            Some(Json::Null) => Err("No result in response".to_owned()),
            Some(result) => Ok(result.duplicate()),
        }
    }
}

/// What the answer to the request that was written under `id` comes to. A
/// line that is no JSON fails with the words of the JSON error. An answer
/// needs a version that is a string and an id that is a non-negative
/// integer, and the id must be the request's: an answer under another id
/// fails, whatever it holds. An answer that holds an error fails with the
/// error as JSON text; one with a result succeeds with it; one with neither
/// fails.
pub open spec fn call_result(id: u64, line: Seq<char>) -> Result<JsonValue, Seq<char>> {
    match json_parse(line) {
        Err(e) => Err(e),
        Ok(value) => {
            if !(value.get("jsonrpc"@) matches Some(JsonValue::Str(_))) {
                Err("Invalid response: no version"@)
            } else if !(value.get("id"@) matches Some(JsonValue::PosInt(_))) {
                Err("Invalid response: no id"@)
            } else if value.get("id"@) != Some(JsonValue::PosInt(id)) {
                Err("Invalid response: the id is not the request's"@)
            } else {
                match (optional(value.get("error"@)), optional(value.get("result"@))) {
                    (Some(error), _) => Err(json_text(error)),
                    (None, Some(result)) => Ok(result),
                    (None, None) => Err("No result in response"@),
                }
            }
        },
    }
}

/// An answer is taken as a call's result only where it carries the id under
/// which the call's request was written.
pub proof fn lemma_answer_is_matched_by_id(id: u64, line: Seq<char>)
    requires
        call_result(id, line) is Ok,
    ensures
        json_parse(line) matches Ok(value) && value.get("id"@) == Some(JsonValue::PosInt(id)),
{
}

/// One line answers at most one of two requests with different ids.
pub proof fn lemma_answer_fits_one_request(first: u64, second: u64, line: Seq<char>)
    requires
        first != second,
    ensures
        !(call_result(first, line) is Ok && call_result(second, line) is Ok),
{
}

/// Of two requests that follow one another on a connection, the second
/// gets the greater id.
pub proof fn lemma_ids_increase(next: u64)
    requires
        allocate(next) is Some,
        allocate(allocate(next).unwrap().1) is Some,
    ensures
        allocate(next).unwrap().0 < allocate(allocate(next).unwrap().1).unwrap().0,
{
}

} // verus!
