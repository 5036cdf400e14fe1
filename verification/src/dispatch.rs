//! Running a tool call: over the RPC with the tool server, through the
//! broker's queue, or not at all. Which of the three it is, is settled once,
//! when the client starts.

use crate::json::json_text;
use crate::mcp::ToolCall;
use crate::queue::{
    poll_outcome, poll_result, queue_error_text, reply_view, result_key_of, submit_task, task_for,
    task_queue, task_text, QueueError, QueueErrorView, Submission, POLL_TIMEOUT_SECS,
};
use crate::rpc::{
    allocate, call_result, ids_exhausted_text, request_text, McpClient, PendingCall,
};
use vstd::prelude::*;

verus! {

/// The way on which tool calls are run.
#[derive(Debug, PartialEq, Eq, Structural, Clone, Copy)]
pub enum Transport {
    /// Over the RPC with a tool server that runs as a child process.
    LocalRpc,
    /// Through the broker's queue, to a worker.
    Queue,
    /// Not at all: every call fails.
    Unavailable,
}

/// The way that the means at hand allow: the queue where the broker is
/// connected, else the RPC where the tool server was started, else none.
pub open spec fn transport_for(rpc_started: bool, broker_connected: bool) -> Transport {
    if broker_connected {
        Transport::Queue
    } else if rpc_started {
        Transport::LocalRpc
    } else {
        Transport::Unavailable
    }
}

/// What every call fails with where tools cannot be run.
pub open spec fn unavailable_text() -> Seq<char> {
    "Tool execution is unavailable"@
}

/// What is left for the caller to do for a tool call.
#[derive(Debug)]
pub enum Dispatch {
    /// Write the line to the tool server, and read one line back.
    Rpc(PendingCall),
    /// Push the task onto the queue, and wait for its result.
    Queue(Submission),
    /// Nothing: the call has failed with these words.
    Failed(String),
}

/// Runs tool calls on the way that was settled at the start.
#[derive(Debug)]
pub struct TaskDispatcher {
    transport: Transport,
    client: McpClient,
}

impl TaskDispatcher {
    /// The way on which calls are run.
    pub closed spec fn way(self) -> Transport {
        self.transport
    }

    /// The id that the next request to the tool server gets.
    pub closed spec fn next_id(self) -> u64 {
        self.client@
    }

    /// Settles the way on which tool calls are run, by what could be reached
    /// at the start.
    pub fn new(rpc_started: bool, broker_connected: bool) -> (d: TaskDispatcher)
        ensures
            d.way() == transport_for(rpc_started, broker_connected),
            d.next_id() == 1,
    {
        let transport = if broker_connected {
            Transport::Queue
        } else if rpc_started {
            Transport::LocalRpc
        } else {
            Transport::Unavailable
        };
        TaskDispatcher { transport, client: McpClient::new() }
    }

    /// The way on which calls are run.
    pub fn transport(&self) -> (t: Transport)
        ensures
            t == self.way(),
    {
        self.transport
    }

    /// Whether tool calls can be run at all.
    pub fn available(&self) -> (b: bool)
        ensures
            b == (self.way() != Transport::Unavailable),
    {
        match self.transport {
            Transport::Unavailable => false,
            _ => true,
        }
    }

    /// Prepares a tool call for the way that was settled. Over the RPC the
    /// tool's name is the method and its arguments are the parameters, under
    /// the next id. Through the queue the call becomes a task named `task_id`
    /// for `target_host`. Where no way is open the call fails at once, always
    /// with the same words; over the RPC it fails, with words of its own, only
    /// once every id has been used.
    pub fn execute(&mut self, call: ToolCall, task_id: String, target_host: String) -> (d: Dispatch)
        ensures
            final(self).way() == old(self).way(),
            match old(self).way() {
                Transport::LocalRpc => match allocate(old(self).next_id()) {
                    Some((id, next)) => {
                        &&& final(self).next_id() == next
                        &&& d matches Dispatch::Rpc(pending)
                        &&& pending.id == id
                        &&& pending.line@ == request_text(call@.tool, call@.params, id)
                    },
                    None => {
                        &&& final(self).next_id() == old(self).next_id()
                        &&& d matches Dispatch::Failed(words)
                        &&& words@ == ids_exhausted_text()
                    },
                },
                Transport::Queue => {
                    &&& final(self).next_id() == old(self).next_id()
                    &&& d matches Dispatch::Queue(s)
                    &&& s.queue@ == task_queue()
                    &&& s.payload@ == task_text(task_for(task_id@, target_host@, call@))
                    &&& s.result_key@ == result_key_of(task_id@)
                    &&& s.timeout_secs == POLL_TIMEOUT_SECS
                },
                Transport::Unavailable => {
                    &&& final(self).next_id() == old(self).next_id()
                    &&& d matches Dispatch::Failed(words)
                    &&& words@ == unavailable_text()
                },
            },
    {
        match self.transport {
            Transport::LocalRpc => match self.client.begin_call(call.tool.as_str(), &call.params) {
                Ok(pending) => Dispatch::Rpc(pending),
                Err(e) => Dispatch::Failed(e),
            },
            Transport::Queue => Dispatch::Queue(submit_task(task_id, target_host, call)),
            Transport::Unavailable => Dispatch::Failed("Tool execution is unavailable".to_owned()),
        }
    }
}

/// The tool's result over the RPC, for the request that was written under
/// `id`: the result of the call as JSON text, or the words of the error; a
/// line that could not be read fails with the reason.
pub open spec fn rpc_outcome(id: u64, line: Result<Seq<char>, Seq<char>>) -> Result<
    Seq<char>,
    Seq<char>,
> {
    match line {
        Ok(text) => match call_result(id, text) {
            Ok(result) => Ok(json_text(result)),
            Err(e) => Err(e),
        },
        Err(e) => Err(e),
    }
}

/// Turns the line that the tool server answered with, or the reason why
/// none could be exchanged, into the result of the tool call whose request
/// was written under `id`.
pub fn rpc_result(id: u64, line: Result<String, String>) -> (r: Result<String, String>)
    ensures
        match r {
            Ok(text) => rpc_outcome(
                id,
                match line {
                    Ok(l) => Ok(l@),
                    Err(e) => Err(e@),
                },
            ) == Ok::<Seq<char>, Seq<char>>(text@),
            Err(words) => rpc_outcome(
                id,
                match line {
                    Ok(l) => Ok(l@),
                    Err(e) => Err(e@),
                },
            ) == Err::<Seq<char>, Seq<char>>(words@),
        },
{
    match line {
        Ok(text) => match McpClient::end_call(id, text.as_str()) {
            Ok(result) => Ok(result.to_text()),
            Err(e) => Err(e),
        },
        Err(e) => Err(e),
    }
}

/// The tool's result through the queue: what was published, or the words of
/// the error. `pushed` says how the push went; the wait is looked at only
/// where the push went well.
pub open spec fn queue_outcome(
    pushed: Result<(), Seq<char>>,
    reply: Result<Option<Seq<char>>, Seq<char>>,
) -> Result<Seq<char>, Seq<char>> {
    match pushed {
        Err(e) => Err(queue_error_text(QueueErrorView::PushFailed(e))),
        Ok(_) => match poll_outcome(reply) {
            Ok(text) => Ok(text),
            Err(e) => Err(queue_error_text(e)),
        },
    }
}

/// Turns the outcome of the push and of the wait into the tool's result.
pub fn queue_result(pushed: Result<(), String>, reply: Result<Option<String>, String>) -> (r: Result<
    String,
    String,
>)
    ensures
        match r {
            Ok(text) => queue_outcome(
                match pushed {
                    Ok(_) => Ok(()),
                    Err(e) => Err(e@),
                },
                reply_view(reply),
            ) == Ok::<Seq<char>, Seq<char>>(text@),
            Err(words) => queue_outcome(
                match pushed {
                    Ok(_) => Ok(()),
                    Err(e) => Err(e@),
                },
                reply_view(reply),
            ) == Err::<Seq<char>, Seq<char>>(words@),
        },
{
    match pushed {
        Err(e) => Err(QueueError::PushFailed(e).message()),
        Ok(_) => match poll_result(reply) {
            Ok(text) => Ok(text),
            Err(e) => Err(e.message()),
        },
    }
}

/// Exactly one way is settled: none where nothing could be reached, the
/// queue where the broker could, and the RPC where only the tool server
/// could.
pub proof fn lemma_exactly_one_way(rpc_started: bool, broker_connected: bool)
    ensures
        transport_for(rpc_started, broker_connected) == Transport::Unavailable <==> (!rpc_started
            && !broker_connected),
        transport_for(rpc_started, broker_connected) == Transport::Queue <==> broker_connected,
        transport_for(rpc_started, broker_connected) == Transport::LocalRpc <==> (rpc_started
            && !broker_connected),
{
}

} // verus!
