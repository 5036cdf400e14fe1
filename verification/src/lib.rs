//! The core of a terminal chat client for a local language-model server
//! that can ask for tools to be run while it answers.
//!
//! The library finds a tool call in the model's streamed answer
//! ([`mcp`], [`llm`]), hands it to a tool server over a line-delimited RPC or
//! to a worker through a broker's queue ([`rpc`], [`queue`], [`dispatch`]),
//! feeds the outcome back into the conversation until the model gives its
//! final answer ([`events`]), and keeps the state that the worker and the
//! display layer share ([`app`], [`handlers`], [`renderer`]). It does no
//! input or output of its own: the caller reads and writes, and the library
//! says what.

pub mod app;
pub mod config;
pub mod context;
pub mod dispatch;
pub mod events;
pub mod handlers;
pub mod json;
pub mod llm;
pub mod mcp;
pub mod mouse;
pub mod queue;
pub mod renderer;
pub mod rpc;
pub mod shell_mcp;
pub mod text;
pub mod ui;
