//! The logic of a bridge between a host editor and a coding agent.
//!
//! The host speaks MessagePack-RPC with the bridge; the bridge speaks
//! JSON-RPC, one document per line, with the agent, which it runs as a child
//! process. This library holds what the bridge decides: how the messages of
//! both channels are read and framed, which calls wait for which replies, and
//! what a message of one side means for the other. Processes, pipes, clocks
//! and tasks are the business of the program around it.
//!
//! - [`json`], [`json_text`], [`msgpack`], [`convert`]: the values of the two
//!   channels.
//! - [`pending`]: the replies that are awaited, and the counters that number
//!   the calls.
//! - [`acp`]: the agent channel.
//! - [`rpc`]: the host channel.
//! - [`commands`], [`router`], [`answers`]: what the host's commands and the
//!   agent's messages lead to.
//! - [`stub`]: the script of a stand-in agent.
//! - [`text`]: comparisons of strings.

pub mod acp;
pub mod answers;
pub mod commands;
pub mod convert;
pub mod json;
pub mod json_text;
pub mod msgpack;
pub mod pending;
pub mod router;
pub mod rpc;
pub mod stub;
pub mod text;
