//! Core of a chat-completion gateway: the positional wire codec for message
//! content, the normalisation of messages, the usage summary, and the
//! decisions of the execution pipeline that turns one model invocation into a
//! finished response.

pub mod codec;
pub mod error;
pub mod executor;
pub mod gateway;
pub mod json;
pub mod message;
pub mod relay;
pub mod tags;
pub mod threads;
pub mod tool_calls;
pub mod usage;
