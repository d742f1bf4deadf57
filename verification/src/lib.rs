//! A telnet protocol toolkit: a byte-stream tokenizer, a token dispatcher,
//! a channel demultiplexer with Q-method option state, and an endpoint
//! registry that routes channel events to registered handlers.

pub mod iac;
pub mod qstate;
pub mod parser;
pub mod tokens;
pub mod dispatch;
pub mod analyzer;
pub mod carrier;
pub mod demux;
pub mod registry;
