//! Verified core of a small agent that sends instruction prompts to a
//! chat-completion endpoint and relays the answer to a terminal user.
//!
//! Everything here works on plain values. Network, terminal and environment
//! access are left to the program that links this library.

pub mod call_request;
pub mod cli;
pub mod general;
pub mod llm;
