//! Structural tags for chat tool calls.
//!
//! A structural tag tells guided decoding what a model may write. For a chat request with tools
//! this library decides whether the request gets one, and builds it: a tag that lets the tools
//! of the request be called with arguments that meet their schemas, or, where tool calls are
//! forbidden, one that keeps out the tokens that begin a call.
//!
//! [`builder`] builds tags from a request. [`preprocessor`] holds the policy. [`behaviour`] says
//! what each operation does in terms of its arguments and results alone, and [`laws`] what holds
//! of them together. [`chat`], [`request`] and [`config`] are what the policy looks at,
//! [`format`] is what it hands on, [`error`] is how it refuses. [`json`] is all that is taken on
//! trust.

pub mod behaviour;
pub mod builder;
pub mod chat;
pub mod config;
pub mod error;
pub mod format;
pub mod json;
pub mod laws;
pub mod preprocessor;
pub mod request;
