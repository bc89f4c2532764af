//! Invocation gateway library: a registry of named programs, the decoding of
//! invocation requests, and the uniform response envelope that reports a
//! program's exit code, captured output and wall-clock duration.

pub mod codec;
pub mod config;
pub mod digits;
pub mod invoke;
pub mod server;

pub use crate::invoke::{InvokeRequestBody, InvokeResponseBody};
