//! The crate's error type.
use vstd::prelude::*;

use crate::async_dispatch;
use crate::buffer::BufferError;

verus! {

/// Every failure the helpers report. Failures of the editor, of its scripting
/// layer and of the system carry the message they came with.
#[derive(Debug)]
pub enum Error {
    /// A value was not of the type the operation needs.
    InvalidType,
    Nvim(String),
    NvimApi(String),
    Lua(String),
    IO(String),
    LibUV(String),
    AsyncDispatch(async_dispatch::Error),
    AsyncRuntime(String),
    Buffer(BufferError),
    Custom(String),
}

} // verus!
