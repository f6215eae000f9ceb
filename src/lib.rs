//! The host side of a sandboxed WASI runtime hosted in a browser worker
//! pool: timer and parallelism rules, the terminal and log pseudo-files,
//! the terminal configuration, and the decoding of outbound HTTP replies.
use vstd::prelude::*;

pub mod fetch;
pub mod tasks;
pub mod terminal;
pub mod tty;
pub mod utf8;

verus! {

} // verus!
