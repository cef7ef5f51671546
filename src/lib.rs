//! Decision logic of the `compile` and `wast` commands of a WebAssembly
//! command-line tool.
//!
//! The engine, the file system and the script interpreter are driven by the
//! caller: each command is a session that hands out the next action to
//! perform and takes back what came of it.
pub mod compile;
pub mod error;
pub mod path;
pub mod wasm;
pub mod wast;
