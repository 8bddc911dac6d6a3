//! A verified core for a Model Context Protocol server that drives the
//! Android Debug Bridge (`adb`).
//!
//! The server speaks JSON-RPC over lines of text.  This library decides
//! every answer: it routes requests, advertises the tools, turns a tool call
//! into a plan of `adb` commands and local file operations, carries the plan
//! out one answer at a time, and writes the reply.  The program around it
//! only reads and writes lines, runs `adb` and touches local files.

pub mod json;
pub mod text;
pub mod path;
pub mod codec;
pub mod errors;
pub mod adb;
pub mod session;
pub mod protocol;
pub mod tools;
pub mod server;
pub mod laws;
pub mod tool_laws;
