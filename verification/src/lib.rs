//! Core of a function-packaging and sandboxed-invocation system.
//!
//! Given a configuration and a compressed bundle, the system unpacks the
//! bundle into an isolated working directory, applies resource limits,
//! invokes the packaged artifact (native, WebAssembly, or Lua), and tears
//! the sandbox down on completion or cancellation.  This crate holds the
//! decision logic of that pipeline — path sanitisation, unpack planning,
//! resource-limit application, and the orchestrating state machine — with
//! machine-checked contracts.

pub mod archive;
pub mod config;
pub mod enforce;
pub mod engine;
pub mod pack;
pub mod paths;
pub mod pipeline;
