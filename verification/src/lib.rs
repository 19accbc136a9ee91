//! Session-scoped sandboxed code execution: the decision logic of a remote
//! code-execution service.
//!
//! A client opens a session, uploads files, runs shell commands inside an
//! isolated sandbox, and reads produced files back. This crate holds the
//! verified core of that service: the data model of a run and its limits,
//! the sandbox profile, workspace path construction and path safety, the
//! classification of a finished child process, and the session state machine
//! that ties one command stream to one workspace with deterministic cleanup.
//! The host-facing edges (the RPC transport, filesystem access, and the
//! container runtime) live outside, driven by the directives this library
//! produces.

pub mod paths;
pub mod profile;
pub mod sandbox;
pub mod session;
pub mod session_id;
pub mod types;
