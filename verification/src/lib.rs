//! Orchestration core of a wallet bridge.
//!
//! A caller names a wallet operation and supplies its arguments; the bridge
//! shapes them into an [`request::OperationRequest`], hands that request to a
//! backend (an embedded interpreter or a local HTTP service) and returns the
//! backend's JSON answer. On top of the plain commands sits the gated signing
//! workflow, which signs only after a decision subsystem has said yes.
//!
//! - [`handlers`]: one function per command, from what the caller supplied to
//!   the request for the backend.
//! - [`gate`]: the gated signing workflow as a state machine.
//! - [`session`]: the single-slot store of the session context.
//! - [`request`]: operations and their named arguments.
//! - [`embedded`], [`remote`], [`backend`]: how a request reaches either
//!   backend, and how its answer is read.
//! - [`error`]: the ways a command can fail.
//! - [`json`]: the model of JSON values, and what is taken on trust of
//!   `serde_json`.
//!
//! Nothing here reads the disk, the interpreter or the network. That is left
//! to the program around this library, which feeds its observations in and
//! carries the requests out.

pub mod backend;
pub mod embedded;
pub mod error;
pub mod gate;
pub mod handlers;
pub mod json;
pub mod remote;
pub mod request;
pub mod session;
