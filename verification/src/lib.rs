//! A session controller that exposes long-lived interactive command-line
//! programs as a request/response resource.
//!
//! Each named program is an external executable that accepts newline
//! terminated commands on its standard input and answers with output ending
//! in a known prompt. The crate owns the lifecycle of at most one live child
//! process per program name, frames each reply by stripping the trailing
//! prompt region, and classifies every request against the session state.

pub mod framing;
pub mod models;
pub mod proc_io;
pub mod routes;
pub mod session;
pub mod subprocess_control;
pub mod types;
