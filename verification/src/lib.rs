//! Client-side engine of a federated chat client: session state, request
//! building, command dispatch and the decoding of what the home server
//! answers. The engine does no I/O itself: every operation queues the outside
//! work it needs and is told the outcome later.
//!
//! - [`backend`] is the engine: [`backend::Backend`] takes commands, asks
//!   for outside work and takes its outcomes.
//! - [`model`] says in mathematics what the engine does, and [`laws`] what
//!   follows from that for every run of it.
//! - [`protocol`] and [`types`] hold what goes in and out, [`session`] what
//!   is remembered in between.
//! - [`transport`] and [`media`] build the addresses of requests, [`json`]
//!   and [`decode`] read the answers.
//! - [`client`] holds what the caller of the engine decides on its own.

pub mod backend;
pub mod client;
pub mod decode;
pub mod error;
pub mod json;
pub mod laws;
pub mod media;
pub mod model;
pub mod protocol;
pub mod session;
pub mod text;
pub mod transport;
pub mod types;
