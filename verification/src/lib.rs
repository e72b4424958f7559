//! Core logic of a command-line client that toggles lights on a
//! home-automation hub: area discovery over the hub's template API,
//! interactive area selection, and light-toggle dispatch.
//!
//! Network, terminal and configuration-file I/O live outside this crate;
//! this library holds the data model, the response decoding, the
//! discovery and dispatch state machines, and their contracts.

pub mod config;
pub mod decoder;
pub mod discovery;
pub mod dispatch;
pub mod errors;
pub mod selection;
