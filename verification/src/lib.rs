//! Core of a headless screencast "picker" service.
//!
//! The service answers the desktop portal broker's screencast requests
//! without showing a picker UI: it tracks per-session capture preferences,
//! asks the already-running companion application over a local IPC channel
//! which source the user has pre-selected, and translates that answer into
//! the broker's reply shape.
//!
//! This crate holds the verified logic: the session registry, the parsing
//! of the broker's loosely-typed option bags, the translation of a
//! selection into a stream descriptor, and the wire codec of the IPC
//! protocol.  The bus transport, the socket I/O and the logging live in
//! the surrounding binary, which hands this crate plain values.

pub mod capture;
pub mod codec;
pub mod options;
pub mod portal;
pub mod selection;
pub mod session;
pub mod text;
