//! A verified binding layer for a native media-playback engine.
//!
//! The native engine is reachable only through a C-style interface: opaque
//! handles, tagged-union values, integer status codes and an asynchronous
//! event queue.  This crate owns the logic of that binding: the session
//! registry, the conversion between the native tagged-union value model and
//! the typed `MpvNode` value model, the translation of native event records
//! into structured events, and the outcome handling of the synchronous call
//! protocol.  The unsafe foreign calls themselves live outside this crate;
//! every native record is handed in as plain data and every decision this
//! crate makes about it is verified.

pub mod desktop;
pub mod error;
pub mod libmpv;
pub mod models;
pub mod utils;
