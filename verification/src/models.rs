//! The session-level data model: configuration, live-instance records and
//! the wrapper-protocol response shape.

use vstd::prelude::*;

use crate::libmpv::property::MpvNode;

verus! {

/// One configuration option value as the caller supplied it.  A number
/// carries its decimal text, fixed at the boundary where it was parsed, so
/// that the encoding layer never re-derives it; `Other` stands for any
/// JSON-like shape that an option cannot carry and is skipped, not an error.
#[derive(Debug, Clone, PartialEq)]
pub enum OptionValue {
    Flag(bool),
    Number(String),
    Text(String),
    Other,
}

/// The creation-time configuration of one instance: initial engine options
/// and the properties to observe, both in insertion order.
#[derive(Debug, Clone, PartialEq)]
pub struct MpvConfig {
    pub initial_options: Vec<(String, OptionValue)>,
    pub observed_properties: Vec<(String, String)>,
}

/// One live instance as the registry holds it: the primary native handle and
/// the opaque callback-context block, each modeled as the integer value of
/// the pointer the native side issued.  Both are owned exactly here and
/// reclaimed exactly once, at teardown.
#[derive(Debug, Clone, Copy, PartialEq, Eq, Structural)]
pub struct MpvInstance {
    pub handle: u64,
    pub event_userdata: u64,
}

/// Video margin ratios, one per edge, each a double carried as its raw bit
/// pattern; an unspecified edge is skipped by the fan-out write.
#[derive(Debug, Clone, Copy, PartialEq)]
pub struct VideoMarginRatio {
    pub left: Option<u64>,
    pub right: Option<u64>,
    pub top: Option<u64>,
    pub bottom: Option<u64>,
}

/// The response record of one wrapper-protocol call: an optional result
/// value and an optional error message, as parsed at the boundary.
#[derive(Debug, PartialEq)]
pub struct FfiResponse {
    pub data: Option<MpvNode>,
    pub error: Option<String>,
}

} // verus!
