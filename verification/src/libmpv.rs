//! The engine-level binding: native value model, node marshaling, event
//! translation and the blocking call protocol.

use vstd::prelude::*;

pub mod builder;
pub mod command;
pub mod error;
pub mod event;
pub mod native;
pub mod property;
pub mod utils;

verus! {

/// An opaque engine handle, modeled as the integer value of the pointer the
/// native library issued.  The binding never reads through it; it only tells
/// handles apart and hands them back to the native side.  A zero stands for
/// the null pointer.
#[derive(Debug, Clone, Copy, PartialEq, Eq, Structural)]
pub struct MpvHandle(pub u64);

impl MpvHandle {
    /// Returns the raw handle value.
    pub fn inner(&self) -> (r: u64)
        ensures
            r == self.0,
    {
        self.0
    }

    /// Whether this handle stands for the null pointer.
    pub fn is_null(&self) -> (r: bool)
        ensures
            r == (self.0 == 0),
    {
        self.0 == 0
    }
}

/// One live engine instance of the low-level binding: the owner of exactly
/// one primary native handle.
#[derive(Debug, Clone, Copy, PartialEq, Eq, Structural)]
pub struct Mpv {
    pub handle: MpvHandle,
}

} // verus!
