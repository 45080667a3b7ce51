//! The errors of the binding and the failures the engine reports.

use vstd::prelude::*;

verus! {

/// A failure raised by the engine: its numeric class and its diagnostic text.
#[derive(Debug, PartialEq, Eq)]
pub struct Fault {
    pub code: i32,
    pub message: String,
}

/// Why a value was refused without the engine having a say in it.
#[derive(Clone, Copy, Debug, PartialEq, Eq)]
pub enum Rejection {
    /// The text holds a zero byte, first at this byte offset, and so cannot
    /// be handed over as zero-terminated text.
    InteriorNul { position: usize },
    /// The count reported for a result buffer is negative or exceeds the
    /// number of records the buffer has room for.
    RecordCount { reported: i32, capacity: usize },
}

/// What a fallible operation on a display list fails with.
///
/// `Allocation` and `Render` carry the engine's diagnostic where the engine
/// raised one, and `None` where it handed back nothing without saying why.
#[derive(Debug, PartialEq, Eq)]
pub enum Error {
    /// The engine could not allocate a recording or a result buffer.
    Allocation(Option<Fault>),
    /// The engine failed while rasterizing, extracting text or replaying.
    Render(Option<Fault>),
    /// An argument cannot be represented for the engine or is malformed.
    InvalidArgument(Rejection),
}

} // verus!
