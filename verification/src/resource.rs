//! Engine objects that a display list is replayed into or rendered to.
//!
//! Each is known to the binding by the address of the engine's object and
//! by nothing else.

use vstd::prelude::*;

verus! {

/// A drawing device: a sink for the operations of a replay.
#[derive(Debug, PartialEq, Eq)]
pub struct Device {
    pub dev: usize,
}

/// A cancellation token that the engine polls during a replay. The caller
/// owns it; the binding only passes it on.
#[derive(Debug, PartialEq, Eq)]
pub struct Cookie {
    pub inner: usize,
}

/// A color space known to the engine.
#[derive(Debug, PartialEq, Eq)]
pub struct Colorspace {
    pub inner: usize,
}

/// A raster image buffer produced by a replay.
#[derive(Debug, PartialEq, Eq)]
pub struct Pixmap {
    pub inner: usize,
}

/// The text runs of a replay and their positions.
#[derive(Debug, PartialEq, Eq)]
pub struct TextPage {
    pub inner: usize,
}

/// A reusable image made from a recording.
#[derive(Debug, PartialEq, Eq)]
pub struct Image {
    pub inner: usize,
}

/// Options of text extraction, one bit each. The engine defines the bits;
/// every combination is legal.
#[derive(Clone, Copy, Debug, PartialEq, Eq, Structural)]
pub struct TextPageFlags {
    pub bits: u32,
}

} // verus!
