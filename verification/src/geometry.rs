//! Geometry values that pass between caller and engine.
//!
//! The binding never computes on a coordinate: it carries each one across
//! unchanged. A coordinate is therefore held as the bit pattern of its
//! single-precision value, which is what "unchanged" means exactly.

use vstd::prelude::*;

verus! {

/// A single-precision number, held as its IEEE-754 bit pattern.
#[derive(Clone, Copy, Debug, PartialEq, Eq, Structural)]
pub struct Scalar {
    pub bits: u32,
}

impl Scalar {
    /// The number whose bit pattern is `bits`.
    pub fn from_bits(bits: u32) -> (s: Scalar)
        ensures
            s.bits == bits,
    {
        Scalar { bits }
    }

    /// The bit pattern of the number.
    pub fn to_bits(&self) -> (bits: u32)
        ensures
            bits == self.bits,
    {
        self.bits
    }
}

/// A point in page space.
#[derive(Clone, Copy, Debug, PartialEq, Eq, Structural)]
pub struct Point {
    pub x: Scalar,
    pub y: Scalar,
}

/// An axis-aligned rectangle given by two opposite corners.
#[derive(Clone, Copy, Debug, PartialEq, Eq, Structural)]
pub struct Rect {
    pub x0: Scalar,
    pub y0: Scalar,
    pub x1: Scalar,
    pub y1: Scalar,
}

/// A quadrilateral given by its four corners.
#[derive(Clone, Copy, Debug, PartialEq, Eq, Structural)]
pub struct Quad {
    pub ul: Point,
    pub ur: Point,
    pub ll: Point,
    pub lr: Point,
}

/// An affine transform `[a b c d e f]`.
#[derive(Clone, Copy, Debug, PartialEq, Eq, Structural)]
pub struct Matrix {
    pub a: Scalar,
    pub b: Scalar,
    pub c: Scalar,
    pub d: Scalar,
    pub e: Scalar,
    pub f: Scalar,
}

} // verus!
