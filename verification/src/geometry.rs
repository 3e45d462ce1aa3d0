//! Plain geometric values carried by the primitives.
//!
//! The recorder never computes with a coordinate or a length: it stores the
//! value it was given and hands it on. A real quantity is therefore kept as
//! its 32-bit binary encoding, which makes equality of two recorded values
//! exact.
use vstd::prelude::*;

verus! {

/// A real quantity (a coordinate, a length, a colour channel), kept as the
/// 32 bits of its single-precision binary encoding.
#[derive(Debug, Clone, Copy, PartialEq, Eq, Hash, Structural)]
pub struct Scalar {
    /// The encoding of the quantity.
    pub bits: u32,
}

impl Scalar {
    /// The quantity with the given encoding.
    pub fn from_bits(bits: u32) -> (scalar: Scalar)
        ensures
            scalar.bits == bits,
    {
        Scalar { bits }
    }

    /// The encoding of the quantity.
    pub fn to_bits(self) -> (bits: u32)
        ensures
            bits == self.bits,
    {
        self.bits
    }
}

/// A 2D point.
#[derive(Debug, Clone, Copy, PartialEq, Eq, Hash, Structural)]
pub struct Point {
    /// The X coordinate.
    pub x: Scalar,
    /// The Y coordinate.
    pub y: Scalar,
}

/// An amount of space in two dimensions.
#[derive(Debug, Clone, Copy, PartialEq, Eq, Hash, Structural)]
pub struct Size {
    /// The width.
    pub width: Scalar,
    /// The height.
    pub height: Scalar,
}

/// A 2D vector with components of type `T`.
#[derive(Debug, Clone, Copy, PartialEq, Eq, Hash)]
pub struct Vector<T> {
    /// The X component.
    pub x: T,
    /// The Y component.
    pub y: T,
}

/// An axis-aligned rectangle.
#[derive(Debug, Clone, Copy, PartialEq, Eq, Hash, Structural)]
pub struct Rectangle {
    /// X coordinate of the top-left corner.
    pub x: Scalar,
    /// Y coordinate of the top-left corner.
    pub y: Scalar,
    /// Width of the rectangle.
    pub width: Scalar,
    /// Height of the rectangle.
    pub height: Scalar,
}

} // verus!
