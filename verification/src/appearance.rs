//! Colours, fonts and alignments: the styling values that primitives carry.
use vstd::prelude::*;
use crate::geometry::Scalar;

verus! {

/// A colour in the sRGB colour space.
#[derive(Debug, Clone, Copy, PartialEq, Eq, Hash, Structural)]
pub struct Color {
    /// Red component.
    pub r: Scalar,
    /// Green component.
    pub g: Scalar,
    /// Blue component.
    pub b: Scalar,
    /// Transparency.
    pub a: Scalar,
}

/// The background of a quad.
#[derive(Debug, Clone, Copy, PartialEq, Eq, Hash, Structural)]
pub enum Background {
    /// A solid colour.
    Color(Color),
}

/// A font.
#[derive(Debug, Clone, Copy, PartialEq, Eq, Hash)]
pub enum Font {
    /// The default font of the backend.
    Default,
    /// An external font.
    External {
        /// The name of the external font.
        name: &'static str,
        /// The bytes of the external font.
        bytes: &'static [u8],
    },
}

/// The horizontal alignment of a text run within its bounds.
#[derive(Debug, Clone, Copy, PartialEq, Eq, Hash, Structural)]
pub enum Horizontal {
    /// Align left.
    Left,
    /// Horizontally centered.
    Center,
    /// Align right.
    Right,
}

/// The vertical alignment of a text run within its bounds.
#[derive(Debug, Clone, Copy, PartialEq, Eq, Hash, Structural)]
pub enum Vertical {
    /// Align top.
    Top,
    /// Vertically centered.
    Center,
    /// Align bottom.
    Bottom,
}

} // verus!
