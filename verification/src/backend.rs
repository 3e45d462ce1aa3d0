//! What a rendering backend must offer to be paired with a renderer.
use vstd::prelude::*;
use crate::appearance::Font;
use crate::geometry::{Point, Scalar, Size, Vector};

verus! {

/// The graphics backend of a renderer.
///
/// The renderer owns its backend and reaches into it only through this
/// trait and through [`Text`].
pub trait Backend {
    /// Trims the measurements cache.
    ///
    /// The renderer calls this once after every layout pass, so that the
    /// cache does not grow without bound.
    fn trim_measurements(&mut self) {
    }
}

/// The result of hit testing on text.
#[derive(Debug, Clone, Copy, PartialEq, Eq)]
pub enum Hit {
    /// The point was within the bounds of the character with this index.
    CharOffset(usize),
    /// The point was within no glyph: the index of the character with the
    /// closest centre, and the distance to it.
    NearestCharOffset(usize, Vector<Scalar>),
}

/// A backend that can measure text.
pub trait Text {
    /// The default size of text.
    fn default_size(&self) -> u16;

    /// Measures the text within the given bounds: the width and the height
    /// of the smallest box that fits the contents.
    fn measure(&self, contents: &str, size: Scalar, font: Font, bounds: Size) -> (Scalar, Scalar);

    /// Tests whether the given point is within the text laid out with the
    /// given parameters, and says which character is the nearest.
    ///
    /// If `nearest_only` is true, the test does not consider whether the point
    /// is inside a glyph, and returns only the character with the nearest
    /// centre.
    fn hit_test(
        &self,
        contents: &str,
        size: Scalar,
        font: Font,
        bounds: Size,
        point: Point,
        nearest_only: bool,
    ) -> Option<Hit>;
}

} // verus!
