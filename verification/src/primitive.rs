//! The backend-independent vocabulary of drawable units.
use vstd::prelude::*;
use crate::appearance::{Background, Color, Font, Horizontal, Vertical};
use crate::geometry::{Rectangle, Scalar, Vector};

verus! {

/// A drawable unit, or a node that groups or clips other primitives.
///
/// A primitive is a value: it is built once while a frame is recorded and
/// holds no resource of a backend.
#[allow(inconsistent_fields)]
#[derive(Debug, PartialEq, Eq)]
pub enum Primitive {
    /// An axis-aligned rectangle, filled and bordered.
    Quad {
        /// The bounds of the quad.
        bounds: Rectangle,
        /// The background of the quad.
        background: Background,
        /// The border radius of the quad.
        border_radius: Scalar,
        /// The border width of the quad.
        border_width: Scalar,
        /// The border colour of the quad.
        border_color: Color,
    },
    /// A positioned run of text.
    Text {
        /// The characters of the text, owned by the primitive.
        content: String,
        /// The bounds of the text.
        bounds: Rectangle,
        /// The size of the text.
        size: Scalar,
        /// The colour of the text.
        color: Color,
        /// The font of the text.
        font: Font,
        /// The horizontal alignment of the text.
        horizontal_alignment: Horizontal,
        /// The vertical alignment of the text.
        vertical_alignment: Vertical,
    },
    /// A single primitive, restricted to a region and moved within it.
    Clip {
        /// The region that the content is restricted to.
        bounds: Rectangle,
        /// How far the content is moved.
        offset: Vector<u32>,
        /// The one primitive that is clipped.
        content: Box<Primitive>,
    },
    /// Several primitives, drawn in order.
    Group {
        /// The primitives of the group, the first drawn first.
        primitives: Vec<Primitive>,
    },
}

/// What a [`Primitive`] denotes: the same tree, with the text as a sequence
/// of characters and each group as a sequence of drawings.
#[allow(inconsistent_fields)]
pub enum Drawing {
    /// What a [`Primitive::Quad`] denotes.
    Quad {
        bounds: Rectangle,
        background: Background,
        border_radius: Scalar,
        border_width: Scalar,
        border_color: Color,
    },
    /// What a [`Primitive::Text`] denotes.
    Text {
        content: Seq<char>,
        bounds: Rectangle,
        size: Scalar,
        color: Color,
        font: Font,
        horizontal_alignment: Horizontal,
        vertical_alignment: Vertical,
    },
    /// What a [`Primitive::Clip`] denotes.
    Clip { bounds: Rectangle, offset: Vector<u32>, content: Box<Drawing> },
    /// What a [`Primitive::Group`] denotes.
    Group { primitives: Seq<Drawing> },
}

impl Drawing {
    /// The group of no primitives.
    pub open spec fn empty_group() -> Drawing {
        Drawing::Group { primitives: Seq::empty() }
    }

    /// The node that a layer contributes to its parent: the layer's
    /// drawings as one group, clipped to `bounds` and moved by `offset`.
    pub open spec fn layer(bounds: Rectangle, offset: Vector<u32>, recorded: Seq<Drawing>) -> Drawing {
        Drawing::Clip { bounds, offset, content: Box::new(Drawing::Group { primitives: recorded }) }
    }
}

impl Primitive {
    /// The drawing that this primitive denotes.
    pub open spec fn drawing(self) -> Drawing
        decreases self,
    {
        match self {
            Primitive::Quad { bounds, background, border_radius, border_width, border_color } => {
                Drawing::Quad { bounds, background, border_radius, border_width, border_color }
            },
            Primitive::Text {
                content,
                bounds,
                size,
                color,
                font,
                horizontal_alignment,
                vertical_alignment,
            } => Drawing::Text {
                content: content@,
                bounds,
                size,
                color,
                font,
                horizontal_alignment,
                vertical_alignment,
            },
            Primitive::Clip { bounds, offset, content } => Drawing::Clip {
                bounds,
                offset,
                content: Box::new((*content).drawing()),
            },
            Primitive::Group { primitives } => Drawing::Group {
                primitives: Seq::new(
                    primitives@.len(),
                    |i: int|
                        if 0 <= i < primitives@.len() {
                            primitives@[i].drawing()
                        } else {
                            Drawing::empty_group()
                        },
                ),
            },
        }
    }
}

impl View for Primitive {
    type V = Drawing;

    open spec fn view(&self) -> Drawing {
        self.drawing()
    }
}

/// The drawings that a sequence of primitives denotes, in the same order.
pub open spec fn drawings(primitives: Seq<Primitive>) -> Seq<Drawing> {
    Seq::new(primitives.len(), |i: int| primitives[i]@)
}

/// A group denotes the drawings of its primitives.
pub proof fn lemma_group_drawing(primitives: Vec<Primitive>)
    ensures
        (Primitive::Group { primitives })@ == (Drawing::Group { primitives: drawings(primitives@) }),
{
    let group = Primitive::Group { primitives };
    assert(group@->Group_primitives =~= drawings(primitives@));
}

/// Appending a primitive appends its drawing.
pub proof fn lemma_drawings_push(primitives: Seq<Primitive>, last: Primitive)
    ensures
        drawings(primitives.push(last)) == drawings(primitives).push(last@),
{
    assert(drawings(primitives.push(last)) =~= drawings(primitives).push(last@));
}

impl Primitive {
    /// A deep copy of this primitive.
    fn duplicate(&self) -> (copy: Primitive)
        ensures
            copy@ == self@,
        decreases self,
    {
        match self {
            Primitive::Quad { bounds, background, border_radius, border_width, border_color } => {
                Primitive::Quad {
                    bounds: *bounds,
                    background: *background,
                    border_radius: *border_radius,
                    border_width: *border_width,
                    border_color: *border_color,
                }
            },
            Primitive::Text {
                content,
                bounds,
                size,
                color,
                font,
                horizontal_alignment,
                vertical_alignment,
            } => Primitive::Text {
                content: content.clone(),
                bounds: *bounds,
                size: *size,
                color: *color,
                font: *font,
                horizontal_alignment: *horizontal_alignment,
                vertical_alignment: *vertical_alignment,
            },
            Primitive::Clip { bounds, offset, content } => {
                let inner = content.duplicate();
                Primitive::Clip { bounds: *bounds, offset: *offset, content: Box::new(inner) }
            },
            Primitive::Group { primitives } => {
                let mut copies: Vec<Primitive> = Vec::new();
                let mut i: usize = 0;
                while i < primitives.len()
                    invariant
                        i <= primitives.len(),
                        copies@.len() == i,
                        forall|j: int| 0 <= j < i ==> copies@[j]@ == primitives@[j]@,
                        *self == (Primitive::Group { primitives: *primitives }),
                    decreases primitives.len() - i,
                {
                    proof {
                        assert(decreases_to!(*self => self->Group_primitives));
                        vstd::std_specs::vec::axiom_vec_index_decreases(*primitives, i as int);
                    }
                    let copy = primitives[i].duplicate();
                    copies.push(copy);
                    i += 1;
                }
                proof {
                    lemma_group_drawing(copies);
                    lemma_group_drawing(*primitives);
                    assert(drawings(copies@) =~= drawings(primitives@));
                }
                Primitive::Group { primitives: copies }
            },
        }
    }
}

impl Clone for Primitive {
    /// A deep copy: it denotes the same drawing.
    fn clone(&self) -> (copy: Self)
        ensures
            copy@ == self@,
    {
        self.duplicate()
    }
}

} // verus!
