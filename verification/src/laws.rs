//! What holds of the recorder, whatever is drawn.
//!
//! Each law is stated over the recordings that the renderer's operations
//! relate, and over what a recording function may do
//! (`call_ensures`), in the words of the operations' own postconditions.
use vstd::prelude::*;
use crate::backend::Backend;
use crate::geometry::{Rectangle, Vector};
use crate::primitive::{drawings, Drawing, Primitive};
use crate::renderer::{Quad, Recording, Renderer, Section};

verus! {

/// One drawing command that records a single leaf.
pub enum Fill<'a> {
    /// A call of `fill_rectangle`.
    Rectangle(Quad),
    /// A call of `fill_text`.
    Text(Section<'a>),
}

impl<'a> Fill<'a> {
    /// The drawing that the command records.
    pub open spec fn drawing(self) -> Drawing {
        match self {
            Fill::Rectangle(quad) => quad.drawing(),
            Fill::Text(text) => text.drawing(),
        }
    }
}

/// The recording that is reached from `start` by the given commands, the
/// first issued first.
pub open spec fn filled<B>(start: Recording<B>, fills: Seq<Fill>) -> Recording<B>
    decreases fills.len(),
{
    if fills.len() == 0 {
        start
    } else {
        filled(start, fills.drop_last()).recorded(fills.last().drawing())
    }
}

/// Without layers, the sequence is flat and in call order: after any
/// commands that fill rectangles and text, the sequence holds what was there
/// before, followed by one leaf for each command, in the order of the calls.
pub proof fn law_fills_in_call_order<B>(start: Recording<B>, fills: Seq<Fill>)
    ensures
        filled(start, fills).backend == start.backend,
        filled(start, fills).primitives.len() == start.primitives.len() + fills.len(),
        filled(start, fills).primitives.subrange(0, start.primitives.len() as int)
            == start.primitives,
        forall|i: int|
            0 <= i < fills.len()
                ==> #[trigger] filled(start, fills).primitives[start.primitives.len() + i]
                == fills[i].drawing(),
        forall|i: int|
            0 <= i < fills.len()
                ==> (#[trigger] fills[i].drawing()) is Quad || fills[i].drawing() is Text,
    decreases fills.len(),
{
    if fills.len() > 0 {
        law_fills_in_call_order(start, fills.drop_last());
        let before = filled(start, fills.drop_last());
        let after = filled(start, fills);
        assert(after.primitives == before.primitives.push(fills.last().drawing()));
        assert(after.primitives.subrange(0, start.primitives.len() as int)
            =~= before.primitives.subrange(0, start.primitives.len() as int));
        assert forall|i: int| 0 <= i < fills.len() implies
            #[trigger] after.primitives[start.primitives.len() + i] == fills[i].drawing() by {
            if i < fills.len() - 1 {
                assert(after.primitives[start.primitives.len() + i]
                    == before.primitives[start.primitives.len() + i]);
                assert(fills.drop_last()[i] == fills[i]);
            }
        }
    } else {
        assert(start.primitives.subrange(0, start.primitives.len() as int) =~= start.primitives);
    }
}

/// A layer is one node of its parent: when the recording function of
/// `with_layer` records the drawings `recorded`, the call appends exactly one
/// node, the clipped group of `recorded`, and what the parent held before
/// is unchanged and precedes it.
pub proof fn law_layer_is_one_node<B: Backend, F: FnOnce(&mut Renderer<B>)>(
    before: Recording<B>,
    after: Recording<B>,
    bounds: Rectangle,
    offset: Vector<u32>,
    f: F,
    recorded: Seq<Drawing>,
)
    requires
        exists|layer: &mut Renderer<B>|
            layer@ == before.cleared()
                && #[trigger] call_ensures(f, (layer,), ())
                && after == before.layered(bounds, offset, final(layer)@),
        forall|layer: &mut Renderer<B>| #[trigger]
            call_ensures(f, (layer,), ())
                ==> final(layer)@.primitives == layer@.primitives + recorded,
    ensures
        after.primitives.len() == before.primitives.len() + 1,
        after.primitives.subrange(0, before.primitives.len() as int) == before.primitives,
        after.primitives.last() == (Drawing::Clip {
            bounds,
            offset,
            content: Box::new(Drawing::Group { primitives: recorded }),
        }),
{
    let layer = choose|layer: &mut Renderer<B>|
        {
            &&& layer@ == before.cleared()
            &&& #[trigger] call_ensures(f, (layer,), ())
            &&& after == before.layered(bounds, offset, final(layer)@)
        };
    assert(final(layer)@.primitives =~= recorded);
    assert(after.primitives.subrange(0, before.primitives.len() as int) =~= before.primitives);
}

/// Layers nest: when the recording function of a layer fills the quad
/// `first` and then records a layer of its own, whose recording function
/// fills the quad `second`, the parent gains one node: the clipped group of
/// the first quad followed by the clipped group of the second.
pub proof fn law_layers_nest<
    B: Backend,
    Outer: FnOnce(&mut Renderer<B>),
    Inner: FnOnce(&mut Renderer<B>),
>(
    before: Recording<B>,
    after: Recording<B>,
    outer_bounds: Rectangle,
    outer_offset: Vector<u32>,
    outer: Outer,
    first: Quad,
    inner_bounds: Rectangle,
    inner_offset: Vector<u32>,
    inner: Inner,
    second: Quad,
)
    requires
        exists|layer: &mut Renderer<B>|
            layer@ == before.cleared()
                && #[trigger] call_ensures(outer, (layer,), ())
                && after == before.layered(outer_bounds, outer_offset, final(layer)@),
        forall|layer: &mut Renderer<B>| #[trigger]
            call_ensures(outer, (layer,), ()) ==> exists|nested: &mut Renderer<B>|
                nested@ == layer@.recorded(first.drawing()).cleared()
                    && #[trigger] call_ensures(inner, (nested,), ())
                    && final(layer)@ == layer@.recorded(first.drawing()).layered(
                        inner_bounds,
                        inner_offset,
                        final(nested)@,
                    ),
        forall|nested: &mut Renderer<B>| #[trigger]
            call_ensures(inner, (nested,), ()) ==> final(nested)@ == nested@.recorded(
                second.drawing(),
            ),
    ensures
        after.primitives == before.primitives.push(
            Drawing::Clip {
                bounds: outer_bounds,
                offset: outer_offset,
                content: Box::new(
                    Drawing::Group {
                        primitives: seq![
                            first.drawing(),
                            Drawing::Clip {
                                bounds: inner_bounds,
                                offset: inner_offset,
                                content: Box::new(
                                    Drawing::Group { primitives: seq![second.drawing()] },
                                ),
                            },
                        ],
                    },
                ),
            },
        ),
{
    let layer = choose|layer: &mut Renderer<B>|
        {
            &&& layer@ == before.cleared()
            &&& #[trigger] call_ensures(outer, (layer,), ())
            &&& after == before.layered(outer_bounds, outer_offset, final(layer)@)
        };
    let nested = choose|nested: &mut Renderer<B>|
        {
            &&& nested@ == layer@.recorded(first.drawing()).cleared()
            &&& #[trigger] call_ensures(inner, (nested,), ())
            &&& final(layer)@ == layer@.recorded(first.drawing()).layered(
                inner_bounds,
                inner_offset,
                final(nested)@,
            )
        };
    assert(final(nested)@.primitives =~= seq![second.drawing()]);
    assert(final(layer)@.primitives =~= seq![
        first.drawing(),
        Drawing::layer(inner_bounds, inner_offset, seq![second.drawing()]),
    ]);
}

/// Clearing empties the sequence, whatever was recorded, and what is
/// presented next is an empty sequence: the function that `present` then
/// calls is handed no primitive.
pub proof fn law_present_after_clear<B: Backend, F: FnOnce(&mut B, &[Primitive])>(
    recorded: Recording<B>,
    after: Recording<B>,
    f: F,
)
    requires
        exists|backend: &mut B, primitives: &[Primitive]|
            *backend == recorded.cleared().backend
                && primitives@.len() == recorded.cleared().primitives.len()
                && drawings(primitives@) == recorded.cleared().primitives
                && #[trigger] call_ensures(f, (backend, primitives), ())
                && after == (Recording {
                    backend: *final(backend),
                    primitives: recorded.cleared().primitives,
                }),
    ensures
        recorded.cleared().primitives.len() == 0,
        after.primitives.len() == 0,
        exists|backend: &mut B, primitives: &[Primitive]|
            *backend == recorded.backend
                && primitives@.len() == 0
                && #[trigger] call_ensures(f, (backend, primitives), ())
                && *final(backend) == after.backend,
{
}

/// Clearing is idempotent: to clear twice is to clear once.
pub proof fn law_clear_is_idempotent<B>(recorded: Recording<B>)
    ensures
        recorded.cleared().cleared() == recorded.cleared(),
{
}

/// An empty layer is still a layer: when the recording function of
/// `with_layer` records nothing, the call appends the clipped group of no
/// primitives.
pub proof fn law_empty_layer<B: Backend, F: FnOnce(&mut Renderer<B>)>(
    before: Recording<B>,
    after: Recording<B>,
    bounds: Rectangle,
    offset: Vector<u32>,
    f: F,
)
    requires
        exists|layer: &mut Renderer<B>|
            layer@ == before.cleared()
                && #[trigger] call_ensures(f, (layer,), ())
                && after == before.layered(bounds, offset, final(layer)@),
        forall|layer: &mut Renderer<B>| #[trigger]
            call_ensures(f, (layer,), ()) ==> final(layer)@.primitives == layer@.primitives,
    ensures
        after.primitives == before.primitives.push(
            Drawing::Clip {
                bounds,
                offset,
                content: Box::new(Drawing::Group { primitives: Seq::empty() }),
            },
        ),
{
}

/// A failed layer leaves no trace: when the recording function of
/// `try_with_layer` fails, whatever it had recorded, the parent's sequence is
/// as it was before the call, and what is recorded next is appended to it.
pub proof fn law_failed_layer_leaves_no_trace<
    B: Backend,
    T,
    E,
    F: FnOnce(&mut Renderer<B>) -> Result<T, E>,
>(
    before: Recording<B>,
    after: Recording<B>,
    bounds: Rectangle,
    offset: Vector<u32>,
    f: F,
    outcome: Result<T, E>,
    next: Fill,
)
    requires
        outcome is Err,
        exists|layer: &mut Renderer<B>|
            layer@ == before.cleared()
                && #[trigger] call_ensures(f, (layer,), outcome)
                && (outcome is Ok ==> after == before.layered(bounds, offset, final(layer)@))
                && (outcome is Err ==> after == before.resumed(final(layer)@)),
    ensures
        after.primitives == before.primitives,
        after.recorded(next.drawing()).primitives == before.primitives.push(next.drawing()),
{
}

} // verus!
