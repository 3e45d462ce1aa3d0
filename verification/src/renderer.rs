//! The scene recorder.
use vstd::prelude::*;
use crate::appearance::{Background, Color, Font, Horizontal, Vertical};
use crate::backend::{Backend, Hit, Text};
use crate::geometry::{Point, Rectangle, Scalar, Size, Vector};
use crate::primitive::{drawings, lemma_drawings_push, lemma_group_drawing, Drawing, Primitive};

verus! {

/// A rectangle to fill, with its background and its border.
#[derive(Debug, Clone, Copy, PartialEq, Eq, Structural)]
pub struct Quad {
    /// The bounds of the quad.
    pub bounds: Rectangle,
    /// The background of the quad.
    pub background: Background,
    /// The border radius of the quad.
    pub border_radius: Scalar,
    /// The border width of the quad.
    pub border_width: Scalar,
    /// The border colour of the quad.
    pub border_color: Color,
}

impl Quad {
    /// The drawing that filling this quad records.
    pub open spec fn drawing(self) -> Drawing {
        Drawing::Quad {
            bounds: self.bounds,
            background: self.background,
            border_radius: self.border_radius,
            border_width: self.border_width,
            border_color: self.border_color,
        }
    }
}

/// A run of text to draw. The characters are borrowed from the caller.
#[derive(Debug, Clone, Copy)]
pub struct Section<'a> {
    /// The characters of the text.
    pub content: &'a str,
    /// The bounds of the text.
    pub bounds: Rectangle,
    /// The size of the text.
    pub size: Scalar,
    /// The colour of the text.
    pub color: Color,
    /// The font of the text.
    pub font: Font,
    /// The horizontal alignment of the text.
    pub horizontal_alignment: Horizontal,
    /// The vertical alignment of the text.
    pub vertical_alignment: Vertical,
}

impl<'a> Section<'a> {
    /// The drawing that filling this text records.
    pub open spec fn drawing(self) -> Drawing {
        Drawing::Text {
            content: self.content@,
            bounds: self.bounds,
            size: self.size,
            color: self.color,
            font: self.font,
            horizontal_alignment: self.horizontal_alignment,
            vertical_alignment: self.vertical_alignment,
        }
    }
}

/// A backend-agnostic renderer: it records what is drawn as a sequence of
/// primitives and keeps the backend that will draw them.
#[derive(Debug)]
pub struct Renderer<B: Backend> {
    backend: B,
    primitives: Vec<Primitive>,
}

/// What a [`Renderer`] denotes: its backend, and the drawings of the sequence
/// that is current.
pub struct Recording<B> {
    /// The backend.
    pub backend: B,
    /// The drawings recorded into the current sequence, the first drawn first.
    pub primitives: Seq<Drawing>,
}

/// The sequence of a parent, set aside while one of its layers is recorded.
#[derive(Debug)]
pub struct Suspended {
    primitives: Vec<Primitive>,
}

impl View for Suspended {
    type V = Seq<Drawing>;

    closed spec fn view(&self) -> Seq<Drawing> {
        drawings(self.primitives@)
    }
}

impl<B> Recording<B> {
    /// This recording with nothing in its sequence.
    pub open spec fn cleared(self) -> Recording<B> {
        Recording { backend: self.backend, primitives: Seq::empty() }
    }

    /// This recording with one more drawing at the end of its sequence.
    pub open spec fn recorded(self, drawing: Drawing) -> Recording<B> {
        Recording { backend: self.backend, primitives: self.primitives.push(drawing) }
    }

    /// This recording after a layer has ended in the state `layer`: the
    /// backend is as the layer left it, and the layer's drawings are
    /// appended as one node, a group clipped to `bounds` and moved by
    /// `offset`.
    pub open spec fn layered(
        self,
        bounds: Rectangle,
        offset: Vector<u32>,
        layer: Recording<B>,
    ) -> Recording<B> {
        Recording {
            backend: layer.backend,
            primitives: self.primitives.push(Drawing::layer(bounds, offset, layer.primitives)),
        }
    }

    /// This recording after a layer has been given up in the state `layer`:
    /// the backend is as the layer left it, and the sequence is untouched.
    pub open spec fn resumed(self, layer: Recording<B>) -> Recording<B> {
        Recording { backend: layer.backend, primitives: self.primitives }
    }
}

impl<B: Backend> View for Renderer<B> {
    type V = Recording<B>;

    closed spec fn view(&self) -> Recording<B> {
        Recording { backend: self.backend, primitives: drawings(self.primitives@) }
    }
}

impl<B: Backend> Renderer<B> {
    /// Creates a renderer from the given backend, with nothing recorded.
    pub fn new(backend: B) -> (renderer: Self)
        ensures
            renderer@ == (Recording { backend, primitives: Seq::empty() }),
    {
        let renderer = Renderer { backend, primitives: Vec::new() };
        assert(renderer@.primitives =~= Seq::empty());
        renderer
    }

    /// The backend of the renderer.
    pub fn backend(&self) -> (backend: &B)
        ensures
            *backend == self@.backend,
    {
        &self.backend
    }

    /// Discards everything recorded into the current sequence.
    pub fn clear(&mut self)
        ensures
            final(self)@ == old(self)@.cleared(),
    {
        self.primitives.clear();
        assert(self@.primitives =~= Seq::empty());
    }

    /// Records a quad at the end of the current sequence.
    pub fn fill_rectangle(&mut self, quad: Quad)
        ensures
            final(self)@ == old(self)@.recorded(quad.drawing()),
    {
        let primitive = Primitive::Quad {
            bounds: quad.bounds,
            background: quad.background,
            border_radius: quad.border_radius,
            border_width: quad.border_width,
            border_color: quad.border_color,
        };
        proof {
            lemma_drawings_push(self.primitives@, primitive);
        }
        self.primitives.push(primitive);
    }

    /// Records a run of text at the end of the current sequence. The
    /// primitive owns a copy of the characters.
    pub fn fill_text(&mut self, text: Section<'_>)
        ensures
            final(self)@ == old(self)@.recorded(text.drawing()),
    {
        let primitive = Primitive::Text {
            content: text.content.to_string(),
            bounds: text.bounds,
            size: text.size,
            color: text.color,
            font: text.font,
            horizontal_alignment: text.horizontal_alignment,
            vertical_alignment: text.vertical_alignment,
        };
        proof {
            lemma_drawings_push(self.primitives@, primitive);
        }
        self.primitives.push(primitive);
    }

    /// Starts a layer: sets the current sequence aside and makes a fresh,
    /// empty sequence current. What is recorded from now on goes into the
    /// layer, until [`end_layer`](Self::end_layer) or
    /// [`abandon_layer`](Self::abandon_layer) takes the sequence back.
    pub fn begin_layer(&mut self) -> (parent: Suspended)
        ensures
            parent@ == old(self)@.primitives,
            final(self)@ == old(self)@.cleared(),
    {
        let mut primitives: Vec<Primitive> = Vec::new();
        std::mem::swap(&mut self.primitives, &mut primitives);
        assert(self@.primitives =~= Seq::empty());
        Suspended { primitives }
    }

    /// Ends a layer: makes the sequence that was set aside current again and
    /// appends the layer to it as one node, a group clipped to `bounds` and
    /// moved by `offset`.
    pub fn end_layer(&mut self, parent: Suspended, bounds: Rectangle, offset: Vector<u32>)
        ensures
            final(self)@ == (Recording {
                backend: old(self)@.backend,
                primitives: parent@.push(Drawing::layer(bounds, offset, old(self)@.primitives)),
            }),
    {
        let mut layer = parent.primitives;
        std::mem::swap(&mut self.primitives, &mut layer);
        let node = Primitive::Clip {
            bounds,
            offset,
            content: Box::new(Primitive::Group { primitives: layer }),
        };
        proof {
            lemma_group_drawing(layer);
            lemma_drawings_push(self.primitives@, node);
        }
        self.primitives.push(node);
    }

    /// Gives a layer up: makes the sequence that was set aside current again
    /// and drops what the layer recorded.
    pub fn abandon_layer(&mut self, parent: Suspended)
        ensures
            final(self)@ == (Recording { backend: old(self)@.backend, primitives: parent@ }),
    {
        let mut layer = parent.primitives;
        std::mem::swap(&mut self.primitives, &mut layer);
    }

    /// Records a layer: what `f` draws goes into a fresh sequence of its own,
    /// and is then appended to the current sequence as one node, a group
    /// clipped to `bounds` and moved by `offset`.
    ///
    /// `f` is called once, on this renderer with an empty sequence. A
    /// recording that may fail belongs in
    /// [`try_with_layer`](Self::try_with_layer), which puts the parent's
    /// sequence back before it hands the failure on.
    pub fn with_layer(&mut self, bounds: Rectangle, offset: Vector<u32>, f: impl FnOnce(&mut Self))
        requires
            forall|layer: &mut Self|
                layer@ == old(self)@.cleared() ==> #[trigger] call_requires(f, (layer,)),
        ensures
            exists|layer: &mut Self|
                layer@ == old(self)@.cleared()
                    && #[trigger] call_ensures(f, (layer,), ())
                    && final(self)@ == old(self)@.layered(bounds, offset, final(layer)@),
    {
        let parent = self.begin_layer();
        f(self);
        self.end_layer(parent, bounds, offset);
    }

    /// Records a layer whose recording may fail.
    ///
    /// When `f` succeeds, the layer is appended as by
    /// [`with_layer`](Self::with_layer). When `f` fails, the current sequence
    /// is first put back as it was before the call, without a trace of what
    /// the layer had recorded, and the failure is then handed on unchanged.
    pub fn try_with_layer<T, E>(
        &mut self,
        bounds: Rectangle,
        offset: Vector<u32>,
        f: impl FnOnce(&mut Self) -> Result<T, E>,
    ) -> (outcome: Result<T, E>)
        requires
            forall|layer: &mut Self|
                layer@ == old(self)@.cleared() ==> #[trigger] call_requires(f, (layer,)),
        ensures
            exists|layer: &mut Self|
                layer@ == old(self)@.cleared()
                    && #[trigger] call_ensures(f, (layer,), outcome)
                    && (outcome is Ok ==> final(self)@
                        == old(self)@.layered(bounds, offset, final(layer)@))
                    && (outcome is Err ==> final(self)@ == old(self)@.resumed(final(layer)@)),
    {
        let parent = self.begin_layer();
        let outcome = f(self);
        match outcome {
            Ok(value) => {
                self.end_layer(parent, bounds, offset);
                Ok(value)
            },
            Err(failure) => {
                self.abandon_layer(parent);
                Err(failure)
            },
        }
    }

    /// Hands the backend and the recorded primitives to `f`, which draws
    /// them. Nothing is recorded or discarded.
    ///
    /// `f` is called once, on the backend and on the whole current sequence:
    /// as many primitives as were recorded, denoting the recorded drawings.
    pub fn present(&mut self, f: impl FnOnce(&mut B, &[Primitive]))
        requires
            forall|backend: &mut B, primitives: &[Primitive]|
                (*backend == old(self)@.backend
                    && primitives@.len() == old(self)@.primitives.len()
                    && drawings(primitives@) == old(self)@.primitives)
                    ==> #[trigger] call_requires(f, (backend, primitives)),
        ensures
            exists|backend: &mut B, primitives: &[Primitive]|
                *backend == old(self)@.backend
                    && primitives@.len() == old(self)@.primitives.len()
                    && drawings(primitives@) == old(self)@.primitives
                    && #[trigger] call_ensures(f, (backend, primitives), ())
                    && final(self)@ == (Recording {
                        backend: *final(backend),
                        primitives: old(self)@.primitives,
                    }),
    {
        f(&mut self.backend, self.primitives.as_slice());
    }

    /// Runs a layout pass and then has the backend trim its measurements
    /// cache. The pass works with the renderer, to measure text with it;
    /// what it computes is handed back unchanged.
    ///
    /// `pass` is called once, on this renderer as it stands; the backend's
    /// `trim_measurements` is called once, on the backend as the pass left it.
    pub fn layout<N>(&mut self, pass: impl FnOnce(&mut Self) -> N) -> (node: N)
        requires
            forall|renderer: &mut Self|
                renderer@ == old(self)@ ==> #[trigger] call_requires(pass, (renderer,)),
        ensures
            exists|renderer: &mut Self, backend: &mut B|
                renderer@ == old(self)@
                    && #[trigger] call_ensures(pass, (renderer,), node)
                    && *backend == final(renderer)@.backend
                    && #[trigger] call_ensures(B::trim_measurements, (backend,), ())
                    && final(self)@ == (Recording {
                        backend: *final(backend),
                        primitives: final(renderer)@.primitives,
                    }),
    {
        let node = pass(self);
        self.backend.trim_measurements();
        node
    }
}

impl<B: Backend + Text> Renderer<B> {
    /// The default size of text, as the backend gives it.
    pub fn default_size(&self) -> (size: u16)
        ensures
            call_ensures(B::default_size, (&self@.backend,), size),
    {
        self.backend.default_size()
    }

    /// Measures text: the question goes to the backend as it stands, and the
    /// answer comes back as the backend gave it.
    pub fn measure(&self, content: &str, size: Scalar, font: Font, bounds: Size) -> (extent: (
        Scalar,
        Scalar,
    ))
        ensures
            call_ensures(B::measure, (&self@.backend, content, size, font, bounds), extent),
    {
        self.backend.measure(content, size, font, bounds)
    }

    /// Tests a point against text: the question goes to the backend as it
    /// stands, and the answer comes back as the backend gave it.
    pub fn hit_test(
        &self,
        content: &str,
        size: Scalar,
        font: Font,
        bounds: Size,
        point: Point,
        nearest_only: bool,
    ) -> (hit: Option<Hit>)
        ensures
            call_ensures(
                B::hit_test,
                (&self@.backend, content, size, font, bounds, point, nearest_only),
                hit,
            ),
    {
        self.backend.hit_test(content, size, font, bounds, point, nearest_only)
    }
}

} // verus!
