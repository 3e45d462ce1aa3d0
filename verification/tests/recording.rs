use iced_graphics::appearance::{Background, Color, Font, Horizontal, Vertical};
use iced_graphics::backend::Backend;
use iced_graphics::geometry::{Rectangle, Scalar, Vector};
use iced_graphics::primitive::Primitive;
use iced_graphics::renderer::{Quad, Renderer, Section};

#[derive(Debug, Default, PartialEq)]
struct Canvas {
    frames: u32,
}

impl Backend for Canvas {}

fn scalar(value: f32) -> Scalar {
    Scalar::from_bits(value.to_bits())
}

fn rectangle(x: f32, y: f32, width: f32, height: f32) -> Rectangle {
    Rectangle { x: scalar(x), y: scalar(y), width: scalar(width), height: scalar(height) }
}

fn color(r: f32, g: f32, b: f32, a: f32) -> Color {
    Color { r: scalar(r), g: scalar(g), b: scalar(b), a: scalar(a) }
}

fn quad(x: f32) -> Quad {
    Quad {
        bounds: rectangle(x, 2.0, 30.0, 40.0),
        background: Background::Color(color(1.0, 0.0, 0.0, 1.0)),
        border_radius: scalar(4.0),
        border_width: scalar(1.5),
        border_color: color(0.0, 0.0, 0.0, 0.5),
    }
}

fn quad_primitive(x: f32) -> Primitive {
    Primitive::Quad {
        bounds: rectangle(x, 2.0, 30.0, 40.0),
        background: Background::Color(color(1.0, 0.0, 0.0, 1.0)),
        border_radius: scalar(4.0),
        border_width: scalar(1.5),
        border_color: color(0.0, 0.0, 0.0, 0.5),
    }
}

fn section(content: &str) -> Section<'_> {
    Section {
        content,
        bounds: rectangle(5.0, 6.0, 70.0, 8.0),
        size: scalar(16.0),
        color: color(0.25, 0.5, 0.75, 1.0),
        font: Font::Default,
        horizontal_alignment: Horizontal::Center,
        vertical_alignment: Vertical::Bottom,
    }
}

fn text_primitive(content: &str) -> Primitive {
    Primitive::Text {
        content: String::from(content),
        bounds: rectangle(5.0, 6.0, 70.0, 8.0),
        size: scalar(16.0),
        color: color(0.25, 0.5, 0.75, 1.0),
        font: Font::Default,
        horizontal_alignment: Horizontal::Center,
        vertical_alignment: Vertical::Bottom,
    }
}

fn layer_primitive(bounds: Rectangle, offset: Vector<u32>, primitives: Vec<Primitive>) -> Primitive {
    Primitive::Clip { bounds, offset, content: Box::new(Primitive::Group { primitives }) }
}

fn recorded(renderer: &mut Renderer<Canvas>) -> Vec<Primitive> {
    let mut seen = Vec::new();
    renderer.present(|_, primitives| seen = primitives.to_vec());
    seen
}

#[test]
fn new_renderer_has_recorded_nothing() {
    let mut renderer = Renderer::new(Canvas::default());
    assert_eq!(recorded(&mut renderer), Vec::new());
}

#[test]
fn backend_is_the_one_given() {
    let renderer = Renderer::new(Canvas { frames: 7 });
    assert_eq!(renderer.backend(), &Canvas { frames: 7 });
}

#[test]
fn fill_rectangle_records_the_quad_field_by_field() {
    let mut renderer = Renderer::new(Canvas::default());
    renderer.fill_rectangle(quad(1.0));
    let seen = recorded(&mut renderer);
    assert_eq!(seen.len(), 1);
    match &seen[0] {
        Primitive::Quad { bounds, background, border_radius, border_width, border_color } => {
            assert_eq!(*bounds, rectangle(1.0, 2.0, 30.0, 40.0));
            assert_eq!(*background, Background::Color(color(1.0, 0.0, 0.0, 1.0)));
            assert_eq!(border_radius.to_bits(), 4.0f32.to_bits());
            assert_eq!(border_width.to_bits(), 1.5f32.to_bits());
            assert_eq!(*border_color, color(0.0, 0.0, 0.0, 0.5));
        }
        other => panic!("a quad was expected, not {:?}", other),
    }
}

#[test]
fn fill_text_records_the_section_field_by_field() {
    let mut renderer = Renderer::new(Canvas::default());
    renderer.fill_text(Section {
        content: "caption",
        bounds: rectangle(1.0, 2.0, 3.0, 4.0),
        size: scalar(12.0),
        color: color(0.1, 0.2, 0.3, 0.4),
        font: Font::External { name: "Mono", bytes: &[1, 2, 3] },
        horizontal_alignment: Horizontal::Right,
        vertical_alignment: Vertical::Top,
    });
    let seen = recorded(&mut renderer);
    assert_eq!(
        seen,
        vec![Primitive::Text {
            content: String::from("caption"),
            bounds: rectangle(1.0, 2.0, 3.0, 4.0),
            size: scalar(12.0),
            color: color(0.1, 0.2, 0.3, 0.4),
            font: Font::External { name: "Mono", bytes: &[1, 2, 3] },
            horizontal_alignment: Horizontal::Right,
            vertical_alignment: Vertical::Top,
        }]
    );
}

#[test]
fn fill_text_keeps_its_own_copy_of_the_content() {
    let mut renderer = Renderer::new(Canvas::default());
    {
        let borrowed = String::from("short-lived");
        renderer.fill_text(section(&borrowed));
    }
    assert_eq!(recorded(&mut renderer), vec![text_primitive("short-lived")]);
}

#[test]
fn fills_without_layers_are_flat_and_in_call_order() {
    let mut renderer = Renderer::new(Canvas::default());
    renderer.fill_rectangle(quad(1.0));
    renderer.fill_text(section("one"));
    renderer.fill_rectangle(quad(2.0));
    renderer.fill_text(section("two"));
    renderer.fill_text(section("three"));
    assert_eq!(
        recorded(&mut renderer),
        vec![
            quad_primitive(1.0),
            text_primitive("one"),
            quad_primitive(2.0),
            text_primitive("two"),
            text_primitive("three"),
        ]
    );
}

#[test]
fn layer_is_appended_as_one_clipped_group_after_what_was_there() {
    let bounds = rectangle(0.0, 0.0, 100.0, 50.0);
    let offset = Vector { x: 3, y: 9 };
    let mut renderer = Renderer::new(Canvas::default());
    renderer.fill_rectangle(quad(1.0));
    renderer.fill_text(section("before"));
    renderer.with_layer(bounds, offset, |layer| {
        layer.fill_rectangle(quad(2.0));
        layer.fill_text(section("inside"));
    });
    assert_eq!(
        recorded(&mut renderer),
        vec![
            quad_primitive(1.0),
            text_primitive("before"),
            layer_primitive(bounds, offset, vec![quad_primitive(2.0), text_primitive("inside")]),
        ]
    );
}

#[test]
fn recording_goes_on_in_the_parent_after_a_layer() {
    let bounds = rectangle(0.0, 0.0, 100.0, 50.0);
    let offset = Vector { x: 0, y: 0 };
    let mut renderer = Renderer::new(Canvas::default());
    renderer.with_layer(bounds, offset, |layer| layer.fill_rectangle(quad(1.0)));
    renderer.fill_rectangle(quad(2.0));
    assert_eq!(
        recorded(&mut renderer),
        vec![layer_primitive(bounds, offset, vec![quad_primitive(1.0)]), quad_primitive(2.0)]
    );
}

#[test]
fn layer_sees_only_its_own_sequence() {
    let mut renderer = Renderer::new(Canvas::default());
    renderer.fill_rectangle(quad(1.0));
    let mut seen_inside = vec![quad_primitive(9.0)];
    renderer.with_layer(rectangle(0.0, 0.0, 1.0, 1.0), Vector { x: 0, y: 0 }, |layer| {
        layer.present(|_, primitives| seen_inside = primitives.to_vec());
    });
    assert_eq!(seen_inside, Vec::new());
}

#[test]
fn nested_layers_compose_in_draw_order() {
    let outer_bounds = rectangle(0.0, 0.0, 100.0, 100.0);
    let outer_offset = Vector { x: 1, y: 2 };
    let inner_bounds = rectangle(10.0, 10.0, 20.0, 20.0);
    let inner_offset = Vector { x: 3, y: 4 };
    let mut renderer = Renderer::new(Canvas::default());
    renderer.with_layer(outer_bounds, outer_offset, |outer| {
        outer.fill_rectangle(quad(1.0));
        outer.with_layer(inner_bounds, inner_offset, |inner| inner.fill_rectangle(quad(2.0)));
    });
    assert_eq!(
        recorded(&mut renderer),
        vec![layer_primitive(
            outer_bounds,
            outer_offset,
            vec![
                quad_primitive(1.0),
                layer_primitive(inner_bounds, inner_offset, vec![quad_primitive(2.0)]),
            ],
        )]
    );
}

#[test]
fn empty_layer_still_appends_its_node() {
    let bounds = rectangle(1.0, 2.0, 3.0, 4.0);
    let offset = Vector { x: 5, y: 6 };
    let mut renderer = Renderer::new(Canvas::default());
    renderer.with_layer(bounds, offset, |_| {});
    assert_eq!(recorded(&mut renderer), vec![layer_primitive(bounds, offset, Vec::new())]);
}

#[test]
fn clear_empties_the_sequence_for_the_next_present() {
    let mut renderer = Renderer::new(Canvas::default());
    renderer.fill_rectangle(quad(1.0));
    renderer.with_layer(rectangle(0.0, 0.0, 1.0, 1.0), Vector { x: 0, y: 0 }, |layer| {
        layer.fill_text(section("inside"))
    });
    renderer.fill_text(section("after"));
    assert_eq!(recorded(&mut renderer).len(), 3);
    renderer.clear();
    let mut handed = usize::MAX;
    renderer.present(|_, primitives| handed = primitives.len());
    assert_eq!(handed, 0);
}

#[test]
fn clear_twice_is_clear_once() {
    let mut once = Renderer::new(Canvas { frames: 3 });
    once.fill_rectangle(quad(1.0));
    once.clear();
    let mut twice = Renderer::new(Canvas { frames: 3 });
    twice.fill_rectangle(quad(1.0));
    twice.clear();
    twice.clear();
    assert_eq!(recorded(&mut once), recorded(&mut twice));
    assert_eq!(once.backend(), twice.backend());
    twice.fill_rectangle(quad(2.0));
    assert_eq!(recorded(&mut twice), vec![quad_primitive(2.0)]);
}

#[test]
fn clear_of_an_empty_renderer_changes_nothing() {
    let mut renderer = Renderer::new(Canvas { frames: 1 });
    renderer.clear();
    assert_eq!(recorded(&mut renderer), Vec::new());
    assert_eq!(renderer.backend(), &Canvas { frames: 1 });
}

#[test]
fn clear_inside_a_layer_spares_the_parent() {
    let bounds = rectangle(0.0, 0.0, 1.0, 1.0);
    let offset = Vector { x: 0, y: 0 };
    let mut renderer = Renderer::new(Canvas::default());
    renderer.fill_rectangle(quad(1.0));
    renderer.with_layer(bounds, offset, |layer| {
        layer.fill_rectangle(quad(2.0));
        layer.clear();
        layer.fill_rectangle(quad(3.0));
    });
    assert_eq!(
        recorded(&mut renderer),
        vec![quad_primitive(1.0), layer_primitive(bounds, offset, vec![quad_primitive(3.0)])]
    );
}

#[test]
fn present_lets_the_function_change_the_backend() {
    let mut renderer = Renderer::new(Canvas { frames: 0 });
    renderer.fill_rectangle(quad(1.0));
    renderer.present(|backend, primitives| backend.frames += primitives.len() as u32 + 10);
    assert_eq!(renderer.backend(), &Canvas { frames: 11 });
}

#[test]
fn present_does_not_consume_what_was_recorded() {
    let mut renderer = Renderer::new(Canvas::default());
    renderer.fill_rectangle(quad(1.0));
    assert_eq!(recorded(&mut renderer), vec![quad_primitive(1.0)]);
    assert_eq!(recorded(&mut renderer), vec![quad_primitive(1.0)]);
    renderer.fill_rectangle(quad(2.0));
    assert_eq!(recorded(&mut renderer), vec![quad_primitive(1.0), quad_primitive(2.0)]);
}

#[test]
fn clone_of_a_tree_is_equal_and_independent() {
    let tree = layer_primitive(
        rectangle(0.0, 0.0, 1.0, 1.0),
        Vector { x: 1, y: 1 },
        vec![
            quad_primitive(1.0),
            Primitive::Group { primitives: vec![text_primitive("deep"), quad_primitive(2.0)] },
            layer_primitive(rectangle(2.0, 2.0, 2.0, 2.0), Vector { x: 0, y: 7 }, Vec::new()),
        ],
    );
    let copy = tree.clone();
    assert_eq!(copy, tree);
    drop(tree);
    match copy {
        Primitive::Clip { content, .. } => match *content {
            Primitive::Group { primitives } => {
                assert_eq!(primitives.len(), 3);
                assert_eq!(primitives[0], quad_primitive(1.0));
            }
            other => panic!("a group was expected, not {:?}", other),
        },
        other => panic!("a clip was expected, not {:?}", other),
    }
}

#[test]
fn scalar_keeps_the_exact_encoding() {
    assert_eq!(scalar(1.5).to_bits(), 0x3fc0_0000);
    assert_eq!(f32::from_bits(scalar(-0.25).to_bits()), -0.25);
    assert_eq!(Scalar::from_bits(0x7fc0_0001).bits, 0x7fc0_0001);
    assert_ne!(scalar(0.0), scalar(-0.0));
}
