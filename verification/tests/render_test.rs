use monad_quad::component::Component;
use monad_quad::context::Context;
use monad_quad::frame::{Color, DrawCmd, Frame};
use monad_quad::render::background::Background;
use monad_quad::render::rectangle::{Rectangle, RectangleProps};
use monad_quad::render::text::{Text, TextProperties};
use monad_quad::render::tiled::{Tiled, TiledProperties};
use monad_quad::render::viewport::Viewport;

fn ctx() -> Context {
    Context::new(1_920_000_000, 1_080_000_000, 1_920_000_000, 1_080_000_000, 16_000, 0, 0, vec![])
}

fn red() -> Color {
    Color { r: 255, g: 0, b: 0, a: 255 }
}

#[test]
fn background_emits_one_clear_command() {
    let background = Background;
    let mut out = Frame::new();
    background.render(&ctx(), &red(), &mut out);
    assert_eq!(out.commands().len(), 1);
    assert!(matches!(out.commands()[0], DrawCmd::Clear { color } if color == red()));
}

#[test]
fn rectangle_emits_its_geometry() {
    let rectangle = Rectangle::new();
    let props = RectangleProps { size: (30, 40), color: red(), location: (5, 6) };
    let mut out = Frame::new();
    rectangle.render(&ctx(), &props, &mut out);
    assert!(matches!(
        out.commands()[0],
        DrawCmd::Rect { x: 5, y: 6, w: 30, h: 40, .. }
    ));
}

#[test]
fn text_emits_its_line() {
    let text = Text;
    let props = TextProperties {
        text: String::from("score"),
        location: (10, 20),
        font_size: 14,
        color: red(),
    };
    let mut out = Frame::new();
    text.render(&ctx(), &props, &mut out);
    match &out.commands()[0] {
        DrawCmd::Text { text, x, y, font_size, .. } => {
            assert_eq!(text, "score");
            assert_eq!((*x, *y, *font_size), (10, 20, 14));
        },
        other => panic!("unexpected command {:?}", other),
    }
}

#[test]
fn tiled_emits_its_layer() {
    let tiled = Tiled;
    let props = TiledProperties {
        map: 3,
        layer: String::from("ground"),
        dest: (0, 0, 100, 100),
        source: None,
    };
    let mut out = Frame::new();
    tiled.render(&ctx(), &props, &mut out);
    match &out.commands()[0] {
        DrawCmd::TiledLayer { map, layer, .. } => {
            assert_eq!(*map, 3);
            assert_eq!(layer, "ground");
        },
        other => panic!("unexpected command {:?}", other),
    }
}

#[test]
fn viewport_wraps_its_childs_commands() {
    let viewport = Viewport::new::<Color>((640_000_000, 480_000_000), Background);
    let mut out = Frame::new();
    viewport.render(&ctx(), &red(), &mut out);
    assert_eq!(out.commands().len(), 3);
    assert!(matches!(
        out.commands()[0],
        DrawCmd::ViewportBegin { w: 640_000_000, h: 480_000_000 }
    ));
    assert!(matches!(out.commands()[1], DrawCmd::Clear { .. }));
    assert!(matches!(out.commands()[2], DrawCmd::ViewportEnd));
}

#[test]
fn context_scale_takes_the_smaller_ratio() {
    // Window 800x600 around a 400x400 viewport: the vertical ratio
    // 1.5 is the smaller one.
    let context = Context::new(400, 400, 800, 600, 0, 0, 0, vec![]);
    assert_eq!(context.get_scale(), 1_500_000);
}

#[test]
fn context_carries_the_pointer_into_viewport_space() {
    // Same scale on both axes, offset zero: the pointer divides by
    // the scale.
    let context = Context::new(400, 300, 800, 600, 0, 100, 50, vec![]);
    assert_eq!(context.get_scale(), 2_000_000);
    assert_eq!(context.get_mouse_location(), (50, 25));
}

#[test]
fn context_reports_held_keys() {
    let context = Context::new(400, 300, 800, 600, 0, 0, 0, vec![7, 32]);
    assert!(context.is_key_down(32));
    assert!(!context.is_key_down(9));
}
