use engine_core::modules::draw::primitive::{primitive_params, shape_id, PrimitiveParams, Vec2Wide};
use engine_core::modules::draw::text::{
    glyph_instance, overlay_instance, rasterize_action, RasterizeOutcome, TextAction,
    TextProgramBase,
};
use engine_core::modules::draw::{
    Color, DrawCommand, HorizontalAlign, ObjectGeometry, Vec2, VerticalAlign,
};

fn red() -> Color {
    Color { r: 1000, g: 0, b: 0, a: 1000 }
}

#[test]
fn shape_discriminants_are_stable() {
    let arc = DrawCommand::Arc {
        depth: 0,
        color: red(),
        radius: 1,
        thickness: 1,
        from: 0,
        to: 1,
        position: Vec2 { x: 0, y: 0 },
    };
    let circle =
        DrawCommand::Circle { depth: 0, color: red(), radius: 1, position: Vec2 { x: 0, y: 0 } };
    let line = DrawCommand::Line {
        depth: 0,
        color: red(),
        thickness: 1,
        from: Vec2 { x: 0, y: 0 },
        to: Vec2 { x: 1, y: 1 },
    };
    let rectangle = DrawCommand::Rectangle {
        depth: 0,
        color: red(),
        width: 1,
        height: 1,
        position: Vec2 { x: 0, y: 0 },
        rotation: 0,
    };
    let sprite = DrawCommand::Sprite {
        sprite: String::from("hero"),
        geometry: ObjectGeometry::default(),
    };
    let text = DrawCommand::Text {
        font: None,
        depth: 0,
        color: red(),
        position: Vec2 { x: 0, y: 0 },
        size: 1000,
        text: String::from("hi"),
        h_align: HorizontalAlign::Center,
        v_align: VerticalAlign::Center,
    };
    assert_eq!(shape_id(&arc), 0);
    assert_eq!(shape_id(&circle), 1);
    assert_eq!(shape_id(&line), 2);
    assert_eq!(shape_id(&rectangle), 3);
    assert_eq!(shape_id(&sprite), 4);
    assert_eq!(shape_id(&text), 5);
}

#[test]
fn circle_params_span_twice_the_radius() {
    let circle = DrawCommand::Circle {
        depth: 500,
        color: red(),
        radius: 2_000_000_000,
        position: Vec2 { x: 7, y: 8 },
    };
    let params = primitive_params(&circle).unwrap();
    assert_eq!(
        params,
        PrimitiveParams::Circle {
            depth: 500,
            color: red(),
            radius: 2_000_000_000,
            position: Vec2 { x: 7, y: 8 },
            image_size: Vec2Wide { x: 4_000_000_000, y: 4_000_000_000 },
        }
    );
}

#[test]
fn line_params_grow_the_bounding_box_by_the_thickness() {
    let line = DrawCommand::Line {
        depth: 100,
        color: red(),
        thickness: 2,
        from: Vec2 { x: 10, y: 1 },
        to: Vec2 { x: 4, y: 9 },
    };
    let params = primitive_params(&line).unwrap();
    assert_eq!(
        params,
        PrimitiveParams::Line {
            depth: 100,
            color: red(),
            thickness: 2,
            image_size: Vec2Wide { x: 10, y: 12 },
            position: Vec2Wide { x: 2, y: -1 },
            line_from: Vec2Wide { x: 8, y: 2 },
            line_to: Vec2Wide { x: 2, y: 10 },
        }
    );
}

#[test]
fn sprite_and_text_are_not_primitives() {
    let sprite = DrawCommand::Sprite {
        sprite: String::from("hero"),
        geometry: ObjectGeometry::default(),
    };
    assert!(primitive_params(&sprite).is_none());
}

#[test]
fn text_commands_become_sections_with_resolved_fonts() {
    let mut base = TextProgramBase::new(640, 480);
    base.register_font(String::from("serif"), 3);
    let commands = vec![
        DrawCommand::Text {
            font: Some(String::from("serif")),
            depth: 7,
            color: red(),
            position: Vec2 { x: 5, y: 11 },
            size: 2000,
            text: String::from("hello"),
            h_align: HorizontalAlign::Left,
            v_align: VerticalAlign::Top,
        },
        DrawCommand::Circle { depth: 0, color: red(), radius: 1, position: Vec2 { x: 0, y: 0 } },
        DrawCommand::Text {
            font: Some(String::from("missing")),
            depth: 8,
            color: red(),
            position: Vec2 { x: 0, y: 0 },
            size: 1000,
            text: String::from("fallback"),
            h_align: HorizontalAlign::Center,
            v_align: VerticalAlign::Center,
        },
    ];
    let sections = base.collect_sections(&commands);
    assert_eq!(sections.len(), 2);
    assert_eq!(sections[0].font_id, 3);
    assert_eq!(sections[0].text, "hello");
    // the layout engine's vertical axis grows downward
    assert_eq!(sections[0].position, Vec2Wide { x: 5, y: -11 });
    assert_eq!(sections[0].size, 2000);
    assert_eq!(sections[0].depth, 7);
    // an unregistered font falls back to the default font
    assert_eq!(sections[1].font_id, 0);
}

#[test]
fn newest_font_registration_wins() {
    let mut base = TextProgramBase::new(640, 480);
    base.register_font(String::from("serif"), 3);
    base.register_font(String::from("serif"), 9);
    assert_eq!(base.font_id(&String::from("serif")), 9);
    assert_eq!(base.font_id(&String::from("other")), 0);
}

#[test]
fn cache_texture_keeps_a_padded_border() {
    let mut base = TextProgramBase::new(256, 256);
    // 256 != 100 + 32, so the cache must be rebuilt at the padded size
    assert!(base.ensure_cache_size(100, 200));
    assert_eq!(base.cache_width, 132);
    assert_eq!(base.cache_height, 232);
    // already padded: nothing to rebuild
    assert!(!base.ensure_cache_size(100, 200));
    assert_eq!(base.cache_width, 132);
}

#[test]
fn rasterize_actions_follow_the_retry_once_rule() {
    assert_eq!(rasterize_action(&RasterizeOutcome::Drawn, false), TextAction::RenderFresh);
    assert_eq!(rasterize_action(&RasterizeOutcome::Redrawn, false), TextAction::KeepPrevious);
    assert_eq!(
        rasterize_action(&RasterizeOutcome::TooSmall { width: 512, height: 512 }, false),
        TextAction::ResizeAndRetry { width: 512, height: 512 }
    );
    assert_eq!(
        rasterize_action(&RasterizeOutcome::TooSmall { width: 512, height: 512 }, true),
        TextAction::KeepPrevious
    );
}

#[test]
fn glyph_instances_are_flipped_within_the_cache() {
    let instance = glyph_instance(
        Vec2 { x: 10, y: 20 },
        Vec2 { x: 5, y: 30 },
        ObjectGeometry::default(),
        200,
    );
    assert_eq!(instance.offset, Vec2 { x: 10, y: 150 });
    assert_eq!(instance.size, Vec2 { x: 5, y: 30 });
}

#[test]
fn text_composites_last_over_the_whole_scene() {
    let instance = overlay_instance(640_000, 480_000);
    assert_eq!(instance.offset, Vec2 { x: 0, y: 0 });
    assert_eq!(instance.size, Vec2 { x: 640_000, y: 480_000 });
    assert_eq!(instance.geometry.depth, 100_000);
    assert_eq!(instance.geometry.scale, Vec2 { x: 1000, y: -1000 });
}
