use engine_core::modules::draw::queue::{
    ArcOptions, CircleOptions, DrawQueueInner, LineOptions, RectangleOptions, SpriteOptions,
    TextOptions,
};
use engine_core::modules::draw::{
    Color, DrawCommand, HorizontalAlign, ObjectGeometry, Vec2, VerticalAlign,
};

fn white() -> Color {
    Color { r: 1000, g: 1000, b: 1000, a: 1000 }
}

fn origin() -> Vec2 {
    Vec2 { x: 0, y: 0 }
}

fn empty_sprite_options() -> SpriteOptions {
    SpriteOptions {
        sprite: None,
        brighten: None,
        darken: None,
        depth: None,
        desaturation: None,
        origin: None,
        position: None,
        rotation: None,
        scale: None,
    }
}

#[test]
fn queue_holds_exactly_the_commands_issued_since_the_last_clear() {
    let mut q = DrawQueueInner::new();
    q.draw_circle(CircleOptions { depth: None, color: None, radius: Some(5), position: None });
    q.draw_circle(CircleOptions { depth: None, color: None, radius: Some(6), position: None });
    assert_eq!(q.queue.len(), 2);
    q.clear_commands();
    assert_eq!(q.queue.len(), 0);
    q.draw_circle(CircleOptions { depth: None, color: None, radius: Some(7), position: None });
    assert_eq!(q.queue.len(), 1);
    match &q.queue[0] {
        DrawCommand::Circle { radius, .. } => assert_eq!(*radius, 7),
        other => panic!("unexpected command {:?}", other),
    }
}

#[test]
fn issuing_no_commands_renders_nothing_new() {
    let mut q = DrawQueueInner::new();
    q.draw_circle(CircleOptions { depth: None, color: None, radius: None, position: None });
    q.clear_commands();
    assert!(q.queue.is_empty());
}

#[test]
fn arc_defaults() {
    let mut q = DrawQueueInner::new();
    q.draw_arc(ArcOptions {
        depth: None,
        color: None,
        radius: None,
        thickness: None,
        from: None,
        to: None,
        position: None,
    });
    assert_eq!(
        q.queue[0],
        DrawCommand::Arc {
            depth: 1000,
            color: white(),
            radius: 500,
            thickness: 500,
            from: 0,
            // the default full turn folds to zero, as captured angles are
            // normalized into [0, one turn)
            to: 0,
            position: origin(),
        }
    );
}

#[test]
fn arc_angles_are_folded_into_one_turn() {
    let mut q = DrawQueueInner::new();
    q.draw_arc(ArcOptions {
        depth: None,
        color: None,
        radius: None,
        thickness: None,
        from: Some(-100),
        to: Some(6283 + 42),
        position: None,
    });
    match &q.queue[0] {
        DrawCommand::Arc { from, to, .. } => {
            assert_eq!(*from, 6183);
            assert_eq!(*to, 42);
        }
        other => panic!("unexpected command {:?}", other),
    }
}

#[test]
fn circle_defaults() {
    let mut q = DrawQueueInner::new();
    q.draw_circle(CircleOptions { depth: None, color: None, radius: None, position: None });
    assert_eq!(
        q.queue[0],
        DrawCommand::Circle { depth: 1000, color: white(), radius: 1000, position: origin() }
    );
}

#[test]
fn line_defaults() {
    let mut q = DrawQueueInner::new();
    q.draw_line(LineOptions { depth: None, color: None, thickness: None, from: None, to: None });
    assert_eq!(
        q.queue[0],
        DrawCommand::Line {
            depth: 1000,
            color: white(),
            thickness: 1000,
            from: origin(),
            to: origin(),
        }
    );
}

#[test]
fn rectangle_defaults() {
    let mut q = DrawQueueInner::new();
    q.draw_rectangle(RectangleOptions {
        depth: None,
        color: None,
        width: None,
        height: None,
        position: None,
        rotation: None,
    });
    assert_eq!(
        q.queue[0],
        DrawCommand::Rectangle {
            depth: 1000,
            color: white(),
            width: 1000,
            height: 1000,
            position: origin(),
            rotation: 0,
        }
    );
}

#[test]
fn sprite_without_a_name_queues_nothing() {
    let mut q = DrawQueueInner::new();
    q.draw_sprite(empty_sprite_options());
    assert!(q.queue.is_empty());
}

#[test]
fn sprite_defaults() {
    let mut q = DrawQueueInner::new();
    let mut o = empty_sprite_options();
    o.sprite = Some(String::from("hero"));
    o.position = Some(Vec2 { x: 10_000, y: 10_000 });
    q.draw_sprite(o);
    assert_eq!(
        q.queue[0],
        DrawCommand::Sprite {
            sprite: String::from("hero"),
            geometry: ObjectGeometry {
                brighten: Color { r: 0, g: 0, b: 0, a: 0 },
                darken: white(),
                depth: 1000,
                desaturation: 0,
                origin: Vec2 { x: 500, y: 500 },
                position: Vec2 { x: 10_000, y: 10_000 },
                rotation: 0,
                scale: Vec2 { x: 1000, y: 1000 },
            },
        }
    );
}

#[test]
fn text_defaults() {
    let mut q = DrawQueueInner::new();
    q.draw_text(TextOptions {
        font: None,
        depth: None,
        color: None,
        position: None,
        size: None,
        text: None,
        h_align: None,
        v_align: None,
    });
    assert_eq!(
        q.queue[0],
        DrawCommand::Text {
            font: None,
            depth: 1000,
            color: white(),
            position: origin(),
            size: 1000,
            text: String::new(),
            h_align: HorizontalAlign::Center,
            v_align: VerticalAlign::Center,
        }
    );
}

#[test]
fn default_geometry_matches_documented_defaults() {
    let g = ObjectGeometry::default();
    assert_eq!(g.brighten, Color { r: 0, g: 0, b: 0, a: 0 });
    assert_eq!(g.darken, white());
    assert_eq!(g.depth, 1000);
    assert_eq!(g.desaturation, 0);
    assert_eq!(g.origin, Vec2 { x: 500, y: 500 });
    assert_eq!(g.position, origin());
    assert_eq!(g.rotation, 0);
    assert_eq!(g.scale, Vec2 { x: 1000, y: 1000 });
}

#[test]
fn asset_requests_stage_and_drain() {
    let mut q = DrawQueueInner::new();
    q.load_font(String::from("serif"), String::from("fonts/serif.ttf"));
    q.load_spritesheet(String::from("s1"), String::from("images/s1.png"));
    q.create_sprite(
        String::from("hero"),
        String::from("s1"),
        Vec2 { x: 0, y: 0 },
        Vec2 { x: 32_000, y: 32_000 },
    );
    let fonts = q.take_pending_fonts();
    assert_eq!(fonts, vec![(String::from("serif"), String::from("fonts/serif.ttf"))]);
    let sheets = q.take_pending_spritesheets();
    assert_eq!(sheets.len(), 1);
    assert_eq!(sheets[0].name, "s1");
    assert_eq!(sheets[0].path, "images/s1.png");
    let sprites = q.take_pending_sprites();
    assert_eq!(sprites.len(), 1);
    assert_eq!(sprites[0].name, "hero");
    assert_eq!(sprites[0].spritesheet, "s1");
    assert!(q.take_pending_fonts().is_empty());
    assert!(q.take_pending_spritesheets().is_empty());
    assert!(q.take_pending_sprites().is_empty());
    assert!(q.queue.is_empty());
}

#[test]
fn clearing_commands_keeps_staged_assets() {
    let mut q = DrawQueueInner::new();
    q.load_spritesheet(String::from("s1"), String::from("images/s1.png"));
    q.draw_circle(CircleOptions { depth: None, color: None, radius: None, position: None });
    q.clear_commands();
    assert_eq!(q.take_pending_spritesheets().len(), 1);
}
