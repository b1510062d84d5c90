use engine_core::modules::draw::queue::DrawQueueInner;
use engine_core::modules::draw::sprite::{
    decode_spritesheet, DrawInstance, SpriteProgramBase, TextureMeta,
};
use engine_core::modules::draw::{DrawCommand, ObjectGeometry, SpritesheetSlice, Vec2};

fn sprite_command(name: &str, x: i32, y: i32) -> DrawCommand {
    let mut geometry = ObjectGeometry::default();
    geometry.position = Vec2 { x, y };
    DrawCommand::Sprite { sprite: String::from(name), geometry }
}

fn slice(name: &str, sheet: &str, ox: i32, oy: i32, sx: i32, sy: i32) -> SpritesheetSlice {
    SpritesheetSlice {
        name: String::from(name),
        spritesheet: String::from(sheet),
        offset: Vec2 { x: ox, y: oy },
        size: Vec2 { x: sx, y: sy },
    }
}

#[test]
fn one_slice_one_command_one_batch_one_instance() {
    // Register spritesheet "s1" with one slice "hero" at offset (0,0) of
    // size (32,32); issue one sprite command for "hero" at position
    // (10,10); expect one batched draw against texture "s1" with one
    // instance at position (10,10).
    let mut base = SpriteProgramBase::new();
    base.install_spritesheet(String::from("s1"), TextureMeta { width: 64, height: 64 });
    base.register_sprite(slice("hero", "s1", 0, 0, 32_000, 32_000));
    let commands = vec![sprite_command("hero", 10_000, 10_000)];
    let batches = base.group_sprite_batches(&commands);
    assert_eq!(batches.len(), 1);
    assert_eq!(batches[0].spritesheet, "s1");
    assert_eq!(batches[0].instances.len(), 1);
    let instance = &batches[0].instances[0];
    assert_eq!(instance.offset, Vec2 { x: 0, y: 0 });
    assert_eq!(instance.size, Vec2 { x: 32_000, y: 32_000 });
    assert_eq!(instance.geometry.position, Vec2 { x: 10_000, y: 10_000 });
}

#[test]
fn unregistered_sprite_name_produces_no_instance() {
    let mut base = SpriteProgramBase::new();
    base.install_spritesheet(String::from("s1"), TextureMeta { width: 64, height: 64 });
    base.register_sprite(slice("hero", "s1", 0, 0, 32_000, 32_000));
    let commands = vec![sprite_command("ghost", 1, 2), sprite_command("hero", 3, 4)];
    let batches = base.group_sprite_batches(&commands);
    assert_eq!(batches.len(), 1);
    assert_eq!(batches[0].instances.len(), 1);
    assert_eq!(batches[0].instances[0].geometry.position, Vec2 { x: 3, y: 4 });
}

#[test]
fn slice_of_an_unloaded_sheet_produces_no_batch() {
    let mut base = SpriteProgramBase::new();
    base.register_sprite(slice("hero", "s1", 0, 0, 32, 32));
    let commands = vec![sprite_command("hero", 1, 2)];
    let batches = base.group_sprite_batches(&commands);
    assert!(batches.is_empty());
}

#[test]
fn sprites_sharing_a_texture_form_one_batch_in_queue_order() {
    let mut base = SpriteProgramBase::new();
    base.install_spritesheet(String::from("s1"), TextureMeta { width: 64, height: 64 });
    base.install_spritesheet(String::from("s2"), TextureMeta { width: 16, height: 16 });
    base.register_sprite(slice("hero", "s1", 0, 0, 32, 32));
    base.register_sprite(slice("villain", "s1", 32, 0, 32, 32));
    base.register_sprite(slice("coin", "s2", 0, 0, 8, 8));
    let commands = vec![
        sprite_command("coin", 1, 1),
        sprite_command("hero", 2, 2),
        sprite_command("coin", 3, 3),
        sprite_command("villain", 4, 4),
    ];
    let batches = base.group_sprite_batches(&commands);
    assert_eq!(batches.len(), 2);
    assert_eq!(batches[0].spritesheet, "s1");
    let positions: Vec<Vec2> =
        batches[0].instances.iter().map(|i: &DrawInstance| i.geometry.position).collect();
    assert_eq!(positions, vec![Vec2 { x: 2, y: 2 }, Vec2 { x: 4, y: 4 }]);
    assert_eq!(batches[1].spritesheet, "s2");
    let positions2: Vec<Vec2> =
        batches[1].instances.iter().map(|i: &DrawInstance| i.geometry.position).collect();
    assert_eq!(positions2, vec![Vec2 { x: 1, y: 1 }, Vec2 { x: 3, y: 3 }]);
}

#[test]
fn primitive_commands_produce_no_sprite_instance() {
    let mut base = SpriteProgramBase::new();
    base.install_spritesheet(String::from("s1"), TextureMeta { width: 64, height: 64 });
    base.register_sprite(slice("hero", "s1", 0, 0, 32, 32));
    let commands = vec![DrawCommand::Circle {
        depth: 1000,
        color: engine_core::modules::draw::Color { r: 0, g: 0, b: 0, a: 1000 },
        radius: 5,
        position: Vec2 { x: 0, y: 0 },
    }];
    let batches = base.group_sprite_batches(&commands);
    assert!(batches.is_empty());
}

#[test]
fn reregistering_a_slice_replaces_it() {
    let mut base = SpriteProgramBase::new();
    base.install_spritesheet(String::from("s1"), TextureMeta { width: 64, height: 64 });
    base.register_sprite(slice("hero", "s1", 0, 0, 32, 32));
    base.register_sprite(slice("hero", "s1", 32, 32, 16, 16));
    let commands = vec![sprite_command("hero", 0, 0)];
    let batches = base.group_sprite_batches(&commands);
    assert_eq!(batches[0].instances[0].offset, Vec2 { x: 32, y: 32 });
    assert_eq!(batches[0].instances[0].size, Vec2 { x: 16, y: 16 });
}

#[test]
fn staged_slices_register_in_order_with_later_ones_winning() {
    let mut base = SpriteProgramBase::new();
    base.install_spritesheet(String::from("s1"), TextureMeta { width: 64, height: 64 });
    let mut queue = DrawQueueInner::new();
    queue.create_sprite(
        String::from("hero"),
        String::from("s1"),
        Vec2 { x: 0, y: 0 },
        Vec2 { x: 32, y: 32 },
    );
    queue.create_sprite(
        String::from("hero"),
        String::from("s1"),
        Vec2 { x: 8, y: 8 },
        Vec2 { x: 8, y: 8 },
    );
    base.register_pending_sprites(&mut queue);
    assert!(queue.pending_sprites.is_empty());
    let commands = vec![sprite_command("hero", 0, 0)];
    let batches = base.group_sprite_batches(&commands);
    assert_eq!(batches[0].instances[0].offset, Vec2 { x: 8, y: 8 });
}

#[test]
fn installing_a_sheet_again_replaces_its_dimensions() {
    let mut base = SpriteProgramBase::new();
    base.install_spritesheet(String::from("s1"), TextureMeta { width: 64, height: 64 });
    base.install_spritesheet(String::from("s1"), TextureMeta { width: 128, height: 32 });
    assert_eq!(
        base.sheet_meta(&String::from("s1")),
        Some(TextureMeta { width: 128, height: 32 })
    );
    assert_eq!(base.sheet_meta(&String::from("s2")), None);
}

#[test]
fn decode_spritesheet_flips_the_image_vertically() {
    // A 1x2 PNG: the top pixel red, the bottom pixel blue. The decoded
    // texel buffer is flipped for upload, so the bottom row comes first.
    let mut img = image::RgbaImage::new(1, 2);
    img.put_pixel(0, 0, image::Rgba([255, 0, 0, 255]));
    img.put_pixel(0, 1, image::Rgba([0, 0, 255, 255]));
    let mut bytes: Vec<u8> = Vec::new();
    img.write_to(
        &mut std::io::Cursor::new(&mut bytes),
        image::ImageFormat::Png,
    )
    .unwrap();
    let decoded = decode_spritesheet(String::from("s1"), &bytes).unwrap();
    assert_eq!(decoded.name, "s1");
    assert_eq!(decoded.width, 1);
    assert_eq!(decoded.height, 2);
    assert_eq!(decoded.texels.len(), 8);
    assert_eq!(&decoded.texels[0..4], &[0, 0, 255, 255]);
    assert_eq!(&decoded.texels[4..8], &[255, 0, 0, 255]);
}

#[test]
fn decode_spritesheet_rejects_garbage() {
    let bytes = vec![1u8, 2, 3, 4, 5];
    assert!(decode_spritesheet(String::from("bad"), &bytes).is_none());
}
