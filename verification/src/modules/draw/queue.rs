use vstd::prelude::*;

use crate::modules::draw::{
    default_geometry, Color, DrawCommand, HorizontalAlign, ObjectGeometry, SpritesheetLoadRequest,
    SpritesheetSlice, Vec2, VerticalAlign,
};

verus! {

/// The per-frame buffer of drawing intents, plus the staging lists of
/// fire-and-forget asset requests that the renderer drains once per frame.
pub struct DrawQueueInner {
    pub queue: Vec<DrawCommand>,
    pub pending_fonts: Vec<(String, String)>,
    pub pending_spritesheets: Vec<SpritesheetLoadRequest>,
    pub pending_sprites: Vec<SpritesheetSlice>,
}

/// Opaque white, the default colour of every drawing command.
pub open spec fn white() -> Color {
    Color { r: 1000, g: 1000, b: 1000, a: 1000 }
}

/// A full turn, two pi, in fixed-point radians.
pub open spec fn full_turn() -> i32 {
    6283
}

/// An angle folded into [0, full turn): the representative of the angle
/// modulo one full turn, as arc angles are captured.
pub open spec fn wrapped_angle(v: int) -> int {
    if v >= 0 {
        v % 6283
    } else if (0 - v) % 6283 == 0 {
        0
    } else {
        6283 - ((0 - v) % 6283)
    }
}

/// Fold an angle into [0, full turn).
fn wrap_angle(v: i32) -> (r: i32)
    ensures
        r == wrapped_angle(v as int),
        0 <= r < 6283,
{
    if v >= 0 {
        v % 6283
    } else {
        let p: i64 = -(v as i64);
        let m = p % 6283;
        if m == 0 {
            0
        } else {
            (6283 - m) as i32
        }
    }
}

/// Options of an arc command; an unset field takes its documented default.
#[derive(Clone, Copy, Debug, PartialEq, Eq, Structural)]
pub struct ArcOptions {
    pub depth: Option<i32>,
    pub color: Option<Color>,
    pub radius: Option<i32>,
    pub thickness: Option<i32>,
    pub from: Option<i32>,
    pub to: Option<i32>,
    pub position: Option<Vec2>,
}

/// Options of a circle command.
#[derive(Clone, Copy, Debug, PartialEq, Eq, Structural)]
pub struct CircleOptions {
    pub depth: Option<i32>,
    pub color: Option<Color>,
    pub radius: Option<i32>,
    pub position: Option<Vec2>,
}

/// Options of a line command.
#[derive(Clone, Copy, Debug, PartialEq, Eq, Structural)]
pub struct LineOptions {
    pub depth: Option<i32>,
    pub color: Option<Color>,
    pub thickness: Option<i32>,
    pub from: Option<Vec2>,
    pub to: Option<Vec2>,
}

/// Options of a rectangle command.
#[derive(Clone, Copy, Debug, PartialEq, Eq, Structural)]
pub struct RectangleOptions {
    pub depth: Option<i32>,
    pub color: Option<Color>,
    pub width: Option<i32>,
    pub height: Option<i32>,
    pub position: Option<Vec2>,
    pub rotation: Option<i32>,
}

/// Options of a sprite command. A command without a sprite name draws
/// nothing at all.
#[derive(Clone, Debug, PartialEq, Eq)]
pub struct SpriteOptions {
    pub sprite: Option<String>,
    pub brighten: Option<Color>,
    pub darken: Option<Color>,
    pub depth: Option<i32>,
    pub desaturation: Option<i32>,
    pub origin: Option<Vec2>,
    pub position: Option<Vec2>,
    pub rotation: Option<i32>,
    pub scale: Option<Vec2>,
}

/// Options of a text command.
#[derive(Clone, Debug, PartialEq, Eq)]
pub struct TextOptions {
    pub font: Option<String>,
    pub depth: Option<i32>,
    pub color: Option<Color>,
    pub position: Option<Vec2>,
    pub size: Option<i32>,
    pub text: Option<String>,
    pub h_align: Option<HorizontalAlign>,
    pub v_align: Option<VerticalAlign>,
}

/// The arc command an option set resolves to.
pub open spec fn arc_command(o: ArcOptions) -> DrawCommand {
    DrawCommand::Arc {
        depth: o.depth.unwrap_or(1000),
        color: o.color.unwrap_or(white()),
        radius: o.radius.unwrap_or(500),
        thickness: o.thickness.unwrap_or(500),
        from: wrapped_angle(o.from.unwrap_or(0) as int) as i32,
        to: wrapped_angle(o.to.unwrap_or(full_turn()) as int) as i32,
        position: o.position.unwrap_or(Vec2 { x: 0, y: 0 }),
    }
}

/// The circle command an option set resolves to.
pub open spec fn circle_command(o: CircleOptions) -> DrawCommand {
    DrawCommand::Circle {
        depth: o.depth.unwrap_or(1000),
        color: o.color.unwrap_or(white()),
        radius: o.radius.unwrap_or(1000),
        position: o.position.unwrap_or(Vec2 { x: 0, y: 0 }),
    }
}

/// The line command an option set resolves to.
pub open spec fn line_command(o: LineOptions) -> DrawCommand {
    DrawCommand::Line {
        depth: o.depth.unwrap_or(1000),
        color: o.color.unwrap_or(white()),
        thickness: o.thickness.unwrap_or(1000),
        from: o.from.unwrap_or(Vec2 { x: 0, y: 0 }),
        to: o.to.unwrap_or(Vec2 { x: 0, y: 0 }),
    }
}

/// The rectangle command an option set resolves to.
pub open spec fn rectangle_command(o: RectangleOptions) -> DrawCommand {
    DrawCommand::Rectangle {
        depth: o.depth.unwrap_or(1000),
        color: o.color.unwrap_or(white()),
        width: o.width.unwrap_or(1000),
        height: o.height.unwrap_or(1000),
        position: o.position.unwrap_or(Vec2 { x: 0, y: 0 }),
        rotation: o.rotation.unwrap_or(0),
    }
}

/// The transform bundle a sprite option set resolves to.
pub open spec fn sprite_geometry(o: SpriteOptions) -> ObjectGeometry {
    ObjectGeometry {
        brighten: o.brighten.unwrap_or(default_geometry().brighten),
        darken: o.darken.unwrap_or(default_geometry().darken),
        depth: o.depth.unwrap_or(default_geometry().depth),
        desaturation: o.desaturation.unwrap_or(default_geometry().desaturation),
        origin: o.origin.unwrap_or(default_geometry().origin),
        position: o.position.unwrap_or(default_geometry().position),
        rotation: o.rotation.unwrap_or(default_geometry().rotation),
        scale: o.scale.unwrap_or(default_geometry().scale),
    }
}

/// Whether a queued command is exactly the text command an option set
/// resolves to: every unset option replaced by its documented default, and
/// an unset text by the empty string.
pub open spec fn text_command_matches(c: DrawCommand, o: TextOptions) -> bool {
    &&& c matches DrawCommand::Text { font, depth, color, position, size, text, h_align, v_align }
    &&& font == o.font
    &&& depth == o.depth.unwrap_or(1000)
    &&& color == o.color.unwrap_or(white())
    &&& position == o.position.unwrap_or(Vec2 { x: 0, y: 0 })
    &&& size == o.size.unwrap_or(1000)
    &&& text@ == match o.text {
        Some(t) => t@,
        None => Seq::<char>::empty(),
    }
    &&& h_align == o.h_align.unwrap_or(HorizontalAlign::Center)
    &&& v_align == o.v_align.unwrap_or(VerticalAlign::Center)
}

impl DrawQueueInner {
    /// An empty draw queue with empty staging lists.
    pub fn new() -> (r: DrawQueueInner)
        ensures
            r.queue@ == Seq::<DrawCommand>::empty(),
            r.pending_fonts@ == Seq::<(String, String)>::empty(),
            r.pending_spritesheets@ == Seq::<SpritesheetLoadRequest>::empty(),
            r.pending_sprites@ == Seq::<SpritesheetSlice>::empty(),
    {
        DrawQueueInner {
            queue: Vec::new(),
            pending_fonts: Vec::new(),
            pending_spritesheets: Vec::new(),
            pending_sprites: Vec::new(),
        }
    }

    /// Append one drawing command to this frame's queue.
    pub fn draw(&mut self, command: DrawCommand)
        ensures
            final(self).queue@ == old(self).queue@.push(command),
            final(self).pending_fonts@ == old(self).pending_fonts@,
            final(self).pending_spritesheets@ == old(self).pending_spritesheets@,
            final(self).pending_sprites@ == old(self).pending_sprites@,
    {
        self.queue.push(command);
    }

    /// Drop every buffered drawing command, leaving the asset staging lists
    /// untouched. Called at the start of each frame's pre-update, so the
    /// renderer always sees exactly the commands of the previous cycle.
    pub fn clear_commands(&mut self)
        ensures
            final(self).queue@ == Seq::<DrawCommand>::empty(),
            final(self).pending_fonts@ == old(self).pending_fonts@,
            final(self).pending_spritesheets@ == old(self).pending_spritesheets@,
            final(self).pending_sprites@ == old(self).pending_sprites@,
    {
        self.queue.clear();
    }

    /// Stage a font file to be streamed in under `name`.
    pub fn load_font(&mut self, name: String, path: String)
        ensures
            final(self).pending_fonts@ == old(self).pending_fonts@.push((name, path)),
            final(self).queue@ == old(self).queue@,
            final(self).pending_spritesheets@ == old(self).pending_spritesheets@,
            final(self).pending_sprites@ == old(self).pending_sprites@,
    {
        self.pending_fonts.push((name, path));
    }

    /// Stage a spritesheet image to be streamed in under `name`.
    pub fn load_spritesheet(&mut self, name: String, path: String)
        ensures
            final(self).pending_spritesheets@ == old(self).pending_spritesheets@.push(
                (SpritesheetLoadRequest { name, path }),
            ),
            final(self).queue@ == old(self).queue@,
            final(self).pending_fonts@ == old(self).pending_fonts@,
            final(self).pending_sprites@ == old(self).pending_sprites@,
    {
        self.pending_spritesheets.push(SpritesheetLoadRequest { name, path });
    }

    /// Stage the registration of a named slice of a spritesheet.
    pub fn create_sprite(&mut self, name: String, spritesheet: String, offset: Vec2, size: Vec2)
        ensures
            final(self).pending_sprites@ == old(self).pending_sprites@.push(
                (SpritesheetSlice { name, spritesheet, offset, size }),
            ),
            final(self).queue@ == old(self).queue@,
            final(self).pending_fonts@ == old(self).pending_fonts@,
            final(self).pending_spritesheets@ == old(self).pending_spritesheets@,
    {
        self.pending_sprites.push(SpritesheetSlice { name, spritesheet, offset, size });
    }

    /// Hand the staged spritesheet load requests to the streaming worker,
    /// leaving the staging list empty.
    pub fn take_pending_spritesheets(&mut self) -> (r: Vec<SpritesheetLoadRequest>)
        ensures
            r@ == old(self).pending_spritesheets@,
            final(self).pending_spritesheets@ == Seq::<SpritesheetLoadRequest>::empty(),
            final(self).queue@ == old(self).queue@,
            final(self).pending_fonts@ == old(self).pending_fonts@,
            final(self).pending_sprites@ == old(self).pending_sprites@,
    {
        let mut taken: Vec<SpritesheetLoadRequest> = Vec::new();
        std::mem::swap(&mut self.pending_spritesheets, &mut taken);
        taken
    }

    /// Hand the staged font load requests to the streaming worker, leaving
    /// the staging list empty.
    pub fn take_pending_fonts(&mut self) -> (r: Vec<(String, String)>)
        ensures
            r@ == old(self).pending_fonts@,
            final(self).pending_fonts@ == Seq::<(String, String)>::empty(),
            final(self).queue@ == old(self).queue@,
            final(self).pending_spritesheets@ == old(self).pending_spritesheets@,
            final(self).pending_sprites@ == old(self).pending_sprites@,
    {
        let mut taken: Vec<(String, String)> = Vec::new();
        std::mem::swap(&mut self.pending_fonts, &mut taken);
        taken
    }

    /// Hand the staged slice registrations to the sprite table, leaving the
    /// staging list empty.
    pub fn take_pending_sprites(&mut self) -> (r: Vec<SpritesheetSlice>)
        ensures
            r@ == old(self).pending_sprites@,
            final(self).pending_sprites@ == Seq::<SpritesheetSlice>::empty(),
            final(self).queue@ == old(self).queue@,
            final(self).pending_fonts@ == old(self).pending_fonts@,
            final(self).pending_spritesheets@ == old(self).pending_spritesheets@,
    {
        let mut taken: Vec<SpritesheetSlice> = Vec::new();
        std::mem::swap(&mut self.pending_sprites, &mut taken);
        taken
    }

    /// Queue an arc with the documented defaults for unset options.
    pub fn draw_arc(&mut self, o: ArcOptions)
        ensures
            final(self).queue@ == old(self).queue@.push(arc_command(o)),
            final(self).pending_fonts@ == old(self).pending_fonts@,
            final(self).pending_spritesheets@ == old(self).pending_spritesheets@,
            final(self).pending_sprites@ == old(self).pending_sprites@,
    {
        let command = DrawCommand::Arc {
            depth: o.depth.unwrap_or(1000),
            color: o.color.unwrap_or(Color { r: 1000, g: 1000, b: 1000, a: 1000 }),
            radius: o.radius.unwrap_or(500),
            thickness: o.thickness.unwrap_or(500),
            from: wrap_angle(o.from.unwrap_or(0)),
            to: wrap_angle(o.to.unwrap_or(6283)),
            position: o.position.unwrap_or(Vec2 { x: 0, y: 0 }),
        };
        self.draw(command);
    }

    /// Queue a circle with the documented defaults for unset options.
    pub fn draw_circle(&mut self, o: CircleOptions)
        ensures
            final(self).queue@ == old(self).queue@.push(circle_command(o)),
            final(self).pending_fonts@ == old(self).pending_fonts@,
            final(self).pending_spritesheets@ == old(self).pending_spritesheets@,
            final(self).pending_sprites@ == old(self).pending_sprites@,
    {
        let command = DrawCommand::Circle {
            depth: o.depth.unwrap_or(1000),
            color: o.color.unwrap_or(Color { r: 1000, g: 1000, b: 1000, a: 1000 }),
            radius: o.radius.unwrap_or(1000),
            position: o.position.unwrap_or(Vec2 { x: 0, y: 0 }),
        };
        self.draw(command);
    }

    /// Queue a line with the documented defaults for unset options.
    pub fn draw_line(&mut self, o: LineOptions)
        ensures
            final(self).queue@ == old(self).queue@.push(line_command(o)),
            final(self).pending_fonts@ == old(self).pending_fonts@,
            final(self).pending_spritesheets@ == old(self).pending_spritesheets@,
            final(self).pending_sprites@ == old(self).pending_sprites@,
    {
        let command = DrawCommand::Line {
            depth: o.depth.unwrap_or(1000),
            color: o.color.unwrap_or(Color { r: 1000, g: 1000, b: 1000, a: 1000 }),
            thickness: o.thickness.unwrap_or(1000),
            from: o.from.unwrap_or(Vec2 { x: 0, y: 0 }),
            to: o.to.unwrap_or(Vec2 { x: 0, y: 0 }),
        };
        self.draw(command);
    }

    /// Queue a rectangle with the documented defaults for unset options.
    pub fn draw_rectangle(&mut self, o: RectangleOptions)
        ensures
            final(self).queue@ == old(self).queue@.push(rectangle_command(o)),
            final(self).pending_fonts@ == old(self).pending_fonts@,
            final(self).pending_spritesheets@ == old(self).pending_spritesheets@,
            final(self).pending_sprites@ == old(self).pending_sprites@,
    {
        let command = DrawCommand::Rectangle {
            depth: o.depth.unwrap_or(1000),
            color: o.color.unwrap_or(Color { r: 1000, g: 1000, b: 1000, a: 1000 }),
            width: o.width.unwrap_or(1000),
            height: o.height.unwrap_or(1000),
            position: o.position.unwrap_or(Vec2 { x: 0, y: 0 }),
            rotation: o.rotation.unwrap_or(0),
        };
        self.draw(command);
    }

    /// Queue a sprite with the documented defaults for unset options. An
    /// option set without a sprite name queues nothing.
    pub fn draw_sprite(&mut self, o: SpriteOptions)
        ensures
            match o.sprite {
                Some(name) => final(self).queue@ == old(self).queue@.push(
                    (DrawCommand::Sprite { sprite: name, geometry: sprite_geometry(o) }),
                ),
                None => final(self).queue@ == old(self).queue@,
            },
            final(self).pending_fonts@ == old(self).pending_fonts@,
            final(self).pending_spritesheets@ == old(self).pending_spritesheets@,
            final(self).pending_sprites@ == old(self).pending_sprites@,
    {
        let SpriteOptions {
            sprite,
            brighten,
            darken,
            depth,
            desaturation,
            origin,
            position,
            rotation,
            scale,
        } = o;
        match sprite {
            Some(name) => {
                let defaults = ObjectGeometry::default();
                let geometry = ObjectGeometry {
                    brighten: brighten.unwrap_or(defaults.brighten),
                    darken: darken.unwrap_or(defaults.darken),
                    depth: depth.unwrap_or(defaults.depth),
                    desaturation: desaturation.unwrap_or(defaults.desaturation),
                    origin: origin.unwrap_or(defaults.origin),
                    position: position.unwrap_or(defaults.position),
                    rotation: rotation.unwrap_or(defaults.rotation),
                    scale: scale.unwrap_or(defaults.scale),
                };
                self.draw(DrawCommand::Sprite { sprite: name, geometry });
            }
            None => {}
        }
    }

    /// Queue a text command with the documented defaults for unset options.
    pub fn draw_text(&mut self, o: TextOptions)
        ensures
            final(self).queue@ == old(self).queue@.push(final(self).queue@.last()),
            text_command_matches(final(self).queue@.last(), o),
            final(self).pending_fonts@ == old(self).pending_fonts@,
            final(self).pending_spritesheets@ == old(self).pending_spritesheets@,
            final(self).pending_sprites@ == old(self).pending_sprites@,
    {
        let TextOptions { font, depth, color, position, size, text, h_align, v_align } = o;
        let resolved_text = match text {
            Some(t) => t,
            None => String::new(),
        };
        let command = DrawCommand::Text {
            font,
            depth: depth.unwrap_or(1000),
            color: color.unwrap_or(Color { r: 1000, g: 1000, b: 1000, a: 1000 }),
            position: position.unwrap_or(Vec2 { x: 0, y: 0 }),
            size: size.unwrap_or(1000),
            text: resolved_text,
            h_align: h_align.unwrap_or(HorizontalAlign::Center),
            v_align: v_align.unwrap_or(VerticalAlign::Center),
        };
        self.draw(command);
    }
}

/// The queue commands reached by issuing `cmds` in order on top of `q`.
pub open spec fn issued_on(q: Seq<DrawCommand>, cmds: Seq<DrawCommand>) -> Seq<DrawCommand>
    decreases cmds.len(),
{
    if cmds.len() == 0 {
        q
    } else {
        issued_on(q.push(cmds[0]), cmds.drop_first())
    }
}

/// After a clear, issuing a sequence of commands one by one leaves the
/// queue holding exactly that sequence, in order: the queue holds exactly
/// the commands issued since the last clear, and a frame that issues no
/// command leaves the queue empty.
pub proof fn lemma_queue_exactly_issued(cmds: Seq<DrawCommand>)
    ensures
        issued_on(Seq::<DrawCommand>::empty(), cmds) == cmds,
{
    lemma_issued_on_appends(Seq::<DrawCommand>::empty(), cmds);
    assert(Seq::<DrawCommand>::empty() + cmds =~= cmds);
}

proof fn lemma_issued_on_appends(q: Seq<DrawCommand>, cmds: Seq<DrawCommand>)
    ensures
        issued_on(q, cmds) == q + cmds,
    decreases cmds.len(),
{
    if cmds.len() == 0 {
        assert(q + cmds =~= q);
    } else {
        lemma_issued_on_appends(q.push(cmds[0]), cmds.drop_first());
        assert(q.push(cmds[0]) + cmds.drop_first() =~= q + cmds);
    }
}

} // verus!
