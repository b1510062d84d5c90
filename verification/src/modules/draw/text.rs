use vstd::prelude::*;

use crate::modules::draw::primitive::Vec2Wide;
use crate::modules::draw::sprite::DrawInstance;
use crate::modules::draw::{
    default_geometry, Color, DrawCommand, HorizontalAlign, ObjectGeometry, Vec2, VerticalAlign,
};

verus! {

/// One text layout request handed to the text layout engine: the snapshot
/// of a text command with its font resolved and its screen position in the
/// layout engine's downward-growing coordinates.
#[derive(Clone, Debug, PartialEq, Eq)]
pub struct TextSection {
    pub color: Color,
    pub h_align: HorizontalAlign,
    pub v_align: VerticalAlign,
    pub size: i32,
    pub position: Vec2Wide,
    pub text: String,
    pub depth: i32,
    pub font_id: u64,
}

/// What the text layout engine reports after rasterizing the queued
/// sections into its cache texture.
#[derive(Clone, Copy, Debug, PartialEq, Eq, Structural)]
pub enum RasterizeOutcome {
    /// Fresh glyph quads were produced; the text buffer must be redrawn.
    Drawn,
    /// Nothing changed; the text buffer of the previous frame is valid.
    Redrawn,
    /// The cache texture is undersized; the engine suggests new dimensions.
    TooSmall { width: u32, height: u32 },
}

/// What the renderer must do after one rasterize step.
#[derive(Clone, Copy, Debug, PartialEq, Eq, Structural)]
pub enum TextAction {
    /// Render the fresh glyph quads into the text buffer.
    RenderFresh,
    /// Keep the text buffer as it stands.
    KeepPrevious,
    /// Grow the cache texture to the given size and rasterize once more.
    ResizeAndRetry { width: u32, height: u32 },
}

/// The text state of the renderer: the registered fonts and the dimensions
/// of the glyph cache texture. The cache texture itself and the layout
/// engine live with the rendering backend.
pub struct TextProgramBase {
    pub fonts: Vec<(String, u64)>,
    pub cache_width: u32,
    pub cache_height: u32,
}

/// The font identifier a name resolves to: the first registered entry
/// carrying the name, or the default font 0.
pub open spec fn font_id_of(fonts: Seq<(String, u64)>, name: Seq<char>) -> u64
    decreases fonts.len(),
{
    if fonts.len() == 0 {
        0u64
    } else if fonts[0].0@ == name {
        fonts[0].1
    } else {
        font_id_of(fonts.drop_first(), name)
    }
}

/// The font of a text command: the resolved identifier of its font name,
/// or the default font 0 when no font was named.
pub open spec fn command_font(fonts: Seq<(String, u64)>, font: Option<String>) -> u64 {
    match font {
        Some(f) => font_id_of(fonts, f@),
        None => 0u64,
    }
}

/// The sections that the first `i` queued commands contribute, in queue
/// order: one section per text command, nothing for any other command.
pub open spec fn sections_upto(
    fonts: Seq<(String, u64)>,
    commands: Seq<DrawCommand>,
    i: int,
) -> Seq<TextSection>
    decreases i,
{
    if i <= 0 {
        Seq::empty()
    } else {
        sections_upto(fonts, commands, i - 1) + command_section(fonts, commands[i - 1])
    }
}

/// The contribution of one command: a text command becomes one section
/// with its font resolved and its vertical position negated, every other
/// command contributes nothing.
pub open spec fn command_section(fonts: Seq<(String, u64)>, command: DrawCommand) -> Seq<
    TextSection,
> {
    match command {
        DrawCommand::Text { font, depth, color, position, size, text, h_align, v_align } => seq![
            TextSection {
                color,
                h_align,
                v_align,
                size,
                position: Vec2Wide { x: position.x as i64, y: (0 - position.y) as i64 },
                text,
                depth,
                font_id: command_font(fonts, font),
            },
        ],
        _ => Seq::empty(),
    }
}

proof fn lemma_font_id_first(fonts: Seq<(String, u64)>, name: Seq<char>, i: int)
    requires
        0 <= i < fonts.len(),
        fonts[i].0@ == name,
        forall|j: int| 0 <= j < i ==> fonts[j].0@ != name,
    ensures
        font_id_of(fonts, name) == fonts[i].1,
    decreases i,
{
    if i > 0 {
        lemma_font_id_first(fonts.drop_first(), name, i - 1);
    }
}

proof fn lemma_font_id_absent(fonts: Seq<(String, u64)>, name: Seq<char>)
    requires
        forall|j: int| 0 <= j < fonts.len() ==> fonts[j].0@ != name,
    ensures
        font_id_of(fonts, name) == 0u64,
    decreases fonts.len(),
{
    if fonts.len() > 0 {
        lemma_font_id_absent(fonts.drop_first(), name);
    }
}

impl TextProgramBase {
    /// A fresh text state: no font registered, and a glyph cache texture of
    /// the window's dimensions.
    pub fn new(width: u32, height: u32) -> (r: TextProgramBase)
        ensures
            r.fonts@ == Seq::<(String, u64)>::empty(),
            r.cache_width == width,
            r.cache_height == height,
    {
        TextProgramBase { fonts: Vec::new(), cache_width: width, cache_height: height }
    }

    /// Register a streamed-in font under a name; the newest registration of
    /// a name wins, every other name keeps its font.
    pub fn register_font(&mut self, name: String, id: u64)
        ensures
            font_id_of(final(self).fonts@, name@) == id,
            forall|n: Seq<char>|
                n != name@ ==> font_id_of(final(self).fonts@, n) == font_id_of(
                    old(self).fonts@,
                    n,
                ),
            final(self).cache_width == old(self).cache_width,
            final(self).cache_height == old(self).cache_height,
    {
        proof {
            assert(self.fonts@.insert(0, (name, id)).drop_first() =~= self.fonts@);
            assert(self.fonts@.insert(0, (name, id))[0] == (name, id));
        }
        self.fonts.insert(0, (name, id));
    }

    /// The font identifier under which text naming `name` is laid out.
    pub fn font_id(&self, name: &String) -> (r: u64)
        ensures
            r == font_id_of(self.fonts@, name@),
    {
        let n = self.fonts.len();
        for i in 0..n
            invariant
                n == self.fonts@.len(),
                forall|j: int| 0 <= j < i ==> self.fonts@[j].0@ != name@,
        {
            if self.fonts[i].0 == *name {
                proof {
                    lemma_font_id_first(self.fonts@, name@, i as int);
                }
                return self.fonts[i].1;
            }
        }
        proof {
            lemma_font_id_absent(self.fonts@, name@);
        }
        0
    }

    /// Queue this frame's text commands into layout sections, in queue
    /// order, resolving each command's font.
    pub fn collect_sections(&self, commands: &Vec<DrawCommand>) -> (r: Vec<TextSection>)
        ensures
            r@ == sections_upto(self.fonts@, commands@, commands@.len() as int),
    {
        let mut sections: Vec<TextSection> = Vec::new();
        let n = commands.len();
        for i in 0..n
            invariant
                n == commands@.len(),
                sections@ == sections_upto(self.fonts@, commands@, i as int),
        {
            match &commands[i] {
                DrawCommand::Text { font, depth, color, position, size, text, h_align, v_align } => {
                    let font_id = match font {
                        Some(f) => self.font_id(f),
                        None => 0,
                    };
                    sections.push(
                        TextSection {
                            color: *color,
                            h_align: *h_align,
                            v_align: *v_align,
                            size: *size,
                            position: Vec2Wide {
                                x: position.x as i64,
                                y: -(position.y as i64),
                            },
                            text: text.clone(),
                            depth: *depth,
                            font_id,
                        },
                    );
                }
                _ => {}
            }
            proof {
                assert(sections@ =~= sections_upto(self.fonts@, commands@, i + 1));
            }
        }
        sections
    }

    /// Whether the glyph cache texture still carries its 32 texels of
    /// slack over the layout engine's reported dimensions; when it does
    /// not, grow it to the padded size and report that the backend must
    /// recreate the texture.
    pub fn ensure_cache_size(&mut self, brush_width: u32, brush_height: u32) -> (rebuilt: bool)
        requires
            brush_width + 32 <= u32::MAX,
            brush_height + 32 <= u32::MAX,
        ensures
            final(self).cache_width == brush_width + 32,
            final(self).cache_height == brush_height + 32,
            rebuilt == !(old(self).cache_width == brush_width + 32 && old(self).cache_height
                == brush_height + 32),
            final(self).fonts@ == old(self).fonts@,
    {
        if self.cache_width == brush_width + 32 && self.cache_height == brush_height + 32 {
            false
        } else {
            self.cache_width = brush_width + 32;
            self.cache_height = brush_height + 32;
            true
        }
    }
}

/// What the renderer does after a rasterize step: fresh quads are rendered,
/// a valid previous buffer is kept, and an undersized cache is grown and
/// retried exactly once — a second undersize report in the same frame keeps
/// the previous buffer instead of retrying forever.
pub fn rasterize_action(outcome: &RasterizeOutcome, already_retried: bool) -> (r: TextAction)
    ensures
        match *outcome {
            RasterizeOutcome::Drawn => r == TextAction::RenderFresh,
            RasterizeOutcome::Redrawn => r == TextAction::KeepPrevious,
            RasterizeOutcome::TooSmall { width, height } => if already_retried {
                r == TextAction::KeepPrevious
            } else {
                r == (TextAction::ResizeAndRetry { width, height })
            },
        },
{
    match outcome {
        RasterizeOutcome::Drawn => TextAction::RenderFresh,
        RasterizeOutcome::Redrawn => TextAction::KeepPrevious,
        RasterizeOutcome::TooSmall { width, height } => if already_retried {
            TextAction::KeepPrevious
        } else {
            TextAction::ResizeAndRetry { width: *width, height: *height }
        },
    }
}

/// One glyph quad flipped into the sprite path's upward-growing texture
/// coordinates: the quad's vertical offset is mirrored within the cache
/// texture, its size and transform are kept.
pub fn glyph_instance(
    offset: Vec2,
    size: Vec2,
    geometry: ObjectGeometry,
    cache_height_units: i32,
) -> (r: DrawInstance)
    requires
        0 <= offset.y,
        0 <= size.y,
        offset.y + size.y <= cache_height_units,
    ensures
        r.offset.x == offset.x,
        r.offset.y == cache_height_units - (offset.y + size.y),
        r.size == size,
        r.geometry == geometry,
{
    DrawInstance {
        offset: Vec2 { x: offset.x, y: cache_height_units - (offset.y + size.y) },
        size,
        geometry,
    }
}

/// The single composite instance that draws the finished text buffer over
/// the scene: the whole buffer, composited last at a depth above every
/// scene depth, mirrored vertically.
pub fn overlay_instance(buffer_width_units: i32, buffer_height_units: i32) -> (r: DrawInstance)
    ensures
        r.offset == (Vec2 { x: 0, y: 0 }),
        r.size == (Vec2 { x: buffer_width_units, y: buffer_height_units }),
        r.geometry == (ObjectGeometry {
            depth: 100_000,
            scale: Vec2 { x: 1000, y: (-1000) as i32 },
            ..default_geometry()
        }),
{
    let defaults = ObjectGeometry::default();
    DrawInstance {
        offset: Vec2 { x: 0, y: 0 },
        size: Vec2 { x: buffer_width_units, y: buffer_height_units },
        geometry: ObjectGeometry {
            depth: 100_000,
            scale: Vec2 { x: 1000, y: -1000 },
            ..defaults
        },
    }
}

} // verus!
