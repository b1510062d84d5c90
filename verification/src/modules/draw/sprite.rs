use vstd::prelude::*;

use crate::modules::draw::queue::DrawQueueInner;
use crate::modules::draw::{DrawCommand, ObjectGeometry, SpritesheetSlice, Vec2};

verus! {

/// Dimensions of a spritesheet texture that has finished streaming in.
#[derive(Clone, Copy, Debug, PartialEq, Eq, Structural)]
pub struct TextureMeta {
    pub width: u32,
    pub height: u32,
}

/// One sprite or glyph instance of a batched draw: the sub-rectangle of the
/// backing texture and the transform bundle to draw it under.
#[derive(Clone, Copy, Debug, PartialEq, Eq, Structural)]
pub struct DrawInstance {
    pub offset: Vec2,
    pub size: Vec2,
    pub geometry: ObjectGeometry,
}

/// One batched instanced draw: every instance shares the named backing
/// spritesheet texture.
#[derive(Clone, Debug, PartialEq, Eq)]
pub struct SpriteBatch {
    pub spritesheet: String,
    pub instances: Vec<DrawInstance>,
}

/// A spritesheet image decoded to raw RGBA texels, ready for upload.
#[derive(Clone, Debug, PartialEq, Eq)]
pub struct LoadedTexture {
    pub name: String,
    pub width: u32,
    pub height: u32,
    pub texels: Vec<u8>,
}

/// The sprite tables of the renderer: the loaded spritesheet textures (by
/// name, with their dimensions) and the registered named slices.
pub struct SpriteProgramBase {
    pub spritesheets: Vec<(String, TextureMeta)>,
    pub sprites: Vec<SpritesheetSlice>,
}

/// The registered slice a sprite name resolves to: the first entry carrying
/// the name, or nothing.
pub open spec fn slice_lookup(slices: Seq<SpritesheetSlice>, name: Seq<char>) -> Option<
    SpritesheetSlice,
>
    decreases slices.len(),
{
    if slices.len() == 0 {
        None
    } else if slices[0].name@ == name {
        Some(slices[0])
    } else {
        slice_lookup(slices.drop_first(), name)
    }
}

/// The texture dimensions a spritesheet name resolves to: the first entry
/// carrying the name, or nothing when the sheet has not streamed in.
pub open spec fn sheet_lookup(sheets: Seq<(String, TextureMeta)>, name: Seq<char>) -> Option<
    TextureMeta,
>
    decreases sheets.len(),
{
    if sheets.len() == 0 {
        None
    } else if sheets[0].0@ == name {
        Some(sheets[0].1)
    } else {
        sheet_lookup(sheets.drop_first(), name)
    }
}

/// The instances that the first `i` queued commands contribute to the batch
/// of the spritesheet named `sheet`: one instance per sprite command whose
/// name resolves to a slice of that sheet, in queue order. A sprite command
/// whose name resolves to no registered slice contributes nothing.
pub open spec fn instances_upto(
    slices: Seq<SpritesheetSlice>,
    commands: Seq<DrawCommand>,
    sheet: Seq<char>,
    i: int,
) -> Seq<DrawInstance>
    decreases i,
{
    if i <= 0 {
        Seq::empty()
    } else {
        instances_upto(slices, commands, sheet, i - 1) + command_instance(
            slices,
            commands[i - 1],
            sheet,
        )
    }
}

/// The contribution of one command to the batch of `sheet`: empty unless it
/// is a sprite command resolving to a registered slice of that sheet.
pub open spec fn command_instance(
    slices: Seq<SpritesheetSlice>,
    command: DrawCommand,
    sheet: Seq<char>,
) -> Seq<DrawInstance> {
    match command {
        DrawCommand::Sprite { sprite, geometry } => match slice_lookup(slices, sprite@) {
            Some(slice) => if slice.spritesheet@ == sheet {
                seq![DrawInstance { offset: slice.offset, size: slice.size, geometry }]
            } else {
                Seq::empty()
            },
            None => Seq::empty(),
        },
        _ => Seq::empty(),
    }
}

/// The whole batch of the spritesheet named `sheet` for a command queue.
pub open spec fn instances_for_sheet(
    slices: Seq<SpritesheetSlice>,
    commands: Seq<DrawCommand>,
    sheet: Seq<char>,
) -> Seq<DrawInstance> {
    instances_upto(slices, commands, sheet, commands.len() as int)
}

/// The names of the loaded spritesheets, in registration order, whose
/// batches are non-empty for a command queue; these are exactly the batched
/// draw calls a frame issues. One batch is emitted per table entry;
/// `install_spritesheet` replaces the entry of a name it has seen before,
/// so an installed table holds each name once.
pub open spec fn batch_names_upto(
    sheets: Seq<(String, TextureMeta)>,
    slices: Seq<SpritesheetSlice>,
    commands: Seq<DrawCommand>,
    j: int,
) -> Seq<Seq<char>>
    decreases j,
{
    if j <= 0 {
        Seq::empty()
    } else {
        batch_names_upto(sheets, slices, commands, j - 1) + if instances_for_sheet(
            slices,
            commands,
            sheets[j - 1].0@,
        ).len() > 0 {
            seq![sheets[j - 1].0@]
        } else {
            Seq::<Seq<char>>::empty()
        }
    }
}

proof fn lemma_slice_lookup_first(slices: Seq<SpritesheetSlice>, name: Seq<char>, i: int)
    requires
        0 <= i < slices.len(),
        slices[i].name@ == name,
        forall|j: int| 0 <= j < i ==> slices[j].name@ != name,
    ensures
        slice_lookup(slices, name) == Some(slices[i]),
    decreases i,
{
    if i > 0 {
        lemma_slice_lookup_first(slices.drop_first(), name, i - 1);
    }
}

proof fn lemma_slice_lookup_absent(slices: Seq<SpritesheetSlice>, name: Seq<char>)
    requires
        forall|j: int| 0 <= j < slices.len() ==> slices[j].name@ != name,
    ensures
        slice_lookup(slices, name) is None,
    decreases slices.len(),
{
    if slices.len() > 0 {
        lemma_slice_lookup_absent(slices.drop_first(), name);
    }
}

proof fn lemma_slice_lookup_update(
    slices: Seq<SpritesheetSlice>,
    i: int,
    slice: SpritesheetSlice,
    name: Seq<char>,
)
    requires
        0 <= i < slices.len(),
        slices[i].name@ == slice.name@,
        forall|j: int| 0 <= j < i ==> slices[j].name@ != slice.name@,
    ensures
        name == slice.name@ ==> slice_lookup(slices.update(i, slice), name) == Some(slice),
        name != slice.name@ ==> slice_lookup(slices.update(i, slice), name) == slice_lookup(
            slices,
            name,
        ),
    decreases i,
{
    let updated = slices.update(i, slice);
    if i == 0 {
        if name != slice.name@ && updated[0].name@ != name {
            assert(updated.drop_first() == slices.drop_first());
        }
    } else {
        assert(updated.drop_first() == slices.drop_first().update(i - 1, slice));
        lemma_slice_lookup_update(slices.drop_first(), i - 1, slice, name);
    }
}

proof fn lemma_slice_lookup_push(
    slices: Seq<SpritesheetSlice>,
    slice: SpritesheetSlice,
    name: Seq<char>,
)
    requires
        forall|j: int| 0 <= j < slices.len() ==> slices[j].name@ != slice.name@,
    ensures
        name == slice.name@ ==> slice_lookup(slices.push(slice), name) == Some(slice),
        name != slice.name@ ==> slice_lookup(slices.push(slice), name) == slice_lookup(
            slices,
            name,
        ),
    decreases slices.len(),
{
    if slices.len() == 0 {
        assert(slices.push(slice)[0] == slice);
        if name != slice.name@ {
            assert(slice_lookup(slices.push(slice), name) == slice_lookup(
                slices.push(slice).drop_first(),
                name,
            ));
        }
    } else {
        assert(slices.push(slice).drop_first() == slices.drop_first().push(slice));
        lemma_slice_lookup_push(slices.drop_first(), slice, name);
    }
}

proof fn lemma_sheet_lookup_first(sheets: Seq<(String, TextureMeta)>, name: Seq<char>, i: int)
    requires
        0 <= i < sheets.len(),
        sheets[i].0@ == name,
        forall|j: int| 0 <= j < i ==> sheets[j].0@ != name,
    ensures
        sheet_lookup(sheets, name) == Some(sheets[i].1),
    decreases i,
{
    if i > 0 {
        lemma_sheet_lookup_first(sheets.drop_first(), name, i - 1);
    }
}

proof fn lemma_sheet_lookup_absent(sheets: Seq<(String, TextureMeta)>, name: Seq<char>)
    requires
        forall|j: int| 0 <= j < sheets.len() ==> sheets[j].0@ != name,
    ensures
        sheet_lookup(sheets, name) is None,
    decreases sheets.len(),
{
    if sheets.len() > 0 {
        lemma_sheet_lookup_absent(sheets.drop_first(), name);
    }
}

proof fn lemma_sheet_lookup_update(
    sheets: Seq<(String, TextureMeta)>,
    i: int,
    entry: (String, TextureMeta),
    name: Seq<char>,
)
    requires
        0 <= i < sheets.len(),
        sheets[i].0@ == entry.0@,
        forall|j: int| 0 <= j < i ==> sheets[j].0@ != entry.0@,
    ensures
        name == entry.0@ ==> sheet_lookup(sheets.update(i, entry), name) == Some(entry.1),
        name != entry.0@ ==> sheet_lookup(sheets.update(i, entry), name) == sheet_lookup(
            sheets,
            name,
        ),
    decreases i,
{
    let updated = sheets.update(i, entry);
    if i == 0 {
        if name != entry.0@ && updated[0].0@ != name {
            assert(updated.drop_first() == sheets.drop_first());
        }
    } else {
        assert(updated.drop_first() == sheets.drop_first().update(i - 1, entry));
        lemma_sheet_lookup_update(sheets.drop_first(), i - 1, entry, name);
    }
}

proof fn lemma_sheet_lookup_push(
    sheets: Seq<(String, TextureMeta)>,
    entry: (String, TextureMeta),
    name: Seq<char>,
)
    requires
        forall|j: int| 0 <= j < sheets.len() ==> sheets[j].0@ != entry.0@,
    ensures
        name == entry.0@ ==> sheet_lookup(sheets.push(entry), name) == Some(entry.1),
        name != entry.0@ ==> sheet_lookup(sheets.push(entry), name) == sheet_lookup(sheets, name),
    decreases sheets.len(),
{
    if sheets.len() == 0 {
        assert(sheets.push(entry)[0] == entry);
        if name != entry.0@ {
            assert(sheet_lookup(sheets.push(entry), name) == sheet_lookup(
                sheets.push(entry).drop_first(),
                name,
            ));
        }
    } else {
        assert(sheets.push(entry).drop_first() == sheets.drop_first().push(entry));
        lemma_sheet_lookup_push(sheets.drop_first(), entry, name);
    }
}

impl SpriteProgramBase {
    /// Empty sprite tables: no texture loaded, no slice registered.
    pub fn new() -> (r: SpriteProgramBase)
        ensures
            r.spritesheets@ == Seq::<(String, TextureMeta)>::empty(),
            r.sprites@ == Seq::<SpritesheetSlice>::empty(),
    {
        SpriteProgramBase { spritesheets: Vec::new(), sprites: Vec::new() }
    }

    fn find_slice(&self, name: &String) -> (r: Option<usize>)
        ensures
            match r {
                Some(i) => i < self.sprites@.len() && self.sprites@[i as int].name@ == name@
                    && forall|j: int| 0 <= j < i ==> self.sprites@[j].name@ != name@,
                None => forall|j: int|
                    0 <= j < self.sprites@.len() ==> self.sprites@[j].name@ != name@,
            },
    {
        let n = self.sprites.len();
        for i in 0..n
            invariant
                n == self.sprites@.len(),
                forall|j: int| 0 <= j < i ==> self.sprites@[j].name@ != name@,
        {
            if self.sprites[i].name == *name {
                return Some(i);
            }
        }
        None
    }

    fn find_sheet(&self, name: &String) -> (r: Option<usize>)
        ensures
            match r {
                Some(i) => i < self.spritesheets@.len() && self.spritesheets@[i as int].0@ == name@
                    && forall|j: int| 0 <= j < i ==> self.spritesheets@[j].0@ != name@,
                None => forall|j: int|
                    0 <= j < self.spritesheets@.len() ==> self.spritesheets@[j].0@ != name@,
            },
    {
        let n = self.spritesheets.len();
        for i in 0..n
            invariant
                n == self.spritesheets@.len(),
                forall|j: int| 0 <= j < i ==> self.spritesheets@[j].0@ != name@,
        {
            if self.spritesheets[i].0 == *name {
                return Some(i);
            }
        }
        None
    }

    /// Register a named slice, replacing any earlier slice of the same
    /// name; every other registration is untouched.
    pub fn register_sprite(&mut self, slice: SpritesheetSlice)
        ensures
            slice_lookup(final(self).sprites@, slice.name@) == Some(slice),
            forall|n: Seq<char>|
                n != slice.name@ ==> slice_lookup(final(self).sprites@, n) == slice_lookup(
                    old(self).sprites@,
                    n,
                ),
            final(self).spritesheets@ == old(self).spritesheets@,
    {
        match self.find_slice(&slice.name) {
            Some(i) => {
                proof {
                    lemma_slice_lookup_update(self.sprites@, i as int, slice, slice.name@);
                    assert forall|n: Seq<char>| n != slice.name@ implies slice_lookup(
                        self.sprites@.update(i as int, slice),
                        n,
                    ) == slice_lookup(self.sprites@, n) by {
                        lemma_slice_lookup_update(self.sprites@, i as int, slice, n);
                    }
                }
                self.sprites.set(i, slice);
            }
            None => {
                proof {
                    lemma_slice_lookup_push(self.sprites@, slice, slice.name@);
                    assert forall|n: Seq<char>| n != slice.name@ implies slice_lookup(
                        self.sprites@.push(slice),
                        n,
                    ) == slice_lookup(self.sprites@, n) by {
                        lemma_slice_lookup_push(self.sprites@, slice, n);
                    }
                }
                self.sprites.push(slice);
            }
        }
    }

    /// Record that the spritesheet named `name` has streamed in with the
    /// given dimensions, replacing any earlier texture of the same name.
    pub fn install_spritesheet(&mut self, name: String, meta: TextureMeta)
        ensures
            sheet_lookup(final(self).spritesheets@, name@) == Some(meta),
            forall|n: Seq<char>|
                n != name@ ==> sheet_lookup(final(self).spritesheets@, n) == sheet_lookup(
                    old(self).spritesheets@,
                    n,
                ),
            final(self).sprites@ == old(self).sprites@,
    {
        match self.find_sheet(&name) {
            Some(i) => {
                proof {
                    lemma_sheet_lookup_update(self.spritesheets@, i as int, (name, meta), name@);
                    assert forall|n: Seq<char>| n != name@ implies sheet_lookup(
                        self.spritesheets@.update(i as int, (name, meta)),
                        n,
                    ) == sheet_lookup(self.spritesheets@, n) by {
                        lemma_sheet_lookup_update(self.spritesheets@, i as int, (name, meta), n);
                    }
                }
                self.spritesheets.set(i, (name, meta));
            }
            None => {
                proof {
                    lemma_sheet_lookup_push(self.spritesheets@, (name, meta), name@);
                    assert forall|n: Seq<char>| n != name@ implies sheet_lookup(
                        self.spritesheets@.push((name, meta)),
                        n,
                    ) == sheet_lookup(self.spritesheets@, n) by {
                        lemma_sheet_lookup_push(self.spritesheets@, (name, meta), n);
                    }
                }
                self.spritesheets.push((name, meta));
            }
        }
    }

    /// The dimensions under which `name` has streamed in, if it has.
    pub fn sheet_meta(&self, name: &String) -> (r: Option<TextureMeta>)
        ensures
            r == sheet_lookup(self.spritesheets@, name@),
    {
        match self.find_sheet(name) {
            Some(i) => {
                proof {
                    lemma_sheet_lookup_first(self.spritesheets@, name@, i as int);
                }
                Some(self.spritesheets[i].1)
            }
            None => {
                proof {
                    lemma_sheet_lookup_absent(self.spritesheets@, name@);
                }
                None
            }
        }
    }

    /// Move every staged slice registration from the draw queue into the
    /// sprite table, in staging order, later registrations of a name
    /// replacing earlier ones.
    pub fn register_pending_sprites(&mut self, queue: &mut DrawQueueInner)
        ensures
            final(queue).pending_sprites@ == Seq::<SpritesheetSlice>::empty(),
            final(queue).queue@ == old(queue).queue@,
            final(queue).pending_fonts@ == old(queue).pending_fonts@,
            final(queue).pending_spritesheets@ == old(queue).pending_spritesheets@,
            final(self).spritesheets@ == old(self).spritesheets@,
            forall|n: Seq<char>|
                slice_lookup(final(self).sprites@, n) == match staged_lookup(
                    old(queue).pending_sprites@,
                    n,
                ) {
                    Some(s) => Some(s),
                    None => slice_lookup(old(self).sprites@, n),
                },
    {
        let mut staged = queue.take_pending_sprites();
        let ghost staged0 = staged@;
        let ghost mut k: int = 0;
        while staged.len() > 0
            invariant
                0 <= k <= staged0.len(),
                staged@ == staged0.subrange(k, staged0.len() as int),
                self.spritesheets@ == old(self).spritesheets@,
                forall|nm: Seq<char>|
                    slice_lookup(self.sprites@, nm) == match staged_lookup(
                        staged0.subrange(0, k),
                        nm,
                    ) {
                        Some(s) => Some(s),
                        None => slice_lookup(old(self).sprites@, nm),
                    },
            decreases staged@.len(),
        {
            let slice = staged.remove(0);
            proof {
                assert(slice == staged0[k]);
            }
            self.register_sprite(slice);
            proof {
                assert(staged0.subrange(0, k + 1).drop_last() == staged0.subrange(0, k));
                assert(staged0.subrange(0, k + 1).last() == staged0[k]);
                assert(staged@ =~= staged0.subrange(k + 1, staged0.len() as int));
                k = k + 1;
            }
        }
        proof {
            assert(staged0.subrange(0, staged0.len() as int) == staged0);
        }
    }

    /// Group the sprite commands of a frame into batched instanced draws:
    /// one batch per loaded spritesheet that at least one command resolves
    /// to, in texture registration order, each holding its instances in
    /// queue order. Commands naming an unregistered sprite, or a sprite
    /// whose sheet has not streamed in, produce no instance.
    pub fn group_sprite_batches(&self, commands: &Vec<DrawCommand>) -> (r: Vec<SpriteBatch>)
        ensures
            r@.map_values(|b: SpriteBatch| b.spritesheet@) == batch_names_upto(
                self.spritesheets@,
                self.sprites@,
                commands@,
                self.spritesheets@.len() as int,
            ),
            forall|k: int|
                0 <= k < r@.len() ==> #[trigger] r@[k].instances@ == instances_for_sheet(
                    self.sprites@,
                    commands@,
                    r@[k].spritesheet@,
                ),
    {
        let mut batches: Vec<SpriteBatch> = Vec::new();
        let sheet_count = self.spritesheets.len();
        for j in 0..sheet_count
            invariant
                sheet_count == self.spritesheets@.len(),
                batches@.map_values(|b: SpriteBatch| b.spritesheet@) == batch_names_upto(
                    self.spritesheets@,
                    self.sprites@,
                    commands@,
                    j as int,
                ),
                forall|k: int|
                    0 <= k < batches@.len() ==> #[trigger] batches@[k].instances@
                        == instances_for_sheet(self.sprites@, commands@, batches@[k].spritesheet@),
        {
            let sheet_name = &self.spritesheets[j].0;
            let instances = self.instances_for(commands, sheet_name);
            if instances.len() > 0 {
                let batch = SpriteBatch { spritesheet: sheet_name.clone(), instances };
                proof {
                    assert(batches@.push(batch).map_values(|b: SpriteBatch| b.spritesheet@)
                        =~= batches@.map_values(|b: SpriteBatch| b.spritesheet@).push(
                        batch.spritesheet@,
                    ));
                }
                batches.push(batch);
            }
        }
        batches
    }

    /// The instances that this frame's commands contribute to the batch of
    /// one spritesheet, in queue order.
    fn instances_for(&self, commands: &Vec<DrawCommand>, sheet: &String) -> (r: Vec<DrawInstance>)
        ensures
            r@ == instances_for_sheet(self.sprites@, commands@, sheet@),
    {
        let mut instances: Vec<DrawInstance> = Vec::new();
        let n = commands.len();
        for i in 0..n
            invariant
                n == commands@.len(),
                instances@ == instances_upto(self.sprites@, commands@, sheet@, i as int),
        {
            match &commands[i] {
                DrawCommand::Sprite { sprite, geometry } => {
                    match self.find_slice(sprite) {
                        Some(s) => {
                            proof {
                                lemma_slice_lookup_first(self.sprites@, sprite@, s as int);
                            }
                            let slice = &self.sprites[s];
                            if slice.spritesheet == *sheet {
                                instances.push(
                                    DrawInstance {
                                        offset: slice.offset,
                                        size: slice.size,
                                        geometry: *geometry,
                                    },
                                );
                            }
                        }
                        None => {
                            proof {
                                lemma_slice_lookup_absent(self.sprites@, sprite@);
                            }
                        }
                    }
                }
                _ => {}
            }
            proof {
                assert(instances@ =~= instances_upto(
                    self.sprites@,
                    commands@,
                    sheet@,
                    i + 1,
                ));
            }
        }
        instances
    }
}

/// What decoding a PNG byte stream to a vertically flipped RGBA texel
/// buffer yields: the texture's dimensions and texels, a pure function of
/// the bytes alone, or nothing when the bytes do not decode.
pub uninterp spec fn decoded_image(bytes: Seq<u8>) -> Option<(u32, u32, Seq<u8>)>;

/// Relies on image::load_from_memory_with_format, DynamicImage::flipv and
/// DynamicImage::to_rgba8: decoding is a pure function of the bytes, and a
/// decoded RGBA buffer holds exactly four bytes per pixel (the decoder's
/// default allocation limit keeps the product within range).
#[verifier::external_body]
fn decode_png_rgba(bytes: &Vec<u8>) -> (r: Option<(u32, u32, Vec<u8>)>)
    ensures
        match r {
            Some((w, h, texels)) => decoded_image(bytes@) == Some((w, h, texels@)) && texels@.len()
                == 4 * (w as int) * (h as int),
            None => decoded_image(bytes@) is None,
        },
{
    match image::load_from_memory_with_format(bytes, image::ImageFormat::Png) {
        Ok(img) => {
            let buffer = img.flipv().to_rgba8();
            let (width, height) = buffer.dimensions();
            Some((width, height, buffer.into_raw()))
        }
        Err(_) => None,
    }
}

/// Decode one streamed spritesheet image: the bytes of a PNG file become a
/// named texture of raw RGBA texels, flipped vertically for upload, or
/// nothing when the bytes do not decode — a decode failure is dropped, it
/// never surfaces to scripted code.
pub fn decode_spritesheet(name: String, bytes: &Vec<u8>) -> (r: Option<LoadedTexture>)
    ensures
        match r {
            Some(t) => t.name == name && decoded_image(bytes@) == Some(
                (t.width, t.height, t.texels@),
            ) && t.texels@.len() == 4 * (t.width as int) * (t.height as int),
            None => decoded_image(bytes@) is None,
        },
{
    match decode_png_rgba(bytes) {
        Some((width, height, texels)) => Some(LoadedTexture { name, width, height, texels }),
        None => None,
    }
}

/// The last staged registration of a name, which is the one that wins when
/// the staging list is folded into the sprite table.
pub open spec fn staged_lookup(staged: Seq<SpritesheetSlice>, name: Seq<char>) -> Option<
    SpritesheetSlice,
>
    decreases staged.len(),
{
    if staged.len() == 0 {
        None
    } else if staged.last().name@ == name {
        Some(staged.last())
    } else {
        staged_lookup(staged.drop_last(), name)
    }
}

/// A sprite command whose name resolves to no registered slice produces no
/// render instance in any batch: appending it to a frame's commands leaves
/// every spritesheet's batch unchanged.
pub proof fn lemma_unregistered_sprite_no_instance(
    slices: Seq<SpritesheetSlice>,
    commands: Seq<DrawCommand>,
    command: DrawCommand,
    sheet: Seq<char>,
)
    requires
        command matches DrawCommand::Sprite { sprite, geometry } && slice_lookup(
            slices,
            sprite@,
        ) is None,
    ensures
        instances_for_sheet(slices, commands.push(command), sheet) == instances_for_sheet(
            slices,
            commands,
            sheet,
        ),
{
    let pushed = commands.push(command);
    assert(instances_upto(slices, pushed, sheet, pushed.len() as int) == instances_upto(
        slices,
        pushed,
        sheet,
        commands.len() as int,
    ) + command_instance(slices, command, sheet));
    lemma_instances_upto_prefix(slices, commands, pushed, sheet, commands.len() as int);
    assert(instances_for_sheet(slices, commands, sheet) + Seq::<DrawInstance>::empty()
        =~= instances_for_sheet(slices, commands, sheet));
}

proof fn lemma_instances_upto_prefix(
    slices: Seq<SpritesheetSlice>,
    commands: Seq<DrawCommand>,
    extended: Seq<DrawCommand>,
    sheet: Seq<char>,
    i: int,
)
    requires
        i <= commands.len(),
        commands.len() <= extended.len(),
        forall|j: int| 0 <= j < commands.len() ==> commands[j] == extended[j],
    ensures
        instances_upto(slices, extended, sheet, i) == instances_upto(slices, commands, sheet, i),
    decreases i,
{
    if i > 0 {
        lemma_instances_upto_prefix(slices, commands, extended, sheet, i - 1);
    }
}

} // verus!
