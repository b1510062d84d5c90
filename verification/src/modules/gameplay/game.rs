use vstd::prelude::*;

use crate::modules::draw::queue::DrawQueueInner;
use crate::modules::draw::{DrawCommand, Vec2};
use crate::modules::gameplay::coroutines::Coroutine;
use crate::modules::gameplay::game_object::GameObject;

verus! {

#[verifier::external_type_specification]
#[verifier::external_body]
pub struct ExClock(quanta::Clock);

#[verifier::external_type_specification]
#[verifier::external_body]
pub struct ExInstant(quanta::Instant);

/// Relies on quanta::Clock::new: builds a monotonic clock source.
#[verifier::external_body]
fn clock_new() -> quanta::Clock {
    quanta::Clock::new()
}

/// Relies on quanta::Clock::now: reads the monotonic clock.
#[verifier::external_body]
fn clock_now(clock: &quanta::Clock) -> quanta::Instant {
    clock.now()
}

/// Relies on quanta::Instant::duration_since, which saturates to zero when
/// `earlier` is in fact later. Nothing is promised of the result: real time
/// is outside the engine's control.
#[verifier::external_body]
fn micros_between(earlier: &quanta::Instant, later: &quanta::Instant) -> u64 {
    later.duration_since(*earlier).as_micros() as u64
}

/// The engine's time source: the monotonic clock it reads, the instant it
/// started, the frame counter, and the last sampled moment with the elapsed
/// time since the sample before it, both in microseconds since start.
pub struct Time {
    pub clock: quanta::Clock,
    pub start: quanta::Instant,
    pub frame: u64,
    pub delta_micros: u64,
    pub now_micros: u64,
}

impl Time {
    /// A time source starting now: frame zero, no elapsed time.
    pub fn new() -> (r: Time)
        ensures
            r.frame == 0,
            r.delta_micros == 0,
            r.now_micros == 0,
    {
        let clock = clock_new();
        let start = clock_now(&clock);
        Time { clock, start, frame: 0, delta_micros: 0, now_micros: 0 }
    }

    /// Advance to a sampled moment: the frame counter increments exactly
    /// once, the clock never runs backwards, and the delta is exactly the
    /// time elapsed since the previous sample.
    pub fn advance(&mut self, sampled_micros: u64)
        requires
            old(self).frame < u64::MAX,
        ensures
            final(self).frame == old(self).frame + 1,
            final(self).now_micros == if sampled_micros >= old(self).now_micros {
                sampled_micros
            } else {
                old(self).now_micros
            },
            final(self).delta_micros == final(self).now_micros - old(self).now_micros,
            final(self).clock == old(self).clock,
            final(self).start == old(self).start,
    {
        let now = if sampled_micros >= self.now_micros {
            sampled_micros
        } else {
            self.now_micros
        };
        self.delta_micros = now - self.now_micros;
        self.now_micros = now;
        self.frame = self.frame + 1;
    }

    /// Sample the monotonic clock and advance one frame: whatever moment
    /// the clock reports, the frame counter increments exactly once, time
    /// never runs backwards, and the delta is the time since the previous
    /// sample.
    pub fn tick(&mut self)
        requires
            old(self).frame < u64::MAX,
        ensures
            final(self).frame == old(self).frame + 1,
            final(self).now_micros >= old(self).now_micros,
            final(self).delta_micros == final(self).now_micros - old(self).now_micros,
            final(self).clock == old(self).clock,
            final(self).start == old(self).start,
    {
        let now = clock_now(&self.clock);
        let sampled = micros_between(&self.start, &now);
        self.advance(sampled);
    }
}

/// The identities of a list of entities, in order.
pub open spec fn ids_of(objs: Seq<GameObject>) -> Seq<u64> {
    objs.map_values(|o: GameObject| o.id)
}

/// The shared game state: the camera, the live entity list, the two
/// structural staging lists, the staged coroutines awaiting their merge
/// point, and the time source. Structural changes to the live list happen
/// only at the per-frame merge point, never during iteration.
pub struct GameInner {
    pub camera: Vec2,
    pub pending_creates: Vec<GameObject>,
    pub pending_deletes: Vec<u64>,
    pub game_objects: Vec<GameObject>,
    pub pending_coroutines: Vec<(u64, Coroutine)>,
    pub time: Time,
}

impl GameInner {
    /// A fresh game: no entity, nothing staged, time starting now.
    pub fn new() -> (r: GameInner)
        ensures
            r.camera == (Vec2 { x: 0, y: 0 }),
            r.pending_creates@ == Seq::<GameObject>::empty(),
            r.pending_deletes@ == Seq::<u64>::empty(),
            r.game_objects@ == Seq::<GameObject>::empty(),
            r.pending_coroutines@ == Seq::<(u64, Coroutine)>::empty(),
            r.time.frame == 0,
            r.time.delta_micros == 0,
            r.time.now_micros == 0,
    {
        GameInner {
            camera: Vec2 { x: 0, y: 0 },
            pending_creates: Vec::new(),
            pending_deletes: Vec::new(),
            game_objects: Vec::new(),
            pending_coroutines: Vec::new(),
            time: Time::new(),
        }
    }

    /// Stage an entity for insertion at the next merge point. Nothing is
    /// observable before the merge.
    pub fn create_object(&mut self, object: GameObject)
        ensures
            final(self).pending_creates@ == old(self).pending_creates@.push(object),
            unchanged_but_creates(*old(self), *final(self)),
    {
        self.pending_creates.push(object);
    }

    /// Stage an identity for removal at the next merge point. Staging an
    /// identity that is not live is a no-op there, not an error.
    pub fn delete_object(&mut self, id: u64)
        ensures
            final(self).pending_deletes@ == old(self).pending_deletes@.push(id),
            unchanged_but_deletes(*old(self), *final(self)),
    {
        self.pending_deletes.push(id);
    }

    /// Stage a newly created coroutine for an entity; it is attached at the
    /// next tidy point and never resumed before that.
    pub fn stage_coroutine(&mut self, entity: u64, coroutine: Coroutine)
        ensures
            final(self).pending_coroutines@ == old(self).pending_coroutines@.push(
                (entity, coroutine),
            ),
            unchanged_but_staged(*old(self), *final(self)),
    {
        self.pending_coroutines.push((entity, coroutine));
    }

    /// Move the camera.
    pub fn set_camera(&mut self, camera: Vec2)
        ensures
            final(self).camera == camera,
            unchanged_but_camera(*old(self), *final(self)),
    {
        self.camera = camera;
    }
}

/// Everything of the game state except the creation staging list is equal.
pub open spec fn unchanged_but_creates(g0: GameInner, g1: GameInner) -> bool {
    &&& g1.camera == g0.camera
    &&& g1.pending_deletes@ == g0.pending_deletes@
    &&& g1.game_objects@ == g0.game_objects@
    &&& g1.pending_coroutines@ == g0.pending_coroutines@
    &&& g1.time == g0.time
}

/// Everything of the game state except the deletion staging list is equal.
pub open spec fn unchanged_but_deletes(g0: GameInner, g1: GameInner) -> bool {
    &&& g1.camera == g0.camera
    &&& g1.pending_creates@ == g0.pending_creates@
    &&& g1.game_objects@ == g0.game_objects@
    &&& g1.pending_coroutines@ == g0.pending_coroutines@
    &&& g1.time == g0.time
}

/// Everything of the game state except the staged coroutines is equal.
pub open spec fn unchanged_but_staged(g0: GameInner, g1: GameInner) -> bool {
    &&& g1.camera == g0.camera
    &&& g1.pending_creates@ == g0.pending_creates@
    &&& g1.pending_deletes@ == g0.pending_deletes@
    &&& g1.game_objects@ == g0.game_objects@
    &&& g1.time == g0.time
}

/// Everything of the game state except the camera is equal.
pub open spec fn unchanged_but_camera(g0: GameInner, g1: GameInner) -> bool {
    &&& g1.pending_creates@ == g0.pending_creates@
    &&& g1.pending_deletes@ == g0.pending_deletes@
    &&& g1.game_objects@ == g0.game_objects@
    &&& g1.pending_coroutines@ == g0.pending_coroutines@
    &&& g1.time == g0.time
}

/// One side effect a scripted call asks of the engine. Every effect only
/// stages or appends: the live entity list and the time source are never
/// touched by an effect, which is what keeps structural changes at the
/// merge point.
pub enum ScriptEffect {
    CreateObject(GameObject),
    DeleteObject(u64),
    SetCamera(Vec2),
    RunCoroutine { entity: u64, coroutine: Coroutine },
    Draw(DrawCommand),
    LoadFont { name: String, path: String },
    LoadSpritesheet { name: String, path: String },
    CreateSprite { name: String, spritesheet: String, offset: Vec2, size: Vec2 },
}

/// The game-state half of a script effect batch only stages: the live list
/// and the time source are untouched, the staging lists only grow at their
/// ends.
pub open spec fn game_staged_only(g0: GameInner, g1: GameInner) -> bool {
    &&& g1.game_objects@ == g0.game_objects@
    &&& g1.time == g0.time
    &&& g0.pending_creates@.is_prefix_of(g1.pending_creates@)
    &&& g0.pending_deletes@.is_prefix_of(g1.pending_deletes@)
    &&& g0.pending_coroutines@.is_prefix_of(g1.pending_coroutines@)
}

/// The draw half of a script effect batch only appends: the command queue
/// and the asset staging lists only grow at their ends.
pub open spec fn draw_appended_only(d0: DrawQueueInner, d1: DrawQueueInner) -> bool {
    &&& d0.queue@.is_prefix_of(d1.queue@)
    &&& d0.pending_fonts@.is_prefix_of(d1.pending_fonts@)
    &&& d0.pending_spritesheets@.is_prefix_of(d1.pending_spritesheets@)
    &&& d0.pending_sprites@.is_prefix_of(d1.pending_sprites@)
}

pub proof fn lemma_prefix_transitive<T>(a: Seq<T>, b: Seq<T>, c: Seq<T>)
    requires
        a.is_prefix_of(b),
        b.is_prefix_of(c),
    ensures
        a.is_prefix_of(c),
{
    assert(a =~= c.subrange(0, a.len() as int));
}

/// Staging only composes: two effect batches in sequence still only stage.
pub proof fn lemma_staged_only_transitive(g0: GameInner, g1: GameInner, g2: GameInner)
    requires
        game_staged_only(g0, g1),
        game_staged_only(g1, g2),
    ensures
        game_staged_only(g0, g2),
{
    lemma_prefix_transitive(g0.pending_creates@, g1.pending_creates@, g2.pending_creates@);
    lemma_prefix_transitive(g0.pending_deletes@, g1.pending_deletes@, g2.pending_deletes@);
    lemma_prefix_transitive(
        g0.pending_coroutines@,
        g1.pending_coroutines@,
        g2.pending_coroutines@,
    );
}

/// Appending only composes: two effect batches in sequence still only
/// append to the draw queue.
pub proof fn lemma_appended_only_transitive(
    d0: DrawQueueInner,
    d1: DrawQueueInner,
    d2: DrawQueueInner,
)
    requires
        draw_appended_only(d0, d1),
        draw_appended_only(d1, d2),
    ensures
        draw_appended_only(d0, d2),
{
    lemma_prefix_transitive(d0.queue@, d1.queue@, d2.queue@);
    lemma_prefix_transitive(d0.pending_fonts@, d1.pending_fonts@, d2.pending_fonts@);
    lemma_prefix_transitive(
        d0.pending_spritesheets@,
        d1.pending_spritesheets@,
        d2.pending_spritesheets@,
    );
    lemma_prefix_transitive(d0.pending_sprites@, d1.pending_sprites@, d2.pending_sprites@);
}

/// The entities a batch of effects stages for creation, in order.
pub open spec fn staged_creates_of(es: Seq<ScriptEffect>) -> Seq<GameObject>
    decreases es.len(),
{
    if es.len() == 0 {
        Seq::empty()
    } else {
        staged_creates_of(es.drop_last()) + match es.last() {
            ScriptEffect::CreateObject(o) => seq![o],
            _ => Seq::<GameObject>::empty(),
        }
    }
}

/// The identities a batch of effects stages for deletion, in order.
pub open spec fn staged_deletes_of(es: Seq<ScriptEffect>) -> Seq<u64>
    decreases es.len(),
{
    if es.len() == 0 {
        Seq::empty()
    } else {
        staged_deletes_of(es.drop_last()) + match es.last() {
            ScriptEffect::DeleteObject(id) => seq![id],
            _ => Seq::<u64>::empty(),
        }
    }
}

/// The coroutines a batch of effects stages, in order.
pub open spec fn staged_coroutines_of(es: Seq<ScriptEffect>) -> Seq<(u64, Coroutine)>
    decreases es.len(),
{
    if es.len() == 0 {
        Seq::empty()
    } else {
        staged_coroutines_of(es.drop_last()) + match es.last() {
            ScriptEffect::RunCoroutine { entity, coroutine } => seq![(entity, coroutine)],
            _ => Seq::<(u64, Coroutine)>::empty(),
        }
    }
}

/// The drawing commands a batch of effects issues, in order.
pub open spec fn drawn_of(es: Seq<ScriptEffect>) -> Seq<DrawCommand>
    decreases es.len(),
{
    if es.len() == 0 {
        Seq::empty()
    } else {
        drawn_of(es.drop_last()) + match es.last() {
            ScriptEffect::Draw(c) => seq![c],
            _ => Seq::<DrawCommand>::empty(),
        }
    }
}

/// The font load requests a batch of effects stages, in order.
pub open spec fn fonts_of(es: Seq<ScriptEffect>) -> Seq<(String, String)>
    decreases es.len(),
{
    if es.len() == 0 {
        Seq::empty()
    } else {
        fonts_of(es.drop_last()) + match es.last() {
            ScriptEffect::LoadFont { name, path } => seq![(name, path)],
            _ => Seq::<(String, String)>::empty(),
        }
    }
}

/// The spritesheet load requests a batch of effects stages, in order.
pub open spec fn sheets_of(es: Seq<ScriptEffect>) -> Seq<
    crate::modules::draw::SpritesheetLoadRequest,
>
    decreases es.len(),
{
    if es.len() == 0 {
        Seq::empty()
    } else {
        sheets_of(es.drop_last()) + match es.last() {
            ScriptEffect::LoadSpritesheet { name, path } => seq![
                crate::modules::draw::SpritesheetLoadRequest { name, path },
            ],
            _ => Seq::<crate::modules::draw::SpritesheetLoadRequest>::empty(),
        }
    }
}

/// The slice registrations a batch of effects stages, in order.
pub open spec fn slices_of(es: Seq<ScriptEffect>) -> Seq<crate::modules::draw::SpritesheetSlice>
    decreases es.len(),
{
    if es.len() == 0 {
        Seq::empty()
    } else {
        slices_of(es.drop_last()) + match es.last() {
            ScriptEffect::CreateSprite { name, spritesheet, offset, size } => seq![
                crate::modules::draw::SpritesheetSlice { name, spritesheet, offset, size },
            ],
            _ => Seq::<crate::modules::draw::SpritesheetSlice>::empty(),
        }
    }
}

/// The camera after a batch of effects: the last camera move wins, or the
/// camera stands still.
pub open spec fn camera_after(c0: Vec2, es: Seq<ScriptEffect>) -> Vec2
    decreases es.len(),
{
    if es.len() == 0 {
        c0
    } else {
        match es.last() {
            ScriptEffect::SetCamera(c) => c,
            _ => camera_after(c0, es.drop_last()),
        }
    }
}

/// The staging lists, the draw queue and the camera have moved exactly by
/// what a batch of scripted effects staged, in order; what else moved is
/// the caller's to say.
pub open spec fn hooks_scripted(
    g0: GameInner,
    d0: DrawQueueInner,
    g1: GameInner,
    d1: DrawQueueInner,
    es: Seq<ScriptEffect>,
) -> bool {
    &&& g1.camera == camera_after(g0.camera, es)
    &&& g1.pending_creates@ == g0.pending_creates@ + staged_creates_of(es)
    &&& g1.pending_deletes@ == g0.pending_deletes@ + staged_deletes_of(es)
    &&& g1.pending_coroutines@ == g0.pending_coroutines@ + staged_coroutines_of(es)
    &&& d1.queue@ == d0.queue@ + drawn_of(es)
    &&& d1.pending_fonts@ == d0.pending_fonts@ + fonts_of(es)
    &&& d1.pending_spritesheets@ == d0.pending_spritesheets@ + sheets_of(es)
    &&& d1.pending_sprites@ == d0.pending_sprites@ + slices_of(es)
}

/// The game and draw state have moved exactly by applying a batch of
/// scripted effects, in order: the live list and the time stand still,
/// every staging list and the draw queue grow by exactly what the batch
/// staged, and the camera ends where the batch last moved it.
pub open spec fn scripted_only(
    g0: GameInner,
    d0: DrawQueueInner,
    g1: GameInner,
    d1: DrawQueueInner,
    es: Seq<ScriptEffect>,
) -> bool {
    &&& g1.game_objects@ == g0.game_objects@
    &&& g1.time == g0.time
    &&& hooks_scripted(g0, d0, g1, d1, es)
}

/// Every extraction distributes over concatenation of batches, and the
/// camera folds through.
pub proof fn lemma_extractions_concat(a: Seq<ScriptEffect>, b: Seq<ScriptEffect>, c0: Vec2)
    ensures
        staged_creates_of(a + b) == staged_creates_of(a) + staged_creates_of(b),
        staged_deletes_of(a + b) == staged_deletes_of(a) + staged_deletes_of(b),
        staged_coroutines_of(a + b) == staged_coroutines_of(a) + staged_coroutines_of(b),
        drawn_of(a + b) == drawn_of(a) + drawn_of(b),
        fonts_of(a + b) == fonts_of(a) + fonts_of(b),
        sheets_of(a + b) == sheets_of(a) + sheets_of(b),
        slices_of(a + b) == slices_of(a) + slices_of(b),
        camera_after(c0, a + b) == camera_after(camera_after(c0, a), b),
    decreases b.len(),
{
    if b.len() == 0 {
        assert(a + b =~= a);
        assert(staged_creates_of(a) + staged_creates_of(b) =~= staged_creates_of(a));
        assert(staged_deletes_of(a) + staged_deletes_of(b) =~= staged_deletes_of(a));
        assert(staged_coroutines_of(a) + staged_coroutines_of(b) =~= staged_coroutines_of(a));
        assert(drawn_of(a) + drawn_of(b) =~= drawn_of(a));
        assert(fonts_of(a) + fonts_of(b) =~= fonts_of(a));
        assert(sheets_of(a) + sheets_of(b) =~= sheets_of(a));
        assert(slices_of(a) + slices_of(b) =~= slices_of(a));
    } else {
        assert((a + b).drop_last() =~= a + b.drop_last());
        assert((a + b).last() == b.last());
        lemma_extractions_concat(a, b.drop_last(), c0);
        assert(staged_creates_of(a + b) =~= staged_creates_of(a) + staged_creates_of(b));
        assert(staged_deletes_of(a + b) =~= staged_deletes_of(a) + staged_deletes_of(b));
        assert(staged_coroutines_of(a + b) =~= staged_coroutines_of(a) + staged_coroutines_of(b));
        assert(drawn_of(a + b) =~= drawn_of(a) + drawn_of(b));
        assert(fonts_of(a + b) =~= fonts_of(a) + fonts_of(b));
        assert(sheets_of(a + b) =~= sheets_of(a) + sheets_of(b));
        assert(slices_of(a + b) =~= slices_of(a) + slices_of(b));
    }
}

/// The empty batch moves nothing.
pub proof fn lemma_scripted_only_refl(g: GameInner, d: DrawQueueInner)
    ensures
        scripted_only(g, d, g, d, Seq::<ScriptEffect>::empty()),
{
    let es = Seq::<ScriptEffect>::empty();
    assert(g.pending_creates@ =~= g.pending_creates@ + staged_creates_of(es));
    assert(g.pending_deletes@ =~= g.pending_deletes@ + staged_deletes_of(es));
    assert(g.pending_coroutines@ =~= g.pending_coroutines@ + staged_coroutines_of(es));
    assert(d.queue@ =~= d.queue@ + drawn_of(es));
    assert(d.pending_fonts@ =~= d.pending_fonts@ + fonts_of(es));
    assert(d.pending_spritesheets@ =~= d.pending_spritesheets@ + sheets_of(es));
    assert(d.pending_sprites@ =~= d.pending_sprites@ + slices_of(es));
}

/// Two scripted transitions in sequence stage the concatenated batch.
pub proof fn lemma_hooks_scripted_concat(
    g0: GameInner,
    d0: DrawQueueInner,
    g1: GameInner,
    d1: DrawQueueInner,
    g2: GameInner,
    d2: DrawQueueInner,
    a: Seq<ScriptEffect>,
    b: Seq<ScriptEffect>,
)
    requires
        hooks_scripted(g0, d0, g1, d1, a),
        hooks_scripted(g1, d1, g2, d2, b),
    ensures
        hooks_scripted(g0, d0, g2, d2, a + b),
{
    lemma_extractions_concat(a, b, g0.camera);
    assert(g2.pending_creates@ =~= g0.pending_creates@ + staged_creates_of(a + b));
    assert(g2.pending_deletes@ =~= g0.pending_deletes@ + staged_deletes_of(a + b));
    assert(g2.pending_coroutines@ =~= g0.pending_coroutines@ + staged_coroutines_of(a + b));
    assert(d2.queue@ =~= d0.queue@ + drawn_of(a + b));
    assert(d2.pending_fonts@ =~= d0.pending_fonts@ + fonts_of(a + b));
    assert(d2.pending_spritesheets@ =~= d0.pending_spritesheets@ + sheets_of(a + b));
    assert(d2.pending_sprites@ =~= d0.pending_sprites@ + slices_of(a + b));
}

/// Two scripted-effect transitions in sequence are the transition of the
/// concatenated batch.
pub proof fn lemma_scripted_only_concat(
    g0: GameInner,
    d0: DrawQueueInner,
    g1: GameInner,
    d1: DrawQueueInner,
    g2: GameInner,
    d2: DrawQueueInner,
    a: Seq<ScriptEffect>,
    b: Seq<ScriptEffect>,
)
    requires
        scripted_only(g0, d0, g1, d1, a),
        scripted_only(g1, d1, g2, d2, b),
    ensures
        scripted_only(g0, d0, g2, d2, a + b),
{
    lemma_hooks_scripted_concat(g0, d0, g1, d1, g2, d2, a, b);
}

/// Apply one scripted side effect to the game and draw state.
pub fn apply_effect(game: &mut GameInner, draw: &mut DrawQueueInner, effect: ScriptEffect)
    ensures
        game_staged_only(*old(game), *final(game)),
        draw_appended_only(*old(draw), *final(draw)),
        scripted_only(*old(game), *old(draw), *final(game), *final(draw), seq![effect]),
        match effect {
            ScriptEffect::CreateObject(o) => final(game).pending_creates@ == old(game).pending_creates@.push(o),
            ScriptEffect::DeleteObject(id) => final(game).pending_deletes@ == old(game).pending_deletes@.push(id),
            ScriptEffect::SetCamera(c) => final(game).camera == c,
            ScriptEffect::RunCoroutine { entity, coroutine } => final(game).pending_coroutines@
                == old(game).pending_coroutines@.push((entity, coroutine)),
            ScriptEffect::Draw(c) => final(draw).queue@ == old(draw).queue@.push(c),
            ScriptEffect::LoadFont { name, path } => final(draw).pending_fonts@ == old(draw).pending_fonts@.push((name, path)),
            ScriptEffect::LoadSpritesheet { name, path } => final(draw).pending_spritesheets@
                == old(draw).pending_spritesheets@.push(
                (crate::modules::draw::SpritesheetLoadRequest { name, path }),
            ),
            ScriptEffect::CreateSprite { name, spritesheet, offset, size } => final(draw).pending_sprites@ == old(draw).pending_sprites@.push(
                (crate::modules::draw::SpritesheetSlice { name, spritesheet, offset, size }),
            ),
        },
{
    let ghost eff = effect;
    match effect {
        ScriptEffect::CreateObject(o) => game.create_object(o),
        ScriptEffect::DeleteObject(id) => game.delete_object(id),
        ScriptEffect::SetCamera(c) => game.set_camera(c),
        ScriptEffect::RunCoroutine { entity, coroutine } => game.stage_coroutine(
            entity,
            coroutine,
        ),
        ScriptEffect::Draw(c) => draw.draw(c),
        ScriptEffect::LoadFont { name, path } => draw.load_font(name, path),
        ScriptEffect::LoadSpritesheet { name, path } => draw.load_spritesheet(name, path),
        ScriptEffect::CreateSprite { name, spritesheet, offset, size } => draw.create_sprite(
            name,
            spritesheet,
            offset,
            size,
        ),
    }
    proof {
        let es = seq![eff];
        assert(es.drop_last() =~= Seq::<ScriptEffect>::empty());
        assert(es.last() == eff);
        assert(staged_creates_of(Seq::<ScriptEffect>::empty()) == Seq::<GameObject>::empty());
        assert(staged_deletes_of(Seq::<ScriptEffect>::empty()) == Seq::<u64>::empty());
        assert(staged_coroutines_of(Seq::<ScriptEffect>::empty()) == Seq::<
            (u64, Coroutine),
        >::empty());
        assert(drawn_of(Seq::<ScriptEffect>::empty()) == Seq::<DrawCommand>::empty());
        assert(fonts_of(Seq::<ScriptEffect>::empty()) == Seq::<(String, String)>::empty());
        assert(sheets_of(Seq::<ScriptEffect>::empty()) == Seq::<
            crate::modules::draw::SpritesheetLoadRequest,
        >::empty());
        assert(slices_of(Seq::<ScriptEffect>::empty()) == Seq::<
            crate::modules::draw::SpritesheetSlice,
        >::empty());
        match eff {
            ScriptEffect::CreateObject(o) => {
                assert(staged_creates_of(es) =~= seq![o]);
            }
            ScriptEffect::DeleteObject(id) => {
                assert(staged_deletes_of(es) =~= seq![id]);
            }
            ScriptEffect::SetCamera(c) => {
                assert(camera_after(old(game).camera, es) == c);
            }
            ScriptEffect::RunCoroutine { entity, coroutine } => {
                assert(staged_coroutines_of(es) =~= seq![(entity, coroutine)]);
            }
            ScriptEffect::Draw(c) => {
                assert(drawn_of(es) =~= seq![c]);
            }
            ScriptEffect::LoadFont { name, path } => {
                assert(fonts_of(es) =~= seq![(name, path)]);
            }
            ScriptEffect::LoadSpritesheet { name, path } => {
                assert(sheets_of(es) =~= seq![
                    crate::modules::draw::SpritesheetLoadRequest { name, path },
                ]);
            }
            ScriptEffect::CreateSprite { name, spritesheet, offset, size } => {
                assert(slices_of(es) =~= seq![
                    crate::modules::draw::SpritesheetSlice { name, spritesheet, offset, size },
                ]);
            }
        }
        assert(camera_after(old(game).camera, Seq::<ScriptEffect>::empty()) == old(game).camera);
        assert(game.camera == camera_after(old(game).camera, es));
        assert(game.pending_creates@ =~= old(game).pending_creates@ + staged_creates_of(es));
        assert(game.pending_deletes@ =~= old(game).pending_deletes@ + staged_deletes_of(es));
        assert(game.pending_coroutines@ =~= old(game).pending_coroutines@ + staged_coroutines_of(
            es,
        ));
        assert(draw.queue@ =~= old(draw).queue@ + drawn_of(es));
        assert(draw.pending_fonts@ =~= old(draw).pending_fonts@ + fonts_of(es));
        assert(draw.pending_spritesheets@ =~= old(draw).pending_spritesheets@ + sheets_of(es));
        assert(draw.pending_sprites@ =~= old(draw).pending_sprites@ + slices_of(es));
    }
}

/// Apply a whole batch of scripted side effects, in order: the state moves
/// by exactly what the batch asked — every staged entity, identity,
/// coroutine, drawing command and asset request lands, in order, and
/// nothing else moves. A batch only stages and appends: the live entity
/// list and the time source come out exactly as they went in.
pub fn apply_effects(game: &mut GameInner, draw: &mut DrawQueueInner, effects: Vec<ScriptEffect>)
    ensures
        game_staged_only(*old(game), *final(game)),
        draw_appended_only(*old(draw), *final(draw)),
        scripted_only(*old(game), *old(draw), *final(game), *final(draw), effects@),
{
    let ghost effects0 = effects@;
    let ghost mut k: int = 0;
    let mut effects = effects;
    proof {
        lemma_scripted_only_refl(*game, *draw);
        assert(effects0.subrange(0, 0) =~= Seq::<ScriptEffect>::empty());
    }
    while effects.len() > 0
        invariant
            0 <= k <= effects0.len(),
            effects@ == effects0.subrange(k, effects0.len() as int),
            game_staged_only(*old(game), *game),
            draw_appended_only(*old(draw), *draw),
            scripted_only(*old(game), *old(draw), *game, *draw, effects0.subrange(0, k)),
        decreases effects@.len(),
    {
        let effect = effects.remove(0);
        proof {
            assert(effect == effects0[k]);
        }
        let ghost g_before = *game;
        let ghost d_before = *draw;
        apply_effect(game, draw, effect);
        proof {
            lemma_staged_only_transitive(*old(game), g_before, *game);
            lemma_appended_only_transitive(*old(draw), d_before, *draw);
            lemma_scripted_only_concat(
                *old(game),
                *old(draw),
                g_before,
                d_before,
                *game,
                *draw,
                effects0.subrange(0, k),
                seq![effects0[k]],
            );
            assert(effects0.subrange(0, k) + seq![effects0[k]] =~= effects0.subrange(0, k + 1));
            assert(effects@ =~= effects0.subrange(k + 1, effects0.len() as int));
            k = k + 1;
        }
    }
    proof {
        assert(effects0.subrange(0, effects0.len() as int) =~= effects0);
    }
}

} // verus!
