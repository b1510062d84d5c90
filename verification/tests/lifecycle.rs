use engine_core::modules::gameplay::coroutines::{Coroutine, ResumeOutcome};
use engine_core::modules::gameplay::game::{GameInner, ScriptEffect};
use engine_core::modules::gameplay::game_object::{GameObject, HookCall, ResumeReply, ScriptHost};
use engine_core::modules::gameplay::input::InputInner;
use engine_core::modules::gameplay::wait::WaitInner;
use engine_core::modules::gameplay::CoreModule;
use engine_core::modules::draw::queue::DrawQueueInner;
use engine_core::modules::draw::{DrawCommand, ObjectGeometry, Vec2};
use engine_core::modules::gameplay::game::apply_effects;

/// A scripted side for the tests: it records every hook call it receives
/// and answers with whatever behaviour the test configured.
struct MockHost {
    calls: Vec<HookCall>,
    delete_on_update: Option<(u64, u64)>,
    create_on_update: Option<(u64, u64)>,
    fail_blocks: Vec<u64>,
    yield_waits: Vec<(u64, WaitInner)>,
}

impl MockHost {
    fn new() -> MockHost {
        MockHost {
            calls: Vec::new(),
            delete_on_update: None,
            create_on_update: None,
            fail_blocks: Vec::new(),
            yield_waits: Vec::new(),
        }
    }

    fn resumes(&self) -> Vec<HookCall> {
        self.calls
            .iter()
            .filter(|c| matches!(c, HookCall::Resume { .. }))
            .cloned()
            .collect()
    }
}

impl ScriptHost for MockHost {
    fn load_script(
        &mut self,
        _path: &String,
        _game: &GameInner,
        _input: &InputInner,
    ) -> Vec<ScriptEffect> {
        Vec::new()
    }

    fn on_start(&mut self, _game: &GameInner, _input: &InputInner, entity: u64) -> Vec<
        ScriptEffect,
    > {
        self.calls.push(HookCall::Start(entity));
        Vec::new()
    }

    fn update(&mut self, _game: &GameInner, _input: &InputInner, entity: u64) -> Vec<
        ScriptEffect,
    > {
        self.calls.push(HookCall::Update(entity));
        let mut effects = Vec::new();
        if let Some((source, target)) = self.delete_on_update {
            if source == entity {
                effects.push(ScriptEffect::DeleteObject(target));
            }
        }
        if let Some((source, new_id)) = self.create_on_update {
            if source == entity {
                effects.push(ScriptEffect::CreateObject(GameObject::new(new_id)));
            }
        }
        effects
    }

    fn on_delete(&mut self, _game: &GameInner, _input: &InputInner, entity: u64) -> Vec<
        ScriptEffect,
    > {
        self.calls.push(HookCall::Delete(entity));
        Vec::new()
    }

    fn resume(
        &mut self,
        _game: &GameInner,
        _input: &InputInner,
        entity: u64,
        block: u64,
    ) -> ResumeReply {
        self.calls.push(HookCall::Resume { entity, block });
        let outcome = if self.fail_blocks.contains(&block) {
            ResumeOutcome::Failed
        } else {
            match self.yield_waits.iter().find(|(b, _)| *b == block) {
                Some((_, wait)) => ResumeOutcome::Yielded(*wait),
                None => ResumeOutcome::Yielded(WaitInner::Done),
            }
        };
        ResumeReply { outcome, effects: Vec::new() }
    }
}

fn live_ids(game: &GameInner) -> Vec<u64> {
    game.game_objects.iter().map(|o| o.id).collect()
}

fn frame(
    core: &mut CoreModule,
    host: &mut MockHost,
    game: &mut GameInner,
    draw: &mut DrawQueueInner,
    input: &InputInner,
    log: &mut Vec<HookCall>,
) {
    core.update(host, game, draw, input, log);
    core.post_update(host, game, draw, input, log);
}

#[test]
fn created_entity_starts_exactly_once_and_is_live_from_the_merge() {
    let mut core = CoreModule;
    let mut host = MockHost::new();
    let mut game = GameInner::new();
    let mut draw = DrawQueueInner::new();
    let input = InputInner::new();
    let mut log: Vec<HookCall> = Vec::new();
    game.create_object(GameObject::new(5));
    frame(&mut core, &mut host, &mut game, &mut draw, &input, &mut log);
    assert_eq!(log, vec![HookCall::Start(5)]);
    assert_eq!(host.calls, vec![HookCall::Start(5)]);
    assert_eq!(live_ids(&game), vec![5]);
    // the merge drained the staging list
    assert!(game.pending_creates.is_empty());
    // the next frame updates it, and never starts it again
    frame(&mut core, &mut host, &mut game, &mut draw, &input, &mut log);
    assert_eq!(
        log,
        vec![HookCall::Start(5), HookCall::Update(5)]
    );
}

#[test]
fn deleted_entity_runs_on_delete_once_and_never_appears_again() {
    let mut core = CoreModule;
    let mut host = MockHost::new();
    let mut game = GameInner::new();
    let mut draw = DrawQueueInner::new();
    let input = InputInner::new();
    let mut log: Vec<HookCall> = Vec::new();
    game.create_object(GameObject::new(1));
    game.create_object(GameObject::new(2));
    frame(&mut core, &mut host, &mut game, &mut draw, &input, &mut log);
    assert_eq!(live_ids(&game), vec![1, 2]);
    game.delete_object(2);
    frame(&mut core, &mut host, &mut game, &mut draw, &input, &mut log);
    assert_eq!(live_ids(&game), vec![1]);
    // the merge drained the staging list: the request is not re-applied
    assert!(game.pending_deletes.is_empty());
    let deletes: Vec<&HookCall> =
        log.iter().filter(|c| matches!(c, HookCall::Delete(_))).collect();
    assert_eq!(deletes, vec![&HookCall::Delete(2)]);
    frame(&mut core, &mut host, &mut game, &mut draw, &input, &mut log);
    assert_eq!(live_ids(&game), vec![1]);
}

#[test]
fn deleting_a_never_live_identity_is_a_no_op() {
    let mut core = CoreModule;
    let mut host = MockHost::new();
    let mut game = GameInner::new();
    let mut draw = DrawQueueInner::new();
    let input = InputInner::new();
    let mut log: Vec<HookCall> = Vec::new();
    game.delete_object(77);
    frame(&mut core, &mut host, &mut game, &mut draw, &input, &mut log);
    assert!(log.is_empty());
    assert!(live_ids(&game).is_empty());
}

#[test]
fn entity_deleting_a_sibling_mid_update_completes_its_own_frame() {
    // Entity 1 stages the deletion of entity 2 during its update hook:
    // entity 2's on-delete runs once, entity 2 is gone from the next
    // frame's iteration, and entity 1's own update of the current frame
    // completes normally.
    let mut core = CoreModule;
    let mut host = MockHost::new();
    host.delete_on_update = Some((1, 2));
    let mut game = GameInner::new();
    let mut draw = DrawQueueInner::new();
    let input = InputInner::new();
    let mut log: Vec<HookCall> = Vec::new();
    game.create_object(GameObject::new(1));
    game.create_object(GameObject::new(2));
    frame(&mut core, &mut host, &mut game, &mut draw, &input, &mut log);
    log.clear();
    host.calls.clear();
    frame(&mut core, &mut host, &mut game, &mut draw, &input, &mut log);
    // both entities still updated this frame, then the deletion merged
    assert_eq!(
        log,
        vec![HookCall::Update(1), HookCall::Update(2), HookCall::Delete(2)]
    );
    assert_eq!(live_ids(&game), vec![1]);
    log.clear();
    frame(&mut core, &mut host, &mut game, &mut draw, &input, &mut log);
    // the repeated staged deletion of an already-removed identity is a
    // no-op: entity 2 is neither updated nor deleted again
    assert_eq!(log, vec![HookCall::Update(1)]);
    assert_eq!(live_ids(&game), vec![1]);
}

#[test]
fn entity_created_during_update_starts_at_this_frames_merge() {
    let mut core = CoreModule;
    let mut host = MockHost::new();
    host.create_on_update = Some((1, 9));
    let mut game = GameInner::new();
    let mut draw = DrawQueueInner::new();
    let input = InputInner::new();
    let mut log: Vec<HookCall> = Vec::new();
    game.create_object(GameObject::new(1));
    frame(&mut core, &mut host, &mut game, &mut draw, &input, &mut log);
    log.clear();
    frame(&mut core, &mut host, &mut game, &mut draw, &input, &mut log);
    assert_eq!(log, vec![HookCall::Update(1), HookCall::Start(9)]);
    assert_eq!(live_ids(&game), vec![1, 9]);
}

#[test]
fn failing_coroutine_is_removed_while_its_sibling_continues() {
    let mut core = CoreModule;
    let mut host = MockHost::new();
    host.fail_blocks = vec![10];
    host.yield_waits = vec![(11, WaitInner::Frames(0))];
    let mut game = GameInner::new();
    let mut draw = DrawQueueInner::new();
    let input = InputInner::new();
    let mut log: Vec<HookCall> = Vec::new();
    let mut entity = GameObject::new(1);
    entity.coroutines.push(Coroutine { wait: WaitInner::Frames(0), error: false, block: 10 });
    entity.coroutines.push(Coroutine { wait: WaitInner::Frames(0), error: false, block: 11 });
    entity.coroutines.tidy();
    game.create_object(entity);
    frame(&mut core, &mut host, &mut game, &mut draw, &input, &mut log);
    host.calls.clear();
    frame(&mut core, &mut host, &mut game, &mut draw, &input, &mut log);
    assert_eq!(
        host.resumes(),
        vec![
            HookCall::Resume { entity: 1, block: 10 },
            HookCall::Resume { entity: 1, block: 11 },
        ]
    );
    host.calls.clear();
    frame(&mut core, &mut host, &mut game, &mut draw, &input, &mut log);
    // the failed routine is never resumed again; its sibling continues
    assert_eq!(host.resumes(), vec![HookCall::Resume { entity: 1, block: 11 }]);
}

#[test]
fn run_for_two_seconds_is_ready_on_the_second_tick() {
    // Two entities; the first carries a two-second coroutine; the frame
    // delta is fixed at one second. The coroutine is not ready on tick
    // one and resumes exactly once, on tick two.
    let mut core = CoreModule;
    let mut host = MockHost::new();
    let mut game = GameInner::new();
    let mut draw = DrawQueueInner::new();
    let input = InputInner::new();
    let mut log: Vec<HookCall> = Vec::new();
    let mut first = GameObject::new(1);
    first.coroutines.push(Coroutine {
        wait: WaitInner::Seconds(2_000_000),
        error: false,
        block: 42,
    });
    first.coroutines.tidy();
    game.create_object(first);
    game.create_object(GameObject::new(2));
    frame(&mut core, &mut host, &mut game, &mut draw, &input, &mut log);
    game.time.delta_micros = 1_000_000;
    core.update(&mut host, &mut game, &mut draw, &input, &mut log);
    assert!(host.resumes().is_empty());
    core.update(&mut host, &mut game, &mut draw, &input, &mut log);
    assert_eq!(host.resumes(), vec![HookCall::Resume { entity: 1, block: 42 }]);
}

#[test]
fn staged_coroutine_waits_for_the_tidy_point_and_resumes_once() {
    let mut core = CoreModule;
    let mut host = MockHost::new();
    host.yield_waits = vec![(99, WaitInner::Frames(1))];
    let mut game = GameInner::new();
    let mut draw = DrawQueueInner::new();
    let input = InputInner::new();
    let mut log: Vec<HookCall> = Vec::new();
    game.create_object(GameObject::new(1));
    frame(&mut core, &mut host, &mut game, &mut draw, &input, &mut log);
    game.stage_coroutine(1, Coroutine { wait: WaitInner::Frames(0), error: false, block: 99 });
    // staged during this frame: routed and merged at its tidy point,
    // never resumed within the same frame
    core.update(&mut host, &mut game, &mut draw, &input, &mut log);
    assert!(host.resumes().is_empty());
    assert_eq!(game.game_objects[0].coroutines.coroutines.len(), 1);
    // the next frame resumes it exactly once
    core.update(&mut host, &mut game, &mut draw, &input, &mut log);
    assert_eq!(host.resumes(), vec![HookCall::Resume { entity: 1, block: 99 }]);
}

#[test]
fn coroutines_of_a_deleted_entity_are_dropped() {
    let mut core = CoreModule;
    let mut host = MockHost::new();
    let mut game = GameInner::new();
    let mut draw = DrawQueueInner::new();
    let input = InputInner::new();
    let mut log: Vec<HookCall> = Vec::new();
    game.create_object(GameObject::new(1));
    frame(&mut core, &mut host, &mut game, &mut draw, &input, &mut log);
    game.stage_coroutine(7, Coroutine { wait: WaitInner::Frames(0), error: false, block: 50 });
    frame(&mut core, &mut host, &mut game, &mut draw, &input, &mut log);
    // entity 7 never existed: its staged coroutine is purged at the merge
    assert!(game.pending_coroutines.is_empty());
    host.calls.clear();
    frame(&mut core, &mut host, &mut game, &mut draw, &input, &mut log);
    assert!(host.resumes().is_empty());
}

#[test]
fn update_hooks_run_before_any_coroutine_resumes() {
    let mut core = CoreModule;
    let mut host = MockHost::new();
    let mut game = GameInner::new();
    let mut draw = DrawQueueInner::new();
    let input = InputInner::new();
    let mut log: Vec<HookCall> = Vec::new();
    let mut entity = GameObject::new(1);
    entity.coroutines.push(Coroutine { wait: WaitInner::Frames(0), error: false, block: 8 });
    entity.coroutines.tidy();
    game.create_object(entity);
    game.create_object(GameObject::new(2));
    frame(&mut core, &mut host, &mut game, &mut draw, &input, &mut log);
    log.clear();
    core.update(&mut host, &mut game, &mut draw, &input, &mut log);
    assert_eq!(
        log,
        vec![
            HookCall::Update(1),
            HookCall::Update(2),
            HookCall::Resume { entity: 1, block: 8 },
        ]
    );
}

#[test]
fn script_effects_stage_and_append_without_touching_the_live_list() {
    let mut game = GameInner::new();
    let mut draw = DrawQueueInner::new();
    game.create_object(GameObject::new(1));
    let frame_before = game.time.frame;
    apply_effects(
        &mut game,
        &mut draw,
        vec![
            ScriptEffect::SetCamera(Vec2 { x: 7, y: 8 }),
            ScriptEffect::Draw(DrawCommand::Sprite {
                sprite: String::from("hero"),
                geometry: ObjectGeometry::default(),
            }),
            ScriptEffect::LoadFont {
                name: String::from("serif"),
                path: String::from("fonts/serif.ttf"),
            },
            ScriptEffect::LoadSpritesheet {
                name: String::from("s1"),
                path: String::from("images/s1.png"),
            },
            ScriptEffect::CreateSprite {
                name: String::from("hero"),
                spritesheet: String::from("s1"),
                offset: Vec2 { x: 0, y: 0 },
                size: Vec2 { x: 32, y: 32 },
            },
            ScriptEffect::RunCoroutine {
                entity: 1,
                coroutine: Coroutine { wait: WaitInner::Frames(1), error: false, block: 4 },
            },
            ScriptEffect::DeleteObject(1),
        ],
    );
    // everything was staged or appended; nothing structural moved
    assert!(game.game_objects.is_empty());
    assert_eq!(game.time.frame, frame_before);
    assert_eq!(game.camera, Vec2 { x: 7, y: 8 });
    assert_eq!(game.pending_creates.len(), 1);
    assert_eq!(game.pending_deletes, vec![1]);
    assert_eq!(game.pending_coroutines.len(), 1);
    assert_eq!(draw.queue.len(), 1);
    assert_eq!(draw.pending_fonts.len(), 1);
    assert_eq!(draw.pending_spritesheets.len(), 1);
    assert_eq!(draw.pending_sprites.len(), 1);
}
