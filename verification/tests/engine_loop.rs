use engine_core::engine::{Engine, EngineState, FramePhase, PhaseCall, UpdateError};
use engine_core::modules::draw::queue::DrawQueueInner;
use engine_core::modules::gameplay::game::{GameInner, ScriptEffect};
use engine_core::modules::gameplay::game_object::{GameObject, HookCall, ResumeReply, ScriptHost};
use engine_core::modules::gameplay::input::InputInner;
use engine_core::modules::gameplay::coroutines::ResumeOutcome;
use engine_core::modules::gameplay::wait::WaitInner;
use engine_core::{EngineModule, WindowOptions};

/// A host whose entry script stages one entity.
struct BootHost {
    loaded: u32,
}

impl ScriptHost for BootHost {
    fn load_script(
        &mut self,
        _path: &String,
        _game: &GameInner,
        _input: &InputInner,
    ) -> Vec<ScriptEffect> {
        self.loaded += 1;
        vec![ScriptEffect::CreateObject(GameObject::new(1))]
    }

    fn on_start(&mut self, _game: &GameInner, _input: &InputInner, _entity: u64) -> Vec<
        ScriptEffect,
    > {
        Vec::new()
    }

    fn update(&mut self, _game: &GameInner, _input: &InputInner, _entity: u64) -> Vec<
        ScriptEffect,
    > {
        Vec::new()
    }

    fn on_delete(&mut self, _game: &GameInner, _input: &InputInner, _entity: u64) -> Vec<
        ScriptEffect,
    > {
        Vec::new()
    }

    fn resume(
        &mut self,
        _game: &GameInner,
        _input: &InputInner,
        _entity: u64,
        _block: u64,
    ) -> ResumeReply {
        ResumeReply { outcome: ResumeOutcome::Yielded(WaitInner::Done), effects: Vec::new() }
    }
}

/// A subsystem module that records the frames on which its phases ran and
/// can ask for termination during pre-update.
struct ProbeModule {
    init_runs: u32,
    pre_update_frames: Vec<u64>,
    post_update_frames: Vec<u64>,
    interrupt_on_frame: Option<u64>,
}

impl ProbeModule {
    fn new() -> ProbeModule {
        ProbeModule {
            init_runs: 0,
            pre_update_frames: Vec::new(),
            post_update_frames: Vec::new(),
            interrupt_on_frame: None,
        }
    }
}

impl EngineModule<WindowOptions> for ProbeModule {
    fn init(&mut self, _game_state: &mut WindowOptions) -> Result<(), UpdateError> {
        self.init_runs += 1;
        Ok(())
    }

    fn pre_update(
        &mut self,
        _game_state: &mut WindowOptions,
        _input: &mut InputInner,
        draw: &mut DrawQueueInner,
        frame: u64,
    ) -> Result<(), UpdateError> {
        self.pre_update_frames.push(frame);
        draw.clear_commands();
        if self.interrupt_on_frame == Some(frame) {
            return Err(UpdateError::Interrupt);
        }
        Ok(())
    }

    fn post_update(
        &mut self,
        _game_state: &mut WindowOptions,
        _input: &mut InputInner,
        _draw: &mut DrawQueueInner,
        frame: u64,
    ) -> Result<(), UpdateError> {
        self.post_update_frames.push(frame);
        Ok(())
    }
}

fn window() -> WindowOptions {
    WindowOptions { width: 640, height: 480, title: String::from("probe") }
}

fn build_engine() -> Engine<WindowOptions, BootHost, ProbeModule> {
    Engine::build(String::from("main.rb"), window(), BootHost { loaded: 0 })
        .with_module(ProbeModule::new())
}

#[test]
fn engine_walks_its_lifecycle_states() {
    let mut engine = build_engine();
    assert_eq!(engine.state, EngineState::Uninitialized);
    assert!(engine.init().is_ok());
    assert_eq!(engine.state, EngineState::Running);
    let r = engine.update();
    assert!(r.is_ok());
    assert!(engine.handle_result(&r));
    assert_eq!(engine.state, EngineState::Running);
}

#[test]
fn init_runs_each_module_once_and_loads_the_entry_script() {
    let mut engine = build_engine();
    engine.init().unwrap();
    assert_eq!(engine.modules[0].init_runs, 1);
    assert_eq!(engine.host.loaded, 1);
    // the staged entity from the entry script is merged at the first frame
    assert_eq!(engine.game.pending_creates.len(), 1);
    engine.update().unwrap();
    assert_eq!(engine.game.game_objects.len(), 1);
    assert_eq!(engine.game.game_objects[0].id, 1);
}

#[test]
fn core_time_advances_before_module_phases_see_the_frame() {
    let mut engine = build_engine();
    engine.init().unwrap();
    engine.update().unwrap();
    engine.update().unwrap();
    assert_eq!(engine.modules[0].pre_update_frames, vec![1, 2]);
    assert_eq!(engine.modules[0].post_update_frames, vec![1, 2]);
    assert_eq!(engine.game.time.frame, 2);
}

#[test]
fn interrupt_terminates_the_loop_normally() {
    let mut engine = build_engine();
    engine.init().unwrap();
    engine.modules[0].interrupt_on_frame = Some(2);
    let r1 = engine.update();
    assert!(engine.handle_result(&r1));
    let r2 = engine.update();
    assert!(matches!(r2, Err(UpdateError::Interrupt)));
    assert!(!engine.handle_result(&r2));
    assert_eq!(engine.state, EngineState::Terminated);
}

#[test]
fn a_failing_frame_terminates_the_engine() {
    let mut engine = build_engine();
    engine.init().unwrap();
    let r: Result<(), UpdateError> = Err(UpdateError::Unknown(String::from("boom")));
    assert!(!engine.handle_result(&r));
    assert_eq!(engine.state, EngineState::Terminated);
}

#[test]
fn hook_journal_records_the_boot_entity() {
    let mut engine = build_engine();
    engine.init().unwrap();
    engine.update().unwrap();
    engine.update().unwrap();
    assert_eq!(
        engine.hook_log,
        vec![HookCall::Start(1), HookCall::Update(1)]
    );
}

#[test]
fn init_journal_records_every_module_then_the_script_load() {
    let mut engine = build_engine();
    engine.init().unwrap();
    assert_eq!(
        engine.phase_log,
        vec![PhaseCall::Init { module: 0 }, PhaseCall::Load]
    );
}

#[test]
fn frame_journal_records_each_phase_over_every_module() {
    let mut engine = build_engine();
    engine.init().unwrap();
    let before = engine.phase_log.len();
    engine.update().unwrap();
    assert_eq!(
        &engine.phase_log[before..],
        &[
            PhaseCall::Phase { phase: FramePhase::PreUpdate, module: 0, frame: 1 },
            PhaseCall::Phase { phase: FramePhase::Update, module: 0, frame: 1 },
            PhaseCall::Phase { phase: FramePhase::PostUpdate, module: 0, frame: 1 },
        ]
    );
}

#[test]
fn phases_complete_over_all_modules_before_the_next_begins() {
    let mut engine: Engine<WindowOptions, BootHost, ProbeModule> =
        Engine::build(String::from("main.rb"), window(), BootHost { loaded: 0 })
            .with_module(ProbeModule::new())
            .with_module(ProbeModule::new());
    engine.init().unwrap();
    assert_eq!(
        engine.phase_log,
        vec![
            PhaseCall::Init { module: 0 },
            PhaseCall::Init { module: 1 },
            PhaseCall::Load,
        ]
    );
    let before = engine.phase_log.len();
    engine.update().unwrap();
    assert_eq!(
        &engine.phase_log[before..],
        &[
            PhaseCall::Phase { phase: FramePhase::PreUpdate, module: 0, frame: 1 },
            PhaseCall::Phase { phase: FramePhase::PreUpdate, module: 1, frame: 1 },
            PhaseCall::Phase { phase: FramePhase::Update, module: 0, frame: 1 },
            PhaseCall::Phase { phase: FramePhase::Update, module: 1, frame: 1 },
            PhaseCall::Phase { phase: FramePhase::PostUpdate, module: 0, frame: 1 },
            PhaseCall::Phase { phase: FramePhase::PostUpdate, module: 1, frame: 1 },
        ]
    );
}

#[test]
fn a_failing_phase_is_the_last_journal_record() {
    let mut engine = build_engine();
    engine.init().unwrap();
    engine.modules[0].interrupt_on_frame = Some(1);
    let r = engine.update();
    assert!(matches!(r, Err(UpdateError::Interrupt)));
    assert_eq!(
        engine.phase_log.last(),
        Some(&PhaseCall::Phase { phase: FramePhase::PreUpdate, module: 0, frame: 1 })
    );
}
