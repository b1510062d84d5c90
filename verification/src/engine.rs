use vstd::prelude::*;

use crate::modules::draw::queue::DrawQueueInner;
use crate::modules::gameplay::game::{
    apply_effects, draw_appended_only, game_staged_only, ids_of, scripted_only, GameInner,
    ScriptEffect,
};
use crate::modules::gameplay::game_object::{GameObject, HookCall, ScriptHost};
use crate::modules::gameplay::input::InputInner;
use crate::modules::gameplay::{
    all_resume_calls_upto, deleted_calls_upto, frame_coroutines_settled, kept_objs_upto,
    CoreModule,
};
use crate::modules::{EngineModule, GameState};

verus! {

/// A failure escaping the protected call boundary of one frame: either a
/// deliberate termination request, or any other failure, carried as the
/// host's description of it.
#[derive(Debug)]
pub enum UpdateError {
    Interrupt,
    Unknown(String),
}

/// A failure of the engine as a whole.
#[derive(Debug)]
pub enum Error {
    InvalidEntryScript(String),
    Update(UpdateError),
}

/// The engine's lifecycle: initialization happens once, and a terminated
/// engine never resumes.
#[derive(Clone, Copy, Debug, PartialEq, Eq, Structural)]
pub enum EngineState {
    Uninitialized,
    Initializing,
    Running,
    Terminated,
}

/// One subsystem phase of a frame.
#[derive(Clone, Copy, Debug, PartialEq, Eq, Structural)]
pub enum FramePhase {
    PreUpdate,
    Update,
    PostUpdate,
}

/// One call the frame scheduler issued to the pluggable side, recorded in
/// the order the calls were made: a registered module's init, the loading
/// of the scripted entry point, or one frame phase on one registered
/// module.
#[derive(Clone, Copy, Debug, PartialEq, Eq, Structural)]
pub enum PhaseCall {
    Init { module: usize },
    Load,
    Phase { phase: FramePhase, module: usize, frame: u64 },
}

/// The records of one phase run over the first `k` registered modules, in
/// registration order.
pub open spec fn phase_records_upto(phase: FramePhase, frame: u64, k: int) -> Seq<PhaseCall>
    decreases k,
{
    if k <= 0 {
        Seq::empty()
    } else {
        phase_records_upto(phase, frame, k - 1).push(
            PhaseCall::Phase { phase, module: (k - 1) as usize, frame },
        )
    }
}

/// The records of one whole completed frame over `n` registered modules:
/// every module's pre-update, then every module's update, then every
/// module's post-update, each phase complete before the next begins.
pub open spec fn frame_phase_records(frame: u64, n: int) -> Seq<PhaseCall> {
    phase_records_upto(FramePhase::PreUpdate, frame, n) + phase_records_upto(
        FramePhase::Update,
        frame,
        n,
    ) + phase_records_upto(FramePhase::PostUpdate, frame, n)
}

/// The records of the phases that completed over all `n` modules before
/// the phase in which a frame failed.
pub open spec fn completed_phase_records(phase: FramePhase, frame: u64, n: int) -> Seq<
    PhaseCall,
> {
    match phase {
        FramePhase::PreUpdate => Seq::empty(),
        FramePhase::Update => phase_records_upto(FramePhase::PreUpdate, frame, n),
        FramePhase::PostUpdate => phase_records_upto(FramePhase::PreUpdate, frame, n)
            + phase_records_upto(FramePhase::Update, frame, n),
    }
}

/// The init records of the first `k` registered modules, in registration
/// order.
pub open spec fn init_records_upto(k: int) -> Seq<PhaseCall>
    decreases k,
{
    if k <= 0 {
        Seq::empty()
    } else {
        init_records_upto(k - 1).push(PhaseCall::Init { module: (k - 1) as usize })
    }
}

/// The frame scheduler: it owns the shared state, the script host, the
/// core gameplay module and the registered subsystem modules, and drives
/// every frame through its phases in registration order — core gameplay
/// services first, further modules in the order they were registered.
/// Every entity hook it issues is recorded in the hook journal, and every
/// module call in the phase journal, so both dispatches are part of its
/// contract.
pub struct Engine<G, H, M> where G: GameState, H: ScriptHost, M: EngineModule<G> {
    pub entry_script: String,
    pub game_state: G,
    pub host: H,
    pub game: GameInner,
    pub input: InputInner,
    pub draw: DrawQueueInner,
    pub hook_log: Vec<HookCall>,
    pub phase_log: Vec<PhaseCall>,
    pub core: CoreModule,
    pub modules: Vec<M>,
    pub state: EngineState,
}

impl<G, H, M> Engine<G, H, M> where G: GameState, H: ScriptHost, M: EngineModule<G> {
    /// A fresh engine around a host and a game state: not yet initialized,
    /// no module registered, an empty game starting at frame zero.
    pub fn build(entry_script: String, game_state: G, host: H) -> (r: Engine<G, H, M>)
        ensures
            r.state == EngineState::Uninitialized,
            r.entry_script == entry_script,
            r.game_state == game_state,
            r.host == host,
            r.modules@.len() == 0,
            r.hook_log@ == Seq::<HookCall>::empty(),
            r.phase_log@ == Seq::<PhaseCall>::empty(),
            r.game.time.frame == 0,
            r.game.game_objects@.len() == 0,
            r.game.pending_creates@.len() == 0,
            r.game.pending_deletes@.len() == 0,
            r.draw.queue@.len() == 0,
            r.input.input@.len() == 0,
    {
        Engine {
            entry_script,
            game_state,
            host,
            game: GameInner::new(),
            input: InputInner::new(),
            draw: DrawQueueInner::new(),
            hook_log: Vec::new(),
            phase_log: Vec::new(),
            core: CoreModule,
            modules: Vec::new(),
            state: EngineState::Uninitialized,
        }
    }

    /// Register one more subsystem module, after those already registered.
    pub fn with_module(self, module: M) -> (r: Engine<G, H, M>)
        ensures
            r.modules@ == self.modules@.push(module),
            r.state == self.state,
            r.entry_script == self.entry_script,
            r.game_state == self.game_state,
            r.host == self.host,
            r.game == self.game,
            r.input == self.input,
            r.draw == self.draw,
            r.hook_log == self.hook_log,
            r.phase_log == self.phase_log,
    {
        let Engine {
            entry_script,
            game_state,
            host,
            game,
            input,
            draw,
            hook_log,
            phase_log,
            core,
            mut modules,
            state,
        } = self;
        modules.push(module);
        Engine {
            entry_script,
            game_state,
            host,
            game,
            input,
            draw,
            hook_log,
            phase_log,
            core,
            modules,
            state,
        }
    }

    /// Initialize once: every registered module's init hook runs exactly
    /// once, in registration order, then the scripted entry point is
    /// loaded and its staged effects applied. The engine ends up running,
    /// or terminated when a module's init asked for termination.
    pub fn init(&mut self) -> (r: Result<(), UpdateError>)
        requires
            old(self).state == EngineState::Uninitialized,
        ensures
            r is Ok ==> final(self).state == EngineState::Running,
            r is Err ==> final(self).state == EngineState::Terminated,
            final(self).modules@.len() == old(self).modules@.len(),
            final(self).entry_script == old(self).entry_script,
            final(self).input == old(self).input,
            final(self).hook_log@ == old(self).hook_log@,
            old(self).modules@.len() == 0 ==> r is Ok,
            r is Ok ==> final(self).phase_log@ == old(self).phase_log@ + init_records_upto(
                old(self).modules@.len() as int,
            ).push(PhaseCall::Load),
            r is Err ==> exists|k: int|
                #![trigger init_records_upto(k + 1)]
                {
                    &&& 0 <= k < old(self).modules@.len()
                    &&& final(self).phase_log@ == old(self).phase_log@ + init_records_upto(k + 1)
                },
            r is Err ==> final(self).game == old(self).game && final(self).draw == old(
                self,
            ).draw,
            game_staged_only(old(self).game, final(self).game),
            draw_appended_only(old(self).draw, final(self).draw),
            r is Ok ==> exists|es: Seq<ScriptEffect>|
                #![trigger es.len()]
                scripted_only(old(self).game, old(self).draw, final(self).game, final(self).draw, es),
    {
        self.state = EngineState::Initializing;
        let n = self.modules.len();
        proof {
            assert(self.phase_log@ =~= old(self).phase_log@ + init_records_upto(0));
        }
        for i in 0..n
            invariant
                n == self.modules@.len(),
                n == old(self).modules@.len(),
                self.state == EngineState::Initializing,
                self.entry_script == old(self).entry_script,
                self.host == old(self).host,
                self.game == old(self).game,
                self.input == old(self).input,
                self.draw == old(self).draw,
                self.hook_log@ == old(self).hook_log@,
                self.phase_log@ == old(self).phase_log@ + init_records_upto(i as int),
        {
            self.phase_log.push(PhaseCall::Init { module: i });
            proof {
                assert(self.phase_log@ =~= old(self).phase_log@ + init_records_upto(i + 1));
            }
            let mut module = self.modules.remove(i);
            let r = module.init(&mut self.game_state);
            self.modules.insert(i, module);
            match r {
                Ok(()) => {}
                Err(e) => {
                    self.state = EngineState::Terminated;
                    proof {
                        assert(self.game.pending_creates@ =~= self.game.pending_creates@.subrange(
                            0,
                            self.game.pending_creates@.len() as int,
                        ));
                        assert(self.game.pending_deletes@ =~= self.game.pending_deletes@.subrange(
                            0,
                            self.game.pending_deletes@.len() as int,
                        ));
                        assert(self.game.pending_coroutines@
                            =~= self.game.pending_coroutines@.subrange(
                            0,
                            self.game.pending_coroutines@.len() as int,
                        ));
                        assert(self.draw.queue@ =~= self.draw.queue@.subrange(
                            0,
                            self.draw.queue@.len() as int,
                        ));
                        assert(self.draw.pending_fonts@ =~= self.draw.pending_fonts@.subrange(
                            0,
                            self.draw.pending_fonts@.len() as int,
                        ));
                        assert(self.draw.pending_spritesheets@
                            =~= self.draw.pending_spritesheets@.subrange(
                            0,
                            self.draw.pending_spritesheets@.len() as int,
                        ));
                        assert(self.draw.pending_sprites@ =~= self.draw.pending_sprites@.subrange(
                            0,
                            self.draw.pending_sprites@.len() as int,
                        ));
                    }
                    return Err(e);
                }
            }
        }
        self.phase_log.push(PhaseCall::Load);
        let effects = self.host.load_script(&self.entry_script, &self.game, &self.input);
        let ghost es = effects@;
        apply_effects(&mut self.game, &mut self.draw, effects);
        self.state = EngineState::Running;
        proof {
            assert(es.len() >= 0);
            assert(scripted_only(old(self).game, old(self).draw, self.game, self.draw, es));
            assert(self.phase_log@ =~= old(self).phase_log@ + init_records_upto(n as int).push(
                PhaseCall::Load,
            ));
        }
        Ok(())
    }

    /// One frame under the protected call boundary: each phase runs over
    /// the core module first and then every registered module, in order,
    /// and the first failure ends the frame and is handed to the boundary
    /// for classification. Every frame advances the frame counter exactly
    /// once. A completed frame records, in the phase journal, exactly one
    /// pre-update, one update and one post-update call per registered
    /// module, in registration order, each phase complete over all modules
    /// before the next begins; a failed frame records the calls up to and
    /// including the one that failed, so a failure is always some module
    /// phase's, and with no module registered a frame cannot fail. A
    /// completed frame also records one update hook per entity that was
    /// live when the frame began, in order, in the hook journal. The
    /// engine keeps running; only `handle_result` terminates it.
    pub fn update(&mut self) -> (r: Result<(), UpdateError>)
        requires
            old(self).state == EngineState::Running,
            old(self).game.time.frame < u64::MAX,
        ensures
            final(self).state == EngineState::Running,
            final(self).modules@.len() == old(self).modules@.len(),
            old(self).hook_log@.is_prefix_of(final(self).hook_log@),
            final(self).game.time.frame == old(self).game.time.frame + 1,
            old(self).modules@.len() == 0 ==> r is Ok,
            r is Ok ==> final(self).phase_log@ == old(self).phase_log@ + frame_phase_records(
                (old(self).game.time.frame + 1) as u64,
                old(self).modules@.len() as int,
            ),
            r is Err ==> exists|ph: FramePhase, k: int|
                #![trigger phase_records_upto(ph, (old(self).game.time.frame + 1) as u64, k + 1)]
                {
                    &&& 0 <= k < old(self).modules@.len()
                    &&& final(self).phase_log@ == old(self).phase_log@ + completed_phase_records(
                        ph,
                        (old(self).game.time.frame + 1) as u64,
                        old(self).modules@.len() as int,
                    ) + phase_records_upto(ph, (old(self).game.time.frame + 1) as u64, k + 1)
                },
            r is Ok ==> final(self).hook_log@.subrange(
                old(self).hook_log@.len() as int,
                old(self).hook_log@.len() + old(self).game.game_objects@.len() as int,
            ) == ids_of(old(self).game.game_objects@).map_values(|id: u64| HookCall::Update(id)),
            r is Ok ==> exists|
                mid_objs: Seq<GameObject>,
                mid_deletes: Seq<u64>,
                merged: Seq<GameObject>,
            |
                #![trigger mid_objs.len(), mid_deletes.len(), merged.len()]
                {
                    &&& ids_of(mid_objs) == ids_of(old(self).game.game_objects@)
                    &&& forall|i: int|
                        #![trigger mid_objs[i]]
                        0 <= i < mid_objs.len() ==> frame_coroutines_settled(
                            old(self).game.game_objects@[i],
                            mid_objs[i],
                            final(self).game.time.delta_micros,
                        )
                    &&& final(self).game.game_objects@ == kept_objs_upto(
                        mid_objs,
                        mid_deletes,
                        mid_objs.len() as int,
                    ) + merged
                    &&& final(self).hook_log@ == old(self).hook_log@ + ids_of(
                        old(self).game.game_objects@,
                    ).map_values(|id: u64| HookCall::Update(id)) + all_resume_calls_upto(
                        old(self).game.game_objects@,
                        final(self).game.time.delta_micros,
                        old(self).game.game_objects@.len() as int,
                    ) + deleted_calls_upto(mid_objs, mid_deletes, mid_objs.len() as int) + ids_of(
                        merged,
                    ).map_values(|id: u64| HookCall::Start(id))
                },
    {
        proof {
            assert(old(self).hook_log@.is_prefix_of(old(self).hook_log@)) by {
                assert(old(self).hook_log@ =~= old(self).hook_log@.subrange(
                    0,
                    old(self).hook_log@.len() as int,
                ));
            }
        }
        self.core.pre_update(&mut self.game);
        let ghost g_pre = self.game;
        let ghost f: u64 = g_pre.time.frame;
        let ghost n_mods = old(self).modules@.len() as int;
        match self.run_module_phase(FramePhase::PreUpdate) {
            Ok(()) => {}
            Err(e) => {
                proof {
                    let k = choose|k: int|
                        #![trigger phase_records_upto(FramePhase::PreUpdate, f, k + 1)]
                        {
                            &&& 0 <= k < n_mods
                            &&& self.phase_log@ == old(self).phase_log@ + phase_records_upto(
                                FramePhase::PreUpdate,
                                f,
                                k + 1,
                            )
                        };
                    assert(completed_phase_records(FramePhase::PreUpdate, f, n_mods)
                        =~= Seq::<PhaseCall>::empty());
                    assert(self.phase_log@ =~= old(self).phase_log@ + completed_phase_records(
                        FramePhase::PreUpdate,
                        f,
                        n_mods,
                    ) + phase_records_upto(FramePhase::PreUpdate, f, k + 1));
                    assert(f == (old(self).game.time.frame + 1) as u64);
                    assert(self.phase_log@ == old(self).phase_log@ + completed_phase_records(
                        FramePhase::PreUpdate,
                        (old(self).game.time.frame + 1) as u64,
                        old(self).modules@.len() as int,
                    ) + phase_records_upto(
                        FramePhase::PreUpdate,
                        (old(self).game.time.frame + 1) as u64,
                        k + 1,
                    ));
                }
                return Err(e);
            }
        }
        let ghost pl1 = self.phase_log@;
        let ghost log_before = self.hook_log@;
        self.core.update(
            &mut self.host,
            &mut self.game,
            &mut self.draw,
            &self.input,
            &mut self.hook_log,
        );
        let ghost g_b = self.game;
        let ghost log_b = self.hook_log@;
        proof {
            assert(log_before == old(self).hook_log@);
        }
        match self.run_module_phase(FramePhase::Update) {
            Ok(()) => {}
            Err(e) => {
                proof {
                    let k = choose|k: int|
                        #![trigger phase_records_upto(FramePhase::Update, f, k + 1)]
                        {
                            &&& 0 <= k < n_mods
                            &&& self.phase_log@ == pl1 + phase_records_upto(
                                FramePhase::Update,
                                f,
                                k + 1,
                            )
                        };
                    assert(pl1 == old(self).phase_log@ + phase_records_upto(
                        FramePhase::PreUpdate,
                        f,
                        n_mods,
                    ));
                    assert(completed_phase_records(FramePhase::Update, f, n_mods)
                        =~= phase_records_upto(FramePhase::PreUpdate, f, n_mods));
                    assert(self.phase_log@ =~= old(self).phase_log@ + completed_phase_records(
                        FramePhase::Update,
                        f,
                        n_mods,
                    ) + phase_records_upto(FramePhase::Update, f, k + 1));
                    assert(f == (old(self).game.time.frame + 1) as u64);
                    assert(self.phase_log@ == old(self).phase_log@ + completed_phase_records(
                        FramePhase::Update,
                        (old(self).game.time.frame + 1) as u64,
                        old(self).modules@.len() as int,
                    ) + phase_records_upto(
                        FramePhase::Update,
                        (old(self).game.time.frame + 1) as u64,
                        k + 1,
                    ));
                }
                return Err(e);
            }
        }
        let ghost pl2 = self.phase_log@;
        self.core.post_update(
            &mut self.host,
            &mut self.game,
            &mut self.draw,
            &self.input,
            &mut self.hook_log,
        );
        let ghost g_c = self.game;
        let ghost log_c = self.hook_log@;
        match self.run_module_phase(FramePhase::PostUpdate) {
            Ok(()) => {}
            Err(e) => {
                proof {
                    let k = choose|k: int|
                        #![trigger phase_records_upto(FramePhase::PostUpdate, f, k + 1)]
                        {
                            &&& 0 <= k < n_mods
                            &&& self.phase_log@ == pl2 + phase_records_upto(
                                FramePhase::PostUpdate,
                                f,
                                k + 1,
                            )
                        };
                    assert(pl2 == old(self).phase_log@ + phase_records_upto(
                        FramePhase::PreUpdate,
                        f,
                        n_mods,
                    ) + phase_records_upto(FramePhase::Update, f, n_mods));
                    assert(completed_phase_records(FramePhase::PostUpdate, f, n_mods)
                        =~= phase_records_upto(FramePhase::PreUpdate, f, n_mods)
                        + phase_records_upto(FramePhase::Update, f, n_mods));
                    assert(self.phase_log@ =~= old(self).phase_log@ + completed_phase_records(
                        FramePhase::PostUpdate,
                        f,
                        n_mods,
                    ) + phase_records_upto(FramePhase::PostUpdate, f, k + 1));
                    assert(f == (old(self).game.time.frame + 1) as u64);
                    assert(self.phase_log@ == old(self).phase_log@ + completed_phase_records(
                        FramePhase::PostUpdate,
                        (old(self).game.time.frame + 1) as u64,
                        old(self).modules@.len() as int,
                    ) + phase_records_upto(
                        FramePhase::PostUpdate,
                        (old(self).game.time.frame + 1) as u64,
                        k + 1,
                    ));
                }
                return Err(e);
            }
        }
        proof {
            assert(self.phase_log@ =~= old(self).phase_log@ + frame_phase_records(f, n_mods));
            let l0 = old(self).hook_log@.len() as int;
            let n = old(self).game.game_objects@.len() as int;
            let update_calls = ids_of(old(self).game.game_objects@).map_values(
                |id: u64| HookCall::Update(id),
            );
            assert(g_pre.game_objects@ == old(self).game.game_objects@);
            assert(self.game == g_c);
            assert(g_c.time == g_b.time);
            assert(g_b.time == g_pre.time);
            let resumes = all_resume_calls_upto(
                old(self).game.game_objects@,
                self.game.time.delta_micros,
                n,
            );
            assert(log_b == old(self).hook_log@ + update_calls + all_resume_calls_upto(
                g_pre.game_objects@,
                g_pre.time.delta_micros,
                g_pre.game_objects@.len() as int,
            ));
            assert(log_b == old(self).hook_log@ + update_calls + resumes);
            assert(old(self).hook_log@.is_prefix_of(log_b)) by {
                assert(old(self).hook_log@ =~= log_b.subrange(0, l0));
            }
            crate::modules::gameplay::game::lemma_prefix_transitive(
                old(self).hook_log@,
                log_b,
                self.hook_log@,
            );
            assert(self.hook_log@.subrange(l0, l0 + n) =~= update_calls) by {
                assert(log_b.is_prefix_of(self.hook_log@));
                assert(log_b =~= self.hook_log@.subrange(0, log_b.len() as int));
                assert forall|j: int| 0 <= j < n implies self.hook_log@.subrange(l0, l0 + n)[j]
                    == update_calls[j] by {
                    assert(self.hook_log@.subrange(l0, l0 + n)[j] == self.hook_log@[l0 + j]);
                    assert(self.hook_log@.subrange(0, log_b.len() as int)[l0 + j]
                        == self.hook_log@[l0 + j]);
                    assert(log_b[l0 + j] == update_calls[j]);
                }
            }
            let merged = choose|merged: Seq<GameObject>|
                #![auto]
                {
                    &&& g_b.pending_creates@.is_prefix_of(merged)
                    &&& g_c.game_objects@ == kept_objs_upto(
                        g_b.game_objects@,
                        g_b.pending_deletes@,
                        g_b.game_objects@.len() as int,
                    ) + merged
                    &&& log_c == log_b + deleted_calls_upto(
                        g_b.game_objects@,
                        g_b.pending_deletes@,
                        g_b.game_objects@.len() as int,
                    ) + ids_of(merged).map_values(|id: u64| HookCall::Start(id))
                };
            assert(ids_of(g_b.game_objects@) == ids_of(old(self).game.game_objects@));
            assert forall|i: int|
                #![trigger g_b.game_objects@[i]]
                0 <= i < g_b.game_objects@.len() implies frame_coroutines_settled(
                old(self).game.game_objects@[i],
                g_b.game_objects@[i],
                self.game.time.delta_micros,
            ) by {
                assert(frame_coroutines_settled(
                    g_pre.game_objects@[i],
                    g_b.game_objects@[i],
                    g_pre.time.delta_micros,
                ));
                assert(g_pre.game_objects@[i] == old(self).game.game_objects@[i]);
                assert(g_pre.time.delta_micros == self.game.time.delta_micros);
            }
            assert(g_b.game_objects@.len() + g_b.pending_deletes@.len() + merged.len() >= 0);
            assert(self.hook_log@ == log_c);
            assert(self.hook_log@ =~= old(self).hook_log@ + update_calls + resumes
                + deleted_calls_upto(
                g_b.game_objects@,
                g_b.pending_deletes@,
                g_b.game_objects@.len() as int,
            ) + ids_of(merged).map_values(|id: u64| HookCall::Start(id)));
            assert(ids_of(g_b.game_objects@).len() == ids_of(old(self).game.game_objects@).len());
            assert(g_b.game_objects@.len() == old(self).game.game_objects@.len());
        }
        Ok(())
    }

    /// Run one phase over every registered module in registration order,
    /// recording each call in the phase journal before making it, and
    /// stopping at the first failure. Modules see the host-side game
    /// state, the input tracker and the draw queue; the entity registry,
    /// the time source and the two journals are not theirs to touch. A
    /// clean pass records exactly one call per registered module, in
    /// order; a failing pass records the calls up to and including the
    /// failing module's, whose phase returned the failure.
    fn run_module_phase(&mut self, phase: FramePhase) -> (r: Result<(), UpdateError>)
        ensures
            final(self).state == old(self).state,
            final(self).modules@.len() == old(self).modules@.len(),
            final(self).game == old(self).game,
            final(self).hook_log@ == old(self).hook_log@,
            final(self).host == old(self).host,
            final(self).entry_script == old(self).entry_script,
            r is Ok ==> final(self).phase_log@ == old(self).phase_log@ + phase_records_upto(
                phase,
                old(self).game.time.frame,
                old(self).modules@.len() as int,
            ),
            r is Err ==> exists|k: int|
                #![trigger phase_records_upto(phase, old(self).game.time.frame, k + 1)]
                {
                    &&& 0 <= k < old(self).modules@.len()
                    &&& final(self).phase_log@ == old(self).phase_log@ + phase_records_upto(
                        phase,
                        old(self).game.time.frame,
                        k + 1,
                    )
                },
            old(self).modules@.len() == 0 ==> r is Ok,
    {
        let frame = self.game.time.frame;
        let n = self.modules.len();
        proof {
            assert(self.phase_log@ =~= old(self).phase_log@ + phase_records_upto(
                phase,
                frame,
                0,
            ));
        }
        for i in 0..n
            invariant
                n == self.modules@.len(),
                n == old(self).modules@.len(),
                self.state == old(self).state,
                self.game == old(self).game,
                self.hook_log@ == old(self).hook_log@,
                self.host == old(self).host,
                self.entry_script == old(self).entry_script,
                frame == old(self).game.time.frame,
                self.phase_log@ == old(self).phase_log@ + phase_records_upto(
                    phase,
                    frame,
                    i as int,
                ),
        {
            self.phase_log.push(PhaseCall::Phase { phase, module: i, frame });
            proof {
                assert(self.phase_log@ =~= old(self).phase_log@ + phase_records_upto(
                    phase,
                    frame,
                    i + 1,
                ));
            }
            let mut module = self.modules.remove(i);
            let r = match phase {
                FramePhase::PreUpdate => module.pre_update(
                    &mut self.game_state,
                    &mut self.input,
                    &mut self.draw,
                    frame,
                ),
                FramePhase::Update => module.update(
                    &mut self.game_state,
                    &mut self.input,
                    &mut self.draw,
                    frame,
                ),
                FramePhase::PostUpdate => module.post_update(
                    &mut self.game_state,
                    &mut self.input,
                    &mut self.draw,
                    frame,
                ),
            };
            self.modules.insert(i, module);
            match r {
                Ok(()) => {}
                Err(e) => {
                    return Err(e);
                }
            }
        }
        Ok(())
    }

    /// The protected call boundary's verdict on one frame: a clean frame
    /// keeps the engine running; an interrupt terminates it normally; any
    /// other failure terminates it too, its description left with the
    /// caller to report. There is no resuming a terminated engine.
    pub fn handle_result(&mut self, result: &Result<(), UpdateError>) -> (cont: bool)
        requires
            old(self).state == EngineState::Running,
        ensures
            cont == (result is Ok),
            result is Ok ==> *final(self) == *old(self),
            result is Err ==> final(self).state == EngineState::Terminated,
    {
        match result {
            Ok(()) => true,
            Err(_) => {
                self.state = EngineState::Terminated;
                false
            }
        }
    }
}

} // verus!
