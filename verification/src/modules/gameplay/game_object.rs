use vstd::prelude::*;

use crate::modules::gameplay::coroutines::{Coroutines, ResumeOutcome};
use crate::modules::gameplay::game::{GameInner, ScriptEffect};
use crate::modules::gameplay::input::InputInner;

verus! {

/// One scripted entity: a stable identity, under which deletion requests
/// and staged coroutines are matched against the live list, and the
/// entity's own coroutine list. The scripted object behind the identity
/// lives with the host.
pub struct GameObject {
    pub id: u64,
    pub coroutines: Coroutines,
}

impl GameObject {
    /// A fresh entity under a given identity, carrying an empty coroutine
    /// list.
    pub fn new(id: u64) -> (r: GameObject)
        ensures
            r.id == id,
            r.coroutines.coroutines@ == Seq::<
                crate::modules::gameplay::coroutines::Coroutine,
            >::empty(),
            r.coroutines.pending@ == Seq::<
                crate::modules::gameplay::coroutines::Coroutine,
            >::empty(),
    {
        GameObject { id, coroutines: Coroutines::new() }
    }

    /// The per-frame merge point of this entity's own coroutines: pending
    /// coroutines join the end of the active list.
    pub fn tidy_coroutines(&mut self)
        ensures
            final(self).id == old(self).id,
            final(self).coroutines.coroutines@ == old(self).coroutines.coroutines@ + old(
                self,
            ).coroutines.pending@,
            final(self).coroutines.pending@ == Seq::<
                crate::modules::gameplay::coroutines::Coroutine,
            >::empty(),
    {
        self.coroutines.tidy();
    }
}

/// One hook invocation the engine issued, recorded in the order the calls
/// were made: the entity whose hook ran, and for a coroutine resumption
/// also the resumed routine's handle.
#[derive(Clone, Copy, Debug, PartialEq, Eq, Structural)]
pub enum HookCall {
    Start(u64),
    Update(u64),
    Delete(u64),
    Resume { entity: u64, block: u64 },
}

/// What the host reports back from resuming one coroutine: the outcome,
/// and the side effects the routine's code asked for while it ran.
pub struct ResumeReply {
    pub outcome: ResumeOutcome,
    pub effects: Vec<ScriptEffect>,
}

/// The scripted side of the engine: the host runs entity lifecycle hooks
/// and resumes stored routines, and hands back the side effects the
/// scripted code asked for. A hook that fails is the host's to log; the
/// effects it managed before failing are still handed back, so one broken
/// entity never stops the others. The host reads the shared state and asks
/// for changes only through effects, which the engine applies itself.
pub trait ScriptHost {
    /// Run the scripted entry point.
    fn load_script(&mut self, path: &String, game: &GameInner, input: &InputInner) -> Vec<
        ScriptEffect,
    >;

    /// Run one entity's on-start hook.
    fn on_start(&mut self, game: &GameInner, input: &InputInner, entity: u64) -> Vec<ScriptEffect>;

    /// Run one entity's per-frame update hook.
    fn update(&mut self, game: &GameInner, input: &InputInner, entity: u64) -> Vec<ScriptEffect>;

    /// Run one entity's on-delete hook.
    fn on_delete(&mut self, game: &GameInner, input: &InputInner, entity: u64) -> Vec<
        ScriptEffect,
    >;

    /// Resume one stored routine of an entity, exactly once.
    fn resume(&mut self, game: &GameInner, input: &InputInner, entity: u64, block: u64)
        -> ResumeReply;
}

} // verus!
