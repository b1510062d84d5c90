use vstd::prelude::*;

use crate::modules::gameplay::wait::{tick_wait, wait_done, wait_ready, WaitInner};

verus! {

broadcast use vstd::seq_lib::group_filter_ensures;

/// One suspended scripted routine: its resumption condition, whether its
/// last resumption raised an error, and an opaque handle under which the
/// script host knows the stored routine.
#[derive(Clone, Copy, Debug, PartialEq, Eq, Structural)]
pub struct Coroutine {
    pub wait: WaitInner,
    pub error: bool,
    pub block: u64,
}

/// The coroutine list of one entity: the active list, resumed once per
/// frame, and a pending sublist of newly created coroutines that are merged
/// into the active list only at the per-frame tidy point.
pub struct Coroutines {
    pub pending: Vec<Coroutine>,
    pub coroutines: Vec<Coroutine>,
}

/// What the script host reports after resuming one coroutine: either the
/// routine yielded a new resumption condition (`Done` meaning it completed),
/// or it raised an error.
#[derive(Clone, Copy, Debug, PartialEq, Eq, Structural)]
pub enum ResumeOutcome {
    Yielded(WaitInner),
    Failed,
}

/// A coroutine survives the per-frame retirement exactly when it has
/// neither failed nor finished.
pub open spec fn coroutine_kept(c: Coroutine) -> bool {
    !c.error && !wait_done(c.wait)
}

/// The coroutine as it stands after the host's resume report has been
/// applied: a yielded condition replaces the wait, a failure marks the
/// coroutine failed and finished.
pub open spec fn outcome_applied(c: Coroutine, outcome: ResumeOutcome) -> Coroutine {
    match outcome {
        ResumeOutcome::Yielded(w) => Coroutine { wait: w, error: false, block: c.block },
        ResumeOutcome::Failed => Coroutine { wait: WaitInner::Done, error: true, block: c.block },
    }
}

/// A coroutine after one scheduler tick of `delta_micros` microseconds.
pub open spec fn scheduled_coroutine(c: Coroutine, delta_micros: u64) -> Coroutine {
    Coroutine { wait: tick_wait(c.wait, delta_micros), ..c }
}

/// Whether a coroutine is resumed this frame: it is ready once this
/// frame's tick has been applied to it.
pub open spec fn resumes_this_frame(c: Coroutine, delta_micros: u64) -> bool {
    wait_ready(tick_wait(c.wait, delta_micros))
}

/// A coroutine at the end of the frame's execution pass, before
/// retirement: a resumed coroutine carries the host's outcome on top of
/// its tick, every other one only its tick.
pub open spec fn resumed_coroutine(c: Coroutine, delta_micros: u64, outcome: ResumeOutcome) -> Coroutine {
    if resumes_this_frame(c, delta_micros) {
        outcome_applied(scheduled_coroutine(c, delta_micros), outcome)
    } else {
        scheduled_coroutine(c, delta_micros)
    }
}

/// A whole active list at the end of the frame's execution pass, before
/// retirement, under one host outcome per position.
pub open spec fn resumed_list(
    cs: Seq<Coroutine>,
    delta_micros: u64,
    outcomes: Seq<ResumeOutcome>,
) -> Seq<Coroutine> {
    Seq::new(cs.len(), |j: int| resumed_coroutine(cs[j], delta_micros, outcomes[j]))
}

impl Coroutine {
    /// Advance this coroutine's wait condition by one scheduler tick of
    /// `delta_micros` microseconds.
    pub fn schedule(&mut self, delta_micros: u64)
        ensures
            *final(self) == (Coroutine { wait: tick_wait(old(self).wait, delta_micros), ..*old(self) }),
    {
        match self.wait {
            WaitInner::Seconds(m) => {
                self.wait = WaitInner::Seconds(
                    if m >= delta_micros {
                        m - delta_micros
                    } else {
                        0
                    },
                );
            }
            WaitInner::Frames(f) => {
                self.wait = WaitInner::Frames(
                    if f > 0 {
                        f - 1
                    } else {
                        0
                    },
                );
            }
            WaitInner::Done => {}
        }
    }

    /// Whether this coroutine is eligible to be resumed this frame.
    pub fn ready(&self) -> (r: bool)
        ensures
            r == wait_ready(self.wait),
    {
        match self.wait {
            WaitInner::Seconds(m) => m == 0,
            WaitInner::Frames(f) => f == 0,
            WaitInner::Done => false,
        }
    }

    /// Whether this coroutine has finished and should be removed.
    pub fn done(&self) -> (r: bool)
        ensures
            r == wait_done(self.wait),
    {
        match self.wait {
            WaitInner::Seconds(_) => false,
            WaitInner::Frames(_) => false,
            WaitInner::Done => true,
        }
    }
}

impl Coroutines {
    /// An empty coroutine list.
    pub fn new() -> (r: Coroutines)
        ensures
            r.pending@ == Seq::<Coroutine>::empty(),
            r.coroutines@ == Seq::<Coroutine>::empty(),
    {
        Coroutines { pending: Vec::new(), coroutines: Vec::new() }
    }

    /// Stage a newly created coroutine. It is not resumed before the next
    /// tidy point has merged it into the active list.
    pub fn push(&mut self, coroutine: Coroutine)
        ensures
            final(self).pending@ == old(self).pending@.push(coroutine),
            final(self).coroutines@ == old(self).coroutines@,
    {
        self.pending.push(coroutine);
    }

    /// The per-frame merge point: append every pending coroutine to the end
    /// of the active list, leaving the pending sublist empty.
    pub fn tidy(&mut self)
        ensures
            final(self).coroutines@ == old(self).coroutines@ + old(self).pending@,
            final(self).pending@ == Seq::<Coroutine>::empty(),
    {
        let mut moved: Vec<Coroutine> = Vec::new();
        std::mem::swap(&mut self.pending, &mut moved);
        self.coroutines.append(&mut moved);
    }

    /// Advance every active coroutine's wait condition by one tick of
    /// `delta_micros` microseconds.
    pub fn schedule_all(&mut self, delta_micros: u64)
        ensures
            final(self).coroutines@.len() == old(self).coroutines@.len(),
            forall|i: int|
                0 <= i < old(self).coroutines@.len() ==> final(self).coroutines@[i] == (Coroutine {
                    wait: tick_wait(old(self).coroutines@[i].wait, delta_micros),
                    ..old(self).coroutines@[i]
                }),
            final(self).pending@ == old(self).pending@,
    {
        let n = self.coroutines.len();
        for i in 0..n
            invariant
                n == self.coroutines@.len(),
                self.coroutines@.len() == old(self).coroutines@.len(),
                forall|j: int|
                    0 <= j < i ==> self.coroutines@[j] == (Coroutine {
                        wait: tick_wait(old(self).coroutines@[j].wait, delta_micros),
                        ..old(self).coroutines@[j]
                    }),
                forall|j: int| i <= j < n ==> self.coroutines@[j] == old(self).coroutines@[j],
                self.pending@ == old(self).pending@,
        {
            let mut c = self.coroutines[i];
            c.schedule(delta_micros);
            self.coroutines.set(i, c);
        }
    }

    /// Record the host's report for the active coroutine at `i`.
    pub fn set_outcome(&mut self, i: usize, outcome: ResumeOutcome)
        requires
            i < old(self).coroutines@.len(),
        ensures
            final(self).coroutines@ == old(self).coroutines@.update(
                i as int,
                outcome_applied(old(self).coroutines@[i as int], outcome),
            ),
            final(self).pending@ == old(self).pending@,
    {
        let c = self.coroutines[i];
        let c2 = match outcome {
            ResumeOutcome::Yielded(w) => Coroutine { wait: w, error: false, block: c.block },
            ResumeOutcome::Failed => Coroutine { wait: WaitInner::Done, error: true, block: c.block },
        };
        self.coroutines.set(i, c2);
    }

    /// Remove every active coroutine that has failed or finished, keeping
    /// the others in order.
    pub fn retire(&mut self)
        ensures
            final(self).coroutines@ == old(self).coroutines@.filter(|c: Coroutine| coroutine_kept(c)),
            final(self).pending@ == old(self).pending@,
    {
        let mut taken: Vec<Coroutine> = Vec::new();
        std::mem::swap(&mut self.coroutines, &mut taken);
        let n = taken.len();
        for i in 0..n
            invariant
                n == taken@.len(),
                self.coroutines@ == taken@.subrange(0, i as int).filter(
                    |c: Coroutine| coroutine_kept(c),
                ),
                self.pending@ == old(self).pending@,
        {
            let c = taken[i];
            proof {
                assert(taken@.subrange(0, i + 1).drop_last() == taken@.subrange(0, i as int));
                reveal_with_fuel(Seq::filter, 2);
            }
            if !c.error && !c.done() {
                self.coroutines.push(c);
            }
        }
        proof {
            assert(taken@.subrange(0, n as int) == taken@);
        }
    }
}

/// A coroutine whose resumption raised an error is removed by retirement
/// and is therefore never resumed again, while every sibling coroutine
/// that has neither failed nor finished survives with its place in order.
pub proof fn lemma_failed_removed_siblings_kept(
    s: Seq<Coroutine>,
    i: int,
    outcome: ResumeOutcome,
)
    requires
        0 <= i < s.len(),
        outcome is Failed,
    ensures
        !s.update(i, outcome_applied(s[i], outcome)).filter(
            |c: Coroutine| coroutine_kept(c),
        ).contains(outcome_applied(s[i], outcome)),
        forall|j: int|
            0 <= j < s.len() && j != i && coroutine_kept(s[j]) ==> s.update(
                i,
                outcome_applied(s[i], outcome),
            ).filter(|c: Coroutine| coroutine_kept(c)).contains(s[j]),
{
    let updated = s.update(i, outcome_applied(s[i], outcome));
    let kept = updated.filter(|c: Coroutine| coroutine_kept(c));
    if kept.contains(outcome_applied(s[i], outcome)) {
        let k = choose|k: int| 0 <= k < kept.len() && kept[k] == outcome_applied(s[i], outcome);
        assert(coroutine_kept(kept[k]));
    }
    assert forall|j: int|
        0 <= j < s.len() && j != i && coroutine_kept(s[j]) implies kept.contains(s[j]) by {
        assert(updated[j] == s[j]);
        assert(kept.contains(updated[j]));
    }
}

} // verus!
