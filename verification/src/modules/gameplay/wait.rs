use vstd::prelude::*;

verus! {

/// Resumption condition of a coroutine.
///
/// A `Seconds` wait counts remaining real time in microseconds; a `Frames`
/// wait counts remaining scheduler ticks. `Done` marks a finished coroutine,
/// which is never ready again and is eligible for removal.
#[derive(Clone, Copy, Debug, PartialEq, Eq, Structural)]
pub enum WaitInner {
    /// Remaining time to wait, in microseconds.
    Seconds(u64),
    /// Remaining number of frames to wait.
    Frames(usize),
    /// The coroutine has finished.
    Done,
}

/// One scheduler tick applied to a wait condition: a `Seconds` wait loses the
/// elapsed time, a `Frames` wait loses one frame, both saturating at zero;
/// `Done` stays `Done`.
pub open spec fn tick_wait(w: WaitInner, delta_micros: u64) -> WaitInner {
    match w {
        WaitInner::Seconds(m) => WaitInner::Seconds(
            if m >= delta_micros {
                (m - delta_micros) as u64
            } else {
                0u64
            },
        ),
        WaitInner::Frames(f) => WaitInner::Frames(
            if f > 0 {
                (f - 1) as usize
            } else {
                0usize
            },
        ),
        WaitInner::Done => WaitInner::Done,
    }
}

/// A wait condition is ready exactly when its counter has reached zero;
/// `Done` is never ready.
pub open spec fn wait_ready(w: WaitInner) -> bool {
    match w {
        WaitInner::Seconds(m) => m == 0,
        WaitInner::Frames(f) => f == 0,
        WaitInner::Done => false,
    }
}

/// A wait condition is done exactly when it is `Done`.
pub open spec fn wait_done(w: WaitInner) -> bool {
    w is Done
}

/// The wait condition reached after a whole sequence of scheduler ticks,
/// whose elapsed times are given in order.
pub open spec fn tick_wait_all(w: WaitInner, deltas: Seq<u64>) -> WaitInner
    decreases deltas.len(),
{
    if deltas.len() == 0 {
        w
    } else {
        tick_wait_all(tick_wait(w, deltas[0]), deltas.drop_first())
    }
}

/// Total elapsed time of a sequence of ticks, in microseconds.
pub open spec fn sum_micros(deltas: Seq<u64>) -> int
    decreases deltas.len(),
{
    if deltas.len() == 0 {
        0
    } else {
        deltas[0] + sum_micros(deltas.drop_first())
    }
}

pub proof fn lemma_sum_micros_nonneg(deltas: Seq<u64>)
    ensures
        sum_micros(deltas) >= 0,
    decreases deltas.len(),
{
    if deltas.len() > 0 {
        lemma_sum_micros_nonneg(deltas.drop_first());
    }
}

/// A coroutine waiting for `k` frames is ready exactly after `k` scheduler
/// ticks have been applied to it, whatever time each tick took; in
/// particular a zero-frame wait is ready at its very first tick.
pub proof fn lemma_frames_ready(k: usize, deltas: Seq<u64>)
    ensures
        wait_ready(tick_wait_all(WaitInner::Frames(k), deltas)) <==> deltas.len() >= k,
    decreases deltas.len(),
{
    if deltas.len() > 0 {
        let k2: usize = if k > 0 {
            (k - 1) as usize
        } else {
            0usize
        };
        lemma_frames_ready(k2, deltas.drop_first());
    }
}

/// A coroutine waiting for `s` microseconds is not ready while the
/// cumulative elapsed time of its ticks is below `s`, and is ready as soon
/// as the cumulative elapsed time reaches `s`.
pub proof fn lemma_seconds_ready(s: u64, deltas: Seq<u64>)
    ensures
        wait_ready(tick_wait_all(WaitInner::Seconds(s), deltas)) <==> sum_micros(deltas) >= s,
    decreases deltas.len(),
{
    if deltas.len() > 0 {
        let d = deltas[0];
        let s2: u64 = if s >= d {
            (s - d) as u64
        } else {
            0u64
        };
        lemma_seconds_ready(s2, deltas.drop_first());
        lemma_sum_micros_nonneg(deltas.drop_first());
    }
}

/// Ticking one more frame after a history of ticks extends the history:
/// the per-frame scheduling steps accumulate into the laws above.
pub proof fn lemma_tick_wait_all_extend(w: WaitInner, deltas: Seq<u64>, d: u64)
    ensures
        tick_wait_all(w, deltas.push(d)) == tick_wait(tick_wait_all(w, deltas), d),
    decreases deltas.len(),
{
    if deltas.len() == 0 {
        assert(deltas.push(d)[0] == d);
        assert(deltas.push(d).drop_first() =~= Seq::<u64>::empty());
        assert(tick_wait_all(tick_wait(w, d), Seq::<u64>::empty()) == tick_wait(w, d));
        assert(tick_wait_all(w, Seq::<u64>::empty()) == w);
    } else {
        assert(deltas.push(d)[0] == deltas[0]);
        assert(deltas.push(d).drop_first() =~= deltas.drop_first().push(d));
        lemma_tick_wait_all_extend(tick_wait(w, deltas[0]), deltas.drop_first(), d);
    }
}

/// A finished coroutine stays finished under any sequence of ticks and is
/// never ready.
pub proof fn lemma_done_never_ready(deltas: Seq<u64>)
    ensures
        tick_wait_all(WaitInner::Done, deltas) == WaitInner::Done,
        !wait_ready(tick_wait_all(WaitInner::Done, deltas)),
    decreases deltas.len(),
{
    if deltas.len() > 0 {
        lemma_done_never_ready(deltas.drop_first());
    }
}

} // verus!
