use engine_core::modules::gameplay::coroutines::{Coroutine, Coroutines, ResumeOutcome};
use engine_core::modules::gameplay::wait::WaitInner;

fn frames(n: usize) -> Coroutine {
    Coroutine { wait: WaitInner::Frames(n), error: false, block: 1 }
}

fn seconds(micros: u64) -> Coroutine {
    Coroutine { wait: WaitInner::Seconds(micros), error: false, block: 2 }
}

#[test]
fn frames_wait_counts_scheduler_ticks() {
    let mut c = frames(3);
    c.schedule(999);
    assert!(!c.ready());
    c.schedule(1);
    assert!(!c.ready());
    c.schedule(123_456);
    assert!(c.ready());
    assert_eq!(c.wait, WaitInner::Frames(0));
}

#[test]
fn zero_frames_wait_is_ready_on_first_tick() {
    let mut c = frames(0);
    c.schedule(1);
    assert!(c.ready());
}

#[test]
fn frames_wait_saturates_at_zero() {
    let mut c = frames(0);
    c.schedule(1);
    c.schedule(1);
    assert_eq!(c.wait, WaitInner::Frames(0));
    assert!(c.ready());
}

#[test]
fn seconds_wait_not_ready_below_cumulative_elapsed() {
    let mut c = seconds(2_000_000);
    c.schedule(1_999_999);
    assert!(!c.ready());
    c.schedule(1);
    assert!(c.ready());
}

#[test]
fn seconds_wait_ready_once_cumulative_reaches_total() {
    // run_for of two seconds with a fixed one-second delta per frame:
    // not ready on tick one, ready on tick two.
    let mut c = seconds(2_000_000);
    c.schedule(1_000_000);
    assert!(!c.ready());
    c.schedule(1_000_000);
    assert!(c.ready());
}

#[test]
fn seconds_wait_saturates_past_zero() {
    let mut c = seconds(500);
    c.schedule(1_000_000);
    assert_eq!(c.wait, WaitInner::Seconds(0));
    assert!(c.ready());
}

#[test]
fn done_is_never_ready_and_always_done() {
    let mut c = Coroutine { wait: WaitInner::Done, error: false, block: 3 };
    assert!(!c.ready());
    assert!(c.done());
    c.schedule(1_000_000);
    assert_eq!(c.wait, WaitInner::Done);
    assert!(!c.ready());
}

#[test]
fn pending_coroutines_merge_only_at_tidy() {
    let mut list = Coroutines::new();
    list.push(frames(1));
    assert_eq!(list.coroutines.len(), 0);
    assert_eq!(list.pending.len(), 1);
    list.tidy();
    assert_eq!(list.coroutines.len(), 1);
    assert_eq!(list.pending.len(), 0);
    assert_eq!(list.coroutines[0], frames(1));
}

#[test]
fn tidy_appends_pending_after_active_in_order() {
    let mut list = Coroutines::new();
    list.push(frames(1));
    list.tidy();
    list.push(frames(2));
    list.push(frames(3));
    list.tidy();
    assert_eq!(
        list.coroutines,
        vec![frames(1), frames(2), frames(3)]
    );
}

#[test]
fn schedule_all_ticks_every_active_coroutine() {
    let mut list = Coroutines::new();
    list.push(frames(2));
    list.push(seconds(1_000));
    list.tidy();
    list.schedule_all(600);
    assert_eq!(list.coroutines[0].wait, WaitInner::Frames(1));
    assert_eq!(list.coroutines[1].wait, WaitInner::Seconds(400));
}

#[test]
fn failed_coroutine_is_removed_and_siblings_survive() {
    let mut list = Coroutines::new();
    list.push(frames(5));
    list.push(frames(7));
    list.push(frames(9));
    list.tidy();
    list.set_outcome(1, ResumeOutcome::Failed);
    list.retire();
    assert_eq!(list.coroutines, vec![frames(5), frames(9)]);
}

#[test]
fn completed_coroutine_is_removed_by_retire() {
    let mut list = Coroutines::new();
    list.push(frames(5));
    list.push(frames(7));
    list.tidy();
    list.set_outcome(0, ResumeOutcome::Yielded(WaitInner::Done));
    list.retire();
    assert_eq!(list.coroutines, vec![frames(7)]);
}

#[test]
fn yielded_wait_replaces_the_coroutine_condition() {
    let mut list = Coroutines::new();
    list.push(frames(0));
    list.tidy();
    list.set_outcome(0, ResumeOutcome::Yielded(WaitInner::Seconds(42)));
    assert_eq!(list.coroutines[0].wait, WaitInner::Seconds(42));
    assert!(!list.coroutines[0].error);
    list.retire();
    assert_eq!(list.coroutines.len(), 1);
}
