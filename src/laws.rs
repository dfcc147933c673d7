use vstd::prelude::*;

use crate::callback::{JsTimerTask, OneshotTimerCallback};
use crate::js_timers::{clamped, MAX_UNCLAMPED_NESTING, NESTED_MIN_DELAY};
use crate::queue::{arms_task, fired_batch, fires_before, latest_first, OneshotTimer, OneshotTimers};
use crate::types::{OneshotTimerHandle, TimerEventRequest};

verus! {

/// A fire hands out the due entries by deadline, entries with the same
/// deadline in the order they were registered, and none of them before its
/// deadline in logical time.
pub proof fn lemma_fired_in_deadline_order(
    before: Seq<OneshotTimer>,
    after: Seq<OneshotTimer>,
    batch: Seq<OneshotTimer>,
    base: int,
)
    requires
        latest_first(before),
        fired_batch(before, after, batch, base),
    ensures
        forall|i: int, j: int|
            0 <= i < j < batch.len() ==> fires_before(#[trigger] batch[i], #[trigger] batch[j]),
        forall|i: int| 0 <= i < batch.len() ==> #[trigger] batch[i].scheduled_for <= base,
{
    let n = before.len();
    assert forall|i: int, j: int| 0 <= i < j < batch.len() implies fires_before(
        #[trigger] batch[i],
        #[trigger] batch[j],
    ) by {
        assert(batch[i] == before[n - 1 - i]);
        assert(batch[j] == before[n - 1 - j]);
    }
}

/// Registration order is handle order: an entry scheduled later gets a
/// handle above every entry pending before it.
pub proof fn lemma_later_registration_larger_handle(
    q: OneshotTimers,
    post: OneshotTimers,
    e: OneshotTimer,
    now: u64,
    r: Option<TimerEventRequest>,
)
    requires
        q.wf(),
        q.added(&post, e, now, r),
    ensures
        forall|i: int| 0 <= i < q.pending().len() ==> #[trigger] q.pending()[i].handle.0 < e.handle.0,
        e.handle.0 < post.next_handle(),
{
}

/// Once an entry is cancelled, no notification fires it: whatever a later
/// fire hands out, the cancelled handle is not among it.
pub proof fn lemma_cancelled_never_fires(
    q: OneshotTimers,
    post: OneshotTimers,
    handle: OneshotTimerHandle,
    now: u64,
    r: Option<TimerEventRequest>,
    after: Seq<OneshotTimer>,
    batch: Seq<OneshotTimer>,
    base: int,
)
    requires
        q.cancelled(&post, handle, now, r),
        fired_batch(post.pending(), after, batch, base),
    ensures
        forall|i: int| 0 <= i < batch.len() ==> #[trigger] batch[i].handle != handle,
        forall|i: int| 0 <= i < after.len() ==> #[trigger] after[i].handle != handle,
{
    let n = post.pending().len();
    assert forall|i: int| 0 <= i < batch.len() implies #[trigger] batch[i].handle != handle by {
        assert(batch[i] == post.pending()[n - 1 - i]);
    }
    assert forall|i: int| 0 <= i < after.len() implies #[trigger] after[i].handle != handle by {
        assert(after[i] == post.pending()[i]);
    }
}

/// Suspending at `t1` and resuming at `t2` keeps every pending entry in its
/// place and shifts logical time back by exactly the suspended gap: logical
/// time at `t2` is what it was at `t1`.
pub proof fn lemma_suspend_resume_keeps_timeline(
    q0: OneshotTimers,
    q1: OneshotTimers,
    q2: OneshotTimers,
    t1: u64,
    t2: u64,
)
    requires
        q0.suspension() is None,
        t1 <= t2,
        q1.suspension() == Some(t1),
        q1.pending() == q0.pending(),
        q1.offset() == q0.offset(),
        q2.suspension() is None,
        q2.offset() == q1.offset() + t2 - t1,
        q2.pending() == q1.pending(),
    ensures
        q2.pending() == q0.pending(),
        q2.logical_time(t2) == q0.logical_time(t1),
        forall|t: u64| #[trigger] q2.logical_time(t) == q0.logical_time(t) - (t2 - t1),
        forall|t: u64| #[trigger] q1.logical_time(t) == q0.logical_time(t1),
{
}

/// An interval that is still registered when it finishes is armed again
/// under a fresh one-shot entry, carrying the same application handle, and
/// the registry points at that entry.
pub proof fn lemma_interval_rearms_fresh_entry(
    q: OneshotTimers,
    post: OneshotTimers,
    task: JsTimerTask,
    now: u64,
    r: Option<TimerEventRequest>,
)
    requires
        q.wf(),
        task.is_interval == crate::types::IsInterval::Interval,
        q.js().active().contains_key(task.handle.0),
        q.finished(&post, task, now, r),
    ensures
        post.pending().len() == q.pending().len() + 1,
        post.next_handle() == q.next_handle() + 1,
        forall|i: int| 0 <= i < q.pending().len() ==> #[trigger] q.pending()[i].handle.0 < q.next_handle(),
        exists|i: int|
            0 <= i < post.pending().len() && (#[trigger] post.pending()[i]).handle.0 == q.next_handle()
                && (post.pending()[i].callback matches OneshotTimerCallback::JsTimer(t) && t.handle
                == task.handle),
        post.js().active()[task.handle.0] == OneshotTimerHandle(q.next_handle() as i32),
{
    let e = choose|e: OneshotTimer| #[trigger] q.added(&post, e, now, r) && arms_task(e, task, 0, q.logical_time(now));
    let i = choose|i: int| 0 <= i <= q.pending().len() && post.pending() == #[trigger] q.pending().insert(i, e);
    assert(post.pending()[i] == e);
    assert(post.pending()[i].handle.0 == q.next_handle());
}

/// An interval cancelled while its callback runs is not armed again.
pub proof fn lemma_cancel_stops_interval(
    q0: OneshotTimers,
    q1: OneshotTimers,
    q2: OneshotTimers,
    task: JsTimerTask,
    now: u64,
    r: Option<TimerEventRequest>,
)
    requires
        q1.js().active() == q0.js().active().remove(task.handle.0),
        q1.finished(&q2, task, now, r),
    ensures
        q2.pending() == q1.pending(),
        q2.next_handle() == q1.next_handle(),
        r is None,
{
}

/// The nesting clamp on a requested duration of zero: up to the fifth
/// level an entry is due at once; deeper, four milliseconds later. The task
/// it carries runs one level deeper.
pub proof fn lemma_nested_zero_delay(e: OneshotTimer, task: JsTimerTask, level: u32, base: int)
    requires
        arms_task(e, task, level, base),
        task.duration == 0,
    ensures
        level <= MAX_UNCLAMPED_NESTING ==> e.scheduled_for == base,
        level > MAX_UNCLAMPED_NESTING ==> e.scheduled_for == base + NESTED_MIN_DELAY,
        e.callback matches OneshotTimerCallback::JsTimer(t) && t.nesting_level == level + 1,
{
}

/// The clamp never shortens a delay, and beyond the fifth level it is at
/// least four milliseconds.
pub proof fn lemma_clamp_bounds(level: u32, unclamped: u64)
    ensures
        clamped(level, unclamped) >= unclamped,
        level > MAX_UNCLAMPED_NESTING ==> clamped(level, unclamped) >= NESTED_MIN_DELAY,
        level <= MAX_UNCLAMPED_NESTING ==> clamped(level, unclamped) == unclamped,
{
}

} // verus!
