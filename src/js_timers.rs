use vstd::prelude::*;

use std::collections::HashMap;

use crate::callback::{freeze_callback, freezes, JsTimerTask, TimerCallback};
use crate::types::{IsInterval, JsTimerHandle, OneshotTimerHandle, TimerSource};

verus! {

broadcast use vstd::std_specs::hash::group_hash_axioms;

/// Nesting levels above this one get a minimum delay.
pub const MAX_UNCLAMPED_NESTING: u32 = 5;

/// The minimum delay, in milliseconds, of a deeply nested timer.
pub const NESTED_MIN_DELAY: u64 = 4;

/// The delay a timer scheduled at `nesting_level` gets for `unclamped`.
pub open spec fn clamped(nesting_level: u32, unclamped: u64) -> u64 {
    if nesting_level > MAX_UNCLAMPED_NESTING && unclamped < NESTED_MIN_DELAY {
        NESTED_MIN_DELAY
    } else {
        unclamped
    }
}

/// Throttles chains of nested timers: beyond the fifth level a timer waits
/// at least four milliseconds.
pub fn clamp_duration(nesting_level: u32, unclamped: u64) -> (r: u64)
    ensures
        r == clamped(nesting_level, unclamped),
        r >= unclamped,
        nesting_level > MAX_UNCLAMPED_NESTING ==> r >= NESTED_MIN_DELAY,
        nesting_level <= MAX_UNCLAMPED_NESTING ==> r == unclamped,
{
    let lower_bound: u64 = if nesting_level > MAX_UNCLAMPED_NESTING {
        NESTED_MIN_DELAY
    } else {
        0
    };
    if unclamped < lower_bound {
        lower_bound
    } else {
        unclamped
    }
}

/// The registry of timeouts and intervals: maps each live application
/// handle to the one-shot entry that currently carries it.
pub struct JsTimers {
    next_timer_handle: JsTimerHandle,
    active_timers: HashMap<i32, OneshotTimerHandle>,
    /// The nesting level of the currently executing timer task, or 0.
    nesting_level: u32,
}

impl JsTimers {
    /// The handle the next registration gets.
    pub closed spec fn next_handle(&self) -> int {
        self.next_timer_handle.0 as int
    }

    /// Each live application handle and its current one-shot handle.
    pub closed spec fn active(&self) -> Map<i32, OneshotTimerHandle> {
        self.active_timers@
    }

    /// The nesting level of the task that runs now, or 0.
    pub closed spec fn nesting(&self) -> u32 {
        self.nesting_level
    }

    pub open spec fn wf(&self) -> bool {
        &&& self.next_handle() >= 1
        &&& forall|h: i32| #[trigger]
            self.active().dom().contains(h) ==> 1 <= h < self.next_handle()
    }

    pub fn new() -> (r: JsTimers)
        ensures
            r.wf(),
            r.next_handle() == 1,
            r.active() == Map::<i32, OneshotTimerHandle>::empty(),
            r.nesting() == 0,
    {
        JsTimers { next_timer_handle: JsTimerHandle(1), active_timers: HashMap::new(), nesting_level: 0 }
    }

    /// Allocates the application handle of a new timeout or interval and
    /// builds its task; the caller arms the task on the one-shot queue.
    pub fn set_timeout_or_interval(
        &mut self,
        callback: TimerCallback,
        arguments: Vec<u64>,
        timeout: i32,
        is_interval: IsInterval,
        source: TimerSource,
    ) -> (r: JsTimerTask)
        requires
            old(self).wf(),
            old(self).next_handle() < i32::MAX,
        ensures
            final(self).wf(),
            r.handle == JsTimerHandle(old(self).next_handle() as i32),
            final(self).next_handle() == old(self).next_handle() + 1,
            final(self).active() == old(self).active(),
            final(self).nesting() == old(self).nesting(),
            r.source == source,
            freezes(callback, arguments@, r.callback),
            r.is_interval == is_interval,
            r.nesting_level == 0,
            r.duration == if timeout < 0 { 0 } else { timeout as u64 },
    {
        let callback = freeze_callback(callback, arguments);
        let JsTimerHandle(new_handle) = self.next_timer_handle;
        self.next_timer_handle = JsTimerHandle(new_handle + 1);
        let duration: u64 = if timeout < 0 { 0 } else { timeout as u64 };
        proof {
            assert forall|h: i32| self.active().dom().contains(h) implies 1 <= h
                < self.next_handle() by {
                assert(old(self).active().dom().contains(h));
            }
        }
        JsTimerTask {
            handle: JsTimerHandle(new_handle),
            source,
            callback,
            is_interval,
            nesting_level: 0,
            duration,
        }
    }

    /// Forgets an application handle; returns the one-shot entry that the
    /// caller must cancel, if the handle was live.
    pub fn clear_timeout_or_interval(&mut self, handle: i32) -> (r: Option<OneshotTimerHandle>)
        requires
            old(self).wf(),
        ensures
            final(self).wf(),
            final(self).active() == old(self).active().remove(handle),
            final(self).next_handle() == old(self).next_handle(),
            final(self).nesting() == old(self).nesting(),
            r == (if old(self).active().contains_key(handle) {
                Some(old(self).active()[handle])
            } else {
                None::<OneshotTimerHandle>
            }),
    {
        let r = self.active_timers.remove(&handle);
        proof {
            assert forall|h: i32| self.active().dom().contains(h) implies 1 <= h
                < self.next_handle() by {
                assert(old(self).active().dom().contains(h));
            }
        }
        r
    }

    /// Points an application handle at the one-shot entry that now carries it.
    pub fn record(&mut self, handle: JsTimerHandle, oneshot_handle: OneshotTimerHandle)
        requires
            old(self).wf(),
            1 <= handle.0 < old(self).next_handle(),
        ensures
            final(self).wf(),
            final(self).active() == old(self).active().insert(handle.0, oneshot_handle),
            final(self).next_handle() == old(self).next_handle(),
            final(self).nesting() == old(self).nesting(),
    {
        self.active_timers.insert(handle.0, oneshot_handle);
        proof {
            assert forall|h: i32| self.active().dom().contains(h) implies 1 <= h
                < self.next_handle() by {
                if h != handle.0 {
                    assert(old(self).active().dom().contains(h));
                }
            }
        }
    }

    /// Makes `task`'s nesting level the current one while it runs.
    pub fn enter(&mut self, task: &JsTimerTask)
        ensures
            final(self).nesting() == task.nesting_level,
            final(self).active() == old(self).active(),
            final(self).next_handle() == old(self).next_handle(),
    {
        self.nesting_level = task.nesting_level;
    }

    /// Resets the nesting level after `task` ran; returns whether the task
    /// is an interval that is still live and must be armed again.
    pub fn leave(&mut self, task: &JsTimerTask) -> (r: bool)
        requires
            old(self).wf(),
        ensures
            final(self).nesting() == 0,
            final(self).active() == old(self).active(),
            final(self).next_handle() == old(self).next_handle(),
            r == (task.is_interval == IsInterval::Interval && old(self).active().contains_key(
                task.handle.0,
            )),
    {
        self.nesting_level = 0;
        task.is_interval == IsInterval::Interval && self.active_timers.contains_key(&task.handle.0)
    }

    /// The nesting level of the task that runs now, or 0.
    pub fn nesting_level(&self) -> (r: u32)
        ensures
            r == self.nesting(),
    {
        self.nesting_level
    }

    /// Whether `handle` is a live timeout or interval.
    pub fn is_active(&self, handle: i32) -> (r: bool)
        ensures
            r == self.active().contains_key(handle),
    {
        self.active_timers.contains_key(&handle)
    }

    /// The application handle the next registration gets.
    pub fn next_timer_handle(&self) -> (r: i32)
        ensures
            r == self.next_handle(),
    {
        self.next_timer_handle.0
    }
}

} // verus!
