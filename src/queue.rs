use vstd::prelude::*;

use crate::callback::{freezes, JsTimerTask, OneshotTimerCallback, TimerCallback};
use crate::js_timers::{clamp_duration, clamped, JsTimers};
use crate::types::{IsInterval, JsTimerHandle, OneshotTimerHandle, TimerEventId, TimerEventRequest, TimerSource};

verus! {

/// Timestamps, in milliseconds, stay at or below this bound, so that a
/// deadline (a timestamp plus a duration of at most `i32::MAX`) fits in `u64`.
pub const MAX_TIME: u64 = 0x4000_0000_0000_0000;

/// One scheduled callback with its absolute deadline in logical time.
pub struct OneshotTimer {
    pub handle: OneshotTimerHandle,
    pub source: TimerSource,
    pub callback: OneshotTimerCallback,
    pub scheduled_for: u64,
}

/// `a` fires before `b`: an earlier deadline, or the same deadline and an
/// earlier registration.
pub open spec fn fires_before(a: OneshotTimer, b: OneshotTimer) -> bool {
    ||| a.scheduled_for < b.scheduled_for
    ||| (a.scheduled_for == b.scheduled_for && a.handle.0 < b.handle.0)
}

/// The queue is stored latest first: the entry that fires next is the last.
pub open spec fn latest_first(s: Seq<OneshotTimer>) -> bool {
    forall|i: int, j: int| 0 <= i < j < s.len() ==> fires_before(#[trigger] s[j], #[trigger] s[i])
}

/// The delay to ask of the scheduler for a deadline: never negative.
pub open spec fn delay_until(deadline: u64, now: u64) -> u64 {
    if deadline >= now {
        (deadline - now) as u64
    } else {
        0
    }
}

/// The scheduler request that arms `t` under generation id `id`.
pub open spec fn request_for(t: OneshotTimer, id: int, now: u64) -> TimerEventRequest {
    TimerEventRequest {
        source: t.source,
        id: TimerEventId(id as u64),
        delay: delay_until(t.scheduled_for, now),
    }
}

/// A fire took `batch` out of the queue `before`, leaving `after`: every
/// entry due at logical time `base`, in the order they fire.
pub open spec fn fired_batch(
    before: Seq<OneshotTimer>,
    after: Seq<OneshotTimer>,
    batch: Seq<OneshotTimer>,
    base: int,
) -> bool {
    let n = before.len();
    &&& batch.len() <= n
    &&& after == before.subrange(0, n - batch.len())
    &&& forall|i: int| 0 <= i < batch.len() ==> #[trigger] batch[i] == before[n - 1 - i]
    &&& forall|i: int| 0 <= i < batch.len() ==> #[trigger] batch[i].scheduled_for <= base
    &&& forall|i: int| 0 <= i < after.len() ==> #[trigger] after[i].scheduled_for > base
}

/// `e` is the one-shot entry that arms `task` when the current nesting
/// level is `level` and logical time is `base`: its delay is clamped for
/// that level, and the task it carries runs one level deeper.
pub open spec fn arms_task(e: OneshotTimer, task: JsTimerTask, level: u32, base: int) -> bool {
    &&& e.source == task.source
    &&& e.scheduled_for == base + clamped(level, task.duration)
    &&& e.callback matches OneshotTimerCallback::JsTimer(t)
    &&& t.handle == task.handle
    &&& t.source == task.source
    &&& t.callback == task.callback
    &&& t.is_interval == task.is_interval
    &&& t.duration == task.duration
    &&& t.nesting_level == level + 1
}

/// `e` is the one-shot entry that arms a new timeout or interval with
/// application handle `handle`, registered with `callback`, `arguments`,
/// `timeout`, `is_interval` and `source`, when the current nesting level
/// is `level` and logical time is `base`.
pub open spec fn arms_registration(
    e: OneshotTimer,
    handle: i32,
    callback: TimerCallback,
    arguments: Seq<u64>,
    timeout: i32,
    is_interval: IsInterval,
    source: TimerSource,
    level: u32,
    base: int,
) -> bool {
    &&& e.callback matches OneshotTimerCallback::JsTimer(t)
    &&& freezes(callback, arguments, t.callback)
    &&& arms_task(
        e,
        JsTimerTask {
            handle: JsTimerHandle(handle),
            source,
            callback: t.callback,
            is_interval,
            nesting_level: 0,
            duration: if timeout < 0 { 0 } else { timeout as u64 },
        },
        level,
        base,
    )
}

/// The one-shot timer queue of one timeline, with the registry of timeouts
/// and intervals built on it.
pub struct OneshotTimers {
    js_timers: JsTimers,
    next_timer_handle: OneshotTimerHandle,
    timers: Vec<OneshotTimer>,
    suspended_since: Option<u64>,
    /// Grows on each resume by the time the timeline was suspended.
    suspension_offset: u64,
    /// Notifications that carry another id are ignored.
    expected_event_id: TimerEventId,
}

impl OneshotTimers {
    /// The pending entries, latest first.
    pub closed spec fn pending(&self) -> Seq<OneshotTimer> {
        self.timers@
    }

    /// The handle the next entry gets.
    pub closed spec fn next_handle(&self) -> int {
        self.next_timer_handle.0 as int
    }

    /// The generation id of the one notification that is valid now.
    pub closed spec fn event_id(&self) -> int {
        self.expected_event_id.0 as int
    }

    /// When the timeline was suspended, if it is.
    pub closed spec fn suspension(&self) -> Option<u64> {
        self.suspended_since
    }

    /// The total time the timeline spent suspended.
    pub closed spec fn offset(&self) -> int {
        self.suspension_offset as int
    }

    /// The registry of timeouts and intervals.
    pub closed spec fn js(&self) -> JsTimers {
        self.js_timers
    }

    /// Logical time at wall-clock time `now`: frozen while suspended.
    pub open spec fn logical_time(&self, now: u64) -> int {
        match self.suspension() {
            Some(since) => since - self.offset(),
            None => now - self.offset(),
        }
    }

    /// The entry that fires next.
    pub open spec fn earliest(&self) -> OneshotTimer {
        self.pending().last()
    }

    pub open spec fn wf(&self) -> bool {
        &&& latest_first(self.pending())
        &&& forall|i: int, j: int|
            0 <= i < j < self.pending().len() ==> #[trigger] self.pending()[i].handle.0
                != #[trigger] self.pending()[j].handle.0
        &&& forall|i: int|
            0 <= i < self.pending().len() ==> 1 <= #[trigger] self.pending()[i].handle.0
                < self.next_handle()
        &&& 1 <= self.next_handle() <= i32::MAX
        &&& 0 <= self.offset() <= MAX_TIME
        &&& self.event_id() >= 0
        &&& (self.suspension() matches Some(since) ==> self.offset() <= since <= MAX_TIME)
        &&& self.js().wf()
    }

    /// `now` is a wall-clock reading that this timeline can take: not before
    /// what it has seen, and within the bound on timestamps.
    pub open spec fn clock_ok(&self, now: u64) -> bool {
        &&& self.offset() <= now <= MAX_TIME
        &&& (self.suspension() matches Some(since) ==> since <= now)
    }

    /// The counters can be advanced by another operation.
    pub open spec fn has_room(&self) -> bool {
        &&& self.next_handle() < i32::MAX
        &&& self.event_id() + 2 <= u64::MAX
    }

    /// Everything but the generation id is the same in `self` and `o`.
    pub open spec fn same_but_event_id(&self, o: &OneshotTimers) -> bool {
        &&& self.pending() == o.pending()
        &&& self.next_handle() == o.next_handle()
        &&& self.suspension() == o.suspension()
        &&& self.offset() == o.offset()
        &&& self.js() == o.js()
    }

    /// `post` is this queue once the entry `handle` is cancelled at
    /// wall-clock time `now`, and `r` is the scheduler request that this
    /// gives: the entry is gone, and if it was the next to fire, the
    /// outstanding notification is stale and the scheduler is armed for the
    /// new next entry, if any.
    pub open spec fn cancelled(
        &self,
        post: &OneshotTimers,
        handle: OneshotTimerHandle,
        now: u64,
        r: Option<TimerEventRequest>,
    ) -> bool {
        &&& post.next_handle() == self.next_handle()
        &&& post.suspension() == self.suspension()
        &&& post.offset() == self.offset()
        &&& forall|i: int| 0 <= i < post.pending().len() ==> #[trigger] post.pending()[i].handle != handle
        &&& (exists|i: int|
            0 <= i < self.pending().len() && self.pending()[i].handle == handle && post.pending()
                == #[trigger] self.pending().remove(i)) || post.pending() == self.pending()
        &&& if self.pending().len() > 0 && self.earliest().handle == handle {
            if self.suspension() is None && post.pending().len() > 0 {
                &&& post.event_id() == self.event_id() + 2
                &&& r == Some(request_for(post.earliest(), post.event_id(), now))
            } else {
                &&& post.event_id() == self.event_id() + 1
                &&& r is None
            }
        } else {
            &&& post.event_id() == self.event_id()
            &&& r is None
        }
    }

    /// `post` is this queue with one more entry `e`, scheduled at wall-clock
    /// time `now`, and `r` is the scheduler request that this gives: one
    /// exactly when `e` is now the next to fire and the timeline runs.
    pub open spec fn added(
        &self,
        post: &OneshotTimers,
        e: OneshotTimer,
        now: u64,
        r: Option<TimerEventRequest>,
    ) -> bool {
        &&& exists|i: int|
            0 <= i <= self.pending().len() && post.pending() == #[trigger] self.pending().insert(i, e)
        &&& e.handle == OneshotTimerHandle(self.next_handle() as i32)
        &&& post.next_handle() == self.next_handle() + 1
        &&& post.suspension() == self.suspension()
        &&& post.offset() == self.offset()
        &&& if self.suspension() is None && post.earliest().handle == e.handle {
            &&& post.event_id() == self.event_id() + 1
            &&& r == Some(request_for(post.earliest(), post.event_id(), now))
        } else {
            &&& post.event_id() == self.event_id()
            &&& r is None
        }
    }

    /// `post` is this queue once `task` has run and been finished at
    /// wall-clock time `now`, and `r` is the scheduler request that this
    /// gives: an interval that is still registered is armed again under a
    /// fresh entry at nesting level 0; anything else leaves the queue as it
    /// is.
    pub open spec fn finished(
        &self,
        post: &OneshotTimers,
        task: JsTimerTask,
        now: u64,
        r: Option<TimerEventRequest>,
    ) -> bool {
        &&& post.js().nesting() == 0
        &&& post.js().next_handle() == self.js().next_handle()
        &&& if task.is_interval == IsInterval::Interval && self.js().active().contains_key(
            task.handle.0,
        ) {
            &&& exists|e: OneshotTimer|
                #[trigger] self.added(post, e, now, r) && arms_task(e, task, 0, self.logical_time(now))
            &&& post.js().active() == self.js().active().insert(
                task.handle.0,
                OneshotTimerHandle(self.next_handle() as i32),
            )
        } else {
            &&& post.pending() == self.pending()
            &&& post.next_handle() == self.next_handle()
            &&& post.suspension() == self.suspension()
            &&& post.offset() == self.offset()
            &&& post.event_id() == self.event_id()
            &&& post.js().active() == self.js().active()
            &&& r is None
        }
    }

    pub fn new() -> (r: OneshotTimers)
        ensures
            r.wf(),
            r.pending().len() == 0,
            r.next_handle() == 1,
            r.event_id() == 0,
            r.suspension() is None,
            r.offset() == 0,
            r.js().next_handle() == 1,
            r.js().active() == Map::<i32, OneshotTimerHandle>::empty(),
            r.js().nesting() == 0,
    {
        OneshotTimers {
            js_timers: JsTimers::new(),
            next_timer_handle: OneshotTimerHandle(1),
            timers: Vec::new(),
            suspended_since: None,
            suspension_offset: 0,
            expected_event_id: TimerEventId(0),
        }
    }

    /// Logical time now.
    pub fn base_time(&self, now: u64) -> (r: u64)
        requires
            self.wf(),
            self.clock_ok(now),
        ensures
            r == self.logical_time(now),
    {
        match self.suspended_since {
            Some(time) => time - self.suspension_offset,
            None => now - self.suspension_offset,
        }
    }

    /// Whether `handle` is the entry that fires next.
    fn is_next_timer(&self, handle: OneshotTimerHandle) -> (r: bool)
        ensures
            r == (self.pending().len() > 0 && self.earliest().handle == handle),
    {
        let n = self.timers.len();
        if n == 0 {
            false
        } else {
            self.timers[n - 1].handle == handle
        }
    }

    /// Moves to a fresh generation id, which makes every notification issued
    /// so far stale.
    fn invalidate_expected_event_id(&mut self) -> (r: TimerEventId)
        requires
            old(self).event_id() + 1 <= u64::MAX,
        ensures
            final(self).same_but_event_id(old(self)),
            final(self).event_id() == old(self).event_id() + 1,
            r.0 == final(self).event_id(),
    {
        let TimerEventId(currently_expected) = self.expected_event_id;
        let next_id = TimerEventId(currently_expected + 1);
        self.expected_event_id = next_id;
        next_id
    }

    /// Arms the scheduler for the entry that fires next: unless suspended or
    /// empty, moves to a fresh generation id and returns the one request to
    /// send, for that entry.
    pub fn schedule_timer_call(&mut self, now: u64) -> (r: Option<TimerEventRequest>)
        requires
            old(self).wf(),
            old(self).event_id() + 1 <= u64::MAX,
        ensures
            final(self).wf(),
            final(self).same_but_event_id(old(self)),
            if old(self).suspension() is None && old(self).pending().len() > 0 {
                &&& final(self).event_id() == old(self).event_id() + 1
                &&& r == Some(request_for(old(self).earliest(), final(self).event_id(), now))
            } else {
                &&& final(self).event_id() == old(self).event_id()
                &&& r is None
            },
    {
        if self.suspended_since.is_some() {
            return None;
        }
        let n = self.timers.len();
        if n == 0 {
            return None;
        }
        let expected_event_id = self.invalidate_expected_event_id();
        let timer = &self.timers[n - 1];
        let delay = timer.scheduled_for.saturating_sub(now);
        Some(TimerEventRequest { source: timer.source, id: expected_event_id, delay })
    }

    /// Where an entry with deadline `scheduled_for` and a handle above all
    /// pending ones goes: after every entry with a later deadline.
    fn insertion_index(&self, scheduled_for: u64) -> (r: usize)
        requires
            self.wf(),
        ensures
            r <= self.pending().len(),
            forall|i: int| 0 <= i < r ==> #[trigger] self.pending()[i].scheduled_for > scheduled_for,
            forall|i: int|
                r <= i < self.pending().len() ==> #[trigger] self.pending()[i].scheduled_for
                    <= scheduled_for,
    {
        let mut lo: usize = 0;
        let mut hi: usize = self.timers.len();
        while lo < hi
            invariant
                self.wf(),
                0 <= lo <= hi <= self.pending().len(),
                forall|i: int|
                    0 <= i < lo ==> #[trigger] self.pending()[i].scheduled_for > scheduled_for,
                forall|i: int|
                    hi <= i < self.pending().len() ==> #[trigger] self.pending()[i].scheduled_for
                        <= scheduled_for,
            decreases hi - lo,
        {
            let mid = lo + (hi - lo) / 2;
            if self.timers[mid].scheduled_for > scheduled_for {
                proof {
                    assert forall|i: int| 0 <= i < mid + 1 implies #[trigger] self.pending()[
                        i
                    ].scheduled_for > scheduled_for by {
                        if i < mid {
                            assert(fires_before(self.pending()[mid as int], self.pending()[i]));
                        }
                    }
                }
                lo = mid + 1;
            } else {
                proof {
                    assert forall|i: int| mid <= i < self.pending().len() implies #[trigger] self.pending()[
                        i
                    ].scheduled_for <= scheduled_for by {
                        if i > mid {
                            assert(fires_before(self.pending()[i], self.pending()[mid as int]));
                        }
                    }
                }
                hi = mid;
            }
        }
        lo
    }

    /// Schedules `callback` to run `duration` milliseconds of logical time
    /// from now. Returns its handle and, when it is the entry that fires
    /// next, the request that arms the scheduler for it.
    pub fn schedule_callback(
        &mut self,
        callback: OneshotTimerCallback,
        duration: u64,
        source: TimerSource,
        now: u64,
    ) -> (r: (OneshotTimerHandle, Option<TimerEventRequest>))
        requires
            old(self).wf(),
            old(self).clock_ok(now),
            old(self).has_room(),
            old(self).logical_time(now) + duration <= u64::MAX,
        ensures
            final(self).wf(),
            r.0 == OneshotTimerHandle(old(self).next_handle() as i32),
            old(self).added(
                final(self),
                (OneshotTimer {
                    handle: r.0,
                    source,
                    callback,
                    scheduled_for: (old(self).logical_time(now) + duration) as u64,
                }),
                now,
                r.1,
            ),
            final(self).js() == old(self).js(),
    {
        let new_handle = self.next_timer_handle;
        self.next_timer_handle = OneshotTimerHandle(new_handle.0 + 1);
        let scheduled_for = self.base_time(now) + duration;
        let timer = OneshotTimer { handle: new_handle, source, callback, scheduled_for };
        let ghost entry = timer;
        let ghost old_pending = self.timers@;
        let insertion_index = self.insertion_index(scheduled_for);
        self.timers.insert(insertion_index, timer);
        proof {
            let k = insertion_index as int;
            let s = self.timers@;
            assert(s == old_pending.insert(k, entry));
            assert forall|i: int, j: int| 0 <= i < j < s.len() implies fires_before(
                #[trigger] s[j],
                #[trigger] s[i],
            ) by {
                if j < k {
                    assert(s[i] == old_pending[i] && s[j] == old_pending[j]);
                } else if j == k {
                    assert(s[i] == old_pending[i]);
                } else if i == k {
                    assert(s[j] == old_pending[j - 1]);
                    assert(old_pending[j - 1].handle.0 < entry.handle.0);
                } else if i < k {
                    assert(s[i] == old_pending[i] && s[j] == old_pending[j - 1]);
                } else {
                    assert(s[i] == old_pending[i - 1] && s[j] == old_pending[j - 1]);
                }
            }
            assert forall|i: int| 0 <= i < s.len() implies 1 <= #[trigger] s[i].handle.0
                < self.next_handle() by {
                if i < k {
                    assert(s[i] == old_pending[i]);
                } else if i > k {
                    assert(s[i] == old_pending[i - 1]);
                }
            }
        }
        let request = if self.is_next_timer(new_handle) {
            self.schedule_timer_call(now)
        } else {
            None
        };
        (new_handle, request)
    }

    /// Cancels the entry `handle`, if it is pending. When it was the entry
    /// that fires next, the outstanding notification becomes stale and the
    /// scheduler is armed for the new next entry, if any.
    pub fn unschedule_callback(&mut self, handle: OneshotTimerHandle, now: u64) -> (r: Option<
        TimerEventRequest,
    >)
        requires
            old(self).wf(),
            old(self).has_room(),
        ensures
            final(self).wf(),
            final(self).js() == old(self).js(),
            old(self).cancelled(final(self), handle, now, r),
    {
        let was_next = self.is_next_timer(handle);
        let n = self.timers.len();
        let mut i: usize = 0;
        while i < n && self.timers[i].handle != handle
            invariant
                n == self.pending().len(),
                i <= n,
                forall|j: int| 0 <= j < i ==> #[trigger] self.pending()[j].handle != handle,
            decreases n - i,
        {
            i = i + 1;
        }
        if i < n {
            let ghost before = self.timers@;
            let _removed = self.timers.remove(i);
            proof {
                let s = self.timers@;
                assert(s == before.remove(i as int));
                assert forall|a: int, b: int| 0 <= a < b < s.len() implies fires_before(
                    #[trigger] s[b],
                    #[trigger] s[a],
                ) by {
                    if b < i {
                    } else if a < i {
                        assert(s[b] == before[b + 1]);
                    } else {
                        assert(s[a] == before[a + 1] && s[b] == before[b + 1]);
                    }
                }
                assert forall|j: int| 0 <= j < s.len() implies 1 <= #[trigger] s[j].handle.0
                    < self.next_handle() by {
                    if j >= i {
                        assert(s[j] == before[j + 1]);
                    }
                }
                assert forall|j: int| 0 <= j < s.len() implies #[trigger] s[j].handle != handle by {
                    if j >= i {
                        assert(s[j] == before[j + 1]);
                    }
                }
                assert(before.remove(i as int) == s);

            }
        }
        if was_next {
            self.invalidate_expected_event_id();
            self.schedule_timer_call(now)
        } else {
            None
        }
    }

    /// Handles the scheduler's notification `id`. A stale id changes
    /// nothing and gives `None`. The valid one takes every due entry out of
    /// the queue and returns them in the order they fire; the caller runs
    /// them and then calls `schedule_timer_call`.
    pub fn fire_timer(&mut self, id: TimerEventId, now: u64) -> (r: Option<Vec<OneshotTimer>>)
        requires
            old(self).wf(),
            old(self).clock_ok(now),
            id.0 == old(self).event_id() ==> {
                &&& old(self).suspension() is None
                &&& old(self).pending().len() > 0
                &&& old(self).earliest().scheduled_for <= old(self).logical_time(now)
            },
        ensures
            final(self).wf(),
            id.0 != old(self).event_id() ==> {
                &&& r is None
                &&& final(self).same_but_event_id(old(self))
                &&& final(self).event_id() == old(self).event_id()
            },
            id.0 == old(self).event_id() ==> {
                &&& r matches Some(batch)
                &&& batch@.len() > 0
                &&& fired_batch(
                    old(self).pending(),
                    final(self).pending(),
                    batch@,
                    old(self).logical_time(now),
                )
                &&& final(self).next_handle() == old(self).next_handle()
                &&& final(self).event_id() == old(self).event_id()
                &&& final(self).suspension() == old(self).suspension()
                &&& final(self).offset() == old(self).offset()
                &&& final(self).js() == old(self).js()
            },
    {
        if self.expected_event_id.0 != id.0 {
            return None;
        }
        let base_time = self.base_time(now);
        let ghost before = self.timers@;
        let ghost n = before.len();
        let mut timers_to_run: Vec<OneshotTimer> = Vec::new();
        while self.timers.len() > 0 && self.timers[self.timers.len() - 1].scheduled_for <= base_time
            invariant
                self.wf(),
                self.next_handle() == old(self).next_handle(),
                self.event_id() == old(self).event_id(),
                self.suspension() == old(self).suspension(),
                self.offset() == old(self).offset(),
                self.js() == old(self).js(),
                before == old(self).pending(),
                n == before.len(),
                timers_to_run@.len() <= n,
                self.pending() == before.subrange(0, n - timers_to_run@.len()),
                forall|i: int|
                    0 <= i < timers_to_run@.len() ==> #[trigger] timers_to_run@[i] == before[n - 1
                        - i],
                forall|i: int|
                    0 <= i < timers_to_run@.len() ==> #[trigger] timers_to_run@[i].scheduled_for
                        <= base_time,
            decreases self.pending().len(),
        {
            let ghost pre = self.timers@;
            match self.timers.pop() {
                Some(t) => {
                    timers_to_run.push(t);
                },
                None => {},
            }
            proof {
                let s = self.timers@;
                assert(s == pre.subrange(0, pre.len() - 1));
                assert(s =~= before.subrange(0, n - timers_to_run@.len()));
                assert forall|a: int, b: int| 0 <= a < b < s.len() implies fires_before(
                    #[trigger] s[b],
                    #[trigger] s[a],
                ) by {
                    assert(s[a] == pre[a] && s[b] == pre[b]);
                }
                assert forall|j: int| 0 <= j < s.len() implies 1 <= #[trigger] s[j].handle.0
                    < self.next_handle() by {
                    assert(s[j] == pre[j]);
                }
            }
        }
        proof {
            let s = self.timers@;
            assert forall|i: int| 0 <= i < s.len() implies #[trigger] s[i].scheduled_for
                > base_time by {
                if i < s.len() - 1 {
                    assert(fires_before(s[s.len() - 1], s[i]));
                }
            }
        }
        Some(timers_to_run)
    }

    /// Freezes logical time; the outstanding notification becomes stale.
    pub fn suspend(&mut self, now: u64)
        requires
            old(self).wf(),
            old(self).clock_ok(now),
            old(self).suspension() is None,
            old(self).event_id() + 1 <= u64::MAX,
        ensures
            final(self).wf(),
            final(self).suspension() == Some(now),
            final(self).event_id() == old(self).event_id() + 1,
            final(self).pending() == old(self).pending(),
            final(self).next_handle() == old(self).next_handle(),
            final(self).offset() == old(self).offset(),
            final(self).js() == old(self).js(),
    {
        self.suspended_since = Some(now);
        self.invalidate_expected_event_id();
    }

    /// Lets logical time run again from where it was frozen, and arms the
    /// scheduler for the entry that fires next.
    pub fn resume(&mut self, now: u64) -> (r: Option<TimerEventRequest>)
        requires
            old(self).wf(),
            old(self).clock_ok(now),
            old(self).suspension() is Some,
            old(self).event_id() + 1 <= u64::MAX,
        ensures
            final(self).wf(),
            final(self).suspension() is None,
            final(self).offset() == old(self).offset() + now - old(self).suspension()->Some_0,
            final(self).pending() == old(self).pending(),
            final(self).next_handle() == old(self).next_handle(),
            final(self).js() == old(self).js(),
            if old(self).pending().len() > 0 {
                &&& final(self).event_id() == old(self).event_id() + 1
                &&& r == Some(request_for(old(self).earliest(), final(self).event_id(), now))
            } else {
                &&& final(self).event_id() == old(self).event_id()
                &&& r is None
            },
    {
        let additional_offset = match self.suspended_since {
            Some(suspended_since) => now - suspended_since,
            None => 0,
        };
        self.suspension_offset = self.suspension_offset + additional_offset;
        self.suspended_since = None;
        self.schedule_timer_call(now)
    }

    /// Arms `task` on the queue under the current nesting level, and points
    /// its application handle at the new entry.
    fn initialize_and_schedule(&mut self, task: JsTimerTask, now: u64) -> (r: Option<
        TimerEventRequest,
    >)
        requires
            old(self).wf(),
            old(self).clock_ok(now),
            old(self).has_room(),
            old(self).js().nesting() < u32::MAX,
            1 <= task.handle.0 < old(self).js().next_handle(),
            task.duration <= i32::MAX,
        ensures
            final(self).wf(),
            exists|e: OneshotTimer|
                #[trigger] old(self).added(final(self), e, now, r) && arms_task(
                    e,
                    task,
                    old(self).js().nesting(),
                    old(self).logical_time(now),
                ),
            final(self).js().active() == old(self).js().active().insert(
                task.handle.0,
                OneshotTimerHandle(old(self).next_handle() as i32),
            ),
            final(self).js().next_handle() == old(self).js().next_handle(),
            final(self).js().nesting() == old(self).js().nesting(),
    {
        let mut task = task;
        let handle = task.handle;
        let source = task.source;
        let nesting_level = self.js_timers.nesting_level();
        let duration = clamp_duration(nesting_level, task.duration);
        task.nesting_level = nesting_level + 1;
        let ghost armed = task;
        let (oneshot_handle, request) = self.schedule_callback(
            OneshotTimerCallback::JsTimer(task),
            duration,
            source,
            now,
        );
        self.js_timers.record(handle, oneshot_handle);
        proof {
            let e = OneshotTimer {
                handle: oneshot_handle,
                source,
                callback: OneshotTimerCallback::JsTimer(armed),
                scheduled_for: (old(self).logical_time(now) + duration) as u64,
            };
            assert(old(self).added(self, e, now, request));
        }
        request
    }

    /// Registers a timeout or, with `IsInterval::Interval`, an interval:
    /// `callback` runs with `arguments` after `timeout` milliseconds (a
    /// negative timeout counts as zero). Returns the new application handle
    /// and the scheduler request this gives, if any.
    pub fn set_timeout_or_interval(
        &mut self,
        callback: TimerCallback,
        arguments: Vec<u64>,
        timeout: i32,
        is_interval: IsInterval,
        source: TimerSource,
        now: u64,
    ) -> (r: (i32, Option<TimerEventRequest>))
        requires
            old(self).wf(),
            old(self).clock_ok(now),
            old(self).has_room(),
            old(self).js().next_handle() < i32::MAX,
            old(self).js().nesting() < u32::MAX,
        ensures
            final(self).wf(),
            r.0 == old(self).js().next_handle(),
            exists|e: OneshotTimer|
                #[trigger] old(self).added(final(self), e, now, r.1) && arms_registration(
                    e,
                    r.0,
                    callback,
                    arguments@,
                    timeout,
                    is_interval,
                    source,
                    old(self).js().nesting(),
                    old(self).logical_time(now),
                ),
            final(self).js().active() == old(self).js().active().insert(
                r.0,
                OneshotTimerHandle(old(self).next_handle() as i32),
            ),
            final(self).js().next_handle() == old(self).js().next_handle() + 1,
            final(self).js().nesting() == old(self).js().nesting(),
    {
        let task = self.js_timers.set_timeout_or_interval(
            callback,
            arguments,
            timeout,
            is_interval,
            source,
        );
        let new_handle = task.handle.0;
        let ghost mid = *self;
        let ghost built = task;
        let request = self.initialize_and_schedule(task, now);
        let r = (new_handle, request);
        proof {
            let e = choose|e: OneshotTimer|
                #[trigger] mid.added(self, e, now, request) && arms_task(
                    e,
                    built,
                    mid.js().nesting(),
                    mid.logical_time(now),
                );
            assert(old(self).added(self, e, now, r.1));
            assert(arms_registration(
                e,
                r.0,
                callback,
                arguments@,
                timeout,
                is_interval,
                source,
                old(self).js().nesting(),
                old(self).logical_time(now),
            ));
        }
        r
    }

    /// Cancels a timeout or interval; an unknown handle changes nothing.
    pub fn clear_timeout_or_interval(&mut self, handle: i32, now: u64) -> (r: Option<
        TimerEventRequest,
    >)
        requires
            old(self).wf(),
            old(self).has_room(),
        ensures
            final(self).wf(),
            final(self).js().active() == old(self).js().active().remove(handle),
            final(self).js().next_handle() == old(self).js().next_handle(),
            final(self).js().nesting() == old(self).js().nesting(),
            if old(self).js().active().contains_key(handle) {
                old(self).cancelled(final(self), old(self).js().active()[handle], now, r)
            } else {
                &&& final(self).pending() == old(self).pending()
                &&& final(self).next_handle() == old(self).next_handle()
                &&& final(self).suspension() == old(self).suspension()
                &&& final(self).offset() == old(self).offset()
                &&& final(self).event_id() == old(self).event_id()
                &&& r is None
            },
    {
        let entry = self.js_timers.clear_timeout_or_interval(handle);
        let ghost mid = *self;
        match entry {
            Some(oneshot_handle) => {
                let r = self.unschedule_callback(oneshot_handle, now);
                proof {
                    assert(mid.cancelled(self, oneshot_handle, now, r));
                    assert(old(self).pending() == mid.pending());
                    if exists|i: int|
                        0 <= i < mid.pending().len() && mid.pending()[i].handle == oneshot_handle
                            && self.pending() == #[trigger] mid.pending().remove(i) {
                        let i = choose|i: int|
                            0 <= i < mid.pending().len() && mid.pending()[i].handle == oneshot_handle
                                && self.pending() == #[trigger] mid.pending().remove(i);
                        assert(old(self).pending().remove(i) == self.pending());
                    }
                }
                r
            },
            None => None,
        }
    }

    /// Makes `task`'s nesting level the current one; called just before the
    /// task's callback runs.
    pub fn enter_js_timer(&mut self, task: &JsTimerTask)
        requires
            old(self).wf(),
        ensures
            final(self).wf(),
            final(self).js().nesting() == task.nesting_level,
            final(self).js().active() == old(self).js().active(),
            final(self).js().next_handle() == old(self).js().next_handle(),
            final(self).pending() == old(self).pending(),
            final(self).next_handle() == old(self).next_handle(),
            final(self).suspension() == old(self).suspension(),
            final(self).offset() == old(self).offset(),
            final(self).event_id() == old(self).event_id(),
    {
        self.js_timers.enter(task);
    }

    /// Called once `task`'s callback has run: resets the nesting level and,
    /// if `task` is an interval that was not cancelled meanwhile, arms it
    /// again under a fresh one-shot entry.
    pub fn finish_js_timer(&mut self, task: JsTimerTask, now: u64) -> (r: Option<TimerEventRequest>)
        requires
            old(self).wf(),
            old(self).clock_ok(now),
            old(self).has_room(),
            task.duration <= i32::MAX,
        ensures
            final(self).wf(),
            old(self).finished(final(self), task, now, r),
    {
        if self.js_timers.leave(&task) {
            let ghost mid = *self;
            let r = self.initialize_and_schedule(task, now);
            proof {
                let e = choose|e: OneshotTimer|
                    #[trigger] mid.added(self, e, now, r) && arms_task(
                        e,
                        task,
                        0,
                        mid.logical_time(now),
                    );
                assert(old(self).added(self, e, now, r));
            }
            r
        } else {
            None
        }
    }

    /// Whether logical time is frozen.
    pub fn is_suspended(&self) -> (r: bool)
        ensures
            r == self.suspension() is Some,
    {
        self.suspended_since.is_some()
    }

    /// The generation id that a valid notification carries now.
    pub fn expected_event_id(&self) -> (r: TimerEventId)
        ensures
            r.0 == self.event_id(),
    {
        self.expected_event_id
    }

    /// The deadline of the entry that fires next, if any.
    pub fn next_deadline(&self) -> (r: Option<u64>)
        ensures
            r == if self.pending().len() > 0 {
                Some(self.earliest().scheduled_for)
            } else {
                None::<u64>
            },
    {
        let n = self.timers.len();
        if n == 0 {
            None
        } else {
            Some(self.timers[n - 1].scheduled_for)
        }
    }

    /// The number of pending entries.
    pub fn pending_count(&self) -> (r: usize)
        ensures
            r == self.pending().len(),
    {
        self.timers.len()
    }

    /// Whether the wall-clock reading `now` can be handed to this timeline.
    pub fn accepts_time(&self, now: u64) -> (r: bool)
        ensures
            r == self.clock_ok(now),
    {
        now >= self.suspension_offset && now <= MAX_TIME && match self.suspended_since {
            Some(since) => since <= now,
            None => true,
        }
    }

    /// Whether the handle and generation counters, the registry's handle
    /// counter and the nesting level can all be advanced once more.
    pub fn has_capacity(&self) -> (r: bool)
        requires
            self.wf(),
        ensures
            r == (self.has_room() && self.js().next_handle() < i32::MAX && self.js().nesting()
                < u32::MAX),
    {
        self.next_timer_handle.0 < i32::MAX && self.expected_event_id.0 <= u64::MAX - 2
            && self.js_timers.next_timer_handle() < i32::MAX && self.js_timers.nesting_level()
            < u32::MAX
    }

    /// The nesting level of the timer task that runs now, or 0.
    pub fn nesting_level(&self) -> (r: u32)
        ensures
            r == self.js().nesting(),
    {
        self.js_timers.nesting_level()
    }

    /// Whether `handle` is a live timeout or interval.
    pub fn is_active(&self, handle: i32) -> (r: bool)
        ensures
            r == self.js().active().contains_key(handle),
    {
        self.js_timers.is_active(handle)
    }
}

} // verus!
