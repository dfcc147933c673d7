use timers::callback::{
    freeze_callback, InternalTimerCallback, OneshotTimerCallback, TimerCallback, XhrTimeoutCallback,
};
use timers::js_timers::{clamp_duration, JsTimers};
use timers::queue::{OneshotTimer, OneshotTimers};
use timers::types::{IsInterval, OneshotTimerHandle, TimerEventId, TimerEventRequest, TimerSource};

const SOURCE: TimerSource = TimerSource::FromWindow(7);

fn xhr(request: u64) -> OneshotTimerCallback {
    OneshotTimerCallback::XhrTimeout(XhrTimeoutCallback { request, generation_id: 1 })
}

fn xhr_request(t: &OneshotTimer) -> u64 {
    match &t.callback {
        OneshotTimerCallback::XhrTimeout(c) => c.request,
        OneshotTimerCallback::JsTimer(_) => panic!("expected a host notification"),
    }
}

fn requests(batch: &[OneshotTimer]) -> Vec<u64> {
    batch.iter().map(xhr_request).collect()
}

#[test]
fn fires_by_deadline_then_registration() {
    let mut q = OneshotTimers::new();
    let (a, ra) = q.schedule_callback(xhr(1), 50, SOURCE, 0);
    let (b, rb) = q.schedule_callback(xhr(2), 10, SOURCE, 0);
    let (c, rc) = q.schedule_callback(xhr(3), 10, SOURCE, 0);
    assert_eq!((a, b, c), (OneshotTimerHandle(1), OneshotTimerHandle(2), OneshotTimerHandle(3)));
    assert_eq!(ra, Some(TimerEventRequest { source: SOURCE, id: TimerEventId(1), delay: 50 }));
    assert_eq!(rb, Some(TimerEventRequest { source: SOURCE, id: TimerEventId(2), delay: 10 }));
    assert_eq!(rc, None);
    let batch = q.fire_timer(TimerEventId(2), 50).unwrap();
    assert_eq!(requests(&batch), vec![2, 3, 1]);
    assert_eq!(batch.iter().map(|t| t.scheduled_for).collect::<Vec<_>>(), vec![10, 10, 50]);
    assert_eq!(q.pending_count(), 0);
    assert_eq!(q.schedule_timer_call(50), None);
}

#[test]
fn fire_takes_only_due_entries() {
    let mut q = OneshotTimers::new();
    q.schedule_callback(xhr(1), 50, SOURCE, 0);
    let (_, r) = q.schedule_callback(xhr(2), 10, SOURCE, 0);
    let batch = q.fire_timer(r.unwrap().id, 20).unwrap();
    assert_eq!(requests(&batch), vec![2]);
    assert_eq!(q.pending_count(), 1);
    assert_eq!(q.next_deadline(), Some(50));
    let next = q.schedule_timer_call(20).unwrap();
    assert_eq!(next, TimerEventRequest { source: SOURCE, id: TimerEventId(3), delay: 30 });
}

#[test]
fn stale_notification_is_ignored() {
    let mut q = OneshotTimers::new();
    q.schedule_callback(xhr(1), 50, SOURCE, 0);
    q.schedule_callback(xhr(2), 10, SOURCE, 0);
    assert_eq!(q.expected_event_id(), TimerEventId(2));
    assert!(q.fire_timer(TimerEventId(1), 60).is_none());
    assert!(q.fire_timer(TimerEventId(9), 60).is_none());
    assert_eq!(q.pending_count(), 2);
    assert_eq!(q.expected_event_id(), TimerEventId(2));
}

#[test]
fn cancel_before_fire_empties_queue() {
    let mut q = OneshotTimers::new();
    let (a, r) = q.schedule_callback(xhr(1), 100, SOURCE, 0);
    let first = r.unwrap().id;
    assert_eq!(q.unschedule_callback(a, 5), None);
    assert_eq!(q.pending_count(), 0);
    assert_eq!(q.next_deadline(), None);
    assert_ne!(q.expected_event_id(), first);
    assert!(q.fire_timer(first, 200).is_none());
}

#[test]
fn cancelled_entry_never_fires() {
    let mut q = OneshotTimers::new();
    let (a, ra) = q.schedule_callback(xhr(1), 10, SOURCE, 0);
    q.schedule_callback(xhr(2), 20, SOURCE, 0);
    let rb = q.unschedule_callback(a, 0).unwrap();
    assert_eq!(rb, TimerEventRequest { source: SOURCE, id: TimerEventId(3), delay: 20 });
    assert!(q.fire_timer(ra.unwrap().id, 30).is_none());
    let batch = q.fire_timer(rb.id, 30).unwrap();
    assert_eq!(requests(&batch), vec![2]);
}

#[test]
fn cancel_of_unknown_or_later_entry_keeps_request() {
    let mut q = OneshotTimers::new();
    q.schedule_callback(xhr(1), 10, SOURCE, 0);
    let (b, _) = q.schedule_callback(xhr(2), 20, SOURCE, 0);
    assert_eq!(q.unschedule_callback(b, 0), None);
    assert_eq!(q.unschedule_callback(b, 0), None);
    assert_eq!(q.unschedule_callback(OneshotTimerHandle(42), 0), None);
    assert_eq!(q.expected_event_id(), TimerEventId(1));
    assert_eq!(q.pending_count(), 1);
}

#[test]
fn suspend_resume_keeps_order_and_delays() {
    let mut q = OneshotTimers::new();
    q.schedule_callback(xhr(1), 100, SOURCE, 0);
    q.schedule_callback(xhr(2), 60, SOURCE, 0);
    q.suspend(50);
    assert!(q.is_suspended());
    assert_eq!(q.expected_event_id(), TimerEventId(3));
    assert_eq!(q.base_time(400), 50);
    assert!(q.fire_timer(TimerEventId(2), 400).is_none());
    let r = q.resume(1050).unwrap();
    assert_eq!(r.id, TimerEventId(4));
    assert_eq!(q.base_time(1050), 50);
    assert_eq!(q.base_time(1070), 70);
    let batch = q.fire_timer(r.id, 1070).unwrap();
    assert_eq!(requests(&batch), vec![2]);
    let r = q.schedule_timer_call(1070).unwrap();
    let batch = q.fire_timer(r.id, 1100).unwrap();
    assert_eq!(requests(&batch), vec![1]);
}

#[test]
fn schedule_while_suspended_sends_nothing() {
    let mut q = OneshotTimers::new();
    q.suspend(10);
    let (_, r) = q.schedule_callback(xhr(1), 5, SOURCE, 30);
    assert_eq!(r, None);
    assert_eq!(q.next_deadline(), Some(15));
    let r = q.resume(40).unwrap();
    assert_eq!(r, TimerEventRequest { source: SOURCE, id: TimerEventId(2), delay: 0 });
    assert_eq!(q.base_time(45), 15);
}

fn js_task(batch: Vec<OneshotTimer>) -> timers::callback::JsTimerTask {
    assert_eq!(batch.len(), 1);
    match batch.into_iter().next().unwrap().callback {
        OneshotTimerCallback::JsTimer(task) => task,
        OneshotTimerCallback::XhrTimeout(_) => panic!("expected a timer task"),
    }
}

#[test]
fn interval_fires_repeatedly_until_cancelled() {
    let mut q = OneshotTimers::new();
    let code = TimerCallback::StringTimerCallback(String::from("tick()"));
    let (handle, r) = q.set_timeout_or_interval(code, vec![], 10, IsInterval::Interval, SOURCE, 0);
    assert_eq!(handle, 1);
    let mut request = r.unwrap();
    let mut now = 0;
    let mut seen = Vec::new();
    for k in 1..=3 {
        now += 10;
        let batch = q.fire_timer(request.id, now).unwrap();
        seen.push(batch[0].handle);
        let task = js_task(batch);
        assert_eq!(task.handle.0, handle);
        q.enter_js_timer(&task);
        assert_eq!(q.nesting_level(), 1);
        if k == 3 {
            assert_eq!(q.clear_timeout_or_interval(handle, now), None);
        }
        let next = q.finish_js_timer(task, now);
        assert_eq!(q.nesting_level(), 0);
        if k < 3 {
            request = next.unwrap();
            assert_eq!(request.delay, 10);
            assert_eq!(q.pending_count(), 1);
        } else {
            assert_eq!(next, None);
        }
    }
    assert_eq!(seen, vec![OneshotTimerHandle(1), OneshotTimerHandle(2), OneshotTimerHandle(3)]);
    assert_eq!(q.pending_count(), 0);
    assert!(!q.is_active(handle));
}

#[test]
fn timeout_is_not_rearmed() {
    let mut q = OneshotTimers::new();
    let f = TimerCallback::FunctionTimerCallback(5);
    let (handle, r) = q.set_timeout_or_interval(f, vec![8, 9], -3, IsInterval::NonInterval, SOURCE, 0);
    let r = r.unwrap();
    assert_eq!(r.delay, 0);
    let task = js_task(q.fire_timer(r.id, 0).unwrap());
    assert_eq!(task.duration, 0);
    match &task.callback {
        InternalTimerCallback::FunctionTimerCallback(g, args) => {
            assert_eq!(*g, 5);
            assert_eq!(*args, vec![8, 9]);
        }
        InternalTimerCallback::StringTimerCallback(_) => panic!("expected a function"),
    }
    q.enter_js_timer(&task);
    assert_eq!(q.finish_js_timer(task, 0), None);
    assert_eq!(q.pending_count(), 0);
    assert!(q.is_active(handle));
    assert_eq!(q.clear_timeout_or_interval(handle, 0), None);
    assert!(!q.is_active(handle));
}

#[test]
fn clear_of_unknown_handle_is_noop() {
    let mut q = OneshotTimers::new();
    q.schedule_callback(xhr(1), 10, SOURCE, 0);
    assert_eq!(q.clear_timeout_or_interval(77, 0), None);
    assert_eq!(q.pending_count(), 1);
    assert_eq!(q.expected_event_id(), TimerEventId(1));
}

#[test]
fn nested_zero_timers_are_clamped_beyond_level_five() {
    let mut q = OneshotTimers::new();
    let mut now = 0;
    let code = || TimerCallback::StringTimerCallback(String::from("again()"));
    let (_, r) = q.set_timeout_or_interval(code(), vec![], 0, IsInterval::NonInterval, SOURCE, now);
    let mut request = r.unwrap();
    let mut delays = Vec::new();
    for _level in 1..=8 {
        let task = js_task(q.fire_timer(request.id, now).unwrap());
        q.enter_js_timer(&task);
        let (_, r) = q.set_timeout_or_interval(code(), vec![], 0, IsInterval::NonInterval, SOURCE, now);
        delays.push(q.next_deadline().unwrap() - now);
        q.finish_js_timer(task, now);
        request = r.unwrap();
        now = q.next_deadline().unwrap();
    }
    assert_eq!(delays, vec![0, 0, 0, 0, 0, 4, 4, 4]);
}

#[test]
fn clamp_duration_values() {
    assert_eq!(clamp_duration(0, 0), 0);
    assert_eq!(clamp_duration(5, 0), 0);
    assert_eq!(clamp_duration(6, 0), 4);
    assert_eq!(clamp_duration(6, 3), 4);
    assert_eq!(clamp_duration(6, 10), 10);
    assert_eq!(clamp_duration(2, 3), 3);
}

#[test]
fn freeze_callback_keeps_arguments() {
    match freeze_callback(TimerCallback::FunctionTimerCallback(3), vec![1, 2, 3]) {
        InternalTimerCallback::FunctionTimerCallback(f, args) => {
            assert_eq!(f, 3);
            assert_eq!(args, vec![1, 2, 3]);
        }
        InternalTimerCallback::StringTimerCallback(_) => panic!("expected a function"),
    }
    match freeze_callback(TimerCallback::StringTimerCallback(String::from("x()")), vec![4]) {
        InternalTimerCallback::StringTimerCallback(code) => assert_eq!(code, "x()"),
        InternalTimerCallback::FunctionTimerCallback(..) => panic!("expected code"),
    }
}

#[test]
fn registry_allocates_handles_in_order() {
    let mut js = JsTimers::new();
    let code = || TimerCallback::StringTimerCallback(String::new());
    let a = js.set_timeout_or_interval(code(), vec![], 5, IsInterval::NonInterval, SOURCE);
    let b = js.set_timeout_or_interval(code(), vec![], 7, IsInterval::Interval, SOURCE);
    assert_eq!((a.handle.0, b.handle.0), (1, 2));
    assert_eq!((a.duration, b.duration), (5, 7));
    assert_eq!(js.next_timer_handle(), 3);
    assert_eq!(js.clear_timeout_or_interval(1), None);
    js.record(a.handle, OneshotTimerHandle(9));
    assert_eq!(js.clear_timeout_or_interval(1), Some(OneshotTimerHandle(9)));
    assert!(!js.is_active(1));
}

#[test]
fn guards_report_limits() {
    let mut q = OneshotTimers::new();
    assert!(q.accepts_time(0));
    assert!(q.has_capacity());
    q.suspend(100);
    q.resume(300);
    assert!(!q.accepts_time(150));
    assert!(q.accepts_time(300));
}
