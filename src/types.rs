use vstd::prelude::*;

verus! {

/// Identifies one entry of the one-shot timer queue. Handles are handed out
/// in increasing order and never reused by a queue.
#[derive(PartialEq, Eq, Structural, Copy, Clone, Hash, PartialOrd, Ord, Debug)]
pub struct OneshotTimerHandle(pub i32);

/// The application-visible handle of a timeout or interval.
#[derive(PartialEq, Eq, Structural, Copy, Clone, Hash, PartialOrd, Ord, Debug)]
pub struct JsTimerHandle(pub i32);

/// Generation id carried by a request to the external scheduler and by the
/// notification that answers it.
#[derive(PartialEq, Eq, Structural, Copy, Clone, Debug)]
pub struct TimerEventId(pub u64);

/// Where a timer was scheduled from.
#[derive(PartialEq, Eq, Structural, Copy, Clone, Debug)]
pub enum TimerSource {
    /// A window, identified by its pipeline.
    FromWindow(u32),
    FromWorker,
}

/// Whether a timer repeats after it fired.
#[derive(PartialEq, Eq, Structural, Copy, Clone, Debug)]
pub enum IsInterval {
    Interval,
    NonInterval,
}

/// A request to the external scheduler: answer with a notification carrying
/// `id` once `delay` milliseconds have passed.
#[derive(PartialEq, Eq, Structural, Copy, Clone, Debug)]
pub struct TimerEventRequest {
    pub source: TimerSource,
    pub id: TimerEventId,
    pub delay: u64,
}

} // verus!
