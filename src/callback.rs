use vstd::prelude::*;

use crate::types::{IsInterval, JsTimerHandle, TimerSource};

verus! {

/// What an application asked to run when a timeout or interval fires.
/// A function is held by the host; the library knows it by the host's id.
pub enum TimerCallback {
    StringTimerCallback(String),
    FunctionTimerCallback(u64),
}

/// What a timer task runs: code to evaluate, or a function together with
/// the arguments frozen when the timer was registered (host value ids).
pub enum InternalTimerCallback {
    StringTimerCallback(String),
    FunctionTimerCallback(u64, Vec<u64>),
}

/// The host notification that a request ran into its timeout.
#[derive(PartialEq, Eq, Structural, Copy, Clone, Debug)]
pub struct XhrTimeoutCallback {
    /// The host's id of the request.
    pub request: u64,
    /// The generation of the request the timeout was armed for.
    pub generation_id: u32,
}

/// One timeout or interval as it travels through the one-shot queue.
pub struct JsTimerTask {
    pub handle: JsTimerHandle,
    pub source: TimerSource,
    pub callback: InternalTimerCallback,
    pub is_interval: IsInterval,
    /// The nesting level in force while the callback runs.
    pub nesting_level: u32,
    /// The requested duration, in milliseconds, never negative.
    pub duration: u64,
}

/// The closed set of things a one-shot timer can run.
pub enum OneshotTimerCallback {
    XhrTimeout(XhrTimeoutCallback),
    JsTimer(JsTimerTask),
}

/// `r` is what `callback` becomes once `arguments` are frozen into it.
pub open spec fn freezes(callback: TimerCallback, arguments: Seq<u64>, r: InternalTimerCallback) -> bool {
    match (callback, r) {
        (TimerCallback::StringTimerCallback(s), InternalTimerCallback::StringTimerCallback(t)) => t@
            == s@,
        (
            TimerCallback::FunctionTimerCallback(f),
            InternalTimerCallback::FunctionTimerCallback(g, args),
        ) => g == f && args@ == arguments,
        _ => false,
    }
}

/// Freezes `arguments` into the callback of a new timer task.
pub fn freeze_callback(callback: TimerCallback, arguments: Vec<u64>) -> (r: InternalTimerCallback)
    ensures
        freezes(callback, arguments@, r),
{
    match callback {
        TimerCallback::StringTimerCallback(code) => InternalTimerCallback::StringTimerCallback(code),
        TimerCallback::FunctionTimerCallback(function) => {
            InternalTimerCallback::FunctionTimerCallback(function, arguments)
        },
    }
}

} // verus!
