pub mod callback;
pub mod js_timers;
pub mod laws;
pub mod queue;
pub mod types;
