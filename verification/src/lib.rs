//! Core of a relay-triggered alarm: a two-state alarm machine driven by a
//! falling-edge interrupt on a digital input, and a supervisor loop that
//! answers a trigger by muting detection for a fixed cooldown before
//! re-arming.
//!
//! The shared state is owned explicitly and passed by `&mut` into the two
//! routines that may touch it: the edge-interrupt routine and the supervisor
//! step functions. The caller supplies mutual exclusion (a critical section)
//! around every call, and performs the hardware work that each returned
//! action asks for: the low-power waits, pin listen/unlisten, and interrupt
//! acknowledgment.

pub mod fault;
pub mod laws;
pub mod model;
pub mod system;

pub use fault::FaultResponse;
pub use model::{AlarmModel, AlarmState, LoopEvent, DEFAULT_COOLDOWN_SECONDS};
pub use system::{AlarmSystem, SupervisorAction};
