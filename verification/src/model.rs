//! Mathematical model of the alarm core: the state snapshot, the effect of
//! each routine on it, and the atomic-step relation that the interleaving of
//! interrupt context and supervisor loop is reasoned about.

use vstd::prelude::*;

verus! {

/// The two phases of the alarm. `Armed`: no pending alarm, edge detection
/// active. `Ongoing`: an edge has triggered the alarm and detection is being
/// suppressed for the cooldown window.
#[derive(Clone, Copy, Debug, PartialEq, Eq, Structural)]
pub enum AlarmState {
    Armed,
    Ongoing,
}

/// Cooldown used when none is configured: how long detection stays muted
/// after a trigger, in seconds.
pub const DEFAULT_COOLDOWN_SECONDS: u64 = 5;

/// Snapshot of the shared state, as the contracts and laws speak of it.
pub struct AlarmModel {
    /// Current alarm phase; the single source of truth for the supervisor.
    pub alarm: AlarmState,
    /// Whether the detection resource (the monitored input line) was
    /// installed during startup. It is installed at most once and never
    /// removed, so no step changes this field.
    pub detector_present: bool,
    /// Whether the detection resource is listening for falling edges.
    pub listening: bool,
    /// Configured cooldown in seconds; fixed after construction.
    pub cooldown_seconds: u64,
}

impl AlarmModel {
    /// Well-formedness, established at startup and preserved by every step:
    /// only a present resource can listen, only a present resource can have
    /// triggered an alarm, and while the alarm is quiet a present resource is
    /// listening (detection is suppressed only during a cooldown).
    pub open spec fn inv(self) -> bool {
        &&& self.listening ==> self.detector_present
        &&& self.alarm is Ongoing ==> self.detector_present
        &&& self.detector_present && self.alarm is Armed ==> self.listening
    }
}

/// Effect of the edge-interrupt routine: if the detection resource is
/// present, the alarm phase becomes `Ongoing`; if it is absent (a startup
/// ordering fault), the routine is a no-op. Listening is not touched here;
/// muting is the supervisor's job.
pub open spec fn edge_effect(pre: AlarmModel) -> AlarmModel {
    if pre.detector_present {
        AlarmModel { alarm: AlarmState::Ongoing, ..pre }
    } else {
        pre
    }
}

/// Effect of one supervisor poll: a quiet alarm leaves the state unchanged
/// (the loop only waits for the next edge); a triggered alarm has edge
/// listening disabled before the cooldown sleep is requested.
pub open spec fn poll_effect(pre: AlarmModel) -> AlarmModel {
    if pre.alarm is Ongoing {
        AlarmModel { listening: false, ..pre }
    } else {
        pre
    }
}

/// Effect of the rearm step, run once the cooldown sleep has elapsed:
/// listening is re-enabled and the alarm phase is reset to `Armed`, so one
/// edge yields exactly one cooldown.
pub open spec fn rearm_effect(pre: AlarmModel) -> AlarmModel {
    AlarmModel { alarm: AlarmState::Armed, listening: true, ..pre }
}

/// The three events that may touch the shared state. Each runs under mutual
/// exclusion, so each is one atomic step of the interleaving.
pub enum LoopEvent {
    /// The platform delivers a falling edge to the interrupt routine.
    Edge,
    /// The supervisor loop reads the alarm phase and picks its branch.
    Poll,
    /// The supervisor re-enables detection after the cooldown sleep.
    Rearm,
}

/// The atomic-step relation. An `Edge` step can occur only while the
/// resource is listening: the hardware raises no falling-edge interrupt on an
/// unlistened pin. A `Rearm` step occurs only in the triggered branch, after
/// that same branch disabled listening.
pub open spec fn step(pre: AlarmModel, ev: LoopEvent, post: AlarmModel) -> bool {
    match ev {
        LoopEvent::Edge => pre.listening && post == edge_effect(pre),
        LoopEvent::Poll => post == poll_effect(pre),
        LoopEvent::Rearm => {
            &&& pre.alarm is Ongoing
            &&& !pre.listening
            &&& pre.detector_present
            &&& post == rearm_effect(pre)
        },
    }
}

} // verus!
