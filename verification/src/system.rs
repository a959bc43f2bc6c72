//! The executable alarm core: the owned shared state and the three routines
//! that may touch it. Every access happens through a `&mut` borrow, so each
//! call is exclusive; the caller wraps each call in a critical section so
//! that exclusivity also holds against the interrupt context, and performs
//! the hardware work (waits, pin listen/unlisten, interrupt acknowledgment)
//! that the routines decide on.

use vstd::prelude::*;

use crate::model::{edge_effect, poll_effect, rearm_effect, AlarmModel, AlarmState,
    DEFAULT_COOLDOWN_SECONDS};

verus! {

/// What the supervisor loop must do after a poll. The loop performs the wait
/// and then comes back: either to poll again, or — after a cooldown sleep —
/// to call `rearm` first.
#[derive(Clone, Copy, Debug, PartialEq, Eq, Structural)]
pub enum SupervisorAction {
    /// Enter an indefinite low-power wait with no timer; the device resumes
    /// on the next falling edge of the monitored pin.
    WaitForEdge,
    /// Enter a low-power wait bounded by a timer of the given number of
    /// seconds; the device resumes on timer expiry, not on a pin edge, since
    /// listening has just been disabled.
    CooldownSleep { seconds: u64 },
}

/// The shared state of the alarm core. The alarm phase is written by exactly
/// two routines: `on_falling_edge` (to `Ongoing`) and `rearm` (back to
/// `Armed`); the fields are private so no other writer can exist.
pub struct AlarmSystem {
    alarm: AlarmState,
    detector_present: bool,
    listening: bool,
    cooldown_seconds: u64,
}

impl View for AlarmSystem {
    type V = AlarmModel;

    closed spec fn view(&self) -> AlarmModel {
        AlarmModel {
            alarm: self.alarm,
            detector_present: self.detector_present,
            listening: self.listening,
            cooldown_seconds: self.cooldown_seconds,
        }
    }
}

impl AlarmSystem {
    /// State at the end of startup, with the default cooldown: the alarm is
    /// `Armed`, and the detection resource — if its installation succeeded —
    /// is listening for falling edges.
    pub fn new(detector_present: bool) -> (s: AlarmSystem)
        ensures
            s@ == (AlarmModel {
                alarm: AlarmState::Armed,
                detector_present,
                listening: detector_present,
                cooldown_seconds: DEFAULT_COOLDOWN_SECONDS,
            }),
            s@.inv(),
    {
        AlarmSystem::with_cooldown(detector_present, DEFAULT_COOLDOWN_SECONDS)
    }

    /// Like `new`, with the one recognized configuration option: the
    /// cooldown duration, in seconds.
    pub fn with_cooldown(detector_present: bool, cooldown_seconds: u64) -> (s: AlarmSystem)
        ensures
            s@ == (AlarmModel {
                alarm: AlarmState::Armed,
                detector_present,
                listening: detector_present,
                cooldown_seconds,
            }),
            s@.inv(),
    {
        AlarmSystem {
            alarm: AlarmState::Armed,
            detector_present,
            listening: detector_present,
            cooldown_seconds,
        }
    }

    /// The edge-interrupt routine: bounded, non-blocking work only. If the
    /// detection resource is present, the alarm phase becomes `Ongoing` and
    /// the caller must acknowledge (clear) the hardware interrupt flag on the
    /// pin, so the same edge does not re-fire; if it is absent, the routine
    /// is a no-op. Returns whether to acknowledge.
    pub fn on_falling_edge(&mut self) -> (acknowledge: bool)
        ensures
            final(self)@ == edge_effect(old(self)@),
            acknowledge == old(self)@.detector_present,
            old(self)@.inv() ==> final(self)@.inv(),
    {
        if self.detector_present {
            self.alarm = AlarmState::Ongoing;
            true
        } else {
            false
        }
    }

    /// One supervisor decision, made under exclusive access at the top of
    /// the loop. A quiet alarm asks for the indefinite wait and changes
    /// nothing; a triggered alarm has listening disabled here — before any
    /// sleeping, while access is still held — and asks for the cooldown
    /// sleep. A triggered alarm with no resource present would have nothing
    /// to unlisten; that startup ordering fault is ruled out by the
    /// invariant.
    pub fn supervisor_poll(&mut self) -> (action: SupervisorAction)
        requires
            old(self)@.alarm is Ongoing ==> old(self)@.detector_present,
        ensures
            final(self)@ == poll_effect(old(self)@),
            old(self)@.alarm is Armed ==> action is WaitForEdge,
            old(self)@.alarm is Ongoing ==> action == (SupervisorAction::CooldownSleep {
                seconds: old(self)@.cooldown_seconds,
            }),
            old(self)@.inv() ==> final(self)@.inv(),
    {
        match self.alarm {
            AlarmState::Armed => SupervisorAction::WaitForEdge,
            AlarmState::Ongoing => {
                self.listening = false;
                SupervisorAction::CooldownSleep { seconds: self.cooldown_seconds }
            },
        }
    }

    /// The rearm step, run by the supervisor once the cooldown sleep has
    /// elapsed: re-enables edge listening on the resource and resets the
    /// alarm to `Armed`, so each triggering edge yields exactly one
    /// cooldown. Requires the resource to be present — there is nothing to
    /// re-enable otherwise, and only a present resource can have triggered.
    pub fn rearm(&mut self)
        requires
            old(self)@.detector_present,
        ensures
            final(self)@ == rearm_effect(old(self)@),
            final(self)@.inv(),
    {
        self.listening = true;
        self.alarm = AlarmState::Armed;
    }

    /// Current alarm phase, read under the caller's exclusive access.
    pub fn current_alarm(&self) -> (r: AlarmState)
        ensures
            r == self@.alarm,
    {
        self.alarm
    }

    /// Whether the detection resource was installed during startup.
    pub fn has_detector(&self) -> (r: bool)
        ensures
            r == self@.detector_present,
    {
        self.detector_present
    }

    /// Whether the detection resource is listening for falling edges.
    pub fn is_listening(&self) -> (r: bool)
        ensures
            r == self@.listening,
    {
        self.listening
    }

    /// The configured cooldown, in seconds.
    pub fn cooldown_seconds(&self) -> (r: u64)
        ensures
            r == self@.cooldown_seconds,
    {
        self.cooldown_seconds
    }
}

} // verus!
