use relay_alarm::{AlarmState, AlarmSystem, SupervisorAction, DEFAULT_COOLDOWN_SECONDS};

#[test]
fn armed_start_waits_indefinitely() {
    // Armed with no edge: every poll asks for the indefinite wait and the
    // loop never enters the triggered branch.
    let mut sys = AlarmSystem::new(true);
    for _ in 0..3 {
        let action = sys.supervisor_poll();
        assert_eq!(action, SupervisorAction::WaitForEdge);
        assert_eq!(sys.current_alarm(), AlarmState::Armed);
        assert!(sys.is_listening());
    }
}

#[test]
fn single_edge_triggers_cooldown_then_rearms() {
    // One falling edge: the alarm becomes Ongoing; the next poll disables
    // listening and asks for the cooldown sleep; rearm restores listening.
    let mut sys = AlarmSystem::new(true);
    let acknowledge = sys.on_falling_edge();
    assert!(acknowledge);
    assert_eq!(sys.current_alarm(), AlarmState::Ongoing);
    assert!(sys.is_listening());

    let action = sys.supervisor_poll();
    assert_eq!(action, SupervisorAction::CooldownSleep { seconds: 5 });
    assert!(!sys.is_listening());
    assert_eq!(sys.current_alarm(), AlarmState::Ongoing);

    sys.rearm();
    assert_eq!(sys.current_alarm(), AlarmState::Armed);
    assert!(sys.is_listening());
}

#[test]
fn edge_with_absent_detector_is_noop() {
    // Startup ordering fault: the resource was never installed. The
    // interrupt routine does nothing, asks for no acknowledgment, and the
    // alarm phase is unchanged.
    let mut sys = AlarmSystem::new(false);
    assert!(!sys.has_detector());
    assert!(!sys.is_listening());
    let acknowledge = sys.on_falling_edge();
    assert!(!acknowledge);
    assert_eq!(sys.current_alarm(), AlarmState::Armed);
    assert_eq!(sys.supervisor_poll(), SupervisorAction::WaitForEdge);
}

#[test]
fn rearm_resets_alarm_exactly_once_per_edge() {
    // The rearm step resets the alarm to Armed, so a single edge yields
    // exactly one cooldown: the poll after rearm goes back to the indefinite
    // wait instead of re-entering the triggered branch.
    let mut sys = AlarmSystem::new(true);
    sys.on_falling_edge();
    assert!(matches!(
        sys.supervisor_poll(),
        SupervisorAction::CooldownSleep { .. }
    ));
    sys.rearm();
    assert_eq!(sys.current_alarm(), AlarmState::Armed);
    assert_eq!(sys.supervisor_poll(), SupervisorAction::WaitForEdge);
    assert_eq!(sys.supervisor_poll(), SupervisorAction::WaitForEdge);
}

#[test]
fn default_cooldown_is_five_seconds() {
    let sys = AlarmSystem::new(true);
    assert_eq!(DEFAULT_COOLDOWN_SECONDS, 5);
    assert_eq!(sys.cooldown_seconds(), 5);
}

#[test]
fn configured_cooldown_is_requested() {
    let mut sys = AlarmSystem::with_cooldown(true, 30);
    assert_eq!(sys.cooldown_seconds(), 30);
    sys.on_falling_edge();
    let action = sys.supervisor_poll();
    assert_eq!(action, SupervisorAction::CooldownSleep { seconds: 30 });
}

#[test]
fn repeated_edges_before_poll_mean_one_cooldown() {
    // Edges only move the phase Armed -> Ongoing; a second edge before the
    // supervisor runs changes nothing more, and one cooldown follows.
    let mut sys = AlarmSystem::new(true);
    assert!(sys.on_falling_edge());
    assert!(sys.on_falling_edge());
    assert_eq!(sys.current_alarm(), AlarmState::Ongoing);
    assert_eq!(
        sys.supervisor_poll(),
        SupervisorAction::CooldownSleep { seconds: 5 }
    );
    sys.rearm();
    assert_eq!(sys.supervisor_poll(), SupervisorAction::WaitForEdge);
}

#[test]
fn listening_tracks_alarm_through_full_cycle() {
    // The listen invariant, observed at every point of one full cycle: a
    // present resource listens whenever the alarm is Armed, and listening is
    // off only between the triggered poll and the rearm.
    let mut sys = AlarmSystem::new(true);
    assert!(sys.is_listening() || sys.current_alarm() == AlarmState::Ongoing);

    sys.on_falling_edge();
    assert_eq!(sys.current_alarm(), AlarmState::Ongoing);

    sys.supervisor_poll();
    assert!(!sys.is_listening());
    assert_eq!(sys.current_alarm(), AlarmState::Ongoing);

    sys.rearm();
    assert!(sys.is_listening());
    assert_eq!(sys.current_alarm(), AlarmState::Armed);
}

#[test]
fn fault_policy_halts() {
    // The fail-stop policy: an unrecoverable platform fault parks the
    // firmware; it never restarts.
    assert_eq!(relay_alarm::fault::panic(), relay_alarm::FaultResponse::Halt);
}

#[test]
fn equal_states_step_equally() {
    // Each step has one well-defined outcome: two identically built systems
    // driven by the same events stay observably identical.
    let mut a = AlarmSystem::new(true);
    let mut b = AlarmSystem::new(true);
    assert_eq!(a.on_falling_edge(), b.on_falling_edge());
    assert_eq!(a.supervisor_poll(), b.supervisor_poll());
    assert_eq!(a.current_alarm(), b.current_alarm());
    assert_eq!(a.is_listening(), b.is_listening());
    a.rearm();
    b.rearm();
    assert_eq!(a.current_alarm(), b.current_alarm());
    assert_eq!(a.is_listening(), b.is_listening());
}
