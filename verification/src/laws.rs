//! The laws of the alarm core, proved over the atomic-step relation of
//! `model`: who may write the alarm phase, that each step is a single
//! well-defined change, that the listen invariant is preserved, and that no
//! trigger can occur while detection is muted.

use vstd::prelude::*;

use crate::model::{edge_effect, poll_effect, rearm_effect, step, AlarmModel, LoopEvent};

verus! {

/// Single-writer law: in any atomic step of any interleaving, the alarm
/// phase changes only from `Armed` to `Ongoing` by an `Edge` step (the
/// interrupt routine) or from `Ongoing` to `Armed` by a `Rearm` step (the
/// supervisor's rearm); no other step writes it.
pub proof fn lemma_single_writer(pre: AlarmModel, ev: LoopEvent, post: AlarmModel)
    requires
        step(pre, ev, post),
        post.alarm != pre.alarm,
    ensures
        ev is Edge ==> pre.alarm is Armed && post.alarm is Ongoing,
        ev is Rearm ==> pre.alarm is Ongoing && post.alarm is Armed,
        ev is Edge || ev is Rearm,
{
}

/// Each atomic step from a given state has exactly one outcome, so a reader
/// under the same mutual exclusion never observes a partially-written state:
/// it sees either the state before a step or the one state after it.
pub proof fn lemma_step_deterministic(
    pre: AlarmModel,
    ev: LoopEvent,
    post1: AlarmModel,
    post2: AlarmModel,
)
    requires
        step(pre, ev, post1),
        step(pre, ev, post2),
    ensures
        post1 == post2,
{
}

/// Listen invariant, first half: every atomic step preserves
/// well-formedness, and a `Rearm` step always leaves the alarm freshly
/// `Armed` with the resource listening for falling edges again.
pub proof fn lemma_inv_preserved(pre: AlarmModel, ev: LoopEvent, post: AlarmModel)
    requires
        pre.inv(),
        step(pre, ev, post),
    ensures
        post.inv(),
        ev is Rearm ==> post.alarm is Armed && post.listening,
{
}

/// The executable routines realise exactly the atomic steps that the laws
/// quantify over: an edge delivered while listening is an `Edge` step, every
/// poll is a `Poll` step, and a rearm in the triggered branch is a `Rearm`
/// step.
pub proof fn lemma_routines_are_steps(pre: AlarmModel)
    ensures
        pre.listening ==> step(pre, LoopEvent::Edge, edge_effect(pre)),
        step(pre, LoopEvent::Poll, poll_effect(pre)),
        pre.alarm is Ongoing && !pre.listening && pre.detector_present ==> step(
            pre,
            LoopEvent::Rearm,
            rearm_effect(pre),
        ),
{
}

/// Muted-window law, by induction along the chain: while listening is
/// disabled, the only step that can change the alarm phase or re-enable
/// listening is `Rearm`; until it runs, every reachable state keeps the
/// alarm phase of the start of the window, and stays unlistened — in
/// particular no falling edge can produce a new `Ongoing` transition.
pub proof fn lemma_no_trigger_while_muted(states: Seq<AlarmModel>, events: Seq<LoopEvent>)
    requires
        states.len() == events.len() + 1,
        forall|i: int| 0 <= i < events.len() ==> step(states[i], events[i], states[i + 1]),
        !states[0].listening,
        forall|i: int| 0 <= i < events.len() ==> !(events[i] is Rearm),
    ensures
        forall|i: int|
            0 <= i < states.len() ==> states[i].alarm == states[0].alarm && !states[i].listening,
{
    assert forall|i: int|
        0 <= i < states.len() implies states[i].alarm == states[0].alarm
        && !states[i].listening by {
        lemma_muted_prefix(states, events, i);
    }
}

/// Induction step for the muted-window law: the state at position `i` of the
/// chain still carries the alarm phase of position 0, and is still
/// unlistened.
proof fn lemma_muted_prefix(states: Seq<AlarmModel>, events: Seq<LoopEvent>, i: int)
    requires
        states.len() == events.len() + 1,
        forall|j: int| 0 <= j < events.len() ==> step(states[j], events[j], states[j + 1]),
        !states[0].listening,
        forall|j: int| 0 <= j < events.len() ==> !(events[j] is Rearm),
        0 <= i < states.len(),
    ensures
        states[i].alarm == states[0].alarm,
        !states[i].listening,
    decreases i,
{
    if i > 0 {
        lemma_muted_prefix(states, events, i - 1);
        assert(step(states[i - 1], events[i - 1], states[i]));
    }
}

} // verus!
