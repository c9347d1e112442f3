//! What holds of every session, proved over its mathematical model.
//!
//! The functions of [`crate::session::Session`] state that they follow the
//! model step by step, so each theorem here holds of every session that code
//! can build.

use crate::registry::{uniform_snapshot, INSTANCE_COUNT};
use crate::session::{
    baseline_reading, fault_reading, next_cycle, recorded, Action, Event, MeasurementResult,
    SessionView, BASELINE_TENTHS, FAULT_TARGET, FAULT_TENTHS,
};
use crate::voter::{
    lemma_consensus_is_first_healthy, lemma_counts_three, unhealthy_count, vote_of, VoteOutcome,
};
use vstd::prelude::*;

verus! {

/// A fresh session is well formed.
pub proof fn lemma_initial_well_formed()
    ensures
        SessionView::initial().well_formed(),
{
}

/// No event leads out of the well-formed sessions.
pub proof fn lemma_event_preserves_well_formed(session: SessionView, event: Event)
    requires
        session.well_formed(),
    ensures
        session.after(event).well_formed(),
{
}

/// No sequence of events leads out of the well-formed sessions.
pub proof fn lemma_events_preserve_well_formed(session: SessionView, events: Seq<Event>)
    requires
        session.well_formed(),
    ensures
        session.after_all(events).well_formed(),
    decreases events.len(),
{
    if events.len() > 0 {
        lemma_events_preserve_well_formed(session, events.drop_last());
        lemma_event_preserves_well_formed(
            session.after_all(events.drop_last()),
            events.last(),
        );
    }
}

/// Single-fault model: in a well-formed session at most one instance is
/// faulty or rebuilding, and that instance is the fault target.
pub proof fn lemma_single_fault(session: SessionView)
    requires
        session.well_formed(),
    ensures
        unhealthy_count(session.instances) <= 1,
        unhealthy_count(session.instances) == 1 <==> !(session.target_state() is Healthy),
{
    lemma_counts_three(session.instances);
}

/// Single-fault model, over all reachable sessions: whatever events a fresh
/// session has seen, in whatever order, at most one instance is faulty or
/// rebuilding.
pub proof fn lemma_reachable_single_fault(events: Seq<Event>)
    ensures
        SessionView::initial().after_all(events).well_formed(),
        unhealthy_count(SessionView::initial().after_all(events).instances) <= 1,
{
    lemma_events_preserve_well_formed(SessionView::initial(), events);
    lemma_single_fault(SessionView::initial().after_all(events));
}

/// In a well-formed session the vote always reaches consensus on the baseline:
/// one instance out of service never costs the quorum, and its reading never
/// enters the vote.
pub proof fn lemma_vote_holds_baseline(session: SessionView)
    requires
        session.well_formed(),
    ensures
        vote_of(session.instances) == VoteOutcome::Consensus(baseline_reading()),
{
    lemma_counts_three(session.instances);
    let first = lemma_consensus_is_first_healthy(session.instances);
    assert(first == 0);
}

/// The fault reading stands apart from every healthy reading by more than any
/// noise band narrower than the gap between the two constants.
pub proof fn lemma_fault_reading_stands_out(session: SessionView, id: int, band: int)
    requires
        session.well_formed(),
        0 <= id < INSTANCE_COUNT,
        session.instances[id].state is Healthy,
        0 <= band < FAULT_TENTHS - BASELINE_TENTHS,
    ensures
        fault_reading().tenths - session.instances[id].reading.tenths > band,
{
}

/// Injecting twice in immediate succession is injecting once: the second call
/// changes nothing and starts no second timeline.
pub proof fn lemma_inject_idempotent(session: SessionView)
    ensures
        session.inject_fault().inject_fault() == session.inject_fault(),
        session.inject_fault().action_for(Event::InjectFault) == Action::Nothing,
{
}

/// While a cycle is in progress a reset is refused and leaves everything as it
/// is.
pub proof fn lemma_reset_refused_in_progress(session: SessionView)
    requires
        session.in_progress,
    ensures
        session.reset() == session,
        session.action_for(Event::Reset) == Action::ResetRefused,
{
}

/// Outside a cycle a reset restores the initial snapshot and clears the frame
/// counter and the measurement, whatever stood there before.
pub proof fn lemma_reset_restores(session: SessionView)
    requires
        !session.in_progress,
    ensures
        session.reset().instances == uniform_snapshot(baseline_reading()),
        session.reset().frames == 0,
        session.reset().measurement is None,
        !session.reset().in_progress,
        session.reset() == (SessionView { cycle: session.cycle, ..SessionView::initial() }),
{
}

/// A reset after a completed cycle: fault, rebuild, measurement, reset. The
/// reset is accepted as soon as the measurement has come back, before the
/// ceiling as well as after it, and the session is as it was created, but for
/// the cycle number.
pub proof fn lemma_reset_after_cycle(start: SessionView, result: MeasurementResult)
    requires
        start.well_formed(),
        !start.in_progress,
    ensures
        ({
            let cycle = next_cycle(start.cycle) as u64;
            let recovered = start.inject_fault().revalidation_elapsed(
                cycle,
            ).measurement_resolved(cycle, result);
            let done = recovered.ceiling_elapsed(cycle);
            let fresh = SessionView { cycle: cycle as nat, ..SessionView::initial() };
            &&& !recovered.in_progress
            &&& recovered.action_for(Event::Reset) == Action::Nothing
            &&& recovered.reset() == fresh
            &&& !done.in_progress
            &&& done.action_for(Event::Reset) == Action::Nothing
            &&& done.reset() == fresh
        }),
{
}

/// What is left of a cycle does not touch a session that was reset meanwhile:
/// after a reset no timer and no measurement of any cycle changes anything,
/// until the next fault injection.
pub proof fn lemma_reset_shuts_out_the_past(session: SessionView, event: Event)
    requires
        session.well_formed(),
        !session.in_progress,
        cycle_of(event) is Some,
    ensures
        session.reset().after(event) == session.reset(),
        session.reset().action_for(event) == Action::Nothing,
{
}

/// The events of a cycle: they carry a cycle number.
pub open spec fn cycle_of(event: Event) -> Option<u64> {
    match event {
        Event::FrameProcessed { cycle, .. } => Some(cycle),
        Event::RevalidationElapsed { cycle } => Some(cycle),
        Event::MeasurementResolved { cycle, .. } => Some(cycle),
        Event::CeilingElapsed { cycle } => Some(cycle),
        _ => None,
    }
}

/// What is left of a superseded cycle changes nothing: an event that carries
/// another number than that of the latest cycle leaves the session as it is
/// and asks for nothing.
pub proof fn lemma_stale_event_ignored(session: SessionView, event: Event)
    requires
        cycle_of(event) matches Some(cycle) && cycle != session.cycle,
    ensures
        session.after(event) == session,
        session.action_for(event) == Action::Nothing,
{
}

/// Only a fault injection sets the guard. It is cleared by the measurement
/// that completes the cycle, or else by the ceiling. In particular a
/// measurement that comes back late never sets it again.
pub proof fn lemma_guard_changes(session: SessionView, event: Event)
    ensures
        !session.in_progress && session.after(event).in_progress ==> event is InjectFault,
        session.in_progress && !session.after(event).in_progress ==> event
            is MeasurementResolved || event is CeilingElapsed,
        event is MeasurementResolved ==> !session.after(event).in_progress
            || session.after(event) == session,
{
}

/// The timeline opens with a fault injection and closes at the ceiling or
/// with a reset; the guard never outlasts it.
pub proof fn lemma_timeline_changes(session: SessionView, event: Event)
    requires
        session.well_formed(),
    ensures
        !session.timeline_open && session.after(event).timeline_open ==> event is InjectFault,
        session.timeline_open && !session.after(event).timeline_open ==> event is CeilingElapsed
            || event is Reset,
        session.after(event).in_progress ==> session.after(event).timeline_open,
{
}

/// The fault target moves along `Healthy -> Faulty -> Rebuilding -> Healthy`
/// and no other way: a fault comes from an injection, a rebuild follows a
/// fault at the end of the revalidation interval, and health returns with the
/// measurement or a reset. A measurement is requested exactly when the rebuild
/// begins.
pub proof fn lemma_target_transitions(session: SessionView, event: Event)
    requires
        session.well_formed(),
    ensures
        ({
            let before = session.target_state();
            let after = session.after(event).target_state();
            &&& before != after && after is Faulty ==> event is InjectFault
            &&& before != after && after is Rebuilding ==> before is Faulty
                && event is RevalidationElapsed
            &&& before != after && after is Healthy ==> (before is Rebuilding
                && event is MeasurementResolved) || event is Reset
            &&& session.action_for(event) is RequestMeasurement <==> before is Faulty
                && after is Rebuilding
        }),
{
}

/// The frame counter never runs backwards within a cycle: only a fault
/// injection or a reset puts it back to zero.
pub proof fn lemma_frames_monotonic(session: SessionView, event: Event)
    requires
        !(event is InjectFault),
        !(event is Reset),
    ensures
        session.after(event).frames >= session.frames,
{
}

/// No event of `events` injects a fault or resets the session.
pub open spec fn undisturbed(events: Seq<Event>) -> bool {
    forall|k: int|
        0 <= k < events.len() ==> !((#[trigger] events[k]) is InjectFault) && !(events[k] is Reset)
}

/// The fault target is healthy only with a measurement on record.
pub open spec fn healthy_means_measured(session: SessionView) -> bool {
    session.target_state() is Healthy ==> session.measurement is Some
}

/// Events that neither inject nor reset keep the cycle, never bring a fault
/// back, and never heal the fault target without recording a measurement.
pub proof fn lemma_undisturbed(session: SessionView, events: Seq<Event>)
    requires
        session.well_formed(),
        undisturbed(events),
    ensures
        session.after_all(events).well_formed(),
        session.after_all(events).cycle == session.cycle,
        session.after_all(events).frames >= session.frames,
        !(session.target_state() is Faulty) ==> !(session.after_all(events).target_state()
            is Faulty),
        session.target_state() is Healthy ==> session.after_all(events).instances
            == session.instances,
        healthy_means_measured(session) ==> healthy_means_measured(session.after_all(events)),
    decreases events.len(),
{
    if events.len() > 0 {
        let earlier = events.drop_last();
        assert(undisturbed(earlier)) by {
            assert forall|k: int| 0 <= k < earlier.len() implies !((
            #[trigger] earlier[k]) is InjectFault) && !(earlier[k] is Reset) by {
                assert(earlier[k] == events[k]);
            }
        }
        lemma_undisturbed(session, earlier);
        let last = events.last();
        assert(last == events[events.len() - 1]);
        let reached = session.after_all(earlier);
        assert(reached.after(last).well_formed());
        if reached.target_state() is Healthy {
            assert(reached.after(last).instances =~= reached.instances);
        }
    }
}

/// Recovery completes: after a fault injection that began a cycle, once the
/// revalidation interval of that cycle has elapsed and its measurement has
/// come back, the fault target is healthy again at the baseline and a
/// measurement is on record. Frame ticks, the ceiling, repeated or stale
/// events before and in between do not matter, as long as nobody injects or
/// resets meanwhile. The measurement may come back before or after the
/// ceiling.
pub proof fn lemma_recovery_completes(
    start: SessionView,
    first: Seq<Event>,
    second: Seq<Event>,
    result: MeasurementResult,
)
    requires
        start.well_formed(),
        !start.in_progress,
        undisturbed(first),
        undisturbed(second),
    ensures
        ({
            let cycle = next_cycle(start.cycle) as u64;
            let recovered = start.inject_fault().after_all(first).revalidation_elapsed(
                cycle,
            ).after_all(second).measurement_resolved(cycle, result);
            &&& recovered.well_formed()
            &&& recovered.instances == uniform_snapshot(baseline_reading())
            &&& recovered.measurement is Some
        }),
{
    let cycle = next_cycle(start.cycle) as u64;
    let injected = start.inject_fault();
    lemma_undisturbed(injected, first);
    let waited = injected.after_all(first);
    let rebuilding = waited.revalidation_elapsed(cycle);
    lemma_undisturbed(rebuilding, second);
    let measured = rebuilding.after_all(second);
    let recovered = measured.measurement_resolved(cycle, result);
    assert(recovered.instances =~= uniform_snapshot(baseline_reading()));
}

/// Recovery in its plain order: injection, revalidation, measurement, with
/// nothing in between. The fault target is healthy again at the baseline, the
/// record holds what was measured, or the fallback duration if the
/// measurement failed, and the cycle is complete: the guard is cleared while
/// the timeline runs on.
pub proof fn lemma_recovery_records(start: SessionView, result: MeasurementResult)
    requires
        start.well_formed(),
        !start.in_progress,
    ensures
        ({
            let cycle = next_cycle(start.cycle) as u64;
            let recovered = start.inject_fault().revalidation_elapsed(
                cycle,
            ).measurement_resolved(cycle, result);
            &&& recovered.instances == uniform_snapshot(baseline_reading())
            &&& recovered.measurement == Some(recorded(result))
            &&& !recovered.in_progress
            &&& recovered.timeline_open
        }),
{
    let cycle = next_cycle(start.cycle) as u64;
    let recovered = start.inject_fault().revalidation_elapsed(cycle).measurement_resolved(
        cycle,
        result,
    );
    assert(recovered.instances =~= uniform_snapshot(baseline_reading()));
}

} // verus!
