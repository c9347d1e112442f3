use ics_guardian::registry::{Instance, InstanceState, Reading};
use ics_guardian::session::{
    Action, Event, Injection, MeasurementResult, MeasurementSource, RecoveryMeasurement,
    ResetError, Session, BASELINE_TENTHS, FALLBACK_REBUILD_US, FAULT_TARGET, FAULT_TENTHS,
};
use ics_guardian::timeline::timeline;
use ics_guardian::voter::VoteOutcome;

fn baseline() -> Reading {
    Reading { tenths: 28_473 }
}

fn sentinel() -> Reading {
    Reading { tenths: 99_999 }
}

fn initial_snapshot() -> [Instance; 3] {
    [
        Instance { id: 0, state: InstanceState::Healthy, reading: baseline() },
        Instance { id: 1, state: InstanceState::Healthy, reading: baseline() },
        Instance { id: 2, state: InstanceState::Healthy, reading: baseline() },
    ]
}

fn unhealthy(session: &Session) -> usize {
    session.snapshot().iter().filter(|i| i.state != InstanceState::Healthy).count()
}

/// Everything a reporting collaborator can read.
fn observable(
    session: &Session,
) -> ([Instance; 3], bool, bool, u64, u32, Option<RecoveryMeasurement>) {
    (
        session.snapshot(),
        session.is_in_progress(),
        session.is_timeline_open(),
        session.cycle(),
        session.frames_processed(),
        session.measurement(),
    )
}

#[test]
fn constants_are_the_documented_readings() {
    assert_eq!(BASELINE_TENTHS as f64 / 10.0, 2847.3);
    assert_eq!(FAULT_TENTHS as f64 / 10.0, 9999.9);
    assert_eq!(FALLBACK_REBUILD_US as f64 / 1000.0, 5.0);
    assert_eq!(FAULT_TARGET, 1);
}

#[test]
fn new_session_is_idle_and_healthy() {
    let session = Session::new();
    assert_eq!(session.snapshot(), initial_snapshot());
    assert!(!session.is_in_progress());
    assert!(!session.is_timeline_open());
    assert_eq!(session.cycle(), 0);
    assert_eq!(session.frames_processed(), 0);
    assert_eq!(session.measurement(), None);
    assert_eq!(session.vote(), VoteOutcome::Consensus(baseline()));
    assert_eq!(session.registry().snapshot(), initial_snapshot());
}

#[test]
fn end_to_end_fault_and_recovery() {
    let mut session = Session::new();
    for instance in session.snapshot() {
        assert_eq!(instance.reading.tenths as f64 / 10.0, 2847.3);
    }

    assert_eq!(session.inject_fault(), Injection::Started { cycle: 1 });
    let faulted = session.snapshot()[1];
    assert_eq!(faulted.state, InstanceState::Faulty);
    assert_eq!(faulted.reading, sentinel());
    assert_eq!(faulted.reading.tenths as f64 / 10.0, 9999.9);
    assert_eq!(session.vote(), VoteOutcome::Consensus(baseline()));
    assert!(session.is_in_progress());

    assert!(session.revalidation_elapsed(1));
    assert_eq!(session.snapshot()[1].state, InstanceState::Rebuilding);
    assert_eq!(session.vote(), VoteOutcome::Consensus(baseline()));
    assert_eq!(session.measurement(), None);

    assert!(session.measurement_resolved(1, MeasurementResult::Measured { duration_us: 1_250 }));
    assert_eq!(session.snapshot()[1].state, InstanceState::Healthy);
    assert_eq!(session.snapshot()[1].reading, baseline());
    assert_eq!(
        session.measurement(),
        Some(RecoveryMeasurement { duration_us: 1_250, source: MeasurementSource::Measured })
    );

    // The cycle is complete with the recovery: the guard has fallen.
    assert!(!session.is_in_progress());

    assert_eq!(session.reset(), Ok(()));
    assert_eq!(session.snapshot(), initial_snapshot());
    assert_eq!(session.measurement(), None);
    assert_eq!(session.frames_processed(), 0);
    assert_eq!(session.vote(), VoteOutcome::Consensus(baseline()));
}

#[test]
fn reset_right_after_a_measured_zero_succeeds() {
    let mut session = Session::new();
    session.inject_fault();
    assert!(session.revalidation_elapsed(1));
    assert!(session.measurement_resolved(1, MeasurementResult::Measured { duration_us: 0 }));
    assert_eq!(session.snapshot(), initial_snapshot());
    assert_eq!(session.vote(), VoteOutcome::Consensus(baseline()));
    assert_eq!(
        session.measurement(),
        Some(RecoveryMeasurement { duration_us: 0, source: MeasurementSource::Measured })
    );
    assert_eq!(session.reset(), Ok(()));
    assert_eq!(session.snapshot(), initial_snapshot());
    assert_eq!(session.measurement(), None);
    assert_eq!(session.frames_processed(), 0);
    assert!(!session.is_in_progress());
}

#[test]
fn guard_stands_from_injection_to_recovery() {
    let mut session = Session::new();
    assert!(!session.is_in_progress());
    session.inject_fault();
    assert!(session.is_in_progress());
    assert_eq!(session.reset(), Err(ResetError::CycleInProgress));
    session.revalidation_elapsed(1);
    assert!(session.is_in_progress());
    assert_eq!(session.reset(), Err(ResetError::CycleInProgress));
    assert_eq!(session.inject_fault(), Injection::Ignored);
    session.measurement_resolved(1, MeasurementResult::Failed);
    assert!(!session.is_in_progress());
    // The ceiling finds nothing left to clear.
    assert!(!session.ceiling_elapsed(1));
    assert!(!session.is_in_progress());
}

#[test]
fn frames_count_on_after_the_recovery() {
    let mut session = Session::new();
    session.inject_fault();
    session.frame_processed(1, 5);
    session.revalidation_elapsed(1);
    session.measurement_resolved(1, MeasurementResult::Measured { duration_us: 12 });
    assert!(!session.is_in_progress());
    assert!(session.is_timeline_open());
    for frame in 6..=20 {
        assert!(session.frame_processed(1, frame));
        assert_eq!(session.frames_processed(), frame);
    }
    session.ceiling_elapsed(1);
    assert!(!session.is_timeline_open());
    assert!(!session.frame_processed(1, 21));
    assert_eq!(session.frames_processed(), 20);
}

#[test]
fn pending_timers_do_not_write_into_a_reset_session() {
    let mut session = Session::new();
    session.inject_fault();
    session.frame_processed(1, 5);
    session.revalidation_elapsed(1);
    session.measurement_resolved(1, MeasurementResult::Measured { duration_us: 12 });
    // Reset while the frame timers and the ceiling of the cycle are pending.
    assert_eq!(session.reset(), Ok(()));
    let before = observable(&session);
    for frame in 6..=20 {
        assert!(!session.frame_processed(1, frame));
    }
    assert!(!session.revalidation_elapsed(1));
    assert!(!session.measurement_resolved(1, MeasurementResult::Failed));
    assert!(!session.ceiling_elapsed(1));
    assert_eq!(observable(&session), before);
    assert_eq!(session.frames_processed(), 0);
    assert_eq!(session.measurement(), None);
}

#[test]
fn injection_right_after_recovery_begins_a_new_cycle() {
    let mut session = Session::new();
    session.inject_fault();
    session.frame_processed(1, 5);
    session.revalidation_elapsed(1);
    session.measurement_resolved(1, MeasurementResult::Measured { duration_us: 12 });
    assert_eq!(session.inject_fault(), Injection::Started { cycle: 2 });
    assert_eq!(session.frames_processed(), 0);
    let before = observable(&session);
    // What is left of the first cycle is stale.
    assert!(!session.frame_processed(1, 6));
    assert!(!session.ceiling_elapsed(1));
    assert_eq!(observable(&session), before);
    assert!(session.is_in_progress());
    assert!(session.frame_processed(2, 1));
}

#[test]
fn injection_touches_the_fault_target_only() {
    let mut session = Session::new();
    session.inject_fault();
    let all = session.snapshot();
    assert_eq!(all[0], initial_snapshot()[0]);
    assert_eq!(all[2], initial_snapshot()[2]);
    assert_eq!(all[FAULT_TARGET], Instance { id: 1, state: InstanceState::Faulty, reading: sentinel() });
    assert_eq!(unhealthy(&session), 1);
}

#[test]
fn injecting_twice_is_injecting_once() {
    let mut once = Session::new();
    assert_eq!(once.inject_fault(), Injection::Started { cycle: 1 });

    let mut twice = Session::new();
    assert_eq!(twice.inject_fault(), Injection::Started { cycle: 1 });
    assert_eq!(twice.inject_fault(), Injection::Ignored);

    assert_eq!(observable(&once), observable(&twice));
    assert_eq!(twice.handle(Event::InjectFault), Action::Nothing);
    assert_eq!(observable(&once), observable(&twice));
}

#[test]
fn injection_during_rebuild_is_ignored() {
    let mut session = Session::new();
    session.inject_fault();
    session.frame_processed(1, 3);
    session.revalidation_elapsed(1);
    let before = observable(&session);
    assert_eq!(session.inject_fault(), Injection::Ignored);
    assert_eq!(observable(&session), before);
    assert_eq!(session.snapshot()[1].state, InstanceState::Rebuilding);
}

#[test]
fn failed_measurement_records_the_fallback() {
    let mut session = Session::new();
    session.inject_fault();
    session.revalidation_elapsed(1);
    assert!(session.measurement_resolved(1, MeasurementResult::Failed));
    assert_eq!(
        session.measurement(),
        Some(RecoveryMeasurement { duration_us: 5_000, source: MeasurementSource::Fallback })
    );
    assert_eq!(session.snapshot(), initial_snapshot());
}

#[test]
fn zero_is_a_measurement() {
    let mut session = Session::new();
    session.inject_fault();
    session.revalidation_elapsed(1);
    session.measurement_resolved(1, MeasurementResult::Measured { duration_us: 0 });
    assert_eq!(
        session.measurement(),
        Some(RecoveryMeasurement { duration_us: 0, source: MeasurementSource::Measured })
    );
    assert_ne!(session.measurement(), None);
}

#[test]
fn measured_fallback_value_is_still_tagged_as_measured() {
    let mut session = Session::new();
    session.inject_fault();
    session.revalidation_elapsed(1);
    session.measurement_resolved(1, MeasurementResult::Measured { duration_us: 5_000 });
    assert_eq!(session.measurement().unwrap().source, MeasurementSource::Measured);
}

#[test]
fn reset_in_progress_is_refused_and_changes_nothing() {
    let mut session = Session::new();
    session.inject_fault();
    session.frame_processed(1, 2);
    let before = observable(&session);
    assert_eq!(session.reset(), Err(ResetError::CycleInProgress));
    assert_eq!(observable(&session), before);
    assert_eq!(session.handle(Event::Reset), Action::ResetRefused);
    assert_eq!(observable(&session), before);
}

#[test]
fn reset_on_a_fresh_session_is_accepted() {
    let mut session = Session::new();
    assert_eq!(session.reset(), Ok(()));
    assert_eq!(session.handle(Event::Reset), Action::Nothing);
    assert_eq!(observable(&session), observable(&Session::new()));
}

#[test]
fn reset_keeps_the_cycle_number() {
    let mut session = Session::new();
    session.inject_fault();
    session.ceiling_elapsed(1);
    assert_eq!(session.reset(), Ok(()));
    assert_eq!(session.cycle(), 1);
    assert_eq!(session.inject_fault(), Injection::Started { cycle: 2 });
}

#[test]
fn ceiling_clears_the_guard_with_the_measurement_outstanding() {
    let mut session = Session::new();
    session.inject_fault();
    session.revalidation_elapsed(1);
    assert!(session.ceiling_elapsed(1));
    assert!(!session.is_in_progress());
    assert_eq!(session.snapshot()[1].state, InstanceState::Rebuilding);
    assert_eq!(session.measurement(), None);
    assert_eq!(unhealthy(&session), 1);
    assert_eq!(session.vote(), VoteOutcome::Consensus(baseline()));

    // The measurement may still come back; it heals the instance and leaves
    // the guard alone.
    assert!(session.measurement_resolved(1, MeasurementResult::Measured { duration_us: 9 }));
    assert!(!session.is_in_progress());
    assert_eq!(session.snapshot(), initial_snapshot());
    assert_eq!(session.measurement().unwrap().duration_us, 9);
}

#[test]
fn late_measurement_of_a_superseded_cycle_is_dropped() {
    let mut session = Session::new();
    session.inject_fault();
    session.revalidation_elapsed(1);
    session.ceiling_elapsed(1);
    // A second cycle begins while the first measurement is outstanding.
    assert_eq!(session.inject_fault(), Injection::Started { cycle: 2 });
    assert_eq!(session.snapshot()[1].state, InstanceState::Faulty);
    let before = observable(&session);

    assert!(!session.measurement_resolved(1, MeasurementResult::Measured { duration_us: 7 }));
    assert_eq!(observable(&session), before);

    assert!(session.revalidation_elapsed(2));
    assert!(!session.measurement_resolved(1, MeasurementResult::Measured { duration_us: 7 }));
    assert_eq!(session.snapshot()[1].state, InstanceState::Rebuilding);
    assert!(session.measurement_resolved(2, MeasurementResult::Measured { duration_us: 8 }));
    assert_eq!(session.measurement().unwrap().duration_us, 8);
}

#[test]
fn late_measurement_after_reset_is_dropped() {
    let mut session = Session::new();
    session.inject_fault();
    session.revalidation_elapsed(1);
    session.ceiling_elapsed(1);
    assert_eq!(session.reset(), Ok(()));
    let before = observable(&session);
    assert!(!session.measurement_resolved(1, MeasurementResult::Measured { duration_us: 7 }));
    assert_eq!(observable(&session), before);
    assert_eq!(session.measurement(), None);
}

#[test]
fn measurement_before_the_rebuild_is_dropped() {
    let mut session = Session::new();
    session.inject_fault();
    let before = observable(&session);
    assert!(!session.measurement_resolved(1, MeasurementResult::Failed));
    assert_eq!(observable(&session), before);
}

#[test]
fn second_measurement_of_a_cycle_is_dropped() {
    let mut session = Session::new();
    session.inject_fault();
    session.revalidation_elapsed(1);
    assert!(session.measurement_resolved(1, MeasurementResult::Measured { duration_us: 3 }));
    assert!(!session.measurement_resolved(1, MeasurementResult::Measured { duration_us: 4 }));
    assert_eq!(session.measurement().unwrap().duration_us, 3);
}

#[test]
fn stale_timers_change_nothing() {
    let mut session = Session::new();
    session.inject_fault();
    session.ceiling_elapsed(1);
    session.inject_fault();
    let before = observable(&session);
    assert!(!session.frame_processed(1, 20));
    assert!(!session.revalidation_elapsed(1));
    assert!(!session.ceiling_elapsed(1));
    assert_eq!(session.handle(Event::RevalidationElapsed { cycle: 1 }), Action::Nothing);
    assert_eq!(session.handle(Event::CeilingElapsed { cycle: 7 }), Action::Nothing);
    assert_eq!(observable(&session), before);
}

#[test]
fn events_on_a_fresh_session_change_nothing() {
    let mut session = Session::new();
    let before = observable(&session);
    assert!(!session.frame_processed(0, 1));
    assert!(!session.revalidation_elapsed(0));
    assert!(!session.measurement_resolved(0, MeasurementResult::Failed));
    assert!(!session.ceiling_elapsed(0));
    assert_eq!(observable(&session), before);
}

#[test]
fn frame_counter_never_runs_backwards() {
    let mut session = Session::new();
    session.inject_fault();
    assert!(session.frame_processed(1, 1));
    assert!(session.frame_processed(1, 3));
    assert_eq!(session.frames_processed(), 3);
    // A tick that fires late does not take the counter back.
    assert!(!session.frame_processed(1, 2));
    assert_eq!(session.frames_processed(), 3);
    assert!(!session.frame_processed(1, 3));
    assert!(session.frame_processed(1, 4));
    assert_eq!(session.frames_processed(), 4);
}

#[test]
fn frame_counter_starts_again_with_each_cycle() {
    let mut session = Session::new();
    session.inject_fault();
    session.frame_processed(1, 20);
    session.ceiling_elapsed(1);
    assert_eq!(session.frames_processed(), 20);
    // Outside a cycle no tick counts.
    assert!(!session.frame_processed(1, 21));
    session.inject_fault();
    assert_eq!(session.frames_processed(), 0);
    assert!(session.frame_processed(2, 1));
    assert_eq!(session.frames_processed(), 1);
}

#[test]
fn frames_do_not_touch_the_vote() {
    let mut session = Session::new();
    session.inject_fault();
    let before = session.snapshot();
    for frame in 1..=20 {
        session.frame_processed(1, frame);
        assert_eq!(session.snapshot(), before);
        assert_eq!(session.vote(), VoteOutcome::Consensus(baseline()));
    }
}

#[test]
fn handle_reports_the_next_action() {
    let mut session = Session::new();
    assert_eq!(session.handle(Event::InjectFault), Action::StartTimeline { cycle: 1 });
    assert_eq!(session.handle(Event::FrameProcessed { cycle: 1, frame: 1 }), Action::Nothing);
    assert_eq!(session.frames_processed(), 1);
    assert_eq!(
        session.handle(Event::RevalidationElapsed { cycle: 1 }),
        Action::RequestMeasurement { cycle: 1 }
    );
    // The request is made once.
    assert_eq!(session.handle(Event::RevalidationElapsed { cycle: 1 }), Action::Nothing);
    assert_eq!(
        session.handle(Event::MeasurementResolved { cycle: 1, result: MeasurementResult::Failed }),
        Action::Nothing
    );
    assert_eq!(session.snapshot(), initial_snapshot());
    assert!(!session.is_in_progress());
    assert_eq!(session.handle(Event::CeilingElapsed { cycle: 1 }), Action::Nothing);
    assert!(!session.is_timeline_open());
    assert_eq!(session.handle(Event::Reset), Action::Nothing);
    assert_eq!(session.measurement(), None);
}

/// Fires the timers of a timeline the way a timer queue does: by delay, and
/// among equal delays in the order in which they were armed. The measurement
/// comes back at once with `result`, or never if `result` is `None`.
fn run_cycle(session: &mut Session, cycle: u64, result: Option<MeasurementResult>) {
    let mut timers = timeline(cycle);
    timers.sort_by_key(|timer| timer.delay_ms);
    for timer in timers {
        let action = session.handle(timer.event);
        if let Action::RequestMeasurement { cycle } = action {
            if let Some(result) = result {
                session.handle(Event::MeasurementResolved { cycle, result });
            }
        }
        assert!(unhealthy(session) <= 1);
        assert_eq!(session.vote(), VoteOutcome::Consensus(baseline()));
    }
}

#[test]
fn driven_by_its_timeline_a_cycle_completes() {
    let mut session = Session::new();
    let action = session.handle(Event::InjectFault);
    assert_eq!(action, Action::StartTimeline { cycle: 1 });
    run_cycle(&mut session, 1, Some(MeasurementResult::Measured { duration_us: 420 }));
    assert!(!session.is_in_progress());
    assert_eq!(session.frames_processed(), 20);
    assert_eq!(session.snapshot(), initial_snapshot());
    assert_eq!(
        session.measurement(),
        Some(RecoveryMeasurement { duration_us: 420, source: MeasurementSource::Measured })
    );
    assert_eq!(session.reset(), Ok(()));
    assert_eq!(session.snapshot(), initial_snapshot());
    assert_eq!(session.frames_processed(), 0);
    assert_eq!(session.measurement(), None);
}

#[test]
fn stuck_measurement_does_not_wedge_the_session() {
    let mut session = Session::new();
    session.handle(Event::InjectFault);
    run_cycle(&mut session, 1, None);
    assert!(!session.is_in_progress());
    assert_eq!(session.snapshot()[1].state, InstanceState::Rebuilding);
    // A new cycle can begin, and so can a reset.
    assert_eq!(session.handle(Event::InjectFault), Action::StartTimeline { cycle: 2 });
    run_cycle(&mut session, 2, Some(MeasurementResult::Failed));
    assert_eq!(session.snapshot(), initial_snapshot());
    assert_eq!(session.measurement().unwrap().source, MeasurementSource::Fallback);
    assert_eq!(session.reset(), Ok(()));
}

#[test]
fn at_most_one_instance_is_ever_out_of_service() {
    // Every sequence of four events out of a pool that mixes current, stale
    // and repeated ones.
    let pool = [
        Event::InjectFault,
        Event::Reset,
        Event::FrameProcessed { cycle: 1, frame: 5 },
        Event::RevalidationElapsed { cycle: 1 },
        Event::RevalidationElapsed { cycle: 2 },
        Event::MeasurementResolved { cycle: 1, result: MeasurementResult::Failed },
        Event::MeasurementResolved {
            cycle: 2,
            result: MeasurementResult::Measured { duration_us: 1 },
        },
        Event::CeilingElapsed { cycle: 1 },
        Event::CeilingElapsed { cycle: 2 },
    ];
    for a in pool {
        for b in pool {
            for c in pool {
                for d in pool {
                    let mut session = Session::new();
                    for event in [a, b, c, d] {
                        session.handle(event);
                        assert!(unhealthy(&session) <= 1);
                        assert_eq!(session.snapshot()[0], initial_snapshot()[0]);
                        assert_eq!(session.snapshot()[2], initial_snapshot()[2]);
                        assert_eq!(session.vote(), VoteOutcome::Consensus(baseline()));
                    }
                }
            }
        }
    }
}

#[test]
fn session_vote_is_the_vote_on_its_registry() {
    let mut session = Session::new();
    session.inject_fault();
    assert_eq!(session.vote(), ics_guardian::voter::vote(session.registry()));
    let first = session.vote();
    let second = session.vote();
    assert_eq!(first, second);
}
