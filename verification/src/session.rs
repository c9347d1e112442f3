//! The demonstration session: fault injection and the recovery scheduler.
//!
//! A session owns the registry and decides; it never waits. Whoever drives it
//! arms the timers, asks the measurement collaborator and hands every outcome
//! back as an [`Event`]. Each event carries the cycle it belongs to, so that a
//! timer or a measurement that arrives after its cycle was superseded changes
//! nothing.
//!
//! A cycle runs from the fault injection to the recovery of the fault target:
//! the guard against a second injection and against a reset stands for that
//! long, and no longer than the session ceiling. The timeline of the cycle,
//! its frame ticks, runs on to the ceiling unless a reset ends it.

use crate::registry::{
    snapshot_shape, uniform_snapshot, with_reading, with_state, Instance, InstanceState, Reading,
    Registry, INSTANCE_COUNT,
};
use crate::voter::{vote, vote_of, VoteOutcome};
use vstd::prelude::*;

verus! {

/// The instance that fault injection hits.
pub const FAULT_TARGET: usize = 1;

/// The reading every instance holds while it is healthy, in tenths: 2847.3.
pub const BASELINE_TENTHS: i64 = 28_473;

/// The reading a faulted instance is given, in tenths: 9999.9.
pub const FAULT_TENTHS: i64 = 99_999;

/// Duration recorded when the measurement collaborator fails, in microseconds.
pub const FALLBACK_REBUILD_US: u64 = 5_000;

/// The baseline reading.
pub open spec fn baseline_reading() -> Reading {
    Reading { tenths: BASELINE_TENTHS }
}

/// The reading of a faulted instance.
pub open spec fn fault_reading() -> Reading {
    Reading { tenths: FAULT_TENTHS }
}

/// What the measurement collaborator reported for one rebuild.
#[derive(Clone, Copy, Debug, PartialEq, Eq, Structural)]
pub enum MeasurementResult {
    /// The rebuild was timed and took this long.
    Measured { duration_us: u64 },
    /// The collaborator failed or gave nothing usable.
    Failed,
}

/// Where a recorded duration comes from.
#[derive(Clone, Copy, Debug, PartialEq, Eq, Structural)]
pub enum MeasurementSource {
    /// Timed by the measurement collaborator.
    Measured,
    /// Substituted because the collaborator failed.
    Fallback,
}

/// The duration of the latest rebuild, in microseconds. Zero is a duration like
/// any other; "no measurement yet" is the absence of this value.
#[derive(Clone, Copy, Debug, PartialEq, Eq, Structural)]
pub struct RecoveryMeasurement {
    pub duration_us: u64,
    pub source: MeasurementSource,
}

/// Something that happened and that the session has to decide on.
#[derive(Clone, Copy, Debug, PartialEq, Eq, Structural)]
pub enum Event {
    /// A fault is to be injected.
    InjectFault,
    /// The frame timer of `cycle` fired for frame number `frame`.
    FrameProcessed { cycle: u64, frame: u32 },
    /// The revalidation interval of `cycle` is over.
    RevalidationElapsed { cycle: u64 },
    /// The measurement requested in `cycle` came back.
    MeasurementResolved { cycle: u64, result: MeasurementResult },
    /// The session ceiling of `cycle` is reached.
    CeilingElapsed { cycle: u64 },
    /// The session is to be put back to its initial state.
    Reset,
}

/// What the driver has to do after an event.
#[derive(Clone, Copy, Debug, PartialEq, Eq, Structural)]
pub enum Action {
    /// Nothing.
    Nothing,
    /// A cycle began: arm the timers of its timeline.
    StartTimeline { cycle: u64 },
    /// The rebuild began: ask the measurement collaborator and report what it
    /// says as `MeasurementResolved` of this cycle.
    RequestMeasurement { cycle: u64 },
    /// The reset was refused because a cycle is in progress.
    ResetRefused,
}

/// How a call of `inject_fault` ended.
#[derive(Clone, Copy, Debug, PartialEq, Eq, Structural)]
pub enum Injection {
    /// The fault was injected and this cycle began.
    Started { cycle: u64 },
    /// A cycle was already in progress; nothing changed.
    Ignored,
}

/// Why a reset was refused.
#[derive(Clone, Copy, Debug, PartialEq, Eq, Structural)]
pub enum ResetError {
    /// A fault-recovery cycle is in progress.
    CycleInProgress,
}

/// The session as a mathematical value.
pub struct SessionView {
    /// The registry snapshot.
    pub instances: Seq<Instance>,
    /// The re-entrancy guard: a cycle is in progress.
    pub in_progress: bool,
    /// The timeline of the latest cycle is running: its frame ticks count.
    pub timeline_open: bool,
    /// The number of the latest cycle.
    pub cycle: nat,
    /// The frame counter.
    pub frames: nat,
    /// The latest recovery measurement, if there is one.
    pub measurement: Option<RecoveryMeasurement>,
}

/// The number of the cycle that follows cycle `cycle`. Numbers wrap around at
/// the width of the counter.
pub open spec fn next_cycle(cycle: nat) -> nat {
    if cycle >= u64::MAX {
        0
    } else {
        cycle + 1
    }
}

/// The measurement recorded for a result: the measured duration, or the
/// fallback duration where the collaborator failed.
pub open spec fn recorded(result: MeasurementResult) -> RecoveryMeasurement {
    match result {
        MeasurementResult::Measured { duration_us } => RecoveryMeasurement {
            duration_us,
            source: MeasurementSource::Measured,
        },
        MeasurementResult::Failed => RecoveryMeasurement {
            duration_us: FALLBACK_REBUILD_US,
            source: MeasurementSource::Fallback,
        },
    }
}

impl SessionView {
    /// The session as it is created: all instances healthy at the baseline, no
    /// cycle, no frames, no measurement.
    pub open spec fn initial() -> SessionView {
        SessionView {
            instances: uniform_snapshot(baseline_reading()),
            in_progress: false,
            timeline_open: false,
            cycle: 0,
            frames: 0,
            measurement: None,
        }
    }

    /// The state of the fault target.
    pub open spec fn target_state(self) -> InstanceState {
        self.instances[FAULT_TARGET as int].state
    }

    /// What every session satisfies: only the fault target is ever out of
    /// service, healthy instances hold the baseline, an instance out of
    /// service holds the fault reading, and the timeline runs at least as
    /// long as the guard stands.
    pub open spec fn well_formed(self) -> bool {
        &&& snapshot_shape(self.instances)
        &&& forall|i: int|
            0 <= i < INSTANCE_COUNT && i != FAULT_TARGET ==> (
            #[trigger] self.instances[i]).state is Healthy
        &&& forall|i: int|
            0 <= i < INSTANCE_COUNT ==> (#[trigger] self.instances[i]).reading == if self.instances[i].state is Healthy {
                baseline_reading()
            } else {
                fault_reading()
            }
        &&& self.in_progress ==> self.timeline_open
        &&& self.cycle <= u64::MAX
        &&& self.frames <= u32::MAX
    }

    /// `event` belongs to the latest cycle.
    pub open spec fn is_current(self, cycle: u64) -> bool {
        cycle == self.cycle
    }

    /// After `inject_fault`: nothing changes while a cycle is in progress;
    /// otherwise the next cycle begins, the fault target turns faulty with the
    /// fault reading, and the timeline opens with the frame counter at zero.
    pub open spec fn inject_fault(self) -> SessionView {
        if self.in_progress {
            self
        } else {
            SessionView {
                instances: with_reading(
                    with_state(self.instances, FAULT_TARGET as int, InstanceState::Faulty),
                    FAULT_TARGET as int,
                    fault_reading(),
                ),
                in_progress: true,
                timeline_open: true,
                cycle: next_cycle(self.cycle),
                frames: 0,
                measurement: self.measurement,
            }
        }
    }

    /// A frame tick counts if it belongs to the running timeline and moves the
    /// counter forward.
    pub open spec fn frame_counts(self, cycle: u64, frame: u32) -> bool {
        self.timeline_open && self.is_current(cycle) && frame > self.frames
    }

    /// After a frame tick: the counter takes the frame number if the tick
    /// counts.
    pub open spec fn frame_processed(self, cycle: u64, frame: u32) -> SessionView {
        if self.frame_counts(cycle, frame) {
            SessionView { frames: frame as nat, ..self }
        } else {
            self
        }
    }

    /// The rebuild of `cycle` is due: the cycle is the latest one and its fault
    /// still stands.
    pub open spec fn rebuild_due(self, cycle: u64) -> bool {
        self.is_current(cycle) && self.target_state() is Faulty
    }

    /// After the revalidation interval: the fault target starts rebuilding if
    /// the rebuild is due.
    pub open spec fn revalidation_elapsed(self, cycle: u64) -> SessionView {
        if self.rebuild_due(cycle) {
            SessionView {
                instances: with_state(
                    self.instances,
                    FAULT_TARGET as int,
                    InstanceState::Rebuilding,
                ),
                ..self
            }
        } else {
            self
        }
    }

    /// A measurement of `cycle` is awaited: the cycle is the latest one and
    /// its rebuild is under way.
    pub open spec fn measurement_awaited(self, cycle: u64) -> bool {
        self.is_current(cycle) && self.target_state() is Rebuilding
    }

    /// After a measurement came back: if it is awaited, it is recorded, the
    /// fault target is healthy again at the baseline, and the cycle is
    /// complete: the guard is cleared, all at once. The timeline runs on. A
    /// measurement that is not awaited changes nothing.
    pub open spec fn measurement_resolved(
        self,
        cycle: u64,
        result: MeasurementResult,
    ) -> SessionView {
        if self.measurement_awaited(cycle) {
            SessionView {
                instances: with_reading(
                    with_state(self.instances, FAULT_TARGET as int, InstanceState::Healthy),
                    FAULT_TARGET as int,
                    baseline_reading(),
                ),
                in_progress: false,
                measurement: Some(recorded(result)),
                ..self
            }
        } else {
            self
        }
    }

    /// After the session ceiling: the timeline of the latest cycle is over,
    /// and its guard is cleared if it still stands, whether or not the
    /// measurement came back.
    pub open spec fn ceiling_elapsed(self, cycle: u64) -> SessionView {
        if self.is_current(cycle) {
            SessionView { in_progress: false, timeline_open: false, ..self }
        } else {
            self
        }
    }

    /// After `reset`: nothing changes while a cycle is in progress; otherwise
    /// the session is as it was created, with its timeline closed, but for
    /// the cycle number, which is kept so that what is left of earlier cycles
    /// stays recognisable.
    pub open spec fn reset(self) -> SessionView {
        if self.in_progress {
            self
        } else {
            SessionView { cycle: self.cycle, ..SessionView::initial() }
        }
    }

    /// The session after `event`.
    pub open spec fn after(self, event: Event) -> SessionView {
        match event {
            Event::InjectFault => self.inject_fault(),
            Event::FrameProcessed { cycle, frame } => self.frame_processed(cycle, frame),
            Event::RevalidationElapsed { cycle } => self.revalidation_elapsed(cycle),
            Event::MeasurementResolved { cycle, result } => self.measurement_resolved(
                cycle,
                result,
            ),
            Event::CeilingElapsed { cycle } => self.ceiling_elapsed(cycle),
            Event::Reset => self.reset(),
        }
    }

    /// What the driver has to do after `event`.
    pub open spec fn action_for(self, event: Event) -> Action {
        match event {
            Event::InjectFault => if self.in_progress {
                Action::Nothing
            } else {
                Action::StartTimeline { cycle: next_cycle(self.cycle) as u64 }
            },
            Event::RevalidationElapsed { cycle } => if self.rebuild_due(cycle) {
                Action::RequestMeasurement { cycle }
            } else {
                Action::Nothing
            },
            Event::Reset => if self.in_progress {
                Action::ResetRefused
            } else {
                Action::Nothing
            },
            _ => Action::Nothing,
        }
    }

    /// The session after all of `events`, in order.
    pub open spec fn after_all(self, events: Seq<Event>) -> SessionView
        decreases events.len(),
    {
        if events.len() == 0 {
            self
        } else {
            self.after_all(events.drop_last()).after(events.last())
        }
    }
}

/// One session of the demonstration: the registry, the re-entrancy guard,
/// the cycle number, the frame counter and the latest recovery measurement.
pub struct Session {
    registry: Registry,
    in_progress: bool,
    timeline_open: bool,
    cycle: u64,
    frames: u32,
    measurement: Option<RecoveryMeasurement>,
}

impl View for Session {
    type V = SessionView;

    closed spec fn view(&self) -> SessionView {
        SessionView {
            instances: self.registry@,
            in_progress: self.in_progress,
            timeline_open: self.timeline_open,
            cycle: self.cycle as nat,
            frames: self.frames as nat,
            measurement: self.measurement,
        }
    }
}

impl Session {
    #[verifier::type_invariant]
    spec fn consistent(&self) -> bool {
        self@.well_formed()
    }

    /// A fresh session.
    pub fn new() -> (session: Session)
        ensures
            session@ == SessionView::initial(),
    {
        Session {
            registry: Registry::new(Reading { tenths: BASELINE_TENTHS }),
            in_progress: false,
            timeline_open: false,
            cycle: 0,
            frames: 0,
            measurement: None,
        }
    }

    /// Injects a fault into the fault target and begins a cycle, unless a
    /// cycle is already in progress: then the call changes nothing.
    pub fn inject_fault(&mut self) -> (injection: Injection)
        ensures
            final(self)@ == old(self)@.inject_fault(),
            final(self)@.well_formed(),
            injection == if old(self)@.in_progress {
                Injection::Ignored
            } else {
                Injection::Started { cycle: next_cycle(old(self)@.cycle) as u64 }
            },
    {
        proof {
            use_type_invariant(&*self);
        }
        if self.in_progress {
            return Injection::Ignored;
        }
        let mut registry = self.registry;
        let _ = registry.set_state(FAULT_TARGET, InstanceState::Faulty);
        let _ = registry.set_reading(FAULT_TARGET, Reading { tenths: FAULT_TENTHS });
        let cycle = self.cycle.wrapping_add(1);
        *self = Session {
            registry,
            in_progress: true,
            timeline_open: true,
            cycle,
            frames: 0,
            measurement: self.measurement,
        };
        Injection::Started { cycle }
    }

    /// Takes a frame tick of `cycle`. The counter moves to `frame` if the tick
    /// belongs to the running timeline and `frame` is ahead of the counter;
    /// any other tick changes nothing. Says whether the tick counted.
    pub fn frame_processed(&mut self, cycle: u64, frame: u32) -> (counted: bool)
        ensures
            final(self)@ == old(self)@.frame_processed(cycle, frame),
            final(self)@.well_formed(),
            counted == old(self)@.frame_counts(cycle, frame),
    {
        proof {
            use_type_invariant(&*self);
        }
        if self.timeline_open && cycle == self.cycle && frame > self.frames {
            self.frames = frame;
            true
        } else {
            false
        }
    }

    /// Takes the end of the revalidation interval of `cycle`. If that cycle is
    /// the latest one and its fault still stands, the fault target starts
    /// rebuilding and the result is `true`: a measurement has to be requested.
    /// Otherwise nothing changes.
    pub fn revalidation_elapsed(&mut self, cycle: u64) -> (rebuilding: bool)
        ensures
            final(self)@ == old(self)@.revalidation_elapsed(cycle),
            final(self)@.well_formed(),
            rebuilding == old(self)@.rebuild_due(cycle),
    {
        proof {
            use_type_invariant(&*self);
        }
        let faulty = matches!(self.registry.state(FAULT_TARGET), Ok(InstanceState::Faulty));
        if cycle == self.cycle && faulty {
            let mut registry = self.registry;
            let _ = registry.set_state(FAULT_TARGET, InstanceState::Rebuilding);
            self.registry = registry;
            true
        } else {
            false
        }
    }

    /// Takes the outcome of the measurement requested in `cycle`. If that
    /// cycle is the latest one and its rebuild is under way, the outcome is
    /// recorded (the fallback duration for a failure), the fault target is
    /// healthy again at the baseline, and the cycle is complete: a reset or
    /// another injection is accepted from now on. A measurement that nobody
    /// awaits any more changes nothing. Says whether the measurement was
    /// applied.
    pub fn measurement_resolved(&mut self, cycle: u64, result: MeasurementResult) -> (applied:
        bool)
        ensures
            final(self)@ == old(self)@.measurement_resolved(cycle, result),
            final(self)@.well_formed(),
            applied == old(self)@.measurement_awaited(cycle),
    {
        proof {
            use_type_invariant(&*self);
        }
        let rebuilding = matches!(
            self.registry.state(FAULT_TARGET),
            Ok(InstanceState::Rebuilding)
        );
        if cycle == self.cycle && rebuilding {
            let measurement = match result {
                MeasurementResult::Measured { duration_us } => RecoveryMeasurement {
                    duration_us,
                    source: MeasurementSource::Measured,
                },
                MeasurementResult::Failed => RecoveryMeasurement {
                    duration_us: FALLBACK_REBUILD_US,
                    source: MeasurementSource::Fallback,
                },
            };
            let mut registry = self.registry;
            let _ = registry.set_state(FAULT_TARGET, InstanceState::Healthy);
            let _ = registry.set_reading(FAULT_TARGET, Reading { tenths: BASELINE_TENTHS });
            *self = Session {
                registry,
                in_progress: false,
                timeline_open: self.timeline_open,
                cycle: self.cycle,
                frames: self.frames,
                measurement: Some(measurement),
            };
            true
        } else {
            false
        }
    }

    /// Takes the session ceiling of `cycle`: if that cycle is the latest one,
    /// its timeline is over and its guard is cleared, whether or not its
    /// measurement came back. Says whether the guard was cleared by this call.
    pub fn ceiling_elapsed(&mut self, cycle: u64) -> (cleared: bool)
        ensures
            final(self)@ == old(self)@.ceiling_elapsed(cycle),
            final(self)@.well_formed(),
            cleared == (old(self)@.is_current(cycle) && old(self)@.in_progress),
    {
        proof {
            use_type_invariant(&*self);
        }
        if cycle == self.cycle {
            let cleared = self.in_progress;
            *self = Session {
                registry: self.registry,
                in_progress: false,
                timeline_open: false,
                cycle: self.cycle,
                frames: self.frames,
                measurement: self.measurement,
            };
            cleared
        } else {
            false
        }
    }

    /// Puts the session back as it was created: all instances healthy at the
    /// baseline, no frames, no measurement. Refused, with nothing changed,
    /// while a cycle is in progress.
    pub fn reset(&mut self) -> (res: Result<(), ResetError>)
        ensures
            final(self)@ == old(self)@.reset(),
            final(self)@.well_formed(),
            old(self)@.in_progress ==> res == Err::<(), ResetError>(ResetError::CycleInProgress),
            !old(self)@.in_progress ==> res is Ok,
    {
        proof {
            use_type_invariant(&*self);
        }
        if self.in_progress {
            return Err(ResetError::CycleInProgress);
        }
        *self = Session {
            registry: Registry::new(Reading { tenths: BASELINE_TENTHS }),
            in_progress: false,
            timeline_open: false,
            cycle: self.cycle,
            frames: 0,
            measurement: None,
        };
        Ok(())
    }

    /// Decides on `event`: changes the session as the event asks and says what
    /// the driver has to do next.
    pub fn handle(&mut self, event: Event) -> (action: Action)
        ensures
            final(self)@ == old(self)@.after(event),
            final(self)@.well_formed(),
            action == old(self)@.action_for(event),
    {
        proof {
            use_type_invariant(&*self);
        }
        match event {
            Event::InjectFault => match self.inject_fault() {
                Injection::Started { cycle } => Action::StartTimeline { cycle },
                Injection::Ignored => Action::Nothing,
            },
            Event::FrameProcessed { cycle, frame } => {
                let _ = self.frame_processed(cycle, frame);
                Action::Nothing
            },
            Event::RevalidationElapsed { cycle } => {
                if self.revalidation_elapsed(cycle) {
                    Action::RequestMeasurement { cycle }
                } else {
                    Action::Nothing
                }
            },
            Event::MeasurementResolved { cycle, result } => {
                let _ = self.measurement_resolved(cycle, result);
                Action::Nothing
            },
            Event::CeilingElapsed { cycle } => {
                let _ = self.ceiling_elapsed(cycle);
                Action::Nothing
            },
            Event::Reset => match self.reset() {
                Ok(()) => Action::Nothing,
                Err(_) => Action::ResetRefused,
            },
        }
    }

    /// Votes on the registry as it stands. Reads and changes nothing.
    pub fn vote(&self) -> (outcome: VoteOutcome)
        ensures
            outcome == vote_of(self@.instances),
            self@.well_formed(),
    {
        proof {
            use_type_invariant(self);
        }
        vote(&self.registry)
    }

    /// The registry, for reading.
    pub fn registry(&self) -> (registry: &Registry)
        ensures
            registry@ == self@.instances,
            self@.well_formed(),
    {
        proof {
            use_type_invariant(self);
        }
        &self.registry
    }

    /// All three instances as they stand at the moment of the call.
    pub fn snapshot(&self) -> (all: [Instance; 3])
        ensures
            all@ == self@.instances,
            self@.well_formed(),
    {
        proof {
            use_type_invariant(self);
        }
        self.registry.snapshot()
    }

    /// Whether a fault-recovery cycle is in progress.
    pub fn is_in_progress(&self) -> (in_progress: bool)
        ensures
            in_progress == self@.in_progress,
    {
        self.in_progress
    }

    /// Whether the timeline of the latest cycle is running.
    pub fn is_timeline_open(&self) -> (open: bool)
        ensures
            open == self@.timeline_open,
    {
        self.timeline_open
    }

    /// The number of the latest cycle.
    pub fn cycle(&self) -> (cycle: u64)
        ensures
            cycle == self@.cycle,
    {
        self.cycle
    }

    /// The frame counter.
    pub fn frames_processed(&self) -> (frames: u32)
        ensures
            frames == self@.frames,
    {
        self.frames
    }

    /// The latest recovery measurement, or `None` while there is none yet.
    pub fn measurement(&self) -> (measurement: Option<RecoveryMeasurement>)
        ensures
            measurement == self@.measurement,
    {
        self.measurement
    }
}

} // verus!
