//! The timeline of a cycle: the timers that its driver arms when a fault
//! injection begins it.
//!
//! The session does not keep time. It names, for a cycle, which event is due
//! after which delay; the driver arms one timer for each and hands the event
//! back when the timer fires.

use crate::registry::uniform_snapshot;
use crate::session::{baseline_reading, next_cycle, recorded, Event, MeasurementResult, SessionView};
use vstd::prelude::*;

verus! {

/// Number of frame ticks in a cycle.
pub const FRAME_COUNT: u32 = 20;

/// Time between two frame ticks, in milliseconds.
pub const FRAME_INTERVAL_MS: u32 = 100;

/// Time from fault injection to the start of the rebuild, in milliseconds.
pub const REVALIDATION_DELAY_MS: u32 = 500;

/// Time from fault injection to the end of the timeline, in milliseconds. A
/// cycle whose measurement has not come back by then ends here.
pub const SESSION_CEILING_MS: u32 = 3_000;

/// An event that is due a given time after the fault injection.
#[derive(Clone, Copy, Debug, PartialEq, Eq, Structural)]
pub struct Timer {
    pub delay_ms: u32,
    pub event: Event,
}

/// The timer of frame number `frame` of `cycle`.
pub open spec fn frame_timer(cycle: u64, frame: int) -> Timer {
    Timer {
        delay_ms: (frame * FRAME_INTERVAL_MS) as u32,
        event: Event::FrameProcessed { cycle, frame: frame as u32 },
    }
}

/// The timer that ends the revalidation interval of `cycle`.
pub open spec fn revalidation_timer(cycle: u64) -> Timer {
    Timer { delay_ms: REVALIDATION_DELAY_MS, event: Event::RevalidationElapsed { cycle } }
}

/// The timer that ends `cycle`.
pub open spec fn ceiling_timer(cycle: u64) -> Timer {
    Timer { delay_ms: SESSION_CEILING_MS, event: Event::CeilingElapsed { cycle } }
}

/// The timers of `cycle` in the order in which they are armed: the frame ticks
/// from the first to the last, the revalidation interval, the ceiling.
pub open spec fn timeline_of(cycle: u64) -> Seq<Timer> {
    Seq::new(FRAME_COUNT as nat, |i: int| frame_timer(cycle, i + 1)).push(
        revalidation_timer(cycle),
    ).push(ceiling_timer(cycle))
}

/// The ceiling closes the timeline: every other timer of the cycle is due
/// strictly before it, and the frame ticks come at growing delays with growing
/// frame numbers.
pub proof fn lemma_timeline_order(cycle: u64)
    ensures
        timeline_of(cycle).len() == FRAME_COUNT + 2,
        timeline_of(cycle).last() == ceiling_timer(cycle),
        forall|i: int|
            0 <= i < timeline_of(cycle).len() - 1 ==> (#[trigger] timeline_of(cycle)[i]).delay_ms
                < SESSION_CEILING_MS,
        forall|i: int, j: int|
            0 <= i < j < FRAME_COUNT ==> (#[trigger] timeline_of(cycle)[i]).delay_ms < (
            #[trigger] timeline_of(cycle)[j]).delay_ms,
        forall|i: int|
            0 <= i < FRAME_COUNT ==> (#[trigger] timeline_of(cycle)[i]).event
                == (Event::FrameProcessed { cycle, frame: (i + 1) as u32 }),
        forall|i: int|
            0 <= i < timeline_of(cycle).len() ==> crate::guarantees::cycle_of(
                (#[trigger] timeline_of(cycle)[i]).event,
            ) == Some(cycle),
{
}

/// Number of the last frame tick that fires before the rebuild begins: the
/// ticks fire first among timers of the same delay, because they are armed
/// first.
pub const FRAMES_BEFORE_REBUILD: u32 = 5;

/// Where the timer at position `fired` of the firing order stands in the
/// timeline: the revalidation timer moves up behind the last frame tick that
/// is due no later than itself, everything else keeps its order.
pub open spec fn armed_position(fired: int) -> int {
    if fired < FRAMES_BEFORE_REBUILD {
        fired
    } else if fired == FRAMES_BEFORE_REBUILD {
        FRAME_COUNT as int
    } else if fired <= FRAME_COUNT {
        fired - 1
    } else {
        fired
    }
}

/// Where the timer at position `armed` of the timeline stands in the firing
/// order.
pub open spec fn fired_position(armed: int) -> int {
    if armed < FRAMES_BEFORE_REBUILD {
        armed
    } else if armed < FRAME_COUNT {
        armed + 1
    } else if armed == FRAME_COUNT {
        FRAMES_BEFORE_REBUILD as int
    } else {
        armed
    }
}

/// The timers of `cycle` in the order in which they fire: by delay, and among
/// timers of the same delay in the order in which they were armed.
pub open spec fn firing_order_of(cycle: u64) -> Seq<Timer> {
    Seq::new(timeline_of(cycle).len(), |fired: int| timeline_of(cycle)[armed_position(fired)])
}

/// The firing order holds every timer of the timeline once, with delays that
/// never fall, and it keeps the order of arming among timers of the same
/// delay.
pub proof fn lemma_firing_order(cycle: u64)
    ensures
        firing_order_of(cycle).len() == timeline_of(cycle).len(),
        forall|fired: int|
            0 <= fired < timeline_of(cycle).len() ==> 0 <= #[trigger] armed_position(fired)
                < timeline_of(cycle).len(),
        forall|fired: int|
            0 <= fired < timeline_of(cycle).len() ==> fired_position(
                #[trigger] armed_position(fired),
            ) == fired,
        forall|armed: int|
            0 <= armed < timeline_of(cycle).len() ==> 0 <= #[trigger] fired_position(armed)
                < timeline_of(cycle).len() && armed_position(fired_position(armed)) == armed,
        forall|first: int, second: int|
            0 <= first < second < firing_order_of(cycle).len() ==> (
            #[trigger] firing_order_of(cycle)[first]).delay_ms <= (
            #[trigger] firing_order_of(cycle)[second]).delay_ms,
        forall|first: int, second: int|
            0 <= first < second < firing_order_of(cycle).len() && (
            #[trigger] firing_order_of(cycle)[first]).delay_ms == (
            #[trigger] firing_order_of(cycle)[second]).delay_ms ==> armed_position(first)
                < armed_position(second),
{
}

/// The frame ticks of `cycle` from number `from` to number `to`, in order.
pub open spec fn frame_ticks(cycle: u64, from: int, to: int) -> Seq<Event> {
    Seq::new(
        if to >= from {
            (to - from + 1) as nat
        } else {
            0
        },
        |i: int| Event::FrameProcessed { cycle, frame: (from + i) as u32 },
    )
}

/// The events of the firing order are the early frame ticks, the end of the
/// revalidation interval, the later frame ticks and the ceiling.
pub proof fn lemma_firing_order_events(cycle: u64)
    ensures
        firing_order_of(cycle).map_values(|timer: Timer| timer.event) == frame_ticks(
            cycle,
            1,
            FRAMES_BEFORE_REBUILD as int,
        ).push(Event::RevalidationElapsed { cycle }) + frame_ticks(
            cycle,
            FRAMES_BEFORE_REBUILD + 1,
            FRAME_COUNT as int,
        ).push(Event::CeilingElapsed { cycle }),
{
    let events = firing_order_of(cycle).map_values(|timer: Timer| timer.event);
    let expected = frame_ticks(cycle, 1, FRAMES_BEFORE_REBUILD as int).push(
        Event::RevalidationElapsed { cycle },
    ) + frame_ticks(cycle, FRAMES_BEFORE_REBUILD + 1, FRAME_COUNT as int).push(
        Event::CeilingElapsed { cycle },
    );
    assert(events.len() == expected.len());
    assert forall|i: int| 0 <= i < events.len() implies events[i] == expected[i] by {
        assert(events[i] == timeline_of(cycle)[armed_position(i)].event);
    }
    assert(events =~= expected);
}

/// Frame ticks in order move the counter of the running timeline to the last
/// of them and change nothing else.
pub proof fn lemma_frame_ticks_count(session: SessionView, from: int, to: int)
    requires
        session.timeline_open,
        session.cycle <= u64::MAX,
        1 <= from,
        from - 1 <= to <= u32::MAX,
        session.frames == from - 1,
    ensures
        session.after_all(frame_ticks(session.cycle as u64, from, to)) == (SessionView {
            frames: to as nat,
            ..session
        }),
    decreases to - from + 1,
{
    let cycle = session.cycle as u64;
    let ticks = frame_ticks(cycle, from, to);
    if to >= from {
        assert(ticks.drop_last() =~= frame_ticks(cycle, from, to - 1));
        lemma_frame_ticks_count(session, from, to - 1);
        assert(ticks.last() == Event::FrameProcessed { cycle, frame: to as u32 });
    }
}

/// A cycle driven by its timers runs to completion: after the fault injection
/// the timers fire in their order, and the measurement comes back after any
/// number of the later frame ticks. The guard falls with the measurement, the
/// frame ticks count on, and at the ceiling the timeline is over: every frame
/// is counted, all instances are healthy at the baseline, and the record holds
/// what was measured, or the fallback where the measurement failed.
pub proof fn lemma_cycle_runs_to_completion(
    start: SessionView,
    result: MeasurementResult,
    ticks_before_measurement: int,
)
    requires
        start.well_formed(),
        !start.in_progress,
        0 <= ticks_before_measurement <= FRAME_COUNT - FRAMES_BEFORE_REBUILD,
    ensures
        ({
            let cycle = next_cycle(start.cycle) as u64;
            let measured_at = FRAMES_BEFORE_REBUILD + ticks_before_measurement;
            let done = start.inject_fault().after_all(
                frame_ticks(cycle, 1, FRAMES_BEFORE_REBUILD as int),
            ).revalidation_elapsed(cycle).after_all(
                frame_ticks(cycle, FRAMES_BEFORE_REBUILD + 1, measured_at),
            ).measurement_resolved(cycle, result).after_all(
                frame_ticks(cycle, measured_at + 1, FRAME_COUNT as int),
            ).ceiling_elapsed(cycle);
            done == (SessionView {
                instances: uniform_snapshot(baseline_reading()),
                in_progress: false,
                timeline_open: false,
                cycle: cycle as nat,
                frames: FRAME_COUNT as nat,
                measurement: Some(recorded(result)),
            })
        }),
{
    let cycle = next_cycle(start.cycle) as u64;
    let measured_at = FRAMES_BEFORE_REBUILD + ticks_before_measurement;
    let injected = start.inject_fault();
    lemma_frame_ticks_count(injected, 1, FRAMES_BEFORE_REBUILD as int);
    let early = injected.after_all(frame_ticks(cycle, 1, FRAMES_BEFORE_REBUILD as int));
    let rebuilding = early.revalidation_elapsed(cycle);
    lemma_frame_ticks_count(rebuilding, FRAMES_BEFORE_REBUILD + 1, measured_at);
    let waiting = rebuilding.after_all(
        frame_ticks(cycle, FRAMES_BEFORE_REBUILD + 1, measured_at),
    );
    let healed = waiting.measurement_resolved(cycle, result);
    lemma_frame_ticks_count(healed, measured_at + 1, FRAME_COUNT as int);
    let counted = healed.after_all(frame_ticks(cycle, measured_at + 1, FRAME_COUNT as int));
    let done = counted.ceiling_elapsed(cycle);
    assert(done.instances =~= uniform_snapshot(baseline_reading()));
}

/// The timers to arm for `cycle`, in the order in which to arm them.
pub fn timeline(cycle: u64) -> (timers: Vec<Timer>)
    ensures
        timers@ == timeline_of(cycle),
{
    let mut timers: Vec<Timer> = Vec::new();
    let mut frame: u32 = 1;
    while frame <= FRAME_COUNT
        invariant
            1 <= frame <= FRAME_COUNT + 1,
            timers@ == Seq::new((frame - 1) as nat, |i: int| frame_timer(cycle, i + 1)),
        decreases FRAME_COUNT + 1 - frame,
    {
        timers.push(
            Timer {
                delay_ms: frame * FRAME_INTERVAL_MS,
                event: Event::FrameProcessed { cycle, frame },
            },
        );
        frame = frame + 1;
    }
    timers.push(
        Timer { delay_ms: REVALIDATION_DELAY_MS, event: Event::RevalidationElapsed { cycle } },
    );
    timers.push(Timer { delay_ms: SESSION_CEILING_MS, event: Event::CeilingElapsed { cycle } });
    timers
}

} // verus!
