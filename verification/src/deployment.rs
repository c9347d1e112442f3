//! The deployment comparison: shipping an update as a container image or as
//! a component, over a link of one megabit per second.
//!
//! The figures are a fixed table. What is computed from them, the ratio of the
//! two sizes and the download times, is integer arithmetic on that table.

use vstd::prelude::*;

verus! {

/// Number of packages in the table.
pub const PACKAGE_COUNT: usize = 5;

/// Steps in which a progress bar fills.
pub const PROGRESS_STEPS: u32 = 10;

/// Time between two steps of the component's bar, in milliseconds.
pub const COMPONENT_STEP_MS: u32 = 50;

/// Time between two steps of the container's bar, in milliseconds.
pub const CONTAINER_STEP_MS: u32 = 300;

/// Time after which the comparison is complete, in milliseconds.
pub const DEPLOYMENT_DONE_MS: u32 = 3_100;

/// The figures of one package, for both ways of shipping it.
#[derive(Clone, Copy, Debug, PartialEq, Eq, Structural)]
pub struct Package {
    /// Size of the container image, in megabytes.
    pub container_mb: u32,
    /// Size of the component, in kilobytes.
    pub component_kb: u32,
    /// Cold start of the container, in seconds.
    pub container_start_s: u32,
    /// Cold start of the component, in milliseconds.
    pub component_start_ms: u32,
}

/// The table. An index past the table stands for its last package.
pub open spec fn package_of(index: int) -> Package {
    if index == 0 {
        Package { container_mb: 50, component_kb: 15, container_start_s: 2, component_start_ms: 5 }
    } else if index == 1 {
        Package {
            container_mb: 200,
            component_kb: 70,
            container_start_s: 4,
            component_start_ms: 10,
        }
    } else if index == 2 {
        Package {
            container_mb: 500,
            component_kb: 500,
            container_start_s: 8,
            component_start_ms: 50,
        }
    } else if index == 3 {
        Package {
            container_mb: 1_500,
            component_kb: 2_000,
            container_start_s: 15,
            component_start_ms: 100,
        }
    } else {
        Package {
            container_mb: 4_000,
            component_kb: 8_000,
            container_start_s: 30,
            component_start_ms: 300,
        }
    }
}

/// How many times the container image is as large as the component, rounded
/// down. A megabyte counts as a thousand kilobytes.
pub open spec fn size_ratio_of(package: Package) -> int {
    (package.container_mb * 1_000) / (package.component_kb as int)
}

/// Seconds to download the container image: eight megabits for each megabyte.
pub open spec fn container_download_s_of(package: Package) -> int {
    package.container_mb * 8
}

/// Milliseconds to download the component: eight kilobits for each kilobyte.
pub open spec fn component_download_ms_of(package: Package) -> int {
    package.component_kb * 8
}

/// The size ratios of the table, package by package.
pub proof fn lemma_size_ratios()
    ensures
        size_ratio_of(package_of(0)) == 3_333,
        size_ratio_of(package_of(1)) == 2_857,
        size_ratio_of(package_of(2)) == 1_000,
        size_ratio_of(package_of(3)) == 750,
        size_ratio_of(package_of(4)) == 500,
{
}

/// For every package of the table the component is at least five hundred
/// times smaller than the container image, downloads faster and starts
/// faster.
pub proof fn lemma_component_always_wins(index: int)
    ensures
        size_ratio_of(package_of(index)) >= 500,
        component_download_ms_of(package_of(index)) < 1_000 * container_download_s_of(
            package_of(index),
        ),
        package_of(index).component_start_ms < 1_000 * package_of(index).container_start_s,
{
    lemma_size_ratios();
    if !(0 <= index < 4) {
        assert(package_of(index) == package_of(4));
    }
}

/// Along the table both sizes grow, and the advantage of the component
/// shrinks.
pub proof fn lemma_table_is_ordered(smaller: int, larger: int)
    requires
        0 <= smaller <= larger,
    ensures
        package_of(smaller).container_mb <= package_of(larger).container_mb,
        package_of(smaller).component_kb <= package_of(larger).component_kb,
        size_ratio_of(package_of(smaller)) >= size_ratio_of(package_of(larger)),
{
    lemma_size_ratios();
    if smaller >= 4 {
        assert(package_of(smaller) == package_of(4));
    }
    if larger >= 4 {
        assert(package_of(larger) == package_of(4));
    }
}

/// The figures of the package at `index`; an index past the table gives the
/// last package.
pub fn package(index: usize) -> (package: Package)
    ensures
        package == package_of(index as int),
{
    match index {
        0 => Package {
            container_mb: 50,
            component_kb: 15,
            container_start_s: 2,
            component_start_ms: 5,
        },
        1 => Package {
            container_mb: 200,
            component_kb: 70,
            container_start_s: 4,
            component_start_ms: 10,
        },
        2 => Package {
            container_mb: 500,
            component_kb: 500,
            container_start_s: 8,
            component_start_ms: 50,
        },
        3 => Package {
            container_mb: 1_500,
            component_kb: 2_000,
            container_start_s: 15,
            component_start_ms: 100,
        },
        _ => Package {
            container_mb: 4_000,
            component_kb: 8_000,
            container_start_s: 30,
            component_start_ms: 300,
        },
    }
}

/// How many times the container image of the package at `index` is as large
/// as its component, rounded down.
pub fn size_ratio(index: usize) -> (ratio: u32)
    ensures
        ratio == size_ratio_of(package_of(index as int)),
{
    let package = package(index);
    package.container_mb * 1_000 / package.component_kb
}

/// Seconds that the download of the container image of the package at `index`
/// takes.
pub fn container_download_s(index: usize) -> (seconds: u32)
    ensures
        seconds == container_download_s_of(package_of(index as int)),
{
    package(index).container_mb * 8
}

/// Milliseconds that the download of the component of the package at `index`
/// takes.
pub fn component_download_ms(index: usize) -> (millis: u32)
    ensures
        millis == component_download_ms_of(package_of(index as int)),
{
    package(index).component_kb * 8
}

/// A size in the unit in which it is shown.
#[derive(Clone, Copy, Debug, PartialEq, Eq, Structural)]
pub enum ShownSize {
    /// Below a thousand kilobytes: in kilobytes.
    Kilobytes(u32),
    /// From a thousand kilobytes on: in whole megabytes, rounded down.
    Megabytes(u32),
}

/// The unit in which a size of `kb` kilobytes is shown, and the number shown.
pub open spec fn shown_size_of(kb: u32) -> ShownSize {
    if kb >= 1_000 {
        ShownSize::Megabytes(kb / 1_000)
    } else {
        ShownSize::Kilobytes(kb)
    }
}

/// A download of `seconds` seconds is shown in minutes: it takes more than a
/// minute.
pub open spec fn shown_in_minutes(seconds: int) -> bool {
    seconds > 60
}

/// A download of `millis` milliseconds is shown with a decimal: it takes less
/// than a second.
pub open spec fn shown_with_decimal(millis: int) -> bool {
    millis < 1_000
}

/// The size of the component of the package at `index` as it is shown.
pub fn component_size_shown(index: usize) -> (shown: ShownSize)
    ensures
        shown == shown_size_of(package_of(index as int).component_kb),
{
    let kb = package(index).component_kb;
    if kb >= 1_000 {
        ShownSize::Megabytes(kb / 1_000)
    } else {
        ShownSize::Kilobytes(kb)
    }
}

/// Whether the download of the container image of the package at `index` is
/// shown in minutes rather than seconds.
pub fn container_download_in_minutes(index: usize) -> (minutes: bool)
    ensures
        minutes == shown_in_minutes(container_download_s_of(package_of(index as int))),
{
    container_download_s(index) > 60
}

/// Whether the download of the component of the package at `index` is shown
/// with a decimal.
pub fn component_download_with_decimal(index: usize) -> (decimal: bool)
    ensures
        decimal == shown_with_decimal(component_download_ms_of(package_of(index as int))),
{
    component_download_ms(index) < 1_000
}

/// Every container image of the table downloads for minutes, and only the two
/// smallest components download in less than a second.
pub proof fn lemma_shown_units(index: int)
    ensures
        shown_in_minutes(container_download_s_of(package_of(index))),
        shown_with_decimal(component_download_ms_of(package_of(index))) <==> index == 0 || index
            == 1,
        shown_size_of(package_of(index).component_kb) is Kilobytes <==> 0 <= index <= 2,
{
}

/// Where a progress bar stands.
#[derive(Clone, Copy, Debug, PartialEq, Eq, Structural)]
pub enum Progress {
    /// Nothing has moved yet.
    Ready,
    /// Under way.
    Running,
    /// All of it has arrived.
    Complete,
}

/// What a percentage means for a progress bar.
pub open spec fn progress_of(percent: int) -> Progress {
    if percent >= 100 {
        Progress::Complete
    } else if percent > 0 {
        Progress::Running
    } else {
        Progress::Ready
    }
}

/// Where a bar at `percent` stands.
pub fn progress(percent: u32) -> (state: Progress)
    ensures
        state == progress_of(percent as int),
{
    if percent >= 100 {
        Progress::Complete
    } else if percent > 0 {
        Progress::Running
    } else {
        Progress::Ready
    }
}

/// A step of the animated comparison.
#[derive(Clone, Copy, Debug, PartialEq, Eq, Structural)]
pub enum DeploymentEvent {
    /// The component's bar moves to this percentage.
    ComponentAt { percent: u32 },
    /// The container's bar moves to this percentage.
    ContainerAt { percent: u32 },
    /// Both have arrived; the comparison is complete.
    Done,
}

/// A step that is due a given time after the deployment began.
#[derive(Clone, Copy, Debug, PartialEq, Eq, Structural)]
pub struct DeploymentTimer {
    pub delay_ms: u32,
    pub event: DeploymentEvent,
}

/// Step number `step` of the component's bar.
pub open spec fn component_step(step: int) -> DeploymentTimer {
    DeploymentTimer {
        delay_ms: (step * COMPONENT_STEP_MS) as u32,
        event: DeploymentEvent::ComponentAt { percent: (step * 10) as u32 },
    }
}

/// Step number `step` of the container's bar.
pub open spec fn container_step(step: int) -> DeploymentTimer {
    DeploymentTimer {
        delay_ms: (step * CONTAINER_STEP_MS) as u32,
        event: DeploymentEvent::ContainerAt { percent: (step * 10) as u32 },
    }
}

/// The timers of a deployment in the order in which they are armed: the ten
/// steps of the component, the ten steps of the container, the end.
pub open spec fn deployment_timeline_of() -> Seq<DeploymentTimer> {
    Seq::new(PROGRESS_STEPS as nat, |i: int| component_step(i + 1)) + Seq::new(
        PROGRESS_STEPS as nat,
        |i: int| container_step(i + 1),
    ) + seq![DeploymentTimer { delay_ms: DEPLOYMENT_DONE_MS, event: DeploymentEvent::Done }]
}

/// Both bars are full before the comparison is declared complete, and the
/// component's bar is full before the container's has moved twice.
pub proof fn lemma_deployment_order()
    ensures
        deployment_timeline_of().len() == 2 * PROGRESS_STEPS + 1,
        deployment_timeline_of().last().event == DeploymentEvent::Done,
        forall|i: int|
            0 <= i < deployment_timeline_of().len() - 1 ==> (
            #[trigger] deployment_timeline_of()[i]).delay_ms < DEPLOYMENT_DONE_MS,
        deployment_timeline_of()[PROGRESS_STEPS - 1] == component_step(PROGRESS_STEPS as int),
        progress_of(10 * PROGRESS_STEPS) == Progress::Complete,
        component_step(PROGRESS_STEPS as int).delay_ms < container_step(2).delay_ms,
{
}

/// The timers to arm when a deployment begins, in the order in which to arm
/// them.
pub fn deployment_timeline() -> (timers: Vec<DeploymentTimer>)
    ensures
        timers@ == deployment_timeline_of(),
{
    let mut timers: Vec<DeploymentTimer> = Vec::new();
    let mut step: u32 = 1;
    while step <= PROGRESS_STEPS
        invariant
            1 <= step <= PROGRESS_STEPS + 1,
            timers@ == Seq::new((step - 1) as nat, |i: int| component_step(i + 1)),
        decreases PROGRESS_STEPS + 1 - step,
    {
        timers.push(
            DeploymentTimer {
                delay_ms: step * COMPONENT_STEP_MS,
                event: DeploymentEvent::ComponentAt { percent: step * 10 },
            },
        );
        step = step + 1;
    }
    let ghost component = timers@;
    step = 1;
    while step <= PROGRESS_STEPS
        invariant
            1 <= step <= PROGRESS_STEPS + 1,
            timers@ == component + Seq::new((step - 1) as nat, |i: int| container_step(i + 1)),
        decreases PROGRESS_STEPS + 1 - step,
    {
        timers.push(
            DeploymentTimer {
                delay_ms: step * CONTAINER_STEP_MS,
                event: DeploymentEvent::ContainerAt { percent: step * 10 },
            },
        );
        step = step + 1;
    }
    timers.push(DeploymentTimer { delay_ms: DEPLOYMENT_DONE_MS, event: DeploymentEvent::Done });
    timers
}

} // verus!
