use ics_guardian::deployment::{
    component_download_ms, component_download_with_decimal, component_size_shown,
    container_download_in_minutes, container_download_s, deployment_timeline, package, progress,
    size_ratio, DeploymentEvent, DeploymentTimer, Package, Progress, ShownSize, PACKAGE_COUNT,
};

#[test]
fn package_table() {
    assert_eq!(PACKAGE_COUNT, 5);
    assert_eq!(
        package(0),
        Package { container_mb: 50, component_kb: 15, container_start_s: 2, component_start_ms: 5 }
    );
    assert_eq!(
        package(1),
        Package {
            container_mb: 200,
            component_kb: 70,
            container_start_s: 4,
            component_start_ms: 10
        }
    );
    assert_eq!(
        package(2),
        Package {
            container_mb: 500,
            component_kb: 500,
            container_start_s: 8,
            component_start_ms: 50
        }
    );
    assert_eq!(
        package(3),
        Package {
            container_mb: 1_500,
            component_kb: 2_000,
            container_start_s: 15,
            component_start_ms: 100
        }
    );
    assert_eq!(
        package(4),
        Package {
            container_mb: 4_000,
            component_kb: 8_000,
            container_start_s: 30,
            component_start_ms: 300
        }
    );
}

#[test]
fn index_past_the_table_is_the_last_package() {
    assert_eq!(package(5), package(4));
    assert_eq!(package(usize::MAX), package(4));
    assert_eq!(size_ratio(99), size_ratio(4));
}

#[test]
fn size_ratios() {
    assert_eq!(size_ratio(0), 3_333);
    assert_eq!(size_ratio(1), 2_857);
    assert_eq!(size_ratio(2), 1_000);
    assert_eq!(size_ratio(3), 750);
    assert_eq!(size_ratio(4), 500);
}

#[test]
fn download_times() {
    assert_eq!(container_download_s(0), 400);
    assert_eq!(container_download_s(4), 32_000);
    assert_eq!(component_download_ms(0), 120);
    assert_eq!(component_download_ms(1), 560);
    assert_eq!(component_download_ms(4), 64_000);
}

#[test]
fn component_always_wins() {
    for index in 0..PACKAGE_COUNT {
        assert!(size_ratio(index) >= 500);
        assert!(component_download_ms(index) < 1_000 * container_download_s(index));
        let figures = package(index);
        assert!(figures.component_start_ms < 1_000 * figures.container_start_s);
    }
}

#[test]
fn progress_states() {
    assert_eq!(progress(0), Progress::Ready);
    assert_eq!(progress(1), Progress::Running);
    assert_eq!(progress(99), Progress::Running);
    assert_eq!(progress(100), Progress::Complete);
    assert_eq!(progress(140), Progress::Complete);
}

#[test]
fn deployment_timeline_steps() {
    let timers = deployment_timeline();
    assert_eq!(timers.len(), 21);
    for step in 1..=10u32 {
        assert_eq!(
            timers[step as usize - 1],
            DeploymentTimer {
                delay_ms: step * 50,
                event: DeploymentEvent::ComponentAt { percent: step * 10 }
            }
        );
        assert_eq!(
            timers[step as usize + 9],
            DeploymentTimer {
                delay_ms: step * 300,
                event: DeploymentEvent::ContainerAt { percent: step * 10 }
            }
        );
    }
    assert_eq!(timers[9].delay_ms, 500);
    assert_eq!(timers[19].delay_ms, 3_000);
    assert_eq!(timers[20], DeploymentTimer { delay_ms: 3_100, event: DeploymentEvent::Done });
}

#[test]
fn component_sizes_are_shown_in_their_unit() {
    let expected = [
        ShownSize::Kilobytes(15),
        ShownSize::Kilobytes(70),
        ShownSize::Kilobytes(500),
        ShownSize::Megabytes(2),
        ShownSize::Megabytes(8),
    ];
    for (index, shown) in expected.iter().enumerate() {
        assert_eq!(component_size_shown(index), *shown);
    }
    assert_eq!(component_size_shown(usize::MAX), ShownSize::Megabytes(8));
}

#[test]
fn download_times_are_shown_in_their_unit() {
    for index in 0..PACKAGE_COUNT {
        // 400 s and more: always minutes.
        assert!(container_download_in_minutes(index));
    }
    // 120 ms and 560 ms are shown with a decimal; 4 s, 16 s and 64 s are not.
    let decimal: Vec<bool> = (0..PACKAGE_COUNT).map(component_download_with_decimal).collect();
    assert_eq!(decimal, vec![true, true, false, false, false]);
}
