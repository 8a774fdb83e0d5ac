use monitor_interval::config::RunConfig;
use monitor_interval::monitor::Monitor;
use monitor_interval::monitor::MonitorResult;
use monitor_interval::store::MonitorStore;
use monitor_interval::updater::Updater;

fn three_monitors() -> Vec<Monitor> {
    vec![
        Monitor {
            monitor_id: Some(1),
            name: String::from("disk"),
            script: Some(String::from("df -h")),
            monitor_type: Some(String::from("shell")),
            result: None,
            code: String::from("c1"),
        },
        Monitor {
            monitor_id: None,
            name: String::from("cpu"),
            script: None,
            monitor_type: None,
            result: Some(MonitorResult { value: Some(5), processed_at: None }),
            code: String::from("c2"),
        },
        Monitor {
            monitor_id: Some(3),
            name: String::from("net"),
            script: None,
            monitor_type: Some(String::from("ping")),
            result: Some(MonitorResult { value: Some(5000), processed_at: Some(17) }),
            code: String::from("c3"),
        },
    ]
}

fn without_results(monitors: &Vec<Monitor>) -> Vec<Monitor> {
    let mut bare = monitors.clone();
    for monitor in bare.iter_mut() {
        monitor.result = None;
    }
    bare
}

#[test]
fn store_holds_the_monitors_in_order() {
    let store = MonitorStore::new(three_monitors());
    assert_eq!(store.len(), 3);
    assert_eq!(store.monitors(), &three_monitors());
    assert_eq!(store.snapshot(), three_monitors());
    assert_eq!(store.into_monitors(), three_monitors());
}

#[test]
fn empty_store_stays_empty() {
    let mut store = MonitorStore::new(Vec::new());
    assert_eq!(store.len(), 0);
    store.update_monitors(&RunConfig::default());
    assert_eq!(store.len(), 0);
    assert_eq!(store.snapshot(), Vec::new());
}

#[test]
fn tick_gives_every_monitor_a_complete_result() {
    let mut store = MonitorStore::new(three_monitors());
    store.update_monitors(&RunConfig::default());
    for monitor in store.monitors() {
        let result = monitor.result.unwrap();
        assert!(result.value.is_some());
        assert!(result.processed_at.is_some());
    }
}

#[test]
fn tick_keeps_values_below_the_bound() {
    let config = RunConfig::default();
    let mut store = MonitorStore::new(three_monitors());
    for _ in 0..200 {
        store.update_monitors(&config);
        for monitor in store.monitors() {
            let value = monitor.result.unwrap().value.unwrap();
            assert!(0 <= value && value < 100);
        }
    }
}

#[test]
fn tick_follows_a_configured_bound() {
    let config = RunConfig::new(30, 60, 300, 3).unwrap();
    let mut store = MonitorStore::new(three_monitors());
    let mut seen = [false; 3];
    for _ in 0..300 {
        store.update_monitors(&config);
        for monitor in store.monitors() {
            let value = monitor.result.unwrap().value.unwrap();
            assert!(0 <= value && value < 3);
            seen[value as usize] = true;
        }
    }
    assert_eq!(seen, [true, true, true]);
}

#[test]
fn tick_with_bound_one_gives_zero() {
    let config = RunConfig::new(30, 60, 300, 1).unwrap();
    let mut store = MonitorStore::new(three_monitors());
    store.update_monitors(&config);
    for monitor in store.monitors() {
        assert_eq!(monitor.result.unwrap().value, Some(0));
    }
}

#[test]
fn tick_keeps_length_order_and_identity() {
    let mut store = MonitorStore::new(three_monitors());
    for _ in 0..5 {
        store.update_monitors(&RunConfig::default());
        assert_eq!(store.len(), 3);
        assert_eq!(without_results(store.monitors()), without_results(&three_monitors()));
    }
}

#[test]
fn tick_stamps_the_current_epoch_second() {
    let mut store = MonitorStore::new(three_monitors());
    store.update_monitors(&RunConfig::default());
    for monitor in store.monitors() {
        let at = monitor.result.unwrap().processed_at.unwrap();
        assert!(at > 1_500_000_000);
        assert!(at < 100_000_000_000);
    }
}

#[test]
fn processed_at_is_non_decreasing_across_ticks() {
    let mut store = MonitorStore::new(three_monitors());
    store.update_monitors(&RunConfig::default());
    let mut last: Vec<i64> =
        store.monitors().iter().map(|m| m.result.unwrap().processed_at.unwrap()).collect();
    for _ in 0..20 {
        store.update_monitors(&RunConfig::default());
        let now: Vec<i64> =
            store.monitors().iter().map(|m| m.result.unwrap().processed_at.unwrap()).collect();
        for i in 0..3 {
            assert!(now[i] >= last[i]);
        }
        last = now;
    }
}

#[test]
fn snapshot_is_a_point_in_time_image() {
    let mut store = MonitorStore::new(three_monitors());
    let image = store.snapshot();
    store.update_monitors(&RunConfig::default());
    assert_eq!(image, three_monitors());
    assert_ne!(store.snapshot(), image);
}

#[test]
fn updater_ticks_until_it_has_returned() {
    let config = RunConfig::new(5, 10, 65, 100).unwrap();
    let mut store = MonitorStore::new(three_monitors());
    let mut updater = Updater::new(config);
    assert!(!updater.returned);
    assert!(updater.observe_cancel(false));
    assert_eq!(updater.tick(&mut store), 5);
    assert!(store.monitors().iter().all(|m| m.result.unwrap().value.is_some()));
    assert!(updater.observe_cancel(false));
    assert_eq!(updater.tick(&mut store), 5);
    assert!(!updater.observe_cancel(true));
    assert!(updater.returned);
}

#[test]
fn updater_that_returned_stays_returned() {
    let mut updater = Updater::new(RunConfig::default());
    assert!(!updater.observe_cancel(true));
    assert!(!updater.observe_cancel(false));
    assert!(!updater.observe_cancel(true));
    assert!(updater.returned);
}

#[test]
fn store_is_stable_after_the_updater_returned() {
    let mut store = MonitorStore::new(three_monitors());
    let mut updater = Updater::new(RunConfig::default());
    assert!(updater.observe_cancel(false));
    assert_eq!(updater.tick(&mut store), 30);
    assert!(!updater.observe_cancel(true));
    let at_join = store.snapshot();
    for cancelled in [false, true, false] {
        assert!(!updater.observe_cancel(cancelled));
        assert_eq!(updater.tick(&mut store), 0);
        assert_eq!(store.snapshot(), at_join);
    }
}

#[test]
fn cancelled_before_the_first_tick_changes_nothing() {
    let mut store = MonitorStore::new(three_monitors());
    let mut updater = Updater::new(RunConfig::default());
    assert!(!updater.observe_cancel(true));
    assert_eq!(updater.tick(&mut store), 0);
    assert_eq!(store.into_monitors(), three_monitors());
}

#[test]
fn refresh_all_gives_each_monitor_the_measurement_of_its_draw() {
    let config = RunConfig::default();
    let mut store = MonitorStore::new(three_monitors());
    let draws = vec![(250, 1_700_000_000), (-1, 1_700_000_001), (i32::MIN, 1_700_000_002)];
    assert!(store.refresh_all(&draws, &config));
    let mut expected = three_monitors();
    expected[0].result = Some(MonitorResult { value: Some(50), processed_at: Some(1_700_000_000) });
    expected[1].result = Some(MonitorResult { value: Some(99), processed_at: Some(1_700_000_001) });
    expected[2].result = Some(MonitorResult { value: Some(52), processed_at: Some(1_700_000_002) });
    assert_eq!(store.into_monitors(), expected);
}

#[test]
fn refresh_all_replaces_the_results_at_every_tick() {
    let config = RunConfig::default();
    let mut store = MonitorStore::new(three_monitors());
    assert!(store.refresh_all(&vec![(1, 10), (2, 10), (3, 10)], &config));
    assert!(store.refresh_all(&vec![(4, 11), (5, 12), (6, 13)], &config));
    let results: Vec<MonitorResult> = store.monitors().iter().map(|m| m.result.unwrap()).collect();
    assert_eq!(
        results,
        [
            MonitorResult { value: Some(4), processed_at: Some(11) },
            MonitorResult { value: Some(5), processed_at: Some(12) },
            MonitorResult { value: Some(6), processed_at: Some(13) },
        ]
    );
    assert_eq!(without_results(store.monitors()), without_results(&three_monitors()));
}

#[test]
fn refresh_all_refuses_draws_that_do_not_match_the_collection() {
    let config = RunConfig::default();
    let mut store = MonitorStore::new(three_monitors());
    assert!(!store.refresh_all(&Vec::new(), &config));
    assert!(!store.refresh_all(&vec![(1, 10), (2, 10)], &config));
    assert!(!store.refresh_all(&vec![(1, 10), (2, 10), (3, 10), (4, 10)], &config));
    assert_eq!(store.snapshot(), three_monitors());
    let mut empty = MonitorStore::new(Vec::new());
    assert!(empty.refresh_all(&Vec::new(), &config));
    assert!(!empty.refresh_all(&vec![(1, 10)], &config));
    assert_eq!(empty.len(), 0);
}

#[test]
fn refresh_all_follows_the_configured_bound() {
    let config = RunConfig::new(30, 60, 300, 7).unwrap();
    let mut store = MonitorStore::new(three_monitors());
    assert!(store.refresh_all(&vec![(20, 0), (-20, 0), (7, 0)], &config));
    let values: Vec<Option<i32>> = store.monitors().iter().map(|m| m.result.unwrap().value).collect();
    assert_eq!(values, [Some(6), Some(1), Some(0)]);
}

#[test]
fn times_stay_in_order_while_the_draws_do() {
    let config = RunConfig::default();
    let mut store = MonitorStore::new(three_monitors());
    let mut last = vec![i64::MIN; 3];
    for now in [100i64, 100, 130, 160, 3_000] {
        assert!(store.refresh_all(&vec![(1, now), (2, now + 1), (3, now + 2)], &config));
        for (i, monitor) in store.monitors().iter().enumerate() {
            let at = monitor.result.unwrap().processed_at.unwrap();
            assert_eq!(at, now + i as i64);
            assert!(at >= last[i]);
            last[i] = at;
        }
    }
}
