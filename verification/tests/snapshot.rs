use monitor_interval::clock::ClockTime;
use monitor_interval::config::RunConfig;
use monitor_interval::snapshot::SnapshotDecision;
use monitor_interval::snapshot::SnapshotWriter;

fn at(hour: u32, minute: u32) -> ClockTime {
    ClockTime::new(hour, minute).unwrap()
}

fn write(name: &str, minute: u32) -> SnapshotDecision {
    SnapshotDecision::Write { file_name: String::from(name), minute }
}

#[test]
fn new_writer_has_written_nothing() {
    let writer = SnapshotWriter::new(&RunConfig::default());
    assert_eq!(writer.last_written_minute, None);
    assert_eq!(writer.poll_interval_secs, 60);
    assert!(!writer.returned);
    let quick = SnapshotWriter::new(&RunConfig::new(5, 10, 65, 100).unwrap());
    assert_eq!(quick.poll_interval_secs, 10);
}

#[test]
fn first_tick_always_writes() {
    let writer = SnapshotWriter::new(&RunConfig::default());
    assert_eq!(writer.decide(at(9, 41)), write("9_41am_monitors.json", 41));
}

#[test]
fn first_tick_writes_at_minute_zero() {
    let writer = SnapshotWriter::new(&RunConfig::default());
    assert_eq!(writer.decide(at(14, 0)), write("2_00pm_monitors.json", 0));
}

#[test]
fn minute_zero_is_not_written_twice() {
    let mut writer = SnapshotWriter::new(&RunConfig::default());
    writer.finish_write(0, true);
    assert_eq!(writer.last_written_minute, Some(0));
    assert_eq!(writer.decide(at(14, 0)), SnapshotDecision::Skip);
    assert_eq!(writer.decide(at(14, 1)), write("2_01pm_monitors.json", 1));
}

#[test]
fn same_minute_is_skipped_and_the_next_is_written() {
    let mut writer = SnapshotWriter::new(&RunConfig::default());
    assert_eq!(writer.decide(at(23, 58)), write("11_58pm_monitors.json", 58));
    writer.finish_write(58, true);
    assert_eq!(writer.decide(at(23, 58)), SnapshotDecision::Skip);
    assert_eq!(writer.decide(at(23, 59)), write("11_59pm_monitors.json", 59));
    writer.finish_write(59, true);
    assert_eq!(writer.decide(at(23, 59)), SnapshotDecision::Skip);
    assert_eq!(writer.decide(at(0, 0)), write("12_00am_monitors.json", 0));
}

#[test]
fn failed_write_is_not_remembered() {
    let mut writer = SnapshotWriter::new(&RunConfig::default());
    writer.finish_write(12, false);
    assert_eq!(writer.last_written_minute, None);
    assert_eq!(writer.decide(at(8, 12)), write("8_12am_monitors.json", 12));
    writer.finish_write(12, true);
    writer.finish_write(13, false);
    assert_eq!(writer.last_written_minute, Some(12));
    assert_eq!(writer.decide(at(8, 12)), SnapshotDecision::Skip);
    assert_eq!(writer.decide(at(8, 13)), write("8_13am_monitors.json", 13));
}

#[test]
fn writer_that_returned_writes_nothing() {
    let mut writer = SnapshotWriter::new(&RunConfig::default());
    assert!(writer.observe_cancel(false));
    assert!(!writer.observe_cancel(true));
    assert!(writer.returned);
    assert_eq!(writer.decide(at(9, 41)), SnapshotDecision::Skip);
    assert_eq!(writer.poll(), SnapshotDecision::Skip);
    assert!(!writer.observe_cancel(false));
    assert_eq!(writer.decide(at(9, 42)), SnapshotDecision::Skip);
}

#[test]
fn cancel_check_leaves_the_rest_of_the_writer() {
    let mut writer = SnapshotWriter::new(&RunConfig::new(5, 10, 65, 100).unwrap());
    writer.finish_write(30, true);
    assert!(writer.observe_cancel(false));
    assert_eq!(writer.last_written_minute, Some(30));
    assert_eq!(writer.poll_interval_secs, 10);
    assert!(!writer.observe_cancel(true));
    assert_eq!(writer.last_written_minute, Some(30));
    assert_eq!(writer.poll_interval_secs, 10);
}

#[test]
fn poll_writes_on_the_first_tick_under_the_current_time() {
    let writer = SnapshotWriter::new(&RunConfig::default());
    match writer.poll() {
        SnapshotDecision::Write { file_name, minute } => {
            assert!(minute < 60);
            assert!(file_name.ends_with("_monitors.json"));
            assert!(file_name.contains(&format!("_{:02}", minute)));
            assert!(file_name.contains("am_") || file_name.contains("pm_"));
        }
        SnapshotDecision::Skip => panic!("nothing was written yet"),
    }
}

#[test]
fn one_file_per_observed_minute() {
    let mut writer = SnapshotWriter::new(&RunConfig::new(5, 10, 65, 100).unwrap());
    let mut files: Vec<String> = Vec::new();
    let mut minutes: Vec<u32> = Vec::new();
    for second in (0..1800u32).step_by(10) {
        let now = at(10 + (30 * 60 + second) / 3600, ((30 * 60 + second) / 60) % 60);
        if let SnapshotDecision::Write { file_name, minute } = writer.decide(now) {
            files.push(file_name);
            minutes.push(minute);
            writer.finish_write(minute, true);
        }
    }
    assert_eq!(files.len(), 30);
    assert_eq!(files[0], "10_30am_monitors.json");
    assert_eq!(files[29], "10_59am_monitors.json");
    let mut distinct = minutes.clone();
    distinct.sort();
    distinct.dedup();
    assert_eq!(distinct.len(), minutes.len());
    let mut names = files.clone();
    names.sort();
    names.dedup();
    assert_eq!(names.len(), files.len());
}

#[test]
fn minute_seen_again_an_hour_later_is_written_again() {
    let mut writer = SnapshotWriter::new(&RunConfig::default());
    let mut files: Vec<String> = Vec::new();
    for now in [at(1, 5), at(1, 6), at(2, 5)] {
        if let SnapshotDecision::Write { file_name, minute } = writer.decide(now) {
            files.push(file_name);
            writer.finish_write(minute, true);
        }
    }
    assert_eq!(files, ["1_05am_monitors.json", "1_06am_monitors.json", "2_05am_monitors.json"]);
}

#[test]
fn a_run_of_three_hours_writes_one_file_for_each_minute() {
    let mut writer = SnapshotWriter::new(&RunConfig::new(5, 10, 10_800, 100).unwrap());
    let mut files: Vec<String> = Vec::new();
    let mut stamps: Vec<u32> = Vec::new();
    let start = 22 * 3600 + 30 * 60;
    for second in (0..10_800u32).step_by(10) {
        let stamp = (start + second) / 60;
        let now = at((stamp / 60) % 24, stamp % 60);
        if let SnapshotDecision::Write { file_name, minute } = writer.decide(now) {
            assert_eq!(minute, stamp % 60);
            files.push(file_name);
            stamps.push(stamp);
            writer.finish_write(minute, true);
        }
    }
    assert_eq!(files.len(), 180);
    assert_eq!(files[0], "10_30pm_monitors.json");
    assert_eq!(files[90], "12_00am_monitors.json");
    assert_eq!(files[179], "1_29am_monitors.json");
    for pair in stamps.windows(2) {
        assert!(pair[0] < pair[1]);
    }
    let mut names = files.clone();
    names.sort();
    names.dedup();
    assert_eq!(names.len(), files.len());
}

#[test]
fn failed_writes_leave_one_file_for_the_minute() {
    let mut writer = SnapshotWriter::new(&RunConfig::new(5, 10, 65, 100).unwrap());
    let mut files: Vec<String> = Vec::new();
    let outcomes = [false, false, true, true, false, true];
    for (i, succeeded) in outcomes.iter().enumerate() {
        let now = at(7, if i < 4 { 15 } else { 16 });
        if let SnapshotDecision::Write { file_name, minute } = writer.decide(now) {
            if *succeeded {
                files.push(file_name);
            }
            writer.finish_write(minute, *succeeded);
        }
    }
    assert_eq!(files, ["7_15am_monitors.json", "7_16am_monitors.json"]);
}
