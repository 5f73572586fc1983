use sensor_data_analyzer::timeline::{
    extraction_windows, resolve_time_range, TimeRangeRequest, TimeRangeWarning, TimeWindow,
};

fn request() -> TimeRangeRequest {
    TimeRangeRequest { start: None, stop: None, start_offset: None, total_duration: None }
}

#[test]
fn three_steps_of_equal_length() {
    let t0: i64 = 1_605_702_866_000_000_000;
    let d: i64 = 500_000_000;
    let w = extraction_windows(t0, t0 + 3 * d, d);
    assert_eq!(
        w,
        vec![
            TimeWindow { start: t0, stop: t0 + d },
            TimeWindow { start: t0 + d, stop: t0 + 2 * d },
            TimeWindow { start: t0 + 2 * d, stop: t0 + 3 * d },
        ]
    );
}

#[test]
fn remainder_shorter_than_a_step_is_dropped() {
    let w = extraction_windows(100, 349, 100);
    assert_eq!(w.len(), 2);
    assert_eq!(w[1], TimeWindow { start: 200, stop: 300 });
}

#[test]
fn empty_or_reversed_range_has_no_steps() {
    assert!(extraction_windows(100, 100, 10).is_empty());
    assert!(extraction_windows(100, 50, 10).is_empty());
}

#[test]
fn windows_over_the_whole_i64_range() {
    let w = extraction_windows(i64::MIN, i64::MAX, i64::MAX);
    assert_eq!(w.len(), 2);
    assert_eq!(w[1].stop, i64::MAX - 1);
}

#[test]
fn start_before_source_is_clamped_with_warning() {
    let source = TimeWindow { start: 1_000, stop: 9_000 };
    let r = resolve_time_range(TimeRangeRequest { start: Some(500), ..request() }, source);
    assert_eq!(r.window, TimeWindow { start: 1_000, stop: 9_000 });
    assert_eq!(
        r.warnings,
        vec![TimeRangeWarning::StartBeforeSource { requested: 500, source_start: 1_000 }]
    );
}

#[test]
fn stop_after_source_is_clamped_with_warning() {
    let source = TimeWindow { start: 1_000, stop: 9_000 };
    let r = resolve_time_range(
        TimeRangeRequest { start: Some(2_000), total_duration: Some(10_000), ..request() },
        source,
    );
    assert_eq!(r.window, TimeWindow { start: 2_000, stop: 9_000 });
    assert_eq!(
        r.warnings,
        vec![TimeRangeWarning::StopAfterSource { requested: 12_000, source_stop: 9_000 }]
    );
}

#[test]
fn stop_wins_over_total_duration() {
    let source = TimeWindow { start: 1_000, stop: 9_000 };
    let r = resolve_time_range(
        TimeRangeRequest { stop: Some(4_000), total_duration: Some(1), ..request() },
        source,
    );
    assert_eq!(r.window, TimeWindow { start: 1_000, stop: 4_000 });
    assert_eq!(r.warnings, vec![TimeRangeWarning::StopAndDurationGiven]);
}

#[test]
fn defaults_to_source_and_applies_offset() {
    let source = TimeWindow { start: 1_000, stop: 9_000 };
    let r = resolve_time_range(request(), source);
    assert_eq!(r.window, source);
    assert!(r.warnings.is_empty());
    let r = resolve_time_range(
        TimeRangeRequest { start_offset: Some(250), total_duration: Some(100), ..request() },
        source,
    );
    assert_eq!(r.window, TimeWindow { start: 1_250, stop: 1_350 });
    assert!(r.warnings.is_empty());
}
