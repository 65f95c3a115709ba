use abcdeez_app::timing::{
    calculate_reaction_time_percentiles, micros_of_nanos, millis_of_nanos, sort_times, PercentileResult,
    PrecisionTimer, SessionTimer, TaskTimer, TaskTimingResult,
};

fn result(ms: u128) -> TaskTimingResult {
    TaskTimingResult {
        total_time_ms: ms,
        total_time_micros: ms * 1000,
        first_input_delay_ms: None,
        hint_requested_delay_ms: None,
    }
}

#[test]
fn sorting_reaction_times() {
    assert_eq!(sort_times(&[500, 100, 300, 100, 200]), vec![100, 100, 200, 300, 500]);
    assert!(sort_times(&[]).is_empty());
}

#[test]
fn percentiles_of_empty_set() {
    let r = calculate_reaction_time_percentiles(&[]);
    assert_eq!(r, PercentileResult::default());
    assert_eq!(r.max, 0);
}

#[test]
fn percentiles_of_hundred_values() {
    let times: Vec<u128> = (1..=100).rev().collect();
    let r = calculate_reaction_time_percentiles(&times);
    assert_eq!(r.min, 1);
    assert_eq!(r.p25, 26);
    assert_eq!(r.p50, 51);
    assert_eq!(r.p75, 76);
    assert_eq!(r.p90, 91);
    assert_eq!(r.p95, 96);
    assert_eq!(r.p99, 100);
    assert_eq!(r.max, 100);
}

#[test]
fn percentiles_of_few_values() {
    let r = calculate_reaction_time_percentiles(&[300, 100, 200]);
    assert_eq!(
        r,
        PercentileResult { min: 100, p25: 100, p50: 200, p75: 300, p90: 300, p95: 300, p99: 300, max: 300 }
    );
    let one = calculate_reaction_time_percentiles(&[42]);
    assert_eq!((one.min, one.p50, one.p99, one.max), (42, 42, 42, 42));
}

#[test]
fn marks_and_deltas() {
    let mut t = PrecisionTimer::new();
    t.mark_at("shown", 1_000);
    t.mark_at("typed", 4_500);
    t.mark_at("shown", 9_000);
    assert_eq!(t.get_marks().len(), 3);
    assert_eq!(t.get_last_mark(), Some(&("shown".to_string(), 9_000)));
    // The first mark of a label counts.
    assert_eq!(t.get_mark_delta("shown", "typed"), Some(3_500));
    assert_eq!(t.get_mark_delta("typed", "shown"), None);
    assert_eq!(t.get_mark_delta("shown", "missing"), None);
    assert_eq!(t.get_mark_delta("shown", "shown"), None);
    t.reset();
    assert!(t.get_marks().is_empty());
    assert_eq!(t.get_last_mark(), None);
}

#[test]
fn splits_keep_latest_value_per_label() {
    let mut t = PrecisionTimer::new();
    assert_eq!(t.split_at("lap", 10), 10);
    assert_eq!(t.split_at("other", 20), 20);
    assert_eq!(t.split_at("lap", 30), 30);
    assert_eq!(t.get_split("lap"), Some(30));
    assert_eq!(t.get_split("other"), Some(20));
    assert_eq!(t.get_split("none"), None);
    assert_eq!(t.splits.len(), 2);
}

#[test]
fn live_timer_is_monotone() {
    let mut t = PrecisionTimer::new();
    let a = t.get_elapsed_nanos();
    t.mark("a");
    let b = t.get_elapsed_nanos();
    assert!(a <= b);
    assert!(t.get_elapsed_ms() <= t.get_elapsed_micros());
    let s = t.split("s");
    assert_eq!(t.get_split("s"), Some(s));
    assert_eq!(t.get_marks()[0].0, "a");
}

#[test]
fn task_timer_records_first_events_only() {
    let mut tt = TaskTimer::new();
    tt.mark_first_input_at(5_000_000);
    assert_eq!(tt.get_first_input_delay_ms(), None);
    tt.start_task();
    tt.mark_first_input_at(250_000_000);
    tt.mark_first_input_at(900_000_000);
    tt.mark_hint_requested_at(1_500_000_000);
    assert_eq!(tt.get_first_input_delay_ms(), Some(250));
    assert_eq!(tt.get_hint_delay_ms(), Some(1500));
    let r = tt.stop_task_at(2_345_678_901);
    assert_eq!(
        r,
        TaskTimingResult {
            total_time_ms: 2345,
            total_time_micros: 2_345_678,
            first_input_delay_ms: Some(250),
            hint_requested_delay_ms: Some(1500),
        }
    );
    assert!(!tt.task_started);
    // After the task has stopped, inputs are not recorded.
    tt.start_task();
    tt.stop_task_at(0);
    tt.mark_hint_requested_at(7);
    assert_eq!(tt.get_hint_delay_ms(), None);
}

#[test]
fn session_median_and_counts() {
    let mut s = SessionTimer::new();
    s.start_session();
    assert_eq!(s.get_median_response_time_ms(), None);
    s.add_task_result(result(400));
    s.add_task_result(result(100));
    s.add_task_result(result(300));
    assert_eq!(s.get_median_response_time_ms(), Some(300));
    s.add_task_result(result(200));
    assert_eq!(s.get_median_response_time_ms(), Some(250));
    assert_eq!(s.get_task_count(), 4);
    let done = s.stop_session();
    assert_eq!(done.task_count, 4);
    assert_eq!(done.median_response_time_ms, Some(250));
    assert_eq!(done.task_results.len(), 4);
    assert!(done.active_time_ms <= done.total_time_ms);
}

#[test]
fn session_pauses_add_up() {
    let mut s = SessionTimer::new();
    s.pause();
    assert!(s.pause_start.is_none());
    s.start_session();
    s.pause();
    assert!(s.pause_start.is_some());
    s.resume_at(2_000_000);
    assert!(s.pause_start.is_none());
    assert_eq!(s.total_pause_duration, 2_000_000);
    s.resume_at(5_000_000);
    assert_eq!(s.total_pause_duration, 2_000_000);
    assert_eq!(s.active_time_at(10_000_000, 1_000_000), 7_000_000);
    assert_eq!(s.get_pause_time_ms(), 2);
}

#[test]
fn percentiles_ignore_the_order_of_the_times() {
    let a = calculate_reaction_time_percentiles(&[500, 120, 980, 120, 333, 41]);
    let b = calculate_reaction_time_percentiles(&[41, 980, 120, 333, 500, 120]);
    assert_eq!(a, b);
    assert_eq!((a.min, a.max), (41, 980));
    for p in [a.p25, a.p50, a.p75, a.p90, a.p95, a.p99] {
        assert!([500, 120, 980, 333, 41].contains(&p));
    }
}

#[test]
fn pausing_twice_and_resuming_keep_the_tasks_and_freeze_the_pause_total() {
    let mut s = SessionTimer::new();
    s.start_session();
    s.add_task_result(result(10));
    s.pause();
    s.pause();
    s.resume();
    s.resume();
    assert_eq!(s.get_task_count(), 1);
    assert!(s.pause_start.is_none());
    let p1 = s.get_pause_time_ms();
    let p2 = s.get_pause_time_ms();
    assert_eq!(p1, p2);
    assert_eq!(s.stop_session().task_count, 1);
}

#[test]
fn nanoseconds_convert_to_whole_units() {
    assert_eq!(millis_of_nanos(1_999_999), 1);
    assert_eq!(millis_of_nanos(2_000_000), 2);
    assert_eq!(micros_of_nanos(1_999), 1);
    assert_eq!(micros_of_nanos(0), 0);
}

#[test]
fn task_count_is_results_since_last_start() {
    let mut s = SessionTimer::new();
    s.add_task_result(result(5));
    assert_eq!(s.get_task_count(), 1);
    s.start_session();
    assert_eq!(s.get_task_count(), 0);
    s.add_task_result(result(7));
    s.pause();
    s.add_task_result(result(9));
    s.resume();
    assert_eq!(s.get_task_count(), 2);
}
