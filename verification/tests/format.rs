use ups_monitor::format::format_runtime;

#[test]
fn minutes_above_one_minute() {
    assert_eq!(format_runtime(600, "min"), "10 min");
    assert_eq!(format_runtime(60, "min"), "1 min");
}

#[test]
fn under_a_minute_stays_in_minutes() {
    assert_eq!(format_runtime(59, "min"), "0 min");
    assert_eq!(format_runtime(0, "min"), "0 min");
}

#[test]
fn long_runtimes_stay_in_minutes() {
    assert_eq!(format_runtime(3600, "min"), "60 min");
    assert_eq!(format_runtime(7_245, "min"), "120 min");
}

#[test]
fn truncates_rather_than_rounds_up() {
    assert_eq!(format_runtime(119, "min"), "1 min");
}
