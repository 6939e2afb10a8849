use run_counter::time_measure::{ClockReading, TimeMeasure, MAX_SPAN_SECONDS};

fn at(sec: i64, nsec: i32) -> ClockReading {
    ClockReading { sec, nsec }
}

fn elapsed(start: ClockReading, end: ClockReading) -> (i64, i64) {
    let measure = TimeMeasure::start_at(start).unwrap();
    let duration = measure.end_at(end).unwrap();
    (duration.current_second(), duration.milliseconds())
}

#[test]
fn no_time_has_passed_at_the_start() {
    assert_eq!(elapsed(at(100, 250_000_000), at(100, 250_000_000)), (0, 0));
}

#[test]
fn whole_seconds_and_milliseconds() {
    assert_eq!(elapsed(at(100, 0), at(103, 0)), (3, 3000));
    assert_eq!(elapsed(at(100, 200_000_000), at(101, 700_000_000)), (1, 1500));
}

#[test]
fn part_of_a_second_is_no_second() {
    assert_eq!(elapsed(at(100, 0), at(100, 999_999_999)), (0, 999));
    assert_eq!(elapsed(at(100, 900_000_000), at(101, 100_000_000)), (0, 200));
    assert_eq!(elapsed(at(100, 900_000_000), at(102, 899_999_999)), (1, 1999));
}

#[test]
fn time_before_the_start_rounds_towards_zero() {
    assert_eq!(elapsed(at(100, 500_000_000), at(100, 0)), (0, -500));
    assert_eq!(elapsed(at(100, 0), at(98, 500_000_000)), (-1, -1500));
    assert_eq!(elapsed(at(100, 0), at(98, 0)), (-2, -2000));
    assert_eq!(elapsed(at(100, 0), at(99, 999_999_999)), (0, 0));
}

#[test]
fn readings_before_the_epoch() {
    assert_eq!(elapsed(at(-2, 800_000_000), at(1, 300_000_000)), (2, 2500));
    assert_eq!(elapsed(at(-1, 0), at(-3, 500_000_000)), (-1, -1500));
}

#[test]
fn start_at_refuses_ill_formed_readings() {
    assert!(TimeMeasure::start_at(at(0, 0)).is_some());
    assert!(TimeMeasure::start_at(at(0, 999_999_999)).is_some());
    assert!(TimeMeasure::start_at(at(0, 1_000_000_000)).is_none());
    assert!(TimeMeasure::start_at(at(0, -1)).is_none());
}

#[test]
fn end_at_refuses_ill_formed_readings() {
    let measure = TimeMeasure::start_at(at(5, 0)).unwrap();
    assert!(measure.end_at(at(6, 1_000_000_000)).is_none());
    assert!(measure.end_at(at(6, -1)).is_none());
    assert!(measure.end_at(at(6, 999_999_999)).is_some());
}

#[test]
fn end_at_refuses_readings_too_far_apart() {
    let measure = TimeMeasure::start_at(at(0, 0)).unwrap();
    assert!(measure.end_at(at(MAX_SPAN_SECONDS, 0)).is_some());
    assert!(measure.end_at(at(MAX_SPAN_SECONDS + 1, 0)).is_none());
    assert!(measure.end_at(at(-MAX_SPAN_SECONDS, 0)).is_some());
    assert!(measure.end_at(at(-MAX_SPAN_SECONDS - 1, 0)).is_none());
    assert!(measure.end_at(at(i64::MAX, 0)).is_none());
    assert!(measure.end_at(at(i64::MIN, 0)).is_none());

    let late = TimeMeasure::start_at(at(i64::MAX, 0)).unwrap();
    assert!(late.end_at(at(i64::MIN, 0)).is_none());
    assert!(late.end_at(at(i64::MAX - 3, 0)).is_some());
}

#[test]
fn widest_spans_are_measured() {
    assert_eq!(
        elapsed(at(0, 0), at(MAX_SPAN_SECONDS, 999_999_999)),
        (MAX_SPAN_SECONDS, 9_223_372_036_854_774_999)
    );
    assert_eq!(
        elapsed(at(0, 999_999_999), at(-MAX_SPAN_SECONDS, 0)),
        (-MAX_SPAN_SECONDS, -9_223_372_036_854_774_999)
    );
}

#[test]
fn clock_runs_forward_from_start() {
    let measure = TimeMeasure::start();
    let duration = measure.end().unwrap();
    let second = duration.current_second();
    let milliseconds = duration.milliseconds();
    assert!(second >= 0 && second < 60);
    assert_eq!(milliseconds / 1000, second);
}
