use zopfli_sweep::{SweepConfig, SweepCursor};

fn drain(minimum: u64, maximum: u64, step: u64, repetitions: u32) -> Vec<u64> {
    let config = SweepConfig::new(minimum, maximum, step, repetitions).unwrap();
    let mut cursor = SweepCursor::new(config);
    let mut handed_out = Vec::new();
    while let Some(iterations) = cursor.advance() {
        handed_out.push(iterations);
        assert!(handed_out.len() <= 1000);
    }
    assert_eq!(cursor.advance(), None);
    handed_out
}

#[test]
fn default_sweep_tries_seventeen_values() {
    let handed_out = drain(100, 500, 25, 1);
    let expected: Vec<u64> = vec![
        100, 125, 150, 175, 200, 225, 250, 275, 300, 325, 350, 375, 400, 425, 450, 475, 500,
    ];
    assert_eq!(handed_out, expected);
    assert_eq!(handed_out.len(), (500 - 100) / 25 + 1);
}

#[test]
fn each_value_is_repeated_in_a_row() {
    assert_eq!(drain(1, 10, 4, 2), vec![1, 1, 5, 5, 9, 9]);
    assert_eq!(drain(7, 7, 1, 3), vec![7, 7, 7]);
}

#[test]
fn invocation_count_is_value_count_times_repetitions() {
    let handed_out = drain(100, 500, 25, 3);
    assert_eq!(handed_out.len(), 17 * 3);
    let handed_out = drain(10, 99, 10, 4);
    assert_eq!(handed_out.len(), ((99 - 10) / 10 + 1) * 4);
    assert_eq!(handed_out.len(), 36);
}

#[test]
fn maximum_is_included_only_when_reached() {
    assert_eq!(drain(100, 150, 25, 1), vec![100, 125, 150]);
    assert_eq!(drain(100, 149, 25, 1), vec![100, 125]);
    assert_eq!(drain(100, 151, 25, 1), vec![100, 125, 150]);
}

#[test]
fn single_value_range_yields_one_value() {
    assert_eq!(drain(100, 100, 25, 1), vec![100]);
}

#[test]
fn step_beyond_the_range_yields_the_minimum_alone() {
    assert_eq!(drain(100, 500, 1000, 1), vec![100]);
    assert_eq!(drain(100, 500, 401, 2), vec![100, 100]);
}

#[test]
fn inverted_range_yields_nothing() {
    assert_eq!(drain(100, 50, 25, 1), Vec::<u64>::new());
    assert_eq!(drain(100, 50, 0, 1), Vec::<u64>::new());
    assert_eq!(drain(u64::MAX, 1, 1, u32::MAX), Vec::<u64>::new());
    assert_eq!(drain(2, 1, 1, 0), Vec::<u64>::new());
}

#[test]
fn zero_repetitions_yield_nothing() {
    assert_eq!(drain(100, 500, 25, 0), Vec::<u64>::new());
    assert_eq!(drain(1, u64::MAX, 1, 0), Vec::<u64>::new());
}

#[test]
fn sweep_ends_where_the_next_value_would_overflow() {
    assert_eq!(drain(u64::MAX - 1, u64::MAX, 5, 1), vec![u64::MAX - 1]);
    assert_eq!(drain(u64::MAX - 1, u64::MAX, 1, 2), vec![
        u64::MAX - 1,
        u64::MAX - 1,
        u64::MAX,
        u64::MAX
    ]);
    assert_eq!(drain(1, u64::MAX, u64::MAX, 1), vec![1]);
    assert_eq!(drain(u64::MAX, u64::MAX, u64::MAX, 1), vec![u64::MAX]);
}

#[test]
fn completed_cursor_stays_complete() {
    let config = SweepConfig::new(5, 5, 1, 1).unwrap();
    let mut cursor = SweepCursor::new(config);
    assert_eq!(cursor.advance(), Some(5));
    assert_eq!(cursor.advance(), None);
    assert_eq!(cursor.advance(), None);
    assert_eq!(cursor.advance(), None);
}

#[test]
fn copies_of_a_cursor_advance_independently() {
    let config = SweepConfig::new(1, 3, 1, 1).unwrap();
    let mut first = SweepCursor::new(config);
    assert_eq!(first.advance(), Some(1));
    let mut second = first;
    assert_eq!(first.advance(), Some(2));
    assert_eq!(second.advance(), Some(2));
    assert_eq!(second.advance(), Some(3));
    assert_eq!(first.advance(), Some(3));
}
