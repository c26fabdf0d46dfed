use zopfli_sweep::{run_sweep, SweepConfig};

#[test]
fn single_value_sweep_over_zero_bytes() {
    let input = vec![0u8; 1000];
    let config = SweepConfig::new(100, 100, 25, 1).unwrap();
    let report = run_sweep(&config, &input);
    assert!(report.failure.is_none());
    assert_eq!(report.records.len(), 1);
    let record = report.records[0];
    assert_eq!(record.iterations, 100);
    assert_eq!(record.original_size, 1000);
    assert!(record.compressed_size < 1000);
    assert_eq!(record.compressed_size as i128 + record.saved_space(), 1000);
}

#[test]
fn inverted_range_runs_nothing() {
    let input = vec![0u8; 1000];
    let config = SweepConfig::new(100, 50, 25, 1).unwrap();
    let report = run_sweep(&config, &input);
    assert!(report.failure.is_none());
    assert!(report.records.is_empty());
}

#[test]
fn inverted_range_runs_nothing_whatever_the_rest() {
    let input = vec![3u8; 10];
    for (minimum, maximum, step, repetitions) in
        [(2u64, 1u64, 1u64, 1u32), (500, 100, 0, 4), (u64::MAX, 1, 7, u32::MAX), (9, 8, 1, 0)]
    {
        let config = SweepConfig::new(minimum, maximum, step, repetitions).unwrap();
        let report = run_sweep(&config, &input);
        assert!(report.failure.is_none());
        assert!(report.records.is_empty());
    }
}

#[test]
fn zero_repetitions_run_nothing() {
    let input = vec![3u8; 10];
    let config = SweepConfig::new(1, 50, 1, 0).unwrap();
    let report = run_sweep(&config, &input);
    assert!(report.failure.is_none());
    assert!(report.records.is_empty());
}

#[test]
fn sweep_records_every_planned_run_in_order() {
    let input: Vec<u8> = (0..200u32).map(|i| (i % 13) as u8).collect();
    let config = SweepConfig::new(1, 6, 2, 2).unwrap();
    let report = run_sweep(&config, &input);
    assert!(report.failure.is_none());
    let iterations: Vec<u64> = report.records.iter().map(|record| record.iterations).collect();
    assert_eq!(iterations, vec![1, 1, 3, 3, 5, 5]);
    assert_eq!(report.records.len(), ((6 - 1) / 2 + 1) * 2);
    for record in report.records.iter() {
        assert_eq!(record.original_size, 200);
        assert_eq!(record.compressed_size as i128 + record.saved_space(), 200);
    }
}

#[test]
fn repeated_runs_of_one_value_have_one_size() {
    let input: Vec<u8> = (0..500u32).map(|i| (i * i % 251) as u8).collect();
    let config = SweepConfig::new(4, 4, 1, 3).unwrap();
    let report = run_sweep(&config, &input);
    assert!(report.failure.is_none());
    assert_eq!(report.records.len(), 3);
    assert_eq!(report.records[0].compressed_size, report.records[1].compressed_size);
    assert_eq!(report.records[1].compressed_size, report.records[2].compressed_size);
}

#[test]
fn sweep_over_an_empty_input_still_runs() {
    let input: Vec<u8> = Vec::new();
    let config = SweepConfig::new(1, 2, 1, 1).unwrap();
    let report = run_sweep(&config, &input);
    assert!(report.failure.is_none());
    assert_eq!(report.records.len(), 2);
    assert_eq!(report.records[0].original_size, 0);
    assert!(report.records[0].saved_space() < 0);
}

#[test]
fn sweep_runs_to_its_end() {
    let input: Vec<u8> = (0..60u32).map(|i| (i % 5) as u8).collect();
    let config = SweepConfig::new(2, 11, 3, 2).unwrap();
    let report = run_sweep(&config, &input);
    assert!(report.failure.is_none());
    assert_eq!(report.records.len(), ((11 - 2) / 3 + 1) * 2);
    assert_eq!(report.records.len(), 8);
    assert_eq!(report.records[7].iterations, 11);
}
