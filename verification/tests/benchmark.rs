use record_sort::benchmark::RealDataBenchmark;
use record_sort::benchmark::SimpleBenchmark;
use record_sort::cli::ApplicationError;
use record_sort::sort::Algorithm;
use record_sort::sort::SortFactory;
use record_sort::util::RandomNumberGenerator;

fn ten_record_lines() -> Vec<String> {
    (0..10u64).map(|i| format!("[{}, {}]", i, 100 - i)).collect()
}

#[test]
fn synthetic_run_measures_each_size_in_order() {
    let strategy = SortFactory.create(Algorithm::Insertion);
    let sizes: Vec<usize> = vec![10, 100, 1000];
    let mut bench = SimpleBenchmark::with_sizes(RandomNumberGenerator::new(7), sizes);

    let measurements = bench.execute(&strategy).unwrap();

    assert_eq!(measurements.len(), 3);
    let counts: Vec<usize> = measurements.iter().map(|m| m.get_sorted_elements()).collect();
    assert_eq!(counts, vec![10, 100, 1000]);
}

#[test]
fn synthetic_run_with_default_progression() {
    let strategy = SortFactory.create(Algorithm::Selection);
    let mut bench = SimpleBenchmark::new(RandomNumberGenerator::new(7));

    let measurements = bench.execute(&strategy).unwrap();

    let counts: Vec<usize> = measurements.iter().map(|m| m.get_sorted_elements()).collect();
    assert_eq!(counts, vec![10, 100, 1000]);
}

#[test]
fn synthetic_run_count_is_idempotent() {
    let strategy = SortFactory.create(Algorithm::Insertion);
    let mut first_counts: Option<Vec<usize>> = None;
    for _ in 0..3 {
        let sizes: Vec<usize> = vec![4, 16, 64];
        let mut bench = SimpleBenchmark::with_sizes(RandomNumberGenerator::new(3), sizes);
        let measurements = bench.execute(&strategy).unwrap();
        let counts: Vec<usize> = measurements.iter().map(|m| m.get_sorted_elements()).collect();
        match &first_counts {
            None => first_counts = Some(counts),
            Some(expected) => assert_eq!(&counts, expected),
        }
    }
}

#[test]
fn empty_progression_yields_no_measurements() {
    let strategy = SortFactory.create(Algorithm::Insertion);
    let mut bench = SimpleBenchmark::with_sizes(RandomNumberGenerator::new(3), Vec::new());

    let measurements = bench.execute(&strategy).unwrap();

    assert!(measurements.is_empty());
}

#[test]
fn real_run_with_limit_measures_the_limit() {
    let strategy = SortFactory.create(Algorithm::Insertion);
    let bench = RealDataBenchmark::new(Some(5));

    let measurements = bench.execute(&strategy, &ten_record_lines()).unwrap();

    assert_eq!(measurements.len(), 1);
    assert_eq!(measurements[0].get_sorted_elements(), 5);
}

#[test]
fn real_run_without_limit_measures_all_records() {
    let strategy = SortFactory.create(Algorithm::Insertion);
    let bench = RealDataBenchmark::default();

    let measurements = bench.execute(&strategy, &ten_record_lines()).unwrap();

    assert_eq!(measurements.len(), 1);
    assert_eq!(measurements[0].get_sorted_elements(), 10);
}

#[test]
fn real_run_on_malformed_line_fails_with_no_measurements() {
    let strategy = SortFactory.create(Algorithm::Selection);
    let bench = RealDataBenchmark::default();
    let mut lines = ten_record_lines();
    lines[4] = "[4, ".to_string();

    let result = bench.execute(&strategy, &lines);

    assert_eq!(result, Err(ApplicationError::DatasetReadError));
}

#[test]
fn real_run_on_empty_dataset_is_a_degenerate_measurement() {
    let strategy = SortFactory.create(Algorithm::Insertion);
    let bench = RealDataBenchmark::default();
    let lines: Vec<String> = Vec::new();

    let measurements = bench.execute(&strategy, &lines).unwrap();

    assert_eq!(measurements.len(), 1);
    assert_eq!(measurements[0].get_sorted_elements(), 0);
}
