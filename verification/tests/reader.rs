use record_sort::data::JSONReader;
use record_sort::data::RecordIOError;
use record_sort::data::Review;

fn dataset_lines(records: usize) -> Vec<String> {
    let mut lines: Vec<String> = Vec::new();
    for i in 0..records {
        let id = i as u64;
        let score = (records - i) as u64;
        lines.push(format!("[{}, {}]", id, score));
    }
    lines
}

#[test]
fn success_limited() {
    let reader = JSONReader;
    let limit = Some(5);

    let result: Vec<Review> = reader.read_lines(&dataset_lines(10), limit).unwrap();

    assert_eq!(result.len(), 5)
}

#[test]
fn success_unlimited() {
    let reader = JSONReader;

    let result: Vec<Review> = reader.read_lines(&dataset_lines(10), None).unwrap();

    assert_eq!(result.len(), 10)
}

#[test]
fn limit_larger_than_dataset_reads_all() {
    let reader = JSONReader;

    let result = reader.read_lines(&dataset_lines(10), Some(25)).unwrap();

    assert_eq!(result.len(), 10);
}

#[test]
fn decoded_fields_match_the_lines() {
    let reader = JSONReader;
    let lines = vec!["[1, 42]".to_string(), "[2, 7]".to_string()];

    let result = reader.read_lines(&lines, None).unwrap();

    assert_eq!(result, vec![Review { id: 1, score: 42 }, Review { id: 2, score: 7 }]);
}

#[test]
fn malformed_line_fails_the_read() {
    let reader = JSONReader;
    let lines = vec![
        "[1, 42]".to_string(),
        "{not a record".to_string(),
        "[3, 5]".to_string(),
    ];

    let result = reader.read_lines(&lines, None);

    assert_eq!(result, Err(RecordIOError::MalformedRecord));
}

#[test]
fn malformed_line_beyond_the_limit_is_not_read() {
    let reader = JSONReader;
    let lines = vec!["[1, 42]".to_string(), "{not a record".to_string()];

    let result = reader.read_lines(&lines, Some(1)).unwrap();

    assert_eq!(result.len(), 1);
}

#[test]
fn empty_dataset_reads_no_records() {
    let reader = JSONReader;
    let lines: Vec<String> = Vec::new();

    let result = reader.read_lines(&lines, None).unwrap();

    assert!(result.is_empty());
}
