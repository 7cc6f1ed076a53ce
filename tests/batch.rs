use film_vault::batch::{aggregate_outcomes, FileOutcome, MAX_CONCURRENT_TOOL_RUNS};

fn paths(n: usize) -> Vec<String> {
    (0..n).map(|i| format!("/roll/originals/ROLL_00000001_{:03}.jpg", i + 1)).collect()
}

#[test]
fn batch_counts_every_target_once() {
    let p = paths(4);
    let outcomes = vec![
        FileOutcome { index: 2, error: Some("ExifTool error: bad".to_string()) },
        FileOutcome { index: 0, error: None },
        FileOutcome { index: 3, error: None },
        FileOutcome { index: 1, error: Some("File not found: x".to_string()) },
    ];
    let r = aggregate_outcomes(&p, &outcomes);
    assert_eq!(r.success_count, 2);
    assert_eq!(r.failed_count, 2);
    assert_eq!(r.success_count + r.failed_count, 4);
    assert_eq!(r.failed_files.len(), 2);
    assert_eq!(r.failed_files[0].path, p[1]);
    assert_eq!(r.failed_files[0].error, "File not found: x");
    assert_eq!(r.failed_files[1].path, p[2]);
    assert_eq!(r.failed_files[1].error, "ExifTool error: bad");
}

#[test]
fn batch_result_does_not_depend_on_completion_order() {
    let p = paths(3);
    let a = vec![
        FileOutcome { index: 0, error: Some("e0".to_string()) },
        FileOutcome { index: 1, error: None },
        FileOutcome { index: 2, error: Some("e2".to_string()) },
    ];
    let mut b = a.clone();
    b.reverse();
    let ra = aggregate_outcomes(&p, &a);
    let rb = aggregate_outcomes(&p, &b);
    assert_eq!(ra.success_count, rb.success_count);
    let fa: Vec<(String, String)> = ra.failed_files.iter().map(|f| (f.path.clone(), f.error.clone())).collect();
    let fb: Vec<(String, String)> = rb.failed_files.iter().map(|f| (f.path.clone(), f.error.clone())).collect();
    assert_eq!(fa, fb);
}

#[test]
fn batch_target_without_outcome_counts_as_failed() {
    let p = paths(2);
    let outcomes = vec![FileOutcome { index: 1, error: None }];
    let r = aggregate_outcomes(&p, &outcomes);
    assert_eq!(r.success_count, 1);
    assert_eq!(r.failed_count, 1);
    assert_eq!(r.failed_files[0].path, p[0]);
    assert_eq!(r.failed_files[0].error, "no outcome was reported");
}

#[test]
fn empty_batch_is_all_zero() {
    let r = aggregate_outcomes(&Vec::new(), &Vec::new());
    assert_eq!(r.success_count, 0);
    assert_eq!(r.failed_count, 0);
    assert!(r.failed_files.is_empty());
}

#[test]
fn failed_paths_are_distinct_inputs() {
    let p = paths(5);
    let outcomes: Vec<FileOutcome> = (0..5).map(|i| FileOutcome { index: i, error: Some(format!("e{}", i)) }).collect();
    let r = aggregate_outcomes(&p, &outcomes);
    assert_eq!(r.failed_count, 5);
    for (k, f) in r.failed_files.iter().enumerate() {
        assert_eq!(f.path, p[k]);
    }
    assert_eq!(MAX_CONCURRENT_TOOL_RUNS, 4);
}
