use xmodits_py::batch::{
    reduce_batch, reduce_failures, select_batch_paths, BatchEntry, BatchError, BatchFailure,
    PathOutcome,
};
use xmodits_py::error::{ClassifiedError, EngineFailure};

fn entry(path: &str, is_file: bool) -> BatchEntry {
    BatchEntry { path: path.to_string(), is_file }
}

fn ok(path: &str) -> PathOutcome {
    PathOutcome { path: path.to_string(), outcome: Ok(()) }
}

fn failed(path: &str, failure: EngineFailure) -> PathOutcome {
    PathOutcome { path: path.to_string(), outcome: Err(failure) }
}

#[test]
fn selection_skips_non_files_silently() {
    let entries = vec![
        entry("a.it", true),
        entry("missing.xm", false),
        entry("somedir", false),
        entry("b.mod", true),
    ];
    assert_eq!(
        select_batch_paths(entries),
        vec!["a.it".to_string(), "b.mod".to_string()]
    );
}

#[test]
fn selection_keeps_input_order_and_duplicates() {
    let entries = vec![entry("x", true), entry("x", true), entry("y", true)];
    assert_eq!(
        select_batch_paths(entries),
        vec!["x".to_string(), "x".to_string(), "y".to_string()]
    );
}

#[test]
fn selection_of_nothing_is_empty() {
    assert_eq!(select_batch_paths(vec![]), Vec::<String>::new());
    assert_eq!(select_batch_paths(vec![entry("gone", false)]), Vec::<String>::new());
}

#[test]
fn empty_batch_is_trivially_successful() {
    assert_eq!(reduce_batch(vec![]), Ok(()));
}

#[test]
fn all_successes_reduce_to_success() {
    assert_eq!(reduce_batch(vec![ok("a"), ok("b"), ok("c")]), Ok(()));
}

#[test]
fn one_failure_is_reported_like_a_single_call() {
    let r = reduce_batch(vec![
        ok("a.it"),
        failed("b.xm", EngineFailure::EmptyModule),
        ok("c.mod"),
    ]);
    assert_eq!(
        r,
        Err(BatchError::Single(ClassifiedError::EmptyModule(
            "The module has no samples".to_string()
        )))
    );
}

#[test]
fn many_failures_are_carried_in_input_order_with_their_paths() {
    let r = reduce_batch(vec![
        failed("a.it", EngineFailure::NoFormatFound),
        ok("b.xm"),
        failed("c.mod", EngineFailure::BadSample(2)),
        failed("d.s3m", EngineFailure::Io("denied".to_string())),
    ]);
    let expected = vec![
        BatchFailure {
            path: "a.it".to_string(),
            error: ClassifiedError::NoFormatFound(
                "Could not determine a valid format".to_string(),
            ),
        },
        BatchFailure {
            path: "c.mod".to_string(),
            error: ClassifiedError::InvalidSample(
                "Sample with raw index 2 points to an invalid offset".to_string(),
            ),
        },
        BatchFailure {
            path: "d.s3m".to_string(),
            error: ClassifiedError::Io("denied".to_string()),
        },
    ];
    match r {
        Err(BatchError::Multiple(v)) => assert_eq!(v, expected),
        other => panic!("expected a multiple-failure aggregate, got {:?}", other),
    }
}

#[test]
fn reduce_failures_three_way_policy() {
    assert_eq!(reduce_failures(vec![]), Ok(()));

    let one = BatchFailure {
        path: "p".to_string(),
        error: ClassifiedError::Io("gone".to_string()),
    };
    assert_eq!(
        reduce_failures(vec![one.clone()]),
        Err(BatchError::Single(ClassifiedError::Io("gone".to_string())))
    );

    let two = BatchFailure {
        path: "q".to_string(),
        error: ClassifiedError::PartialExtraction("Could not extract everything".to_string()),
    };
    assert_eq!(
        reduce_failures(vec![one.clone(), two.clone()]),
        Err(BatchError::Multiple(vec![one, two]))
    );
}
