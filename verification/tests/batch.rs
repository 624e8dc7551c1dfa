use shimiko::batch::{run_batch, BatchController, PackOutcome, EXTRACT_CONCURRENCY, QUEUE_CAPACITY};
use shimiko::errors::{ExtractFailure, FetchFailure, Stage, TaskFailure};
use shimiko::range::normalize_range;
use shimiko::task::PackerTaskFail;

fn controller(a: u16, b: u16) -> BatchController {
    BatchController::new(&normalize_range(a, b).expect("valid range"))
}

/// Fetches, extracts and finishes one pack, start to end.
fn run_one_ok(c: &mut BatchController) -> u16 {
    assert!(c.can_enqueue());
    c.record_fetch_success();
    let n = c.start_extraction().expect("a permit must be free");
    c.record_extract_success(n);
    n
}

#[test]
fn every_pack_of_a_reversed_range_is_attempted() {
    let mut c = controller(5, 1);
    let mut attempted = Vec::new();
    while let Some(n) = c.next_fetch() {
        attempted.push(n);
        run_one_ok(&mut c);
    }
    assert!(c.is_complete());
    assert_eq!(attempted, vec![1, 2, 3, 4, 5]);
    assert_eq!(c.finished_packs(), &vec![1, 2, 3, 4, 5]);
    assert_eq!(c.failure_count(), 0);
}

#[test]
fn mixed_outcomes_account_for_every_pack_once() {
    let mut c = controller(1, 5);
    while let Some(n) = c.next_fetch() {
        if n == 2 {
            c.record_fetch_failure(FetchFailure::BadStatus(404));
        } else if n == 4 {
            c.record_fetch_success();
            let started = c.start_extraction().expect("a permit must be free");
            assert_eq!(started, 4);
            c.record_extract_failure(4, ExtractFailure::Corrupted(0));
        } else {
            run_one_ok(&mut c);
        }
    }
    assert!(c.is_complete());
    assert_eq!(c.finished_packs(), &vec![1, 3, 5]);

    let failures = c.into_failures();
    let nums: Vec<u16> = failures.iter().map(|f| *f.pack_num()).collect();
    assert_eq!(nums, vec![2, 4]);
    assert_eq!(failures[0].error().stage(), Stage::Fetch);
    assert_eq!(failures[1].error().stage(), Stage::Extract);
    assert_eq!(
        *failures[0].error(),
        TaskFailure::Fetch(FetchFailure::BadStatus(404))
    );
    assert_eq!(
        *failures[1].error(),
        TaskFailure::Extract(ExtractFailure::Corrupted(0))
    );
}

#[test]
fn extraction_concurrency_is_capped() {
    let mut c = controller(1, 9);
    for _ in 0..5 {
        assert!(c.can_enqueue());
        c.record_fetch_success();
    }
    assert_eq!(c.start_extraction(), Some(1));
    assert_eq!(c.start_extraction(), Some(2));
    assert_eq!(c.start_extraction(), Some(3));
    assert_eq!(c.extracting_count(), EXTRACT_CONCURRENCY);
    // all permits held: nothing more may start
    assert_eq!(c.start_extraction(), None);
    assert_eq!(c.extracting_count(), EXTRACT_CONCURRENCY);
    // releasing one permit lets exactly the next queued pack start
    c.record_extract_success(2);
    assert_eq!(c.start_extraction(), Some(4));
    assert_eq!(c.extracting_count(), EXTRACT_CONCURRENCY);
}

#[test]
fn queue_backpressure() {
    let mut c = controller(1, 20);
    for _ in 0..QUEUE_CAPACITY {
        assert!(c.can_enqueue());
        c.record_fetch_success();
    }
    // the queue is full: the producer must wait
    assert!(!c.can_enqueue());
    // handing one pack to a worker frees a slot
    assert_eq!(c.start_extraction(), Some(1));
    assert!(c.can_enqueue());
}

#[test]
fn packs_start_in_submission_order() {
    let mut c = controller(10, 14);
    for _ in 0..5 {
        c.record_fetch_success();
    }
    assert_eq!(c.start_extraction(), Some(10));
    assert_eq!(c.start_extraction(), Some(11));
    assert_eq!(c.start_extraction(), Some(12));
    // completion order is unconstrained: finish out of order
    c.record_extract_success(12);
    c.record_extract_success(10);
    assert_eq!(c.start_extraction(), Some(13));
    assert_eq!(c.start_extraction(), Some(14));
    c.record_extract_success(11);
    c.record_extract_success(14);
    c.record_extract_success(13);
    assert!(c.is_complete());
    assert_eq!(c.finished_packs(), &vec![12, 10, 11, 14, 13]);
}

#[test]
fn mixed_kind_batch_has_independent_outcomes() {
    // 1299 and 1300 span the two address templates and the two decoders
    let mut c = controller(1299, 1300);
    c.record_fetch_success();
    c.record_fetch_success();
    assert_eq!(c.start_extraction(), Some(1299));
    assert_eq!(c.start_extraction(), Some(1300));
    c.record_extract_failure(1299, ExtractFailure::OpenFailed);
    c.record_extract_success(1300);
    assert!(c.is_complete());
    assert_eq!(c.finished_packs(), &vec![1300]);
    let failures = c.into_failures();
    assert_eq!(failures.len(), 1);
    assert_eq!(*failures[0].pack_num(), 1299);
    assert_eq!(
        *failures[0].error(),
        TaskFailure::Extract(ExtractFailure::OpenFailed)
    );
}

#[test]
fn run_is_not_complete_while_work_is_pending() {
    let mut c = controller(1, 2);
    assert!(!c.is_complete());
    c.record_fetch_success();
    c.record_fetch_failure(FetchFailure::Transport(String::from("connection reset")));
    // range exhausted, but one pack is still queued
    assert!(!c.is_complete());
    let started = c.start_extraction().expect("a permit must be free");
    // ... and now still extracting
    assert!(!c.is_complete());
    c.record_extract_success(started);
    assert!(c.is_complete());
}

#[test]
fn whole_run_yields_one_outcome_per_pack() {
    let range = normalize_range(1, 5).expect("valid range");
    let outcomes = vec![
        PackOutcome::Extracted,
        PackOutcome::FetchFailed(FetchFailure::BadStatus(404)),
        PackOutcome::Extracted,
        PackOutcome::ExtractFailed(ExtractFailure::Corrupted(2)),
        PackOutcome::Extracted,
    ];
    let c = run_batch(&range, outcomes);
    assert!(c.is_complete());
    assert_eq!(c.finished_packs(), &vec![1, 3, 5]);
    let failures = c.into_failures();
    let nums: Vec<u16> = failures.iter().map(|f| *f.pack_num()).collect();
    assert_eq!(nums, vec![2, 4]);
}

#[test]
fn whole_run_with_every_pack_failing_still_completes() {
    let range = normalize_range(10, 12).expect("valid range");
    let outcomes = vec![
        PackOutcome::FetchFailed(FetchFailure::Transport(String::from("connection reset"))),
        PackOutcome::FetchFailed(FetchFailure::BadStatus(500)),
        PackOutcome::ExtractFailed(ExtractFailure::OpenFailed),
    ];
    let c = run_batch(&range, outcomes);
    assert!(c.is_complete());
    assert!(c.finished_packs().is_empty());
    let failures = c.into_failures();
    let nums: Vec<u16> = failures.iter().map(|f| *f.pack_num()).collect();
    assert_eq!(nums, vec![10, 11, 12]);
}

#[test]
fn failure_record_accessors() {
    let record = PackerTaskFail::new(7, TaskFailure::Fetch(FetchFailure::InvalidUrl));
    assert_eq!(*record.pack_num(), 7);
    assert_eq!(*record.error(), TaskFailure::Fetch(FetchFailure::InvalidUrl));
    assert_eq!(record.error().stage(), Stage::Fetch);
}

#[test]
fn status_classification() {
    assert_eq!(shimiko::errors::classify_status(200), Ok(()));
    assert_eq!(
        shimiko::errors::classify_status(404),
        Err(FetchFailure::BadStatus(404))
    );
    assert_eq!(
        shimiko::errors::classify_status(503),
        Err(FetchFailure::BadStatus(503))
    );
}
