use optimus::api::{
    accept_submission, cancel_job, completion_event, default_timeout, default_weight,
    get_job_debug, get_job_result, health_check, submit_job, submit_response, validate_submission,
    CancelDecision, JobLookup, LaneContents, Rejection, SubmitRequest, TestCaseInput,
};
use optimus::types::{
    ExecutionResult, JobMetadata, JobRequest, JobStatus, Language, TestResult, TestStatus,
};

fn tc(input: &str, expected: &str, weight: u32) -> TestCaseInput {
    TestCaseInput { input: input.to_string(), expected_output: expected.to_string(), weight }
}

fn request(source: &str, cases: Vec<TestCaseInput>, timeout_ms: u64) -> SubmitRequest {
    SubmitRequest { language: Language::Python, source_code: source.to_string(), test_cases: cases, timeout_ms }
}

#[test]
fn submission_without_tests_is_rejected() {
    let r = submit_job(request("print(1)", vec![], 5000));
    let rej = r.err().unwrap();
    assert_eq!(rej, Rejection::NoTestCases);
    assert_eq!(rej.status_code(), 400);
    assert_eq!(rej.reason_tag(), "no_test_cases");
}

#[test]
fn source_size_boundary() {
    let at_limit = "a".repeat(100_000);
    assert_eq!(validate_submission(&request(&at_limit, vec![tc("1", "1", 10)], 5000)), None);
    let over = "a".repeat(100_001);
    assert_eq!(
        validate_submission(&request(&over, vec![tc("1", "1", 10)], 5000)),
        Some(Rejection::SourceTooLarge)
    );
    // Sizes are counted in bytes: 50 000 two-byte characters fit, one more does not.
    let wide = "é".repeat(50_000);
    assert_eq!(validate_submission(&request(&wide, vec![tc("1", "1", 10)], 5000)), None);
    let wider = "é".repeat(50_001);
    assert_eq!(
        validate_submission(&request(&wider, vec![tc("1", "1", 10)], 5000)),
        Some(Rejection::SourceTooLarge)
    );
}

#[test]
fn timeout_boundaries() {
    for bad in [0u64, 60_001] {
        assert_eq!(
            validate_submission(&request("x", vec![tc("1", "1", 10)], bad)),
            Some(Rejection::InvalidTimeout)
        );
    }
    for good in [1u64, 60_000] {
        assert_eq!(validate_submission(&request("x", vec![tc("1", "1", 10)], good)), None);
    }
}

#[test]
fn other_rejections_in_order() {
    let many: Vec<TestCaseInput> = (0..101).map(|_| tc("1", "1", 1)).collect();
    assert_eq!(validate_submission(&request("x", many, 0)), Some(Rejection::TooManyTestCases));
    let hundred: Vec<TestCaseInput> = (0..100).map(|_| tc("1", "1", 1)).collect();
    assert_eq!(validate_submission(&request("x", hundred, 5000)), None);
    assert_eq!(
        validate_submission(&request(" \n\t\u{3000}", vec![tc("1", "1", 1)], 5000)),
        Some(Rejection::EmptySource)
    );
    assert_eq!(validate_submission(&request("", vec![tc("1", "1", 1)], 5000)), Some(Rejection::EmptySource));
    let big = "i".repeat(10_001);
    let ok = "i".repeat(10_000);
    assert_eq!(
        validate_submission(&request("x", vec![tc(&ok, &ok, 1), tc("1", &big, 1), tc(&big, "1", 1)], 5000)),
        Some(Rejection::OutputTooLarge(1))
    );
    assert_eq!(
        validate_submission(&request("x", vec![tc(&big, &big, 1)], 0)),
        Some(Rejection::InputTooLarge(0))
    );
    let resp = Rejection::InputTooLarge(0).error_response();
    assert_eq!(resp.error, "Test case input too large");
    assert_eq!(resp.details.as_deref(), Some("Test case 1 input exceeds 10000 bytes"));
    let resp = Rejection::TooManyTestCases.error_response();
    assert_eq!(resp.details.as_deref(), Some("Maximum 100 test cases allowed"));
}

#[test]
fn accepted_submission_becomes_a_job() {
    let req = request("print(input())", vec![tc("a", "A", 10), tc("b", "B", 15), tc("c", "C", 0)], 2500);
    let job = accept_submission(req, 7).unwrap();
    assert_eq!(job.id, 7);
    assert_eq!(job.language, Language::Python);
    assert_eq!(job.source_code, "print(input())");
    assert_eq!(job.timeout_ms, 2500);
    assert_eq!(job.metadata.attempts, 0);
    assert_eq!(job.metadata.max_attempts, 3);
    let ids: Vec<u32> = job.test_cases.iter().map(|t| t.id).collect();
    assert_eq!(ids, vec![1, 2, 3]);
    assert_eq!(job.test_cases[1].input, "b");
    assert_eq!(job.test_cases[1].expected_output, "B");
    assert_eq!(job.test_cases[1].weight, 15);
    let resp = submit_response(&job);
    assert_eq!(resp.job_id, "00000000-0000-0000-0000-000000000007");
    assert_eq!(default_timeout(), 5000);
    assert_eq!(default_weight(), 10);
}

#[test]
fn fresh_submissions_get_fresh_ids() {
    let a = submit_job(request("x", vec![tc("1", "1", 1)], 10)).unwrap();
    let b = submit_job(request("x", vec![tc("1", "1", 1)], 10)).unwrap();
    assert_ne!(a.id, b.id);
}

fn result(status: JobStatus) -> ExecutionResult {
    ExecutionResult {
        job_id: 1,
        overall_status: status,
        score: 0,
        max_score: 10,
        results: vec![
            TestResult { test_id: 1, status: TestStatus::Failed, stdout: String::new(), stderr: String::new(), execution_time_ms: 40 },
            TestResult { test_id: 2, status: TestStatus::Failed, stdout: String::new(), stderr: String::new(), execution_time_ms: 2 },
        ],
    }
}

#[test]
fn cancellation_after_terminal_write_conflicts() {
    for s in [JobStatus::Completed, JobStatus::Failed, JobStatus::Cancelled] {
        let d = cancel_job("abc", Some(s));
        assert_eq!(d.status_code(), 409);
        match d {
            CancelDecision::Conflict(b) => {
                assert_eq!(b.status, s.as_str());
                assert_eq!(b.job_id, "abc");
                assert_eq!(b.message, format!("Job has already finished with status: {}", s.as_str()));
            }
            CancelDecision::SetFlag(_) => panic!("expected a conflict"),
        }
    }
    for s in [None, Some(JobStatus::Running), Some(JobStatus::Queued)] {
        let d = cancel_job("abc", s);
        assert_eq!(d.status_code(), 200);
        match d {
            CancelDecision::SetFlag(b) => assert_eq!(b.status, "cancelling"),
            CancelDecision::Conflict(_) => panic!("expected the flag to be set"),
        }
    }
}

#[test]
fn result_lookup_codes() {
    assert_eq!(get_job_result(None).status_code(), 202);
    let found = get_job_result(Some(result(JobStatus::Completed)));
    assert_eq!(found.status_code(), 200);
    assert!(matches!(found, JobLookup::Ready(r) if r.max_score == 10));
}

fn queued(id: u128, attempts: u8, reason: Option<&str>) -> JobRequest {
    JobRequest {
        id,
        language: Language::Java,
        source_code: "x".to_string(),
        test_cases: vec![],
        timeout_ms: 1,
        metadata: JobMetadata { attempts, max_attempts: 3, last_failure_reason: reason.map(|s| s.to_string()) },
    }
}

#[test]
fn debug_info_reports_lanes() {
    let lanes = vec![
        LaneContents { main: vec![queued(5, 0, None)], retry: vec![], dlq: vec![] },
        LaneContents { main: vec![], retry: vec![queued(9, 1, Some("boom"))], dlq: vec![queued(8, 3, Some("gone"))] },
    ];
    let info = get_job_debug("j9", 9, None, &lanes);
    assert_eq!(info.status, "retrying");
    assert!(info.in_retry_queue && !info.in_main_queue && !info.in_dlq);
    assert_eq!(info.attempts, 1);
    assert_eq!(info.last_failure_reason.as_deref(), Some("boom"));
    let info = get_job_debug("j8", 8, None, &lanes);
    assert_eq!(info.status, "dead_letter_queue");
    assert_eq!(info.attempts, 3);
    let info = get_job_debug("j5", 5, None, &lanes);
    assert_eq!(info.status, "queued");
    let info = get_job_debug("j1", 1, None, &lanes);
    assert_eq!(info.status, "unknown");
    assert_eq!((info.attempts, info.max_attempts), (0, 3));
    let info = get_job_debug("j5", 5, Some(result(JobStatus::Failed)), &lanes);
    assert_eq!(info.status, "completed");
    assert!(info.result.is_some());
}

#[test]
fn health_answers() {
    let (code, body) = health_check(true, 12);
    assert_eq!(code, 200);
    assert_eq!(body.status, "healthy");
    assert_eq!(body.uptime_seconds, 12);
    assert!(!body.timestamp.is_empty());
    let (code, body) = health_check(false, 0);
    assert_eq!(code, 503);
    assert_eq!(body.status, "degraded");
    assert!(!body.redis_connected);
}

#[test]
fn completion_event_sums_run_times() {
    let e = completion_event(&result(JobStatus::Completed), Language::Rust);
    assert_eq!(e.execution_time_ms, 42);
    assert_eq!(e.status, "Completed");
    assert_eq!(e.language, "rust");
    assert_eq!(e.job_id, "00000000-0000-0000-0000-000000000001");
    let mut r = result(JobStatus::Failed);
    r.results[0].execution_time_ms = u64::MAX;
    assert_eq!(completion_event(&r, Language::Java).execution_time_ms, u64::MAX);
}
