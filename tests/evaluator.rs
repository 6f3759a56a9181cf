use optimus::evaluator::{classify_output, evaluate, TestExecutionOutput};
use optimus::text::trimmed_eq;
use optimus::types::{JobMetadata, JobRequest, JobStatus, Language, TestCase, TestStatus};
use uuid::Uuid;

fn case(id: u32, input: &str, expected: &str, weight: u32) -> TestCase {
    TestCase { id, input: input.to_string(), expected_output: expected.to_string(), weight }
}

fn job(language: Language, test_cases: Vec<TestCase>, timeout_ms: u64) -> JobRequest {
    JobRequest {
        id: Uuid::new_v4().as_u128(),
        language,
        source_code: String::new(),
        test_cases,
        timeout_ms,
        metadata: JobMetadata::default(),
    }
}

fn output(test_id: u32, stdout: &str, stderr: &str, ms: u64, timed_out: bool, runtime_error: bool) -> TestExecutionOutput {
    TestExecutionOutput {
        test_id,
        stdout: stdout.to_string(),
        stderr: stderr.to_string(),
        execution_time_ms: ms,
        timed_out,
        runtime_error,
    }
}

#[test]
fn test_all_pass() {
    let job = job(Language::Python, vec![case(1, "5", "120", 10), case(2, "3", "6", 15)], 5000);
    let outputs = vec![output(1, "120", "", 42, false, false), output(2, "6", "", 38, false, false)];

    let result = evaluate(&job, outputs);

    assert_eq!(result.overall_status, JobStatus::Completed);
    assert_eq!(result.score, 25);
    assert_eq!(result.max_score, 25);
    assert_eq!(result.results[0].status, TestStatus::Passed);
    assert_eq!(result.results[1].status, TestStatus::Passed);
}

#[test]
fn test_partial_pass() {
    let job = job(
        Language::Java,
        vec![case(1, "input", "correct", 20), case(2, "input", "wrong", 30)],
        5000,
    );
    let outputs = vec![
        output(1, "correct", "", 10, false, false),
        output(2, "incorrect", "", 10, false, false),
    ];

    let result = evaluate(&job, outputs);

    assert_eq!(result.overall_status, JobStatus::Completed);
    assert_eq!(result.score, 20);
    assert_eq!(result.max_score, 50);
    assert_eq!(result.results[0].status, TestStatus::Passed);
    assert_eq!(result.results[1].status, TestStatus::Failed);
}

#[test]
fn test_runtime_error() {
    let job = job(Language::Python, vec![case(1, "input", "output", 10)], 5000);
    let outputs = vec![output(1, "", "RuntimeError: division by zero", 5, false, true)];

    let result = evaluate(&job, outputs);

    assert_eq!(result.overall_status, JobStatus::Failed);
    assert_eq!(result.score, 0);
    assert_eq!(result.results[0].status, TestStatus::RuntimeError);
}

#[test]
fn test_timeout() {
    let job = job(Language::Rust, vec![case(1, "input", "output", 5)], 1000);
    let outputs = vec![output(1, "", "", 1001, true, false)];

    let result = evaluate(&job, outputs);

    assert_eq!(result.overall_status, JobStatus::Failed);
    assert_eq!(result.score, 0);
    assert_eq!(result.results[0].status, TestStatus::TimeLimitExceeded);
}

#[test]
fn test_whitespace_trimming() {
    let job = job(Language::Python, vec![case(1, "input", "hello", 10)], 5000);
    let outputs = vec![output(1, "  hello  \n", "", 5, false, false)];

    let result = evaluate(&job, outputs);

    assert_eq!(result.overall_status, JobStatus::Completed);
    assert_eq!(result.score, 10);
    assert_eq!(result.results[0].status, TestStatus::Passed);
}

#[test]
fn runtime_error_outranks_timeout_and_a_match() {
    let out = output(1, "ok", "", 1, true, true);
    assert_eq!(classify_output(&out, "ok"), TestStatus::RuntimeError);
    let out = output(1, "ok", "", 1, true, false);
    assert_eq!(classify_output(&out, "ok"), TestStatus::TimeLimitExceeded);
    let out = output(1, "ok", "", 1, false, false);
    assert_eq!(classify_output(&out, "ok"), TestStatus::Passed);
    let out = output(1, "ok!", "", 1, false, false);
    assert_eq!(classify_output(&out, "ok"), TestStatus::Failed);
}

#[test]
fn trimming_cuts_ascii_whitespace_only() {
    assert!(trimmed_eq("\t a b \r\n\x0C", "a b"));
    assert!(!trimmed_eq("a  b", "a b"));
    assert!(trimmed_eq("   ", ""));
    assert!(trimmed_eq("", ""));
    // A no-break space is not ASCII whitespace, so it is kept.
    assert!(!trimmed_eq("\u{a0}x", "x"));
    // Vertical tab is not among Rust's ASCII whitespace.
    assert!(!trimmed_eq("\x0Bx", "x"));
}

#[test]
fn results_keep_output_order_and_streams() {
    let job = job(Language::Python, vec![case(7, "", "a", 1), case(9, "", "b", 2)], 5000);
    let outputs = vec![output(9, "b\n", "warn", 3, false, false), output(7, "x", "", 4, false, false)];
    let result = evaluate(&job, outputs);
    assert_eq!(result.results[0].test_id, 9);
    assert_eq!(result.results[0].stdout, "b\n");
    assert_eq!(result.results[0].stderr, "warn");
    assert_eq!(result.results[0].execution_time_ms, 3);
    assert_eq!(result.results[1].test_id, 7);
    assert_eq!(result.score, 2);
    assert_eq!(result.max_score, 3);
    assert_eq!(result.overall_status, JobStatus::Completed);
}

#[test]
fn unexecuted_tests_count_in_max_score_only() {
    let job = job(Language::Python, vec![case(1, "", "a", 4), case(2, "", "b", 6)], 5000);
    let result = evaluate(&job, vec![output(1, "a", "", 1, false, false)]);
    assert_eq!(result.score, 4);
    assert_eq!(result.max_score, 10);
    assert_eq!(result.results.len(), 1);
    let empty = evaluate(&job, vec![]);
    assert_eq!(empty.score, 0);
    assert_eq!(empty.overall_status, JobStatus::Failed);
}

#[test]
fn evaluation_is_deterministic() {
    let job = job(Language::Python, vec![case(1, "", "a", 4), case(2, "", "b", 6)], 5000);
    let outs = || vec![output(1, "a", "", 1, false, false), output(2, "c", "e", 2, false, false)];
    let a = evaluate(&job, outs());
    let b = evaluate(&job, outs());
    assert_eq!(a.score, b.score);
    assert_eq!(a.max_score, b.max_score);
    assert_eq!(a.overall_status, b.overall_status);
    for (x, y) in a.results.iter().zip(b.results.iter()) {
        assert_eq!(x.status, y.status);
        assert_eq!(x.stdout, y.stdout);
    }
}
