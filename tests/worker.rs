use optimus::engine::{finished_run, timed_out_run};
use optimus::evaluator::TestExecutionOutput;
use optimus::registry::{LanguageEntry, LanguageRegistry};
use optimus::types::{
    ExecutionResult, JobMetadata, JobRequest, JobStatus, Language, TestCase, TestStatus,
};
use optimus::worker::{bind_worker, cancelled_before_start, Attempt, BindError, Next, Outcome};

fn case(id: u32, input: &str, expected: &str, weight: u32) -> TestCase {
    TestCase { id, input: input.to_string(), expected_output: expected.to_string(), weight }
}

fn job(language: Language, test_cases: Vec<TestCase>) -> JobRequest {
    JobRequest {
        id: 42,
        language,
        source_code: "print(input().strip())".to_string(),
        test_cases,
        timeout_ms: 5000,
        metadata: JobMetadata::default(),
    }
}

/// An engine that prints its input back, trimmed.
fn echo(tc: &TestCase) -> Result<TestExecutionOutput, String> {
    Ok(finished_run(tc.input.trim().to_string(), String::new(), Some(0), 1))
}

/// Runs a job through the worker's decisions; the flag reads as set once
/// `cancel_after` tests have run.
fn run_job(
    bound: Language,
    job: JobRequest,
    cancel_after: Option<usize>,
    engine: &dyn Fn(&TestCase) -> Result<TestExecutionOutput, String>,
) -> Outcome {
    let flag = |a: &Attempt| cancel_after.map_or(false, |n| a.outputs.len() >= n);
    let mut next = Attempt::accept(bound, job);
    loop {
        next = match next {
            Next::Probe(a) | Next::Begin(a) => {
                let f = flag(&a);
                a.on_control(f)
            }
            Next::Run(a, i) => match engine(&a.job.test_cases[i]) {
                Ok(out) => a.on_output(out),
                Err(e) => a.on_engine_error(&e),
            },
            Next::Done(o) => return o,
        };
    }
}

fn stored(o: Outcome) -> ExecutionResult {
    match o {
        Outcome::Store(r) => r,
        _ => panic!("expected a stored result"),
    }
}

fn statuses(r: &ExecutionResult) -> Vec<TestStatus> {
    r.results.iter().map(|t| t.status).collect()
}

#[test]
fn scenario_all_pass() {
    let j = job(Language::Python, vec![case(1, "hello", "hello", 10), case(2, "world", "world", 15)]);
    let r = stored(run_job(Language::Python, j, None, &echo));
    assert_eq!(r.overall_status, JobStatus::Completed);
    assert_eq!(r.score, 25);
    assert_eq!(r.max_score, 25);
    assert_eq!(statuses(&r), vec![TestStatus::Passed, TestStatus::Passed]);
    assert_eq!(r.job_id, 42);
}

#[test]
fn scenario_partial_pass() {
    let j = job(Language::Python, vec![case(1, "hello", "hello", 10), case(2, "world", "different", 15)]);
    let r = stored(run_job(Language::Python, j, None, &echo));
    assert_eq!(r.overall_status, JobStatus::Completed);
    assert_eq!(r.score, 10);
    assert_eq!(r.max_score, 25);
    assert_eq!(statuses(&r), vec![TestStatus::Passed, TestStatus::Failed]);
}

#[test]
fn scenario_all_fail() {
    let j = job(Language::Python, vec![case(1, "hello", "bye", 10), case(2, "world", "moon", 15)]);
    let r = stored(run_job(Language::Python, j, None, &echo));
    assert_eq!(r.overall_status, JobStatus::Failed);
    assert_eq!(r.score, 0);
    assert_eq!(r.max_score, 25);
}

#[test]
fn scenario_timeout() {
    let j = job(Language::Python, vec![case(1, "hello", "hello", 10)]);
    let engine = |_: &TestCase| Ok(timed_out_run(5000));
    let r = stored(run_job(Language::Python, j, None, &engine));
    assert_eq!(statuses(&r), vec![TestStatus::TimeLimitExceeded]);
    assert_eq!(r.overall_status, JobStatus::Failed);
    assert_eq!(r.score, 0);
}

#[test]
fn scenario_runtime_error() {
    let j = job(Language::Python, vec![case(1, "hello", "hello", 10)]);
    let engine = |tc: &TestCase| Ok(finished_run(tc.input.clone(), String::new(), Some(1), 3));
    let r = stored(run_job(Language::Python, j, None, &engine));
    assert_eq!(statuses(&r), vec![TestStatus::RuntimeError]);
    assert_eq!(r.overall_status, JobStatus::Failed);
    assert_eq!(r.score, 0);
}

#[test]
fn scenario_cancellation_mid_job() {
    let j = job(
        Language::Python,
        vec![case(1, "a", "a", 10), case(2, "b", "b", 20), case(3, "c", "c", 30)],
    );
    let r = stored(run_job(Language::Python, j, Some(1), &echo));
    assert_eq!(r.overall_status, JobStatus::Cancelled);
    assert_eq!(r.results.len(), 1);
    assert_eq!(r.results[0].test_id, 1);
    assert_eq!(r.score, 10);
    assert_eq!(r.max_score, 60);
}

#[test]
fn cancellation_mid_job_after_a_failed_test_scores_nothing() {
    let j = job(
        Language::Python,
        vec![case(1, "a", "x", 10), case(2, "b", "b", 20), case(3, "c", "c", 30)],
    );
    let r = stored(run_job(Language::Python, j, Some(1), &echo));
    assert_eq!(r.overall_status, JobStatus::Cancelled);
    assert_eq!(r.results.len(), 1);
    assert_eq!(r.score, 0);
    assert_eq!(r.max_score, 60);
}

#[test]
fn cancellation_before_start_stores_an_empty_result() {
    let j = job(Language::Python, vec![case(1, "a", "a", 10), case(2, "b", "b", 5)]);
    let r = stored(run_job(Language::Python, j, Some(0), &echo));
    assert_eq!(r.overall_status, JobStatus::Cancelled);
    assert_eq!(r.score, 0);
    assert_eq!(r.max_score, 15);
    assert!(r.results.is_empty());
    let direct = cancelled_before_start(&job(Language::Python, vec![case(1, "a", "a", 7)]));
    assert_eq!(direct.overall_status, JobStatus::Cancelled);
    assert_eq!(direct.max_score, 7);
    assert!(direct.results.is_empty());
}

#[test]
fn cancellation_takes_two_probes_before_the_first_test() {
    let j = job(Language::Python, vec![case(1, "a", "a", 10)]);
    let a = match Attempt::accept(Language::Python, j) {
        Next::Probe(a) => a,
        _ => panic!("expected a probe"),
    };
    let a = match a.on_control(false) {
        Next::Begin(a) => a,
        _ => panic!("expected a permit to be acquired"),
    };
    match a.on_control(false) {
        Next::Run(_, i) => assert_eq!(i, 0),
        _ => panic!("expected the first test to run"),
    }
}

#[test]
fn engine_errors_retry_then_dead_letter() {
    let failing = |_: &TestCase| Err("daemon unreachable".to_string());
    let j = job(Language::Python, vec![case(1, "a", "a", 10), case(2, "b", "b", 5)]);
    match run_job(Language::Python, j, None, &failing) {
        Outcome::Retry(j) => {
            assert_eq!(j.metadata.attempts, 1);
            assert_eq!(
                j.metadata.last_failure_reason.as_deref(),
                Some("Execution error: daemon unreachable")
            );
            assert_eq!(j.test_cases.len(), 2);
        }
        _ => panic!("expected a retry"),
    }
    let mut j = job(Language::Python, vec![case(1, "a", "a", 10), case(2, "b", "b", 5)]);
    j.metadata.attempts = 2;
    match run_job(Language::Python, j, None, &failing) {
        Outcome::DeadLetter(j, Some(r)) => {
            assert_eq!(j.metadata.attempts, 3);
            assert_eq!(r.overall_status, JobStatus::Failed);
            assert_eq!(r.score, 0);
            assert_eq!(r.max_score, 15);
            assert!(r.results.is_empty());
        }
        _ => panic!("expected the dead-letter queue"),
    }
}

#[test]
fn misrouted_and_malformed_jobs_are_dead_lettered() {
    let j = job(Language::Java, vec![case(1, "a", "a", 10)]);
    match Attempt::accept(Language::Python, j) {
        Next::Done(Outcome::DeadLetter(j, None)) => {
            assert_eq!(j.metadata.last_failure_reason.as_deref(), Some("routing error"));
            assert_eq!(j.metadata.attempts, 0);
        }
        _ => panic!("expected the dead-letter queue"),
    }
    let j = job(Language::Python, vec![case(1, "a", "a", 10), case(1, "b", "b", 10)]);
    match Attempt::accept(Language::Python, j) {
        Next::Done(Outcome::DeadLetter(j, None)) => {
            assert_eq!(j.metadata.last_failure_reason.as_deref(), Some("malformed job"));
        }
        _ => panic!("expected the dead-letter queue"),
    }
    let j = job(Language::Python, vec![case(1, "a", "a", u32::MAX), case(2, "b", "b", 1)]);
    assert!(matches!(Attempt::accept(Language::Python, j), Next::Done(Outcome::DeadLetter(_, None))));
}

#[test]
fn a_job_without_tests_fails_with_nothing_scored() {
    let j = job(Language::Rust, vec![]);
    let r = stored(run_job(Language::Rust, j, None, &echo));
    assert_eq!(r.overall_status, JobStatus::Failed);
    assert_eq!(r.max_score, 0);
}

fn entry(language: Language, image: &str, queue: &str) -> LanguageEntry {
    LanguageEntry {
        language,
        image: image.to_string(),
        memory_limit_mb: 256,
        cpu_millis: 500,
        queue_name: queue.to_string(),
    }
}

fn registry() -> LanguageRegistry {
    LanguageRegistry::new(vec![
        entry(Language::Python, "optimus-python:3.11", "optimus:queue:python"),
        entry(Language::Java, "optimus-java:17", "optimus:queue:java"),
    ])
    .unwrap()
}

#[test]
fn worker_binding_checks_language_queue_and_image() {
    let reg = registry();
    assert_eq!(
        bind_worker(&reg, "Python", "optimus:queue:python", "optimus-python:3.11"),
        Ok(Language::Python)
    );
    assert_eq!(
        bind_worker(&reg, "python", "optimus:queue:python", "optimus-python:3.12"),
        Err(BindError::ImageMismatch)
    );
    assert_eq!(
        bind_worker(&reg, "python", "optimus:queue:java", "optimus-python:3.11"),
        Err(BindError::QueueMismatch)
    );
    assert_eq!(bind_worker(&reg, "rust", "optimus:queue:rust", "x"), Err(BindError::NotConfigured));
    assert_eq!(bind_worker(&reg, "cobol", "q", "i"), Err(BindError::InvalidLanguage));
}
