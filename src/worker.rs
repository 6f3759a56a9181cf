//! The worker's decisions. A worker is bound to one language at start-up; for
//! each job it pops, the state machine here says what to do next (probe the
//! cancellation flag, run a test, store a result, re-queue, dead-letter) and
//! the caller performs the action and reports back what happened.
use vstd::prelude::*;
use vstd::string::*;
use crate::evaluator::{
    evaluate, evaluation, job_well_formed, has_distinct_ids, checked_total_weight,
    outputs_match, total_weight, total_weight_of, has_case, TestExecutionOutput,
};
use crate::keys::queue_key;
use crate::registry::{entry_of, is_enabled, LanguageEntry, LanguageRegistry};
use crate::text::concat;
use crate::types::{
    language_of_tag, lowercase_of, ExecutionResult, ExecutionResultView, JobRequest, JobStatus,
    Language,
};

verus! {

#[derive(Clone, Copy, Debug, PartialEq, Eq, Structural)]
pub enum BindError {
    /// The language tag names no language.
    InvalidLanguage,
    /// The registry has no entry for the language.
    NotConfigured,
    /// The queue differs from the registry's queue for the language.
    QueueMismatch,
    /// The image differs from the registry's image for the language.
    ImageMismatch,
}

/// The outcome of the start-up check of a worker configured with a language
/// tag, a queue and an image.
pub open spec fn binding(
    entries: Seq<LanguageEntry>,
    tag: Seq<char>,
    queue: Seq<char>,
    image: Seq<char>,
) -> Result<Language, BindError> {
    match language_of_tag(lowercase_of(tag)) {
        None => Err(BindError::InvalidLanguage),
        Some(l) => if !is_enabled(entries, l) {
            Err(BindError::NotConfigured)
        } else if queue != queue_key(l) {
            Err(BindError::QueueMismatch)
        } else if image != entry_of(entries, l).image@ {
            Err(BindError::ImageMismatch)
        } else {
            Ok(l)
        },
    }
}

/// Binds a worker to its language: the tag must name a language that the
/// registry has, and the queue and the image must be the registry's for it.
pub fn bind_worker(registry: &LanguageRegistry, language_tag: &str, queue: &str, image: &str) -> (r:
    Result<Language, BindError>)
    requires
        registry.wf(),
    ensures
        r == binding(registry.entries(), language_tag@, queue@, image@),
{
    let language = match Language::from_str(language_tag) {
        Some(l) => l,
        None => return Err(BindError::InvalidLanguage),
    };
    let expected_queue = match registry.get_queue_name(&language) {
        Ok(q) => q,
        Err(_) => return Err(BindError::NotConfigured),
    };
    if String::from_str(queue) != expected_queue {
        return Err(BindError::QueueMismatch);
    }
    let expected_image = match registry.get_image(&language) {
        Ok(i) => i,
        Err(_) => return Err(BindError::NotConfigured),
    };
    if String::from_str(image) != expected_image {
        return Err(BindError::ImageMismatch);
    }
    Ok(language)
}

/// A worker bound through `bind_worker` consumes the very queue that the
/// front-end fills for its language.
pub proof fn lemma_bound_queue_is_canonical(
    entries: Seq<LanguageEntry>,
    tag: Seq<char>,
    queue: Seq<char>,
    image: Seq<char>,
    job_language: Language,
)
    requires
        binding(entries, tag, queue, image) == Ok::<Language, BindError>(job_language),
    ensures
        queue == queue_key(job_language),
{
}

/// What the worker does once a job's handling ends.
pub enum Outcome {
    /// Persist the result with its time-to-live, mirror its status, announce it.
    Store(ExecutionResult),
    /// Push the job to the retry queue.
    Retry(JobRequest),
    /// Push the job to the dead-letter queue, and persist the result if there is one.
    DeadLetter(JobRequest, Option<ExecutionResult>),
}

/// The next action for a job.
pub enum Next {
    /// Read the job's cancellation flag and report it with `on_control`.
    Probe(Attempt),
    /// Acquire an execution permit, then read the flag and report it with `on_control`.
    Begin(Attempt),
    /// Run the test at this index and report with `on_output` or `on_engine_error`.
    Run(Attempt, usize),
    /// The job's handling is over.
    Done(Outcome),
}

/// One attempt at a job: the outputs of the tests run so far, in order.
pub struct Attempt {
    pub job: JobRequest,
    pub outputs: Vec<TestExecutionOutput>,
    /// Whether the cancellation check before execution has passed.
    pub started: bool,
}

/// Each output stands for the test at its position.
pub open spec fn outputs_in_order(job: JobRequest, outs: Seq<TestExecutionOutput>) -> bool {
    &&& outs.len() <= job.test_cases@.len()
    &&& forall|i: int| 0 <= i < outs.len() ==> (#[trigger] outs[i]).test_id == job.test_cases@[i].id
}

/// The result of a job cancelled after `outs` ran: scored as usual, but cancelled.
pub open spec fn cancelled_view(job: JobRequest, outs: Seq<TestExecutionOutput>) -> ExecutionResultView {
    ExecutionResultView { overall_status: JobStatus::Cancelled, ..evaluation(job, outs) }
}

/// The result stored when a job runs out of attempts.
pub open spec fn exhausted_view(job: JobRequest) -> ExecutionResultView {
    ExecutionResultView {
        job_id: job.id,
        overall_status: JobStatus::Failed,
        score: 0,
        max_score: total_weight(job.test_cases@) as u32,
        results: Seq::empty(),
    }
}

/// `after` is `before` with only its metadata changed.
pub open spec fn same_work(before: JobRequest, after: JobRequest) -> bool {
    &&& after.id == before.id
    &&& after.language == before.language
    &&& after.source_code == before.source_code
    &&& after.test_cases == before.test_cases
    &&& after.timeout_ms == before.timeout_ms
    &&& after.metadata.max_attempts == before.metadata.max_attempts
}

/// The failure reason recorded on `job` is `m`.
pub open spec fn has_reason(job: JobRequest, m: Seq<char>) -> bool {
    job.metadata.last_failure_reason is Some && job.metadata.last_failure_reason->0@ == m
}

/// One more attempt, stopping at the largest count a `u8` holds.
pub open spec fn bumped(attempts: u8) -> u8 {
    if attempts < u8::MAX {
        (attempts + 1) as u8
    } else {
        u8::MAX
    }
}

proof fn lemma_in_order_matches(job: JobRequest, outs: Seq<TestExecutionOutput>)
    requires
        job_well_formed(job),
        outputs_in_order(job, outs),
    ensures
        outputs_match(job.test_cases@, outs),
{
    let cases = job.test_cases@;
    assert forall|i: int| 0 <= i < outs.len() implies has_case(cases, #[trigger] outs[i].test_id) by {
        assert(cases[i].id == outs[i].test_id);
    }
    assert forall|i: int, j: int| 0 <= i < j < outs.len() implies #[trigger] outs[i].test_id
        != #[trigger] outs[j].test_id by {
        assert(outs[i].test_id == cases[i].id);
        assert(outs[j].test_id == cases[j].id);
    }
}

/// The result of a job cancelled before it ran: nothing scored, every weight
/// still counted in the maximum, and no test results.
pub fn cancelled_before_start(job: &JobRequest) -> (r: ExecutionResult)
    requires
        job_well_formed(*job),
    ensures
        r@ == cancelled_view(*job, Seq::empty()),
        r.overall_status == JobStatus::Cancelled,
        r.score == 0,
        r.results@.len() == 0,
{
    let r = ExecutionResult {
        job_id: job.id,
        overall_status: JobStatus::Cancelled,
        score: 0,
        max_score: total_weight_of(&job.test_cases),
        results: Vec::new(),
    };
    assert(r@.results =~= evaluation(*job, Seq::empty()).results);
    r
}

/// A result stored for a cancelled job keeps the scoring of the tests that
/// ran, with the maximum over all tests; cancelled before any test ran, it
/// scores nothing and has no results.
pub proof fn lemma_cancelled_results(job: JobRequest, outs: Seq<TestExecutionOutput>)
    requires
        job_well_formed(job),
        outputs_in_order(job, outs),
    ensures
        cancelled_view(job, outs).overall_status == JobStatus::Cancelled,
        cancelled_view(job, outs).max_score == total_weight(job.test_cases@),
        cancelled_view(job, outs).score <= cancelled_view(job, outs).max_score,
        cancelled_view(job, outs).score == evaluation(job, outs).score,
        cancelled_view(job, Seq::empty()).score == 0,
        cancelled_view(job, Seq::empty()).results.len() == 0,
{
    lemma_in_order_matches(job, outs);
    crate::evaluator::lemma_scoring_invariants(job, outs);
    assert(outputs_in_order(job, Seq::empty()));
    lemma_in_order_matches(job, Seq::empty());
    crate::evaluator::lemma_scoring_invariants(job, Seq::empty());
}

impl Attempt {
    pub open spec fn wf(&self) -> bool {
        job_well_formed(self.job) && outputs_in_order(self.job, self.outputs@)
    }

    /// Takes a job popped from a queue. A job of another language, or one whose
    /// test identifiers repeat or whose weights overflow, goes to the dead-letter
    /// queue with its reason recorded; any other job proceeds to the
    /// cancellation check.
    pub fn accept(bound: Language, job: JobRequest) -> (r: Next)
        ensures
            job.language != bound ==> (r matches Next::Done(Outcome::DeadLetter(j, None)) && same_work(job, j)
                && j.metadata.attempts == job.metadata.attempts
                && has_reason(j, "routing error"@)),
            job.language == bound && !job_well_formed(job) ==> (r matches Next::Done(Outcome::DeadLetter(j, None))
                && same_work(job, j) && j.metadata.attempts == job.metadata.attempts
                && has_reason(j, "malformed job"@)),
            job.language == bound && job_well_formed(job) ==> (r matches Next::Probe(a) && a.job == job
                && a.outputs@.len() == 0 && !a.started && a.wf()),
    {
        let mut job = job;
        if job.language != bound {
            job.metadata.last_failure_reason = Some(String::from_str("routing error"));
            return Next::Done(Outcome::DeadLetter(job, None));
        }
        let distinct = has_distinct_ids(&job.test_cases);
        let total = checked_total_weight(&job.test_cases);
        if !distinct || total.is_none() {
            job.metadata.last_failure_reason = Some(String::from_str("malformed job"));
            return Next::Done(Outcome::DeadLetter(job, None));
        }
        Next::Probe(Attempt { job, outputs: Vec::new(), started: false })
    }

    /// The cancellation flag was read. Once cancelled, the job ends with the
    /// results gathered so far; otherwise the first check leads to acquiring a
    /// permit, and later checks to the next test, or to the score once all
    /// tests ran.
    pub fn on_control(self, cancelled: bool) -> (r: Next)
        requires
            self.wf(),
        ensures
            cancelled ==> (r matches Next::Done(Outcome::Store(res)) && res@ == cancelled_view(
                self.job,
                self.outputs@,
            )),
            !cancelled && !self.started ==> (r matches Next::Begin(a) && a.job == self.job
                && a.outputs@ == self.outputs@ && a.started && a.wf()),
            !cancelled && self.started && self.outputs@.len() < self.job.test_cases@.len() ==> (
            r matches Next::Run(a, i) && a.job == self.job && a.outputs@ == self.outputs@
                && a.started && a.wf() && i == self.outputs@.len()),
            !cancelled && self.started && self.outputs@.len() == self.job.test_cases@.len() ==> (
            r matches Next::Done(Outcome::Store(res)) && res@ == evaluation(self.job, self.outputs@)),
    {
        let Attempt { job, outputs, started } = self;
        proof {
            lemma_in_order_matches(job, outputs@);
        }
        if cancelled {
            let res = evaluate(&job, outputs);
            let r = ExecutionResult { overall_status: JobStatus::Cancelled, ..res };
            return Next::Done(Outcome::Store(r));
        }
        if !started {
            return Next::Begin(Attempt { job, outputs, started: true });
        }
        if outputs.len() < job.test_cases.len() {
            let i = outputs.len();
            return Next::Run(Attempt { job, outputs, started }, i);
        }
        let res = evaluate(&job, outputs);
        Next::Done(Outcome::Store(res))
    }

    /// The test that `Run` named finished with this output; it is recorded
    /// under that test's identifier. The job goes on to the next check, or is
    /// scored if that was its last test.
    pub fn on_output(self, out: TestExecutionOutput) -> (r: Next)
        requires
            self.wf(),
            self.started,
            self.outputs@.len() < self.job.test_cases@.len(),
        ensures
            ({
                let i = self.outputs@.len() as int;
                let rec = TestExecutionOutput { test_id: self.job.test_cases@[i].id, ..out };
                let outs = self.outputs@.push(rec);
                &&& outs.len() < self.job.test_cases@.len() ==> (r matches Next::Probe(a) && a.job
                    == self.job && a.outputs@ == outs && a.started && a.wf())
                &&& outs.len() == self.job.test_cases@.len() ==> (r matches Next::Done(
                    Outcome::Store(res),
                ) && res@ == evaluation(self.job, outs))
            }),
    {
        let Attempt { job, outputs, started } = self;
        let mut outputs = outputs;
        let mut out = out;
        let i = outputs.len();
        out.test_id = job.test_cases[i].id;
        outputs.push(out);
        if outputs.len() < job.test_cases.len() {
            Next::Probe(Attempt { job, outputs, started })
        } else {
            proof {
                lemma_in_order_matches(job, outputs@);
            }
            let res = evaluate(&job, outputs);
            Next::Done(Outcome::Store(res))
        }
    }

    /// The engine failed for reasons of its own (not the program's). The attempt
    /// is counted and its reason recorded; the job is re-queued while attempts
    /// remain, and otherwise dead-lettered with a failed result.
    pub fn on_engine_error(self, reason: &str) -> (r: Next)
        requires
            self.wf(),
        ensures
            ({
                let n = bumped(self.job.metadata.attempts);
                &&& n < self.job.metadata.max_attempts ==> (r matches Next::Done(Outcome::Retry(j))
                    && same_work(self.job, j) && j.metadata.attempts == n
                    && has_reason(j, "Execution error: "@ + reason@))
                &&& n >= self.job.metadata.max_attempts ==> (r matches Next::Done(
                    Outcome::DeadLetter(j, Some(res)),
                ) && same_work(self.job, j) && j.metadata.attempts == n
                    && has_reason(j, "Execution error: "@ + reason@) && res@ == exhausted_view(self.job))
            }),
    {
        let Attempt { job, outputs: _, started: _ } = self;
        let mut job = job;
        if job.metadata.attempts < u8::MAX {
            job.metadata.attempts = job.metadata.attempts + 1;
        }
        job.metadata.last_failure_reason = Some(concat("Execution error: ", reason));
        if job.metadata.attempts < job.metadata.max_attempts {
            Next::Done(Outcome::Retry(job))
        } else {
            let res = ExecutionResult {
                job_id: job.id,
                overall_status: JobStatus::Failed,
                score: 0,
                max_score: total_weight_of(&job.test_cases),
                results: Vec::new(),
            };
            assert(res@.results =~= Seq::<crate::types::TestResultView>::empty());
            Next::Done(Outcome::DeadLetter(job, Some(res)))
        }
    }
}

} // verus!
