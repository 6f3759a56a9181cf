//! The front-end's decisions: which submissions are accepted and how they
//! become jobs, what a status query, a cancellation, a diagnostic query or a
//! health probe answers, and what a completion announcement holds.
use vstd::prelude::*;
use vstd::string::*;
use crate::evaluator::{job_well_formed, total_weight};
use crate::ids::{job_id_text, new_job_id, uuid_text};
use crate::text::{blank, byte_len, concat, decimal, is_blank, utf8_len};
use crate::types::{
    ExecutionResult, JobMetadata, JobRequest, JobStatus, Language, TestCase, TestResult,
};

verus! {

pub const MAX_TEST_CASES: usize = 100;

pub const MAX_SOURCE_CODE_SIZE: usize = 100000;

pub const MAX_INPUT_SIZE: usize = 10000;

pub const MAX_EXPECTED_OUTPUT_SIZE: usize = 10000;

pub const MAX_TIMEOUT_MS: u64 = 60000;

/// A submission as the client sends it.
#[derive(Clone, Debug)]
pub struct SubmitRequest {
    pub language: Language,
    pub source_code: String,
    pub test_cases: Vec<TestCaseInput>,
    pub timeout_ms: u64,
}

/// A test as the client sends it; identifiers are assigned on acceptance.
#[derive(Clone, Debug)]
pub struct TestCaseInput {
    pub input: String,
    pub expected_output: String,
    pub weight: u32,
}

/// The per-test timeout when the client gives none.
pub fn default_timeout() -> (r: u64)
    ensures
        r == 5000,
{
    5000
}

/// The weight of a test when the client gives none.
pub fn default_weight() -> (r: u32)
    ensures
        r == 10,
{
    10
}

#[derive(Clone, Debug)]
pub struct SubmitResponse {
    pub job_id: String,
}

#[derive(Clone, Debug)]
pub struct ErrorResponse {
    pub error: String,
    pub details: Option<String>,
}

/// Why a submission was turned down; the index is that of the offending test.
#[derive(Clone, Copy, Debug, PartialEq, Eq, Structural)]
pub enum Rejection {
    NoTestCases,
    TooManyTestCases,
    SourceTooLarge,
    EmptySource,
    InputTooLarge(usize),
    OutputTooLarge(usize),
    InvalidTimeout,
}

pub open spec fn case_problem(c: TestCaseInput, i: int) -> Option<Rejection> {
    if byte_len(c.input@) > MAX_INPUT_SIZE {
        Some(Rejection::InputTooLarge(i as usize))
    } else if byte_len(c.expected_output@) > MAX_EXPECTED_OUTPUT_SIZE {
        Some(Rejection::OutputTooLarge(i as usize))
    } else {
        None
    }
}

/// The problem of the first test, from position `from` on, that has one.
pub open spec fn first_case_problem(cases: Seq<TestCaseInput>, from: int) -> Option<Rejection>
    decreases cases.len() - from,
{
    if from < 0 || from >= cases.len() {
        None
    } else if case_problem(cases[from], from) is Some {
        case_problem(cases[from], from)
    } else {
        first_case_problem(cases, from + 1)
    }
}

/// The checks of a submission, in the order in which they are made.
pub open spec fn submission_problem(req: SubmitRequest) -> Option<Rejection> {
    if req.test_cases@.len() == 0 {
        Some(Rejection::NoTestCases)
    } else if req.test_cases@.len() > MAX_TEST_CASES {
        Some(Rejection::TooManyTestCases)
    } else if byte_len(req.source_code@) > MAX_SOURCE_CODE_SIZE {
        Some(Rejection::SourceTooLarge)
    } else if is_blank(req.source_code@) {
        Some(Rejection::EmptySource)
    } else if first_case_problem(req.test_cases@, 0) is Some {
        first_case_problem(req.test_cases@, 0)
    } else if req.timeout_ms == 0 || req.timeout_ms > MAX_TIMEOUT_MS {
        Some(Rejection::InvalidTimeout)
    } else {
        None
    }
}

/// The job made of an accepted submission: tests numbered from 1 in the order
/// given, fresh retry bookkeeping.
pub open spec fn job_from(req: SubmitRequest, job_id: u128, job: JobRequest) -> bool {
    &&& job.id == job_id
    &&& job.language == req.language
    &&& job.source_code == req.source_code
    &&& job.timeout_ms == req.timeout_ms
    &&& job.metadata.attempts == 0
    &&& job.metadata.max_attempts == 3
    &&& job.metadata.last_failure_reason is None
    &&& job.test_cases@.len() == req.test_cases@.len()
    &&& forall|i: int|
        0 <= i < job.test_cases@.len() ==> {
            &&& (#[trigger] job.test_cases@[i]).id == i + 1
            &&& job.test_cases@[i].input == req.test_cases@[i].input
            &&& job.test_cases@[i].expected_output == req.test_cases@[i].expected_output
            &&& job.test_cases@[i].weight == req.test_cases@[i].weight
        }
}

impl Rejection {
    pub open spec fn tag(self) -> Seq<char> {
        match self {
            Rejection::NoTestCases => "no_test_cases"@,
            Rejection::TooManyTestCases => "too_many_test_cases"@,
            Rejection::SourceTooLarge => "source_code_too_large"@,
            Rejection::EmptySource => "empty_source_code"@,
            Rejection::InputTooLarge(_) => "test_case_input_too_large"@,
            Rejection::OutputTooLarge(_) => "test_case_output_too_large"@,
            Rejection::InvalidTimeout => "invalid_timeout"@,
        }
    }

    pub open spec fn title(self) -> Seq<char> {
        match self {
            Rejection::NoTestCases => "Invalid request"@,
            Rejection::TooManyTestCases => "Too many test cases"@,
            Rejection::SourceTooLarge => "Source code too large"@,
            Rejection::EmptySource => "Invalid request"@,
            Rejection::InputTooLarge(_) => "Test case input too large"@,
            Rejection::OutputTooLarge(_) => "Test case expected output too large"@,
            Rejection::InvalidTimeout => "Invalid timeout"@,
        }
    }

    /// The reason under which the rejection is counted.
    pub fn reason_tag(&self) -> (r: &'static str)
        ensures
            r@ == self.tag(),
    {
        match self {
            Rejection::NoTestCases => "no_test_cases",
            Rejection::TooManyTestCases => "too_many_test_cases",
            Rejection::SourceTooLarge => "source_code_too_large",
            Rejection::EmptySource => "empty_source_code",
            Rejection::InputTooLarge(_) => "test_case_input_too_large",
            Rejection::OutputTooLarge(_) => "test_case_output_too_large",
            Rejection::InvalidTimeout => "invalid_timeout",
        }
    }

    /// Every rejection is a client error.
    pub fn status_code(&self) -> (r: u16)
        ensures
            r == 400,
    {
        400
    }

    /// The body sent back with a rejection: its title, and details that
    /// name the limit (and the offending test, counted from 1).
    pub fn error_response(&self) -> (r: ErrorResponse)
        ensures
            r.error@ == self.title(),
            r.details is Some,
    {
        match self {
            Rejection::NoTestCases => ErrorResponse {
                error: String::from_str("Invalid request"),
                details: Some(String::from_str("At least one test case is required")),
            },
            Rejection::TooManyTestCases => ErrorResponse {
                error: String::from_str("Too many test cases"),
                details: Some(
                    concat(
                        concat("Maximum ", decimal(MAX_TEST_CASES as u64).as_str()).as_str(),
                        " test cases allowed",
                    ),
                ),
            },
            Rejection::SourceTooLarge => ErrorResponse {
                error: String::from_str("Source code too large"),
                details: Some(
                    concat(
                        concat("Maximum ", decimal(MAX_SOURCE_CODE_SIZE as u64).as_str()).as_str(),
                        " bytes allowed",
                    ),
                ),
            },
            Rejection::EmptySource => ErrorResponse {
                error: String::from_str("Invalid request"),
                details: Some(String::from_str("Source code cannot be empty")),
            },
            Rejection::InputTooLarge(i) => ErrorResponse {
                error: String::from_str("Test case input too large"),
                details: Some(test_case_detail(*i, " input exceeds ", MAX_INPUT_SIZE)),
            },
            Rejection::OutputTooLarge(i) => ErrorResponse {
                error: String::from_str("Test case expected output too large"),
                details: Some(test_case_detail(*i, " expected output exceeds ", MAX_EXPECTED_OUTPUT_SIZE)),
            },
            Rejection::InvalidTimeout => ErrorResponse {
                error: String::from_str("Invalid timeout"),
                details: Some(String::from_str("Timeout must be between 1ms and 60000ms")),
            },
        }
    }
}

/// "Test case <i + 1><what><limit> bytes".
fn test_case_detail(i: usize, what: &str, limit: usize) -> (r: String) {
    let number = if i < u64::MAX as usize {
        decimal(i as u64 + 1)
    } else {
        decimal(i as u64)
    };
    let mut s = concat("Test case ", number.as_str());
    s.append(what);
    s.append(decimal(limit as u64).as_str());
    s.append(" bytes");
    s
}

/// The first test with an oversized input or expected output.
fn check_cases(cases: &Vec<TestCaseInput>) -> (r: Option<Rejection>)
    ensures
        r == first_case_problem(cases@, 0),
{
    let mut i: usize = 0;
    while i < cases.len()
        invariant
            i <= cases.len(),
            first_case_problem(cases@, 0) == first_case_problem(cases@, i as int),
        decreases cases.len() - i,
    {
        if utf8_len(cases[i].input.as_str()) > MAX_INPUT_SIZE {
            return Some(Rejection::InputTooLarge(i));
        }
        if utf8_len(cases[i].expected_output.as_str()) > MAX_EXPECTED_OUTPUT_SIZE {
            return Some(Rejection::OutputTooLarge(i));
        }
        i = i + 1;
    }
    None
}

/// Checks a submission: at least one and at most 100 tests, a source of at most
/// 100 000 bytes that is not blank, inputs and expected outputs of at most
/// 10 000 bytes each, and a timeout from 1 to 60 000 ms, in that order.
pub fn validate_submission(req: &SubmitRequest) -> (r: Option<Rejection>)
    ensures
        r == submission_problem(*req),
{
    if req.test_cases.len() == 0 {
        return Some(Rejection::NoTestCases);
    }
    if req.test_cases.len() > MAX_TEST_CASES {
        return Some(Rejection::TooManyTestCases);
    }
    if utf8_len(req.source_code.as_str()) > MAX_SOURCE_CODE_SIZE {
        return Some(Rejection::SourceTooLarge);
    }
    if blank(req.source_code.as_str()) {
        return Some(Rejection::EmptySource);
    }
    match check_cases(&req.test_cases) {
        Some(p) => {
            return Some(p);
        },
        None => {},
    }
    if req.timeout_ms == 0 || req.timeout_ms > MAX_TIMEOUT_MS {
        return Some(Rejection::InvalidTimeout);
    }
    None
}

/// Turns a valid submission into a job under the given identifier, or says
/// why it is rejected.
pub fn accept_submission(req: SubmitRequest, job_id: u128) -> (r: Result<JobRequest, Rejection>)
    ensures
        submission_problem(req) matches Some(p) ==> r == Err::<JobRequest, Rejection>(p),
        submission_problem(req) is None ==> (r matches Ok(job) && job_from(req, job_id, job)),
{
    match validate_submission(&req) {
        Some(p) => {
            return Err(p);
        },
        None => {},
    }
    let mut test_cases: Vec<TestCase> = Vec::new();
    for i in 0..req.test_cases.len()
        invariant
            req.test_cases@.len() <= MAX_TEST_CASES,
            test_cases@.len() == i,
            forall|k: int|
                0 <= k < i ==> {
                    &&& (#[trigger] test_cases@[k]).id == k + 1
                    &&& test_cases@[k].input == req.test_cases@[k].input
                    &&& test_cases@[k].expected_output == req.test_cases@[k].expected_output
                    &&& test_cases@[k].weight == req.test_cases@[k].weight
                },
    {
        let tc = &req.test_cases[i];
        test_cases.push(
            TestCase {
                id: (i + 1) as u32,
                input: tc.input.clone(),
                expected_output: tc.expected_output.clone(),
                weight: tc.weight,
            },
        );
    }
    let job = JobRequest {
        id: job_id,
        language: req.language,
        source_code: req.source_code,
        test_cases,
        timeout_ms: req.timeout_ms,
        metadata: JobMetadata::default(),
    };
    Ok(job)
}

/// A job made of an accepted submission has distinct test identifiers, so the
/// worker takes it for execution whenever its weights sum to a `u32`.
pub proof fn lemma_accepted_jobs_are_well_formed(req: SubmitRequest, job_id: u128, job: JobRequest)
    requires
        job_from(req, job_id, job),
        total_weight(job.test_cases@) <= u32::MAX,
    ensures
        job_well_formed(job),
{
    assert forall|a: int, b: int| 0 <= a < b < job.test_cases@.len() implies job.test_cases@[a].id
        != job.test_cases@[b].id by {
        assert(job.test_cases@[a].id == a + 1);
        assert(job.test_cases@[b].id == b + 1);
    }
}

/// Accepts a submission under a fresh identifier, or says why it is rejected.
pub fn submit_job(req: SubmitRequest) -> (r: Result<JobRequest, Rejection>)
    ensures
        submission_problem(req) matches Some(p) ==> r == Err::<JobRequest, Rejection>(p),
        submission_problem(req) is None ==> (r matches Ok(job) && job_from(req, job.id, job)),
{
    let id = new_job_id();
    accept_submission(req, id)
}

/// The body sent back when a job is accepted.
pub fn submit_response(job: &JobRequest) -> (r: SubmitResponse)
    ensures
        r.job_id@ == uuid_text(job.id),
{
    SubmitResponse { job_id: job_id_text(job.id) }
}

/// What a result query answers.
pub enum JobLookup {
    /// The stored result (200).
    Ready(ExecutionResult),
    /// Nothing stored yet: the job is queued or running (202).
    Pending,
}

impl JobLookup {
    pub fn status_code(&self) -> (r: u16)
        ensures
            self is Ready ==> r == 200,
            self is Pending ==> r == 202,
    {
        match self {
            JobLookup::Ready(_) => 200,
            JobLookup::Pending => 202,
        }
    }
}

/// The answer to a result query, from what the result key holds.
pub fn get_job_result(stored: Option<ExecutionResult>) -> (r: JobLookup)
    ensures
        stored is None ==> r is Pending,
        stored matches Some(res) ==> (r matches JobLookup::Ready(x) && x == res),
{
    match stored {
        Some(res) => JobLookup::Ready(res),
        None => JobLookup::Pending,
    }
}

#[derive(Clone, Debug)]
pub struct CancelResponse {
    pub job_id: String,
    pub status: String,
    pub message: String,
}

/// What a cancellation request leads to.
pub enum CancelDecision {
    /// The job already ended (409); nothing is written.
    Conflict(CancelResponse),
    /// Set the job's cancellation flag, then answer with this (200).
    SetFlag(CancelResponse),
}

impl CancelDecision {
    pub fn status_code(&self) -> (r: u16)
        ensures
            self is Conflict ==> r == 409,
            self is SetFlag ==> r == 200,
    {
        match self {
            CancelDecision::Conflict(_) => 409,
            CancelDecision::SetFlag(_) => 200,
        }
    }
}

/// Decides a cancellation from the status of the stored result, if any: a job
/// whose stored result is terminal cannot be cancelled; any other gets its
/// flag set, however often it is asked.
pub fn cancel_job(job_id: &str, stored: Option<JobStatus>) -> (r: CancelDecision)
    ensures
        (stored matches Some(s) && s.terminal()) ==> (r matches CancelDecision::Conflict(b)
            && b.job_id@ == job_id@ && b.status@ == stored->0.tag()),
        !(stored matches Some(s) && s.terminal()) ==> (r matches CancelDecision::SetFlag(b)
            && b.job_id@ == job_id@ && b.status@ == "cancelling"@),
{
    match stored {
        Some(s) => {
            if s.is_terminal() {
                let tag = s.as_str();
                return CancelDecision::Conflict(
                    CancelResponse {
                        job_id: String::from_str(job_id),
                        status: String::from_str(tag),
                        message: concat("Job has already finished with status: ", tag),
                    },
                );
            }
        },
        None => {},
    }
    CancelDecision::SetFlag(
        CancelResponse {
            job_id: String::from_str(job_id),
            status: String::from_str("cancelling"),
            message: String::from_str("Job cancellation requested. Worker will stop execution."),
        },
    )
}

/// Where a job stands, as the diagnostic query reports it.
#[derive(Clone, Debug)]
pub struct JobDebugInfo {
    pub job_id: String,
    pub status: String,
    pub attempts: u8,
    pub max_attempts: u8,
    pub last_failure_reason: Option<String>,
    pub in_main_queue: bool,
    pub in_retry_queue: bool,
    pub in_dlq: bool,
    pub result: Option<ExecutionResult>,
}

/// The jobs waiting in the three lanes of one language, in queue order.
#[derive(Clone, Debug)]
pub struct LaneContents {
    pub main: Vec<JobRequest>,
    pub retry: Vec<JobRequest>,
    pub dlq: Vec<JobRequest>,
}

pub open spec fn holds_job(lane: Seq<JobRequest>, id: u128) -> bool {
    exists|k: int| 0 <= k < lane.len() && lane[k].id == id
}

/// The main (0), retry (1) or dead-letter (2) lane of one language.
pub open spec fn lane_of(c: LaneContents, pick: int) -> Seq<JobRequest> {
    if pick == 0 {
        c.main@
    } else if pick == 1 {
        c.retry@
    } else {
        c.dlq@
    }
}

/// Some language has the job in the lane that `pick` selects.
pub open spec fn any_holds(lanes: Seq<LaneContents>, id: u128, pick: int) -> bool {
    exists|l: int| 0 <= l < lanes.len() && holds_job(lane_of(lanes[l], pick), id)
}

/// `(l, k)` is the first copy of the job in the selected lanes: the first
/// language holding it, and the first position in that language's lane.
pub open spec fn first_at(lanes: Seq<LaneContents>, id: u128, pick: int, l: int, k: int) -> bool {
    &&& 0 <= l < lanes.len()
    &&& 0 <= k < lane_of(lanes[l], pick).len()
    &&& lane_of(lanes[l], pick)[k].id == id
    &&& forall|x: int| 0 <= x < l ==> !holds_job(lane_of(lanes[x], pick), id)
    &&& forall|j: int| 0 <= j < k ==> lane_of(lanes[l], pick)[j].id != id
}

/// The first copy of the job in the selected lanes.
pub open spec fn first_copy(lanes: Seq<LaneContents>, id: u128, pick: int) -> JobRequest {
    let (l, k) = choose|l: int, k: int| first_at(lanes, id, pick, l, k);
    lane_of(lanes[l], pick)[k]
}

proof fn lemma_first_copy(lanes: Seq<LaneContents>, id: u128, pick: int, l: int, k: int)
    requires
        first_at(lanes, id, pick, l, k),
    ensures
        first_copy(lanes, id, pick) == lane_of(lanes[l], pick)[k],
{
    let (l2, k2) = choose|l2: int, k2: int| first_at(lanes, id, pick, l2, k2);
    assert(first_at(lanes, id, pick, l2, k2));
    if l2 < l {
        assert(holds_job(lane_of(lanes[l2], pick), id));
    }
    if l < l2 {
        assert(holds_job(lane_of(lanes[l], pick), id));
    }
    assert(l == l2);
    if k2 < k {
        assert(lane_of(lanes[l], pick)[k2].id == id);
    }
    if k < k2 {
        assert(lane_of(lanes[l], pick)[k].id == id);
    }
}

/// The metadata `m` is that of `job`.
pub open spec fn same_metadata(m: JobMetadata, job: JobRequest) -> bool {
    &&& m.attempts == job.metadata.attempts
    &&& m.max_attempts == job.metadata.max_attempts
    &&& m.last_failure_reason == job.metadata.last_failure_reason
}

/// The diagnostic status: a stored result first, then the dead-letter, retry
/// and main lanes.
pub open spec fn debug_status(has_result: bool, in_main: bool, in_retry: bool, in_dlq: bool) -> Seq<
    char,
> {
    if has_result {
        "completed"@
    } else if in_dlq {
        "dead_letter_queue"@
    } else if in_retry {
        "retrying"@
    } else if in_main {
        "queued"@
    } else {
        "unknown"@
    }
}

fn lane_find(lane: &Vec<JobRequest>, id: u128) -> (r: Option<usize>)
    ensures
        r is None <==> !holds_job(lane@, id),
        r matches Some(k) ==> k < lane@.len() && lane@[k as int].id == id && (forall|j: int|
            0 <= j < k ==> lane@[j].id != id),
{
    for k in 0..lane.len()
        invariant
            forall|j: int| 0 <= j < k ==> lane@[j].id != id,
    {
        if lane[k].id == id {
            return Some(k);
        }
    }
    None
}

fn copy_metadata(m: &JobMetadata) -> (r: JobMetadata)
    ensures
        r.attempts == m.attempts,
        r.max_attempts == m.max_attempts,
        r.last_failure_reason == m.last_failure_reason,
{
    let reason = match &m.last_failure_reason {
        Some(s) => Some(s.clone()),
        None => None,
    };
    JobMetadata { attempts: m.attempts, max_attempts: m.max_attempts, last_failure_reason: reason }
}

/// Looks for the job in the lane that `pick` selects, in every language: the
/// metadata of the first copy, if any.
fn find_in_lanes(lanes: &Vec<LaneContents>, id: u128, pick: u8) -> (r: Option<JobMetadata>)
    requires
        pick <= 2,
    ensures
        (r is Some) == any_holds(lanes@, id, pick as int),
        r matches Some(m) ==> same_metadata(m, first_copy(lanes@, id, pick as int)),
{
    for l in 0..lanes.len()
        invariant
            pick <= 2,
            forall|x: int| 0 <= x < l ==> !holds_job(lane_of(lanes@[x], pick as int), id),
    {
        let c = &lanes[l];
        let lane = if pick == 0 {
            &c.main
        } else if pick == 1 {
            &c.retry
        } else {
            &c.dlq
        };
        assert(lane@ == lane_of(lanes@[l as int], pick as int));
        match lane_find(lane, id) {
            Some(k) => {
                proof {
                    lemma_first_copy(lanes@, id, pick as int, l as int, k as int);
                }
                return Some(copy_metadata(&lane[k].metadata));
            },
            None => {},
        }
    }
    None
}

/// Assembles the diagnostic record of a job from its stored result and the
/// contents of every language's lanes. The retry bookkeeping is that of the
/// first copy found in a dead-letter lane, else in a retry lane, else in a main
/// lane; with no copy, no attempts out of 3.
pub fn get_job_debug(job_id: &str, id: u128, result: Option<ExecutionResult>, lanes: &Vec<LaneContents>) -> (r: JobDebugInfo)
    ensures
        r.job_id@ == job_id@,
        r.in_main_queue == any_holds(lanes@, id, 0),
        r.in_retry_queue == any_holds(lanes@, id, 1),
        r.in_dlq == any_holds(lanes@, id, 2),
        r.status@ == debug_status(result is Some, r.in_main_queue, r.in_retry_queue, r.in_dlq),
        r.result == result,
        r.in_dlq ==> same_metadata(
            JobMetadata { attempts: r.attempts, max_attempts: r.max_attempts, last_failure_reason: r.last_failure_reason },
            first_copy(lanes@, id, 2),
        ),
        !r.in_dlq && r.in_retry_queue ==> same_metadata(
            JobMetadata { attempts: r.attempts, max_attempts: r.max_attempts, last_failure_reason: r.last_failure_reason },
            first_copy(lanes@, id, 1),
        ),
        !r.in_dlq && !r.in_retry_queue && r.in_main_queue ==> same_metadata(
            JobMetadata { attempts: r.attempts, max_attempts: r.max_attempts, last_failure_reason: r.last_failure_reason },
            first_copy(lanes@, id, 0),
        ),
        !r.in_main_queue && !r.in_retry_queue && !r.in_dlq ==> r.attempts == 0 && r.max_attempts == 3
            && r.last_failure_reason is None,
{
    let main_meta = find_in_lanes(lanes, id, 0);
    let retry_meta = find_in_lanes(lanes, id, 1);
    let dlq_meta = find_in_lanes(lanes, id, 2);
    let in_main_queue = main_meta.is_some();
    let in_retry_queue = retry_meta.is_some();
    let in_dlq = dlq_meta.is_some();
    let meta = match dlq_meta {
        Some(m) => m,
        None => match retry_meta {
            Some(m) => m,
            None => match main_meta {
                Some(m) => m,
                None => JobMetadata::default(),
            },
        },
    };
    let status = if result.is_some() {
        "completed"
    } else if in_dlq {
        "dead_letter_queue"
    } else if in_retry_queue {
        "retrying"
    } else if in_main_queue {
        "queued"
    } else {
        "unknown"
    };
    JobDebugInfo {
        job_id: String::from_str(job_id),
        status: String::from_str(status),
        attempts: meta.attempts,
        max_attempts: meta.max_attempts,
        last_failure_reason: meta.last_failure_reason,
        in_main_queue,
        in_retry_queue,
        in_dlq,
        result,
    }
}

#[derive(Clone, Debug)]
pub struct HealthResponse {
    pub status: String,
    pub uptime_seconds: u64,
    pub redis_connected: bool,
    pub timestamp: String,
}

/// Relies on chrono's `Utc::now` and `DateTime::to_rfc3339`: the current time
/// as text, of which nothing is promised.
#[verifier::external_body]
fn now_rfc3339() -> (r: String) {
    chrono::Utc::now().to_rfc3339()
}

/// The health answer: 200 and "healthy" when the store answered its ping,
/// 503 and "degraded" when it did not.
pub fn health_check(store_reachable: bool, uptime_seconds: u64) -> (r: (u16, HealthResponse))
    ensures
        r.0 == (if store_reachable { 200u16 } else { 503u16 }),
        r.1.status@ == (if store_reachable { "healthy"@ } else { "degraded"@ }),
        r.1.redis_connected == store_reachable,
        r.1.uptime_seconds == uptime_seconds,
{
    let status = if store_reachable {
        String::from_str("healthy")
    } else {
        String::from_str("degraded")
    };
    let code: u16 = if store_reachable {
        200
    } else {
        503
    };
    (code, HealthResponse { status, uptime_seconds, redis_connected: store_reachable, timestamp: now_rfc3339() })
}

/// What is announced when a job's result has been stored.
#[derive(Clone, Debug)]
pub struct CompletionEvent {
    pub job_id: String,
    pub language: String,
    pub status: String,
    pub execution_time_ms: u64,
    pub timestamp: String,
}

/// The name of a status as announced on the completion channel.
pub open spec fn status_name(s: JobStatus) -> Seq<char> {
    match s {
        JobStatus::Queued => "Queued"@,
        JobStatus::Running => "Running"@,
        JobStatus::Completed => "Completed"@,
        JobStatus::Failed => "Failed"@,
        JobStatus::TimedOut => "TimedOut"@,
        JobStatus::Cancelled => "Cancelled"@,
    }
}

/// The sum of the run times of the results.
pub open spec fn total_time(results: Seq<TestResult>) -> nat
    decreases results.len(),
{
    if results.len() == 0 {
        0
    } else {
        total_time(results.drop_last()) + results.last().execution_time_ms as nat
    }
}

/// The completion announcement of a stored result: the job, its language, its
/// status, and the summed run time of its tests, held at `u64::MAX` should the
/// sum exceed it.
pub fn completion_event(result: &ExecutionResult, language: Language) -> (r: CompletionEvent)
    ensures
        r.job_id@ == uuid_text(result.job_id),
        r.language@ == language.tag(),
        r.status@ == status_name(result.overall_status),
        r.execution_time_ms == (if total_time(result.results@) <= u64::MAX {
            total_time(result.results@)
        } else {
            u64::MAX as nat
        }),
{
    let mut total: u64 = 0;
    let mut capped = false;
    for i in 0..result.results.len()
        invariant
            !capped ==> total == total_time(result.results@.take(i as int)),
            capped ==> total == u64::MAX && total_time(result.results@.take(i as int)) > u64::MAX,
    {
        assert(result.results@.take(i + 1).drop_last() =~= result.results@.take(i as int));
        let t = result.results[i].execution_time_ms;
        if capped || total > u64::MAX - t {
            capped = true;
            total = u64::MAX;
        } else {
            total = total + t;
        }
    }
    assert(result.results@.take(result.results@.len() as int) =~= result.results@);
    let status = match result.overall_status {
        JobStatus::Queued => "Queued",
        JobStatus::Running => "Running",
        JobStatus::Completed => "Completed",
        JobStatus::Failed => "Failed",
        JobStatus::TimedOut => "TimedOut",
        JobStatus::Cancelled => "Cancelled",
    };
    CompletionEvent {
        job_id: job_id_text(result.job_id),
        language: language.to_string(),
        status: String::from_str(status),
        execution_time_ms: total,
        timestamp: now_rfc3339(),
    }
}

} // verus!
