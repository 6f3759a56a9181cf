//! The job schema: what is submitted, what a worker reads from a queue, and
//! what it writes back.
use vstd::prelude::*;
use vstd::string::*;

verus! {

/// The languages a job can be written in.
#[derive(Clone, Copy, Debug, PartialEq, Eq, Structural, Hash)]
pub enum Language {
    Python,
    Java,
    Rust,
}

/// The language whose lowercase tag is `t`, if any.
pub open spec fn language_of_tag(t: Seq<char>) -> Option<Language> {
    if t == "python"@ {
        Some(Language::Python)
    } else if t == "java"@ {
        Some(Language::Java)
    } else if t == "rust"@ {
        Some(Language::Rust)
    } else {
        None
    }
}

/// What `str::to_lowercase` makes of a text.
pub uninterp spec fn lowercase_of(s: Seq<char>) -> Seq<char>;

/// Relies on std's `str::to_lowercase`, whose result depends on the text alone.
#[verifier::external_body]
fn to_lowercase(s: &str) -> (r: String)
    ensures
        r@ == lowercase_of(s@),
{
    s.to_lowercase()
}

impl Language {
    /// The lowercase tag under which the language is written.
    pub open spec fn tag(self) -> Seq<char> {
        match self {
            Language::Python => "python"@,
            Language::Java => "java"@,
            Language::Rust => "rust"@,
        }
    }

    pub fn as_str(&self) -> (r: &'static str)
        ensures
            r@ == self.tag(),
    {
        match self {
            Language::Python => "python",
            Language::Java => "java",
            Language::Rust => "rust",
        }
    }

    pub fn to_string(&self) -> (r: String)
        ensures
            r@ == self.tag(),
    {
        String::from_str(self.as_str())
    }

    /// Every language, each once.
    pub fn all_variants() -> (r: Vec<Language>)
        ensures
            r@ == seq![Language::Python, Language::Java, Language::Rust],
    {
        vec![Language::Python, Language::Java, Language::Rust]
    }

    /// The language whose tag is exactly `t`.
    pub fn from_lowercase(t: &str) -> (r: Option<Language>)
        ensures
            r == language_of_tag(t@),
    {
        let s = String::from_str(t);
        if s == String::from_str("python") {
            Some(Language::Python)
        } else if s == String::from_str("java") {
            Some(Language::Java)
        } else if s == String::from_str("rust") {
            Some(Language::Rust)
        } else {
            None
        }
    }

    /// The language named by `s`, in any letter case.
    pub fn from_str(s: &str) -> (r: Option<Language>)
        ensures
            r == language_of_tag(lowercase_of(s@)),
    {
        let lower = to_lowercase(s);
        Language::from_lowercase(lower.as_str())
    }
}

/// Retry bookkeeping carried by a job.
#[derive(Clone, Debug)]
pub struct JobMetadata {
    pub attempts: u8,
    pub max_attempts: u8,
    pub last_failure_reason: Option<String>,
}

impl Default for JobMetadata {
    fn default() -> (r: JobMetadata)
        ensures
            r.attempts == 0,
            r.max_attempts == 3,
            r.last_failure_reason is None,
    {
        JobMetadata { attempts: 0, max_attempts: 3, last_failure_reason: None }
    }
}

/// The cancellation flag of a job; an absent flag reads as not cancelled.
#[derive(Clone, Copy, Debug, PartialEq, Eq, Structural)]
pub struct JobControl {
    pub cancelled: bool,
}

impl Default for JobControl {
    fn default() -> (r: JobControl)
        ensures
            !r.cancelled,
    {
        JobControl { cancelled: false }
    }
}

impl JobControl {
    /// Whether a stored flag, if any, cancels its job; no flag means not cancelled.
    pub fn is_cancelled(stored: Option<JobControl>) -> (r: bool)
        ensures
            r == (stored matches Some(c) && c.cancelled),
    {
        match stored {
            Some(c) => c.cancelled,
            None => false,
        }
    }
}

/// One test of a job: the input fed to the program, the output expected of it,
/// and what passing it is worth.
#[derive(Clone, Debug)]
pub struct TestCase {
    pub id: u32,
    pub input: String,
    pub expected_output: String,
    pub weight: u32,
}

/// A job as it travels through the queues.
#[derive(Clone, Debug)]
pub struct JobRequest {
    pub id: u128,
    pub language: Language,
    pub source_code: String,
    pub test_cases: Vec<TestCase>,
    pub timeout_ms: u64,
    pub metadata: JobMetadata,
}

#[derive(Clone, Copy, Debug, PartialEq, Eq, Structural)]
pub enum JobStatus {
    Queued,
    Running,
    Completed,
    Failed,
    TimedOut,
    Cancelled,
}

impl JobStatus {
    pub open spec fn tag(self) -> Seq<char> {
        match self {
            JobStatus::Queued => "queued"@,
            JobStatus::Running => "running"@,
            JobStatus::Completed => "completed"@,
            JobStatus::Failed => "failed"@,
            JobStatus::TimedOut => "timedout"@,
            JobStatus::Cancelled => "cancelled"@,
        }
    }

    /// The lowercase tag under which the status is stored.
    pub fn as_str(&self) -> (r: &'static str)
        ensures
            r@ == self.tag(),
    {
        match self {
            JobStatus::Queued => "queued",
            JobStatus::Running => "running",
            JobStatus::Completed => "completed",
            JobStatus::Failed => "failed",
            JobStatus::TimedOut => "timedout",
            JobStatus::Cancelled => "cancelled",
        }
    }

    /// The statuses a stored result can end a job with.
    pub open spec fn terminal(self) -> bool {
        self == JobStatus::Completed || self == JobStatus::Failed || self == JobStatus::Cancelled
    }

    pub fn is_terminal(&self) -> (r: bool)
        ensures
            r == self.terminal(),
    {
        match self {
            JobStatus::Completed | JobStatus::Failed | JobStatus::Cancelled => true,
            _ => false,
        }
    }
}

#[derive(Clone, Copy, Debug, PartialEq, Eq, Structural)]
pub enum TestStatus {
    Passed,
    Failed,
    RuntimeError,
    TimeLimitExceeded,
}

impl TestStatus {
    pub open spec fn tag(self) -> Seq<char> {
        match self {
            TestStatus::Passed => "passed"@,
            TestStatus::Failed => "failed"@,
            TestStatus::RuntimeError => "runtimeerror"@,
            TestStatus::TimeLimitExceeded => "timelimitexceeded"@,
        }
    }

    /// The lowercase tag under which the status is stored.
    pub fn as_str(&self) -> (r: &'static str)
        ensures
            r@ == self.tag(),
    {
        match self {
            TestStatus::Passed => "passed",
            TestStatus::Failed => "failed",
            TestStatus::RuntimeError => "runtimeerror",
            TestStatus::TimeLimitExceeded => "timelimitexceeded",
        }
    }
}

/// The outcome of one test.
#[derive(Clone, Debug)]
pub struct TestResult {
    pub test_id: u32,
    pub status: TestStatus,
    pub stdout: String,
    pub stderr: String,
    pub execution_time_ms: u64,
}

pub struct TestResultView {
    pub test_id: u32,
    pub status: TestStatus,
    pub stdout: Seq<char>,
    pub stderr: Seq<char>,
    pub execution_time_ms: u64,
}

impl View for TestResult {
    type V = TestResultView;

    open spec fn view(&self) -> TestResultView {
        TestResultView {
            test_id: self.test_id,
            status: self.status,
            stdout: self.stdout@,
            stderr: self.stderr@,
            execution_time_ms: self.execution_time_ms,
        }
    }
}

/// The scored outcome of a job.
#[derive(Clone, Debug)]
pub struct ExecutionResult {
    pub job_id: u128,
    pub overall_status: JobStatus,
    pub score: u32,
    pub max_score: u32,
    pub results: Vec<TestResult>,
}

pub struct ExecutionResultView {
    pub job_id: u128,
    pub overall_status: JobStatus,
    pub score: u32,
    pub max_score: u32,
    pub results: Seq<TestResultView>,
}

impl View for ExecutionResult {
    type V = ExecutionResultView;

    open spec fn view(&self) -> ExecutionResultView {
        ExecutionResultView {
            job_id: self.job_id,
            overall_status: self.overall_status,
            score: self.score,
            max_score: self.max_score,
            results: self.results@.map_values(|t: TestResult| t@),
        }
    }
}

} // verus!
