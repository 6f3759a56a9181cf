//! Scoring: a pure function from a job and the raw outputs of its tests to a
//! scored result.
use vstd::prelude::*;
use crate::text::{trim_ascii, trimmed_eq};
use crate::types::{
    ExecutionResult, ExecutionResultView, JobRequest, JobStatus, TestCase, TestResult,
    TestResultView, TestStatus,
};

verus! {

/// What the engine reports of one test run.
#[derive(Clone, Debug)]
pub struct TestExecutionOutput {
    pub test_id: u32,
    pub stdout: String,
    pub stderr: String,
    pub execution_time_ms: u64,
    pub timed_out: bool,
    pub runtime_error: bool,
}

/// A runtime error outranks a timeout, which outranks the comparison of the
/// trimmed output with the trimmed expectation.
pub open spec fn classify(out: TestExecutionOutput, expected: Seq<char>) -> TestStatus {
    if out.runtime_error {
        TestStatus::RuntimeError
    } else if out.timed_out {
        TestStatus::TimeLimitExceeded
    } else if trim_ascii(out.stdout@) == trim_ascii(expected) {
        TestStatus::Passed
    } else {
        TestStatus::Failed
    }
}

pub open spec fn ids_distinct(cases: Seq<TestCase>) -> bool {
    forall|a: int, b: int| 0 <= a < b < cases.len() ==> cases[a].id != cases[b].id
}

pub open spec fn has_case(cases: Seq<TestCase>, id: u32) -> bool {
    exists|k: int| 0 <= k < cases.len() && cases[k].id == id
}

/// Where the test with identifier `id` stands among `cases`.
pub open spec fn case_index(cases: Seq<TestCase>, id: u32) -> int {
    choose|k: int| 0 <= k < cases.len() && cases[k].id == id
}

pub open spec fn weight_of(cases: Seq<TestCase>, id: u32) -> nat {
    cases[case_index(cases, id)].weight as nat
}

/// The sum of the weights of all tests.
pub open spec fn total_weight(cases: Seq<TestCase>) -> nat
    decreases cases.len(),
{
    if cases.len() == 0 {
        0
    } else {
        total_weight(cases.drop_last()) + cases.last().weight as nat
    }
}

/// The sum of the weights of the tests whose result passed.
pub open spec fn passed_weight(cases: Seq<TestCase>, results: Seq<TestResultView>) -> nat
    decreases results.len(),
{
    if results.len() == 0 {
        0
    } else {
        passed_weight(cases, results.drop_last()) + if results.last().status == TestStatus::Passed {
            weight_of(cases, results.last().test_id)
        } else {
            0
        }
    }
}

/// The result of one output, graded against the test it belongs to.
pub open spec fn graded(cases: Seq<TestCase>, out: TestExecutionOutput) -> TestResultView {
    TestResultView {
        test_id: out.test_id,
        status: classify(out, cases[case_index(cases, out.test_id)].expected_output@),
        stdout: out.stdout@,
        stderr: out.stderr@,
        execution_time_ms: out.execution_time_ms,
    }
}

pub open spec fn graded_all(cases: Seq<TestCase>, outs: Seq<TestExecutionOutput>) -> Seq<
    TestResultView,
> {
    outs.map_values(|o: TestExecutionOutput| graded(cases, o))
}

/// Completed when anything scored, failed otherwise.
pub open spec fn status_for_score(score: nat) -> JobStatus {
    if score > 0 {
        JobStatus::Completed
    } else {
        JobStatus::Failed
    }
}

/// The scored result of a job from the outputs of the tests that ran.
pub open spec fn evaluation(job: JobRequest, outs: Seq<TestExecutionOutput>) -> ExecutionResultView {
    let cases = job.test_cases@;
    let results = graded_all(cases, outs);
    let score = passed_weight(cases, results);
    ExecutionResultView {
        job_id: job.id,
        overall_status: status_for_score(score),
        score: score as u32,
        max_score: total_weight(cases) as u32,
        results,
    }
}

/// A job whose test identifiers are distinct and whose weights sum to a `u32`.
pub open spec fn job_well_formed(job: JobRequest) -> bool {
    ids_distinct(job.test_cases@) && total_weight(job.test_cases@) <= u32::MAX
}

/// Each output belongs to a test of the job, and no two outputs to the same test.
pub open spec fn outputs_match(cases: Seq<TestCase>, outs: Seq<TestExecutionOutput>) -> bool {
    &&& forall|i: int| 0 <= i < outs.len() ==> has_case(cases, #[trigger] outs[i].test_id)
    &&& forall|i: int, j: int|
        0 <= i < j < outs.len() ==> #[trigger] outs[i].test_id != #[trigger] outs[j].test_id
}

/// The sum of the weights of the tests whose identifier is not in `skip`.
pub open spec fn weight_outside(cases: Seq<TestCase>, skip: Set<u32>) -> nat
    decreases cases.len(),
{
    if cases.len() == 0 {
        0
    } else {
        weight_outside(cases.drop_last(), skip) + if skip.contains(cases.last().id) {
            0
        } else {
            cases.last().weight as nat
        }
    }
}

proof fn lemma_case_index(cases: Seq<TestCase>, k: int)
    requires
        ids_distinct(cases),
        0 <= k < cases.len(),
    ensures
        case_index(cases, cases[k].id) == k,
{
    assert(has_case(cases, cases[k].id));
}

proof fn lemma_weight_outside_empty(cases: Seq<TestCase>)
    ensures
        weight_outside(cases, Set::empty()) == total_weight(cases),
    decreases cases.len(),
{
    if cases.len() > 0 {
        lemma_weight_outside_empty(cases.drop_last());
    }
}

proof fn lemma_weight_outside_absent(cases: Seq<TestCase>, skip: Set<u32>, x: u32)
    requires
        forall|k: int| 0 <= k < cases.len() ==> cases[k].id != x,
    ensures
        weight_outside(cases, skip) == weight_outside(cases, skip.insert(x)),
    decreases cases.len(),
{
    if cases.len() > 0 {
        let d = cases.drop_last();
        assert forall|k: int| 0 <= k < d.len() implies d[k].id != x by {
            assert(d[k] == cases[k]);
        }
        lemma_weight_outside_absent(d, skip, x);
        assert(cases.last().id != x);
    }
}

proof fn lemma_weight_outside_take(cases: Seq<TestCase>, skip: Set<u32>, x: u32)
    requires
        ids_distinct(cases),
        has_case(cases, x),
        !skip.contains(x),
    ensures
        weight_outside(cases, skip) == weight_outside(cases, skip.insert(x)) + weight_of(cases, x),
    decreases cases.len(),
{
    let n = cases.len() as int;
    let d = cases.drop_last();
    let k = choose|k: int| 0 <= k < cases.len() && cases[k].id == x;
    lemma_case_index(cases, k);
    assert(ids_distinct(d)) by {
        assert forall|a: int, b: int| 0 <= a < b < d.len() implies d[a].id != d[b].id by {
            assert(d[a] == cases[a] && d[b] == cases[b]);
        }
    }
    if cases.last().id == x {
        assert(k == n - 1);
        assert forall|j: int| 0 <= j < d.len() implies d[j].id != x by {
            assert(d[j] == cases[j]);
        }
        lemma_weight_outside_absent(d, skip, x);
    } else {
        assert(k < n - 1);
        assert(d[k] == cases[k]);
        lemma_case_index(d, k);
        assert(has_case(d, x));
        lemma_weight_outside_take(d, skip, x);
    }
}

proof fn lemma_passed_bound(cases: Seq<TestCase>, outs: Seq<TestExecutionOutput>, skip: Set<u32>)
    requires
        ids_distinct(cases),
        outputs_match(cases, outs),
        forall|i: int| 0 <= i < outs.len() ==> !skip.contains(#[trigger] outs[i].test_id),
    ensures
        passed_weight(cases, graded_all(cases, outs)) <= weight_outside(cases, skip),
    decreases outs.len(),
{
    if outs.len() > 0 {
        let d = outs.drop_last();
        let x = outs.last().test_id;
        assert(graded_all(cases, outs).drop_last() =~= graded_all(cases, d));
        assert(outputs_match(cases, d)) by {
            assert forall|i: int| 0 <= i < d.len() implies has_case(cases, #[trigger] d[i].test_id) by {
                assert(d[i] == outs[i]);
            }
            assert forall|i: int, j: int| 0 <= i < j < d.len() implies #[trigger] d[i].test_id
                != #[trigger] d[j].test_id by {
                assert(d[i] == outs[i] && d[j] == outs[j]);
            }
        }
        assert forall|i: int| 0 <= i < d.len() implies !skip.insert(x).contains(
            #[trigger] d[i].test_id,
        ) by {
            assert(d[i] == outs[i]);
            assert(outs[i].test_id != outs[outs.len() - 1].test_id);
        }
        lemma_passed_bound(cases, d, skip.insert(x));
        assert(has_case(cases, outs[outs.len() - 1].test_id));
        lemma_weight_outside_take(cases, skip, x);
    }
}

/// The score of a run never exceeds the sum of all weights.
pub proof fn lemma_score_at_most_max(cases: Seq<TestCase>, outs: Seq<TestExecutionOutput>)
    requires
        ids_distinct(cases),
        outputs_match(cases, outs),
    ensures
        passed_weight(cases, graded_all(cases, outs)) <= total_weight(cases),
{
    lemma_passed_bound(cases, outs, Set::empty());
    lemma_weight_outside_empty(cases);
}

proof fn lemma_total_prefix(cases: Seq<TestCase>, j: int)
    requires
        0 <= j <= cases.len(),
    ensures
        total_weight(cases.take(j)) <= total_weight(cases),
    decreases cases.len() - j,
{
    if j < cases.len() {
        lemma_total_prefix(cases, j + 1);
        assert(cases.take(j + 1).drop_last() =~= cases.take(j));
    } else {
        assert(cases.take(j) =~= cases);
    }
}

/// The sum of the weights of all tests.
pub fn total_weight_of(cases: &Vec<TestCase>) -> (r: u32)
    requires
        total_weight(cases@) <= u32::MAX,
    ensures
        r == total_weight(cases@),
{
    let mut sum: u32 = 0;
    for i in 0..cases.len()
        invariant
            sum == total_weight(cases@.take(i as int)),
            total_weight(cases@) <= u32::MAX,
    {
        proof {
            lemma_total_prefix(cases@, i + 1);
            assert(cases@.take(i + 1).drop_last() =~= cases@.take(i as int));
        }
        sum = sum + cases[i].weight;
    }
    assert(cases@.take(cases.len() as int) =~= cases@);
    sum
}

/// The sum of the weights of all tests, or `None` when it does not fit a `u32`.
pub fn checked_total_weight(cases: &Vec<TestCase>) -> (r: Option<u32>)
    ensures
        r == (if total_weight(cases@) <= u32::MAX {
            Some(total_weight(cases@) as u32)
        } else {
            None
        }),
{
    let mut sum: u64 = 0;
    for i in 0..cases.len()
        invariant
            sum == total_weight(cases@.take(i as int)),
            sum <= u32::MAX,
    {
        assert(cases@.take(i + 1).drop_last() =~= cases@.take(i as int));
        sum = sum + cases[i].weight as u64;
        if sum > u32::MAX as u64 {
            proof {
                lemma_total_prefix(cases@, i + 1);
            }
            return None;
        }
    }
    assert(cases@.take(cases.len() as int) =~= cases@);
    Some(sum as u32)
}

/// Whether no two tests share an identifier.
pub fn has_distinct_ids(cases: &Vec<TestCase>) -> (r: bool)
    ensures
        r == ids_distinct(cases@),
{
    for b in 0..cases.len()
        invariant
            forall|x: int, y: int| 0 <= x < y < b ==> cases@[x].id != cases@[y].id,
    {
        for a in 0..b
            invariant
                b < cases.len(),
                forall|x: int, y: int| 0 <= x < y < b ==> cases@[x].id != cases@[y].id,
                forall|x: int| 0 <= x < a ==> cases@[x].id != cases@[b as int].id,
        {
            if cases[a].id == cases[b].id {
                return false;
            }
        }
    }
    true
}

/// Where the test with identifier `id` stands.
fn find_case(cases: &Vec<TestCase>, id: u32) -> (r: usize)
    requires
        ids_distinct(cases@),
        has_case(cases@, id),
    ensures
        r == case_index(cases@, id),
        r < cases.len(),
{
    let mut i: usize = 0;
    while i < cases.len()
        invariant
            i <= cases.len(),
            ids_distinct(cases@),
            forall|k: int| 0 <= k < i ==> cases@[k].id != id,
        decreases cases.len() - i,
    {
        if cases[i].id == id {
            proof {
                lemma_case_index(cases@, i as int);
            }
            return i;
        }
        i = i + 1;
    }
    assert(false);
    0
}

/// The status of one test run against the output it was expected to print.
pub fn classify_output(out: &TestExecutionOutput, expected: &str) -> (r: TestStatus)
    ensures
        r == classify(*out, expected@),
{
    if out.runtime_error {
        TestStatus::RuntimeError
    } else if out.timed_out {
        TestStatus::TimeLimitExceeded
    } else if trimmed_eq(out.stdout.as_str(), expected) {
        TestStatus::Passed
    } else {
        TestStatus::Failed
    }
}

/// Scores the outputs of a run against the job's tests: each output is graded
/// against its test, the score is the sum of the weights of the tests that
/// passed, the maximum is the sum of all weights (tests that did not run
/// included), and the job is completed exactly when the score is positive.
pub fn evaluate(job: &JobRequest, outputs: Vec<TestExecutionOutput>) -> (r: ExecutionResult)
    requires
        job_well_formed(*job),
        outputs_match(job.test_cases@, outputs@),
    ensures
        r@ == evaluation(*job, outputs@),
        r.score <= r.max_score,
{
    let ghost cases = job.test_cases@;
    let max_score = total_weight_of(&job.test_cases);
    let mut results: Vec<TestResult> = Vec::new();
    let mut score: u32 = 0;
    for i in 0..outputs.len()
        invariant
            cases == job.test_cases@,
            job_well_formed(*job),
            outputs_match(cases, outputs@),
            results@.map_values(|t: TestResult| t@) == graded_all(cases, outputs@.take(i as int)),
            score == passed_weight(cases, graded_all(cases, outputs@.take(i as int))),
    {
        let out = &outputs[i];
        assert(has_case(cases, outputs@[i as int].test_id));
        let k = find_case(&job.test_cases, out.test_id);
        let tc = &job.test_cases[k];
        let status = classify_output(out, tc.expected_output.as_str());
        let ghost before = graded_all(cases, outputs@.take(i as int));
        let ghost after = graded_all(cases, outputs@.take(i + 1));
        proof {
            assert(after.drop_last() =~= before);
            assert(outputs@.take(i + 1).last() == outputs@[i as int]);
            assert(outputs_match(cases, outputs@.take(i + 1))) by {
                let t = outputs@.take(i + 1);
                assert forall|a: int| 0 <= a < t.len() implies has_case(cases, #[trigger] t[a].test_id) by {
                    assert(t[a] == outputs@[a]);
                }
                assert forall|a: int, b: int| 0 <= a < b < t.len() implies #[trigger] t[a].test_id
                    != #[trigger] t[b].test_id by {
                    assert(t[a] == outputs@[a] && t[b] == outputs@[b]);
                }
            }
            lemma_score_at_most_max(cases, outputs@.take(i + 1));
        }
        if status == TestStatus::Passed {
            score = score + tc.weight;
        }
        let tr = TestResult {
            test_id: out.test_id,
            status,
            stdout: out.stdout.clone(),
            stderr: out.stderr.clone(),
            execution_time_ms: out.execution_time_ms,
        };
        let ghost prev = results@;
        assert(tr@ == graded(cases, outputs@[i as int]));
        assert(after.last() == graded(cases, outputs@[i as int]));
        results.push(tr);
        proof {
            assert(results@ == prev.push(tr));
            assert(prev.map_values(|t: TestResult| t@) == before);
            assert(results@.map_values(|t: TestResult| t@) =~= before.push(tr@));
            assert(after =~= before.push(tr@));
        }
    }
    proof {
        assert(outputs@.take(outputs@.len() as int) =~= outputs@);
        lemma_score_at_most_max(cases, outputs@);
    }
    let overall_status = if score > 0 {
        JobStatus::Completed
    } else {
        JobStatus::Failed
    };
    ExecutionResult { job_id: job.id, overall_status, score, max_score, results }
}

/// The scoring invariants of every evaluated run: the maximum is the sum of all
/// weights, the score is the sum of the weights of the passed results and never
/// exceeds the maximum, and the job is completed exactly when the score is
/// positive (failed otherwise).
pub proof fn lemma_scoring_invariants(job: JobRequest, outs: Seq<TestExecutionOutput>)
    requires
        job_well_formed(job),
        outputs_match(job.test_cases@, outs),
    ensures
        evaluation(job, outs).max_score == total_weight(job.test_cases@),
        evaluation(job, outs).score == passed_weight(job.test_cases@, evaluation(job, outs).results),
        evaluation(job, outs).score <= evaluation(job, outs).max_score,
        (evaluation(job, outs).overall_status == JobStatus::Completed) <==> evaluation(job, outs).score > 0,
        evaluation(job, outs).overall_status == JobStatus::Completed || evaluation(job, outs).overall_status
            == JobStatus::Failed,
        evaluation(job, outs).results.len() == outs.len(),
{
    lemma_score_at_most_max(job.test_cases@, outs);
}

/// The status of a test: a runtime error whenever the program failed, else a
/// timeout whenever it timed out, and only otherwise the comparison, which
/// passes exactly when the trimmed output equals the trimmed expectation.
pub proof fn lemma_classification_precedence(out: TestExecutionOutput, expected: Seq<char>)
    ensures
        out.runtime_error ==> classify(out, expected) == TestStatus::RuntimeError,
        !out.runtime_error && out.timed_out ==> classify(out, expected) == TestStatus::TimeLimitExceeded,
        !out.runtime_error && !out.timed_out ==> (classify(out, expected) == TestStatus::Passed <==> trim_ascii(out.stdout@)
            == trim_ascii(expected)),
        !out.runtime_error && !out.timed_out ==> (classify(out, expected) == TestStatus::Passed || classify(out, expected)
            == TestStatus::Failed),
{
}

/// Scoring is total on its domain and depends on its inputs alone: equal jobs
/// and equal outputs give equal results.
pub proof fn lemma_evaluate_deterministic(
    job1: JobRequest,
    job2: JobRequest,
    outs1: Seq<TestExecutionOutput>,
    outs2: Seq<TestExecutionOutput>,
)
    requires
        job1 == job2,
        outs1 == outs2,
    ensures
        evaluation(job1, outs1) == evaluation(job2, outs2),
{
}

} // verus!
