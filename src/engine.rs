//! What the execution engine decides around a sandboxed run: the pre-flight
//! limits, how the container is set up for a language, and how the run's end
//! (exit code or timeout) becomes a test output. Creating, starting, reading,
//! killing and removing the container are the caller's.
use vstd::prelude::*;
use base64::Engine as _;
use vstd::string::*;
use crate::evaluator::TestExecutionOutput;
use crate::ids::{job_id_text, new_job_id};
use crate::registry::{entry_of, is_enabled, LanguageRegistry};
use crate::text::{byte_len, concat, utf8_len};
use crate::types::Language;

verus! {

pub const MAX_SOURCE_CODE_BYTES: usize = 1048576;

pub const MAX_TEST_INPUT_BYTES: usize = 10485760;

pub const DEFAULT_MEMORY_LIMIT_MB: u32 = 256;

pub const DEFAULT_CPU_MILLIS: u32 = 500;

/// Failures of the engine itself, as opposed to failures of the program run.
#[derive(Clone, Copy, Debug, PartialEq, Eq, Structural)]
pub enum EngineError {
    SourceTooLarge,
    InputTooLarge,
}

impl EngineError {
    pub fn message(&self) -> (r: &'static str)
        ensures
            self is SourceTooLarge ==> r@ == "Source code exceeds maximum size of 1048576 bytes"@,
            self is InputTooLarge ==> r@ == "Test input exceeds maximum size of 10485760 bytes"@,
    {
        match self {
            EngineError::SourceTooLarge => "Source code exceeds maximum size of 1048576 bytes",
            EngineError::InputTooLarge => "Test input exceeds maximum size of 10485760 bytes",
        }
    }
}

/// What base64's standard alphabet, with padding, makes of the UTF-8 bytes of a text.
pub uninterp spec fn base64_of(s: Seq<char>) -> Seq<char>;

/// Relies on base64's `STANDARD` engine and its `Engine::encode`, whose output
/// depends on the bytes alone; it panics only when the output length overflows
/// a `usize`, which the bound rules out.
#[verifier::external_body]
fn base64_encode(s: &str) -> (r: String)
    requires
        byte_len(s@) <= MAX_TEST_INPUT_BYTES,
    ensures
        r@ == base64_of(s@),
{
    base64::engine::general_purpose::STANDARD.encode(s)
}

/// Rejects a source over 1 MiB or an input over 10 MiB before any container exists.
pub fn check_limits(source_code: &str, input: &str) -> (r: Result<(), EngineError>)
    ensures
        byte_len(source_code@) > MAX_SOURCE_CODE_BYTES ==> r == Err::<(), EngineError>(
            EngineError::SourceTooLarge,
        ),
        byte_len(source_code@) <= MAX_SOURCE_CODE_BYTES && byte_len(input@) > MAX_TEST_INPUT_BYTES
            ==> r == Err::<(), EngineError>(EngineError::InputTooLarge),
        byte_len(source_code@) <= MAX_SOURCE_CODE_BYTES && byte_len(input@) <= MAX_TEST_INPUT_BYTES
            ==> r is Ok,
{
    if utf8_len(source_code) > MAX_SOURCE_CODE_BYTES {
        return Err(EngineError::SourceTooLarge);
    }
    if utf8_len(input) > MAX_TEST_INPUT_BYTES {
        return Err(EngineError::InputTooLarge);
    }
    Ok(())
}

/// The image used when the registry has no entry for a language.
pub open spec fn fallback_image(language: Language) -> Seq<char> {
    "optimus-"@ + language.tag() + ":latest"@
}

/// The sandbox image of a language: the registry's, else the built-in default.
pub fn image_for(registry: &LanguageRegistry, language: Language) -> (r: String)
    requires
        registry.wf(),
    ensures
        is_enabled(registry.entries(), language) ==> r@ == entry_of(registry.entries(), language).image@,
        !is_enabled(registry.entries(), language) ==> r@ == fallback_image(language),
{
    match registry.get_image(&language) {
        Ok(image) => image,
        Err(_) => {
            let mut s = concat("optimus-", language.as_str());
            s.append(":latest");
            s
        },
    }
}

/// The runner command inside a language's image.
pub fn execution_command(language: Language) -> (r: Vec<String>)
    ensures
        language == Language::Python ==> r@.len() == 2 && r@[0]@ == "python"@ && r@[1]@
            == "/runner.py"@,
        language == Language::Java ==> r@.len() == 4 && r@[0]@ == "java"@ && r@[1]@ == "-cp"@
            && r@[2]@ == "/"@ && r@[3]@ == "Runner"@,
        language == Language::Rust ==> r@.len() == 2 && r@[0]@ == "rust"@ && r@[1]@
            == "/runner.sh"@,
{
    match language {
        Language::Python => vec![String::from_str("python"), String::from_str("/runner.py")],
        Language::Java => vec![
            String::from_str("java"),
            String::from_str("-cp"),
            String::from_str("/"),
            String::from_str("Runner"),
        ],
        Language::Rust => vec![String::from_str("rust"), String::from_str("/runner.sh")],
    }
}

/// The memory ceiling of a language in bytes: the registry's MiB, else 256 MiB.
pub fn memory_limit_bytes(registry: &LanguageRegistry, language: Language) -> (r: i64)
    requires
        registry.wf(),
    ensures
        is_enabled(registry.entries(), language) ==> r == entry_of(registry.entries(), language).memory_limit_mb
            * 1048576,
        !is_enabled(registry.entries(), language) ==> r == DEFAULT_MEMORY_LIMIT_MB * 1048576,
{
    let mb = match registry.get_memory_limit_mb(&language) {
        Ok(mb) => mb,
        Err(_) => DEFAULT_MEMORY_LIMIT_MB,
    };
    (mb as i64) * 1048576
}

/// The CPU quota of a language in billionths of a CPU: the registry's, else half a CPU.
pub fn nano_cpus(registry: &LanguageRegistry, language: Language) -> (r: i64)
    requires
        registry.wf(),
    ensures
        is_enabled(registry.entries(), language) ==> r == entry_of(registry.entries(), language).cpu_millis
            * 1000000,
        !is_enabled(registry.entries(), language) ==> r == DEFAULT_CPU_MILLIS * 1000000,
{
    let millis = match registry.get_cpu_millis(&language) {
        Ok(m) => m,
        Err(_) => DEFAULT_CPU_MILLIS,
    };
    (millis as i64) * 1000000
}

/// How one sandbox is created: no network, resource ceilings from the
/// registry, the source and the input handed over base64-encoded in the
/// environment.
#[derive(Clone, Debug)]
pub struct ContainerPlan {
    pub name: String,
    pub image: String,
    pub cmd: Vec<String>,
    pub env: Vec<String>,
    pub memory_bytes: i64,
    pub nano_cpus: i64,
    pub network_disabled: bool,
}

/// The environment of a sandbox: `SOURCE_CODE` and `TEST_INPUT`, base64-encoded.
pub fn container_env(source_code: &str, input: &str) -> (r: Vec<String>)
    requires
        byte_len(source_code@) <= MAX_SOURCE_CODE_BYTES,
        byte_len(input@) <= MAX_TEST_INPUT_BYTES,
    ensures
        r@.len() == 2,
        r@[0]@ == "SOURCE_CODE="@ + base64_of(source_code@),
        r@[1]@ == "TEST_INPUT="@ + base64_of(input@),
{
    let source = base64_encode(source_code);
    let encoded_input = base64_encode(input);
    vec![concat("SOURCE_CODE=", source.as_str()), concat("TEST_INPUT=", encoded_input.as_str())]
}

/// The sandbox for running `source_code` on `input`, under a fresh name; fails
/// before anything is created when either is over its limit.
pub fn plan_container(registry: &LanguageRegistry, language: Language, source_code: &str, input: &str) -> (r:
    Result<ContainerPlan, EngineError>)
    requires
        registry.wf(),
    ensures
        byte_len(source_code@) > MAX_SOURCE_CODE_BYTES ==> r == Err::<ContainerPlan, EngineError>(
            EngineError::SourceTooLarge,
        ),
        byte_len(source_code@) <= MAX_SOURCE_CODE_BYTES && byte_len(input@) > MAX_TEST_INPUT_BYTES
            ==> r == Err::<ContainerPlan, EngineError>(EngineError::InputTooLarge),
        byte_len(source_code@) <= MAX_SOURCE_CODE_BYTES && byte_len(input@) <= MAX_TEST_INPUT_BYTES
            ==> (r matches Ok(p) && p.network_disabled && p.env@.len() == 2 && p.env@[0]@
            == "SOURCE_CODE="@ + base64_of(source_code@) && p.env@[1]@ == "TEST_INPUT="@
            + base64_of(input@) && p.memory_bytes == (if is_enabled(registry.entries(), language) {
            entry_of(registry.entries(), language).memory_limit_mb
        } else {
            DEFAULT_MEMORY_LIMIT_MB
        }) * 1048576 && p.nano_cpus == (if is_enabled(registry.entries(), language) {
            entry_of(registry.entries(), language).cpu_millis
        } else {
            DEFAULT_CPU_MILLIS
        }) * 1000000 && (is_enabled(registry.entries(), language) ==> p.image@ == entry_of(
            registry.entries(),
            language,
        ).image@)),
{
    match check_limits(source_code, input) {
        Err(e) => {
            return Err(e);
        },
        Ok(()) => {},
    }
    let id = new_job_id();
    let suffix = job_id_text(id);
    Ok(
        ContainerPlan {
            name: concat("optimus-", suffix.as_str()),
            image: image_for(registry, language),
            cmd: execution_command(language),
            env: container_env(source_code, input),
            memory_bytes: memory_limit_bytes(registry, language),
            nano_cpus: nano_cpus(registry, language),
            network_disabled: true,
        },
    )
}

/// The note added to the error stream for an exit code, if any.
pub open spec fn exit_note(code: i64) -> Seq<char> {
    if code == 0 {
        Seq::empty()
    } else if code == 137 {
        "\n[Container killed: likely OOM or exceeded memory limit]"@
    } else if code == 139 {
        "\n[Container killed: segmentation fault]"@
    } else {
        "\n[Program exited with a non-zero status]"@
    }
}

/// The output of a run that ended before its timeout. A non-zero exit is a
/// runtime error, noted in the error stream (137: memory, 139: segmentation
/// fault, others generically); the streams are otherwise kept as they were.
pub fn finished_run(stdout: String, stderr: String, exit_code: Option<i64>, elapsed_ms: u64) -> (r:
    TestExecutionOutput)
    ensures
        r.stdout == stdout,
        r.stderr@ == (match exit_code {
            Some(c) => stderr@ + exit_note(c),
            None => stderr@,
        }),
        r.runtime_error == (exit_code matches Some(c) && c != 0),
        !r.timed_out,
        r.execution_time_ms == elapsed_ms,
{
    let mut stderr = stderr;
    let mut runtime_error = false;
    match exit_code {
        Some(c) => {
            if c != 0 {
                runtime_error = true;
                if c == 137 {
                    stderr.append("\n[Container killed: likely OOM or exceeded memory limit]");
                } else if c == 139 {
                    stderr.append("\n[Container killed: segmentation fault]");
                } else {
                    stderr.append("\n[Program exited with a non-zero status]");
                }
            } else {
                assert(stderr@ + exit_note(c) =~= stderr@);
            }
        },
        None => {},
    }
    TestExecutionOutput {
        test_id: 0,
        stdout,
        stderr,
        execution_time_ms: elapsed_ms,
        timed_out: false,
        runtime_error,
    }
}

/// The output of a run killed by its timeout: nothing captured, a timeout note.
pub fn timed_out_run(elapsed_ms: u64) -> (r: TestExecutionOutput)
    ensures
        r.stdout@.len() == 0,
        r.stderr@ == "\n[Execution timed out]"@,
        r.timed_out,
        !r.runtime_error,
        r.execution_time_ms == elapsed_ms,
{
    TestExecutionOutput {
        test_id: 0,
        stdout: String::new(),
        stderr: String::from_str("\n[Execution timed out]"),
        execution_time_ms: elapsed_ms,
        timed_out: true,
        runtime_error: false,
    }
}

} // verus!
