use optimus::engine::{
    check_limits, container_env, execution_command, finished_run, image_for, memory_limit_bytes,
    nano_cpus, plan_container, timed_out_run, EngineError,
};
use optimus::registry::{LanguageEntry, LanguageRegistry};
use optimus::types::Language;

fn registry() -> LanguageRegistry {
    LanguageRegistry::new(vec![LanguageEntry {
        language: Language::Python,
        image: "optimus-python:3.11".to_string(),
        memory_limit_mb: 512,
        cpu_millis: 1500,
        queue_name: "optimus:queue:python".to_string(),
    }])
    .unwrap()
}

#[test]
fn pre_flight_limits() {
    let mib = "s".repeat(1024 * 1024);
    assert_eq!(check_limits(&mib, ""), Ok(()));
    let over = "s".repeat(1024 * 1024 + 1);
    assert_eq!(check_limits(&over, ""), Err(EngineError::SourceTooLarge));
    let input = "i".repeat(10 * 1024 * 1024 + 1);
    assert_eq!(check_limits("x", &input), Err(EngineError::InputTooLarge));
    assert_eq!(check_limits(&over, &input), Err(EngineError::SourceTooLarge));
}

#[test]
fn environment_is_base64() {
    let env = container_env("print('hi')\n", "hello");
    assert_eq!(env, vec!["SOURCE_CODE=cHJpbnQoJ2hpJykK".to_string(), "TEST_INPUT=aGVsbG8=".to_string()]);
    let env = container_env("", "é");
    assert_eq!(env[0], "SOURCE_CODE=");
    assert_eq!(env[1], "TEST_INPUT=w6k=");
}

#[test]
fn limits_come_from_the_registry_or_defaults() {
    let reg = registry();
    assert_eq!(image_for(&reg, Language::Python), "optimus-python:3.11");
    assert_eq!(image_for(&reg, Language::Java), "optimus-java:latest");
    assert_eq!(memory_limit_bytes(&reg, Language::Python), 512 * 1024 * 1024);
    assert_eq!(memory_limit_bytes(&reg, Language::Rust), 256 * 1024 * 1024);
    assert_eq!(nano_cpus(&reg, Language::Python), 1_500_000_000);
    assert_eq!(nano_cpus(&reg, Language::Java), 500_000_000);
    assert_eq!(execution_command(Language::Java), vec!["java", "-cp", "/", "Runner"]);
}

#[test]
fn container_plans() {
    let reg = registry();
    let plan = plan_container(&reg, Language::Python, "print(1)", "in").unwrap();
    assert!(plan.network_disabled);
    assert!(plan.name.starts_with("optimus-"));
    assert_eq!(plan.name.len(), "optimus-".len() + 36);
    assert_eq!(plan.image, "optimus-python:3.11");
    assert_eq!(plan.cmd, vec!["python", "/runner.py"]);
    assert_eq!(plan.env[1], "TEST_INPUT=aW4=");
    let other = plan_container(&reg, Language::Python, "print(1)", "in").unwrap();
    assert_ne!(plan.name, other.name);
    let big = "s".repeat(1024 * 1024 + 1);
    assert_eq!(plan_container(&reg, Language::Python, &big, "").err(), Some(EngineError::SourceTooLarge));
}

#[test]
fn exit_codes_are_classified() {
    let ok = finished_run("out".to_string(), "err".to_string(), Some(0), 9);
    assert!(!ok.runtime_error && !ok.timed_out);
    assert_eq!(ok.stderr, "err");
    assert_eq!(ok.execution_time_ms, 9);
    let oom = finished_run(String::new(), "e".to_string(), Some(137), 1);
    assert!(oom.runtime_error);
    assert_eq!(oom.stderr, "e\n[Container killed: likely OOM or exceeded memory limit]");
    let segv = finished_run(String::new(), String::new(), Some(139), 1);
    assert_eq!(segv.stderr, "\n[Container killed: segmentation fault]");
    let other = finished_run("partial".to_string(), String::new(), Some(2), 1);
    assert!(other.runtime_error);
    assert_eq!(other.stdout, "partial");
    assert_eq!(other.stderr, "\n[Program exited with a non-zero status]");
    let unknown = finished_run(String::new(), String::new(), None, 1);
    assert!(!unknown.runtime_error);
    let t = timed_out_run(5001);
    assert!(t.timed_out && !t.runtime_error);
    assert!(t.stdout.is_empty());
    assert_eq!(t.stderr, "\n[Execution timed out]");
}
