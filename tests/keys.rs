use optimus::ids::{job_id_text, new_job_id, parse_job_id};
use optimus::keys::{
    completions_channel, control_key, dlq_name, queue_name, result_key, retry_queue_name,
    status_key,
};
use optimus::types::Language;
use uuid::Uuid;

#[test]
fn test_queue_naming() {
    assert_eq!(queue_name(&Language::Python), "optimus:queue:python");
    assert_eq!(queue_name(&Language::Java), "optimus:queue:java");
    assert_eq!(queue_name(&Language::Rust), "optimus:queue:rust");

    assert_eq!(retry_queue_name(&Language::Python), "optimus:queue:python:retry");
    assert_eq!(retry_queue_name(&Language::Java), "optimus:queue:java:retry");

    assert_eq!(dlq_name(&Language::Python), "optimus:queue:python:dlq");
    assert_eq!(dlq_name(&Language::Rust), "optimus:queue:rust:dlq");
}

#[test]
fn test_result_key_deterministic() {
    let id = Uuid::new_v4().as_u128();
    let key1 = result_key(id);
    let key2 = result_key(id);
    assert_eq!(key1, key2);
    assert!(key1.starts_with("optimus:result:"));
}

#[test]
fn test_status_key_format() {
    let id = Uuid::new_v4();
    let key = status_key(id.as_u128());
    assert!(key.starts_with("optimus:status:"));
    assert!(key.contains(&id.to_string()));
}

#[test]
fn job_keys_use_hyphenated_ids() {
    let id: u128 = 0x0123_4567_89ab_cdef_0011_2233_4455_6677;
    assert_eq!(job_id_text(id), "01234567-89ab-cdef-0011-223344556677");
    assert_eq!(result_key(id), "optimus:result:01234567-89ab-cdef-0011-223344556677");
    assert_eq!(control_key(id), "optimus:control:01234567-89ab-cdef-0011-223344556677");
    assert_eq!(status_key(id), "optimus:status:01234567-89ab-cdef-0011-223344556677");
    assert_eq!(completions_channel(), "optimus:metrics:completions");
}

#[test]
fn queue_keys_agree_across_calls_and_differ_across_languages() {
    for a in Language::all_variants() {
        assert_eq!(queue_name(&a), queue_name(&a));
        for b in Language::all_variants() {
            assert_eq!(queue_name(&a) == queue_name(&b), a == b);
            assert_ne!(queue_name(&a), retry_queue_name(&b));
            assert_ne!(retry_queue_name(&a), dlq_name(&b));
        }
    }
}

#[test]
fn job_ids_round_trip_through_text() {
    let id = new_job_id();
    let text = job_id_text(id);
    assert_eq!(parse_job_id(&text), Some(id));
    assert_eq!(parse_job_id("not-a-uuid"), None);
}
