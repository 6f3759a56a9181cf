//! The key and queue names that the front-end and the workers share. Each is a
//! function of the fixed prefix and its parameters alone.
use vstd::prelude::*;
use vstd::string::*;
use crate::ids::{job_id_text, uuid_text};
use crate::text::concat;
use crate::types::Language;

verus! {

pub open spec fn queue_key(language: Language) -> Seq<char> {
    "optimus:queue:"@ + language.tag()
}

pub open spec fn retry_queue_key(language: Language) -> Seq<char> {
    queue_key(language) + ":retry"@
}

pub open spec fn dlq_key(language: Language) -> Seq<char> {
    queue_key(language) + ":dlq"@
}

pub open spec fn result_key_of(job_id: u128) -> Seq<char> {
    "optimus:result:"@ + uuid_text(job_id)
}

pub open spec fn status_key_of(job_id: u128) -> Seq<char> {
    "optimus:status:"@ + uuid_text(job_id)
}

pub open spec fn control_key_of(job_id: u128) -> Seq<char> {
    "optimus:control:"@ + uuid_text(job_id)
}

/// Seconds that results, statuses and control flags are kept.
pub const RECORD_TTL_SECONDS: u64 = 86400;

/// The main queue of a language.
pub fn queue_name(language: &Language) -> (r: String)
    ensures
        r@ == queue_key(*language),
{
    concat("optimus:queue:", language.as_str())
}

/// The retry queue of a language.
pub fn retry_queue_name(language: &Language) -> (r: String)
    ensures
        r@ == retry_queue_key(*language),
{
    let mut s = queue_name(language);
    s.append(":retry");
    s
}

/// The dead-letter queue of a language.
pub fn dlq_name(language: &Language) -> (r: String)
    ensures
        r@ == dlq_key(*language),
{
    let mut s = queue_name(language);
    s.append(":dlq");
    s
}

/// The key under which a job's result is stored.
pub fn result_key(job_id: u128) -> (r: String)
    ensures
        r@ == result_key_of(job_id),
{
    let id = job_id_text(job_id);
    concat("optimus:result:", id.as_str())
}

/// The key under which a job's status is mirrored.
pub fn status_key(job_id: u128) -> (r: String)
    ensures
        r@ == status_key_of(job_id),
{
    let id = job_id_text(job_id);
    concat("optimus:status:", id.as_str())
}

/// The key of a job's cancellation flag.
pub fn control_key(job_id: u128) -> (r: String)
    ensures
        r@ == control_key_of(job_id),
{
    let id = job_id_text(job_id);
    concat("optimus:control:", id.as_str())
}

/// The keys that a worker's blocking pop watches, in priority order: its
/// language's main queue first, then its retry queue.
pub fn poll_keys(language: &Language) -> (r: Vec<String>)
    ensures
        r@.len() == 2,
        r@[0]@ == queue_key(*language),
        r@[1]@ == retry_queue_key(*language),
{
    vec![queue_name(language), retry_queue_name(language)]
}

/// The channel on which completions are announced.
pub fn completions_channel() -> (r: String)
    ensures
        r@ == "optimus:metrics:completions"@,
{
    String::from_str("optimus:metrics:completions")
}

/// Queue names are a function of the language alone, and tell languages and
/// lanes apart: two languages share a queue name only if they are the same
/// language, and the main, retry and dead-letter lanes never share a name.
pub proof fn lemma_queue_keys(a: Language, b: Language)
    ensures
        queue_key(a) == queue_key(b) <==> a == b,
        retry_queue_key(a) == retry_queue_key(b) <==> a == b,
        dlq_key(a) == dlq_key(b) <==> a == b,
        queue_key(a) != retry_queue_key(b),
        queue_key(a) != dlq_key(b),
        retry_queue_key(a) != dlq_key(b),
{
    reveal_strlit("optimus:queue:");
    reveal_strlit("python");
    reveal_strlit("java");
    reveal_strlit("rust");
    reveal_strlit(":retry");
    reveal_strlit(":dlq");
    if a != b {
        assert(queue_key(a)[14] != queue_key(b)[14] || queue_key(a).len() != queue_key(b).len());
        assert(retry_queue_key(a)[14] != retry_queue_key(b)[14]
            || retry_queue_key(a).len() != retry_queue_key(b).len());
        assert(dlq_key(a)[14] != dlq_key(b)[14] || dlq_key(a).len() != dlq_key(b).len());
    }
    assert(queue_key(a).len() != retry_queue_key(b).len() || queue_key(a)[14] != retry_queue_key(b)[14]
        || queue_key(a)[15] != retry_queue_key(b)[15]);
    assert(queue_key(a).len() != dlq_key(b).len() || queue_key(a)[14] != dlq_key(b)[14]
        || queue_key(a)[15] != dlq_key(b)[15]);
    assert(retry_queue_key(a).len() != dlq_key(b).len() || retry_queue_key(a)[14]
        != dlq_key(b)[14] || retry_queue_key(a)[15] != dlq_key(b)[15]);
}

} // verus!
