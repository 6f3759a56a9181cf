//! Process settings, each with its default. The caller reads the raw values
//! (from the environment); a value that is absent or not a number falls back
//! to the default.
use vstd::prelude::*;
use vstd::string::*;
use crate::text::{parse_unsigned, parsed_unsigned};

verus! {

/// The value of a setting: the parsed text if it reads as a number no larger
/// than `limit`, the default otherwise.
pub open spec fn setting(raw: Option<Seq<char>>, limit: nat, default: nat) -> nat {
    match raw {
        Some(t) => match parsed_unsigned(t, limit) {
            Some(v) => v,
            None => default,
        },
        None => default,
    }
}

fn read_setting(raw: Option<&str>, limit: u64, default: u64) -> (r: u64)
    requires
        default <= limit,
    ensures
        r == setting(
            match raw {
                Some(t) => Some(t@),
                None => None,
            },
            limit as nat,
            default as nat,
        ),
{
    match raw {
        Some(t) => match parse_unsigned(t, limit) {
            Some(v) => v,
            None => default,
        },
        None => default,
    }
}

pub open spec fn view_opt(raw: Option<&str>) -> Option<Seq<char>> {
    match raw {
        Some(t) => Some(t@),
        None => None,
    }
}

/// Settings shared by the front-end and the workers.
#[derive(Clone, Debug)]
pub struct Config {
    pub redis_url: String,
    pub default_timeout_ms: u64,
    pub max_timeout_ms: u64,
}

impl Config {
    /// The store's address defaults to `redis://localhost:6379`, the default
    /// timeout to 5000 ms and the largest timeout to 30000 ms.
    pub fn new(redis_url: Option<&str>, default_timeout_ms: Option<&str>, max_timeout_ms: Option<&str>) -> (r:
        Config)
        ensures
            r.redis_url@ == (match redis_url {
                Some(u) => u@,
                None => "redis://localhost:6379"@,
            }),
            r.default_timeout_ms == setting(view_opt(default_timeout_ms), u64::MAX as nat, 5000),
            r.max_timeout_ms == setting(view_opt(max_timeout_ms), u64::MAX as nat, 30000),
    {
        let url = match redis_url {
            Some(u) => String::from_str(u),
            None => String::from_str("redis://localhost:6379"),
        };
        Config {
            redis_url: url,
            default_timeout_ms: read_setting(default_timeout_ms, u64::MAX, 5000),
            max_timeout_ms: read_setting(max_timeout_ms, u64::MAX, 30000),
        }
    }
}

impl Default for Config {
    fn default() -> (r: Config)
        ensures
            r.redis_url@ == "redis://localhost:6379"@,
            r.default_timeout_ms == 5000,
            r.max_timeout_ms == 30000,
    {
        Config::new(None, None, None)
    }
}

/// How much a worker runs at once.
#[derive(Clone, Debug)]
pub struct WorkerConfig {
    /// Jobs executing in parallel on this worker; 1 by default.
    pub max_parallel_jobs: usize,
    /// Tests executing in parallel within one job; 1 by default.
    pub max_parallel_tests: usize,
}

impl WorkerConfig {
    pub fn new(max_parallel_jobs: Option<&str>, max_parallel_tests: Option<&str>) -> (r: WorkerConfig)
        ensures
            r.max_parallel_jobs == setting(view_opt(max_parallel_jobs), usize::MAX as nat, 1),
            r.max_parallel_tests == setting(view_opt(max_parallel_tests), usize::MAX as nat, 1),
    {
        WorkerConfig {
            max_parallel_jobs: read_setting(max_parallel_jobs, usize::MAX as u64, 1) as usize,
            max_parallel_tests: read_setting(max_parallel_tests, usize::MAX as u64, 1) as usize,
        }
    }
}

impl Default for WorkerConfig {
    fn default() -> (r: WorkerConfig)
        ensures
            r.max_parallel_jobs == 1,
            r.max_parallel_tests == 1,
    {
        WorkerConfig::new(None, None)
    }
}

} // verus!
