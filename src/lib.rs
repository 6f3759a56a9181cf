//! A code-execution service: the job and key schema shared by the front-end and
//! the workers, the language registry, the evaluator that scores a run, and the
//! decisions of the worker and the front-end, each stated as a contract.
pub mod text;
pub mod ids;
pub mod types;
pub mod keys;
pub mod evaluator;
pub mod registry;
pub mod worker;
pub mod api;
pub mod engine;
pub mod config;

pub use config::Config;
pub use types::{ExecutionResult, JobRequest, JobStatus, Language};
pub mod commands;
pub mod dockerfiles;
