use optimus::config::{Config, WorkerConfig};

#[test]
fn test_config_defaults() {
    let config = Config::default();
    assert_eq!(config.default_timeout_ms, 5000);
    assert_eq!(config.max_timeout_ms, 30000);
}

#[test]
fn test_worker_config_defaults() {
    let config = WorkerConfig::default();
    assert_eq!(config.max_parallel_jobs, 1);
    assert_eq!(config.max_parallel_tests, 1);
}

#[test]
fn config_reads_given_values() {
    let config = Config::new(Some("redis://store:6379"), Some("+2500"), Some("abc"));
    assert_eq!(config.redis_url, "redis://store:6379");
    assert_eq!(config.default_timeout_ms, 2500);
    assert_eq!(config.max_timeout_ms, 30000);
    let config = Config::new(None, Some("18446744073709551616"), Some("18446744073709551615"));
    assert_eq!(config.redis_url, "redis://localhost:6379");
    assert_eq!(config.default_timeout_ms, 5000);
    assert_eq!(config.max_timeout_ms, u64::MAX);
    let w = WorkerConfig::new(Some("4"), Some(""));
    assert_eq!(w.max_parallel_jobs, 4);
    assert_eq!(w.max_parallel_tests, 1);
}
