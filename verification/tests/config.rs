use slot_broadcaster::config::{LogConfig, TokioConfig};

#[test]
fn log_defaults() {
    assert_eq!(LogConfig::default_level(), "info");
    assert_eq!(LogConfig::default().level, "info");
}

#[test]
fn tokio_defaults() {
    assert_eq!(TokioConfig::default_worker_threads(), 4);
    assert_eq!(TokioConfig::default_thread_name(), "tokio-worker");
    let config = TokioConfig::default();
    assert_eq!(config.worker_threads, 4);
    assert_eq!(config.thread_name, "tokio-worker");
}

#[test]
fn clones_keep_the_settings() {
    let log = LogConfig { level: "debug".to_string() };
    assert_eq!(log.clone().level, "debug");
    let tokio = TokioConfig { worker_threads: 8, thread_name: "custom".to_string() };
    let copy = tokio.clone();
    assert_eq!(copy.worker_threads, 8);
    assert_eq!(copy.thread_name, "custom");
}
