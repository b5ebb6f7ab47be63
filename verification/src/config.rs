//! Settings of the logger and of the async runtime, with their defaults.

use vstd::prelude::*;
use vstd::string::StringExecFns;

verus! {

/// Settings of the logger.
#[derive(Debug)]
pub struct LogConfig {
    /// Log level.
    pub level: String,
}

impl LogConfig {
    /// The log level used where none is configured.
    pub fn default_level() -> (level: String)
        ensures
            level@ == "info"@,
    {
        String::from_str("info")
    }
}

impl Default for LogConfig {
    fn default() -> (config: Self)
        ensures
            config.level@ == "info"@,
    {
        Self { level: Self::default_level() }
    }
}

impl Clone for LogConfig {
    fn clone(&self) -> (copy: Self)
        ensures
            copy == *self,
    {
        Self { level: self.level.clone() }
    }
}

/// Settings of the Tokio runtime.
#[derive(Debug)]
pub struct TokioConfig {
    /// Number of worker threads in the Tokio runtime.
    pub worker_threads: usize,
    /// Name given to the worker threads.
    pub thread_name: String,
}

impl TokioConfig {
    /// The number of worker threads used where none is configured.
    pub fn default_worker_threads() -> (threads: usize)
        ensures
            threads == 4,
    {
        4
    }

    /// The thread name used where none is configured.
    pub fn default_thread_name() -> (name: String)
        ensures
            name@ == "tokio-worker"@,
    {
        String::from_str("tokio-worker")
    }
}

impl Default for TokioConfig {
    fn default() -> (config: Self)
        ensures
            config.worker_threads == 4,
            config.thread_name@ == "tokio-worker"@,
    {
        Self {
            worker_threads: Self::default_worker_threads(),
            thread_name: Self::default_thread_name(),
        }
    }
}

impl Clone for TokioConfig {
    fn clone(&self) -> (copy: Self)
        ensures
            copy == *self,
    {
        Self { worker_threads: self.worker_threads, thread_name: self.thread_name.clone() }
    }
}

} // verus!
