//! What a sampling session is set up with.
use vstd::prelude::*;
use core::time::Duration;

verus! {

/// The settings of one sampling session.
#[derive(Debug)]
pub struct RbspyConfig {
    /// Process to monitor.
    pub pid: Option<i32>,
    /// Samples per second.
    pub sample_rate: u32,
    /// Whether the process is locked while a sample is taken.
    pub lock_process: bool,
    /// How long to profile. `None` for no limit.
    pub time_limit: Option<Duration>,
    /// Whether subprocesses are sampled too.
    pub with_subprocesses: bool,
}

impl Default for RbspyConfig {
    fn default() -> (c: RbspyConfig)
        ensures
            c == (RbspyConfig {
                pid: None,
                sample_rate: 100,
                lock_process: false,
                time_limit: None,
                with_subprocesses: false,
            }),
    {
        RbspyConfig {
            pid: None,
            sample_rate: 100,
            lock_process: false,
            time_limit: None,
            with_subprocesses: false,
        }
    }
}

impl RbspyConfig {
    /// The default settings for the process `pid`.
    pub fn new(pid: i32) -> (c: RbspyConfig)
        ensures
            c == (RbspyConfig {
                pid: Some(pid),
                sample_rate: 100,
                lock_process: false,
                time_limit: None,
                with_subprocesses: false,
            }),
    {
        RbspyConfig {
            pid: Some(pid),
            sample_rate: 100,
            lock_process: false,
            time_limit: None,
            with_subprocesses: false,
        }
    }

    /// The same settings with another sample rate.
    pub fn sample_rate(self, sample_rate: u32) -> (c: RbspyConfig)
        ensures
            c == (RbspyConfig { sample_rate, ..self }),
    {
        RbspyConfig { sample_rate, ..self }
    }

    /// The same settings with another locking policy.
    pub fn lock_process(self, lock_process: bool) -> (c: RbspyConfig)
        ensures
            c == (RbspyConfig { lock_process, ..self }),
    {
        RbspyConfig { lock_process, ..self }
    }

    /// The same settings with another time limit.
    pub fn time_limit(self, time_limit: Option<Duration>) -> (c: RbspyConfig)
        ensures
            c == (RbspyConfig { time_limit, ..self }),
    {
        RbspyConfig { time_limit, ..self }
    }

    /// The same settings with subprocesses included or not.
    pub fn with_subprocesses(self, with_subprocesses: bool) -> (c: RbspyConfig)
        ensures
            c == (RbspyConfig { with_subprocesses, ..self }),
    {
        RbspyConfig { with_subprocesses, ..self }
    }
}

} // verus!
