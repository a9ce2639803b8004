//! The service's configuration and the watcher that swaps it at run time.
//!
//! A configuration is replaced as a whole: a reader sees either the old one
//! or the new one, never a mixture. Every swap also replaces the eviction
//! worker, since a worker keeps the time-to-live it was started with.

use vstd::prelude::*;
use vstd::string::StringExecFns;

verus! {

/// Seconds that the watcher waits for the previous worker to stop.
pub const CANCEL_GRACE_SECS: u64 = 1;

/// Why a configuration was refused or could not be put into effect.
#[derive(Clone, Debug, PartialEq, Eq)]
pub enum ConfigError {
    /// The time-to-live is below zero.
    NegativeTtl,
    /// The previous worker did not stop within the grace period; `detail`
    /// is what the host said.
    WorkerNotStopped { detail: String },
    /// The new worker could not be started; `detail` is what the host said.
    WorkerNotStarted { detail: String },
}

/// The tag under which the eviction worker runs and is cancelled.
pub open spec fn worker_tag_text() -> Seq<char> {
    "ttl-worker"@
}

/// The tag under which the eviction worker runs and is cancelled.
pub fn worker_tag() -> (tag: &'static str)
    ensures
        tag@ == worker_tag_text(),
{
    "ttl-worker"
}

/// What the resolver and the evictor read on every operation.
#[derive(Clone, Copy, Debug, PartialEq, Eq)]
pub struct ServiceConfig {
    /// Seconds that one call to the provider may take.
    pub request_timeout: u64,
    /// Seconds that a record may age before it is evicted.
    pub ttl: u64,
}

/// What the watcher asks of whoever runs the workers.
#[derive(Clone, Copy, Debug, PartialEq, Eq)]
pub enum WorkerCommand {
    /// Stop the running eviction worker, waiting at most `grace_secs`.
    Cancel { grace_secs: u64 },
    /// Start an eviction worker with this time-to-live.
    Start { ttl: u64 },
}

impl ConfigError {
    /// What went wrong, in words: the host's own words where the host
    /// failed.
    pub open spec fn text(self) -> Seq<char> {
        match self {
            ConfigError::NegativeTtl => "ttl must not be negative"@,
            ConfigError::WorkerNotStopped { detail } => detail@,
            ConfigError::WorkerNotStarted { detail } => detail@,
        }
    }

    /// What went wrong, in words.
    pub fn message(&self) -> (text: String)
        ensures
            text@ == self.text(),
    {
        match self {
            ConfigError::NegativeTtl => String::from_str("ttl must not be negative"),
            ConfigError::WorkerNotStopped { detail } => detail.clone(),
            ConfigError::WorkerNotStarted { detail } => detail.clone(),
        }
    }
}

impl ServiceConfig {
    /// Takes the settings as they are written down.
    pub fn from_settings(timeout: u64, ttl: i64) -> (parsed: Result<ServiceConfig, ConfigError>)
        ensures
            ttl >= 0 ==> parsed == Ok::<ServiceConfig, ConfigError>(
                ServiceConfig { request_timeout: timeout, ttl: ttl as u64 },
            ),
            ttl < 0 ==> parsed == Err::<ServiceConfig, ConfigError>(ConfigError::NegativeTtl),
    {
        if ttl < 0 {
            Err(ConfigError::NegativeTtl)
        } else {
            Ok(ServiceConfig { request_timeout: timeout, ttl: ttl as u64 })
        }
    }
}

/// Holds the configuration in effect.
#[derive(Clone, Copy, Debug, PartialEq, Eq)]
pub struct ConfigWatcher {
    current: ServiceConfig,
}

/// A swap whose previous worker has been asked to stop.
#[derive(Clone, Copy, Debug, PartialEq, Eq)]
pub struct PendingCancel {
    ttl: u64,
}

/// A swap whose new worker has been asked to start.
#[derive(Clone, Debug, PartialEq, Eq)]
pub struct PendingStart {
    failure: Option<String>,
}

impl ConfigWatcher {
    /// The configuration in effect.
    pub closed spec fn config(self) -> ServiceConfig {
        self.current
    }

    /// The watcher once `new_config` has been applied to it.
    pub closed spec fn applied(self, new_config: ServiceConfig) -> ConfigWatcher {
        ConfigWatcher { current: new_config }
    }

    /// A watcher with `config` in effect, and the command that starts the
    /// first eviction worker.
    pub fn new(config: ServiceConfig) -> (started: (ConfigWatcher, WorkerCommand))
        ensures
            started.0.config() == config,
            started.1 == (WorkerCommand::Start { ttl: config.ttl }),
    {
        (ConfigWatcher { current: config }, WorkerCommand::Start { ttl: config.ttl })
    }

    /// A copy of the configuration in effect.
    pub fn snapshot(&self) -> (config: ServiceConfig)
        ensures
            config == self.config(),
    {
        self.current
    }

    /// Puts `new_config` into effect, whole, and asks for the running worker
    /// to be stopped.
    pub fn apply(&mut self, new_config: ServiceConfig) -> (swap: (PendingCancel, WorkerCommand))
        ensures
            *final(self) == old(self).applied(new_config),
            final(self).config() == new_config,
            swap.0.ttl() == new_config.ttl,
            swap.1 == (WorkerCommand::Cancel { grace_secs: CANCEL_GRACE_SECS }),
    {
        self.current = new_config;
        (
            PendingCancel { ttl: new_config.ttl },
            WorkerCommand::Cancel { grace_secs: CANCEL_GRACE_SECS },
        )
    }

    /// Asks for the running worker to be stopped, as on shutdown.
    pub fn stop(&self) -> (command: WorkerCommand)
        ensures
            command == (WorkerCommand::Cancel { grace_secs: CANCEL_GRACE_SECS }),
    {
        WorkerCommand::Cancel { grace_secs: CANCEL_GRACE_SECS }
    }

    /// What a shutdown reports: the host's answer to the cancel command,
    /// its error handed on where the worker did not stop in time.
    pub fn stopped(answer: Result<(), String>) -> (report: Result<(), ConfigError>)
        ensures
            report == match answer {
                Ok(_) => Ok::<(), ConfigError>(()),
                Err(detail) => Err::<(), ConfigError>(ConfigError::WorkerNotStopped { detail }),
            },
    {
        match answer {
            Ok(_) => Ok(()),
            Err(detail) => Err(ConfigError::WorkerNotStopped { detail }),
        }
    }
}

impl PendingCancel {
    /// The time-to-live that the new worker will get.
    pub closed spec fn ttl(self) -> u64 {
        self.ttl
    }

    /// Takes the host's answer to the cancel command. Whether or not the
    /// previous worker stopped in time, the new one is started.
    pub fn cancelled(self, answer: Result<(), String>) -> (next: (PendingStart, WorkerCommand))
        ensures
            next.0.cancel_failure() == match answer {
                Ok(_) => None::<String>,
                Err(detail) => Some(detail),
            },
            next.1 == (WorkerCommand::Start { ttl: self.ttl() }),
    {
        let failure = match answer {
            Ok(_) => None,
            Err(detail) => Some(detail),
        };
        (PendingStart { failure }, WorkerCommand::Start { ttl: self.ttl })
    }
}

impl PendingStart {
    /// What the host said if the previous worker did not stop within the
    /// grace period.
    pub closed spec fn cancel_failure(self) -> Option<String> {
        self.failure
    }

    /// Takes the host's answer to the start command and reports on the
    /// swap: the failed cancellation first, then the failed start, each
    /// with the host's own error.
    pub fn started(self, answer: Result<(), String>) -> (report: Result<(), ConfigError>)
        ensures
            report == swap_report(self.cancel_failure(), answer),
    {
        match self.failure {
            Some(detail) => Err(ConfigError::WorkerNotStopped { detail }),
            None => match answer {
                Ok(_) => Ok(()),
                Err(detail) => Err(ConfigError::WorkerNotStarted { detail }),
            },
        }
    }
}

/// The report on a swap whose cancel and start commands were answered so.
pub open spec fn swap_report(cancel_failure: Option<String>, started: Result<(), String>)
    -> Result<(), ConfigError> {
    match cancel_failure {
        Some(detail) => Err(ConfigError::WorkerNotStopped { detail }),
        None => match started {
            Ok(_) => Ok(()),
            Err(detail) => Err(ConfigError::WorkerNotStarted { detail }),
        },
    }
}

/// The last configuration applied is the one in effect, whole: both of its
/// fields come from it, whatever was in effect before.
pub proof fn lemma_last_config_wins(
    watcher: ConfigWatcher,
    first: ServiceConfig,
    second: ServiceConfig,
)
    ensures
        watcher.applied(first).applied(second).config() == second,
        watcher.applied(first).applied(second).config().request_timeout
            == second.request_timeout,
        watcher.applied(first).applied(second).config().ttl == second.ttl,
        watcher.applied(first).applied(second) == watcher.applied(second),
{
}

} // verus!
