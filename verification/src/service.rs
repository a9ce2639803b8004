//! The service as its host sees it: started with a configuration, told of
//! every change to it, and stopped.

use crate::config::{ConfigWatcher, PendingCancel, ServiceConfig, WorkerCommand, CANCEL_GRACE_SECS};
use vstd::prelude::*;

verus! {

/// Seconds that a call to the provider may take while no configuration is
/// in effect.
pub const DEFAULT_REQUEST_TIMEOUT_SECS: u64 = 3;

/// The weather service: the configuration in effect, once there is one.
#[derive(Clone, Copy, Debug, PartialEq, Eq)]
pub struct WeatherService {
    current: Option<ServiceConfig>,
}

impl WeatherService {
    /// The configuration in effect; none before the service is started.
    pub closed spec fn config(self) -> Option<ServiceConfig> {
        self.current
    }

    /// The timeout that a fetch gets under `config`.
    pub open spec fn timeout_under(config: Option<ServiceConfig>) -> u64 {
        match config {
            Some(config) => config.request_timeout,
            None => DEFAULT_REQUEST_TIMEOUT_SECS,
        }
    }

    /// A service that has not been started.
    pub fn new() -> (service: WeatherService)
        ensures
            service.config() is None,
    {
        WeatherService { current: None }
    }

    /// A copy of the configuration in effect.
    pub fn snapshot(&self) -> (config: Option<ServiceConfig>)
        ensures
            config == self.config(),
    {
        self.current
    }

    /// Seconds that a call to the provider may take.
    pub fn request_timeout(&self) -> (seconds: u64)
        ensures
            seconds == Self::timeout_under(self.config()),
    {
        match self.current {
            Some(config) => config.request_timeout,
            None => DEFAULT_REQUEST_TIMEOUT_SECS,
        }
    }

    /// Puts `cfg` into effect and asks for the first eviction worker.
    pub fn on_start(&mut self, cfg: ServiceConfig) -> (command: WorkerCommand)
        ensures
            final(self).config() == Some(cfg),
            command == (WorkerCommand::Start { ttl: cfg.ttl }),
    {
        let (watcher, command) = ConfigWatcher::new(cfg);
        self.current = Some(watcher.snapshot());
        command
    }

    /// Puts `new_cfg` into effect, whole, and asks for the running worker to
    /// be stopped; the swap that is returned then asks for the new one.
    pub fn on_config_change(&mut self, new_cfg: ServiceConfig, old_cfg: ServiceConfig) -> (swap: (
        PendingCancel,
        WorkerCommand,
    ))
        ensures
            final(self).config() == Some(new_cfg),
            swap.0.ttl() == new_cfg.ttl,
            swap.1 == (WorkerCommand::Cancel { grace_secs: CANCEL_GRACE_SECS }),
    {
        let (mut watcher, _) = ConfigWatcher::new(old_cfg);
        let swap = watcher.apply(new_cfg);
        self.current = Some(watcher.snapshot());
        swap
    }

    /// Asks for the running worker to be stopped.
    pub fn on_stop(&self) -> (command: WorkerCommand)
        ensures
            command == (WorkerCommand::Cancel { grace_secs: CANCEL_GRACE_SECS }),
    {
        WorkerCommand::Cancel { grace_secs: CANCEL_GRACE_SECS }
    }
}

} // verus!
