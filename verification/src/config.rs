//! Server configuration and the intervals of the automatic fetcher.

use vstd::prelude::*;

verus! {

/// Interval of the enqueue loop when the configuration holds none, in seconds.
pub const DEFAULT_MAJOR_INTERVAL: u64 = 3600;

/// Interval between two queue pops of one worker when the configuration holds
/// none, in seconds.
pub const DEFAULT_MINOR_INTERVAL: u64 = 45;

/// Pause between two item fetches when the configuration holds none, in seconds.
pub const DEFAULT_MINOR_ITEM_INTERVAL: u64 = 40;

/// Number of worker threads when the configuration holds none.
pub const DEFAULT_FETCHER_COUNT: u64 = 3;

/// Settings of the automatic fetcher. All intervals are in seconds.
pub struct AutoFetcherConfig {
    pub fetcher_count: u64,
    pub minor_interval: u64,
    pub minor_item_interval: u64,
    pub major_interval: u64,
}

/// The server's configuration.
pub struct Config {
    pub bind_addr: String,
    pub database: String,
    pub private_key: String,
    pub base_path: String,
    pub auto_fetcher: Option<AutoFetcherConfig>,
}

impl Config {
    /// A server without a private key is a development server.
    pub fn is_dev(&self) -> (dev: bool)
        ensures
            dev == (self.private_key@.len() == 0),
    {
        self.private_key.as_str().is_empty()
    }

    /// The major interval that `self` asks for.
    pub open spec fn cycle_sleep(&self) -> u64 {
        match self.auto_fetcher {
            Some(f) => f.major_interval,
            None => DEFAULT_MAJOR_INTERVAL,
        }
    }

    /// The minor interval that `self` asks for.
    pub open spec fn fetcher_wait(&self) -> u64 {
        match self.auto_fetcher {
            Some(f) => f.minor_interval,
            None => DEFAULT_MINOR_INTERVAL,
        }
    }

    /// The pause between items that `self` asks for.
    pub open spec fn fetcher_item_wait(&self) -> u64 {
        match self.auto_fetcher {
            Some(f) => f.minor_item_interval,
            None => DEFAULT_MINOR_ITEM_INTERVAL,
        }
    }

    /// The number of workers that `self` asks for.
    pub open spec fn fetcher_count(&self) -> u64 {
        match self.auto_fetcher {
            Some(f) => f.fetcher_count,
            None => DEFAULT_FETCHER_COUNT,
        }
    }
}

/// Seconds the enqueue loop sleeps between two scans of the subscriptions.
pub fn get_cycle_sleep(config: &Config) -> (secs: u64)
    ensures
        secs == config.cycle_sleep(),
{
    match &config.auto_fetcher {
        Some(f) => f.major_interval,
        None => DEFAULT_MAJOR_INTERVAL,
    }
}

/// Seconds a worker sleeps between two queue pops.
pub fn get_fetcher_wait(config: &Config) -> (secs: u64)
    ensures
        secs == config.fetcher_wait(),
{
    match &config.auto_fetcher {
        Some(f) => f.minor_interval,
        None => DEFAULT_MINOR_INTERVAL,
    }
}

/// Seconds a worker sleeps after it fetched one item of a source.
pub fn get_fetcher_item_wait(config: &Config) -> (secs: u64)
    ensures
        secs == config.fetcher_item_wait(),
{
    match &config.auto_fetcher {
        Some(f) => f.minor_item_interval,
        None => DEFAULT_MINOR_ITEM_INTERVAL,
    }
}

/// Number of worker threads to start.
pub fn get_fetcher_count(config: &Config) -> (count: u64)
    ensures
        count == config.fetcher_count(),
{
    match &config.auto_fetcher {
        Some(f) => f.fetcher_count,
        None => DEFAULT_FETCHER_COUNT,
    }
}

} // verus!
