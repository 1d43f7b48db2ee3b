//! The settings of a run.

use vstd::prelude::*;
use crate::retry::{RetryPolicy, DEFAULT_BASE_DELAY_MS, DEFAULT_MAX_DELAY_MS, DEFAULT_MAX_RETRIES};

verus! {

/// The number of jobs that may be active at a time unless the caller says
/// otherwise.
pub const DEFAULT_CONCURRENCY: u16 = 8;

/// Why a run cannot start.
#[derive(Clone, Copy, Debug, PartialEq, Eq, Structural)]
pub enum ConfigError {
    /// The number of workers is zero.
    NoWorkers,
    /// The download folder is not there and could not be made.
    NoDestinationFolder,
    /// The list of jobs is empty.
    NoJobs,
}

/// The fault in the settings of a run, if there is one. The number of workers
/// is looked at first, then the download folder, then the list of jobs.
pub open spec fn config_fault(concurrency: u16, folder_ready: bool, jobs: nat) -> Option<
    ConfigError,
> {
    if concurrency == 0 {
        Some(ConfigError::NoWorkers)
    } else if !folder_ready {
        Some(ConfigError::NoDestinationFolder)
    } else if jobs == 0 {
        Some(ConfigError::NoJobs)
    } else {
        None
    }
}

/// The options of a run.
#[derive(Debug, PartialEq, Eq)]
pub struct Config {
    /// The folder that the destinations of the jobs lie in.
    pub download_folder: String,
    /// The number of jobs that may be active at a time; at least one.
    pub concurrency: u16,
    /// The number of attempts that a job may get.
    pub max_retries: u16,
}

impl Config {
    /// The default options for a run into `download_folder`.
    pub fn new(download_folder: &str) -> (c: Config)
        ensures
            c.download_folder@ == download_folder@,
            c.concurrency == DEFAULT_CONCURRENCY,
            c.max_retries == DEFAULT_MAX_RETRIES,
    {
        Config {
            download_folder: download_folder.to_owned(),
            concurrency: DEFAULT_CONCURRENCY,
            max_retries: DEFAULT_MAX_RETRIES,
        }
    }

    /// The retry policy of these options, with the default delays.
    pub fn policy(&self) -> (p: RetryPolicy)
        ensures
            p == (RetryPolicy {
                max_retries: self.max_retries,
                base_delay_ms: DEFAULT_BASE_DELAY_MS,
                max_delay_ms: DEFAULT_MAX_DELAY_MS,
            }),
    {
        RetryPolicy::with_max_retries(self.max_retries)
    }

    /// Tells what is wrong with a run of `jobs` jobs under these options, if
    /// anything is. `folder_ready` tells whether the download folder is there.
    pub fn check(&self, folder_ready: bool, jobs: usize) -> (r: Result<(), ConfigError>)
        ensures
            match r {
                Ok(_) => config_fault(self.concurrency, folder_ready, jobs as nat) is None,
                Err(e) => config_fault(self.concurrency, folder_ready, jobs as nat) == Some(e),
            },
    {
        if self.concurrency == 0 {
            Err(ConfigError::NoWorkers)
        } else if !folder_ready {
            Err(ConfigError::NoDestinationFolder)
        } else if jobs == 0 {
            Err(ConfigError::NoJobs)
        } else {
            Ok(())
        }
    }
}

} // verus!
