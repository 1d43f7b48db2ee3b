//! A batch download engine for the media files that a feed refers to.
//!
//! The crate holds the decisions of such an engine and proves them: which
//! errors are worth another attempt, how long to wait before it, which job a
//! free worker takes, when a job is over, where its result goes, and which
//! partial files have to be removed. Reading the network, the clock and the
//! disk is left to the program around it, which hands what it saw to the
//! state machines here and carries out what they answer.
//!
//! - [`feed`] reads a feed and plans one job for each wanted element.
//! - [`scheduler`] runs the jobs: [`scheduler::model`] is the run as a
//!   mathematical state machine, [`scheduler::laws`] is what holds of every
//!   run.
//! - [`retry`] is the retry policy, [`transport`] the rules of one attempt,
//!   [`aggregate`] the collector of the results.
//! - [`reporter`] and [`report`] make the lines that are shown to the user.

pub mod aggregate;
pub mod config;
pub mod error;
pub mod feed;
pub mod job;
pub mod report;
pub mod reporter;
pub mod retry;
pub mod scheduler;
pub mod text;
pub mod transport;

pub use aggregate::{Recorded, ResultAggregator};
pub use config::{Config, ConfigError};
pub use error::ErrorKind;
pub use job::{Attempt, AttemptReport, Cleanup, Job, JobResult, Outcome};
pub use reporter::SimpleReporter;
pub use retry::RetryPolicy;
pub use scheduler::model::Phase;
pub use scheduler::{Dispatch, Scheduler, Verdict};
pub use transport::{ProgressEvent, Response, StreamEnd, Transfer};
