//! Media download queue for a chat bot: job admission with backpressure,
//! bounded dispatch, downloader output parsing, and the post-download size
//! policy with guaranteed cleanup.
pub mod text;
pub mod guard;
pub mod event;
pub mod runner;
pub mod queue;
pub mod job;
pub mod env;
pub mod error;
