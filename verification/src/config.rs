//! The values that a configuration file can set. All are optional; only
//! the keys that are present override the defaults.

use vstd::prelude::*;

verus! {

/// The contents of a configuration file.
#[derive(Debug, Default)]
pub struct Config {
    /// Directory for the output file where no output path is given.
    pub output_dir: Option<String>,
    /// HTTP user agent.
    pub user_agent: Option<String>,
    /// Pause between two requests, in seconds.
    pub request_delay_secs: Option<u64>,
    /// Time allowed for one request, in seconds.
    pub timeout_secs: Option<u64>,
    /// Whether an EPUB gets a page of contents behind its cover.
    pub toc_page: Option<bool>,
    /// Number of attempts for one request.
    pub retry_count: Option<u32>,
    /// Waits after failed attempts, in seconds.
    pub retry_backoff_secs: Option<Vec<u64>>,
    /// What to do with empty chapters: skip, placeholder or fail.
    pub empty_chapters: Option<String>,
}

} // verus!
