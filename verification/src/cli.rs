//! The settings of one run, as the command line gives them.

use vstd::prelude::*;

verus! {

/// Log output format options.
#[derive(Clone, Copy, Debug, PartialEq, Eq, Structural)]
pub enum LogFormat {
    /// Human-readable text format
    Text,
    /// JSON format
    Json,
}

/// Log level options.
#[derive(Clone, Copy, Debug, PartialEq, Eq, Structural)]
pub enum LogLevel {
    /// Debug level (most verbose)
    Debug,
    /// Info level
    Info,
    /// Warning level
    Warn,
    /// Error level (least verbose)
    Error,
}

/// The settings of one run.
#[derive(Debug, Clone)]
pub struct Args {
    /// One or more URLs to fetch
    pub urls: Vec<String>,
    /// Optional file with a list of URLs
    pub input: Option<String>,
    /// Output file path (only valid for single URL)
    pub output: Option<String>,
    /// Custom headers
    pub headers: Vec<String>,
    /// Resume if file already exists
    pub resume: bool,
    /// Maximum number of retries on failure
    pub max_retries: u32,
    /// Verbose output
    pub verbose: bool,
    /// Output logs in JSON format
    pub log_json: bool,
    /// Log output format (json or text)
    pub log_format: Option<LogFormat>,
    /// Log level (debug, info, warn, error)
    pub log_level: Option<LogLevel>,
    /// Quiet mode
    pub quiet: bool,
    /// Directory to save downloaded files
    pub output_dir: Option<String>,
    /// Number of parallel downloads
    pub jobs: usize,
    /// Path to log file for failed downloads
    pub log: String,
    /// Create a default configuration template
    pub init: bool,
    /// Base delay for exponential backoff in milliseconds
    pub backoff_base_ms: u64,
    /// Maximum delay for exponential backoff in milliseconds
    pub backoff_max_ms: u64,
}

/// Whether logs are written as JSON: the flag decides, then the format.
pub open spec fn spec_json_output(log_json: bool, log_format: Option<LogFormat>) -> bool {
    log_json || log_format == Some(LogFormat::Json)
}

/// Determine whether to use JSON output based on configuration.
pub fn determine_json_output(args: &Args) -> (r: bool)
    ensures
        r == spec_json_output(args.log_json, args.log_format),
{
    if args.log_json {
        return true;
    }
    match args.log_format {
        Some(LogFormat::Json) => true,
        Some(LogFormat::Text) => false,
        None => false,
    }
}

} // verus!
