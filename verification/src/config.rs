//! The configuration file's values and how they fill in what the command
//! line left at its default.

use crate::cli::{Args, LogFormat, LogLevel};
use crate::text::{chars_eq, chars_of, lowercase, to_lowercase};
use vstd::prelude::*;

verus! {

/// The values of the configuration file.
#[derive(Debug)]
pub struct Config {
    pub retries: Option<usize>,
    pub resume: Option<bool>,
    pub quiet: Option<bool>,
    pub verbose: Option<bool>,
    pub jobs: Option<usize>,
    pub output_dir: Option<String>,
    pub headers: Option<Vec<String>>,
    pub log: Option<String>,
    pub backoff_base_ms: Option<u64>,
    pub backoff_max_ms: Option<u64>,
    pub retry: Option<RetryConfig>,
    pub logging: Option<LoggingConfig>,
}

/// The `[retry]` section.
#[derive(Debug)]
pub struct RetryConfig {
    pub max: Option<usize>,
    pub base_ms: Option<u64>,
    pub max_ms: Option<u64>,
}

/// The `[logging]` section.
#[derive(Debug)]
pub struct LoggingConfig {
    pub format: Option<String>,
    pub level: Option<String>,
}

impl Default for RetryConfig {
    fn default() -> (r: Self)
        ensures
            r.max is None,
            r.base_ms is None,
            r.max_ms is None,
    {
        RetryConfig { max: None, base_ms: None, max_ms: None }
    }
}

impl Default for LoggingConfig {
    fn default() -> (r: Self)
        ensures
            r.format is None,
            r.level is None,
    {
        LoggingConfig { format: None, level: None }
    }
}

impl Default for Config {
    fn default() -> (r: Self)
        ensures
            r.is_empty(),
    {
        Config {
            retries: None,
            resume: None,
            quiet: None,
            verbose: None,
            jobs: None,
            output_dir: None,
            headers: None,
            log: None,
            backoff_base_ms: None,
            backoff_max_ms: None,
            retry: None,
            logging: None,
        }
    }
}

/// The configuration to go by after an attempt to load one: the loaded
/// one, or the empty one where loading failed.
pub fn loaded_or_default(loaded: Result<Config, crate::error::RuGetError>) -> (r: Config)
    ensures
        loaded matches Ok(c) ==> r == c,
        loaded is Err ==> r.is_empty(),
{
    match loaded {
        Ok(config) => config,
        Err(_) => Config::default(),
    }
}

/// The retry count taken from a configured value: 3 where none is given;
/// a given one reduced to 32 bits.
pub open spec fn spec_retry_count(configured: Option<usize>) -> u32 {
    match configured {
        Some(n) => (n as int % 0x1_0000_0000) as u32,
        None => 3,
    }
}

fn retry_count(configured: Option<usize>) -> (r: u32)
    ensures
        r == spec_retry_count(configured),
{
    match configured {
        Some(n) => ((n as u64) % 0x1_0000_0000) as u32,
        None => 3,
    }
}

/// The format that a configured name stands for, by its lowercase form.
pub open spec fn spec_format_named(name: Seq<char>) -> Option<LogFormat> {
    if lowercase(name) == "json"@ {
        Some(LogFormat::Json)
    } else if lowercase(name) == "text"@ {
        Some(LogFormat::Text)
    } else {
        None
    }
}

/// The level that a configured name stands for, by its lowercase form.
pub open spec fn spec_level_named(name: Seq<char>) -> Option<LogLevel> {
    if lowercase(name) == "debug"@ {
        Some(LogLevel::Debug)
    } else if lowercase(name) == "info"@ {
        Some(LogLevel::Info)
    } else if lowercase(name) == "warn"@ {
        Some(LogLevel::Warn)
    } else if lowercase(name) == "error"@ {
        Some(LogLevel::Error)
    } else {
        None
    }
}

/// The format named by the lowercase form of a name: `json` or `text`.
pub fn format_for_lowercase(lower: &str) -> (r: Option<LogFormat>)
    ensures
        r == (if lower@ == "json"@ {
            Some(LogFormat::Json)
        } else if lower@ == "text"@ {
            Some(LogFormat::Text)
        } else {
            None
        }),
{
    let cs = chars_of(lower);
    if chars_eq(cs.as_slice(), chars_of("json").as_slice()) {
        Some(LogFormat::Json)
    } else if chars_eq(cs.as_slice(), chars_of("text").as_slice()) {
        Some(LogFormat::Text)
    } else {
        None
    }
}

/// The level named by the lowercase form of a name: `debug`, `info`, `warn`
/// or `error`.
pub fn level_for_lowercase(lower: &str) -> (r: Option<LogLevel>)
    ensures
        r == (if lower@ == "debug"@ {
            Some(LogLevel::Debug)
        } else if lower@ == "info"@ {
            Some(LogLevel::Info)
        } else if lower@ == "warn"@ {
            Some(LogLevel::Warn)
        } else if lower@ == "error"@ {
            Some(LogLevel::Error)
        } else {
            None
        }),
{
    let cs = chars_of(lower);
    if chars_eq(cs.as_slice(), chars_of("debug").as_slice()) {
        Some(LogLevel::Debug)
    } else if chars_eq(cs.as_slice(), chars_of("info").as_slice()) {
        Some(LogLevel::Info)
    } else if chars_eq(cs.as_slice(), chars_of("warn").as_slice()) {
        Some(LogLevel::Warn)
    } else if chars_eq(cs.as_slice(), chars_of("error").as_slice()) {
        Some(LogLevel::Error)
    } else {
        None
    }
}

/// The format that a configured name stands for, whatever its case.
pub fn format_named(name: &str) -> (r: Option<LogFormat>)
    ensures
        r == spec_format_named(name@),
{
    let lower = to_lowercase(name);
    format_for_lowercase(lower.as_str())
}

/// The level that a configured name stands for, whatever its case.
pub fn level_named(name: &str) -> (r: Option<LogLevel>)
    ensures
        r == spec_level_named(name@),
{
    let lower = to_lowercase(name);
    level_for_lowercase(lower.as_str())
}

impl Config {
    /// No value is set.
    pub open spec fn is_empty(self) -> bool {
        &&& self.retries is None
        &&& self.resume is None
        &&& self.quiet is None
        &&& self.verbose is None
        &&& self.jobs is None
        &&& self.output_dir is None
        &&& self.headers is None
        &&& self.log is None
        &&& self.backoff_base_ms is None
        &&& self.backoff_max_ms is None
        &&& self.retry is None
        &&& self.logging is None
    }

    /// The retry count after the merge. A count of 0 on the command line
    /// is filled in: from the `[retry]` section where there is one, else
    /// from the old field.
    pub open spec fn merged_max_retries(self, before: u32) -> u32 {
        if before != 0 {
            before
        } else {
            match self.retry {
                Some(retry) => spec_retry_count(retry.max),
                None => spec_retry_count(self.retries),
            }
        }
    }

    /// The base delay after the merge. The default of 100 on the command
    /// line is filled in: from the `[retry]` section where there is one and
    /// it has a value, from the old field where there is no section.
    pub open spec fn merged_backoff_base_ms(self, before: u64) -> u64 {
        if before != 100 {
            before
        } else {
            match self.retry {
                Some(retry) => match retry.base_ms {
                    Some(v) => v,
                    None => before,
                },
                None => match self.backoff_base_ms {
                    Some(v) => v,
                    None => 100,
                },
            }
        }
    }

    /// The largest delay after the merge. The default of 60000 on the
    /// command line is filled in as the base delay is.
    pub open spec fn merged_backoff_max_ms(self, before: u64) -> u64 {
        if before != 60000 {
            before
        } else {
            match self.retry {
                Some(retry) => match retry.max_ms {
                    Some(v) => v,
                    None => before,
                },
                None => match self.backoff_max_ms {
                    Some(v) => v,
                    None => 60000,
                },
            }
        }
    }

    /// The log format after the merge.
    pub open spec fn merged_log_format(self, before: Option<LogFormat>) -> Option<LogFormat> {
        if before is Some {
            before
        } else {
            match self.logging {
                Some(logging) => match logging.format {
                    Some(name) => spec_format_named(name@),
                    None => None,
                },
                None => None,
            }
        }
    }

    /// The log level after the merge.
    pub open spec fn merged_log_level(self, before: Option<LogLevel>) -> Option<LogLevel> {
        if before is Some {
            before
        } else {
            match self.logging {
                Some(logging) => match logging.level {
                    Some(name) => spec_level_named(name@),
                    None => None,
                },
                None => None,
            }
        }
    }

    /// `after` is `before` with each setting that stood at its default
    /// filled in from the configuration. What the command line set stays.
    pub open spec fn merges(self, before: Args, after: Args) -> bool {
        &&& after.urls == before.urls
        &&& after.input == before.input
        &&& after.output == before.output
        &&& after.log_json == before.log_json
        &&& after.init == before.init
        &&& after.max_retries == self.merged_max_retries(before.max_retries)
        &&& after.backoff_base_ms == self.merged_backoff_base_ms(before.backoff_base_ms)
        &&& after.backoff_max_ms == self.merged_backoff_max_ms(before.backoff_max_ms)
        &&& after.resume == (before.resume || self.resume == Some(true))
        &&& after.quiet == (before.quiet || self.quiet == Some(true))
        &&& after.verbose == (before.verbose || self.verbose == Some(true))
        &&& after.jobs == (if before.jobs != 0 {
            before.jobs
        } else {
            match self.jobs {
                Some(n) => n,
                None => 0,
            }
        })
        &&& after.output_dir == (if before.output_dir is Some {
            before.output_dir
        } else {
            self.output_dir
        })
        &&& after.headers@ == (if before.headers@.len() != 0 {
            before.headers@
        } else {
            match self.headers {
                Some(h) => h@,
                None => Seq::<String>::empty(),
            }
        })
        &&& after.log@ == (if before.log@.len() != 0 {
            before.log@
        } else {
            match self.log {
                Some(path) => path@,
                None => "ruget_failures.log"@,
            }
        })
        &&& after.log_format == self.merged_log_format(before.log_format)
        &&& after.log_level == self.merged_log_level(before.log_level)
    }

    fn max_retries_for(&self, before: u32) -> (r: u32)
        ensures
            r == self.merged_max_retries(before),
    {
        if before != 0 {
            before
        } else {
            match &self.retry {
                Some(retry) => retry_count(retry.max),
                None => retry_count(self.retries),
            }
        }
    }

    fn backoff_base_for(&self, before: u64) -> (r: u64)
        ensures
            r == self.merged_backoff_base_ms(before),
    {
        if before != 100 {
            before
        } else {
            match &self.retry {
                Some(retry) => match retry.base_ms {
                    Some(v) => v,
                    None => before,
                },
                None => match self.backoff_base_ms {
                    Some(v) => v,
                    None => 100,
                },
            }
        }
    }

    fn backoff_max_for(&self, before: u64) -> (r: u64)
        ensures
            r == self.merged_backoff_max_ms(before),
    {
        if before != 60000 {
            before
        } else {
            match &self.retry {
                Some(retry) => match retry.max_ms {
                    Some(v) => v,
                    None => before,
                },
                None => match self.backoff_max_ms {
                    Some(v) => v,
                    None => 60000,
                },
            }
        }
    }

    fn output_dir_for(&self, before: &Option<String>) -> (r: Option<String>)
        ensures
            r == (if before is Some {
                *before
            } else {
                self.output_dir
            }),
    {
        if before.is_some() {
            before.clone()
        } else {
            self.output_dir.clone()
        }
    }

    fn headers_for(&self, before: &Vec<String>) -> (r: Vec<String>)
        ensures
            r@ == (if before@.len() != 0 {
                before@
            } else {
                match self.headers {
                    Some(h) => h@,
                    None => Seq::<String>::empty(),
                }
            }),
    {
        if before.len() != 0 {
            let r = before.clone();
            assert(r@ =~= before@);
            r
        } else {
            match &self.headers {
                Some(h) => {
                    let r = h.clone();
                    assert(r@ =~= h@);
                    r
                },
                None => Vec::new(),
            }
        }
    }

    fn log_for(&self, before: &String) -> (r: String)
        ensures
            r@ == (if before@.len() != 0 {
                before@
            } else {
                match self.log {
                    Some(path) => path@,
                    None => "ruget_failures.log"@,
                }
            }),
    {
        if !before.as_str().is_empty() {
            before.clone()
        } else {
            match &self.log {
                Some(path) => path.clone(),
                None => String::from_str("ruget_failures.log"),
            }
        }
    }

    fn log_format_for(&self, before: Option<LogFormat>) -> (r: Option<LogFormat>)
        ensures
            r == self.merged_log_format(before),
    {
        if before.is_some() {
            return before;
        }
        match &self.logging {
            Some(logging) => match &logging.format {
                Some(name) => format_named(name.as_str()),
                None => None,
            },
            None => None,
        }
    }

    fn log_level_for(&self, before: Option<LogLevel>) -> (r: Option<LogLevel>)
        ensures
            r == self.merged_log_level(before),
    {
        if before.is_some() {
            return before;
        }
        match &self.logging {
            Some(logging) => match &logging.level {
                Some(name) => level_named(name.as_str()),
                None => None,
            },
            None => None,
        }
    }

    /// Get the effective configuration by merging with command line args.
    pub fn merge_with_args(&self, args: &mut Args)
        ensures
            self.merges(*old(args), *final(args)),
    {
        args.max_retries = self.max_retries_for(args.max_retries);
        args.backoff_base_ms = self.backoff_base_for(args.backoff_base_ms);
        args.backoff_max_ms = self.backoff_max_for(args.backoff_max_ms);
        args.resume = flag_for(args.resume, self.resume);
        args.quiet = flag_for(args.quiet, self.quiet);
        args.verbose = flag_for(args.verbose, self.verbose);
        if args.jobs == 0 {
            args.jobs = match self.jobs {
                Some(n) => n,
                None => 0,
            };
        }
        let output_dir = self.output_dir_for(&args.output_dir);
        args.output_dir = output_dir;
        let headers = self.headers_for(&args.headers);
        args.headers = headers;
        let log = self.log_for(&args.log);
        args.log = log;
        args.log_format = self.log_format_for(args.log_format);
        args.log_level = self.log_level_for(args.log_level);
    }
}

fn flag_for(before: bool, configured: Option<bool>) -> (r: bool)
    ensures
        r == (before || configured == Some(true)),
{
    if before {
        true
    } else {
        match configured {
            Some(v) => v,
            None => false,
        }
    }
}

} // verus!
