//! Deciding whether the configuration is needed at all.

use crate::cli::Args;
use crate::config::Config;
use vstd::prelude::*;

verus! {

/// Some setting that the configuration can fill in stands at its default.
pub open spec fn spec_needs_config(args: Args) -> bool {
    ||| args.max_retries == 0
    ||| !args.resume
    ||| !args.quiet
    ||| !args.verbose
    ||| args.jobs == 0
    ||| args.output_dir is None
    ||| args.headers@.len() == 0
    ||| args.log@.len() == 0
    ||| args.log_format is None
    ||| args.log_level is None
}

/// Whether the configuration has to be read for these settings.
pub fn needs_config(args: &Args) -> (r: bool)
    ensures
        r == spec_needs_config(*args),
{
    args.max_retries == 0 || !args.resume || !args.quiet || !args.verbose || args.jobs == 0
        || args.output_dir.is_none() || args.headers.len() == 0 || args.log.as_str().is_empty()
        || args.log_format.is_none() || args.log_level.is_none()
}

/// Apply configuration to args only if needed: merges `config` into `args`
/// where some setting stands at its default, and leaves `args` alone
/// otherwise.
pub fn apply_config_if_needed(args: &mut Args, config: &Config)
    ensures
        spec_needs_config(*old(args)) ==> config.merges(*old(args), *final(args)),
        !spec_needs_config(*old(args)) ==> *final(args) == *old(args),
{
    if needs_config(args) {
        config.merge_with_args(args);
    }
}

/// The settings of a simple download, for which the configuration is not
/// read at all.
pub open spec fn spec_skip_config(args: Args) -> bool {
    &&& args.max_retries > 0
    &&& args.output is Some
    &&& (args.quiet || !args.verbose)
    &&& args.headers@.len() == 0
    &&& args.urls@.len() == 1
}

/// Fast path: skip config loading entirely for simple cases.
pub fn skip_config_for_simple_download(args: &Args) -> (r: bool)
    ensures
        r == spec_skip_config(*args),
{
    args.max_retries > 0 && args.output.is_some() && (args.quiet || !args.verbose)
        && args.headers.len() == 0 && args.urls.len() == 1
}

} // verus!
