//! The configuration file: where it lives and what a fresh one holds.

use crate::error::{ErrorCode, ErrorKind, RuGetError};
use crate::text::{concat2, concat3};
use vstd::prelude::*;

verus! {

/// The path of the configuration file in a home directory.
pub fn config_path(home: &str) -> (r: String)
    ensures
        r@ == home@ + "/.rugetrc"@,
{
    concat2(home, "/.rugetrc")
}

/// The path of the credentials file in a home directory.
pub fn netrc_path(home: &str) -> (r: String)
    ensures
        r@ == home@ + "/.netrc"@,
{
    concat2(home, "/.netrc")
}

/// The error for a home directory that the environment does not name.
pub fn home_not_set_error() -> (r: RuGetError)
    ensures
        r.is_plain(
            ErrorCode::E300,
            ErrorKind::Config,
            "Configuration error: "@ + "HOME environment variable not set"@,
        ),
{
    RuGetError::config(String::from_str("HOME environment variable not set"))
}

/// The error for a configuration file that could not be written: it names
/// the path and gives the text of the failure.
pub fn write_failed_error(config_path: &str, failure: &str) -> (r: RuGetError)
    ensures
        r.is_plain(
            ErrorCode::E300,
            ErrorKind::Config,
            "Configuration error: "@ + ("Failed to write config file "@ + config_path@ + ": "@
                + failure@),
        ),
{
    let mut m = concat3("Failed to write config file ", config_path, ": ");
    m.append(failure);
    RuGetError::config(m)
}

/// What is said when the configuration file is there already.
pub fn already_exists_message(config_path: &str) -> (r: String)
    ensures
        r@ == "Configuration file already exists at "@ + config_path@,
{
    concat2("Configuration file already exists at ", config_path)
}

/// What is said when the configuration file has been written.
pub fn created_message(config_path: &str) -> (r: String)
    ensures
        r@ == "Created configuration template at "@ + config_path@,
{
    concat2("Created configuration template at ", config_path)
}

} // verus!
