//! Endpoint constants and configuration validation.
//!
//! The host process reads the two credential environment variables and hands
//! their raw values in as plain `Option<String>`s; everything here is the
//! pure part: deciding whether a value is usable and building the validated
//! [`Config`] that the rest of the library works from.

use vstd::prelude::*;

verus! {

/// Base URL of the remote live departure board endpoint.
pub const DEP_BASE_URL: &'static str = "https://api1.raildata.org.uk/1010-live-departure-board-dep1_2/LDBWS/api/20220120/GetDepartureBoard";

/// Base URL of the remote live arrival board endpoint.
pub const ARR_BASE_URL: &'static str = "https://api1.raildata.org.uk/1010-live-arrival-board-arr1_1/LDBWS/api/20220120/GetArrivalBoard";

/// Environment variable holding the departures credential.
pub const DEP_API_KEY_VAR: &'static str = "DEP_API_KEY";

/// Environment variable holding the arrivals credential.
pub const ARR_API_KEY_VAR: &'static str = "ARR_API_KEY";

/// A configuration value could not be loaded: the variable named by the
/// payload is either not set at all or set to a blank string.
#[derive(Clone, Copy, Debug, PartialEq, Eq)]
pub enum ConfigError {
    /// The environment variable is not set.
    MissingVar(&'static str),
    /// The environment variable is set but holds only whitespace.
    EmptyVar(&'static str),
}

/// The validated configuration, built once at startup and passed by
/// reference into everything that needs a credential.
#[derive(Debug, PartialEq, Eq)]
pub struct Config {
    /// Credential for the departures endpoint.
    pub dep_api_key: String,
    /// Credential for the arrivals endpoint.
    pub arr_api_key: String,
}

/// Whether `c` is whitespace, exactly as `char::is_whitespace` decides it.
pub uninterp spec fn is_space(c: char) -> bool;

/// Relies on `char::is_whitespace`: the Unicode white-space property of a
/// character, a function of the character alone.
#[verifier::external_body]
fn char_is_space(c: char) -> (r: bool)
    ensures
        r == is_space(c),
{
    c.is_whitespace()
}

/// A string that trims to nothing: every character is whitespace.
pub open spec fn blank(s: Seq<char>) -> bool {
    forall|i: int| 0 <= i < s.len() ==> is_space(s[i])
}

/// Whether `s` consists of whitespace only (true of the empty string).
fn is_blank(s: &str) -> (r: bool)
    ensures
        r == blank(s@),
{
    let len = s.unicode_len();
    let mut i: usize = 0;
    while i < len
        invariant
            i <= len,
            len == s@.len(),
            forall|j: int| 0 <= j < i ==> is_space(s@[j]),
        decreases len - i,
    {
        if !char_is_space(s.get_char(i)) {
            assert(!blank(s@));
            return false;
        }
        i += 1;
    }
    true
}

/// What validating one environment value yields: the value itself when it is
/// usable, otherwise the error naming the variable.
pub open spec fn env_value_result(var: &'static str, fetched: Option<String>) -> Result<
    String,
    ConfigError,
> {
    match fetched {
        None => Err(ConfigError::MissingVar(var)),
        Some(value) => if blank(value@) {
            Err(ConfigError::EmptyVar(var))
        } else {
            Ok(value)
        },
    }
}

/// Validates one environment value: absent is `MissingVar`, whitespace-only
/// is `EmptyVar`, anything else is returned unchanged.
fn check_env_value(var: &'static str, fetched: Option<String>) -> (r: Result<String, ConfigError>)
    ensures
        r == env_value_result(var, fetched),
{
    match fetched {
        None => Err(ConfigError::MissingVar(var)),
        Some(value) => {
            if is_blank(value.as_str()) {
                Err(ConfigError::EmptyVar(var))
            } else {
                Ok(value)
            }
        },
    }
}

/// Validates the departures credential as read from the environment.
pub fn dep_api_key(fetched: Option<String>) -> (r: Result<String, ConfigError>)
    ensures
        r == env_value_result(DEP_API_KEY_VAR, fetched),
{
    check_env_value(DEP_API_KEY_VAR, fetched)
}

/// Validates the arrivals credential as read from the environment.
pub fn arr_api_key(fetched: Option<String>) -> (r: Result<String, ConfigError>)
    ensures
        r == env_value_result(ARR_API_KEY_VAR, fetched),
{
    check_env_value(ARR_API_KEY_VAR, fetched)
}

/// What validating both credentials yields: the first failure, in the fixed
/// order departures then arrivals, or the complete configuration.
pub open spec fn validate_spec(dep: Option<String>, arr: Option<String>) -> Result<
    Config,
    ConfigError,
> {
    match env_value_result(DEP_API_KEY_VAR, dep) {
        Err(e) => Err(e),
        Ok(dep_value) => match env_value_result(ARR_API_KEY_VAR, arr) {
            Err(e) => Err(e),
            Ok(arr_value) => Ok(Config { dep_api_key: dep_value, arr_api_key: arr_value }),
        },
    }
}

/// Validates both credentials at once, failing fast on the first problem,
/// and builds the configuration the process runs with.
pub fn validate_required_keys(dep: Option<String>, arr: Option<String>) -> (r: Result<
    Config,
    ConfigError,
>)
    ensures
        r == validate_spec(dep, arr),
{
    let dep_value = match check_env_value(DEP_API_KEY_VAR, dep) {
        Ok(v) => v,
        Err(e) => {
            return Err(e);
        },
    };
    let arr_value = match check_env_value(ARR_API_KEY_VAR, arr) {
        Ok(v) => v,
        Err(e) => {
            return Err(e);
        },
    };
    Ok(Config { dep_api_key: dep_value, arr_api_key: arr_value })
}

} // verus!
