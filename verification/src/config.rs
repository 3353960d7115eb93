//! Client configuration: everything is read at construction time and never
//! again.
use vstd::prelude::*;
use vstd::string::StringExecFns;

verus! {

/// Relies on Clone for std::time::Duration: the type is Copy, so a clone
/// is the same value.
pub assume_specification[ <std::time::Duration as Clone>::clone ](d: &std::time::Duration) -> (r:
    std::time::Duration)
    ensures
        r == *d,
;

/// The duration a given whole number of seconds makes.
pub uninterp spec fn spec_duration_from_secs(secs: u64) -> std::time::Duration;

/// Relies on std::time::Duration::from_secs: the result depends on the
/// seconds alone.
#[verifier::external_body]
pub fn duration_from_secs(secs: u64) -> (r: std::time::Duration)
    ensures
        r == spec_duration_from_secs(secs),
{
    std::time::Duration::from_secs(secs)
}

/// How a client reaches the service: an optional API key, the base URL of
/// the API, and the per-request timeout the transport applies.
#[derive(Debug, Clone)]
pub struct HookfreightConfig {
    pub api_key: Option<String>,
    pub base_url: String,
    pub timeout: std::time::Duration,
}

impl Default for HookfreightConfig {
    /// No API key, the public service URL, a thirty second timeout.
    fn default() -> (r: Self)
        ensures
            r.api_key is None,
            r.base_url@ == "https://api.hookfreight.com/v1"@,
            r.timeout == spec_duration_from_secs(30),
    {
        HookfreightConfig {
            api_key: None,
            base_url: String::from_str("https://api.hookfreight.com/v1"),
            timeout: duration_from_secs(30),
        }
    }
}

} // verus!
