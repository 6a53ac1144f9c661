//! Configuration for fetching a page.

use vstd::prelude::*;

verus! {

/// The whole seconds that a duration holds.
pub uninterp spec fn whole_seconds(duration: std::time::Duration) -> nat;

/// `Duration::from_secs`: a duration of that many whole seconds.
#[verifier::external_body]
fn duration_from_secs(secs: u64) -> (r: std::time::Duration)
    ensures
        whole_seconds(r) == secs,
{
    std::time::Duration::from_secs(secs)
}

/// `clone` of a `Duration`, which is `Copy`: the same duration.
pub assume_specification[ <std::time::Duration as Clone>::clone ](
    duration: &std::time::Duration,
) -> (r: std::time::Duration)
    ensures
        r == *duration,
;

/// Configuration options for fetching a webpage
#[derive(Debug)]
pub struct WebpageOptions {
    /// Allow fetching over invalid and/or self signed HTTPS connections \[false\]
    pub allow_insecure: bool,
    /// Follow HTTP redirects \[true\]
    pub follow_location: bool,
    /// Max number of redirects to follow \[5\]
    pub max_redirections: u32,
    /// Timeout for the HTTP request \[10 secs\]
    pub timeout: std::time::Duration,
    /// User agent string used for the request \[webpage-rs - <https://crates.io/crates/webpage>\]
    pub useragent: String,
    /// Custom HTTP headers to send with the request
    pub headers: Vec<String>,
}

impl Default for WebpageOptions {
    /// Secure connections only, up to five redirects, ten seconds, no
    /// headers of the caller's own.
    fn default() -> (r: Self)
        ensures
            !r.allow_insecure,
            r.follow_location,
            r.max_redirections == 5,
            whole_seconds(r.timeout) == 10,
            r.useragent@ == "webpage-rs - https://crates.io/crates/webpage"@,
            r.headers@.len() == 0,
    {
        Self {
            allow_insecure: false,
            follow_location: true,
            max_redirections: 5,
            timeout: duration_from_secs(10),
            useragent: "webpage-rs - https://crates.io/crates/webpage".to_string(),
            headers: Vec::new(),
        }
    }
}

} // verus!
