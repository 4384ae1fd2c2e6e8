//! Metadata-extraction collaborator interface: the fetch itself is a single
//! external call, but the bounds it runs under are fixed here.

use vstd::prelude::*;

verus! {

/// The options a metadata fetch runs with, as plain values.
pub struct MetadataOptions {
    pub allow_insecure: bool,
    pub follow_location: bool,
    pub max_redirections: u32,
    pub timeout_secs: u64,
    pub useragent: String,
}

/// Build the metadata-fetch options: lax certificate checking, redirects
/// followed three deep at most, a ten-second overall bound, and the
/// invocation's user-agent.
pub fn metadata_options(user_agent: &String) -> (r: MetadataOptions)
    ensures
        r.allow_insecure,
        r.follow_location,
        r.max_redirections == 3,
        r.timeout_secs == 10,
        r.useragent == *user_agent,
{
    MetadataOptions {
        allow_insecure: true,
        follow_location: true,
        max_redirections: 3,
        timeout_secs: 10,
        useragent: user_agent.clone(),
    }
}

} // verus!
