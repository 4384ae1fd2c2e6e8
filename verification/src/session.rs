//! Browser session manager decisions: what a browsing context is opened
//! with. Bringing the engine and browser up is the caller's business; the
//! configuration it must apply is fixed here.

use vstd::prelude::*;
use vstd::string::StringExecFns;

verus! {

/// The configuration of a browsing context: the invocation's user-agent,
/// script execution on, certificate errors tolerated (staging and
/// self-signed hosts must work), and an English-preferring language header.
pub struct ContextSettings {
    pub user_agent: String,
    pub javascript_enabled: bool,
    pub ignore_https_errors: bool,
    pub accept_language: String,
}

/// Build the settings every browsing context is opened with.
pub fn context_settings(user_agent: &String) -> (r: ContextSettings)
    ensures
        r.user_agent == *user_agent,
        r.javascript_enabled,
        r.ignore_https_errors,
        r.accept_language@ == "en-US,en;q=0.9"@,
{
    ContextSettings {
        user_agent: user_agent.clone(),
        javascript_enabled: true,
        ignore_https_errors: true,
        accept_language: String::from_str("en-US,en;q=0.9"),
    }
}

} // verus!
