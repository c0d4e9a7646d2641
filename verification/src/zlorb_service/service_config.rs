//! The service's own settings.
use vstd::prelude::*;
use vstd::string::*;

verus! {

/// How long the service sleeps between rounds, and the credentials it would fetch with.
pub struct ServiceConfig {
    pub sleep_time: u64,
    pub username: String,
    pub token: String,
}

impl Default for ServiceConfig {
    /// Five seconds between rounds, and placeholder credentials.
    fn default() -> (r: Self)
        ensures
            r.sleep_time == 5,
            r.username@ == "NO USERNAME PROVIDED"@,
            r.token@ == "NO TOKEN PROVIDED"@,
    {
        ServiceConfig {
            sleep_time: 5,
            username: String::from_str("NO USERNAME PROVIDED"),
            token: String::from_str("NO TOKEN PROVIDED"),
        }
    }
}

} // verus!
