//! The two configuration values supplied at startup.

use vstd::prelude::*;

verus! {

/// Startup configuration: an API credential and a base URL. The defaults
/// exist for convenience and are not meant for production use.
#[derive(Debug, Clone)]
pub struct Args {
    /// The API credential handed to the transport client.
    pub key: String,
    /// The base URL of the completion endpoint.
    pub url: String,
}

impl Default for Args {
    /// The built-in defaults: a placeholder key and the default endpoint.
    fn default() -> (a: Args)
        ensures
            a.key@ == "sk-xx"@,
            a.url@ == "https://api.deepseek.com/beta"@,
    {
        Args { key: "sk-xx".to_owned(), url: "https://api.deepseek.com/beta".to_owned() }
    }
}

} // verus!
