//! What a client is made from.

use vstd::prelude::*;

verus! {

#[derive(Debug, Clone)]
pub struct Config<'a> {
    pub api_key: Option<&'a str>,
    pub api_endpoint: &'a str,
    pub api_version: u8,
}

impl<'a> Default for Config<'a> {
    /// The hosted service in the first version of its API, and no key.
    fn default() -> (config: Self)
        ensures
            config.api_key is None,
            config.api_endpoint@ == "https://api.openai.com"@,
            config.api_version == 1,
    {
        Config { api_key: None, api_endpoint: "https://api.openai.com", api_version: 1 }
    }
}

} // verus!
