use vstd::prelude::*;
use vstd::string::*;

verus! {

/// What stops the program before it asks anything.
#[derive(PartialEq, Eq, Structural)]
pub enum ConfigError {
    /// No credential was found in the environment.
    MissingApiKey,
}

impl ConfigError {
    /// The message the program stops with.
    pub fn message(&self) -> (r: String)
        ensures
            r@ == "OPENAI_API_KEY not found in environment"@,
    {
        String::from_str("OPENAI_API_KEY not found in environment")
    }
}

/// What the program reads from its process once, at start.
pub struct Config {
    pub api_key: String,
    pub os_name: String,
}

impl Config {
    /// A configuration from the credential variable, if it was set, and the
    /// host's operating system name.
    pub fn from_values(api_key: Option<String>, os_name: String) -> (r: Result<Config, ConfigError>)
        ensures
            api_key is None <==> r is Err,
            r is Err ==> r->Err_0 == ConfigError::MissingApiKey,
            r is Ok ==> r->Ok_0.api_key@ == api_key->Some_0@ && r->Ok_0.os_name@ == os_name@,
    {
        match api_key {
            Some(k) => Ok(Config { api_key: k, os_name }),
            None => Err(ConfigError::MissingApiKey),
        }
    }
}

/// The value of the `Authorization` header for the credential `api_key`.
pub fn bearer_value(api_key: &str) -> (r: String)
    ensures
        r@ == "Bearer "@ + api_key@,
{
    let mut r = String::from_str("Bearer ");
    r.append(api_key);
    r
}

} // verus!
