//! Credentials and their validation.
//!
//! The configuration collaborator (file load/store, command-line
//! overrides) lives outside this crate; the core only receives a
//! `Config` and checks, before any network activity, that both the
//! base URL and the API token are present.

use vstd::prelude::*;

use crate::errors::ConfigError;
use crate::errors::HaclError;

verus! {

/// Credentials for the automation hub: where it is and how to
/// authenticate. Never mutated by the core.
#[derive(Debug)]
pub struct Config {
    pub base_url: String,
    pub token: String,
}

impl Default for Config {
    /// An unconfigured state: both fields empty.
    fn default() -> (r: Self)
        ensures
            r.base_url@ == Seq::<char>::empty(),
            r.token@ == Seq::<char>::empty(),
    {
        Config { base_url: String::new(), token: String::new() }
    }
}

/// The outcome of subcommand handling: either a subcommand ran and the
/// process is done, or none was given and the main flow continues with
/// the loaded configuration.
pub enum SubcommandGiven {
    Yes,
    No(Config),
}

impl SubcommandGiven {
    /// The configuration to continue with, if the main flow should run.
    pub fn config(self) -> (r: Option<Config>)
        ensures
            self is Yes ==> r is None,
            self matches SubcommandGiven::No(c) ==> (r matches Some(out) && out == c),
    {
        match self {
            SubcommandGiven::Yes => None,
            SubcommandGiven::No(c) => Some(c),
        }
    }
}

/// Applies command-line overrides to the stored configuration: each
/// field given on the command line replaces the stored one, each field
/// not given keeps it.
pub fn apply_overrides(defaults: Config, base_url: Option<String>, token: Option<String>) -> (r:
    Config)
    ensures
        r.base_url@ == (match base_url {
            Some(u) => u@,
            None => defaults.base_url@,
        }),
        r.token@ == (match token {
            Some(t) => t@,
            None => defaults.token@,
        }),
{
    let new_base_url = match base_url {
        Some(u) => u,
        None => defaults.base_url,
    };
    let new_token = match token {
        Some(t) => t,
        None => defaults.token,
    };
    Config { base_url: new_base_url, token: new_token }
}

/// Checks the credentials before any network call: an empty base URL
/// or an empty token is a configuration failure, found first in that
/// order. With both present the core may proceed.
pub fn validate_credentials(config: &Config) -> (r: Result<(), HaclError>)
    ensures
        config.base_url@.len() == 0 ==> (r matches Err(e) && e matches
            HaclError::ConfigurationError(c) && c is NoBaseUrl),
        config.base_url@.len() > 0 && config.token@.len() == 0 ==> (r matches Err(e) && e matches
            HaclError::ConfigurationError(c) && c is NoApiToken),
        config.base_url@.len() > 0 && config.token@.len() > 0 ==> r is Ok,
{
    if config.base_url.as_str().is_empty() {
        Err(HaclError::ConfigurationError(ConfigError::NoBaseUrl))
    } else if config.token.as_str().is_empty() {
        Err(HaclError::ConfigurationError(ConfigError::NoApiToken))
    } else {
        Ok(())
    }
}

} // verus!
