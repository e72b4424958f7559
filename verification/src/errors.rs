//! Error taxonomy of the client.
//!
//! Every failure of the core is one of these values; the surrounding
//! program only renders them. A chooser abort or an empty choice is a
//! clean termination of the run, not a failure.

use vstd::prelude::*;
use vstd::string::StringExecFns;

verus! {

/// Why the configuration was unusable.
#[derive(Debug)]
pub enum ConfigError {
    /// The configured base URL is empty.
    NoBaseUrl,
    /// The configured API token is empty.
    NoApiToken,
    /// The configuration file could not be written.
    WriteFailure,
    /// The configuration file could not be read.
    LoadError,
}

/// A failure of one run of the client.
#[derive(Debug)]
pub enum HaclError {
    /// Missing or invalid credentials, found before any network call.
    ConfigurationError(ConfigError),
    /// A network call failed at the transport level.
    TransportError,
    /// A hub response could not be decoded as a list of strings;
    /// carries the offending raw payload.
    DecodeError(String),
    /// Area discovery received a response it could not decode;
    /// carries the offending raw payload.
    HubProtocolError(String),
    /// The user aborted the interactive chooser.
    SelectionAborted,
    /// The chooser returned without an item.
    SelectionEmpty,
    /// The selected line was not in the catalog it was rendered from:
    /// a programming defect, not a runtime condition.
    InternalConsistencyError,
}

/// The description of a configuration failure.
pub open spec fn config_error_message(e: ConfigError) -> Seq<char> {
    match e {
        ConfigError::NoBaseUrl => "No base url was found"@,
        ConfigError::NoApiToken => "No api token was found"@,
        ConfigError::WriteFailure => "Failure writing the config file"@,
        ConfigError::LoadError => "Error loading the config file"@,
    }
}

/// The description of a failure, with the offending payload where one
/// was kept.
pub open spec fn error_message(e: HaclError) -> Seq<char> {
    match e {
        HaclError::ConfigurationError(c) => "Config Error: "@ + config_error_message(c),
        HaclError::TransportError => "Error sending request to Home Assistant"@,
        HaclError::DecodeError(p) => "Unable to decode response as json: "@ + p@,
        HaclError::HubProtocolError(p) => "Unable to decode hub response as json: "@ + p@,
        HaclError::SelectionAborted => "Selection aborted"@,
        HaclError::SelectionEmpty => "No selection made"@,
        HaclError::InternalConsistencyError => "Internal Error: unexpected area id"@,
    }
}

/// The remediation hint attached to a failure, where one exists.
pub open spec fn remediation_hint(e: HaclError) -> Option<Seq<char>> {
    match e {
        HaclError::ConfigurationError(ConfigError::NoBaseUrl) => Some(
            "You must configure base Home Assistant url in the configuration file or with the config subcommand. E.g. `hacl config`"@,
        ),
        HaclError::ConfigurationError(ConfigError::NoApiToken) => Some(
            "You must configure Home Assistant API token in the configuration file or with the config subcommand. E.g. `hacl config`"@,
        ),
        _ => None,
    }
}

impl ConfigError {
    /// A human-readable description of the failure.
    pub fn message(&self) -> (r: String)
        ensures
            r@ == config_error_message(*self),
    {
        match self {
            ConfigError::NoBaseUrl => String::from_str("No base url was found"),
            ConfigError::NoApiToken => String::from_str("No api token was found"),
            ConfigError::WriteFailure => String::from_str("Failure writing the config file"),
            ConfigError::LoadError => String::from_str("Error loading the config file"),
        }
    }
}

impl HaclError {
    /// A declined selection ends the run cleanly: no toggle is issued
    /// and nothing is reported as a failure.
    pub fn is_clean_termination(&self) -> (r: bool)
        ensures
            r == (self is SelectionAborted || self is SelectionEmpty),
    {
        match self {
            HaclError::SelectionAborted => true,
            HaclError::SelectionEmpty => true,
            _ => false,
        }
    }

    /// A human-readable description of the failure, with the offending
    /// payload where one was kept.
    pub fn message(&self) -> (r: String)
        ensures
            r@ == error_message(*self),
    {
        match self {
            HaclError::ConfigurationError(c) => {
                let mut text = String::from_str("Config Error: ");
                let detail = c.message();
                text.append(detail.as_str());
                text
            },
            HaclError::TransportError => String::from_str(
                "Error sending request to Home Assistant",
            ),
            HaclError::DecodeError(p) => {
                let mut text = String::from_str("Unable to decode response as json: ");
                text.append(p.as_str());
                text
            },
            HaclError::HubProtocolError(p) => {
                let mut text = String::from_str("Unable to decode hub response as json: ");
                text.append(p.as_str());
                text
            },
            HaclError::SelectionAborted => String::from_str("Selection aborted"),
            HaclError::SelectionEmpty => String::from_str("No selection made"),
            HaclError::InternalConsistencyError => String::from_str(
                "Internal Error: unexpected area id",
            ),
        }
    }

    /// The remediation hint to show with the failure, where one exists.
    pub fn remediation(&self) -> (r: Option<String>)
        ensures
            r matches Some(hint) ==> (remediation_hint(*self) matches Some(h) && hint@ == h),
            r is None ==> remediation_hint(*self) is None,
    {
        match self {
            HaclError::ConfigurationError(ConfigError::NoBaseUrl) => Some(
                String::from_str(
                    "You must configure base Home Assistant url in the configuration file or with the config subcommand. E.g. `hacl config`",
                ),
            ),
            HaclError::ConfigurationError(ConfigError::NoApiToken) => Some(
                String::from_str(
                    "You must configure Home Assistant API token in the configuration file or with the config subcommand. E.g. `hacl config`",
                ),
            ),
            _ => None,
        }
    }
}

} // verus!
