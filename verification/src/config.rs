//! The settings of a server, checked: the address it listens on must be
//! readable and the log level must be one of six.

use crate::checks::{socket_address_accepted, socket_address_is_valid};
use crate::node::Network;
use crate::text::same_text;
use vstd::prelude::*;
use vstd::string::StringExecFns;

verus! {

/// How much the node logs.
#[derive(Clone, Copy, Debug, PartialEq, Eq, Structural)]
pub enum LogLevel {
    Gossip,
    Trace,
    Debug,
    Info,
    Warn,
    Error,
}

/// The settings of a server.
#[derive(Clone, Debug, PartialEq, Eq)]
pub struct Config {
    pub esplora_server_url: String,
    pub listening_addr: String,
    pub log_level: LogLevel,
    pub network: Network,
}

/// Why settings were turned down; each holds what was given.
#[derive(Clone, Debug, PartialEq, Eq)]
pub enum ConfigError {
    InvalidListeningAddress(String),
    UnsupportedLogLevel(String),
}

/// A text with every letter in lower case: what `str::to_lowercase` gives.
pub uninterp spec fn lowercased(text: Seq<char>) -> Seq<char>;

/// The lower-case form of a text.
///
/// Calls `str::to_lowercase`, which gives the text with each character
/// replaced by its lower-case form.
#[verifier::external_body]
pub(crate) fn lowercase(text: &str) -> (r: String)
    ensures
        r@ == lowercased(text@),
{
    text.to_lowercase()
}

/// The level that a name in lower case stands for.
pub open spec fn log_level_named(name: Seq<char>) -> Option<LogLevel> {
    if name == "gossip"@ {
        Some(LogLevel::Gossip)
    } else if name == "trace"@ {
        Some(LogLevel::Trace)
    } else if name == "debug"@ {
        Some(LogLevel::Debug)
    } else if name == "info"@ {
        Some(LogLevel::Info)
    } else if name == "warn"@ {
        Some(LogLevel::Warn)
    } else if name == "error"@ {
        Some(LogLevel::Error)
    } else {
        None
    }
}

impl Config {
    /// Checks settings as they were given. The settings are kept as they
    /// are where the listening address can be read and the level is known;
    /// otherwise the error holds the first text that was at fault, the
    /// address before the level.
    pub fn new(
        esplora_server_url: String,
        listening_addr: String,
        log_level: &str,
        network: Network,
    ) -> (r: Result<Config, ConfigError>)
        ensures
            match r {
                Ok(config) => {
                    &&& socket_address_accepted(listening_addr@)
                    &&& log_level_named(lowercased(log_level@)) == Some(config.log_level)
                    &&& config.esplora_server_url@ == esplora_server_url@
                    &&& config.listening_addr@ == listening_addr@
                    &&& config.network == network
                },
                Err(ConfigError::InvalidListeningAddress(given)) => {
                    &&& !socket_address_accepted(listening_addr@)
                    &&& given@ == listening_addr@
                },
                Err(ConfigError::UnsupportedLogLevel(given)) => {
                    &&& socket_address_accepted(listening_addr@)
                    &&& log_level_named(lowercased(log_level@)) is None
                    &&& given@ == log_level@
                },
            },
    {
        if !socket_address_is_valid(listening_addr.as_str()) {
            return Err(ConfigError::InvalidListeningAddress(listening_addr));
        }
        let lowered = lowercase(log_level);
        let name = lowered.as_str();
        let level = if same_text(name, "gossip") {
            LogLevel::Gossip
        } else if same_text(name, "trace") {
            LogLevel::Trace
        } else if same_text(name, "debug") {
            LogLevel::Debug
        } else if same_text(name, "info") {
            LogLevel::Info
        } else if same_text(name, "warn") {
            LogLevel::Warn
        } else if same_text(name, "error") {
            LogLevel::Error
        } else {
            return Err(ConfigError::UnsupportedLogLevel(String::from_str(log_level)));
        };
        Ok(Config { esplora_server_url, listening_addr, log_level: level, network })
    }
}

} // verus!
