//! The configuration, resolved from the raw values that the surroundings give.

use crate::attribution::DEFAULT_ZONE_OFFSET;
use crate::model::option_text;
use crate::reconciler::{Settings, DEFAULT_POLLING_SECONDS};
use vstd::prelude::*;
use vstd::string::StringExecFns;

verus! {

/// The number that `str::parse::<u64>` reads from a text, or `None` where it reads
/// none.
pub uninterp spec fn unsigned_reading(text: Seq<char>) -> Option<u64>;

/// The number that `str::parse::<i64>` reads from a text, or `None` where it reads
/// none.
pub uninterp spec fn signed_reading(text: Seq<char>) -> Option<i64>;

/// Calls `str::parse::<u64>`.
///
/// Trusted: the result is the number that the standard library reads from the
/// text, and the same text always reads the same.
#[verifier::external_body]
fn read_unsigned(text: &str) -> (res: Option<u64>)
    ensures
        res == unsigned_reading(text@),
{
    text.parse::<u64>().ok()
}

/// Calls `str::parse::<i64>`.
///
/// Trusted: the result is the number that the standard library reads from the
/// text, and the same text always reads the same.
#[verifier::external_body]
fn read_signed(text: &str) -> (res: Option<i64>)
    ensures
        res == signed_reading(text@),
{
    text.parse::<i64>().ok()
}

/// Why no configuration could be made of the raw values.
#[derive(Clone, Copy, Debug, PartialEq, Eq, Structural)]
pub enum ConfigError {
    /// The address of the status endpoint is missing.
    MissingStateEndpoint,
    /// The address of the history endpoint is missing.
    MissingHistoryEndpoint,
    /// The freshness window is missing.
    MissingHistoryWindow,
    /// The freshness window is not a number of seconds.
    InvalidHistoryWindow,
}

/// The values as they were found, each `None` where nothing was set.
#[derive(Clone, Debug, PartialEq, Eq)]
pub struct RawConfig {
    /// Address of the status endpoint.
    pub state_endpoint: Option<String>,
    /// Address of the history endpoint.
    pub history_endpoint: Option<String>,
    /// Seconds between two cycles.
    pub polling_interval: Option<String>,
    /// Seconds for which an event's actor is credited with a change.
    pub history_window: Option<String>,
    /// Zone offset under which the history's times are read.
    pub zone_offset: Option<String>,
}

/// What the bot runs under.
#[derive(Clone, Debug, PartialEq, Eq)]
pub struct Configuration {
    /// Address of the status endpoint.
    pub state_endpoint: String,
    /// Address of the history endpoint.
    pub history_endpoint: String,
    /// Seconds between two cycles.
    pub polling_seconds: u64,
    /// What the cycles themselves are configured with.
    pub settings: Settings,
}

/// The polling interval that a raw value stands for: the number it reads as, and
/// the default where it is missing or reads as none.
pub open spec fn polling_seconds_of(raw: Option<Seq<char>>) -> u64 {
    match raw {
        Some(text) => match unsigned_reading(text) {
            Some(seconds) => seconds,
            None => DEFAULT_POLLING_SECONDS,
        },
        None => DEFAULT_POLLING_SECONDS,
    }
}

/// The zone offset that a raw value stands for: itself, and the default where it is
/// missing.
pub open spec fn zone_offset_of(raw: Option<Seq<char>>) -> Seq<char> {
    match raw {
        Some(text) => text,
        None => DEFAULT_ZONE_OFFSET@,
    }
}

/// The first fault of the raw values, if they have one. Both endpoints and the
/// freshness window are required; the window must read as a number.
pub open spec fn fault_of(raw: RawConfig) -> Option<ConfigError> {
    if raw.state_endpoint is None {
        Some(ConfigError::MissingStateEndpoint)
    } else if raw.history_endpoint is None {
        Some(ConfigError::MissingHistoryEndpoint)
    } else {
        match raw.history_window {
            None => Some(ConfigError::MissingHistoryWindow),
            Some(text) => if signed_reading(text@) is None {
                Some(ConfigError::InvalidHistoryWindow)
            } else {
                None
            },
        }
    }
}

/// The polling interval that the reading of a configured value gives: the number
/// that was read, and [`DEFAULT_POLLING_SECONDS`] where none was.
pub fn polling_seconds_from(reading: Option<u64>) -> (seconds: u64)
    ensures
        seconds == match reading {
            Some(s) => s,
            None => DEFAULT_POLLING_SECONDS,
        },
{
    match reading {
        Some(seconds) => seconds,
        None => DEFAULT_POLLING_SECONDS,
    }
}

/// The freshness window that the reading of a configured value gives: the number
/// that was read, and [`ConfigError::InvalidHistoryWindow`] where none was.
pub fn window_from(reading: Option<i64>) -> (res: Result<i64, ConfigError>)
    ensures
        res == match reading {
            Some(s) => Ok::<i64, ConfigError>(s),
            None => Err::<i64, ConfigError>(ConfigError::InvalidHistoryWindow),
        },
{
    match reading {
        Some(seconds) => Ok(seconds),
        None => Err(ConfigError::InvalidHistoryWindow),
    }
}

/// Reads the polling interval, falling back to [`DEFAULT_POLLING_SECONDS`] where
/// the value is missing or is no number.
pub fn polling_seconds(raw: &Option<String>) -> (seconds: u64)
    ensures
        seconds == polling_seconds_of(option_text(*raw)),
{
    match raw {
        Some(text) => polling_seconds_from(read_unsigned(text.as_str())),
        None => polling_seconds_from(None),
    }
}

/// Resolves the configuration.
///
/// Fails exactly where an endpoint or the freshness window is missing or the window
/// is no number, with the first of these faults. The polling interval and the zone
/// offset fall back to their defaults.
pub fn configure(raw: RawConfig) -> (res: Result<Configuration, ConfigError>)
    ensures
        match res {
            Ok(configuration) => {
                &&& fault_of(raw) is None
                &&& option_text(raw.state_endpoint) == Some(configuration.state_endpoint@)
                &&& option_text(raw.history_endpoint) == Some(configuration.history_endpoint@)
                &&& configuration.polling_seconds == polling_seconds_of(
                    option_text(raw.polling_interval),
                )
                &&& raw.history_window matches Some(text) && signed_reading(text@) == Some(
                    configuration.settings.window_seconds,
                )
                &&& configuration.settings.zone_offset@ == zone_offset_of(
                    option_text(raw.zone_offset),
                )
            },
            Err(fault) => fault_of(raw) == Some(fault),
        },
{
    let polling = polling_seconds(&raw.polling_interval);
    let state_endpoint = match raw.state_endpoint {
        Some(address) => address,
        None => {
            return Err(ConfigError::MissingStateEndpoint);
        },
    };
    let history_endpoint = match raw.history_endpoint {
        Some(address) => address,
        None => {
            return Err(ConfigError::MissingHistoryEndpoint);
        },
    };
    let window_seconds = match raw.history_window {
        Some(text) => match window_from(read_signed(text.as_str())) {
            Ok(seconds) => seconds,
            Err(fault) => {
                return Err(fault);
            },
        },
        None => {
            return Err(ConfigError::MissingHistoryWindow);
        },
    };
    let zone_offset = match raw.zone_offset {
        Some(text) => text,
        None => String::from_str(DEFAULT_ZONE_OFFSET),
    };
    Ok(
        Configuration {
            state_endpoint,
            history_endpoint,
            polling_seconds: polling,
            settings: Settings { window_seconds, zone_offset },
        },
    )
}

} // verus!
