//! Settings of logging and tracing.

use vstd::prelude::*;
use vstd::std_specs::convert::FromSpecImpl;
use tracing::level_filters::LevelFilter;
use crate::text::same_chars;

verus! {

/// How much the service logs.
#[derive(Clone, Copy, Debug, PartialEq, Eq, Structural)]
pub enum TelemetryLevels {
    OFF,
    ERROR,
    WARN,
    INFO,
    DEBUG,
    TRACE,
}

/// A level filter of the `tracing` crate.
#[verifier::external_type_specification]
#[verifier::external_body]
pub struct ExLevelFilter(LevelFilter);

/// The filter of `tracing` that lets through what a level logs.
pub uninterp spec fn filter_of(level: TelemetryLevels) -> LevelFilter;

/// The constants `OFF`, `ERROR`, `WARN`, `INFO`, `DEBUG` and `TRACE` of
/// `tracing`'s `LevelFilter`: each level is given the constant of its own
/// name, so the same level always gives the same filter.
#[verifier::external_body]
fn filter_constant(level: TelemetryLevels) -> (filter: LevelFilter)
    ensures
        filter == filter_of(level),
{
    match level {
        TelemetryLevels::OFF => LevelFilter::OFF,
        TelemetryLevels::ERROR => LevelFilter::ERROR,
        TelemetryLevels::WARN => LevelFilter::WARN,
        TelemetryLevels::INFO => LevelFilter::INFO,
        TelemetryLevels::DEBUG => LevelFilter::DEBUG,
        TelemetryLevels::TRACE => LevelFilter::TRACE,
    }
}

/// The name of a level in a configuration file.
pub open spec fn level_text(level: TelemetryLevels) -> Seq<char> {
    match level {
        TelemetryLevels::OFF => "off"@,
        TelemetryLevels::ERROR => "error"@,
        TelemetryLevels::WARN => "warn"@,
        TelemetryLevels::INFO => "info"@,
        TelemetryLevels::DEBUG => "debug"@,
        TelemetryLevels::TRACE => "trace"@,
    }
}

/// The level with this name in a configuration file, if it names one.
pub open spec fn level_of_text(text: Seq<char>) -> Option<TelemetryLevels> {
    if text == "off"@ {
        Some(TelemetryLevels::OFF)
    } else if text == "error"@ {
        Some(TelemetryLevels::ERROR)
    } else if text == "warn"@ {
        Some(TelemetryLevels::WARN)
    } else if text == "info"@ {
        Some(TelemetryLevels::INFO)
    } else if text == "debug"@ {
        Some(TelemetryLevels::DEBUG)
    } else if text == "trace"@ {
        Some(TelemetryLevels::TRACE)
    } else {
        None
    }
}

impl TelemetryLevels {
    /// The level with this name in a configuration file: the lowercase
    /// names only.
    pub fn parse(text: &str) -> (level: Option<TelemetryLevels>)
        ensures
            level == level_of_text(text@),
    {
        if same_chars(text, "off") {
            Some(TelemetryLevels::OFF)
        } else if same_chars(text, "error") {
            Some(TelemetryLevels::ERROR)
        } else if same_chars(text, "warn") {
            Some(TelemetryLevels::WARN)
        } else if same_chars(text, "info") {
            Some(TelemetryLevels::INFO)
        } else if same_chars(text, "debug") {
            Some(TelemetryLevels::DEBUG)
        } else if same_chars(text, "trace") {
            Some(TelemetryLevels::TRACE)
        } else {
            None
        }
    }

    /// The name of the level in a configuration file.
    pub fn to_string(&self) -> (text: String)
        ensures
            text@ == level_text(*self),
    {
        match self {
            TelemetryLevels::OFF => String::from_str("off"),
            TelemetryLevels::ERROR => String::from_str("error"),
            TelemetryLevels::WARN => String::from_str("warn"),
            TelemetryLevels::INFO => String::from_str("info"),
            TelemetryLevels::DEBUG => String::from_str("debug"),
            TelemetryLevels::TRACE => String::from_str("trace"),
        }
    }
}

impl Default for TelemetryLevels {
    fn default() -> (level: TelemetryLevels)
        ensures
            level == TelemetryLevels::WARN,
    {
        TelemetryLevels::WARN
    }
}

impl From<TelemetryLevels> for LevelFilter {
    fn from(level: TelemetryLevels) -> (filter: LevelFilter) {
        filter_constant(level)
    }
}

impl FromSpecImpl<TelemetryLevels> for LevelFilter {
    open spec fn obeys_from_spec() -> bool {
        true
    }

    open spec fn from_spec(level: TelemetryLevels) -> LevelFilter {
        filter_of(level)
    }
}

/// Settings of logging and tracing.
#[derive(Debug, PartialEq, Eq, Structural)]
pub struct TelemetryConfig {
    /// How much the service logs.
    pub telemetry_level: TelemetryLevels,
}

impl TelemetryConfig {
    /// How much the service logs.
    pub fn telemetry_level(&self) -> (level: TelemetryLevels)
        ensures
            level == self.telemetry_level,
    {
        self.telemetry_level
    }
}

impl Clone for TelemetryConfig {
    fn clone(&self) -> (copy: TelemetryConfig)
        ensures
            copy == *self,
    {
        TelemetryConfig { telemetry_level: self.telemetry_level }
    }
}

impl Default for TelemetryConfig {
    fn default() -> (config: TelemetryConfig)
        ensures
            config.telemetry_level == TelemetryLevels::INFO,
    {
        TelemetryConfig { telemetry_level: TelemetryLevels::INFO }
    }
}

/// What went wrong while logging was set up.
#[derive(Debug)]
pub enum TelemetryError {
    Generic(String),
}

/// The result of setting logging up.
pub type TelemetryResult<T> = Result<T, TelemetryError>;

/// The message of a telemetry error with this detail.
pub open spec fn telemetry_text(detail: Seq<char>) -> Seq<char> {
    "Telemetry generic error: "@ + detail
}

impl TelemetryError {
    /// The error with `message` as its detail, the message turned into a
    /// string by its own `into`.
    pub fn generic<S: Into<String>>(message: S) -> (error: TelemetryError)
        ensures
            error matches TelemetryError::Generic(text) && call_ensures(
                <S as Into<String>>::into,
                (message,),
                text,
            ),
    {
        TelemetryError::Generic(message.into())
    }

    /// The message of this error.
    pub fn to_string(&self) -> (text: String)
        ensures
            self matches TelemetryError::Generic(detail) && text@ == telemetry_text(detail@),
    {
        match self {
            TelemetryError::Generic(detail) => String::from_str(
                "Telemetry generic error: ",
            ).concat(detail.as_str()),
        }
    }
}

/// The filter that logging starts with: that of the level given, or that of
/// `INFO` when none is given.
pub fn default_filter(level: Option<&TelemetryLevels>) -> (filter: LevelFilter)
    ensures
        filter == filter_of(
            match level {
                Some(l) => *l,
                None => TelemetryLevels::INFO,
            },
        ),
{
    match level {
        Some(l) => LevelFilter::from(*l),
        None => LevelFilter::from(TelemetryLevels::INFO),
    }
}

/// The error for a log tracer that could not be set up.
pub fn tracer_failure(detail: &str) -> (error: TelemetryError)
    ensures
        error matches TelemetryError::Generic(text) && text@
            == "Log tracer initialisation failed: "@ + detail@,
{
    TelemetryError::Generic(String::from_str("Log tracer initialisation failed: ").concat(detail))
}

/// The error for a subscriber that could not be made the global default.
pub fn subscriber_failure(detail: &str) -> (error: TelemetryError)
    ensures
        error matches TelemetryError::Generic(text) && text@
            == "Failed to set global default subscriber: "@ + detail@,
{
    TelemetryError::Generic(
        String::from_str("Failed to set global default subscriber: ").concat(detail),
    )
}

} // verus!
