use fake::faker::lorem::en::Sentence;
use fake::Fake;
use personal_ledger::telemetry::{default_filter, subscriber_failure, tracer_failure};
use personal_ledger::{TelemetryConfig, TelemetryError, TelemetryLevels, TelemetryResult};
use tracing::level_filters::LevelFilter;

#[test]
fn test_generic_error_with_string() {
    let message = Sentence(3..8).fake::<String>();
    let error = TelemetryError::generic(message.clone());

    match error {
        TelemetryError::Generic(msg) => assert_eq!(msg, message),
    }
}

#[test]
fn test_generic_error_with_str() {
    let message = Sentence(3..8).fake::<String>();
    let error = TelemetryError::generic(message.as_str());

    match error {
        TelemetryError::Generic(msg) => assert_eq!(msg, message),
    }
}

#[test]
fn test_generic_error_display() {
    let message = Sentence(3..8).fake::<String>();
    let error = TelemetryError::generic(message.clone());
    let display_msg = error.to_string();

    assert_eq!(display_msg, format!("Telemetry generic error: {}", message));
}

#[test]
fn test_generic_error_debug() {
    let message = Sentence(3..8).fake::<String>();
    let error = TelemetryError::generic(message.clone());
    let debug_msg = format!("{:?}", error);

    // The debug output should contain the variant name and message
    assert!(debug_msg.contains("Generic"));
    assert!(debug_msg.contains(&message));
}

#[test]
fn test_telemetry_result_type_alias() {
    // Test that TelemetryResult works as expected
    let result: TelemetryResult<i32> = Ok(42);
    assert!(result.is_ok());
    if let Ok(value) = result {
        assert_eq!(value, 42);
    }

    let error_message = Sentence(2..5).fake::<String>();
    let error_result: TelemetryResult<i32> = Err(TelemetryError::generic(error_message));
    assert!(error_result.is_err());
}

#[test]
fn test_telemetry_levels_conversion() {
    let levels = [
        (TelemetryLevels::OFF, LevelFilter::OFF),
        (TelemetryLevels::ERROR, LevelFilter::ERROR),
        (TelemetryLevels::WARN, LevelFilter::WARN),
        (TelemetryLevels::INFO, LevelFilter::INFO),
        (TelemetryLevels::DEBUG, LevelFilter::DEBUG),
        (TelemetryLevels::TRACE, LevelFilter::TRACE),
    ];
    for (level, filter) in levels {
        assert_eq!(LevelFilter::from(level), filter);
        assert_eq!(default_filter(Some(&level)), filter);
    }
}

#[test]
fn test_default_level_behaviors() {
    assert_eq!(default_filter(None), LevelFilter::INFO);
    assert_eq!(TelemetryConfig::default().telemetry_level(), TelemetryLevels::INFO);
    assert_eq!(TelemetryLevels::default(), TelemetryLevels::WARN);
}

#[test]
fn test_error_message_formatting() {
    assert_eq!(
        tracer_failure("already set").to_string(),
        "Telemetry generic error: Log tracer initialisation failed: already set"
    );
    assert_eq!(
        subscriber_failure("already set").to_string(),
        "Telemetry generic error: Failed to set global default subscriber: already set"
    );
}

#[test]
fn telemetry_levels_are_read_by_their_lowercase_names() {
    let all = [
        (TelemetryLevels::OFF, "off"),
        (TelemetryLevels::ERROR, "error"),
        (TelemetryLevels::WARN, "warn"),
        (TelemetryLevels::INFO, "info"),
        (TelemetryLevels::DEBUG, "debug"),
        (TelemetryLevels::TRACE, "trace"),
    ];
    for (level, name) in all {
        assert_eq!(TelemetryLevels::parse(name), Some(level));
        assert_eq!(level.to_string(), name);
    }
    assert_eq!(TelemetryLevels::parse("OFF"), None);
    assert_eq!(TelemetryLevels::parse("Error"), None);
    assert_eq!(TelemetryLevels::parse("invalid"), None);
}

#[test]
fn telemetry_config_is_cloned_and_compared_by_its_level() {
    let config = TelemetryConfig { telemetry_level: TelemetryLevels::DEBUG };
    assert_eq!(config.clone(), config);
    assert_ne!(config, TelemetryConfig::default());
}
