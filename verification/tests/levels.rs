use personal_ledger::TelemetryLevels;

#[test]
fn test_default_level() {
    let default_level = TelemetryLevels::default();
    assert_eq!(default_level, TelemetryLevels::WARN);
}

#[test]
fn test_conversion_to_level_filter() {
    // Test each variant converts to the correct LevelFilter
    assert_eq!(
        tracing::level_filters::LevelFilter::from(TelemetryLevels::OFF),
        tracing::level_filters::LevelFilter::OFF
    );
    assert_eq!(
        tracing::level_filters::LevelFilter::from(TelemetryLevels::ERROR),
        tracing::level_filters::LevelFilter::ERROR
    );
    assert_eq!(
        tracing::level_filters::LevelFilter::from(TelemetryLevels::WARN),
        tracing::level_filters::LevelFilter::WARN
    );
    assert_eq!(
        tracing::level_filters::LevelFilter::from(TelemetryLevels::INFO),
        tracing::level_filters::LevelFilter::INFO
    );
    assert_eq!(
        tracing::level_filters::LevelFilter::from(TelemetryLevels::DEBUG),
        tracing::level_filters::LevelFilter::DEBUG
    );
    assert_eq!(
        tracing::level_filters::LevelFilter::from(TelemetryLevels::TRACE),
        tracing::level_filters::LevelFilter::TRACE
    );
}

#[test]
fn test_debug_trait() {
    let level = TelemetryLevels::INFO;
    let debug_str = format!("{:?}", level);
    assert!(debug_str.contains("INFO"));
}

#[test]
fn test_clone_trait() {
    let original = TelemetryLevels::DEBUG;
    let cloned = Clone::clone(&original);
    assert_eq!(original, cloned);
}

#[test]
fn test_copy_trait() {
    let original = TelemetryLevels::TRACE;
    let copied = original; // Copy trait allows this
    assert_eq!(original, copied);
}

#[test]
fn test_partial_eq_trait() {
    assert_eq!(TelemetryLevels::WARN, TelemetryLevels::WARN);
    assert_ne!(TelemetryLevels::INFO, TelemetryLevels::DEBUG);
}

#[test]
fn test_into_conversion() {
    // Test the Into trait (automatic conversion)
    let level = TelemetryLevels::ERROR;
    let filter: tracing::level_filters::LevelFilter = level.into();
    assert_eq!(filter, tracing::level_filters::LevelFilter::ERROR);
}

#[test]
fn test_all_variants_defined() {
    // Ensure all expected variants exist and are distinct
    let variants = [
        TelemetryLevels::OFF,
        TelemetryLevels::ERROR,
        TelemetryLevels::WARN,
        TelemetryLevels::INFO,
        TelemetryLevels::DEBUG,
        TelemetryLevels::TRACE,
    ];

    // Check they're all different
    for (i, &variant1) in variants.iter().enumerate() {
        for (j, &variant2) in variants.iter().enumerate() {
            if i != j {
                assert_ne!(
                    variant1, variant2,
                    "Variants at indices {} and {} should be different",
                    i, j
                );
            }
        }
    }
}

#[test]
fn test_display_trait() {
    // Test that the level's text is the expected lowercase string
    assert_eq!(TelemetryLevels::OFF.to_string(), "off");
    assert_eq!(TelemetryLevels::ERROR.to_string(), "error");
    assert_eq!(TelemetryLevels::WARN.to_string(), "warn");
    assert_eq!(TelemetryLevels::INFO.to_string(), "info");
    assert_eq!(TelemetryLevels::DEBUG.to_string(), "debug");
    assert_eq!(TelemetryLevels::TRACE.to_string(), "trace");
}
