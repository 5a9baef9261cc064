use personal_ledger::{DatabaseConfig, LedgerConfig, TelemetryConfig, TelemetryLevels};

#[test]
fn application_name_returns_correct_value() {
    assert_eq!(LedgerConfig::application_name(), "personal-ledger");
}

#[test]
fn env_prefix_returns_correct_value() {
    assert_eq!(LedgerConfig::env_prefix(), "PERSONAL_LEDGER");
}

#[test]
fn telemetry_config_returns_telemetry_reference() {
    let config = LedgerConfig::default();
    let telemetry = config.telemetry_config();
    assert_eq!(
        telemetry.telemetry_level(),
        config.telemetry.telemetry_level()
    );
}

#[test]
fn database_config_returns_database_reference() {
    let config = LedgerConfig::default();
    let database = config.database_config();
    assert_eq!(database.url(), config.database.url());
    assert_eq!(
        database.max_connections(),
        config.database.max_connections()
    );
}

#[test]
fn default_ledger_config_holds_the_defaults_of_its_parts() {
    let config = LedgerConfig::default();
    assert_eq!(config.telemetry, TelemetryConfig::default());
    assert_eq!(config.telemetry.telemetry_level(), TelemetryLevels::INFO);
    assert_eq!(config.database, DatabaseConfig::default());
}

#[test]
fn ledger_config_clone_keeps_every_setting() {
    let mut config = LedgerConfig::default();
    config.database.url = "sqlite:other.db".to_string();
    config.telemetry.telemetry_level = TelemetryLevels::TRACE;
    let copy = config.clone();
    assert_eq!(copy.database, config.database);
    assert_eq!(copy.telemetry, config.telemetry);
}
