use argusx::settings::{
    default_config_path, parse_bool, parse_u32, DatabaseConfig, EnvOverrides, LoggingConfig, Settings,
};

#[test]
fn test_settings_default() {
    let settings = Settings::default();
    assert_eq!(settings.database.path, "prompt_lab/dev.db");
    assert_eq!(settings.database.busy_timeout_ms, 5000);
    assert_eq!(settings.database.max_connections, 5);
    assert_eq!(settings.logging.level, "info");
    assert!(settings.logging.console);
    assert!(settings.logging.file.is_none());
}

#[test]
fn test_database_config_default() {
    let config = DatabaseConfig::default();
    assert_eq!(config.path, "prompt_lab/dev.db");
    assert_eq!(config.busy_timeout_ms, 5000);
    assert_eq!(config.max_connections, 5);
}

#[test]
fn test_logging_config_default() {
    let config = LoggingConfig::default();
    assert_eq!(config.level, "info");
    assert!(config.console);
    assert!(config.file.is_none());
}

#[test]
fn test_settings_load_from_file() {
    // What the settings file parsed to; the environment sets nothing.
    let file = Settings {
        database: DatabaseConfig { path: "test.db".to_string(), busy_timeout_ms: 1000, max_connections: 10 },
        logging: LoggingConfig { level: "debug".to_string(), file: None, console: false },
    };

    let settings = Settings::load(Some(file), &EnvOverrides::default());

    assert_eq!(settings.database.path, "test.db");
    assert_eq!(settings.database.busy_timeout_ms, 1000);
    assert_eq!(settings.database.max_connections, 10);
    assert_eq!(settings.logging.level, "debug");
    assert!(!settings.logging.console);
}

#[test]
fn test_settings_env_overrides() {
    // No settings file; ARGUSX_DB_PATH and ARGUSX_LOG_LEVEL are set.
    let env = EnvOverrides {
        db_path: Some("env_db.db".to_string()),
        log_level: Some("warn".to_string()),
        ..EnvOverrides::default()
    };

    let settings = Settings::load(None, &env);

    assert_eq!(settings.database.path, "env_db.db");
    assert_eq!(settings.logging.level, "warn");
}

#[test]
fn unparsable_numbers_and_flags_fall_back_to_defaults() {
    let env = EnvOverrides {
        db_timeout_ms: Some("soon".to_string()),
        db_max_conns: Some("4294967296".to_string()),
        log_console: Some("yes".to_string()),
        ..EnvOverrides::default()
    };
    let file = Settings {
        database: DatabaseConfig { path: "a.db".to_string(), busy_timeout_ms: 1, max_connections: 2 },
        logging: LoggingConfig { level: "debug".to_string(), file: None, console: false },
    };
    let settings = Settings::load(Some(file), &env);
    assert_eq!(settings.database.busy_timeout_ms, 5000);
    assert_eq!(settings.database.max_connections, 5);
    assert!(settings.logging.console);
    assert_eq!(settings.database.path, "a.db");
}

#[test]
fn parsable_overrides_apply() {
    let env = EnvOverrides {
        db_timeout_ms: Some("+250".to_string()),
        db_max_conns: Some("4294967295".to_string()),
        log_file: Some("app.log".to_string()),
        log_console: Some("false".to_string()),
        ..EnvOverrides::default()
    };
    let settings = Settings::load_default(None, &env);
    assert_eq!(settings.database.busy_timeout_ms, 250);
    assert_eq!(settings.database.max_connections, 4294967295);
    assert_eq!(settings.logging.file.as_deref(), Some("app.log"));
    assert!(!settings.logging.console);
    assert_eq!(settings.database.path, "prompt_lab/dev.db");
}

#[test]
fn no_overrides_keep_the_file() {
    let file = Settings {
        database: DatabaseConfig { path: "x.db".to_string(), busy_timeout_ms: 7, max_connections: 8 },
        logging: LoggingConfig { level: "trace".to_string(), file: Some("f".to_string()), console: false },
    };
    let settings = Settings::load(Some(file), &EnvOverrides::default());
    assert_eq!(settings.database.path, "x.db");
    assert_eq!(settings.database.busy_timeout_ms, 7);
    assert_eq!(settings.database.max_connections, 8);
    assert_eq!(settings.logging.level, "trace");
    assert_eq!(settings.logging.file.as_deref(), Some("f"));
    assert!(!settings.logging.console);
}

#[test]
fn parsers_follow_std_parse() {
    assert_eq!(parse_bool("true"), Some(true));
    assert_eq!(parse_bool("false"), Some(false));
    assert_eq!(parse_bool("True"), None);
    assert_eq!(parse_bool(""), None);
    assert_eq!(parse_u32("42"), Some(42));
    assert_eq!(parse_u32("-1"), None);
    assert_eq!(parse_u32("4294967296"), None);
    assert_eq!(parse_u32(""), None);
    assert_eq!(default_config_path(), "config/default.toml");
}
