use hello_world_grpc::config::{
    AppConfig, LogFormat, LogLevel, LoggingConfig, ServerConfig, StreamingConfig,
};
use hello_world_grpc::error::AppError;

// Stands for the reading of the address as a socket address, which is the
// caller's part: of the addresses used here only the first can be read.
fn address_error(config: &AppConfig) -> Option<String> {
    match config.server.grpc_address.as_str() {
        "127.0.0.1:50051" => None,
        _ => Some("invalid socket address syntax".to_string()),
    }
}

fn validate(config: &AppConfig) -> Result<(), AppError> {
    let reason = address_error(config);
    config.validate(reason.as_deref())
}

#[test]
fn test_default_config_is_valid() {
    let config = AppConfig::default();
    assert!(validate(&config).is_ok());
}

#[test]
fn test_config_validation_grpc_address() {
    let mut config = AppConfig::default();

    config.server.grpc_address = "127.0.0.1:50051".to_string();
    assert!(validate(&config).is_ok());

    config.server.grpc_address = "invalid_address".to_string();
    assert!(validate(&config).is_err());
}

#[test]
fn test_config_validation_health_port() {
    let mut config = AppConfig::default();

    config.server.health_port = 8081;
    assert!(validate(&config).is_ok());

    config.server.health_port = 80;
    assert!(validate(&config).is_err());
}

#[test]
fn test_config_validation_log_level() {
    let mut config = AppConfig::default();

    for level in &[
        LogLevel::Trace,
        LogLevel::Debug,
        LogLevel::Info,
        LogLevel::Warn,
        LogLevel::Error,
    ] {
        config.logging.level = level.clone();
        assert!(
            validate(&config).is_ok(),
            "Log level {} should be valid",
            level.to_string()
        );
    }
}

#[test]
fn test_config_validation_log_format() {
    let mut config = AppConfig::default();

    for format in &[LogFormat::Pretty, LogFormat::Json] {
        config.logging.format = format.to_owned();
        assert!(
            validate(&config).is_ok(),
            "Log format {} should be valid",
            format.to_string()
        );
    }
}

#[test]
fn test_log_level_from_str() {
    assert_eq!(LogLevel::Trace, "trace".parse().unwrap());
    assert_eq!(LogLevel::Debug, "debug".parse().unwrap());
    assert_eq!(LogLevel::Info, "info".parse().unwrap());
    assert_eq!(LogLevel::Warn, "warn".parse().unwrap());
    assert_eq!(LogLevel::Error, "error".parse().unwrap());

    assert_eq!(LogLevel::Info, "INFO".parse().unwrap());
    assert_eq!(LogLevel::Error, "Error".parse().unwrap());

    assert!("invalid".parse::<LogLevel>().is_err());
}

#[test]
fn test_log_level_display() {
    assert_eq!(LogLevel::Trace.to_string(), "trace");
    assert_eq!(LogLevel::Debug.to_string(), "debug");
    assert_eq!(LogLevel::Info.to_string(), "info");
    assert_eq!(LogLevel::Warn.to_string(), "warn");
    assert_eq!(LogLevel::Error.to_string(), "error");
}

#[test]
fn test_streaming_config_validation() {
    let mut config = AppConfig {
        server: ServerConfig {
            grpc_address: "127.0.0.1:50051".to_string(),
            health_port: 8081,
        },
        logging: LoggingConfig {
            level: LogLevel::Info,
            format: LogFormat::Pretty,
        },
        streaming: StreamingConfig {
            interval_seconds: 1,
            max_connections: 100,
            timeout_seconds: 300,
        },
    };
    assert!(validate(&config).is_ok());

    config.streaming.interval_seconds = 0;
    assert!(validate(&config).is_err());

    config.streaming.interval_seconds = 3601;
    assert!(validate(&config).is_err());

    config.streaming.interval_seconds = 1;

    config.streaming.max_connections = 0;
    assert!(validate(&config).is_err());

    config.streaming.max_connections = 10001;
    assert!(validate(&config).is_err());

    config.streaming.max_connections = 100;

    config.streaming.timeout_seconds = 0;
    assert!(validate(&config).is_err());

    config.streaming.timeout_seconds = 86401;
    assert!(validate(&config).is_err());

    config.streaming = StreamingConfig {
        interval_seconds: 1,
        max_connections: 1,
        timeout_seconds: 1,
    };
    assert!(validate(&config).is_ok());

    config.streaming = StreamingConfig {
        interval_seconds: 3600,
        max_connections: 10000,
        timeout_seconds: 86400,
    };
    assert!(validate(&config).is_ok());
}

#[test]
fn test_streaming_config_defaults() {
    let config = AppConfig::default();

    assert_eq!(config.streaming.interval_seconds, 1);
    assert_eq!(config.streaming.max_connections, 100);
    assert_eq!(config.streaming.timeout_seconds, 300);

    assert!(validate(&config).is_ok());
}

#[test]
fn test_default_config_values() {
    let config = AppConfig::default();
    assert_eq!(config.server.grpc_address, "127.0.0.1:50051");
    assert_eq!(config.server.health_port, 8081);
    assert_eq!(config.logging.level, LogLevel::Info);
    assert_eq!(config.logging.format, LogFormat::Pretty);
    assert!(config.validate(None).is_ok());
}

fn issue(config: &AppConfig, reason: Option<&str>) -> String {
    let error = config.validate(reason).unwrap_err();
    assert!(matches!(error, AppError::ConfigurationError { .. }));
    error.message().to_string()
}

#[test]
fn test_config_issue_messages_are_exact() {
    let mut config = AppConfig::default();
    config.server.grpc_address = "nowhere".to_string();
    assert_eq!(
        issue(&config, Some("invalid socket address syntax")),
        "Invalid gRPC address 'nowhere': invalid socket address syntax"
    );
    config.server.health_port = 1023;
    assert_eq!(issue(&config, None), "Health port must be >= 1024, got: 1023");
    config.server.health_port = 1024;
    assert!(config.validate(None).is_ok());
    config.streaming.interval_seconds = 0;
    assert_eq!(
        issue(&config, None),
        "Streaming interval must be > 0 seconds, got: 0"
    );
    config.streaming.interval_seconds = 3601;
    assert_eq!(
        issue(&config, None),
        "Streaming interval too large (max 3600s/1h), got: 3601s"
    );
    config.streaming.interval_seconds = 5;
    config.streaming.max_connections = 0;
    assert_eq!(issue(&config, None), "Max connections must be > 0, got: 0");
    config.streaming.max_connections = 4_000_000_000;
    assert_eq!(
        issue(&config, None),
        "Max connections too large (max 10000), got: 4000000000"
    );
    config.streaming.max_connections = 7;
    config.streaming.timeout_seconds = 0;
    assert_eq!(issue(&config, None), "Timeout must be > 0 seconds, got: 0");
    config.streaming.timeout_seconds = u64::MAX;
    assert_eq!(
        issue(&config, None),
        "Timeout too large (max 86400s/24h), got: 18446744073709551615s"
    );
}

#[test]
fn test_config_reports_the_first_issue_only() {
    let mut config = AppConfig::default();
    config.server.health_port = 1;
    config.streaming.interval_seconds = 0;
    config.streaming.timeout_seconds = 0;
    assert_eq!(issue(&config, None), "Health port must be >= 1024, got: 1");
    assert_eq!(
        issue(&config, Some("why")),
        "Invalid gRPC address '127.0.0.1:50051': why"
    );
}

#[test]
fn test_log_format_names() {
    assert_eq!(LogFormat::Pretty.to_string(), "pretty");
    assert_eq!(LogFormat::Json.to_string(), "json");
    assert_eq!(LogFormat::Json, "JSON".parse().unwrap());
    assert_eq!(LogFormat::Pretty, "Pretty".parse().unwrap());
    assert_eq!(LogFormat::parse("pretty").unwrap(), LogFormat::Pretty);
    assert_eq!(LogFormat::from_lowercase("json"), Some(LogFormat::Json));
    assert_eq!(LogFormat::from_lowercase("JSON"), None);
    let error = LogFormat::parse("Yaml").unwrap_err();
    assert!(matches!(error, AppError::ConfigurationError { .. }));
    assert_eq!(error.message(), "Invalid log format: Yaml");
}

#[test]
fn test_log_level_names_are_exact() {
    assert_eq!(LogLevel::from_lowercase("warn"), Some(LogLevel::Warn));
    assert_eq!(LogLevel::from_lowercase("Warn"), None);
    assert_eq!(LogLevel::from_lowercase(" warn"), None);
    assert_eq!(LogLevel::parse("wArN").unwrap(), LogLevel::Warn);
    let error = LogLevel::parse("Verbose").unwrap_err();
    assert!(matches!(error, AppError::ConfigurationError { .. }));
    assert_eq!(error.message(), "Invalid log level: Verbose");
    assert_eq!(
        error.to_string(),
        "Configuration error: Invalid log level: Verbose"
    );
}
