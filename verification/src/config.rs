//! The settings of the server and the rules that they must meet.

use vstd::prelude::*;
use vstd::string::*;
use crate::error::AppError;
use crate::text::{decimal, push_decimal, same_text};

verus! {

/// What `str::to_lowercase` makes of a text: each character replaced by its
/// lowercase form as Unicode defines it.
pub uninterp spec fn lowercase(text: Seq<char>) -> Seq<char>;

/// `str::to_lowercase` returns the lowercase form of the text as a new
/// `String`.
pub assume_specification[ str::to_lowercase ](text: &str) -> (lower: String)
    ensures
        lower@ == lowercase(text@),
;

/// How log lines are written.
#[derive(Debug, Clone, Copy, PartialEq, Eq, Structural)]
pub enum LogFormat {
    Pretty,
    Json,
}

/// The least severity that is logged.
#[derive(Debug, Clone, Copy, PartialEq, Eq, Structural)]
pub enum LogLevel {
    Trace,
    Debug,
    Info,
    Warn,
    Error,
}

/// All settings of the server.
#[derive(Debug, Clone)]
pub struct AppConfig {
    pub server: ServerConfig,
    pub logging: LoggingConfig,
    pub streaming: StreamingConfig,
}

/// Where the server listens.
#[derive(Debug, Clone)]
pub struct ServerConfig {
    pub grpc_address: String,
    pub health_port: u16,
}

/// What is logged and how.
#[derive(Debug, Clone)]
pub struct LoggingConfig {
    pub level: LogLevel,
    pub format: LogFormat,
}

/// Limits of the time stream.
#[derive(Debug, Clone)]
pub struct StreamingConfig {
    pub interval_seconds: u64,
    pub max_connections: u32,
    pub timeout_seconds: u64,
}

/// The smallest port that the health endpoint may use.
pub const MIN_HEALTH_PORT: u16 = 1024;

/// The longest stream interval, in seconds.
pub const MAX_INTERVAL_SECONDS: u64 = 3600;

/// The largest number of stream connections.
pub const MAX_CONNECTIONS: u32 = 10000;

/// The longest stream timeout, in seconds.
pub const MAX_TIMEOUT_SECONDS: u64 = 86400;

impl LogFormat {
    /// The name of the format, in lower case.
    pub open spec fn name(self) -> Seq<char> {
        match self {
            LogFormat::Pretty => "pretty"@,
            LogFormat::Json => "json"@,
        }
    }

    /// The format with the given lower-case name, if there is one.
    pub open spec fn named(name: Seq<char>) -> Option<LogFormat> {
        if name == "pretty"@ {
            Some(LogFormat::Pretty)
        } else if name == "json"@ {
            Some(LogFormat::Json)
        } else {
            None
        }
    }

    /// Message of the error for a text that names no format.
    pub open spec fn invalid_message(text: Seq<char>) -> Seq<char> {
        "Invalid log format: "@ + text
    }

    /// The name of the format, in lower case.
    pub fn to_string(&self) -> (s: String)
        ensures
            s@ == self.name(),
    {
        match self {
            LogFormat::Pretty => String::from_str("pretty"),
            LogFormat::Json => String::from_str("json"),
        }
    }

    /// The format whose name is exactly `name`.
    pub fn from_lowercase(name: &str) -> (r: Option<LogFormat>)
        ensures
            r == LogFormat::named(name@),
    {
        if same_text(name, "pretty") {
            Some(LogFormat::Pretty)
        } else if same_text(name, "json") {
            Some(LogFormat::Json)
        } else {
            None
        }
    }

    /// Reads a format from its name, written in any mix of upper and lower
    /// case. A text that names none is refused with a configuration error
    /// that quotes it.
    pub fn parse(text: &str) -> (r: Result<LogFormat, AppError>)
        ensures
            r is Ok <==> LogFormat::named(lowercase(text@)) is Some,
            r is Ok ==> Some(r->Ok_0) == LogFormat::named(lowercase(text@)),
            r is Err ==> r->Err_0 is ConfigurationError && r->Err_0.message_text()
                == LogFormat::invalid_message(text@),
    {
        let lower = text.to_lowercase();
        match LogFormat::from_lowercase(lower.as_str()) {
            Some(format) => Ok(format),
            None => {
                let message = String::from_str("Invalid log format: ").concat(text);
                Err(AppError::configuration(message.as_str()))
            },
        }
    }
}

impl std::str::FromStr for LogFormat {
    type Err = AppError;

    /// As `LogFormat::parse`.
    fn from_str(text: &str) -> (r: Result<LogFormat, AppError>)
        ensures
            r is Ok <==> LogFormat::named(lowercase(text@)) is Some,
            r is Ok ==> Some(r->Ok_0) == LogFormat::named(lowercase(text@)),
            r is Err ==> r->Err_0 is ConfigurationError && r->Err_0.message_text()
                == LogFormat::invalid_message(text@),
    {
        LogFormat::parse(text)
    }
}

impl LogLevel {
    /// The name of the level, in lower case.
    pub open spec fn name(self) -> Seq<char> {
        match self {
            LogLevel::Trace => "trace"@,
            LogLevel::Debug => "debug"@,
            LogLevel::Info => "info"@,
            LogLevel::Warn => "warn"@,
            LogLevel::Error => "error"@,
        }
    }

    /// The level with the given lower-case name, if there is one.
    pub open spec fn named(name: Seq<char>) -> Option<LogLevel> {
        if name == "trace"@ {
            Some(LogLevel::Trace)
        } else if name == "debug"@ {
            Some(LogLevel::Debug)
        } else if name == "info"@ {
            Some(LogLevel::Info)
        } else if name == "warn"@ {
            Some(LogLevel::Warn)
        } else if name == "error"@ {
            Some(LogLevel::Error)
        } else {
            None
        }
    }

    /// Message of the error for a text that names no level.
    pub open spec fn invalid_message(text: Seq<char>) -> Seq<char> {
        "Invalid log level: "@ + text
    }

    /// The name of the level, in lower case.
    pub fn to_string(&self) -> (s: String)
        ensures
            s@ == self.name(),
    {
        match self {
            LogLevel::Trace => String::from_str("trace"),
            LogLevel::Debug => String::from_str("debug"),
            LogLevel::Info => String::from_str("info"),
            LogLevel::Warn => String::from_str("warn"),
            LogLevel::Error => String::from_str("error"),
        }
    }

    /// The level whose name is exactly `name`.
    pub fn from_lowercase(name: &str) -> (r: Option<LogLevel>)
        ensures
            r == LogLevel::named(name@),
    {
        if same_text(name, "trace") {
            Some(LogLevel::Trace)
        } else if same_text(name, "debug") {
            Some(LogLevel::Debug)
        } else if same_text(name, "info") {
            Some(LogLevel::Info)
        } else if same_text(name, "warn") {
            Some(LogLevel::Warn)
        } else if same_text(name, "error") {
            Some(LogLevel::Error)
        } else {
            None
        }
    }

    /// Reads a level from its name, written in any mix of upper and lower
    /// case. A text that names none is refused with a configuration error
    /// that quotes it.
    pub fn parse(text: &str) -> (r: Result<LogLevel, AppError>)
        ensures
            r is Ok <==> LogLevel::named(lowercase(text@)) is Some,
            r is Ok ==> Some(r->Ok_0) == LogLevel::named(lowercase(text@)),
            r is Err ==> r->Err_0 is ConfigurationError && r->Err_0.message_text()
                == LogLevel::invalid_message(text@),
    {
        let lower = text.to_lowercase();
        match LogLevel::from_lowercase(lower.as_str()) {
            Some(level) => Ok(level),
            None => {
                let message = String::from_str("Invalid log level: ").concat(text);
                Err(AppError::configuration(message.as_str()))
            },
        }
    }
}

impl std::str::FromStr for LogLevel {
    type Err = AppError;

    /// As `LogLevel::parse`.
    fn from_str(text: &str) -> (r: Result<LogLevel, AppError>)
        ensures
            r is Ok <==> LogLevel::named(lowercase(text@)) is Some,
            r is Ok ==> Some(r->Ok_0) == LogLevel::named(lowercase(text@)),
            r is Err ==> r->Err_0 is ConfigurationError && r->Err_0.message_text()
                == LogLevel::invalid_message(text@),
    {
        LogLevel::parse(text)
    }
}

impl Default for AppConfig {
    /// The settings of a server that was given none: it listens on
    /// 127.0.0.1:50051, answers health checks on port 8081, logs from
    /// `Info` up in the pretty format, and streams every second to at most
    /// 100 connections for at most 300 seconds each.
    fn default() -> (config: AppConfig)
        ensures
            config.server.grpc_address@ == "127.0.0.1:50051"@,
            config.server.health_port == 8081,
            config.logging.level == LogLevel::Info,
            config.logging.format == LogFormat::Pretty,
            config.streaming.interval_seconds == 1,
            config.streaming.max_connections == 100,
            config.streaming.timeout_seconds == 300,
            config.first_issue(None) is None,
    {
        AppConfig {
            server: ServerConfig {
                grpc_address: String::from_str("127.0.0.1:50051"),
                health_port: 8081,
            },
            logging: LoggingConfig { level: LogLevel::Info, format: LogFormat::Pretty },
            streaming: StreamingConfig {
                interval_seconds: 1,
                max_connections: 100,
                timeout_seconds: 300,
            },
        }
    }
}

impl AppConfig {
    /// The message for the first rule that the settings break, in the
    /// order in which the rules are checked, and `None` where they break
    /// none. `address_error` is the reason for which the gRPC address could
    /// not be read as a socket address, and `None` where it could.
    pub open spec fn first_issue(self, address_error: Option<Seq<char>>) -> Option<Seq<char>> {
        if address_error is Some {
            Some(
                "Invalid gRPC address '"@ + self.server.grpc_address@ + "': "@
                    + address_error->0,
            )
        } else if self.server.health_port < MIN_HEALTH_PORT {
            Some("Health port must be >= 1024, got: "@ + decimal(self.server.health_port as nat))
        } else if self.streaming.interval_seconds == 0 {
            Some("Streaming interval must be > 0 seconds, got: 0"@)
        } else if self.streaming.interval_seconds > MAX_INTERVAL_SECONDS {
            Some(
                "Streaming interval too large (max 3600s/1h), got: "@ + decimal(
                    self.streaming.interval_seconds as nat,
                ) + "s"@,
            )
        } else if self.streaming.max_connections == 0 {
            Some("Max connections must be > 0, got: 0"@)
        } else if self.streaming.max_connections > MAX_CONNECTIONS {
            Some(
                "Max connections too large (max 10000), got: "@ + decimal(
                    self.streaming.max_connections as nat,
                ),
            )
        } else if self.streaming.timeout_seconds == 0 {
            Some("Timeout must be > 0 seconds, got: 0"@)
        } else if self.streaming.timeout_seconds > MAX_TIMEOUT_SECONDS {
            Some(
                "Timeout too large (max 86400s/24h), got: "@ + decimal(
                    self.streaming.timeout_seconds as nat,
                ) + "s"@,
            )
        } else {
            None
        }
    }

    /// Checks the settings. `address_error` tells how reading the gRPC
    /// address as a socket address went: `None` where it could be read, and
    /// the reason where it could not. The settings pass if and only if the
    /// address could be read, the health port is 1024 or more, the stream
    /// interval is between 1 and 3600 seconds, the connections are between
    /// 1 and 10000, and the timeout is between 1 and 86400 seconds. Else
    /// the result is a configuration error for the first rule broken.
    pub fn validate(&self, address_error: Option<&str>) -> (r: Result<(), AppError>)
        ensures
            r is Ok <==> self.first_issue(address_reason(address_error)) is None,
            r is Err ==> r->Err_0 is ConfigurationError && Some(r->Err_0.message_text())
                == self.first_issue(address_reason(address_error)),
    {
        if let Some(reason) = address_error {
            let message = String::from_str("Invalid gRPC address '").concat(
                self.server.grpc_address.as_str(),
            ).concat("': ").concat(reason);
            return Err(AppError::configuration(message.as_str()));
        }
        if self.server.health_port < MIN_HEALTH_PORT {
            let mut message = String::from_str("Health port must be >= 1024, got: ");
            push_decimal(&mut message, self.server.health_port as u128);
            return Err(AppError::configuration(message.as_str()));
        }
        if self.streaming.interval_seconds == 0 {
            return Err(AppError::configuration("Streaming interval must be > 0 seconds, got: 0"));
        }
        if self.streaming.interval_seconds > MAX_INTERVAL_SECONDS {
            let mut message = String::from_str(
                "Streaming interval too large (max 3600s/1h), got: ",
            );
            push_decimal(&mut message, self.streaming.interval_seconds as u128);
            message.append("s");
            return Err(AppError::configuration(message.as_str()));
        }
        if self.streaming.max_connections == 0 {
            return Err(AppError::configuration("Max connections must be > 0, got: 0"));
        }
        if self.streaming.max_connections > MAX_CONNECTIONS {
            let mut message = String::from_str("Max connections too large (max 10000), got: ");
            push_decimal(&mut message, self.streaming.max_connections as u128);
            return Err(AppError::configuration(message.as_str()));
        }
        if self.streaming.timeout_seconds == 0 {
            return Err(AppError::configuration("Timeout must be > 0 seconds, got: 0"));
        }
        if self.streaming.timeout_seconds > MAX_TIMEOUT_SECONDS {
            let mut message = String::from_str("Timeout too large (max 86400s/24h), got: ");
            push_decimal(&mut message, self.streaming.timeout_seconds as u128);
            message.append("s");
            return Err(AppError::configuration(message.as_str()));
        }
        Ok(())
    }
}

/// The reason that `address_error` holds, as text.
pub open spec fn address_reason(address_error: Option<&str>) -> Option<Seq<char>> {
    match address_error {
        Some(reason) => Some(reason@),
        None => None,
    }
}

} // verus!
