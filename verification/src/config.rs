//! Application configuration model: defaults and the log-level order.
//! Loading and saving the configuration file is the caller's business;
//! the library only says what the values are.

use vstd::prelude::*;

verus! {

/// Name of the configuration file.
pub const DEFAULT_CONFIG_FILE_NAME: &'static str = "netpulsar-config.json";

/// Name of the log file.
pub const DEFAULT_LOG_FILE_NAME: &'static str = "netpulsar.log";

/// Severity of a log line, least severe first.
#[derive(Clone, Copy, Debug, PartialEq, Eq, Structural)]
pub enum LogLevel {
    DEBUG,
    INFO,
    WARN,
    ERROR,
}

impl LogLevel {
    /// Whether a line of severity `level` passes a logger configured at
    /// `self`: everything at or above the configured severity does.
    pub fn allows(&self, level: &LogLevel) -> (r: bool)
        ensures
            r == self.allows_spec(*level),
    {
        match self {
            LogLevel::DEBUG => true,
            LogLevel::INFO => !matches!(level, LogLevel::DEBUG),
            LogLevel::WARN => matches!(level, LogLevel::WARN | LogLevel::ERROR),
            LogLevel::ERROR => matches!(level, LogLevel::ERROR),
        }
    }

    /// The filter `allows` applies.
    pub open spec fn allows_spec(self, level: LogLevel) -> bool {
        match self {
            LogLevel::DEBUG => true,
            LogLevel::INFO => level != LogLevel::DEBUG,
            LogLevel::WARN => level == LogLevel::WARN || level == LogLevel::ERROR,
            LogLevel::ERROR => level == LogLevel::ERROR,
        }
    }

    /// Name of the level, for display and for the configuration file.
    pub fn to_string(&self) -> (r: String)
        ensures
            r@ == self.name_spec(),
    {
        match self {
            LogLevel::DEBUG => String::from_str("DEBUG"),
            LogLevel::INFO => String::from_str("INFO"),
            LogLevel::WARN => String::from_str("WARN"),
            LogLevel::ERROR => String::from_str("ERROR"),
        }
    }

    /// The character sequence `to_string` returns.
    pub open spec fn name_spec(self) -> Seq<char> {
        match self {
            LogLevel::DEBUG => "DEBUG"@,
            LogLevel::INFO => "INFO"@,
            LogLevel::WARN => "WARN"@,
            LogLevel::ERROR => "ERROR"@,
        }
    }
}

/// Logging configuration: the level and where the log file lives.
#[derive(Clone, Debug)]
pub struct LoggingConfig {
    /// Least severity that is logged.
    pub level: LogLevel,
    /// Path of the log file; the caller fills in the user's directory.
    pub file_path: Option<String>,
}

impl LoggingConfig {
    /// The default logging configuration: informational level, no file
    /// path chosen yet.
    pub fn new() -> (r: LoggingConfig)
        ensures
            r.level == LogLevel::INFO,
            r.file_path is None,
    {
        LoggingConfig { level: LogLevel::INFO, file_path: None }
    }
}

/// Application configuration.
#[derive(Clone, Debug)]
pub struct AppConfig {
    /// Whether the app should start automatically.
    pub startup: bool,
    /// Refresh interval in milliseconds.
    pub refresh_interval_ms: u64,
    /// Theme: `dark`, `light` or `system`.
    pub theme: String,
    /// Data unit: `bits` or `bytes`.
    pub data_unit: String,
    /// Logging configuration.
    pub logging: LoggingConfig,
}

impl AppConfig {
    /// The default configuration: no autostart, a one-second refresh,
    /// the system theme, and rates in bits.
    pub fn new() -> (r: AppConfig)
        ensures
            !r.startup,
            r.refresh_interval_ms == 1000,
            r.theme@ == "system"@,
            r.data_unit@ == "bits"@,
            r.logging.level == LogLevel::INFO,
            r.logging.file_path is None,
    {
        AppConfig {
            startup: false,
            refresh_interval_ms: 1000,
            theme: String::from_str("system"),
            data_unit: String::from_str("bits"),
            logging: LoggingConfig::new(),
        }
    }
}

impl Default for AppConfig {
    /// The default configuration, as `new` builds it.
    fn default() -> (r: AppConfig)
        ensures
            !r.startup,
            r.refresh_interval_ms == 1000,
            r.theme@ == "system"@,
            r.data_unit@ == "bits"@,
            r.logging.level == LogLevel::INFO,
            r.logging.file_path is None,
    {
        AppConfig::new()
    }
}

/// Where the logs live: the folder, and the file when one is configured.
#[derive(Clone, Debug)]
pub struct LogsPath {
    pub folder: String,
    pub file: Option<String>,
}

} // verus!
