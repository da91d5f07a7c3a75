//! Settings of the event log, and what they ask to be set up.

use vstd::prelude::*;

verus! {

#[verifier::external_type_specification]
#[verifier::external_body]
pub struct ExPathBuf(std::path::PathBuf);

/// Settings of the event log.
pub struct LoggingConfig {
    pub level: String,
    pub file_enabled: bool,
    pub console_enabled: bool,
    pub json_format: bool,
    pub log_dir: std::path::PathBuf,
}

/// A place that events are written to, and in which form.
#[derive(Debug, Clone, Copy, PartialEq, Eq)]
pub enum LogSink {
    /// The console, one JSON object per event.
    ConsoleJson,
    /// The console, laid out for reading.
    ConsolePretty,
    /// A file in the log directory that rolls over daily, one JSON object
    /// per event.
    FileJson,
}

/// The kinds of host whose log directory differs.
#[derive(Debug, Clone, Copy, PartialEq, Eq)]
pub enum Platform {
    Windows,
    MacOs,
    Linux,
    Other,
}

/// The sinks that settings ask for: the console first, in the form that
/// `json_format` picks, then the file.
pub open spec fn sinks_of(console_enabled: bool, json_format: bool, file_enabled: bool) -> Seq<
    LogSink,
> {
    let console = if !console_enabled {
        Seq::empty()
    } else if json_format {
        seq![LogSink::ConsoleJson]
    } else {
        seq![LogSink::ConsolePretty]
    };
    if file_enabled {
        console.push(LogSink::FileJson)
    } else {
        console
    }
}

/// The directories that lead from the platform's base directory to the log
/// directory: the user's data directory on Windows, the home directory on
/// macOS, the local data directory on Linux; elsewhere the working
/// directory.
pub open spec fn log_dir_below_base(platform: Platform) -> Seq<Seq<char>> {
    match platform {
        Platform::Windows => seq!["print-my-bridge"@, "logs"@],
        Platform::MacOs => seq!["Library"@, "Logs"@, "print-my-bridge"@],
        Platform::Linux => seq!["print-my-bridge"@, "logs"@],
        Platform::Other => seq!["logs"@],
    }
}

impl LoggingConfig {
    /// The settings of a first run, logging into `log_dir`: level `info`,
    /// to the console and to a file, the console laid out for reading.
    pub fn with_log_dir(log_dir: std::path::PathBuf) -> (config: LoggingConfig)
        ensures
            config.level@ == "info"@,
            config.file_enabled,
            config.console_enabled,
            !config.json_format,
            config.log_dir == log_dir,
    {
        LoggingConfig {
            level: String::from_str("info"),
            file_enabled: true,
            console_enabled: true,
            json_format: false,
            log_dir,
        }
    }

    /// Whether the log directory has to exist before logging starts.
    pub fn needs_log_dir(&self) -> (needed: bool)
        ensures
            needed == self.file_enabled,
    {
        self.file_enabled
    }

    /// The sinks to set up, in order.
    pub fn sinks(&self) -> (sinks: Vec<LogSink>)
        ensures
            sinks@ == sinks_of(self.console_enabled, self.json_format, self.file_enabled),
    {
        let mut sinks: Vec<LogSink> = Vec::new();
        if self.console_enabled {
            if self.json_format {
                sinks.push(LogSink::ConsoleJson);
            } else {
                sinks.push(LogSink::ConsolePretty);
            }
        }
        if self.file_enabled {
            sinks.push(LogSink::FileJson);
        }
        assert(sinks@ =~= sinks_of(self.console_enabled, self.json_format, self.file_enabled));
        sinks
    }
}

/// The directories to append to the platform's base directory to reach the
/// default log directory.
pub fn default_log_dir_parts(platform: Platform) -> (parts: Vec<String>)
    ensures
        parts.deep_view() == log_dir_below_base(platform),
{
    let mut parts: Vec<String> = Vec::new();
    match platform {
        Platform::Windows => {
            parts.push(String::from_str("print-my-bridge"));
            parts.push(String::from_str("logs"));
        },
        Platform::MacOs => {
            parts.push(String::from_str("Library"));
            parts.push(String::from_str("Logs"));
            parts.push(String::from_str("print-my-bridge"));
        },
        Platform::Linux => {
            parts.push(String::from_str("print-my-bridge"));
            parts.push(String::from_str("logs"));
        },
        Platform::Other => {
            parts.push(String::from_str("logs"));
        },
    }
    assert(parts.deep_view() =~= log_dir_below_base(platform));
    parts
}

} // verus!
