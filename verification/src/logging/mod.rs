//! Configuration of the log output.
//!
//! Only the configuration lives here: what is logged where is decided by
//! these values, and the program that embeds the broker sets its logging
//! up from them.

use vstd::prelude::*;

verus! {

/// How the broker logs.
#[derive(Debug, Clone)]
pub struct LogConfig {
    /// Log level (trace, debug, info, warn, error).
    pub level: String,
    /// Whether to log to the console.
    pub console: bool,
    /// Whether to log to a file.
    pub file: bool,
    /// Directory for log files.
    pub log_dir: String,
    /// Prefix of the log files' names.
    pub file_prefix: String,
    /// Whether to write JSON.
    pub json_format: bool,
    /// Whether to include timestamps.
    pub with_timestamp: bool,
    /// Whether to include thread ids.
    pub with_thread_ids: bool,
    /// Whether to include span information.
    pub with_spans: bool,
}

/// A configuration with its strings as sequences of characters.
pub struct LogConfigView {
    pub level: Seq<char>,
    pub console: bool,
    pub file: bool,
    pub log_dir: Seq<char>,
    pub file_prefix: Seq<char>,
    pub json_format: bool,
    pub with_timestamp: bool,
    pub with_thread_ids: bool,
    pub with_spans: bool,
}

impl View for LogConfig {
    type V = LogConfigView;

    open spec fn view(&self) -> LogConfigView {
        LogConfigView {
            level: self.level@,
            console: self.console,
            file: self.file,
            log_dir: self.log_dir@,
            file_prefix: self.file_prefix@,
            json_format: self.json_format,
            with_timestamp: self.with_timestamp,
            with_thread_ids: self.with_thread_ids,
            with_spans: self.with_spans,
        }
    }
}

/// The configuration that is used where nothing else is asked for: level
/// `info`, console and daily files under `./logs`, plain text.
pub open spec fn default_config() -> LogConfigView {
    LogConfigView {
        level: "info"@,
        console: true,
        file: true,
        log_dir: "./logs"@,
        file_prefix: "kafka-broker"@,
        json_format: false,
        with_timestamp: true,
        with_thread_ids: true,
        with_spans: true,
    }
}

/// The text that a setting holds, or `fallback` where it is not set.
pub open spec fn text_or(value: Option<String>, fallback: Seq<char>) -> Seq<char> {
    match value {
        Some(s) => s@,
        None => fallback,
    }
}

/// The switch that a setting holds: `true` and `false` say so, anything
/// else and an unset value leave the switch at `fallback`.
pub open spec fn flag_or(value: Option<String>, fallback: bool) -> bool {
    match value {
        Some(s) => if s@ == "true"@ {
            true
        } else if s@ == "false"@ {
            false
        } else {
            fallback
        },
        None => fallback,
    }
}

impl Default for LogConfig {
    fn default() -> (config: Self)
        ensures
            config@ == default_config(),
    {
        Self {
            level: String::from("info"),
            console: true,
            file: true,
            log_dir: String::from("./logs"),
            file_prefix: String::from("kafka-broker"),
            json_format: false,
            with_timestamp: true,
            with_thread_ids: true,
            with_spans: true,
        }
    }
}

impl LogConfig {
    /// The configuration that a set of settings asks for. Each argument is
    /// the value of one setting, `None` where it is not set; what is not
    /// set, or is no switch where a switch is wanted, stays at its default.
    pub fn from_settings(
        level: Option<String>,
        console: Option<String>,
        file: Option<String>,
        log_dir: Option<String>,
        file_prefix: Option<String>,
        json_format: Option<String>,
    ) -> (config: Self)
        ensures
            config@ == (LogConfigView {
                level: text_or(level, default_config().level),
                console: flag_or(console, true),
                file: flag_or(file, true),
                log_dir: text_or(log_dir, default_config().log_dir),
                file_prefix: text_or(file_prefix, default_config().file_prefix),
                json_format: flag_or(json_format, false),
                with_timestamp: true,
                with_thread_ids: true,
                with_spans: true,
            }),
    {
        Self {
            level: Self::text_setting(level, "info"),
            console: Self::flag_setting(&console, true),
            file: Self::flag_setting(&file, true),
            log_dir: Self::text_setting(log_dir, "./logs"),
            file_prefix: Self::text_setting(file_prefix, "kafka-broker"),
            json_format: Self::flag_setting(&json_format, false),
            with_timestamp: true,
            with_thread_ids: true,
            with_spans: true,
        }
    }

    /// The text of a setting, or `fallback` where it is not set.
    fn text_setting(value: Option<String>, fallback: &str) -> (text: String)
        ensures
            text@ == text_or(value, fallback@),
    {
        match value {
            Some(s) => s,
            None => String::from(fallback),
        }
    }

    /// The switch of a setting, or `fallback` where it is not set or holds
    /// neither `true` nor `false`.
    fn flag_setting(value: &Option<String>, fallback: bool) -> (flag: bool)
        ensures
            flag == flag_or(*value, fallback),
    {
        match value {
            Some(s) => {
                if *s == String::from("true") {
                    true
                } else if *s == String::from("false") {
                    false
                } else {
                    fallback
                }
            },
            None => fallback,
        }
    }
}

} // verus!
