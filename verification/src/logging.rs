use vstd::prelude::*;

use crate::config::AppConfig;
use crate::text::{ends_with, has_verbatim_prefix, is_joined, path_join};

verus! {

/// The text of an optional string.
pub open spec fn opt_text(o: Option<String>) -> Option<Seq<char>> {
    match o {
        Some(s) => Some(s@),
        None => None,
    }
}

fn clone_opt(o: &Option<String>) -> (c: Option<String>)
    ensures
        opt_text(c) == opt_text(*o),
{
    match o {
        Some(s) => Some(s.clone()),
        None => None,
    }
}

/// Where commands and device responses are logged; either may be off.
#[derive(Clone)]
pub struct LogHandles {
    commands: Option<String>,
    responses: Option<String>,
}

/// The two log destinations as mathematical values.
pub struct LogTargets {
    pub commands: Option<Seq<char>>,
    pub responses: Option<Seq<char>>,
}

impl View for LogHandles {
    type V = LogTargets;

    closed spec fn view(&self) -> LogTargets {
        LogTargets { commands: opt_text(self.commands), responses: opt_text(self.responses) }
    }
}

/// Text to append to a log file.
pub struct LogRecord {
    pub path: String,
    pub text: String,
}

/// The record that logs `line` to the log at `target`, if that log is on:
/// the line followed by a line feed.
pub open spec fn spec_log_record(target: Option<Seq<char>>, line: Seq<char>, r: Option<LogRecord>) -> bool {
    match target {
        Some(p) => r matches Some(rec) && rec.path@ == p && rec.text@ == line.push('\n'),
        None => r is None,
    }
}

fn record_for(target: &Option<String>, line: &str) -> (r: Option<LogRecord>)
    ensures
        spec_log_record(opt_text(*target), line@, r),
{
    match target {
        Some(p) => {
            let mut text = line.to_owned();
            crate::text::push_char(&mut text, '\n');
            Some(LogRecord { path: p.clone(), text })
        },
        None => None,
    }
}

impl LogHandles {
    /// Logs to the given destinations.
    pub fn new(commands: Option<String>, responses: Option<String>) -> (l: Self)
        ensures
            l@.commands == opt_text(commands),
            l@.responses == opt_text(responses),
    {
        LogHandles { commands, responses }
    }

    /// The logs that the configuration asks for: `commands.log` and
    /// `responses.log` in the configured log directory, or, when none is
    /// configured, in `logs` under the configuration directory (the current
    /// directory `.` when that is unknown). Both logs are in the same
    /// directory.
    pub fn for_config(cfg: &AppConfig, config_dir: Option<&str>) -> (l: Self)
        ensures
            l@.commands is Some,
            l@.responses is Some,
            ends_with(l@.commands->0, "commands.log"@),
            ends_with(l@.responses->0, "responses.log"@),
            exists|dir: Seq<char>|
                {
                    &&& (match cfg.default_log_dir {
                        Some(d) => dir == d@,
                        None => {
                            let base = match config_dir {
                                Some(b) => b@,
                                None => "."@,
                            };
                            ends_with(dir, "logs"@) && (!has_verbatim_prefix(base) ==> is_joined(
                                dir,
                                base,
                                "logs"@,
                            ))
                        },
                    })
                    &&& !has_verbatim_prefix(dir) ==> is_joined(l@.commands->0, dir, "commands.log"@)
                    &&& !has_verbatim_prefix(dir) ==> is_joined(l@.responses->0, dir, "responses.log"@)
                },
    {
        let dir = match &cfg.default_log_dir {
            Some(d) => d.clone(),
            None => {
                let base = match config_dir {
                    Some(b) => b,
                    None => ".",
                };
                proof { reveal_strlit("logs"); }
                path_join(base, "logs")
            },
        };
        proof {
            reveal_strlit("commands.log");
            reveal_strlit("responses.log");
        }
        let commands = path_join(dir.as_str(), "commands.log");
        let responses = path_join(dir.as_str(), "responses.log");
        let l = LogHandles { commands: Some(commands), responses: Some(responses) };
        assert(l@.commands->0 == commands@);
        l
    }

    /// The record that logs a sent command, when the command log is on.
    pub fn log_command(&self, line: &str) -> (r: Option<LogRecord>)
        ensures
            spec_log_record(self@.commands, line@, r),
    {
        record_for(&self.commands, line)
    }

    /// The record that logs a device response, when the response log is on.
    pub fn log_response(&self, line: &str) -> (r: Option<LogRecord>)
        ensures
            spec_log_record(self@.responses, line@, r),
    {
        record_for(&self.responses, line)
    }
}

} // verus!
