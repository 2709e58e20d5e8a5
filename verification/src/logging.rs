//! Which logger a process sets up. Installing it is the caller's work.

use vstd::prelude::*;
use vstd::string::*;

verus! {

/// Where a logger writes, and in which form.
#[derive(Clone, Copy, Debug, PartialEq, Eq, Structural)]
pub enum LoggerKind {
    /// Readable text on standard output.
    Stdout,
    /// JSON lines in a file that rolls over daily.
    Json,
    /// JSON lines sent to Logstash over TCP.
    Logstash,
    /// Nothing is logged.
    Noop,
}

/// The logger to install and the level it filters at.
#[derive(Debug)]
pub struct LoggerSetup {
    pub kind: LoggerKind,
    pub level: String,
}

/// A logger that can say how it is to be set up.
pub trait Logger {
    /// The kind of this logger.
    spec fn kind_spec(&self) -> LoggerKind;

    /// The setup of this logger at `level`.
    fn init(&self, level: String) -> (r: LoggerSetup)
        ensures
            r.kind == self.kind_spec(),
            r.level == level,
    ;
}

/// Readable text on standard output.
pub struct StdoutLogger;

/// JSON lines in a daily file.
pub struct JsonLogger;

/// No logging.
pub struct NoopLogger;

/// JSON lines to Logstash.
pub struct LogstashLogger;

/// Chooses the logger by the name of the output.
pub struct LoggerFactory;

impl Logger for StdoutLogger {
    open spec fn kind_spec(&self) -> LoggerKind {
        LoggerKind::Stdout
    }

    fn init(&self, level: String) -> (r: LoggerSetup) {
        LoggerSetup { kind: LoggerKind::Stdout, level }
    }
}

impl Logger for JsonLogger {
    open spec fn kind_spec(&self) -> LoggerKind {
        LoggerKind::Json
    }

    fn init(&self, level: String) -> (r: LoggerSetup) {
        LoggerSetup { kind: LoggerKind::Json, level }
    }
}

impl Logger for NoopLogger {
    open spec fn kind_spec(&self) -> LoggerKind {
        LoggerKind::Noop
    }

    fn init(&self, level: String) -> (r: LoggerSetup) {
        LoggerSetup { kind: LoggerKind::Noop, level }
    }
}

impl Logger for LogstashLogger {
    open spec fn kind_spec(&self) -> LoggerKind {
        LoggerKind::Logstash
    }

    fn init(&self, level: String) -> (r: LoggerSetup) {
        LoggerSetup { kind: LoggerKind::Logstash, level }
    }
}

/// The logger that the output name `output` selects: `json`, `logstash`
/// and `none` name theirs, and every other name means standard output.
pub open spec fn kind_for(output: Seq<char>) -> LoggerKind {
    if output == "json"@ {
        LoggerKind::Json
    } else if output == "logstash"@ {
        LoggerKind::Logstash
    } else if output == "none"@ {
        LoggerKind::Noop
    } else {
        LoggerKind::Stdout
    }
}

impl LoggerFactory {
    /// The setup of the logger that `output` names, at `level`.
    pub fn init_from_env(level: String, output: String) -> (r: LoggerSetup)
        ensures
            r.kind == kind_for(output@),
            r.level == level,
    {
        if output == String::from_str("json") {
            JsonLogger.init(level)
        } else if output == String::from_str("logstash") {
            LogstashLogger.init(level)
        } else if output == String::from_str("none") {
            NoopLogger.init(level)
        } else {
            StdoutLogger.init(level)
        }
    }
}

} // verus!
