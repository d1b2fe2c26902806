use vstd::prelude::*;
use vstd::string::StringExecFns;

verus! {

/// Severity of a log line, from chattiest to gravest.
#[derive(Debug, Clone, Copy, PartialEq, Eq, PartialOrd, Ord)]
pub enum LogLevel {
    Debug,
    Info,
    Warn,
    Error,
}

/// Numeric rank of a severity.
pub open spec fn level_rank(l: LogLevel) -> int {
    match l {
        LogLevel::Debug => 0,
        LogLevel::Info => 1,
        LogLevel::Warn => 2,
        LogLevel::Error => 3,
    }
}

/// The label a severity prints as.
pub open spec fn level_label_view(l: LogLevel) -> Seq<char> {
    match l {
        LogLevel::Debug => "DEBUG"@,
        LogLevel::Info => "INFO"@,
        LogLevel::Warn => "WARN"@,
        LogLevel::Error => "ERROR"@,
    }
}

/// Decides which lines are written and how they read. The writing
/// itself (console, optional file) sits at the I/O edge; it hands each
/// line through `format_line` and asks `should_log` first.
pub struct McpLogger {
    pub level: LogLevel,
    pub log_file: Option<String>,
}

impl McpLogger {
    /// A logger at the given threshold, writing to the console alone.
    pub fn new(level: LogLevel) -> (l: Self)
        ensures
            l.level == level,
            l.log_file is None,
    {
        McpLogger { level, log_file: None }
    }

    /// The same logger, also appending to the given file.
    pub fn with_file(self, path: String) -> (l: Self)
        ensures
            l.level == self.level,
            l.log_file == Some(path),
    {
        McpLogger { level: self.level, log_file: Some(path) }
    }

    /// Whether a line at `level` passes this logger's threshold.
    pub fn should_log(&self, level: LogLevel) -> (r: bool)
        ensures
            r == (level_rank(level) >= level_rank(self.level)),
    {
        Self::rank_of(level) >= Self::rank_of(self.level)
    }

    /// Numeric rank of a severity.
    pub fn rank_of(level: LogLevel) -> (n: u8)
        ensures
            n as int == level_rank(level),
    {
        match level {
            LogLevel::Debug => 0,
            LogLevel::Info => 1,
            LogLevel::Warn => 2,
            LogLevel::Error => 3,
        }
    }

    /// The label a severity prints as.
    pub fn level_label(level: LogLevel) -> (r: String)
        ensures
            r@ == level_label_view(level),
    {
        match level {
            LogLevel::Debug => "DEBUG".to_owned(),
            LogLevel::Info => "INFO".to_owned(),
            LogLevel::Warn => "WARN".to_owned(),
            LogLevel::Error => "ERROR".to_owned(),
        }
    }

    /// One formatted line: the timestamp, the severity label, and the
    /// message, each bracketed as the log reads.
    pub fn format_line(timestamp: &str, level: LogLevel, message: &str) -> (r: String)
        ensures
            r@ == "["@ + timestamp@ + "] ["@ + level_label_view(level) + "] "@ + message@,
    {
        let mut s: String = "[".to_owned();
        s.append(timestamp);
        s.append("] [");
        let label = Self::level_label(level);
        s.append(label.as_str());
        s.append("] ");
        s.append(message);
        s
    }
}

} // verus!
