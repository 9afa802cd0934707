//! The text of a log line.
//!
//! A line names who speaks, how severe the message is and when it was
//! written, each between square brackets, and ends with the message:
//! `[Unity] [Info] [2025-10-08T07:42:37Z] I am very hungry`.

use vstd::prelude::*;
use vstd::string::StringExecFns;

use crate::clock::utc_timestamp;
use crate::clock::TIMESTAMP_FORMAT;

verus! {

/// The label of a line that no app claims.
pub const DEFAULT_LABEL: &'static str = "Unity";

/// The level at which a log message is.
#[derive(Debug, Clone, Copy, PartialEq, Eq, Structural)]
pub enum LogLevel {
    /// Informational message.
    Info,
    /// Warning message.
    Warning,
    /// Error message.
    Error,
}

impl LogLevel {
    /// The word that stands for the level in a line.
    pub open spec fn spec_name(self) -> Seq<char> {
        match self {
            LogLevel::Info => "Info"@,
            LogLevel::Warning => "Warning"@,
            LogLevel::Error => "Error"@,
        }
    }

    /// The word that stands for the level in a line.
    pub fn name(&self) -> (word: &'static str)
        ensures
            word@ == self.spec_name(),
    {
        match self {
            LogLevel::Info => "Info",
            LogLevel::Warning => "Warning",
            LogLevel::Error => "Error",
        }
    }
}

/// The label of a line: the app that speaks, or the server itself.
pub open spec fn label_text(app: Option<Seq<char>>) -> Seq<char> {
    match app {
        Some(name) => name,
        None => DEFAULT_LABEL@,
    }
}

/// The text of a line: label, level and timestamp in square brackets, each
/// followed by one space, then the message.
pub open spec fn line_text(
    message: Seq<char>,
    level: LogLevel,
    app: Option<Seq<char>>,
    timestamp: Seq<char>,
) -> Seq<char> {
    "["@ + label_text(app) + "] ["@ + level.spec_name() + "] ["@ + timestamp + "] "@ + message
}

/// What `app` names, as a sequence of characters.
pub open spec fn app_text(app: Option<&str>) -> Option<Seq<char>> {
    match app {
        Some(name) => Some(name@),
        None => None,
    }
}

/// Every line opens with its label between square brackets, and a space
/// follows the closing bracket.
pub proof fn lemma_line_opens_with_label(
    message: Seq<char>,
    level: LogLevel,
    app: Option<Seq<char>>,
    timestamp: Seq<char>,
)
    ensures
        line_text(message, level, app, timestamp).len() >= label_text(app).len() + 3,
        line_text(message, level, app, timestamp).subrange(
            0,
            (label_text(app).len() + 3) as int,
        ) == seq!['['] + label_text(app) + seq![']', ' '],
{
    reveal_strlit("[");
    reveal_strlit("] [");
    let label = label_text(app);
    let line = line_text(message, level, app, timestamp);
    assert(line.subrange(0, (label.len() + 3) as int) =~= seq!['['] + label + seq![']', ' ']);
}

/// Every line closes with its message, after a bracket and a space.
pub proof fn lemma_line_closes_with_message(
    message: Seq<char>,
    level: LogLevel,
    app: Option<Seq<char>>,
    timestamp: Seq<char>,
)
    ensures
        line_text(message, level, app, timestamp).len() >= message.len() + 2,
        line_text(message, level, app, timestamp).subrange(
            line_text(message, level, app, timestamp).len() - message.len() - 2,
            line_text(message, level, app, timestamp).len() as int,
        ) == seq![']', ' '] + message,
{
    reveal_strlit("] ");
    let line = line_text(message, level, app, timestamp);
    assert(line.subrange(line.len() - message.len() - 2, line.len() as int) =~= seq![']', ' ']
        + message);
}

/// Writes the line for `message` as it reads when written at `timestamp`.
pub fn format_line(
    message: &str,
    level: LogLevel,
    app: Option<&str>,
    timestamp: &str,
) -> (line: String)
    ensures
        line@ == line_text(message@, level, app_text(app), timestamp@),
{
    let label: &str = match app {
        Some(name) => name,
        None => DEFAULT_LABEL,
    };
    let mut line = String::from_str("[");
    line.append(label);
    line.append("] [");
    line.append(level.name());
    line.append("] [");
    line.append(timestamp);
    line.append("] ");
    line.append(message);
    line
}

/// Writes the line for `message` as it reads now: the timestamp is the
/// moment of the call, in UTC. The line is handed back for the caller to
/// print.
pub fn log_line(message: &str, level: LogLevel, app: Option<&str>) -> (line: String)
    ensures
        exists|timestamp: Seq<char>|
            line@ == #[trigger] line_text(message@, level, app_text(app), timestamp),
{
    let timestamp = utc_timestamp(TIMESTAMP_FORMAT);
    format_line(message, level, app, timestamp.as_str())
}

} // verus!
