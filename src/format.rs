//! Log records and the default text rendering of a record.
use vstd::prelude::*;
use crate::level::LogLevel;
use crate::timestamp::Timestamp;

verus! {

/// One log event: when it was captured, where it came from, how severe it is and what it says.
#[derive(Debug, Clone)]
pub struct LogRecord {
    pub timestamp: Timestamp,
    pub origin: String,
    pub level: LogLevel,
    pub message: String,
}

/// The upper-case name of a level as it appears in a rendered line.
pub open spec fn level_name(l: LogLevel) -> Seq<char> {
    match l {
        LogLevel::Trace => seq!['T', 'R', 'A', 'C', 'E'],
        LogLevel::Debug => seq!['D', 'E', 'B', 'U', 'G'],
        LogLevel::Info => seq!['I', 'N', 'F', 'O'],
        LogLevel::Warn => seq!['W', 'A', 'R', 'N'],
        LogLevel::Error => seq!['E', 'R', 'R', 'O', 'R'],
    }
}

/// The layout `[YYYY-MM-DD][HH:MM:SS][origin][level_text] message`.
pub open spec fn line_with_level(r: LogRecord, level_text: Seq<char>) -> Seq<char> {
    seq!['['] + r.timestamp.date_text() + seq![']', '['] + r.timestamp.time_text() + seq![
        ']',
        '[',
    ] + r.origin@ + seq![']', '['] + level_text + seq![']', ' '] + r.message@
}

/// The default rendering: the layout above with the level's upper-case name.
pub open spec fn default_line(r: LogRecord) -> Seq<char> {
    line_with_level(r, level_name(r.level))
}

impl LogLevel {
    /// The upper-case name of this level, as `log::Level` displays it.
    pub fn name(self) -> (r: &'static str)
        ensures
            r@ == level_name(self),
    {
        proof {
            reveal_strlit("TRACE");
            reveal_strlit("DEBUG");
            reveal_strlit("INFO");
            reveal_strlit("WARN");
            reveal_strlit("ERROR");
        }
        match self {
            LogLevel::Trace => "TRACE",
            LogLevel::Debug => "DEBUG",
            LogLevel::Info => "INFO",
            LogLevel::Warn => "WARN",
            LogLevel::Error => "ERROR",
        }
    }
}

impl LogRecord {
    /// The record's timestamp is a valid civil time.
    pub open spec fn wf(&self) -> bool {
        self.timestamp.wf()
    }

    /// Renders the record in the default layout, with `level_text` in the level's
    /// place (the plain name, or one decorated for a terminal).
    pub fn format_with_level(&self, level_text: &str) -> (r: String)
        requires
            self.wf(),
        ensures
            r@ == line_with_level(*self, level_text@),
    {
        proof {
            reveal_strlit("[");
            reveal_strlit("][");
            reveal_strlit("] ");
        }
        let mut s = String::new();
        s.append("[");
        self.timestamp.push_date(&mut s);
        s.append("][");
        self.timestamp.push_time(&mut s);
        s.append("][");
        s.append(self.origin.as_str());
        s.append("][");
        s.append(level_text);
        s.append("] ");
        s.append(self.message.as_str());
        s
    }

    /// Renders the record with the default layout.
    pub fn format_default(&self) -> (r: String)
        requires
            self.wf(),
        ensures
            r@ == default_line(*self),
    {
        self.format_with_level(self.level.name())
    }
}

} // verus!
