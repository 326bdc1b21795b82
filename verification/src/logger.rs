use vstd::prelude::*;
use vstd::string::*;

verus! {

/// The severity of a log entry.
#[derive(Clone, Copy, Debug, PartialEq, Eq, Structural)]
pub enum Level {
    Info,
    Warn,
    Error,
}

/// The name a severity prints as.
pub open spec fn level_label(l: Level) -> Seq<char> {
    match l {
        Level::Info => "Info"@,
        Level::Warn => "Warn"@,
        Level::Error => "Error"@,
    }
}

impl Level {
    pub fn label(&self) -> (r: String)
        ensures
            r@ == level_label(*self),
    {
        match self {
            Level::Info => "Info".to_owned(),
            Level::Warn => "Warn".to_owned(),
            Level::Error => "Error".to_owned(),
        }
    }
}

/// One log entry: a preformatted wall-clock stamp, a severity, and the
/// message text.
#[derive(Clone, Debug)]
pub struct Log {
    pub time: String,
    pub level: Level,
    pub text: String,
}

/// The plain line a log entry prints as: `[<time>] (<severity>) <text>`.
pub open spec fn spec_log_line(l: Log) -> Seq<char> {
    "["@ + l.time@ + "] ("@ + level_label(l.level) + ") "@ + l.text@
}

impl Log {
    /// The plain line this entry prints as.
    pub fn line(&self) -> (r: String)
        ensures
            r@ == spec_log_line(*self),
    {
        let mut r = String::from_str("[");
        r.append(self.time.as_str());
        r.append("] (");
        let label = self.level.label();
        r.append(label.as_str());
        r.append(") ");
        r.append(self.text.as_str());
        r
    }
}

/// Relies on chrono's Utc::now and DateTime::format: a fresh wall-clock
/// stamp for a log line, which depends on the moment of the call.
#[verifier::external_body]
fn now_line_stamp() -> String {
    chrono::Utc::now().format("%x %X:%3f").to_string()
}

/// Relies on chrono's Utc::now and DateTime::format: a fresh wall-clock
/// stamp that names a log file, which depends on the moment of the call.
#[verifier::external_body]
fn now_file_stamp() -> String {
    chrono::Utc::now().format("%y%m%d%H%M%S%3f").to_string()
}

/// Builds timestamped log entries. `quiet` suppresses every entry; `store`
/// asks the caller to also append each printed line to the file named by
/// `file` under the log directory. The logger itself never touches the
/// filesystem or the terminal: it hands finished entries back.
#[derive(Clone, Debug)]
pub struct Logger {
    pub file: String,
    pub quiet: bool,
    pub store: bool,
}

impl Logger {
    /// A logger whose log file is named after the moment of its creation; the
    /// caller creates that file when `store` is set.
    pub fn new(quiet: bool, store: bool) -> (r: Self)
        ensures
            r.quiet == quiet && r.store == store,
            r.file@.len() >= 4 && r.file@.subrange(r.file@.len() - 4, r.file@.len() as int)
                == ".txt"@,
    {
        let mut file = now_file_stamp();
        file.append(".txt");
        proof {
            reveal_strlit(".txt");
            assert(file@.subrange(file@.len() - 4, file@.len() as int) =~= ".txt"@);
        }
        Logger { file, quiet, store }
    }

    /// The path of the backing log file, inside the log directory.
    pub fn path(&self) -> (r: String)
        ensures
            r@ == "logs/"@ + self.file@,
    {
        let mut r = String::from_str("logs/");
        r.append(self.file.as_str());
        r
    }

    fn log_at(&self, level: Level, content: String) -> (r: Option<Log>)
        ensures
            (r is Some) <==> !self.quiet,
            r matches Some(l) ==> l.level == level && l.text == content,
    {
        if self.quiet {
            None
        } else {
            Some(Log { time: now_line_stamp(), level, text: content })
        }
    }

    /// An informational entry, unless the logger is quiet.
    pub fn info(&self, content: String) -> (r: Option<Log>)
        ensures
            (r is Some) <==> !self.quiet,
            r matches Some(l) ==> l.level == Level::Info && l.text == content,
    {
        self.log_at(Level::Info, content)
    }

    /// A warning entry, unless the logger is quiet.
    pub fn warn(&self, content: String) -> (r: Option<Log>)
        ensures
            (r is Some) <==> !self.quiet,
            r matches Some(l) ==> l.level == Level::Warn && l.text == content,
    {
        self.log_at(Level::Warn, content)
    }

    /// An error entry, unless the logger is quiet.
    pub fn error(&self, content: String) -> (r: Option<Log>)
        ensures
            (r is Some) <==> !self.quiet,
            r matches Some(l) ==> l.level == Level::Error && l.text == content,
    {
        self.log_at(Level::Error, content)
    }
}

} // verus!
