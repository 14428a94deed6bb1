//! What the log lines of the tool look like and how its logger is set up. The
//! logger itself and the progress lines belong to the driver.

use crate::text::opt_text;
use vstd::prelude::*;
use vstd::string::*;

verus! {

/// The program that logs. It decides the mark and the tag of each line and
/// the name of the log file.
#[derive(Debug, Clone, Copy, PartialEq, Eq, Structural)]
pub enum LoggerType {
    Deploy,
    Activate,
    Wait,
    Revoke,
}

/// The severity of a log record, from the gravest to the most verbose.
#[derive(Debug, Clone, Copy, PartialEq, Eq, Structural)]
pub enum Level {
    Error,
    Warn,
    Info,
    Debug,
    Trace,
}

/// The colours of the five levels, from errors to traces.
pub const PALETTE: &'static str = "196;208;51;7;8";

impl Level {
    /// The mark of the level in front of a line.
    pub open spec fn emoji_of(self) -> Seq<char> {
        match self {
            Level::Error => "\u{274c}"@,
            Level::Warn => "\u{26a0}\u{fe0f}"@,
            Level::Info => "\u{2139}\u{fe0f}"@,
            Level::Debug => "\u{2753}"@,
            Level::Trace => "\u{1f58a}\u{fe0f}"@,
        }
    }

    /// The mark of the level in front of a line.
    pub fn emoji(&self) -> (r: &'static str)
        ensures
            r@ == self.emoji_of(),
    {
        match self {
            Level::Error => "\u{274c}",
            Level::Warn => "\u{26a0}\u{fe0f}",
            Level::Info => "\u{2139}\u{fe0f}",
            Level::Debug => "\u{2753}",
            Level::Trace => "\u{1f58a}\u{fe0f}",
        }
    }
}

impl LoggerType {
    /// The mark of the program in front of a line.
    pub open spec fn emoji_of(self) -> Seq<char> {
        match self {
            LoggerType::Deploy => "\u{1f680}"@,
            LoggerType::Activate => "\u{2b50}"@,
            LoggerType::Wait => "\u{1f440}"@,
            LoggerType::Revoke => "\u{21a9}\u{fe0f}"@,
        }
    }

    /// The name of the program in a line.
    pub open spec fn tag_of(self) -> Seq<char> {
        match self {
            LoggerType::Deploy => "deploy"@,
            LoggerType::Activate => "activate"@,
            LoggerType::Wait => "wait"@,
            LoggerType::Revoke => "revoke"@,
        }
    }

    /// What tells the program's log file from the others in the same
    /// directory; nothing for the deployment itself.
    pub open spec fn discriminant_of(self) -> Option<Seq<char>> {
        match self {
            LoggerType::Deploy => None,
            LoggerType::Activate => Some("activate"@),
            LoggerType::Wait => Some("wait"@),
            LoggerType::Revoke => Some("revoke"@),
        }
    }

    /// The mark of the program in front of a line.
    pub fn emoji(&self) -> (r: &'static str)
        ensures
            r@ == self.emoji_of(),
    {
        match self {
            LoggerType::Deploy => "\u{1f680}",
            LoggerType::Activate => "\u{2b50}",
            LoggerType::Wait => "\u{1f440}",
            LoggerType::Revoke => "\u{21a9}\u{fe0f}",
        }
    }

    /// The name of the program in a line.
    pub fn tag(&self) -> (r: &'static str)
        ensures
            r@ == self.tag_of(),
    {
        match self {
            LoggerType::Deploy => "deploy",
            LoggerType::Activate => "activate",
            LoggerType::Wait => "wait",
            LoggerType::Revoke => "revoke",
        }
    }

    /// What tells the program's log file from the others.
    pub fn discriminant(&self) -> (r: Option<String>)
        ensures
            opt_text(r) == self.discriminant_of(),
    {
        match self {
            LoggerType::Deploy => None,
            LoggerType::Activate => Some(String::from_str("activate")),
            LoggerType::Wait => Some(String::from_str("wait")),
            LoggerType::Revoke => Some(String::from_str("revoke")),
        }
    }
}

/// What stands in front of a line: the mark of the program and the mark of
/// the level, each followed by a space, or nothing where marks are off.
pub open spec fn prefix_of(emoji_enabled: bool, logger_emoji: Seq<char>, level: Level) -> Seq<
    char,
> {
    if emoji_enabled {
        logger_emoji + " "@ + level.emoji_of() + " "@
    } else {
        Seq::empty()
    }
}

/// A log line: the prefix, the program's tag and the level as the driver
/// painted it, each in square brackets, and the message.
pub open spec fn line_of(
    logger_type: LoggerType,
    emoji_enabled: bool,
    level: Level,
    painted_level: Seq<char>,
    message: Seq<char>,
) -> Seq<char> {
    prefix_of(emoji_enabled, logger_type.emoji_of(), level) + "["@ + logger_type.tag_of() + "] ["@
        + painted_level + "] "@ + message
}

/// What stands in front of a line of the given level.
pub fn make_prefix(emoji_enabled: bool, logger_emoji: &str, level: Level) -> (r: String)
    ensures
        r@ == prefix_of(emoji_enabled, logger_emoji@, level),
{
    if emoji_enabled {
        let mut prefix = String::from_str(logger_emoji);
        prefix.append(" ");
        prefix.append(level.emoji());
        prefix.append(" ");
        prefix
    } else {
        String::new()
    }
}

/// The line for one record, with the level's name as the driver painted it.
pub fn format_line(
    logger_type: LoggerType,
    emoji_enabled: bool,
    level: Level,
    painted_level: &str,
    message: &str,
) -> (r: String)
    ensures
        r@ == line_of(logger_type, emoji_enabled, level, painted_level@, message@),
{
    let mut line = make_prefix(emoji_enabled, logger_type.emoji(), level);
    line.append("[");
    line.append(logger_type.tag());
    line.append("] [");
    line.append(painted_level);
    line.append("] ");
    line.append(message);
    line
}

/// The most verbose level that a logger takes, given for each level whether
/// it takes it; none where it takes no level at all.
pub open spec fn max_level_of(error: bool, warn: bool, info: bool, debug: bool, trace: bool)
    -> Option<Level> {
    if trace {
        Some(Level::Trace)
    } else if debug {
        Some(Level::Debug)
    } else if info {
        Some(Level::Info)
    } else if warn {
        Some(Level::Warn)
    } else if error {
        Some(Level::Error)
    } else {
        None
    }
}

/// The level up to which records have to reach a logger: the most verbose
/// one that it takes.
pub fn max_level(error: bool, warn: bool, info: bool, debug: bool, trace: bool) -> (r: Option<
    Level,
>)
    ensures
        r == max_level_of(error, warn, info, debug, trace),
{
    if trace {
        Some(Level::Trace)
    } else if debug {
        Some(Level::Debug)
    } else if info {
        Some(Level::Info)
    } else if warn {
        Some(Level::Warn)
    } else if error {
        Some(Level::Error)
    } else {
        None
    }
}

/// The file that a logger writes to.
#[derive(Debug, Clone, PartialEq, Eq)]
pub struct LogFile {
    pub directory: String,
    /// What tells the file from others in the directory.
    pub discriminant: Option<String>,
}

/// How the logger of a program is set up.
#[derive(Debug, Clone, PartialEq, Eq)]
pub struct LoggerSetup {
    /// Whether lines begin with marks.
    pub emoji_enabled: bool,
    /// The level that is logged where the environment names none.
    pub level: Level,
    /// The file to log to; standard error where there is none.
    pub file: Option<LogFile>,
    /// With a file, the level up to which records go to standard error too.
    pub duplicate: Option<Level>,
    /// Whether the logger says where its file is.
    pub print_message: bool,
    /// The colours of the levels.
    pub palette: String,
}

/// The mathematical value of a [`LoggerSetup`].
pub struct LoggerSetupView {
    pub emoji_enabled: bool,
    pub level: Level,
    pub file: Option<(Seq<char>, Option<Seq<char>>)>,
    pub duplicate: Option<Level>,
    pub print_message: bool,
    pub palette: Seq<char>,
}

impl View for LoggerSetup {
    type V = LoggerSetupView;

    open spec fn view(&self) -> LoggerSetupView {
        LoggerSetupView {
            emoji_enabled: self.emoji_enabled,
            level: self.level,
            file: match self.file {
                Some(file) => Some((file.directory@, opt_text(file.discriminant))),
                None => None,
            },
            duplicate: self.duplicate,
            print_message: self.print_message,
            palette: self.palette@,
        }
    }
}

/// The setup of a program's logger. With a log directory everything from
/// debug on goes to the program's file there, and standard error gets what is
/// at least informative, or debug too on request. Without one, standard error
/// gets what is informative, or debug on request.
pub open spec fn setup_of(
    debug_logs: bool,
    log_dir: Option<Seq<char>>,
    logger_type: LoggerType,
    no_emoji: bool,
) -> LoggerSetupView {
    let chosen = if debug_logs {
        Level::Debug
    } else {
        Level::Info
    };
    match log_dir {
        Some(directory) => LoggerSetupView {
            emoji_enabled: !no_emoji,
            level: Level::Debug,
            file: Some((directory, logger_type.discriminant_of())),
            duplicate: Some(chosen),
            print_message: true,
            palette: PALETTE@,
        },
        None => LoggerSetupView {
            emoji_enabled: !no_emoji,
            level: chosen,
            file: None,
            duplicate: None,
            print_message: false,
            palette: PALETTE@,
        },
    }
}

/// Decides how the logger of a program is set up.
pub fn init_logger(
    debug_logs: bool,
    log_dir: Option<&str>,
    logger_type: &LoggerType,
    no_emoji: bool,
) -> (r: LoggerSetup)
    ensures
        r@ == setup_of(
            debug_logs,
            match log_dir {
                Some(directory) => Some(directory@),
                None => None,
            },
            *logger_type,
            no_emoji,
        ),
{
    let chosen = if debug_logs {
        Level::Debug
    } else {
        Level::Info
    };
    match log_dir {
        Some(directory) => LoggerSetup {
            emoji_enabled: !no_emoji,
            level: Level::Debug,
            file: Some(
                LogFile {
                    directory: String::from_str(directory),
                    discriminant: logger_type.discriminant(),
                },
            ),
            duplicate: Some(chosen),
            print_message: true,
            palette: String::from_str(PALETTE),
        },
        None => LoggerSetup {
            emoji_enabled: !no_emoji,
            level: chosen,
            file: None,
            duplicate: None,
            print_message: false,
            palette: String::from_str(PALETTE),
        },
    }
}

} // verus!
