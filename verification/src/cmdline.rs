//! Command values as the rest of the library sees them: what a user asked the
//! client to do, where the server should look for music, and how verbose the
//! logs should be. Reading these out of the actual command line is the shell's
//! job, outside this crate.

use vstd::prelude::*;

verus! {

/// What music a command acts on.
#[derive(Clone, Debug, PartialEq)]
pub enum Music {
    Song { songs: Vec<String> },
    Playlist { playlist: String },
    AllSongs,
}

/// The `play` command and its options.
#[derive(Clone, Debug, PartialEq)]
pub struct Play {
    pub shuffled: bool,
    pub repeat: bool,
    pub command: Option<Music>,
}

/// The `queue` command and its options.
#[derive(Clone, Debug, PartialEq)]
pub struct Queue {
    pub shuffled: bool,
    pub command: Music,
}

/// Every command a client can be asked to run.
#[derive(Clone, Debug, PartialEq)]
pub enum ClientCommand {
    Play(Play),
    Queue(Queue),
    Pause,
    Status,
    Shutdown,
}

/// Client-role invocation: one command to send.
#[derive(Clone, Debug, PartialEq)]
pub struct Client {
    pub command: ClientCommand,
}

/// Server-role invocation: the music library path.
#[derive(Clone, Debug, PartialEq)]
pub struct Server {
    pub path: String,
}

/// Which role the process runs in.
#[derive(Clone, Debug, PartialEq)]
pub enum Command {
    Client(Client),
    Server(Server),
}

/// Log verbosity as named on the command line.
#[derive(Clone, Copy, Debug, PartialEq, Eq, Structural)]
pub enum LogLevel {
    Debug,
    Info,
    Warning,
    Error,
    Critical,
}

/// Filtering levels of the logging collaborator, as plain values.
#[derive(Clone, Copy, Debug, PartialEq, Eq, Structural)]
pub enum LogFilter {
    Debug,
    Info,
    Warn,
    Error,
}

/// The level a name on the command line stands for, if any.
pub open spec fn level_of_name(s: Seq<char>) -> Option<LogLevel> {
    if s == "debug"@ {
        Some(LogLevel::Debug)
    } else if s == "info"@ {
        Some(LogLevel::Info)
    } else if s == "warning"@ {
        Some(LogLevel::Warning)
    } else if s == "error"@ {
        Some(LogLevel::Error)
    } else if s == "critical"@ {
        Some(LogLevel::Critical)
    } else {
        None
    }
}

/// The name each level goes by on the command line.
pub open spec fn level_name(l: LogLevel) -> Seq<char> {
    match l {
        LogLevel::Debug => "debug"@,
        LogLevel::Info => "info"@,
        LogLevel::Warning => "warning"@,
        LogLevel::Error => "error"@,
        LogLevel::Critical => "critical"@,
    }
}

/// The filtering level each verbosity maps to. There is no `Critical` filter,
/// so `Critical` filters like `Error`.
pub open spec fn filter_of_level(l: LogLevel) -> LogFilter {
    match l {
        LogLevel::Debug => LogFilter::Debug,
        LogLevel::Info => LogFilter::Info,
        LogLevel::Warning => LogFilter::Warn,
        LogLevel::Error => LogFilter::Error,
        LogLevel::Critical => LogFilter::Error,
    }
}

impl LogLevel {
    /// Parse a level name; rejects anything but the five valid names.
    pub fn from_str(s: &str) -> (r: Result<LogLevel, &'static str>)
        ensures
            match r {
                Ok(l) => level_of_name(s@) == Some(l),
                Err(msg) => level_of_name(s@) is None && msg@
                    == "valid values: debug, info, warning, error, critical"@,
            },
    {
        let owned = s.to_owned();
        if owned == "debug".to_owned() {
            Ok(LogLevel::Debug)
        } else if owned == "info".to_owned() {
            Ok(LogLevel::Info)
        } else if owned == "warning".to_owned() {
            Ok(LogLevel::Warning)
        } else if owned == "error".to_owned() {
            Ok(LogLevel::Error)
        } else if owned == "critical".to_owned() {
            Ok(LogLevel::Critical)
        } else {
            Err("valid values: debug, info, warning, error, critical")
        }
    }

    /// The name this level goes by.
    pub fn as_str(&self) -> (r: &'static str)
        ensures
            r@ == level_name(*self),
    {
        match self {
            LogLevel::Debug => "debug",
            LogLevel::Info => "info",
            LogLevel::Warning => "warning",
            LogLevel::Error => "error",
            LogLevel::Critical => "critical",
        }
    }

    /// The filtering level this verbosity maps to.
    pub fn to_filter(&self) -> (f: LogFilter)
        ensures
            f == filter_of_level(*self),
    {
        match self {
            LogLevel::Debug => LogFilter::Debug,
            LogLevel::Info => LogFilter::Info,
            LogLevel::Warning => LogFilter::Warn,
            LogLevel::Error => LogFilter::Error,
            LogLevel::Critical => LogFilter::Error,
        }
    }
}

/// Law: parsing is the inverse of naming. The name of every level parses back
/// to that level.
pub proof fn lemma_level_name_round_trip(l: LogLevel)
    ensures
        level_of_name(level_name(l)) == Some(l),
{
    reveal_strlit("debug");
    reveal_strlit("info");
    reveal_strlit("warning");
    reveal_strlit("error");
    reveal_strlit("critical");
    assert("debug"@.len() == 5);
    assert("info"@.len() == 4);
    assert("warning"@.len() == 7);
    assert("error"@.len() == 5);
    assert("critical"@.len() == 8);
    assert("debug"@[0] == 'd');
    assert("error"@[0] == 'e');
}

/// Top-level invocation: logging choices, the server address, and the role.
#[derive(Clone, Debug, PartialEq)]
pub struct Opt {
    pub logfile: Option<String>,
    pub quiet: bool,
    pub log_level: LogLevel,
    pub server_address: String,
    pub server_port: u16,
    pub command: Command,
}

} // verus!
