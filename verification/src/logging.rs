//! Rendering of log records.
//!
//! The logger is a value that is built with its level and handed to whoever
//! logs. It decides which records pass and how a record reads; writing the
//! line out is left to the embedder.

use vstd::prelude::*;

verus! {

/// The level of a record, most severe first.
#[derive(Clone, Copy, Debug, PartialEq, Eq, Structural)]
pub enum Level {
    Error,
    Warn,
    Info,
    Debug,
    Trace,
}

/// The most verbose level that a logger lets pass.
#[derive(Clone, Copy, Debug, PartialEq, Eq, Structural)]
pub enum LevelFilter {
    Off,
    Error,
    Warn,
    Info,
    Debug,
    Trace,
}

impl Level {
    /// The rank of the level: 1 for `Error` up to 5 for `Trace`.
    pub open spec fn rank(self) -> nat {
        match self {
            Level::Error => 1,
            Level::Warn => 2,
            Level::Info => 3,
            Level::Debug => 4,
            Level::Trace => 5,
        }
    }

    /// The name of the level in capitals.
    pub open spec fn label(self) -> Seq<char> {
        match self {
            Level::Error => "ERROR"@,
            Level::Warn => "WARN"@,
            Level::Info => "INFO"@,
            Level::Debug => "DEBUG"@,
            Level::Trace => "TRACE"@,
        }
    }

    /// The rank of the level.
    pub fn index(self) -> (r: u8)
        ensures
            r == self.rank(),
    {
        match self {
            Level::Error => 1,
            Level::Warn => 2,
            Level::Info => 3,
            Level::Debug => 4,
            Level::Trace => 5,
        }
    }

    /// The name of the level in capitals.
    pub fn name(self) -> (s: String)
        ensures
            s@ == self.label(),
    {
        match self {
            Level::Error => "ERROR".to_string(),
            Level::Warn => "WARN".to_string(),
            Level::Info => "INFO".to_string(),
            Level::Debug => "DEBUG".to_string(),
            Level::Trace => "TRACE".to_string(),
        }
    }
}

impl LevelFilter {
    /// The rank of the filter: 0 for `Off`, then the rank of the level of
    /// the same name.
    pub open spec fn rank(self) -> nat {
        match self {
            LevelFilter::Off => 0,
            LevelFilter::Error => 1,
            LevelFilter::Warn => 2,
            LevelFilter::Info => 3,
            LevelFilter::Debug => 4,
            LevelFilter::Trace => 5,
        }
    }

    /// The rank of the filter.
    pub fn index(self) -> (r: u8)
        ensures
            r == self.rank(),
    {
        match self {
            LevelFilter::Off => 0,
            LevelFilter::Error => 1,
            LevelFilter::Warn => 2,
            LevelFilter::Info => 3,
            LevelFilter::Debug => 4,
            LevelFilter::Trace => 5,
        }
    }
}

/// The digit `d` as text.
pub open spec fn digit(d: nat) -> Seq<char> {
    if d == 0 {
        "0"@
    } else if d == 1 {
        "1"@
    } else if d == 2 {
        "2"@
    } else if d == 3 {
        "3"@
    } else if d == 4 {
        "4"@
    } else if d == 5 {
        "5"@
    } else if d == 6 {
        "6"@
    } else if d == 7 {
        "7"@
    } else if d == 8 {
        "8"@
    } else {
        "9"@
    }
}

/// The number `n` in decimal, without leading zeros.
pub open spec fn decimal(n: nat) -> Seq<char>
    decreases n,
{
    if n < 10 {
        digit(n)
    } else {
        decimal(n / 10) + digit(n % 10)
    }
}

/// Where a record comes from: its target, followed by a colon and the line
/// number where the line is known.
pub open spec fn located(target: Seq<char>, line: Option<u32>) -> Seq<char> {
    match line {
        Some(n) => target + ":"@ + decimal(n as nat),
        None => target,
    }
}

/// Whether a logger with the filter `max` lets a record of `level` pass.
pub open spec fn passes(max: LevelFilter, level: Level) -> bool {
    level.rank() <= max.rank()
}

/// How a record reads. A record that does not pass reads as nothing. A
/// record at `Info` or a more verbose level is its message alone; an error
/// or a warning is led by its level and by where it comes from.
pub open spec fn rendered(
    max: LevelFilter,
    level: Level,
    target: Seq<char>,
    line: Option<u32>,
    message: Seq<char>,
) -> Option<Seq<char>> {
    if !passes(max, level) {
        None
    } else if level.rank() >= Level::Info.rank() {
        Some(message)
    } else {
        Some(level.label() + " RS - "@ + located(target, line) + " - "@ + message)
    }
}

/// The digit `d` as text.
fn digit_text(d: u32) -> (s: &'static str)
    requires
        d < 10,
    ensures
        s@ == digit(d as nat),
{
    match d {
        0 => "0",
        1 => "1",
        2 => "2",
        3 => "3",
        4 => "4",
        5 => "5",
        6 => "6",
        7 => "7",
        8 => "8",
        _ => "9",
    }
}

/// Appends `n` in decimal to `s`.
pub fn append_decimal(s: &mut String, n: u32)
    ensures
        final(s)@ == old(s)@ + decimal(n as nat),
    decreases n,
{
    if n >= 10 {
        append_decimal(s, n / 10);
    }
    s.append(digit_text(n % 10));
    assert(s@ =~= old(s)@ + decimal(n as nat));
}

/// The line that reports a fatal error to the operator.
pub fn diagnostic(message: &str) -> (line: String)
    ensures
        line@ == "error: "@ + message@,
{
    let mut line = "error: ".to_string();
    line.append(message);
    line
}

/// A logger with its level.
#[derive(Clone, Copy, Debug)]
pub struct Logger {
    max_level: LevelFilter,
}

impl Logger {
    /// The most verbose level that passes.
    pub closed spec fn spec_max_level(self) -> LevelFilter {
        self.max_level
    }

    /// A logger that lets pass what is at most as verbose as `max_level`.
    pub fn new(max_level: LevelFilter) -> (logger: Logger)
        ensures
            logger.spec_max_level() == max_level,
    {
        Logger { max_level }
    }

    /// The most verbose level that passes.
    #[verifier::when_used_as_spec(spec_max_level)]
    pub fn max_level(self) -> (max: LevelFilter)
        ensures
            max == self.spec_max_level(),
    {
        self.max_level
    }

    /// Whether a record of `level` passes.
    pub fn enabled(&self, level: Level) -> (b: bool)
        ensures
            b == passes(self.spec_max_level(), level),
    {
        level.index() <= self.max_level.index()
    }

    /// The line to write for a record, or nothing where the record does not
    /// pass.
    pub fn render(&self, level: Level, target: &str, line: Option<u32>, message: &str) -> (r:
        Option<String>)
        ensures
            match r {
                Some(text) => rendered(self.spec_max_level(), level, target@, line, message@)
                    == Some(text@),
                None => rendered(self.spec_max_level(), level, target@, line, message@) is None,
            },
    {
        if !self.enabled(level) {
            return None;
        }
        if level.index() >= Level::Info.index() {
            return Some(message.to_string());
        }
        let mut text = level.name();
        text.append(" RS - ");
        text.append(target);
        match line {
            Some(n) => {
                text.append(":");
                append_decimal(&mut text, n);
            },
            None => {},
        }
        assert(text@ =~= level.label() + " RS - "@ + located(target@, line));
        text.append(" - ");
        text.append(message);
        Some(text)
    }
}

} // verus!
