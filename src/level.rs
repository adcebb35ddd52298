use vstd::prelude::*;

verus! {

/// Urgency of a log record, from the most urgent (`Error`) to the least (`Trace`).
#[derive(Clone, Copy, Debug, PartialEq, Eq, Structural)]
pub enum Level {
    Error,
    Warn,
    Info,
    Debug,
    Trace,
}

/// The least urgent level that is still emitted; `Off` emits nothing.
#[derive(Clone, Copy, Debug, PartialEq, Eq, Structural)]
pub enum LevelFilter {
    Off,
    Error,
    Warn,
    Info,
    Debug,
    Trace,
}

impl Level {
    /// Position in the urgency order: 1 for `Error` up to 5 for `Trace`.
    /// A smaller rank is more urgent.
    pub open spec fn rank(self) -> nat {
        match self {
            Level::Error => 1,
            Level::Warn => 2,
            Level::Info => 3,
            Level::Debug => 4,
            Level::Trace => 5,
        }
    }

    /// The level's name as it appears in a log line.
    pub open spec fn name(self) -> Seq<char> {
        match self {
            Level::Error => seq!['E', 'R', 'R', 'O', 'R'],
            Level::Warn => seq!['W', 'A', 'R', 'N'],
            Level::Info => seq!['I', 'N', 'F', 'O'],
            Level::Debug => seq!['D', 'E', 'B', 'U', 'G'],
            Level::Trace => seq!['T', 'R', 'A', 'C', 'E'],
        }
    }

    /// The ANSI color code a line of this level is drawn in.
    pub open spec fn color(self) -> u8 {
        match self {
            Level::Error => 31,
            Level::Warn => 93,
            Level::Info => 34,
            Level::Debug => 32,
            Level::Trace => 90,
        }
    }

    /// The level's name in upper case.
    pub fn as_str(self) -> (r: &'static str)
        ensures
            r@ == self.name(),
    {
        proof {
            reveal_strlit("ERROR");
            reveal_strlit("WARN");
            reveal_strlit("INFO");
            reveal_strlit("DEBUG");
            reveal_strlit("TRACE");
        }
        match self {
            Level::Error => "ERROR",
            Level::Warn => "WARN",
            Level::Info => "INFO",
            Level::Debug => "DEBUG",
            Level::Trace => "TRACE",
        }
    }
}

/// The ANSI color code of a level: red, bright yellow, blue, green or bright black.
pub fn level_to_color_code(level: Level) -> (r: u8)
    ensures
        r == level.color(),
{
    match level {
        Level::Error => 31,
        Level::Warn => 93,
        Level::Info => 34,
        Level::Debug => 32,
        Level::Trace => 90,
    }
}

/// The filter named by a configuration value: "ERROR", "WARN", "INFO",
/// "DEBUG" or "TRACE" name their level; anything else, or no value, is `Info`.
pub open spec fn filter_of_config(config: Option<&str>) -> LevelFilter {
    match config {
        Some(s) => if s@ == "ERROR"@ {
            LevelFilter::Error
        } else if s@ == "WARN"@ {
            LevelFilter::Warn
        } else if s@ == "INFO"@ {
            LevelFilter::Info
        } else if s@ == "DEBUG"@ {
            LevelFilter::Debug
        } else if s@ == "TRACE"@ {
            LevelFilter::Trace
        } else {
            LevelFilter::Info
        },
        None => LevelFilter::Info,
    }
}

/// Whether two strings hold the same characters.
fn same_text(a: &str, b: &str) -> (r: bool)
    ensures
        r == (a@ == b@),
{
    let n = a.unicode_len();
    if n != b.unicode_len() {
        return false;
    }
    let mut i: usize = 0;
    while i < n
        invariant
            n == a@.len(),
            n == b@.len(),
            i <= n,
            a@.take(i as int) == b@.take(i as int),
        decreases n - i,
    {
        if a.get_char(i) != b.get_char(i) {
            return false;
        }
        proof {
            assert(a@.take(i + 1) == a@.take(i as int).push(a@[i as int]));
            assert(b@.take(i + 1) == b@.take(i as int).push(b@[i as int]));
        }
        i = i + 1;
    }
    proof {
        assert(a@ == a@.take(n as int));
        assert(b@ == b@.take(n as int));
    }
    true
}

impl LevelFilter {
    /// Position of the filter: 0 for `Off`, else the rank of the level it names.
    pub open spec fn rank(self) -> nat {
        match self {
            LevelFilter::Off => 0,
            LevelFilter::Error => 1,
            LevelFilter::Warn => 2,
            LevelFilter::Info => 3,
            LevelFilter::Debug => 4,
            LevelFilter::Trace => 5,
        }
    }

    /// A record passes the filter when it is at least as urgent as the filter's level.
    pub open spec fn admits(self, level: Level) -> bool {
        level.rank() <= self.rank()
    }

    /// Whether a record of `level` passes this filter.
    pub fn enabled(self, level: Level) -> (r: bool)
        ensures
            r == self.admits(level),
    {
        let rank: u8 = match self {
            LevelFilter::Off => 0,
            LevelFilter::Error => 1,
            LevelFilter::Warn => 2,
            LevelFilter::Info => 3,
            LevelFilter::Debug => 4,
            LevelFilter::Trace => 5,
        };
        let needed: u8 = match level {
            Level::Error => 1,
            Level::Warn => 2,
            Level::Info => 3,
            Level::Debug => 4,
            Level::Trace => 5,
        };
        needed <= rank
    }

    /// Reads the filter from a configuration value, defaulting to `Info`.
    pub fn from_config(config: Option<&str>) -> (r: LevelFilter)
        ensures
            r == filter_of_config(config),
    {
        match config {
            Some(s) => if same_text(s, "ERROR") {
                LevelFilter::Error
            } else if same_text(s, "WARN") {
                LevelFilter::Warn
            } else if same_text(s, "INFO") {
                LevelFilter::Info
            } else if same_text(s, "DEBUG") {
                LevelFilter::Debug
            } else if same_text(s, "TRACE") {
                LevelFilter::Trace
            } else {
                LevelFilter::Info
            },
            None => LevelFilter::Info,
        }
    }
}

} // verus!
