use vstd::prelude::*;

verus! {

/// A logging level. Levels are ordered from least to most important as
/// `Debug`, `Info`, `Warn` and `Error`; `Disabled` sorts above all of them.
#[derive(Clone, Copy, Debug, PartialEq, Eq, Structural, PartialOrd, Ord)]
pub enum Level {
    Debug,
    Info,
    Warn,
    Error,
    /// As a threshold, `Disabled` lets no message through. This is the
    /// default level.
    Disabled,
}

/// The position of a level in the ordering, from `Debug` (0) to `Disabled` (4).
pub open spec fn severity(l: Level) -> nat {
    match l {
        Level::Debug => 0,
        Level::Info => 1,
        Level::Warn => 2,
        Level::Error => 3,
        Level::Disabled => 4,
    }
}

impl Level {
    /// The position of this level in the ordering.
    pub fn severity(&self) -> (r: u8)
        ensures
            r as nat == severity(*self),
    {
        match self {
            Level::Debug => 0,
            Level::Info => 1,
            Level::Warn => 2,
            Level::Error => 3,
            Level::Disabled => 4,
        }
    }

    /// Whether this level comes strictly before `other` in the ordering.
    pub fn is_below(&self, other: &Level) -> (r: bool)
        ensures
            r == (severity(*self) < severity(*other)),
    {
        self.severity() < other.severity()
    }

    /// The label that a message at this level carries; `Disabled` is no
    /// message level and has none.
    pub fn label(&self) -> (r: Option<&'static str>)
        ensures
            r is None <==> *self == Level::Disabled,
            r is Some ==> r->0@ == label_of(*self),
    {
        proof {
            reveal_strlit("DEBUG");
            reveal_strlit("INFO");
            reveal_strlit("WARN");
            reveal_strlit("ERROR");
        }
        match self {
            Level::Debug => Some("DEBUG"),
            Level::Info => Some("INFO"),
            Level::Warn => Some("WARN"),
            Level::Error => Some("ERROR"),
            Level::Disabled => None,
        }
    }
}

/// The label of a message level, as it appears in an emitted message.
pub open spec fn label_of(l: Level) -> Seq<char> {
    match l {
        Level::Debug => seq!['D', 'E', 'B', 'U', 'G'],
        Level::Info => seq!['I', 'N', 'F', 'O'],
        Level::Warn => seq!['W', 'A', 'R', 'N'],
        Level::Error => seq!['E', 'R', 'R', 'O', 'R'],
        Level::Disabled => Seq::empty(),
    }
}

/// The threshold that a set of build flags selects. Each flag enables its own
/// level and every more severe one, so the least severe flag that is set
/// decides; with no flag set, logging is disabled.
pub open spec fn threshold_of_flags(debug: bool, info: bool, warn: bool, error: bool) -> Level {
    if debug {
        Level::Debug
    } else if info {
        Level::Info
    } else if warn {
        Level::Warn
    } else if error {
        Level::Error
    } else {
        Level::Disabled
    }
}

/// The threshold selected by the flags `loglevel_debug`, `loglevel_info`,
/// `loglevel_warn` and `loglevel_error`, given as booleans.
pub fn level_from_flags(debug: bool, info: bool, warn: bool, error: bool) -> (r: Level)
    ensures
        r == threshold_of_flags(debug, info, warn, error),
{
    if debug {
        return Level::Debug;
    }
    if info {
        return Level::Info;
    }
    if warn {
        return Level::Warn;
    }
    if error {
        return Level::Error;
    }
    Level::Disabled
}

/// Returns the configured log level. This crate is built with no level flag
/// set, so the configured level is the default one, `Disabled`.
pub fn level() -> (r: Level)
    ensures
        r == threshold_of_flags(false, false, false, false),
        r == Level::Disabled,
{
    level_from_flags(false, false, false, false)
}

} // verus!
