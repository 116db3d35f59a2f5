use vstd::prelude::*;

verus! {

/// Severity of an event, from most to least urgent. `Fatal` is the most
/// urgent level; it is dispatched like the others and does not end the process.
#[derive(Debug, Clone, Copy, PartialEq, Eq, Structural)]
pub enum Level {
    Fatal,
    Error,
    Warn,
    Info,
    Debug,
    Trace,
}

/// A severity threshold: `Off` lets nothing through, `Trace` everything.
#[derive(Debug, Clone, Copy, PartialEq, Eq, Structural)]
pub enum LevelFilter {
    Off,
    Fatal,
    Error,
    Warn,
    Info,
    Debug,
    Trace,
}

impl Level {
    /// Position in the urgency order: 1 for `Fatal` up to 6 for `Trace`.
    pub open spec fn rank(self) -> nat {
        match self {
            Level::Fatal => 1,
            Level::Error => 2,
            Level::Warn => 3,
            Level::Info => 4,
            Level::Debug => 5,
            Level::Trace => 6,
        }
    }
}

impl LevelFilter {
    /// Position in the urgency order: 0 for `Off` up to 6 for `Trace`.
    pub open spec fn rank(self) -> nat {
        match self {
            LevelFilter::Off => 0,
            LevelFilter::Fatal => 1,
            LevelFilter::Error => 2,
            LevelFilter::Warn => 3,
            LevelFilter::Info => 4,
            LevelFilter::Debug => 5,
            LevelFilter::Trace => 6,
        }
    }

    /// The threshold that an external numeric code stands for; codes past
    /// the known range fall back to `Info`.
    pub open spec fn of_code(code: u8) -> LevelFilter {
        match code {
            0 => LevelFilter::Off,
            1 => LevelFilter::Fatal,
            2 => LevelFilter::Error,
            3 => LevelFilter::Warn,
            4 => LevelFilter::Info,
            5 => LevelFilter::Debug,
            6 => LevelFilter::Trace,
            _ => LevelFilter::Info,
        }
    }

    /// The external numeric code of this threshold.
    pub fn to_external_code(self) -> (r: u8)
        ensures
            r == self.rank(),
    {
        match self {
            LevelFilter::Off => 0,
            LevelFilter::Fatal => 1,
            LevelFilter::Error => 2,
            LevelFilter::Warn => 3,
            LevelFilter::Info => 4,
            LevelFilter::Debug => 5,
            LevelFilter::Trace => 6,
        }
    }
}

/// Whether an event of `level` passes `threshold`: it does when it is at
/// least as urgent as the threshold.
pub open spec fn enabled_spec(level: Level, threshold: LevelFilter) -> bool {
    level.rank() <= threshold.rank()
}

pub fn is_enabled(level: Level, threshold: LevelFilter) -> (r: bool)
    ensures
        r == enabled_spec(level, threshold),
{
    let l: u8 = match level {
        Level::Fatal => 1,
        Level::Error => 2,
        Level::Warn => 3,
        Level::Info => 4,
        Level::Debug => 5,
        Level::Trace => 6,
    };
    l <= threshold.to_external_code()
}

/// Maps the threshold code reported by the backend's configuration
/// (0 = off ... 6 = trace) to a threshold. Any other code gives `Info`.
pub fn max_level_filter_from_cpp(code: u8) -> (r: LevelFilter)
    ensures
        r == LevelFilter::of_code(code),
        code <= 6 ==> r.rank() == code,
        code > 6 ==> r == LevelFilter::Info,
{
    match code {
        0 => LevelFilter::Off,
        1 => LevelFilter::Fatal,
        2 => LevelFilter::Error,
        3 => LevelFilter::Warn,
        4 => LevelFilter::Info,
        5 => LevelFilter::Debug,
        6 => LevelFilter::Trace,
        _ => LevelFilter::Info,
    }
}

/// An event passes a threshold exactly when its level is at least as urgent;
/// in particular an event at the threshold's own level passes, `Off` stops
/// every event and `Trace` none.
pub proof fn lemma_enabled_iff_at_least_as_urgent(level: Level, threshold: LevelFilter)
    ensures
        enabled_spec(level, threshold) <==> level.rank() <= threshold.rank(),
        threshold.rank() == level.rank() ==> enabled_spec(level, threshold),
        threshold == LevelFilter::Off ==> !enabled_spec(level, threshold),
        threshold == LevelFilter::Trace ==> enabled_spec(level, threshold),
{
}

/// A code outside the known range is read as `Info`: never as `Off`.
pub proof fn lemma_unknown_code_is_info(code: u8)
    requires
        code > 6,
    ensures
        LevelFilter::of_code(code) == LevelFilter::Info,
        LevelFilter::of_code(code) != LevelFilter::Off,
{
}

/// Reading back the code of a threshold gives the same threshold.
pub proof fn lemma_code_round_trip(f: LevelFilter)
    ensures
        LevelFilter::of_code(f.rank() as u8) == f,
{
}

} // verus!
