use vstd::prelude::*;
use crate::level::{enabled_spec, is_enabled, LevelFilter};
use crate::logger::{Dispatch, MwLogger};
use crate::record::Record;

verus! {

/// Why configuring a logger failed.
#[derive(Debug, Clone, Copy, PartialEq, Eq, Structural)]
pub enum LoggerError {
    /// A context tag holds a zero byte, which the backend's strings cannot carry.
    ContextHasNul,
    /// The backend could not create an instance.
    InstanceCreationFailed,
    /// A default logger is already installed.
    AlreadyInstalled,
}

/// The process-wide logging state: the global threshold, checked before any
/// logger sees an event, and the default logger, set at most once.
pub struct ProcessLoggerState {
    pub max_level: LevelFilter,
    pub default: Option<MwLogger>,
}

impl ProcessLoggerState {
    /// Nothing installed, every event filtered out.
    pub fn new() -> (r: Self)
        ensures
            r.max_level == LevelFilter::Off,
            r.default is None,
    {
        ProcessLoggerState { max_level: LevelFilter::Off, default: None }
    }

    /// The backend call for an event sent to the default logger, if one is
    /// installed and both the global threshold and the logger's own let the
    /// event through.
    pub fn log(&self, record: &Record) -> (r: Option<Dispatch>)
        ensures
            r is Some <==> (self.default is Some && enabled_spec(record.level, self.max_level)
                && enabled_spec(record.level, self.default->0.level)),
            r matches Some(d) ==> self.default->0.dispatch_spec(record, false, d),
    {
        match &self.default {
            Some(logger) => {
                if is_enabled(record.level, self.max_level) {
                    logger.log(record, false)
                } else {
                    None
                }
            },
            None => None,
        }
    }
}

/// Installs `logger` as the default and sets the global threshold to its
/// own. A second installation fails and changes nothing.
pub fn set_default_logger(state: &mut ProcessLoggerState, logger: MwLogger) -> (r: Result<(), LoggerError>)
    ensures
        install_step(*old(state), logger, r, *final(state)),
{
    if state.default.is_some() {
        return Err(LoggerError::AlreadyInstalled);
    }
    state.max_level = logger.level;
    state.default = Some(logger);
    Ok(())
}

/// Sets the global threshold alone.
pub fn init(state: &mut ProcessLoggerState, level: LevelFilter)
    ensures
        final(state).max_level == level,
        final(state).default == old(state).default,
{
    state.max_level = level;
}

/// After a second installation has failed, the state is the one the first
/// left: the first logger stays the default, with its threshold, and every
/// event is dispatched exactly as before the failed attempt.
pub proof fn lemma_second_install_keeps_first(
    s0: ProcessLoggerState,
    s1: ProcessLoggerState,
    s2: ProcessLoggerState,
    first: MwLogger,
    second: MwLogger,
    r1: Result<(), LoggerError>,
    r2: Result<(), LoggerError>,
)
    requires
        s0.default is None,
        install_step(s0, first, r1, s1),
        install_step(s1, second, r2, s2),
    ensures
        r1 is Ok,
        r2 == Err::<(), LoggerError>(LoggerError::AlreadyInstalled),
        s2 == s1,
        s2.default == Some(first),
        s2.max_level == first.level,
        forall|record: Record, d: Dispatch|
            #[trigger] first.dispatch_spec(&record, false, d) ==> s2.default->0.dispatch_spec(
                &record,
                false,
                d,
            ),
{
}

/// What `set_default_logger` promises of one call: from `before`, installing
/// `logger` returns `r` and leaves `after`.
pub open spec fn install_step(
    before: ProcessLoggerState,
    logger: MwLogger,
    r: Result<(), LoggerError>,
    after: ProcessLoggerState,
) -> bool {
    &&& before.default is Some ==> r == Err::<(), LoggerError>(LoggerError::AlreadyInstalled)
        && after == before
    &&& before.default is None ==> r is Ok && after.default == Some(logger) && after.max_level
        == logger.level
}

} // verus!
