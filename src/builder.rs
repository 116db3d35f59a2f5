use vstd::prelude::*;
use vstd::string::StringSliceAdditionalSpecFns;
use crate::level::{max_level_filter_from_cpp, LevelFilter};
use crate::logger::{InstanceHandle, MwLogger};
use crate::record::ShowFlags;
use crate::registry::{set_default_logger, install_step, LoggerError, ProcessLoggerState};

verus! {

/// Configuration of a logger before the backend is asked for its instance.
pub struct MwLoggerBuilder {
    pub level: LevelFilter,
    pub context: Option<String>,
}

/// Whether the bytes hold a zero.
pub open spec fn has_nul(bytes: Seq<u8>) -> bool {
    exists|i: int| 0 <= i < bytes.len() && bytes[i] == 0u8
}

fn contains_nul(bytes: &[u8]) -> (r: bool)
    ensures
        r == has_nul(bytes@),
{
    let mut i: usize = 0;
    while i < bytes.len()
        invariant
            0 <= i <= bytes@.len(),
            forall|k: int| 0 <= k < i ==> bytes@[k] != 0u8,
        decreases bytes@.len() - i,
    {
        if bytes[i] == 0u8 {
            return true;
        }
        i = i + 1;
    }
    false
}

impl MwLoggerBuilder {
    /// Threshold `Info`, no context tag.
    pub fn new() -> (r: Self)
        ensures
            r.level == LevelFilter::Info,
            r.context is None,
    {
        MwLoggerBuilder { level: LevelFilter::Info, context: None }
    }

    /// Binds a context tag. A tag with a zero byte is refused.
    pub fn context(self, context: &str) -> (r: Result<Self, LoggerError>)
        ensures
            r is Err <==> has_nul(context.spec_bytes()),
            r matches Err(e) ==> e == LoggerError::ContextHasNul,
            r matches Ok(b) ==> b.level == self.level && b.context is Some && b.context->0@
                == context@,
    {
        if contains_nul(context.as_bytes()) {
            return Err(LoggerError::ContextHasNul);
        }
        Ok(MwLoggerBuilder { level: self.level, context: Some(context.to_owned()) })
    }

    /// Sets the threshold.
    pub fn level(self, level: LevelFilter) -> (r: Self)
        ensures
            r.level == level,
            r.context == self.context,
    {
        MwLoggerBuilder { level, context: self.context }
    }

    /// Sets the threshold from the code the backend's configuration reports.
    pub fn filter_max_level_from_cpp(self, code: u8) -> (r: Self)
        ensures
            r.level == LevelFilter::of_code(code),
            r.context == self.context,
    {
        MwLoggerBuilder { level: max_level_filter_from_cpp(code), context: self.context }
    }

    /// The tag to create the backend instance with: the bound context, or
    /// `DFLT` when none is bound.
    pub fn instance_tag(&self) -> (r: &str)
        ensures
            self.context matches Some(c) ==> r@ == c@,
            self.context is None ==> r@ == "DFLT"@,
    {
        match &self.context {
            Some(c) => c.as_str(),
            None => "DFLT",
        }
    }

    /// Builds the logger around the instance the backend created for
    /// `instance_tag`; `None` there means the creation failed.
    pub fn build(&self, show: ShowFlags, created: Option<InstanceHandle>) -> (r: Result<MwLogger, LoggerError>)
        ensures
            created is None ==> r == Err::<MwLogger, LoggerError>(LoggerError::InstanceCreationFailed),
            created matches Some(h) ==> r == Ok::<MwLogger, LoggerError>(
                MwLogger { level: self.level, show, instance: h },
            ),
    {
        match created {
            Some(h) => Ok(MwLogger { level: self.level, show, instance: h }),
            None => Err(LoggerError::InstanceCreationFailed),
        }
    }

    /// Builds the logger and installs it as the process default. Nothing is
    /// installed when building fails.
    pub fn set_as_default_logger(
        self,
        state: &mut ProcessLoggerState,
        show: ShowFlags,
        created: Option<InstanceHandle>,
    ) -> (r: Result<(), LoggerError>)
        ensures
            created is None ==> r == Err::<(), LoggerError>(LoggerError::InstanceCreationFailed)
                && *final(state) == *old(state),
            created matches Some(h) ==> install_step(
                *old(state),
                MwLogger { level: self.level, show, instance: h },
                r,
                *final(state),
            ),
    {
        let logger = match self.build(show, created) {
            Ok(l) => l,
            Err(e) => {
                return Err(e);
            },
        };
        set_default_logger(state, logger)
    }
}

} // verus!
