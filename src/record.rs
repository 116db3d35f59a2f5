use vstd::prelude::*;
use crate::level::Level;

verus! {

/// One log event as the front-end hands it over: its level, its message
/// already split into the pieces that formatting produced, the optional
/// source location and the optional context tag.
pub struct Record {
    pub level: Level,
    pub message: Vec<String>,
    pub module: Option<String>,
    pub file: Option<String>,
    pub line: Option<u32>,
    pub context_id: Option<String>,
}

/// Which parts of the source location a logger renders.
#[derive(Debug, Clone, Copy, PartialEq, Eq, Structural)]
pub struct ShowFlags {
    pub module: bool,
    pub file: bool,
    pub line: bool,
}

impl ShowFlags {
    /// Whether any location part is rendered.
    pub open spec fn any_spec(self) -> bool {
        self.module || self.file || self.line
    }

    pub fn any(self) -> (r: bool)
        ensures
            r == self.any_spec(),
    {
        self.module || self.file || self.line
    }
}

} // verus!
