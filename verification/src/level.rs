//! The five severity levels and the names under which a directive carries them.

use vstd::prelude::*;

verus! {

/// A severity level of the tracing facility.
#[derive(Clone, Copy, Debug, PartialEq, Eq)]
pub enum Level {
    Trace,
    Debug,
    Info,
    Warn,
    Error,
}

impl Level {
    /// The name of the level as it is written inside a directive.
    pub open spec fn name(self) -> Seq<char> {
        match self {
            Level::Trace => "trace"@,
            Level::Debug => "debug"@,
            Level::Info => "info"@,
            Level::Warn => "warn"@,
            Level::Error => "error"@,
        }
    }

    /// Returns the name of the level.
    pub fn as_str(self) -> (name: &'static str)
        ensures
            name@ == self.name(),
    {
        match self {
            Level::Trace => "trace",
            Level::Debug => "debug",
            Level::Info => "info",
            Level::Warn => "warn",
            Level::Error => "error",
        }
    }
}

} // verus!
