//! Log verbosity levels and their textual names.

use vstd::prelude::*;

verus! {

/// Verbosity level selected for the bridge's diagnostic output.
#[derive(Copy, Clone, PartialEq, Eq, Structural, Debug)]
pub enum LogLevel {
    Error,
    Warn,
    Info,
    Debug,
}

impl LogLevel {
    /// The textual name of this level, as the logger expects it.
    pub open spec fn spec_name(self) -> Seq<char> {
        match self {
            LogLevel::Error => "error"@,
            LogLevel::Warn => "warn"@,
            LogLevel::Info => "info"@,
            LogLevel::Debug => "debug"@,
        }
    }

    /// Returns the textual name of this level.
    pub fn to_string(&self) -> (s: &'static str)
        ensures
            s@ == self.spec_name(),
    {
        match *self {
            LogLevel::Error => "error",
            LogLevel::Warn => "warn",
            LogLevel::Info => "info",
            LogLevel::Debug => "debug",
        }
    }
}

} // verus!
