//! Verbosity levels understood by the native library's logger.

use vstd::prelude::*;

verus! {

/// Threshold handed to the native logger. The native side receives the level
/// as a 32-bit signed integer, numbered from zero in the order written here.
#[derive(Clone, Copy, Debug, PartialEq, Eq, Structural)]
pub enum SpoutLibLogLevel {
    Silent,
    Verbose,
    Notice,
    Warning,
    Error,
    Fatal,
    /// Nothing is logged at all.
    Off,
}

impl SpoutLibLogLevel {
    /// The integer that stands for this level on the native side.
    pub open spec fn spec_raw(self) -> i32 {
        match self {
            SpoutLibLogLevel::Silent => 0,
            SpoutLibLogLevel::Verbose => 1,
            SpoutLibLogLevel::Notice => 2,
            SpoutLibLogLevel::Warning => 3,
            SpoutLibLogLevel::Error => 4,
            SpoutLibLogLevel::Fatal => 5,
            SpoutLibLogLevel::Off => 6,
        }
    }

    /// The integer that stands for this level on the native side.
    #[verifier::when_used_as_spec(spec_raw)]
    pub fn raw(self) -> (raw: i32)
        ensures
            raw == self.spec_raw(),
            0 <= raw <= 6,
    {
        match self {
            SpoutLibLogLevel::Silent => 0,
            SpoutLibLogLevel::Verbose => 1,
            SpoutLibLogLevel::Notice => 2,
            SpoutLibLogLevel::Warning => 3,
            SpoutLibLogLevel::Error => 4,
            SpoutLibLogLevel::Fatal => 5,
            SpoutLibLogLevel::Off => 6,
        }
    }
}

} // verus!
