//! Logging: the levels the native library logs at.

use vstd::prelude::*;

verus! {

/// The highest log level marked true in a set of [`LogLevels`]. `Error` is
/// the most urgent level and orders above all others; `Off` is no level at
/// all and orders below all others.
#[derive(Debug, PartialEq, Eq, Copy, Clone, Structural)]
pub enum LogLevel {
    Error,
    Warning,
    Debug,
    Function,
    Off,
}

impl LogLevel {
    /// Urgency: `Error` is highest, `Off` lowest.
    pub open spec fn rank(self) -> int {
        match self {
            LogLevel::Error => 4,
            LogLevel::Warning => 3,
            LogLevel::Debug => 2,
            LogLevel::Function => 1,
            LogLevel::Off => 0,
        }
    }

    fn rank_of(self) -> (r: u8)
        ensures
            r == self.rank(),
    {
        match self {
            LogLevel::Error => 4,
            LogLevel::Warning => 3,
            LogLevel::Debug => 2,
            LogLevel::Function => 1,
            LogLevel::Off => 0,
        }
    }

    /// The level's name, in the form log output carries it.
    pub open spec fn spec_name(self) -> Seq<char> {
        match self {
            LogLevel::Error => "ERROR"@,
            LogLevel::Warning => "WARNING"@,
            LogLevel::Debug => "DEBUG"@,
            LogLevel::Function => "FUNCTION"@,
            LogLevel::Off => "NONE"@,
        }
    }

    /// The level's name, in the form log output carries it.
    pub fn name(self) -> (r: &'static str)
        ensures
            r@ == self.spec_name(),
    {
        match self {
            LogLevel::Error => "ERROR",
            LogLevel::Warning => "WARNING",
            LogLevel::Debug => "DEBUG",
            LogLevel::Function => "FUNCTION",
            LogLevel::Off => "NONE",
        }
    }
}

impl PartialOrd for LogLevel {
    /// Levels compare by urgency: `Error` above `Warning` above `Debug`
    /// above `Function` above `Off`.
    fn partial_cmp(&self, other: &LogLevel) -> (r: Option<core::cmp::Ordering>) {
        let a = self.rank_of();
        let b = other.rank_of();
        if a < b {
            Some(core::cmp::Ordering::Less)
        } else if a == b {
            Some(core::cmp::Ordering::Equal)
        } else {
            Some(core::cmp::Ordering::Greater)
        }
    }
}

impl vstd::std_specs::cmp::PartialOrdSpecImpl for LogLevel {
    open spec fn obeys_partial_cmp_spec() -> bool {
        true
    }

    open spec fn partial_cmp_spec(&self, other: &LogLevel) -> Option<core::cmp::Ordering> {
        if self.rank() < other.rank() {
            Some(core::cmp::Ordering::Less)
        } else if self.rank() == other.rank() {
            Some(core::cmp::Ordering::Equal)
        } else {
            Some(core::cmp::Ordering::Greater)
        }
    }
}

/// The set of levels a message is logged at, one flag per level.
#[derive(Debug, PartialEq, Eq, Copy, Clone, Structural)]
pub struct LogLevels {
    pub error: bool,
    pub warning: bool,
    pub debug: bool,
    pub function: bool,
}

impl LogLevels {
    /// The bit mask the native library uses for these levels.
    pub open spec fn spec_to_u32(self) -> u32 {
        (if self.error {
            1u32
        } else {
            0u32
        }) | (if self.warning {
            2u32
        } else {
            0u32
        }) | (if self.debug {
            4u32
        } else {
            0u32
        }) | (if self.function {
            8u32
        } else {
            0u32
        })
    }

    /// The levels encoded by a bit mask.
    pub open spec fn spec_from_u32(x: u32) -> LogLevels {
        LogLevels { error: x & 1 != 0, warning: x & 2 != 0, debug: x & 4 != 0, function: x & 8 != 0 }
    }

    /// Error level only.
    pub fn error() -> (r: LogLevels)
        ensures
            r == (LogLevels { error: true, warning: false, debug: false, function: false }),
    {
        LogLevels { error: true, warning: false, debug: false, function: false }
    }

    /// Warning level only.
    pub fn warning() -> (r: LogLevels)
        ensures
            r == (LogLevels { error: false, warning: true, debug: false, function: false }),
    {
        LogLevels { error: false, warning: true, debug: false, function: false }
    }

    /// Debug level only.
    pub fn debug() -> (r: LogLevels)
        ensures
            r == (LogLevels { error: false, warning: false, debug: true, function: false }),
    {
        LogLevels { error: false, warning: false, debug: true, function: false }
    }

    /// Function-tracing level only.
    pub fn function() -> (r: LogLevels)
        ensures
            r == (LogLevels { error: false, warning: false, debug: false, function: true }),
    {
        LogLevels { error: false, warning: false, debug: false, function: true }
    }

    /// Encodes these levels as the native bit mask.
    pub fn to_u32(self) -> (r: u32)
        ensures
            r == self.spec_to_u32(),
    {
        (if self.error {
            1u32
        } else {
            0u32
        }) | (if self.warning {
            2u32
        } else {
            0u32
        }) | (if self.debug {
            4u32
        } else {
            0u32
        }) | (if self.function {
            8u32
        } else {
            0u32
        })
    }

    /// Decodes a native bit mask.
    pub fn from_u32(x: u32) -> (r: LogLevels)
        ensures
            r == LogLevels::spec_from_u32(x),
    {
        LogLevels { error: x & 1 != 0, warning: x & 2 != 0, debug: x & 4 != 0, function: x & 8 != 0 }
    }

    /// The single most urgent level that is set, or `Off` when none is.
    pub fn to_level(self) -> (r: LogLevel)
        ensures
            r == self.spec_to_level(),
    {
        if self.error {
            LogLevel::Error
        } else if self.warning {
            LogLevel::Warning
        } else if self.debug {
            LogLevel::Debug
        } else if self.function {
            LogLevel::Function
        } else {
            LogLevel::Off
        }
    }

    /// The most urgent level in the set.
    pub open spec fn spec_to_level(self) -> LogLevel {
        if self.error {
            LogLevel::Error
        } else if self.warning {
            LogLevel::Warning
        } else if self.debug {
            LogLevel::Debug
        } else if self.function {
            LogLevel::Function
        } else {
            LogLevel::Off
        }
    }
}

impl Default for LogLevels {
    /// No level set.
    fn default() -> (r: LogLevels)
        ensures
            r == (LogLevels { error: false, warning: false, debug: false, function: false }),
    {
        LogLevels { error: false, warning: false, debug: false, function: false }
    }
}

/// Encoding then decoding gives the levels back: each level has its own bit.
pub proof fn lemma_loglevels_round_trip(u: LogLevels)
    ensures
        LogLevels::spec_from_u32(u.spec_to_u32()) == u,
{
    let v0 = u.error;
    let v1 = u.warning;
    let v2 = u.debug;
    let v3 = u.function;
    let x = (if v0 {
        1u32
    } else {
        0u32
    }) | (if v1 {
        2u32
    } else {
        0u32
    }) | (if v2 {
        4u32
    } else {
        0u32
    }) | (if v3 {
        8u32
    } else {
        0u32
    });
    assert((x & 1 != 0) == v0 && (x & 2 != 0) == v1 && (x & 4 != 0) == v2 && (x & 8 != 0) == v3) by (bit_vector)
        requires
            x == (if v0 {
        1u32
    } else {
        0u32
    }) | (if v1 {
        2u32
    } else {
        0u32
    }) | (if v2 {
        4u32
    } else {
        0u32
    }) | (if v3 {
        8u32
    } else {
        0u32
    }),
    ;
}

} // verus!
