//! GELF record severity levels, equal to the standard syslog levels.

use vstd::prelude::*;

verus! {

/// A record severity level. Lower numeric values are more severe, so
/// `Emergency` maps to 0 and `Debugging` maps to 7.
#[derive(Clone, Copy, Debug, PartialEq, Eq, Structural)]
pub enum GelfLevel {
    /// The "Emergency" level: system is unusable.
    Emergency,
    /// The "Alert" level: action must be taken immediately.
    Alert,
    /// The "Critical" level: critical conditions.
    Critical,
    /// The "Error" level: error conditions.
    Error,
    /// The "Warning" level: warning conditions.
    Warning,
    /// The "Notice" level: normal but significant conditions.
    Notice,
    /// The "Informational" level: informational messages.
    Informational,
    /// The "Debugging" level: messages of use only when debugging.
    Debugging,
}

/// The syslog number of a level: 0 for `Emergency` up to 7 for `Debugging`.
pub open spec fn level_value(level: GelfLevel) -> u32 {
    match level {
        GelfLevel::Emergency => 0,
        GelfLevel::Alert => 1,
        GelfLevel::Critical => 2,
        GelfLevel::Error => 3,
        GelfLevel::Warning => 4,
        GelfLevel::Notice => 5,
        GelfLevel::Informational => 6,
        GelfLevel::Debugging => 7,
    }
}

/// The level a syslog number denotes; numbers above 7 fall back to `Alert`,
/// the default level.
pub open spec fn level_of_value(value: u32) -> GelfLevel {
    match value {
        0 => GelfLevel::Emergency,
        1 => GelfLevel::Alert,
        2 => GelfLevel::Critical,
        3 => GelfLevel::Error,
        4 => GelfLevel::Warning,
        5 => GelfLevel::Notice,
        6 => GelfLevel::Informational,
        7 => GelfLevel::Debugging,
        _ => GelfLevel::Alert,
    }
}

impl GelfLevel {
    /// The syslog number of this level.
    pub fn as_u32(&self) -> (value: u32)
        ensures
            value == level_value(*self),
    {
        match self {
            GelfLevel::Emergency => 0,
            GelfLevel::Alert => 1,
            GelfLevel::Critical => 2,
            GelfLevel::Error => 3,
            GelfLevel::Warning => 4,
            GelfLevel::Notice => 5,
            GelfLevel::Informational => 6,
            GelfLevel::Debugging => 7,
        }
    }

    /// The level denoted by a syslog number; numbers above 7 fall back to
    /// `Alert`.
    pub fn from_u32(value: u32) -> (level: GelfLevel)
        ensures
            level == level_of_value(value),
    {
        match value {
            0 => GelfLevel::Emergency,
            1 => GelfLevel::Alert,
            2 => GelfLevel::Critical,
            3 => GelfLevel::Error,
            4 => GelfLevel::Warning,
            5 => GelfLevel::Notice,
            6 => GelfLevel::Informational,
            7 => GelfLevel::Debugging,
            _ => GelfLevel::Alert,
        }
    }

    /// The display name of this level.
    pub fn name(&self) -> (name: &'static str)
        ensures
            name@ == level_name(*self),
    {
        match self {
            GelfLevel::Emergency => "Emergency",
            GelfLevel::Alert => "Alert",
            GelfLevel::Critical => "Critical",
            GelfLevel::Error => "Error",
            GelfLevel::Warning => "Warning",
            GelfLevel::Notice => "Notice",
            GelfLevel::Informational => "Informational",
            GelfLevel::Debugging => "Debugging",
        }
    }
}

/// The display name of a level.
pub open spec fn level_name(level: GelfLevel) -> Seq<char> {
    match level {
        GelfLevel::Emergency => "Emergency"@,
        GelfLevel::Alert => "Alert"@,
        GelfLevel::Critical => "Critical"@,
        GelfLevel::Error => "Error"@,
        GelfLevel::Warning => "Warning"@,
        GelfLevel::Notice => "Notice"@,
        GelfLevel::Informational => "Informational"@,
        GelfLevel::Debugging => "Debugging"@,
    }
}

impl Default for GelfLevel {
    /// The default level is `Alert`, as the GELF specification prescribes.
    fn default() -> (level: GelfLevel)
        ensures
            level == GelfLevel::Alert,
    {
        GelfLevel::Alert
    }
}

/// Whether a record at level `record` passes a logger whose threshold is
/// `threshold`: records strictly less severe than the threshold are ignored.
pub open spec fn level_accepts(threshold: GelfLevel, record: GelfLevel) -> bool {
    level_value(record) <= level_value(threshold)
}

/// Whether a record at level `record` passes the `threshold` level.
pub fn accepts(threshold: GelfLevel, record: GelfLevel) -> (accepted: bool)
    ensures
        accepted == level_accepts(threshold, record),
{
    record.as_u32() <= threshold.as_u32()
}

} // verus!
