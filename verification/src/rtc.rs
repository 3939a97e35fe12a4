//! Real-time clock and alarm data as the dashboard reads it.

use vstd::prelude::*;

verus! {

/// One of the two hardware wake timers.
#[derive(Clone, Copy, Debug, PartialEq, Eq, Structural)]
pub enum TimerId {
    AcPower,
    DcPower,
}

/// The time zone of a timestamp.
#[derive(Clone, Copy, Debug, PartialEq, Eq, Structural)]
pub enum TimeZone {
    Unknown,
    /// Offset from UTC in minutes.
    MinutesFromUtc(i16),
}

/// Whether daylight saving time applies to a timestamp.
#[derive(Clone, Copy, Debug, PartialEq, Eq, Structural)]
pub enum DstStatus {
    NotObserved,
    NotAdjusted,
    Adjusted,
}

/// A calendar date and time of day.
#[derive(Clone, Copy, Debug, PartialEq, Eq, Structural)]
pub struct DateTime {
    pub year: u16,
    pub month: u8,
    pub day: u8,
    pub hour: u8,
    pub minute: u8,
    pub second: u8,
}

/// What the time-alarm device can do.
#[derive(Clone, Copy, Debug, PartialEq, Eq, Structural)]
pub struct Capabilities {
    pub realtime_implemented: bool,
    pub get_wake_status_supported: bool,
    pub realtime_accuracy_in_milliseconds: bool,
    pub ac_wake_implemented: bool,
    pub ac_s4_wake_supported: bool,
    pub ac_s5_wake_supported: bool,
    pub dc_wake_implemented: bool,
    pub dc_s4_wake_supported: bool,
    pub dc_s5_wake_supported: bool,
}

/// What is left on a wake timer.
#[derive(Clone, Copy, Debug, PartialEq, Eq, Structural)]
pub enum TimerSeconds {
    /// The timer is not set.
    Disabled,
    Seconds(u32),
}

/// When an expired timer wakes the system once its power source is back.
#[derive(Clone, Copy, Debug, PartialEq, Eq, Structural)]
pub enum WakePolicy {
    Never,
    Instantly,
    AfterSeconds(u32),
}

/// Whether a timer has expired, and whether that woke the system.
#[derive(Clone, Copy, Debug, PartialEq, Eq, Structural)]
pub struct TimerStatus {
    pub timer_expired: bool,
    pub timer_triggered_wake: bool,
}

/// The real time as the clock reports it.
#[derive(Clone, Copy, Debug, PartialEq, Eq, Structural)]
pub struct Timestamp {
    pub datetime: DateTime,
    pub time_zone: TimeZone,
    pub dst_status: DstStatus,
}

impl TimerId {
    /// The place of the timer among the two: AC power first.
    pub fn index(self) -> (i: usize)
        ensures
            i == match self {
                TimerId::AcPower => 0usize,
                TimerId::DcPower => 1usize,
            },
    {
        match self {
            TimerId::AcPower => 0,
            TimerId::DcPower => 1,
        }
    }
}

/// The whole hours of an offset of `minutes`, rounded toward zero.
pub open spec fn offset_hours(minutes: i16) -> int {
    if minutes >= 0 {
        minutes / 60
    } else {
        -((-minutes) / 60)
    }
}

/// The minutes of an offset that its whole hours leave over, without sign.
pub open spec fn offset_minutes(minutes: i16) -> int {
    if minutes >= 0 {
        (minutes % 60) as int
    } else {
        (-minutes) % 60
    }
}

/// Splits an offset from UTC into signed whole hours and the unsigned
/// minutes left over, as they are shown.
pub fn utc_offset_parts(minutes: i16) -> (parts: (i16, i16))
    requires
        minutes > i16::MIN,
    ensures
        parts.0 == offset_hours(minutes),
        parts.1 == offset_minutes(minutes),
        parts.0 * 60 + (if minutes >= 0 {
            parts.1 as int
        } else {
            -parts.1
        }) == minutes,
        0 <= parts.1 < 60,
{
    if minutes >= 0 {
        let m = minutes as u16;
        ((m / 60) as i16, (m % 60) as i16)
    } else {
        let m = (-minutes) as u16;
        (-((m / 60) as i16), (m % 60) as i16)
    }
}

/// Whether a capability is there, in words.
pub fn as_supported(supported: bool) -> (label: &'static str)
    ensures
        label@ == if supported {
            "Supported"@
        } else {
            "Not Supported"@
        },
{
    if supported {
        "Supported"
    } else {
        "Not Supported"
    }
}

/// The accuracy of the real time, in words.
pub fn accuracy_as_str(capabilities: &Capabilities) -> (label: &'static str)
    ensures
        label@ == if capabilities.realtime_accuracy_in_milliseconds {
            "Milliseconds"@
        } else {
            "Seconds"@
        },
{
    if capabilities.realtime_accuracy_in_milliseconds {
        "Milliseconds"
    } else {
        "Seconds"
    }
}

/// Whether daylight saving time applies, in words.
pub fn format_dst(dst: DstStatus) -> (label: &'static str)
    ensures
        label@ == match dst {
            DstStatus::NotObserved => "Not Observed"@,
            DstStatus::NotAdjusted => "No"@,
            DstStatus::Adjusted => "Yes"@,
        },
{
    match dst {
        DstStatus::NotObserved => "Not Observed",
        DstStatus::NotAdjusted => "No",
        DstStatus::Adjusted => "Yes",
    }
}

/// Whether a timer has expired, in words.
pub fn expired_as_str(status: &TimerStatus) -> (label: &'static str)
    ensures
        label@ == if status.timer_expired {
            "expired"@
        } else {
            "not expired"@
        },
{
    if status.timer_expired {
        "expired"
    } else {
        "not expired"
    }
}

/// Whether a timer woke the system, in words.
pub fn triggered_wake_as_str(status: &TimerStatus) -> (label: &'static str)
    ensures
        label@ == if status.timer_triggered_wake {
            "triggered wake"@
        } else {
            "did not trigger wake"@
        },
{
    if status.timer_triggered_wake {
        "triggered wake"
    } else {
        "did not trigger wake"
    }
}

} // verus!
