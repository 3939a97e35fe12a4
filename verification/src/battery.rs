//! Battery data as the dashboard reads it.

use vstd::prelude::*;
use vstd::utf8::{decode_utf8, encode_utf8, valid_utf8};

verus! {

/// The unit in which a battery reports capacity and rate.
#[derive(Clone, Copy, Debug, PartialEq, Eq, Structural)]
pub enum PowerUnit {
    MilliWatts,
    MilliAmps,
}

/// Whether a battery can be recharged.
#[derive(Clone, Copy, Debug, PartialEq, Eq, Structural)]
pub enum BatteryTechnology {
    Primary,
    Secondary,
}

/// Whether a battery can be swapped, and how.
#[derive(Clone, Copy, Debug, PartialEq, Eq, Structural)]
pub enum BatterySwapCapability {
    NonSwappable,
    ColdSwappable,
    HotSwappable,
}

/// Battery status: state, rate, remaining capacity and voltage.
#[derive(Clone, Copy, Debug, PartialEq, Eq, Structural)]
pub struct BstData {
    /// The battery reports that it is discharging.
    pub discharging: bool,
    /// The battery reports that it is charging.
    pub charging: bool,
    pub battery_present_rate: u32,
    pub battery_remaining_capacity: u32,
    pub battery_present_voltage: u32,
}

/// Static battery information.
#[derive(Clone, Copy, Debug, PartialEq, Eq)]
pub struct BixData {
    pub revision: u32,
    pub power_unit: PowerUnit,
    pub design_capacity: u32,
    pub last_full_charge_capacity: u32,
    pub battery_technology: BatteryTechnology,
    pub design_voltage: u32,
    pub design_cap_of_warning: u32,
    pub design_cap_of_low: u32,
    pub cycle_count: u32,
    pub measurement_accuracy: u32,
    pub max_sampling_time: u32,
    pub min_sampling_time: u32,
    pub max_averaging_interval: u32,
    pub min_averaging_interval: u32,
    pub battery_capacity_granularity_1: u32,
    pub battery_capacity_granularity_2: u32,
    pub model_number: [u8; 8],
    pub serial_number: [u8; 8],
    pub battery_type: [u8; 8],
    pub oem_info: [u8; 8],
    pub battery_swapping_capability: BatterySwapCapability,
}

/// The text shown for an identifier that holds no terminated, well-formed
/// text.
pub open spec fn invalid_text() -> Seq<char> {
    "Invalid"@
}

/// Whether `n` is the place of the first zero byte of `bytes`.
pub open spec fn is_first_nul(bytes: Seq<u8>, n: int) -> bool {
    &&& 0 <= n < bytes.len()
    &&& bytes[n] == 0
    &&& forall|k: int| 0 <= k < n ==> bytes[k] != 0
}

/// Whether `bytes` holds a zero byte.
pub open spec fn has_nul(bytes: Seq<u8>) -> bool {
    exists|n: int| 0 <= n < bytes.len() && bytes[n] == 0
}

/// `core::str::from_utf8`. Claimed, not proved: it yields a text exactly
/// when the bytes are well-formed UTF-8, and the text then encodes to those
/// bytes.
#[verifier::external_body]
fn utf8_text(bytes: &[u8]) -> (r: Option<&str>)
    ensures
        r is Some <==> valid_utf8(bytes@),
        r matches Some(text) ==> encode_utf8(text@) == bytes@,
{
    match core::str::from_utf8(bytes) {
        Ok(text) => Some(text),
        Err(_) => None,
    }
}

/// The text of a zero-terminated identifier: what stands before the first
/// zero byte, decoded as UTF-8. Bytes without a zero byte, or whose text is
/// not well-formed UTF-8, read as "Invalid".
pub fn str_from_bytes(bytes: &[u8]) -> (text: String)
    ensures
        !has_nul(bytes@) ==> text@ == invalid_text(),
        forall|n: int|
            is_first_nul(bytes@, n) ==> text@ == if valid_utf8(bytes@.take(n)) {
                decode_utf8(bytes@.take(n))
            } else {
                invalid_text()
            },
{
    let mut end: usize = 0;
    while end < bytes.len() && bytes[end] != 0
        invariant
            end <= bytes@.len(),
            forall|k: int| 0 <= k < end ==> bytes@[k] != 0,
        decreases bytes@.len() - end,
    {
        end += 1;
    }
    if end == bytes.len() {
        return "Invalid".to_owned();
    }
    proof {
        assert(is_first_nul(bytes@, end as int));
        assert forall|n: int| is_first_nul(bytes@, n) implies n == end by {
            if n < end {
                assert(bytes@[n] != 0);
            } else if n > end {
                assert(bytes@[end as int] != 0);
            }
        }
        assert(has_nul(bytes@));
        assert(bytes@.subrange(0, end as int) =~= bytes@.take(end as int));
    }
    match utf8_text(&bytes[0..end]) {
        Some(text) => {
            proof {
                vstd::utf8::encode_utf8_decode_utf8(text@);
            }
            text.to_owned()
        },
        None => "Invalid".to_owned(),
    }
}

/// Whether the battery is drawing down or filling up, in words.
pub fn charge_state_as_str(bst: &BstData) -> (label: &'static str)
    ensures
        label@ == if bst.discharging {
            "Discharging"@
        } else {
            "Charging"@
        },
{
    if bst.discharging {
        "Discharging"
    } else {
        "Charging"
    }
}

/// The unit of a capacity.
pub fn power_unit_as_capacity_str(power_unit: PowerUnit) -> (label: &'static str)
    ensures
        label@ == match power_unit {
            PowerUnit::MilliWatts => "mWh"@,
            PowerUnit::MilliAmps => "mAh"@,
        },
{
    match power_unit {
        PowerUnit::MilliWatts => "mWh",
        PowerUnit::MilliAmps => "mAh",
    }
}

/// The unit of a rate.
pub fn power_unit_as_rate_str(power_unit: PowerUnit) -> (label: &'static str)
    ensures
        label@ == match power_unit {
            PowerUnit::MilliWatts => "mW"@,
            PowerUnit::MilliAmps => "mA"@,
        },
{
    match power_unit {
        PowerUnit::MilliWatts => "mW",
        PowerUnit::MilliAmps => "mA",
    }
}

/// The battery technology, in words.
pub fn bat_tech_as_str(bat_tech: BatteryTechnology) -> (label: &'static str)
    ensures
        label@ == match bat_tech {
            BatteryTechnology::Primary => "Primary"@,
            BatteryTechnology::Secondary => "Secondary"@,
        },
{
    match bat_tech {
        BatteryTechnology::Primary => "Primary",
        BatteryTechnology::Secondary => "Secondary",
    }
}

/// The swapping capability, in words.
pub fn swap_cap_as_str(swap_cap: BatterySwapCapability) -> (label: &'static str)
    ensures
        label@ == match swap_cap {
            BatterySwapCapability::NonSwappable => "Non swappable"@,
            BatterySwapCapability::ColdSwappable => "Cold swappable"@,
            BatterySwapCapability::HotSwappable => "Hot swappable"@,
        },
{
    match swap_cap {
        BatterySwapCapability::NonSwappable => "Non swappable",
        BatterySwapCapability::ColdSwappable => "Cold swappable",
        BatterySwapCapability::HotSwappable => "Hot swappable",
    }
}

/// How full the battery is, against the levels at which it warns.
#[derive(Clone, Copy, Debug, PartialEq, Eq, Structural)]
pub enum ChargeLevel {
    /// At or below the low level.
    Low,
    /// Above the low level, at or below the warning level.
    Warning,
    /// Above both.
    High,
}

/// Rates the remaining capacity against the low and the warning level of
/// the battery.
pub fn charge_level(bst: &BstData, bix: &BixData) -> (level: ChargeLevel)
    ensures
        level == if bst.battery_remaining_capacity <= bix.design_cap_of_low {
            ChargeLevel::Low
        } else if bst.battery_remaining_capacity <= bix.design_cap_of_warning {
            ChargeLevel::Warning
        } else {
            ChargeLevel::High
        },
{
    if bst.battery_remaining_capacity <= bix.design_cap_of_low {
        ChargeLevel::Low
    } else if bst.battery_remaining_capacity <= bix.design_cap_of_warning {
        ChargeLevel::Warning
    } else {
        ChargeLevel::High
    }
}

/// Seconds between two samples of the capacity graph.
pub const SAMPLE_PERIOD_SECS: usize = 60;

/// Counts the update cycles of the battery view, one per second, and the
/// samples taken for its capacity graph.
#[derive(Clone, Copy, Debug, PartialEq, Eq, Structural)]
pub struct SampleClock {
    /// Update cycles so far.
    pub t_sec: usize,
    /// Samples taken so far.
    pub t_min: usize,
}

impl SampleClock {
    /// A clock that has counted nothing.
    pub fn new() -> (clock: SampleClock)
        ensures
            clock.wf(),
            clock == (SampleClock { t_sec: 0, t_min: 0 }),
    {
        SampleClock { t_sec: 0, t_min: 0 }
    }

    /// Whether the cycle that is about to be counted takes a sample: every
    /// cycle where `every_cycle` is set, else every sixtieth, the first
    /// included.
    pub open spec fn sample_due(self, every_cycle: bool) -> bool {
        every_cycle || self.t_sec % SAMPLE_PERIOD_SECS == 0
    }

    /// No more samples than cycles have been counted.
    pub open spec fn wf(self) -> bool {
        self.t_min <= self.t_sec
    }

    /// Counts one update cycle and says whether it takes a sample.
    pub fn tick(&mut self, every_cycle: bool) -> (sample: bool)
        requires
            old(self).wf(),
            old(self).t_sec < usize::MAX,
        ensures
            final(self).wf(),
            sample == old(self).sample_due(every_cycle),
            final(self).t_sec == old(self).t_sec + 1,
            final(self).t_min == old(self).t_min + if sample {
                1int
            } else {
                0int
            },
    {
        let update_graph = every_cycle || self.t_sec % SAMPLE_PERIOD_SECS == 0;
        self.t_sec += 1;
        if update_graph {
            self.t_min += 1;
        }
        update_graph
    }
}

} // verus!
