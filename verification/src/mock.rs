//! Simulated readings for running the dashboard without hardware.

use crate::battery::{BatterySwapCapability, BatteryTechnology, BixData, BstData, PowerUnit};
use crate::rtc::{DateTime, DstStatus, TimeZone, Timestamp};
use vstd::prelude::*;

verus! {

/// Lowest simulated temperature, in tenths of a kelvin.
pub const TEMPERATURE_LOW: u32 = 2732;

/// Highest simulated temperature, in tenths of a kelvin.
pub const TEMPERATURE_HIGH: u32 = 3232;

/// Change of the simulated temperature per reading.
pub const TEMPERATURE_STEP: u32 = 10;

/// Capacity at which the simulated battery is full.
pub const MAX_CAPACITY: u32 = 10000;

/// Change of the simulated capacity per reading.
pub const RATE: u32 = 1000;

/// A temperature that rises and falls between two bounds.
#[derive(Clone, Copy, Debug, PartialEq, Eq, Structural)]
pub struct TemperatureWave {
    sample: u32,
    rising: bool,
}

impl TemperatureWave {
    /// The last reading, in tenths of a kelvin.
    pub closed spec fn sample(self) -> u32 {
        self.sample
    }

    /// Whether the next reading is higher than the last.
    pub closed spec fn rising(self) -> bool {
        self.rising
    }

    /// The reading lies on the grid between the bounds, and turns at them.
    pub open spec fn wf(self) -> bool {
        &&& TEMPERATURE_LOW <= self.sample() <= TEMPERATURE_HIGH
        &&& (self.sample() - TEMPERATURE_LOW) % (TEMPERATURE_STEP as int) == 0
        &&& self.sample() == TEMPERATURE_LOW ==> self.rising()
        &&& self.sample() == TEMPERATURE_HIGH ==> !self.rising()
    }

    /// A wave at its lower bound, about to rise.
    pub fn new() -> (wave: TemperatureWave)
        ensures
            wave.wf(),
            wave.sample() == TEMPERATURE_LOW,
            wave.rising(),
    {
        TemperatureWave { sample: TEMPERATURE_LOW, rising: true }
    }

    /// The next reading: one step on in the current direction, which turns
    /// when a bound is reached.
    pub fn next(&mut self) -> (reading: u32)
        requires
            old(self).wf(),
        ensures
            final(self).wf(),
            reading == final(self).sample(),
            reading == if old(self).rising() {
                old(self).sample() + TEMPERATURE_STEP
            } else {
                old(self).sample() - TEMPERATURE_STEP
            },
            final(self).rising() == if reading >= TEMPERATURE_HIGH || reading <= TEMPERATURE_LOW {
                !old(self).rising()
            } else {
                old(self).rising()
            },
    {
        if self.rising {
            self.sample += TEMPERATURE_STEP;
        } else {
            self.sample -= TEMPERATURE_STEP;
        }
        if self.sample >= TEMPERATURE_HIGH || self.sample <= TEMPERATURE_LOW {
            self.rising = !self.rising;
        }
        self.sample
    }
}

/// A battery that charges to full, discharges to empty, and starts over.
#[derive(Clone, Copy, Debug, PartialEq, Eq, Structural)]
pub struct BatteryCycle {
    charging: bool,
    capacity: u32,
}

impl BatteryCycle {
    /// Whether the battery is charging.
    pub closed spec fn charging(self) -> bool {
        self.charging
    }

    /// The remaining capacity.
    pub closed spec fn capacity(self) -> u32 {
        self.capacity
    }

    /// The capacity is a whole number of steps, at most full, and a
    /// discharging battery holds at least one step.
    pub open spec fn wf(self) -> bool {
        &&& self.capacity() <= MAX_CAPACITY
        &&& self.capacity() % RATE == 0
        &&& !self.charging() ==> self.capacity() >= RATE
    }

    /// An empty battery, charging.
    pub fn new() -> (cycle: BatteryCycle)
        ensures
            cycle.wf(),
            cycle.charging(),
            cycle.capacity() == 0,
    {
        BatteryCycle { charging: true, capacity: 0 }
    }

    /// The capacity one step on: up while charging, down while discharging,
    /// never above full.
    pub open spec fn next_capacity(self) -> int {
        if self.charging() {
            if self.capacity() + RATE > MAX_CAPACITY {
                MAX_CAPACITY as int
            } else {
                self.capacity() + RATE
            }
        } else {
            self.capacity() - RATE
        }
    }

    /// Whether the battery charges after one step: charging ends once the
    /// step would pass full, and begins again once less than a step is
    /// left.
    pub open spec fn next_charging(self) -> bool {
        if self.charging() {
            self.capacity() + RATE <= MAX_CAPACITY
        } else {
            self.capacity() - RATE < RATE
        }
    }

    /// The status as it stands, then one step of the cycle.
    pub fn get_bst(&mut self) -> (bst: BstData)
        requires
            old(self).wf(),
        ensures
            final(self).wf(),
            bst == (BstData {
                discharging: !old(self).charging(),
                charging: old(self).charging(),
                battery_present_rate: 3839,
                battery_remaining_capacity: old(self).capacity(),
                battery_present_voltage: 12569,
            }),
            final(self).capacity() == old(self).next_capacity(),
            final(self).charging() == old(self).next_charging(),
    {
        let charging = self.charging;
        let capacity = self.capacity;
        let mut new_capacity = capacity;

        if charging {
            new_capacity += RATE;
            if new_capacity > MAX_CAPACITY {
                self.charging = false;
            }
        } else {
            new_capacity -= RATE;
            if new_capacity < RATE {
                self.charging = true;
            }
        }
        self.capacity = if new_capacity > MAX_CAPACITY {
            MAX_CAPACITY
        } else {
            new_capacity
        };

        BstData {
            discharging: !charging,
            charging,
            battery_present_rate: 3839,
            battery_remaining_capacity: capacity,
            battery_present_voltage: 12569,
        }
    }
}

/// The static information of the simulated battery.
pub fn get_bix() -> (bix: BixData)
    ensures
        bix.revision == 1,
        bix.power_unit == PowerUnit::MilliWatts,
        bix.design_capacity == MAX_CAPACITY,
        bix.last_full_charge_capacity == 9890,
        bix.battery_technology == BatteryTechnology::Primary,
        bix.design_voltage == 13000,
        bix.design_cap_of_warning == 5000,
        bix.design_cap_of_low == 3000,
        bix.cycle_count == 1337,
        bix.measurement_accuracy == 80000,
        bix.max_sampling_time == 42,
        bix.min_sampling_time == 7,
        bix.max_averaging_interval == 5,
        bix.min_averaging_interval == 1,
        bix.battery_capacity_granularity_1 == 10,
        bix.battery_capacity_granularity_2 == 10,
        bix.model_number@ == seq![0x34u8, 0x32, 0x2E, 0x30, 0, 0, 0, 0],
        bix.serial_number@ == seq![0x31u8, 0x32, 0x33, 0x2D, 0x34, 0x35, 0, 0],
        bix.battery_type@ == seq![0x4Cu8, 0x69, 0x2D, 0x6F, 0x6E, 0, 0, 0],
        bix.oem_info@ == seq![0x42u8, 0x61, 0x74, 0x42, 0x72, 0x6F, 0x73, 0],
        bix.battery_swapping_capability == BatterySwapCapability::ColdSwappable,
{
    let bix = BixData {
        revision: 1,
        power_unit: PowerUnit::MilliWatts,
        design_capacity: 10000,
        last_full_charge_capacity: 9890,
        battery_technology: BatteryTechnology::Primary,
        design_voltage: 13000,
        design_cap_of_warning: 5000,
        design_cap_of_low: 3000,
        cycle_count: 1337,
        measurement_accuracy: 80000,
        max_sampling_time: 42,
        min_sampling_time: 7,
        max_averaging_interval: 5,
        min_averaging_interval: 1,
        battery_capacity_granularity_1: 10,
        battery_capacity_granularity_2: 10,
        // "42.0"
        model_number: [0x34, 0x32, 0x2E, 0x30, 0, 0, 0, 0],
        // "123-45"
        serial_number: [0x31, 0x32, 0x33, 0x2D, 0x34, 0x35, 0, 0],
        // "Li-on"
        battery_type: [0x4C, 0x69, 0x2D, 0x6F, 0x6E, 0, 0, 0],
        // "BatBros"
        oem_info: [0x42, 0x61, 0x74, 0x42, 0x72, 0x6F, 0x73, 0],
        battery_swapping_capability: BatterySwapCapability::ColdSwappable,
    };
    proof {
        assert(bix.model_number@ =~= seq![0x34u8, 0x32, 0x2E, 0x30, 0, 0, 0, 0]);
        assert(bix.serial_number@ =~= seq![0x31u8, 0x32, 0x33, 0x2D, 0x34, 0x35, 0, 0]);
        assert(bix.battery_type@ =~= seq![0x4Cu8, 0x69, 0x2D, 0x6F, 0x6E, 0, 0, 0]);
        assert(bix.oem_info@ =~= seq![0x42u8, 0x61, 0x74, 0x42, 0x72, 0x6F, 0x73, 0]);
    }
    bix
}

/// The time at which the simulated clock stands: the first of January
/// 2026, midnight, eight hours behind UTC, no daylight saving.
pub fn get_real_time() -> (time: Timestamp)
    ensures
        time == (Timestamp {
            datetime: DateTime { year: 2026, month: 1, day: 1, hour: 0, minute: 0, second: 0 },
            time_zone: TimeZone::MinutesFromUtc(-480i16),
            dst_status: DstStatus::NotObserved,
        }),
{
    Timestamp {
        datetime: DateTime { year: 2026, month: 1, day: 1, hour: 0, minute: 0, second: 0 },
        time_zone: TimeZone::MinutesFromUtc(-8 * 60),
        dst_status: DstStatus::NotObserved,
    }
}

} // verus!
