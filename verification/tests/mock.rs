use ec_demo::battery::{BatterySwapCapability, BatteryTechnology, BstData, PowerUnit};
use ec_demo::mock::{
    get_bix, get_real_time, BatteryCycle, TemperatureWave, MAX_CAPACITY, RATE,
    TEMPERATURE_HIGH, TEMPERATURE_LOW, TEMPERATURE_STEP,
};
use ec_demo::rtc::{DateTime, DstStatus, TimeZone, Timestamp};

#[test]
fn mock_constants() {
    assert_eq!(TEMPERATURE_LOW, 2732);
    assert_eq!(TEMPERATURE_HIGH, 3232);
    assert_eq!(TEMPERATURE_STEP, 10);
    assert_eq!(MAX_CAPACITY, 10000);
    assert_eq!(RATE, 1000);
}

#[test]
fn temperature_rises_and_falls_between_the_bounds() {
    let mut wave = TemperatureWave::new();
    let mut readings = Vec::new();
    for _ in 0..100 {
        readings.push(wave.next());
    }
    // fifty steps up, fifty steps down
    for (i, reading) in readings.iter().enumerate() {
        let expected = if i < 50 { 2742 + 10 * i as u32 } else { 3222 - 10 * (i as u32 - 50) };
        assert_eq!(*reading, expected);
    }
    assert_eq!(readings[49], 3232);
    assert_eq!(readings[99], 2732);
    assert_eq!(wave, TemperatureWave::new());
    assert_eq!(wave.next(), 2742);
}

fn bst(charging: bool, capacity: u32) -> BstData {
    BstData {
        discharging: !charging,
        charging,
        battery_present_rate: 3839,
        battery_remaining_capacity: capacity,
        battery_present_voltage: 12569,
    }
}

#[test]
fn battery_charges_to_full_and_discharges_to_empty() {
    let mut cycle = BatteryCycle::new();
    let mut seen = Vec::new();
    for _ in 0..22 {
        seen.push(cycle.get_bst());
    }
    let mut expected = Vec::new();
    // charging from empty to full
    for step in 0..=10 {
        expected.push(bst(true, step * 1000));
    }
    // discharging from full down to one step above empty
    for step in (1..=10).rev() {
        expected.push(bst(false, step * 1000));
    }
    // and charging again from empty
    expected.push(bst(true, 0));
    assert_eq!(seen, expected);
}

#[test]
fn mock_battery_information() {
    let bix = get_bix();
    assert_eq!(bix.revision, 1);
    assert_eq!(bix.power_unit, PowerUnit::MilliWatts);
    assert_eq!(bix.design_capacity, 10000);
    assert_eq!(bix.last_full_charge_capacity, 9890);
    assert_eq!(bix.battery_technology, BatteryTechnology::Primary);
    assert_eq!(bix.design_voltage, 13000);
    assert_eq!(bix.design_cap_of_warning, 5000);
    assert_eq!(bix.design_cap_of_low, 3000);
    assert_eq!(bix.cycle_count, 1337);
    assert_eq!(bix.measurement_accuracy, 80000);
    assert_eq!(bix.max_sampling_time, 42);
    assert_eq!(bix.min_sampling_time, 7);
    assert_eq!(bix.max_averaging_interval, 5);
    assert_eq!(bix.min_averaging_interval, 1);
    assert_eq!(bix.battery_capacity_granularity_1, 10);
    assert_eq!(bix.battery_capacity_granularity_2, 10);
    assert_eq!(&bix.model_number, b"42.0\0\0\0\0");
    assert_eq!(&bix.serial_number, b"123-45\0\0");
    assert_eq!(&bix.battery_type, b"Li-on\0\0\0");
    assert_eq!(&bix.oem_info, b"BatBros\0");
    assert_eq!(bix.battery_swapping_capability, BatterySwapCapability::ColdSwappable);
}

#[test]
fn mock_clock_stands_at_new_year_2026() {
    assert_eq!(
        get_real_time(),
        Timestamp {
            datetime: DateTime { year: 2026, month: 1, day: 1, hour: 0, minute: 0, second: 0 },
            time_zone: TimeZone::MinutesFromUtc(-480),
            dst_status: DstStatus::NotObserved,
        }
    );
}
