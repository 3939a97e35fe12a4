use ec_demo::battery::{
    charge_level, BatterySwapCapability, BatteryTechnology, BixData, BstData, ChargeLevel,
    PowerUnit,
};
use ec_demo::samples::SampleBuf;

#[test]
fn buffer_keeps_the_latest_samples_in_order() {
    let mut buf: SampleBuf<u32, 3> = SampleBuf::new();
    assert_eq!(buf.len(), 0);
    assert!(buf.as_slice().is_empty());
    buf.insert(1);
    buf.insert(2);
    assert_eq!(buf.as_slice(), &[1, 2]);
    buf.insert(3);
    assert_eq!(buf.as_slice(), &[1, 2, 3]);
    buf.insert(4);
    assert_eq!(buf.as_slice(), &[2, 3, 4]);
    buf.insert(5);
    assert_eq!(buf.as_slice(), &[3, 4, 5]);
    assert_eq!(buf.len(), 3);
    assert_eq!(*buf.get(0), 3);
    assert_eq!(*buf.get(2), 5);
}

#[test]
fn buffer_of_one_and_of_none() {
    let mut one: SampleBuf<&str, 1> = SampleBuf::default();
    one.insert("a");
    one.insert("b");
    assert_eq!(one.as_slice(), &["b"]);
    let mut none: SampleBuf<u8, 0> = SampleBuf::default();
    none.insert(7);
    assert_eq!(none.len(), 0);
}

#[test]
fn buffer_holds_what_does_not_copy() {
    let mut buf: SampleBuf<String, 2> = SampleBuf::new();
    buf.insert("first".to_string());
    buf.insert("second".to_string());
    buf.insert("third".to_string());
    assert_eq!(buf.as_slice().to_vec(), vec!["second".to_string(), "third".to_string()]);
}

fn status(remaining: u32) -> BstData {
    BstData {
        discharging: true,
        charging: false,
        battery_present_rate: 0,
        battery_remaining_capacity: remaining,
        battery_present_voltage: 0,
    }
}

fn info(warning: u32, low: u32) -> BixData {
    BixData {
        revision: 1,
        power_unit: PowerUnit::MilliAmps,
        design_capacity: 10000,
        last_full_charge_capacity: 0,
        battery_technology: BatteryTechnology::Secondary,
        design_voltage: 0,
        design_cap_of_warning: warning,
        design_cap_of_low: low,
        cycle_count: 0,
        measurement_accuracy: 0,
        max_sampling_time: 0,
        min_sampling_time: 0,
        max_averaging_interval: 0,
        min_averaging_interval: 0,
        battery_capacity_granularity_1: 0,
        battery_capacity_granularity_2: 0,
        model_number: [0; 8],
        serial_number: [0; 8],
        battery_type: [0; 8],
        oem_info: [0; 8],
        battery_swapping_capability: BatterySwapCapability::HotSwappable,
    }
}

#[test]
fn charge_is_rated_against_the_warning_levels() {
    let bix = info(5000, 3000);
    assert_eq!(charge_level(&status(0), &bix), ChargeLevel::Low);
    assert_eq!(charge_level(&status(3000), &bix), ChargeLevel::Low);
    assert_eq!(charge_level(&status(3001), &bix), ChargeLevel::Warning);
    assert_eq!(charge_level(&status(5000), &bix), ChargeLevel::Warning);
    assert_eq!(charge_level(&status(5001), &bix), ChargeLevel::High);
    assert_eq!(charge_level(&status(u32::MAX), &bix), ChargeLevel::High);
}
