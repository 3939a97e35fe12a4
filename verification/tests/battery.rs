use ec_demo::battery::{
    bat_tech_as_str, charge_state_as_str, power_unit_as_capacity_str, power_unit_as_rate_str,
    str_from_bytes, swap_cap_as_str, BatterySwapCapability, BatteryTechnology, BstData,
    PowerUnit, SampleClock, SAMPLE_PERIOD_SECS,
};

fn status(discharging: bool, charging: bool) -> BstData {
    BstData {
        discharging,
        charging,
        battery_present_rate: 1,
        battery_remaining_capacity: 2,
        battery_present_voltage: 3,
    }
}

#[test]
fn identifier_text_stops_at_the_first_zero() {
    assert_eq!(str_from_bytes(&[b'4', b'2', b'.', b'0', 0, 0, 0, 0]), "42.0");
    assert_eq!(str_from_bytes(b"BatBros\0"), "BatBros");
    assert_eq!(str_from_bytes(b"ab\0cd\0"), "ab");
    assert_eq!(str_from_bytes(&[0, b'x']), "");
    assert_eq!(str_from_bytes(&[0]), "");
}

#[test]
fn identifier_without_zero_is_invalid() {
    assert_eq!(str_from_bytes(b"12345678"), "Invalid");
    assert_eq!(str_from_bytes(&[]), "Invalid");
}

#[test]
fn identifier_with_malformed_text_is_invalid() {
    assert_eq!(str_from_bytes(&[0xFF, 0xFE, 0]), "Invalid");
    assert_eq!(str_from_bytes(&[0xC3, 0]), "Invalid");
    // malformed bytes behind the terminator do not matter
    assert_eq!(str_from_bytes(&[b'o', b'k', 0, 0xFF]), "ok");
}

#[test]
fn identifier_may_hold_any_well_formed_text() {
    assert_eq!(str_from_bytes("Li-ion é\0".as_bytes()), "Li-ion é");
    assert_eq!(str_from_bytes("電池\0\0".as_bytes()), "電池");
}

#[test]
fn charge_state_in_words() {
    assert_eq!(charge_state_as_str(&status(true, false)), "Discharging");
    assert_eq!(charge_state_as_str(&status(false, true)), "Charging");
    assert_eq!(charge_state_as_str(&status(false, false)), "Charging");
    assert_eq!(charge_state_as_str(&status(true, true)), "Discharging");
}

#[test]
fn units_and_kinds_in_words() {
    assert_eq!(power_unit_as_capacity_str(PowerUnit::MilliWatts), "mWh");
    assert_eq!(power_unit_as_capacity_str(PowerUnit::MilliAmps), "mAh");
    assert_eq!(power_unit_as_rate_str(PowerUnit::MilliWatts), "mW");
    assert_eq!(power_unit_as_rate_str(PowerUnit::MilliAmps), "mA");
    assert_eq!(bat_tech_as_str(BatteryTechnology::Primary), "Primary");
    assert_eq!(bat_tech_as_str(BatteryTechnology::Secondary), "Secondary");
    assert_eq!(swap_cap_as_str(BatterySwapCapability::NonSwappable), "Non swappable");
    assert_eq!(swap_cap_as_str(BatterySwapCapability::ColdSwappable), "Cold swappable");
    assert_eq!(swap_cap_as_str(BatterySwapCapability::HotSwappable), "Hot swappable");
}

#[test]
fn a_sample_is_taken_every_sixtieth_cycle() {
    assert_eq!(SAMPLE_PERIOD_SECS, 60);
    let mut clock = SampleClock::new();
    let mut taken = Vec::new();
    for cycle in 0..181 {
        if clock.tick(false) {
            taken.push(cycle);
        }
    }
    assert_eq!(taken, vec![0, 60, 120, 180]);
    assert_eq!(clock, SampleClock { t_sec: 181, t_min: 4 });
}

#[test]
fn a_sample_is_taken_every_cycle_on_demand() {
    let mut clock = SampleClock::new();
    for _ in 0..5 {
        assert!(clock.tick(true));
    }
    assert_eq!(clock, SampleClock { t_sec: 5, t_min: 5 });
    assert!(!clock.tick(false));
    assert_eq!(clock, SampleClock { t_sec: 6, t_min: 5 });
}
