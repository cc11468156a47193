use quiz_terminal::battery::{
    get_battery_level, get_battery_voltage, sample_interval_secs, to_capacity,
};

#[test]
fn voltage_undoes_the_divider() {
    assert_eq!(get_battery_voltage(100), 200);
    assert_eq!(get_battery_voltage(2150), 4300);
}

#[test]
fn known_discharge_points() {
    // 1800 raw -> 3600 mV -> bucket 60 of the discharge table.
    assert_eq!(get_battery_level(1800), Some(40));
    // 0 raw -> 0 mV, clamped to the bottom of the table.
    assert_eq!(get_battery_level(0), Some(0));
    // 2080 raw -> 4160 mV, the lowest voltage the table calls full.
    assert_eq!(get_battery_level(2080), Some(100));
}

#[test]
fn charging_is_reported_as_unknown() {
    // 2200 raw -> 4400 mV, above the charging threshold.
    assert_eq!(get_battery_level(2200), None);
    // Exactly at the threshold the level is still a percentage.
    assert_eq!(get_battery_level(2150), Some(100));
    // Just above it the reading means "charging".
    assert_eq!(get_battery_level(2151), None);
}

#[test]
fn capacity_clamps_out_of_range_voltages() {
    assert_eq!(to_capacity(0), 0);
    assert_eq!(to_capacity(2999), 0);
    assert_eq!(to_capacity(3000), 0);
    assert_eq!(to_capacity(4200), 100);
    assert_eq!(to_capacity(5000), 100);
}

#[test]
fn estimates_are_percentages_and_monotone() {
    let mut previous = 0u8;
    for raw in 0..=2150u16 {
        let level = get_battery_level(raw).expect("at or below the threshold");
        assert!(level <= 100);
        assert!(previous <= level);
        previous = level;
    }
}

#[test]
fn sampling_cadence_adapts_to_charging() {
    assert_eq!(sample_interval_secs(Some(50)), 60);
    assert_eq!(sample_interval_secs(Some(0)), 60);
    assert_eq!(sample_interval_secs(None), 2);
}
