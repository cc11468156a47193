//! Capacity estimator: maps a raw analog sample to a battery percentage,
//! or to "charging, unknown level" when the effective voltage is too high
//! for the hardware to tell a full battery from a charging one.

use vstd::prelude::*;

verus! {

/// The battery is connected to the sampling pin through a voltage divider
/// `V_ADC = R7/(R6+R7) * V_BAT`, so `V_BAT = ADC_MULTIPLIER * V_ADC`.
pub const ADC_MULTIPLIER: u16 = 2;

/// While charging, the sampled voltage sits well above any voltage a
/// discharging battery can show. Above this line (in mV) the level is
/// reported as unknown rather than clamped to 100%.
pub const CHARGING_THRESHOLD: u16 = 4300;

/// Lowest voltage (in mV) the discharge table covers.
pub const LOOKUP_START: u16 = 3000;

/// Highest voltage (in mV) the discharge table covers.
pub const LOOKUP_END: u16 = 4200;

/// Width of one voltage bucket of the discharge table, in mV.
pub const LOOKUP_RESOLUTION: u16 = 10;

/// Number of buckets of the discharge table: one per `LOOKUP_RESOLUTION`
/// from `LOOKUP_START` to `LOOKUP_END` inclusive.
pub const LOOKUP_SIZE: u16 = 121;

/// Capacity (in percent) for bucket `i` of the discharge table, where
/// bucket `i` stands for the voltage `LOOKUP_START + i * LOOKUP_RESOLUTION`.
/// The values are a design constant, fitted once from the battery's
/// discharge curve; they rise from 0 to 100 as the voltage rises.
pub open spec fn bucket_capacity(i: int) -> u8 {
    if i < 7 { 0 } else if i < 15 { 1 } else if i < 20 { 2 } else if i < 23 { 3 }
    else if i < 26 { 4 } else if i < 28 { 5 } else if i < 31 { 6 } else if i < 32 { 7 }
    else if i < 34 { 8 } else if i < 36 { 9 } else if i < 37 { 10 } else if i < 38 { 11 }
    else if i < 40 { 12 } else if i < 41 { 13 } else if i < 42 { 14 } else if i < 43 { 15 }
    else if i < 44 { 16 } else if i < 45 { 17 } else if i < 46 { 18 } else if i < 47 { 20 }
    else if i < 48 { 21 } else if i < 49 { 22 } else if i < 50 { 23 } else if i < 51 { 25 }
    else if i < 52 { 26 } else if i < 53 { 28 } else if i < 54 { 29 } else if i < 55 { 31 }
    else if i < 56 { 32 } else if i < 57 { 34 } else if i < 58 { 35 } else if i < 59 { 37 }
    else if i < 60 { 39 } else if i < 61 { 40 } else if i < 62 { 42 } else if i < 63 { 44 }
    else if i < 64 { 46 } else if i < 65 { 47 } else if i < 66 { 49 } else if i < 67 { 51 }
    else if i < 68 { 53 } else if i < 69 { 55 } else if i < 70 { 56 } else if i < 71 { 58 }
    else if i < 72 { 60 } else if i < 73 { 62 } else if i < 74 { 63 } else if i < 75 { 65 }
    else if i < 76 { 67 } else if i < 77 { 68 } else if i < 78 { 70 } else if i < 79 { 71 }
    else if i < 80 { 73 } else if i < 81 { 74 } else if i < 82 { 75 } else if i < 83 { 77 }
    else if i < 84 { 78 } else if i < 85 { 79 } else if i < 86 { 81 } else if i < 87 { 82 }
    else if i < 88 { 83 } else if i < 89 { 84 } else if i < 90 { 85 } else if i < 91 { 86 }
    else if i < 92 { 87 } else if i < 93 { 88 } else if i < 95 { 89 } else if i < 96 { 90 }
    else if i < 97 { 91 } else if i < 99 { 92 } else if i < 101 { 93 } else if i < 102 { 94 }
    else if i < 104 { 95 } else if i < 107 { 96 } else if i < 109 { 97 } else if i < 112 { 98 }
    else if i < 116 { 99 } else { 100 }
}

/// Which bucket of the discharge table a voltage (in mV) falls in, after
/// clamping the voltage to the supported range.
pub open spec fn voltage_bucket(v: int) -> int {
    if v <= LOOKUP_START as int {
        0
    } else if v >= LOOKUP_END as int {
        LOOKUP_SIZE as int - 1
    } else {
        (v - LOOKUP_START as int) / LOOKUP_RESOLUTION as int
    }
}

/// Capacity (in percent) of a battery showing voltage `v` (in mV).
pub open spec fn capacity_of_voltage(v: int) -> u8 {
    bucket_capacity(voltage_bucket(v))
}

/// What the estimator returns for a raw sample: `None` above the charging
/// threshold, otherwise the table capacity of the effective voltage.
pub open spec fn spec_battery_level(adc_reading: int) -> Option<u8> {
    if ADC_MULTIPLIER as int * adc_reading > CHARGING_THRESHOLD as int {
        None
    } else {
        Some(capacity_of_voltage(ADC_MULTIPLIER as int * adc_reading))
    }
}

/// Effective battery voltage (in mV) for a raw sample, undoing the
/// voltage divider.
pub fn get_battery_voltage(adc_reading: u16) -> (v: u16)
    requires
        adc_reading <= u16::MAX / ADC_MULTIPLIER,
    ensures
        v == ADC_MULTIPLIER as int * adc_reading as int,
{
    adc_reading * ADC_MULTIPLIER
}

/// Capacity (in percent) of bucket `i` of the discharge table.
fn bucket_lookup(i: u16) -> (p: u8)
    requires
        i < LOOKUP_SIZE,
    ensures
        p == bucket_capacity(i as int),
{
    if i < 7 { 0 } else if i < 15 { 1 } else if i < 20 { 2 } else if i < 23 { 3 }
    else if i < 26 { 4 } else if i < 28 { 5 } else if i < 31 { 6 } else if i < 32 { 7 }
    else if i < 34 { 8 } else if i < 36 { 9 } else if i < 37 { 10 } else if i < 38 { 11 }
    else if i < 40 { 12 } else if i < 41 { 13 } else if i < 42 { 14 } else if i < 43 { 15 }
    else if i < 44 { 16 } else if i < 45 { 17 } else if i < 46 { 18 } else if i < 47 { 20 }
    else if i < 48 { 21 } else if i < 49 { 22 } else if i < 50 { 23 } else if i < 51 { 25 }
    else if i < 52 { 26 } else if i < 53 { 28 } else if i < 54 { 29 } else if i < 55 { 31 }
    else if i < 56 { 32 } else if i < 57 { 34 } else if i < 58 { 35 } else if i < 59 { 37 }
    else if i < 60 { 39 } else if i < 61 { 40 } else if i < 62 { 42 } else if i < 63 { 44 }
    else if i < 64 { 46 } else if i < 65 { 47 } else if i < 66 { 49 } else if i < 67 { 51 }
    else if i < 68 { 53 } else if i < 69 { 55 } else if i < 70 { 56 } else if i < 71 { 58 }
    else if i < 72 { 60 } else if i < 73 { 62 } else if i < 74 { 63 } else if i < 75 { 65 }
    else if i < 76 { 67 } else if i < 77 { 68 } else if i < 78 { 70 } else if i < 79 { 71 }
    else if i < 80 { 73 } else if i < 81 { 74 } else if i < 82 { 75 } else if i < 83 { 77 }
    else if i < 84 { 78 } else if i < 85 { 79 } else if i < 86 { 81 } else if i < 87 { 82 }
    else if i < 88 { 83 } else if i < 89 { 84 } else if i < 90 { 85 } else if i < 91 { 86 }
    else if i < 92 { 87 } else if i < 93 { 88 } else if i < 95 { 89 } else if i < 96 { 90 }
    else if i < 97 { 91 } else if i < 99 { 92 } else if i < 101 { 93 } else if i < 102 { 94 }
    else if i < 104 { 95 } else if i < 107 { 96 } else if i < 109 { 97 } else if i < 112 { 98 }
    else if i < 116 { 99 } else { 100 }
}

/// Maps battery voltage (in mV) to battery capacity (in %), clamping the
/// voltage into the range the discharge table covers.
pub fn to_capacity(voltage: u16) -> (p: u8)
    ensures
        p == capacity_of_voltage(voltage as int),
{
    let clamped = if voltage < LOOKUP_START {
        LOOKUP_START
    } else if voltage > LOOKUP_END {
        LOOKUP_END
    } else {
        voltage
    };
    let i = (clamped - LOOKUP_START) / LOOKUP_RESOLUTION;
    bucket_lookup(i)
}

/// Maps a raw analog sample to battery capacity (in %).
/// Returns `None` if the battery is charging.
pub fn get_battery_level(adc_reading: u16) -> (level: Option<u8>)
    requires
        adc_reading <= u16::MAX / ADC_MULTIPLIER,
    ensures
        level == spec_battery_level(adc_reading as int),
{
    let voltage = get_battery_voltage(adc_reading);
    if voltage > CHARGING_THRESHOLD {
        return None;
    }
    Some(to_capacity(voltage))
}

/// Seconds between samples while the level is known: long, so steady
/// discharge does not flood the event bus.
pub const KNOWN_LEVEL_INTERVAL_SECS: u64 = 60;

/// Seconds between samples while charging (level unknown): short, so the
/// display reflects charge transitions responsively.
pub const CHARGING_INTERVAL_SECS: u64 = 2;

/// How long the battery sampler sleeps after emitting a reading: the
/// cadence adapts to whether the level is known.
pub fn sample_interval_secs(level: Option<u8>) -> (secs: u64)
    ensures
        level is Some ==> secs == KNOWN_LEVEL_INTERVAL_SECS,
        level is None ==> secs == CHARGING_INTERVAL_SECS,
{
    match level {
        Some(_) => KNOWN_LEVEL_INTERVAL_SECS,
        None => CHARGING_INTERVAL_SECS,
    }
}

/// Law: the estimator returns a percentage exactly when the effective
/// voltage is at or below the charging threshold, and that percentage is
/// between 0 and 100.
pub proof fn lemma_estimate_in_range(adc_reading: int)
    ensures
        spec_battery_level(adc_reading) is Some <==> ADC_MULTIPLIER as int * adc_reading
            <= CHARGING_THRESHOLD as int,
        spec_battery_level(adc_reading) matches Some(p) ==> p <= 100,
{
}

/// Law: for two samples whose effective voltages are both at or below the
/// charging threshold, a lower sample never estimates a higher capacity.
pub proof fn lemma_estimate_monotonic(adc1: int, adc2: int)
    requires
        adc1 <= adc2,
        ADC_MULTIPLIER as int * adc2 <= CHARGING_THRESHOLD as int,
    ensures
        spec_battery_level(adc1) matches Some(p1) && spec_battery_level(adc2) matches Some(p2)
            && p1 <= p2,
{
    lemma_capacity_monotonic(ADC_MULTIPLIER as int * adc1, ADC_MULTIPLIER as int * adc2);
}

/// Law: the voltage-to-capacity mapping is monotone.
pub proof fn lemma_capacity_monotonic(v1: int, v2: int)
    requires
        v1 <= v2,
    ensures
        capacity_of_voltage(v1) <= capacity_of_voltage(v2),
{
    lemma_bucket_monotonic(v1, v2);
}

/// A lower voltage falls in a bucket no higher than a higher voltage's.
proof fn lemma_bucket_monotonic(v1: int, v2: int)
    requires
        v1 <= v2,
    ensures
        0 <= voltage_bucket(v1) <= voltage_bucket(v2) < LOOKUP_SIZE as int,
{
    if (LOOKUP_START as int) < v1 && v2 < (LOOKUP_END as int) {
        vstd::arithmetic::div_mod::lemma_div_is_ordered(
            v1 - LOOKUP_START as int,
            v2 - LOOKUP_START as int,
            LOOKUP_RESOLUTION as int,
        );
    }
    if (LOOKUP_START as int) < v1 && v1 < (LOOKUP_END as int) {
        vstd::arithmetic::div_mod::lemma_div_is_ordered(
            v1 - LOOKUP_START as int,
            LOOKUP_END as int - LOOKUP_START as int,
            LOOKUP_RESOLUTION as int,
        );
        vstd::arithmetic::div_mod::lemma_div_is_ordered(
            0,
            v1 - LOOKUP_START as int,
            LOOKUP_RESOLUTION as int,
        );
    }
    if (LOOKUP_START as int) < v2 && v2 < (LOOKUP_END as int) {
        vstd::arithmetic::div_mod::lemma_div_is_ordered(
            v2 - LOOKUP_START as int,
            LOOKUP_END as int - LOOKUP_START as int,
            LOOKUP_RESOLUTION as int,
        );
        vstd::arithmetic::div_mod::lemma_div_is_ordered(
            0,
            v2 - LOOKUP_START as int,
            LOOKUP_RESOLUTION as int,
        );
    }
}

} // verus!
