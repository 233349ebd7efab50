use hcsr04::hcsr04::{distance_for_temperature, measurement_result, run_events, Event, Hcsr04};
use hcsr04::{Error, NoTemperatureCompensation, TemperatureProvider};

#[test]
fn sound_speed_follows_the_formula() {
    let provider = NoTemperatureCompensation;
    // 10^-13 cm/us units: exactly (331.3 * (1 + 0.00183 * T)) / 10000 cm/us
    assert_eq!(provider.sound_speed_cm_per_us(0), 331_300_000_000);
    assert_eq!(provider.sound_speed_cm_per_us(20_000), 343_425_580_000);
    assert_eq!(provider.sound_speed_cm_per_us(-10_000), 325_237_210_000);
    let cm_per_us = provider.sound_speed_cm_per_us(20_000) as f64 / 1.0e13;
    let formula = (331.3 * (1.0 + 0.00183 * 20.0)) / 10000.0;
    assert!((cm_per_us - formula).abs() < 1.0e-9);
}

#[test]
fn distance_increases_with_pulse_width() {
    let shorter = distance_for_temperature(999, 20_000);
    let longer = distance_for_temperature(1000, 20_000);
    assert!(shorter.round_trip_fm < longer.round_trip_fm);
}

#[test]
fn distance_increases_with_temperature() {
    let colder = distance_for_temperature(1000, 19_999);
    let warmer = distance_for_temperature(1000, 20_000);
    assert!(colder.round_trip_fm < warmer.round_trip_fm);
    let freezing = distance_for_temperature(1000, 0);
    assert!(freezing.round_trip_fm < colder.round_trip_fm);
}

#[test]
fn round_trip_sanity_at_twenty_degrees() {
    // 1000 us at 20 C: (1000 * 0.0343425580) / 2 = 17.17 cm, about 17.2 cm
    let d = distance_for_temperature(1000, 20_000);
    assert_eq!(d.round_trip_fm, 343_425_580_000_000);
    assert_eq!(d.micrometers(), 171_712);
    let cm = d.round_trip_fm as f64 / 2.0e13;
    assert!((cm - 17.2).abs() < 0.05);
}

#[test]
fn pulse_widths_beyond_the_timeout_bound_still_convert() {
    // the conversion is total over u32, as wide as the original's
    let wide = distance_for_temperature(100_000, 20_000);
    assert_eq!(wide.round_trip_fm, 34_342_558_000_000_000);
    let widest = distance_for_temperature(u32::MAX, 20_000);
    assert_eq!(widest.round_trip_fm, 1_475_001_634_366_406_100_000);
}

#[test]
fn zero_pulse_is_zero_distance() {
    let d = distance_for_temperature(0, 20_000);
    assert_eq!(d.round_trip_fm, 0);
    assert_eq!(d.micrometers(), 0);
}

#[test]
fn pulse_width_to_cm_uses_the_default_twenty_degrees() {
    let engine = Hcsr04::new(NoTemperatureCompensation);
    let d = engine.pulse_width_to_cm(1000).unwrap();
    assert_eq!(d.round_trip_fm, 343_425_580_000_000);
}

struct BrokenThermometer;

impl TemperatureProvider for BrokenThermometer {
    type Error = &'static str;

    fn temperature_millicelsius(&self) -> Result<i32, &'static str> {
        Err("open circuit")
    }
}

#[test]
fn failing_temperature_provider_blocks_only_the_conversion() {
    let engine = Hcsr04::new(BrokenThermometer);
    assert_eq!(
        engine.pulse_width_to_cm(1000),
        Err(Error::Temperature("Failed to read temperature"))
    );
    // the raw ranging path does not consult the thermometer at all
    let evs = vec![
        Event::PinSetOk,
        Event::Delayed,
        Event::PinSetOk,
        Event::Delayed,
        Event::PinSetOk,
        Event::EchoHigh,
        Event::EchoHigh,
        Event::Delayed,
        Event::EchoLow,
    ];
    assert_eq!(measurement_result(&run_events(&evs)), Ok(1));
}
