//! Temperature compensation for the distance conversion.
//!
//! Sound speed varies with temperature, which affects the distance computed
//! from an echo pulse.  A [`TemperatureProvider`] supplies the ambient
//! temperature; the speed of sound is derived from it by an exact fixed-point
//! form of the linear model `v = 331.3 * (1 + 0.00183 * T)` m/s:
//!
//! In units of 10^-13 cm/us (one such unit is exactly 1 nm/s), and with the
//! temperature given in thousandths of a degree Celsius, the model is the
//! integer polynomial
//!
//! `speed = 331_300_000_000 + 606_279 * t_millicelsius`
//!
//! since `331.3 m/s = 331_300_000_000 nm/s` and
//! `331.3 * 0.00183 / 1000 m/s = 606_279 nm/s` per thousandth of a degree.
//! [`NoTemperatureCompensation`] is the canonical no-op provider: it always
//! reports 20 degrees Celsius and never fails.

use vstd::prelude::*;

verus! {

/// Least temperature a provider may report: absolute zero, -273.15 C,
/// in thousandths of a degree Celsius.
pub const MIN_TEMPERATURE_MILLICELSIUS: i32 = -273_150;

/// Greatest temperature a provider may report, in thousandths of a degree
/// Celsius: 1000 C, far above anything ambient; it keeps every product the
/// distance conversion forms inside `u64`.
pub const MAX_TEMPERATURE_MILLICELSIUS: i32 = 1_000_000;

/// The speed of sound at `t` thousandths of a degree Celsius, in units of
/// 10^-13 cm/us (equivalently nm/s): the exact fixed-point value of
/// `(331.3 * (1 + 0.00183 * T)) / 10000` cm/us.
pub open spec fn sound_speed_model(t_millicelsius: int) -> int {
    331_300_000_000 + 606_279 * t_millicelsius
}

/// The one executable form of the speed-of-sound formula: the exact value
/// of [`sound_speed_model`], total over every `i32` temperature.
pub fn sound_speed_fixed_point(t_millicelsius: i32) -> (r: i64)
    ensures
        r == sound_speed_model(t_millicelsius as int),
{
    331_300_000_000i64 + 606_279i64 * (t_millicelsius as i64)
}

/// Trait for temperature compensation.
///
/// Implementers supply an ambient temperature reading; the speed of sound
/// follows from it by the fixed-point model above.
pub trait TemperatureProvider {
    /// Error type of the temperature source, opaque to the engine.
    type Error;

    /// Whether this provider's temperature read can ever fail.  A real
    /// sensor leaves the default; a provider that can show its reads always
    /// succeed may override it with `false`.
    open spec fn may_fail(&self) -> bool {
        true
    }

    /// Current temperature in thousandths of a degree Celsius.
    ///
    /// A reading that succeeds lies between absolute zero and
    /// [`MAX_TEMPERATURE_MILLICELSIUS`]; a read fails only if the provider
    /// [may fail](Self::may_fail) at all.
    fn temperature_millicelsius(&self) -> (r: Result<i32, Self::Error>)
        ensures
            r matches Ok(t) ==> MIN_TEMPERATURE_MILLICELSIUS <= t
                <= MAX_TEMPERATURE_MILLICELSIUS,
            r is Err ==> self.may_fail(),
    ;

    /// Temperature-compensated speed of sound in units of 10^-13 cm/us
    /// (equivalently nm/s), for a temperature in thousandths of a degree
    /// Celsius: a total, pure function of the temperature alone.
    fn sound_speed_cm_per_us(&self, t_millicelsius: i32) -> (r: i64)
        ensures
            r == sound_speed_model(t_millicelsius as int),
    {
        sound_speed_fixed_point(t_millicelsius)
    }
}

/// No-op temperature provider for applications that do not need temperature
/// compensation: always reports the standard 20 C and never fails.
#[derive(Clone, Copy, Debug)]
pub struct NoTemperatureCompensation;

impl TemperatureProvider for NoTemperatureCompensation {
    type Error = ();

    open spec fn may_fail(&self) -> bool {
        false
    }

    /// Always the standard 20 C; never fails.
    fn temperature_millicelsius(&self) -> (r: Result<i32, ()>)
        ensures
            r == Ok::<i32, ()>(20_000),
    {
        Ok(20_000)
    }
}

} // verus!
