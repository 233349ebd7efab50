//! Measurement engine: the trigger/echo timing protocol and the conversion
//! from pulse width to distance.
//!
//! One measurement is a fixed sequence of pin operations and microsecond
//! delays: force the trigger low, settle, hold it high for the trigger pulse,
//! drop it, then poll the echo pin for its rising and falling edges, each
//! wait bounded by a timeout.  The sequence is modelled as an explicit state
//! machine: a [`State`] names the next pin or timer operation the engine is
//! waiting on ([`pending_action`]), and [`step`] advances the state by the
//! [`Event`] the hardware answered with.  The caller that owns the pins runs
//! the loop: perform the pending action, hand back the event, until the
//! machine [is finished](State::is_finished).  The machine itself never
//! touches hardware, so every transition, the timeout policy, and the final
//! pulse width are verified.

use vstd::prelude::*;

use crate::error::Error;
use crate::temperature::{
    sound_speed_model, TemperatureProvider, MAX_TEMPERATURE_MILLICELSIUS,
    MIN_TEMPERATURE_MILLICELSIUS,
};

verus! {

/// Longest wait, in microseconds, for an expected echo transition before the
/// measurement fails with a timeout: 35 ms, beyond the sensor's maximum
/// round trip for its rated range.
pub const TIMEOUT_US: u32 = 35_000;

/// Microseconds the trigger pin is held low before the pulse, letting the
/// line settle.
pub const SETTLE_US: u32 = 2;

/// Microseconds the trigger pin is held high: the pulse the sensor requires.
pub const TRIGGER_PULSE_US: u32 = 10;

/// What a measurement failed on.
#[derive(Clone, Copy, Debug, PartialEq, Eq, Structural)]
pub enum Fault {
    /// The trigger pin could not be driven low.
    TriggerLowFailed,
    /// The trigger pin could not be driven high.
    TriggerHighFailed,
    /// The echo pin could not be read.
    EchoReadFailed,
    /// An expected echo transition did not occur within [`TIMEOUT_US`].
    TimedOut,
}

/// The hardware operation a state is waiting on.
#[derive(Clone, Copy, Debug, PartialEq, Eq, Structural)]
pub enum Action {
    /// Drive the trigger pin low.
    SetTriggerLow,
    /// Drive the trigger pin high.
    SetTriggerHigh,
    /// Suspend for the given number of microseconds.
    DelayUs(u32),
    /// Read the level of the echo pin.
    ReadEcho,
}

/// What the hardware answered to a pending [`Action`].
#[derive(Clone, Copy, Debug, PartialEq, Eq, Structural)]
pub enum Event {
    /// The trigger pin was driven to the requested level.
    PinSetOk,
    /// Driving the trigger pin failed.
    PinSetFailed,
    /// The requested delay elapsed.
    Delayed,
    /// The echo pin read high.
    EchoHigh,
    /// The echo pin read low.
    EchoLow,
    /// Reading the echo pin failed.
    EchoReadFailed,
}

/// One point of the measurement sequence, named by the operation the engine
/// performs next.  The counters count completed one-microsecond polling
/// steps.
#[derive(Clone, Copy, Debug, PartialEq, Eq, Structural)]
pub enum State {
    /// Start of a measurement: the trigger pin is about to be driven low.
    Idle,
    /// The trigger pin is low; the [`SETTLE_US`] settle delay is running.
    SettleDelay,
    /// The trigger pin is about to be driven high.
    RaiseTrigger,
    /// The trigger pin is high; the [`TRIGGER_PULSE_US`] delay is running.
    HoldDelay,
    /// The trigger pin is about to be driven low again, ending the pulse.
    DropTrigger,
    /// Polling for the rising edge of the echo; the field counts the
    /// microseconds waited so far.
    AwaitEchoRise(u32),
    /// The echo still read low; one polling-step delay is running.
    EchoRiseDelay(u32),
    /// Polling for the falling edge of the echo; the field counts the
    /// microseconds the echo has been high.
    AwaitEchoFall(u32),
    /// The echo still read high; one polling-step delay is running.
    EchoFallDelay(u32),
    /// The measurement succeeded; the field is the pulse width in
    /// microseconds.
    Done(u32),
    /// The measurement failed.
    Failed(Fault),
}

impl State {
    /// Well-formedness: no counter has run past the timeout bound, and a
    /// measured pulse width is itself bounded by it.
    pub open spec fn wf(self) -> bool {
        match self {
            State::AwaitEchoRise(n) => n <= TIMEOUT_US,
            State::AwaitEchoFall(n) => n <= TIMEOUT_US,
            State::EchoRiseDelay(n) => n < TIMEOUT_US,
            State::EchoFallDelay(n) => n < TIMEOUT_US,
            State::Done(n) => n <= TIMEOUT_US,
            _ => true,
        }
    }

    /// Whether the measurement has run to completion, well or ill.
    pub open spec fn spec_is_finished(self) -> bool {
        self is Done || self is Failed
    }

    /// Whether the measurement has run to completion, well or ill.
    pub fn is_finished(&self) -> (r: bool)
        ensures
            r == self.spec_is_finished(),
    {
        match self {
            State::Done(_) => true,
            State::Failed(_) => true,
            _ => false,
        }
    }
}

/// The operation to perform in state `s`, or `None` once `s` is finished.
pub open spec fn spec_pending_action(s: State) -> Option<Action> {
    match s {
        State::Idle => Some(Action::SetTriggerLow),
        State::SettleDelay => Some(Action::DelayUs(SETTLE_US)),
        State::RaiseTrigger => Some(Action::SetTriggerHigh),
        State::HoldDelay => Some(Action::DelayUs(TRIGGER_PULSE_US)),
        State::DropTrigger => Some(Action::SetTriggerLow),
        State::AwaitEchoRise(_) => Some(Action::ReadEcho),
        State::EchoRiseDelay(_) => Some(Action::DelayUs(1)),
        State::AwaitEchoFall(_) => Some(Action::ReadEcho),
        State::EchoFallDelay(_) => Some(Action::DelayUs(1)),
        State::Done(_) => None,
        State::Failed(_) => None,
    }
}

/// The operation to perform in state `s`, or `None` once `s` is finished.
pub fn pending_action(s: &State) -> (r: Option<Action>)
    ensures
        r == spec_pending_action(*s),
{
    match s {
        State::Idle => Some(Action::SetTriggerLow),
        State::SettleDelay => Some(Action::DelayUs(SETTLE_US)),
        State::RaiseTrigger => Some(Action::SetTriggerHigh),
        State::HoldDelay => Some(Action::DelayUs(TRIGGER_PULSE_US)),
        State::DropTrigger => Some(Action::SetTriggerLow),
        State::AwaitEchoRise(_) => Some(Action::ReadEcho),
        State::EchoRiseDelay(_) => Some(Action::DelayUs(1)),
        State::AwaitEchoFall(_) => Some(Action::ReadEcho),
        State::EchoFallDelay(_) => Some(Action::DelayUs(1)),
        State::Done(_) => None,
        State::Failed(_) => None,
    }
}

/// The transition relation of the engine.  An event that does not answer the
/// pending action of `s`, and any event in a finished state, leaves the
/// state unchanged.
pub open spec fn spec_step(s: State, e: Event) -> State {
    match (s, e) {
        (State::Idle, Event::PinSetOk) => State::SettleDelay,
        (State::Idle, Event::PinSetFailed) => State::Failed(Fault::TriggerLowFailed),
        (State::SettleDelay, Event::Delayed) => State::RaiseTrigger,
        (State::RaiseTrigger, Event::PinSetOk) => State::HoldDelay,
        (State::RaiseTrigger, Event::PinSetFailed) => State::Failed(Fault::TriggerHighFailed),
        (State::HoldDelay, Event::Delayed) => State::DropTrigger,
        (State::DropTrigger, Event::PinSetOk) => State::AwaitEchoRise(0),
        (State::DropTrigger, Event::PinSetFailed) => State::Failed(Fault::TriggerLowFailed),
        (State::AwaitEchoRise(_), Event::EchoHigh) => State::AwaitEchoFall(0),
        (State::AwaitEchoRise(n), Event::EchoLow) => if n >= TIMEOUT_US {
            State::Failed(Fault::TimedOut)
        } else {
            State::EchoRiseDelay(n)
        },
        (State::AwaitEchoRise(_), Event::EchoReadFailed) => State::Failed(Fault::EchoReadFailed),
        (State::EchoRiseDelay(n), Event::Delayed) => State::AwaitEchoRise((n + 1) as u32),
        (State::AwaitEchoFall(n), Event::EchoHigh) => if n >= TIMEOUT_US {
            State::Failed(Fault::TimedOut)
        } else {
            State::EchoFallDelay(n)
        },
        (State::AwaitEchoFall(n), Event::EchoLow) => State::Done(n),
        (State::AwaitEchoFall(_), Event::EchoReadFailed) => State::Failed(Fault::EchoReadFailed),
        (State::EchoFallDelay(n), Event::Delayed) => State::AwaitEchoFall((n + 1) as u32),
        _ => s,
    }
}

/// Advance the measurement by one hardware answer.
pub fn step(s: State, e: Event) -> (r: State)
    requires
        s.wf(),
    ensures
        r == spec_step(s, e),
        r.wf(),
{
    match (s, e) {
        (State::Idle, Event::PinSetOk) => State::SettleDelay,
        (State::Idle, Event::PinSetFailed) => State::Failed(Fault::TriggerLowFailed),
        (State::SettleDelay, Event::Delayed) => State::RaiseTrigger,
        (State::RaiseTrigger, Event::PinSetOk) => State::HoldDelay,
        (State::RaiseTrigger, Event::PinSetFailed) => State::Failed(Fault::TriggerHighFailed),
        (State::HoldDelay, Event::Delayed) => State::DropTrigger,
        (State::DropTrigger, Event::PinSetOk) => State::AwaitEchoRise(0),
        (State::DropTrigger, Event::PinSetFailed) => State::Failed(Fault::TriggerLowFailed),
        (State::AwaitEchoRise(_), Event::EchoHigh) => State::AwaitEchoFall(0),
        (State::AwaitEchoRise(n), Event::EchoLow) => if n >= TIMEOUT_US {
            State::Failed(Fault::TimedOut)
        } else {
            State::EchoRiseDelay(n)
        },
        (State::AwaitEchoRise(_), Event::EchoReadFailed) => State::Failed(Fault::EchoReadFailed),
        (State::EchoRiseDelay(n), Event::Delayed) => State::AwaitEchoRise(n + 1),
        (State::AwaitEchoFall(n), Event::EchoHigh) => if n >= TIMEOUT_US {
            State::Failed(Fault::TimedOut)
        } else {
            State::EchoFallDelay(n)
        },
        (State::AwaitEchoFall(n), Event::EchoLow) => State::Done(n),
        (State::AwaitEchoFall(_), Event::EchoReadFailed) => State::Failed(Fault::EchoReadFailed),
        (State::EchoFallDelay(n), Event::Delayed) => State::AwaitEchoFall(n + 1),
        _ => s,
    }
}

/// The state a measurement that starts at `s` reaches after answering each
/// event of `evs` in turn.
pub open spec fn spec_run(s: State, evs: Seq<Event>) -> State
    decreases evs.len(),
{
    if evs.len() == 0 {
        s
    } else {
        spec_run(spec_step(s, evs[0]), evs.drop_first())
    }
}

/// Run one whole measurement over a recorded sequence of hardware answers,
/// starting from [`State::Idle`].
pub fn run_events(events: &Vec<Event>) -> (r: State)
    ensures
        r == spec_run(State::Idle, events@),
        r.wf(),
{
    let mut s = State::Idle;
    let mut i: usize = 0;
    proof {
        assert(events@.skip(0) =~= events@);
    }
    while i < events.len()
        invariant
            i <= events@.len(),
            s.wf(),
            spec_run(State::Idle, events@) == spec_run(s, events@.skip(i as int)),
        decreases events@.len() - i,
    {
        proof {
            assert(events@.skip(i as int)[0] == events@[i as int]);
            assert(events@.skip(i as int).drop_first() =~= events@.skip(i as int + 1));
        }
        s = step(s, events[i]);
        i += 1;
    }
    proof {
        assert(events@.skip(i as int) =~= Seq::<Event>::empty());
    }
    s
}

/// Whether `e` is the error a measurement that failed on `f` reports:
/// a timeout as [`Error::Timeout`], a pin failure as [`Error::GPIO`] with
/// the diagnostic naming the failing transition.
pub open spec fn is_error_for_fault(e: Error, f: Fault) -> bool {
    match f {
        Fault::TriggerLowFailed => e matches Error::GPIO(m) && m@ == "Failed to set trigger low"@,
        Fault::TriggerHighFailed => e matches Error::GPIO(m) && m@ == "Failed to set trigger high"@,
        Fault::EchoReadFailed => e matches Error::GPIO(m) && m@ == "Failed to read echo pin"@,
        Fault::TimedOut => e is Timeout,
    }
}

/// The error reported for a fault.
pub fn fault_error(f: Fault) -> (e: Error)
    ensures
        is_error_for_fault(e, f),
{
    match f {
        Fault::TriggerLowFailed => Error::GPIO("Failed to set trigger low"),
        Fault::TriggerHighFailed => Error::GPIO("Failed to set trigger high"),
        Fault::EchoReadFailed => Error::GPIO("Failed to read echo pin"),
        Fault::TimedOut => Error::Timeout,
    }
}

/// The result of a finished measurement: the pulse width in microseconds,
/// or the error for the fault it failed on.
pub fn measurement_result(s: &State) -> (r: Result<u32, Error>)
    requires
        s.spec_is_finished(),
    ensures
        (*s matches State::Done(p) ==> r == Ok::<u32, Error>(p)),
        (*s matches State::Failed(f) ==> r matches Err(e) && is_error_for_fault(e, f)),
{
    match s {
        State::Done(p) => Ok(*p),
        State::Failed(f) => Err(fault_error(*f)),
        _ => Err(Error::Timeout),
    }
}

/// A distance in centimetres, held exactly: the round-trip path of the
/// sound pulse in femtometres (10^-13 cm).  The one-way distance in
/// centimetres is `round_trip_fm / (2 * 10^13)`: half the round trip.
#[derive(Clone, Copy, Debug, PartialEq, Eq, Structural)]
pub struct Distance {
    /// Round-trip path length in femtometres: the pulse width in
    /// microseconds times the speed of sound in nm/s.
    pub round_trip_fm: u128,
}

impl Distance {
    /// The one-way distance in whole micrometres, rounded down.
    pub fn micrometers(&self) -> (r: u128)
        ensures
            r == self.round_trip_fm / 2_000_000_000u128,
    {
        self.round_trip_fm / 2_000_000_000u128
    }
}

/// The round-trip path, in femtometres, of a pulse of `p` microseconds at
/// `t` thousandths of a degree Celsius.  The one-way distance in centimetres
/// is this value over `2 * 10^13`: exactly
/// `p * sound_speed_cm_per_us(t) / 2` of the linear sound-speed model.
pub open spec fn distance_model(p: int, t_millicelsius: int) -> int {
    p * sound_speed_model(t_millicelsius)
}

/// Convert a pulse width to a distance at a known temperature: the pure
/// core of the centimetre conversion, exact in fixed point over the whole
/// `u32` range of pulse widths.
pub fn distance_for_temperature(pulse_width_us: u32, t_millicelsius: i32) -> (d: Distance)
    requires
        MIN_TEMPERATURE_MILLICELSIUS <= t_millicelsius <= MAX_TEMPERATURE_MILLICELSIUS,
    ensures
        d.round_trip_fm == distance_model(pulse_width_us as int, t_millicelsius as int),
{
    let speed: i64 = crate::temperature::sound_speed_fixed_point(t_millicelsius);
    assert(speed >= 331_300_000_000i64 + 606_279i64 * (-273_150i64));
    assert(speed <= 331_300_000_000i64 + 606_279i64 * 1_000_000i64);
    assert((pulse_width_us as int) * (speed as int) <= 4_294_967_295int * 937_579_000_000int)
        by (nonlinear_arith)
        requires
            pulse_width_us <= 4_294_967_295u32,
            0 <= speed <= 937_579_000_000i64,
    ;
    let product: u128 = (pulse_width_us as u128) * (speed as u128);
    Distance { round_trip_fm: product }
}

/// Law: for a fixed physical temperature, a longer pulse converts to a
/// strictly larger distance.
pub proof fn lemma_distance_monotonic_in_pulse_width(p1: int, p2: int, t: int)
    requires
        0 <= p1 < p2,
        MIN_TEMPERATURE_MILLICELSIUS as int <= t,
    ensures
        distance_model(p1, t) < distance_model(p2, t),
{
    let s = sound_speed_model(t);
    assert(s > 0);
    assert(p1 * s < p2 * s) by (nonlinear_arith)
        requires
            p1 < p2,
            s > 0,
    ;
}

/// Law: for a fixed positive pulse width, a warmer temperature converts to
/// a strictly larger distance (warmer air carries sound faster).
pub proof fn lemma_distance_monotonic_in_temperature(p: int, t1: int, t2: int)
    requires
        p >= 1,
        t1 < t2,
    ensures
        distance_model(p, t1) < distance_model(p, t2),
{
    let s1 = sound_speed_model(t1);
    let s2 = sound_speed_model(t2);
    assert(s1 < s2);
    assert(p * s1 < p * s2) by (nonlinear_arith)
        requires
            p >= 1,
            s1 < s2,
    ;
}

/// The hardware answer, in state `s`, of a sensor whose pin operations and
/// delays all succeed and whose echo pin rises after `rise` polling steps
/// and falls again `fall` polling steps later.  A `rise` or `fall` beyond
/// [`TIMEOUT_US`] is an echo edge the engine never observes.
pub open spec fn echo_profile_event(s: State, rise: nat, fall: nat) -> Event {
    match s {
        State::Idle | State::RaiseTrigger | State::DropTrigger => Event::PinSetOk,
        State::SettleDelay | State::HoldDelay => Event::Delayed,
        State::EchoRiseDelay(_) | State::EchoFallDelay(_) => Event::Delayed,
        State::AwaitEchoRise(n) => if (n as nat) < rise {
            Event::EchoLow
        } else {
            Event::EchoHigh
        },
        State::AwaitEchoFall(n) => if (n as nat) < fall {
            Event::EchoHigh
        } else {
            Event::EchoLow
        },
        State::Done(_) | State::Failed(_) => Event::Delayed,
    }
}

/// The state reached after `k` steps against that sensor.
pub open spec fn run_echo_profile(s: State, rise: nat, fall: nat, k: nat) -> State
    decreases k,
{
    if k == 0 {
        s
    } else {
        run_echo_profile(
            spec_step(s, echo_profile_event(s, rise, fall)),
            rise,
            fall,
            (k - 1) as nat,
        )
    }
}

/// A finished measurement stays as it is, whatever events follow.
proof fn lemma_profile_terminal(s: State, rise: nat, fall: nat, k: nat)
    requires
        s.spec_is_finished(),
    ensures
        run_echo_profile(s, rise, fall, k) == s,
    decreases k,
{
    if k > 0 {
        lemma_profile_terminal(s, rise, fall, (k - 1) as nat);
    }
}

/// The five trigger steps all succeed, reaching the rise wait.
proof fn lemma_trigger_prefix(rise: nat, fall: nat, k: nat)
    requires
        k >= 5,
    ensures
        run_echo_profile(State::Idle, rise, fall, k) == run_echo_profile(
            State::AwaitEchoRise(0),
            rise,
            fall,
            (k - 5) as nat,
        ),
{
    assert(run_echo_profile(State::Idle, rise, fall, k) == run_echo_profile(
        State::SettleDelay,
        rise,
        fall,
        (k - 1) as nat,
    ));
    assert(run_echo_profile(State::SettleDelay, rise, fall, (k - 1) as nat)
        == run_echo_profile(State::RaiseTrigger, rise, fall, (k - 2) as nat));
    assert(run_echo_profile(State::RaiseTrigger, rise, fall, (k - 2) as nat)
        == run_echo_profile(State::HoldDelay, rise, fall, (k - 3) as nat));
    assert(run_echo_profile(State::HoldDelay, rise, fall, (k - 3) as nat)
        == run_echo_profile(State::DropTrigger, rise, fall, (k - 4) as nat));
    assert(run_echo_profile(State::DropTrigger, rise, fall, (k - 4) as nat)
        == run_echo_profile(State::AwaitEchoRise(0), rise, fall, (k - 5) as nat));
}

/// An echo that rises within the bound carries the rise wait to the fall
/// wait, its counter restarted from zero.
proof fn lemma_rise_phase_reaches_fall(rise: nat, fall: nat, n: u32, k: nat)
    requires
        rise <= TIMEOUT_US as nat,
        n as nat <= rise,
        k >= 2 * (rise - n as nat) + 1,
    ensures
        run_echo_profile(State::AwaitEchoRise(n), rise, fall, k) == run_echo_profile(
            State::AwaitEchoFall(0),
            rise,
            fall,
            (k - (2 * (rise - n as nat) + 1)) as nat,
        ),
    decreases rise - n as nat,
{
    if n as nat == rise {
        assert(run_echo_profile(State::AwaitEchoRise(n), rise, fall, k) == run_echo_profile(
            State::AwaitEchoFall(0),
            rise,
            fall,
            (k - 1) as nat,
        ));
    } else {
        assert(run_echo_profile(State::AwaitEchoRise(n), rise, fall, k) == run_echo_profile(
            State::EchoRiseDelay(n),
            rise,
            fall,
            (k - 1) as nat,
        ));
        assert(run_echo_profile(State::EchoRiseDelay(n), rise, fall, (k - 1) as nat)
            == run_echo_profile(State::AwaitEchoRise((n + 1) as u32), rise, fall, (k - 2) as nat));
        lemma_rise_phase_reaches_fall(rise, fall, (n + 1) as u32, (k - 2) as nat);
    }
}

/// An echo that never rises runs the rise wait into the timeout.
proof fn lemma_rise_phase_times_out(rise: nat, fall: nat, n: u32, k: nat)
    requires
        rise > TIMEOUT_US as nat,
        n <= TIMEOUT_US,
        k >= 2 * (TIMEOUT_US - n) + 1,
    ensures
        run_echo_profile(State::AwaitEchoRise(n), rise, fall, k) == State::Failed(Fault::TimedOut),
    decreases TIMEOUT_US - n,
{
    if n == TIMEOUT_US {
        assert(run_echo_profile(State::AwaitEchoRise(n), rise, fall, k) == run_echo_profile(
            State::Failed(Fault::TimedOut),
            rise,
            fall,
            (k - 1) as nat,
        ));
        lemma_profile_terminal(State::Failed(Fault::TimedOut), rise, fall, (k - 1) as nat);
    } else {
        assert(run_echo_profile(State::AwaitEchoRise(n), rise, fall, k) == run_echo_profile(
            State::EchoRiseDelay(n),
            rise,
            fall,
            (k - 1) as nat,
        ));
        assert(run_echo_profile(State::EchoRiseDelay(n), rise, fall, (k - 1) as nat)
            == run_echo_profile(State::AwaitEchoRise((n + 1) as u32), rise, fall, (k - 2) as nat));
        lemma_rise_phase_times_out(rise, fall, (n + 1) as u32, (k - 2) as nat);
    }
}

/// An echo that falls within the bound ends the measurement with the pulse
/// width equal to the steps it stayed high.
proof fn lemma_fall_phase_done(rise: nat, fall: nat, n: u32, k: nat)
    requires
        fall <= TIMEOUT_US as nat,
        n as nat <= fall,
        k >= 2 * (fall - n as nat) + 1,
    ensures
        run_echo_profile(State::AwaitEchoFall(n), rise, fall, k) == State::Done(fall as u32),
    decreases fall - n as nat,
{
    if n as nat == fall {
        assert(run_echo_profile(State::AwaitEchoFall(n), rise, fall, k) == run_echo_profile(
            State::Done(n),
            rise,
            fall,
            (k - 1) as nat,
        ));
        lemma_profile_terminal(State::Done(n), rise, fall, (k - 1) as nat);
    } else {
        assert(run_echo_profile(State::AwaitEchoFall(n), rise, fall, k) == run_echo_profile(
            State::EchoFallDelay(n),
            rise,
            fall,
            (k - 1) as nat,
        ));
        assert(run_echo_profile(State::EchoFallDelay(n), rise, fall, (k - 1) as nat)
            == run_echo_profile(State::AwaitEchoFall((n + 1) as u32), rise, fall, (k - 2) as nat));
        lemma_fall_phase_done(rise, fall, (n + 1) as u32, (k - 2) as nat);
    }
}

/// An echo that never falls runs the fall wait into the timeout.
proof fn lemma_fall_phase_times_out(rise: nat, fall: nat, n: u32, k: nat)
    requires
        fall > TIMEOUT_US as nat,
        n <= TIMEOUT_US,
        k >= 2 * (TIMEOUT_US - n) + 1,
    ensures
        run_echo_profile(State::AwaitEchoFall(n), rise, fall, k) == State::Failed(Fault::TimedOut),
    decreases TIMEOUT_US - n,
{
    if n == TIMEOUT_US {
        assert(run_echo_profile(State::AwaitEchoFall(n), rise, fall, k) == run_echo_profile(
            State::Failed(Fault::TimedOut),
            rise,
            fall,
            (k - 1) as nat,
        ));
        lemma_profile_terminal(State::Failed(Fault::TimedOut), rise, fall, (k - 1) as nat);
    } else {
        assert(run_echo_profile(State::AwaitEchoFall(n), rise, fall, k) == run_echo_profile(
            State::EchoFallDelay(n),
            rise,
            fall,
            (k - 1) as nat,
        ));
        assert(run_echo_profile(State::EchoFallDelay(n), rise, fall, (k - 1) as nat)
            == run_echo_profile(State::AwaitEchoFall((n + 1) as u32), rise, fall, (k - 2) as nat));
        lemma_fall_phase_times_out(rise, fall, (n + 1) as u32, (k - 2) as nat);
    }
}

/// Law: if the echo pin never rises within [`TIMEOUT_US`] one-microsecond
/// polling steps, the measurement fails with a timeout — never with a
/// partial or garbage pulse width.
pub proof fn lemma_echo_never_rises_times_out(rise: nat, fall: nat, k: nat)
    requires
        rise > TIMEOUT_US as nat,
        k >= 2 * (TIMEOUT_US as nat) + 6,
    ensures
        run_echo_profile(State::Idle, rise, fall, k) == State::Failed(Fault::TimedOut),
{
    lemma_trigger_prefix(rise, fall, k);
    lemma_rise_phase_times_out(rise, fall, 0, (k - 5) as nat);
}

/// Law: if the echo rises within the bound but never falls within
/// [`TIMEOUT_US`] further polling steps, the measurement fails with a
/// timeout on the distinct falling-edge path.
pub proof fn lemma_echo_never_falls_times_out(rise: nat, fall: nat, k: nat)
    requires
        rise <= TIMEOUT_US as nat,
        fall > TIMEOUT_US as nat,
        k >= 2 * rise + 2 * (TIMEOUT_US as nat) + 7,
    ensures
        run_echo_profile(State::Idle, rise, fall, k) == State::Failed(Fault::TimedOut),
{
    lemma_trigger_prefix(rise, fall, k);
    lemma_rise_phase_reaches_fall(rise, fall, 0, (k - 5) as nat);
    lemma_fall_phase_times_out(rise, fall, 0, (k - 5 - (2 * rise + 1)) as nat);
}

/// Law: against a responsive sensor whose echo rises within the bound and
/// stays high `fall` polling steps, the measurement runs to completion and
/// the measured pulse width is exactly `fall` microseconds.
pub proof fn lemma_responsive_echo_succeeds(rise: nat, fall: nat, k: nat)
    requires
        rise <= TIMEOUT_US as nat,
        fall <= TIMEOUT_US as nat,
        k >= 2 * rise + 2 * fall + 7,
    ensures
        run_echo_profile(State::Idle, rise, fall, k) == State::Done(fall as u32),
{
    lemma_trigger_prefix(rise, fall, k);
    lemma_rise_phase_reaches_fall(rise, fall, 0, (k - 5) as nat);
    lemma_fall_phase_done(rise, fall, 0, (k - 5 - (2 * rise + 1)) as nat);
}

/// Law: a trigger transition that fails aborts the measurement at once with
/// the GPIO fault naming the failing transition, and a failed measurement
/// absorbs every later event: no echo waiting follows.
pub proof fn lemma_trigger_failure_aborts()
    ensures
        spec_step(State::Idle, Event::PinSetFailed) == State::Failed(Fault::TriggerLowFailed),
        spec_step(State::RaiseTrigger, Event::PinSetFailed) == State::Failed(
            Fault::TriggerHighFailed,
        ),
        spec_step(State::DropTrigger, Event::PinSetFailed) == State::Failed(
            Fault::TriggerLowFailed,
        ),
        forall|f: Fault, e: Event| spec_step(State::Failed(f), e) == State::Failed(f),
{
}

/// The measurement engine's temperature-dependent half: it owns the choice
/// of [`TemperatureProvider`] and converts measured pulse widths to
/// distances.  The timing protocol itself is the state machine above, which
/// the owner of the pins drives.
pub struct Hcsr04<TEMP = crate::temperature::NoTemperatureCompensation> {
    /// The temperature provider the centimetre conversion consults.
    pub temperature: TEMP,
}

impl<TEMP: TemperatureProvider> Hcsr04<TEMP> {
    /// Assemble an engine around a temperature provider.
    pub fn new(temperature: TEMP) -> (r: Self)
        ensures
            r.temperature == temperature,
    {
        Hcsr04 { temperature }
    }

    /// Convert a measured pulse width to a distance in centimetres, held
    /// exactly, using the provider's current temperature reading.  Does not
    /// touch GPIO.  Fails only, and exactly, when the temperature read
    /// fails — so never, for a provider that cannot fail.
    pub fn pulse_width_to_cm(&self, pulse_width_us: u32) -> (r: Result<Distance, Error>)
        ensures
            (r matches Ok(d) ==> exists|t: int|
                MIN_TEMPERATURE_MILLICELSIUS <= t <= MAX_TEMPERATURE_MILLICELSIUS
                    && d.round_trip_fm == distance_model(pulse_width_us as int, t)),
            (r matches Err(e) ==> e matches Error::Temperature(m)
                && m@ == "Failed to read temperature"@),
            r is Err ==> self.temperature.may_fail(),
    {
        match self.temperature.temperature_millicelsius() {
            Ok(t) => Ok(distance_for_temperature(pulse_width_us, t)),
            Err(_) => Err(Error::Temperature("Failed to read temperature")),
        }
    }
}

} // verus!
