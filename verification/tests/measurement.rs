use hcsr04::hcsr04::{
    measurement_result, pending_action, run_events, step, Action, Event, Fault, State, TIMEOUT_US,
};
use hcsr04::Error;

/// The trigger pulse: both pin writes succeed and both delays elapse.
fn trigger_events() -> Vec<Event> {
    vec![
        Event::PinSetOk,
        Event::Delayed,
        Event::PinSetOk,
        Event::Delayed,
        Event::PinSetOk,
    ]
}

/// A full cycle where the echo rises after `rise` polling steps and stays
/// high for `width` polling steps.
fn healthy_cycle_events(rise: u32, width: u32) -> Vec<Event> {
    let mut evs = trigger_events();
    for _ in 0..rise {
        evs.push(Event::EchoLow);
        evs.push(Event::Delayed);
    }
    evs.push(Event::EchoHigh);
    for _ in 0..width {
        evs.push(Event::EchoHigh);
        evs.push(Event::Delayed);
    }
    evs.push(Event::EchoLow);
    evs
}

#[test]
fn healthy_cycle_measures_pulse_width() {
    let final_state = run_events(&healthy_cycle_events(3, 7));
    assert!(matches!(final_state, State::Done(7)));
    assert_eq!(measurement_result(&final_state), Ok(7));
    assert!(final_state.is_finished());
}

#[test]
fn zero_width_pulse_is_measured_as_zero() {
    let final_state = run_events(&healthy_cycle_events(0, 0));
    assert_eq!(measurement_result(&final_state), Ok(0));
}

#[test]
fn echo_that_never_rises_times_out() {
    let mut evs = trigger_events();
    for _ in 0..TIMEOUT_US {
        evs.push(Event::EchoLow);
        evs.push(Event::Delayed);
    }
    evs.push(Event::EchoLow);
    let final_state = run_events(&evs);
    assert!(matches!(final_state, State::Failed(Fault::TimedOut)));
    assert_eq!(measurement_result(&final_state), Err(Error::Timeout));
}

#[test]
fn echo_that_never_falls_times_out() {
    let mut evs = trigger_events();
    evs.push(Event::EchoHigh);
    for _ in 0..TIMEOUT_US {
        evs.push(Event::EchoHigh);
        evs.push(Event::Delayed);
    }
    evs.push(Event::EchoHigh);
    let final_state = run_events(&evs);
    assert!(matches!(final_state, State::Failed(Fault::TimedOut)));
    assert_eq!(measurement_result(&final_state), Err(Error::Timeout));
}

#[test]
fn widest_pulse_inside_the_bound_still_succeeds() {
    let final_state = run_events(&healthy_cycle_events(0, TIMEOUT_US));
    assert_eq!(measurement_result(&final_state), Ok(TIMEOUT_US));
}

#[test]
fn failed_trigger_aborts_without_echo_wait() {
    let final_state = run_events(&vec![Event::PinSetFailed]);
    assert!(matches!(final_state, State::Failed(Fault::TriggerLowFailed)));
    assert_eq!(
        measurement_result(&final_state),
        Err(Error::GPIO("Failed to set trigger low"))
    );
    assert!(pending_action(&final_state).is_none());
    let stepped = step(final_state, Event::EchoHigh);
    assert!(matches!(stepped, State::Failed(Fault::TriggerLowFailed)));
}

#[test]
fn failed_trigger_high_names_the_transition() {
    let final_state = run_events(&vec![Event::PinSetOk, Event::Delayed, Event::PinSetFailed]);
    assert_eq!(
        measurement_result(&final_state),
        Err(Error::GPIO("Failed to set trigger high"))
    );
}

#[test]
fn failed_echo_read_reports_gpio() {
    let mut evs = trigger_events();
    evs.push(Event::EchoReadFailed);
    let final_state = run_events(&evs);
    assert_eq!(
        measurement_result(&final_state),
        Err(Error::GPIO("Failed to read echo pin"))
    );
}

#[test]
fn pending_actions_follow_the_protocol() {
    let s = State::Idle;
    assert_eq!(pending_action(&s), Some(Action::SetTriggerLow));
    let s = step(s, Event::PinSetOk);
    assert_eq!(pending_action(&s), Some(Action::DelayUs(2)));
    let s = step(s, Event::Delayed);
    assert_eq!(pending_action(&s), Some(Action::SetTriggerHigh));
    let s = step(s, Event::PinSetOk);
    assert_eq!(pending_action(&s), Some(Action::DelayUs(10)));
    let s = step(s, Event::Delayed);
    assert_eq!(pending_action(&s), Some(Action::SetTriggerLow));
    let s = step(s, Event::PinSetOk);
    assert_eq!(pending_action(&s), Some(Action::ReadEcho));
    assert!(matches!(s, State::AwaitEchoRise(0)));
}
