use hcsr04::Error;

#[test]
fn test_error_device() {
    assert_eq!(Error::Timeout.message(), "Timeout");
}

#[test]
fn test_error_debug() {
    let error = Error::Timeout;
    let debug_output = format!("{error:?}",);
    assert!(debug_output.contains("Timeout"));
}

#[test]
fn test_error_partialeq() {
    assert!(Error::Timeout.eq(&Error::Timeout));
    assert!(!Error::Timeout.eq(&Error::GPIO("test")));
}

#[test]
fn error_equality_distinguishes_kind_and_payload() {
    assert_eq!(Error::GPIO("a"), Error::GPIO("a"));
    assert_ne!(Error::GPIO("a"), Error::GPIO("b"));
    assert_ne!(Error::Timeout, Error::GPIO("a"));
    assert_eq!(Error::Timestamp("x"), Error::Timestamp("x"));
    assert_ne!(Error::Temperature("x"), Error::Timestamp("x"));
    assert_eq!(Error::Temperature("x"), Error::Temperature("x"));
}

#[test]
fn error_messages_name_kind_and_reason() {
    assert_eq!(Error::GPIO("pin stuck").message(), "GPIO with pin stuck");
    assert_eq!(Error::Timestamp("clock").message(), "Timestamp with clock");
    assert_eq!(
        Error::Temperature("sensor gone").message(),
        "Temperature with sensor gone"
    );
}
