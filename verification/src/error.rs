//! Failure taxonomy of the driver.
//!
//! Every failure the measurement engine or the temperature model can produce
//! is a value of the closed [`Error`] enumeration.  A kind that wraps a lower
//! capability carries a fixed static diagnostic string naming what failed.

use vstd::prelude::*;
use vstd::string::StringExecFns;

verus! {

/// Errors that can occur when driving the sensor.
#[derive(Debug)]
pub enum Error {
    /// The sensor did not respond within the expected time.
    Timeout,
    /// An error occurred when using a GPIO pin.
    GPIO(&'static str),
    /// An error occurred when using the hardware timer.
    Timestamp(&'static str),
    /// An error occurred when using the temperature provider.
    Temperature(&'static str),
}

impl Error {
    /// The characters of the one-line description that `message` returns.
    pub open spec fn spec_message(self) -> Seq<char> {
        match self {
            Error::Timeout => "Timeout"@,
            Error::GPIO(reason) => "GPIO with "@ + reason@,
            Error::Timestamp(reason) => "Timestamp with "@ + reason@,
            Error::Temperature(reason) => "Temperature with "@ + reason@,
        }
    }

    /// One-line human-readable description: the kind, then the diagnostic.
    pub fn message(&self) -> (r: String)
        ensures
            r@ == self.spec_message(),
    {
        match self {
            Error::Timeout => "Timeout".to_owned(),
            Error::GPIO(reason) => "GPIO with ".to_owned().concat(reason),
            Error::Timestamp(reason) => "Timestamp with ".to_owned().concat(reason),
            Error::Temperature(reason) => "Temperature with ".to_owned().concat(reason),
        }
    }
}

/// Character-for-character equality of two string slices.
fn str_eq(a: &str, b: &str) -> (r: bool)
    ensures
        r == (a@ == b@),
{
    let owned_a: String = a.to_owned();
    let owned_b: String = b.to_owned();
    owned_a.eq(&owned_b)
}

impl PartialEq for Error {
    /// Value equality: same kind, and the same diagnostic characters.
    fn eq(&self, other: &Self) -> (r: bool) {
        match (self, other) {
            (Error::Timeout, Error::Timeout) => true,
            (Error::GPIO(a), Error::GPIO(b)) => str_eq(a, b),
            (Error::Timestamp(a), Error::Timestamp(b)) => str_eq(a, b),
            (Error::Temperature(a), Error::Temperature(b)) => str_eq(a, b),
            _ => false,
        }
    }
}

impl vstd::std_specs::cmp::PartialEqSpecImpl for Error {
    open spec fn obeys_eq_spec() -> bool {
        true
    }

    open spec fn eq_spec(&self, other: &Error) -> bool {
        match (self, other) {
            (Error::Timeout, Error::Timeout) => true,
            (Error::GPIO(a), Error::GPIO(b)) => a@ == b@,
            (Error::Timestamp(a), Error::Timestamp(b)) => a@ == b@,
            (Error::Temperature(a), Error::Temperature(b)) => a@ == b@,
            _ => false,
        }
    }
}

impl Eq for Error {}

} // verus!
