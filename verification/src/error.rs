//! Error taxonomy: transport failures versus protocol and decode failures.

use vstd::prelude::*;
use vstd::std_specs::convert::FromSpecImpl;
use vstd::string::StringExecFns;
use crate::text::starts_with;

verus! {

/// A failure reported by the transport underneath the device, carried through
/// untouched.
#[derive(Debug)]
pub struct DeviceError {
    description: String,
}

impl DeviceError {
    /// Wraps the transport's own account of what went wrong.
    pub fn new(description: String) -> (e: DeviceError)
        ensures
            e.description() == description@,
    {
        DeviceError { description }
    }

    /// What the transport reported.
    pub closed spec fn description(&self) -> Seq<char> {
        self.description@
    }

    /// The transport's report as text.
    pub fn message(&self) -> (s: &str)
        ensures
            s@ == self.description(),
    {
        self.description.as_str()
    }
}

/// Everything that can go wrong while talking to a vehicle.
#[derive(Debug)]
pub enum Error {
    /// The transport failed; nothing was decoded.
    Device(DeviceError),
    /// The response was received but could not be decoded.
    Other(String),
    /// A response had the wrong shape: which dimension, the expected size and
    /// the size that arrived.
    IncorrectResponseLength(&'static str, usize, usize),
}

/// An [`Error`] with its texts read as character sequences.
pub enum ErrorView {
    Device(Seq<char>),
    Other(Seq<char>),
    IncorrectResponseLength(Seq<char>, usize, usize),
}

impl View for Error {
    type V = ErrorView;

    open spec fn view(&self) -> ErrorView {
        match self {
            Error::Device(e) => ErrorView::Device(e.description()),
            Error::Other(message) => ErrorView::Other(message@),
            Error::IncorrectResponseLength(dimension, expected, actual) => {
                ErrorView::IncorrectResponseLength(dimension@, *expected, *actual)
            },
        }
    }
}

/// The error that reports a response whose byte length is `actual` where
/// `expected` was asked for.
pub open spec fn wrong_length(expected: usize, actual: usize) -> ErrorView {
    ErrorView::IncorrectResponseLength("length"@, expected, actual)
}

/// The error that reports `actual` responding ECUs where `expected` were
/// asked for.
pub open spec fn wrong_count(expected: usize, actual: usize) -> ErrorView {
    ErrorView::IncorrectResponseLength("count"@, expected, actual)
}

/// `std::string::FromUtf8Error`, carried as an opaque value.
#[verifier::external_type_specification]
#[verifier::external_body]
pub struct ExFromUtf8Error(std::string::FromUtf8Error);

/// `std::num::ParseIntError`, carried as an opaque value.
#[verifier::external_type_specification]
#[verifier::external_body]
pub struct ExParseIntError(std::num::ParseIntError);

/// The `Debug` rendering of a `FromUtf8Error`, as `format!` gives it. Nothing
/// is claimed of the text.
#[verifier::external_body]
fn describe_utf8_error(e: &std::string::FromUtf8Error) -> (text: String) {
    format!("{:?}", e)
}

/// The `Debug` rendering of a `ParseIntError`, as `format!` gives it. Nothing
/// is claimed of the text.
#[verifier::external_body]
fn describe_parse_error(e: &std::num::ParseIntError) -> (text: String) {
    format!("{:?}", e)
}

impl From<DeviceError> for Error {
    fn from(e: DeviceError) -> (r: Error) {
        Error::Device(e)
    }
}

impl FromSpecImpl<DeviceError> for Error {
    open spec fn obeys_from_spec() -> bool {
        true
    }

    open spec fn from_spec(e: DeviceError) -> Error {
        Error::Device(e)
    }
}

impl From<std::num::ParseIntError> for Error {
    /// Bytes that should have been a number were not: an [`Error::Other`]
    /// whose message begins with `invalid data recieved: `.
    fn from(e: std::num::ParseIntError) -> (r: Error)
        ensures
            r@ matches ErrorView::Other(m) && starts_with(m, "invalid data recieved: "@),
    {
        let detail = describe_parse_error(&e);
        let message = String::from_str("invalid data recieved: ").concat(detail.as_str());
        proof {
            assert(message@.subrange(0, "invalid data recieved: "@.len() as int)
                == "invalid data recieved: "@);
        }
        Error::Other(message)
    }
}

/// The message ends in the `Debug` text of the cause, which has no model
/// here: the conversion is described by what `from` ensures, not by a value.
impl FromSpecImpl<std::num::ParseIntError> for Error {
    open spec fn obeys_from_spec() -> bool {
        false
    }

    open spec fn from_spec(e: std::num::ParseIntError) -> Error {
        arbitrary()
    }
}

impl From<std::string::FromUtf8Error> for Error {
    /// Bytes that should have been text were not UTF-8: an [`Error::Other`]
    /// whose message begins with `invalid string recieved: `.
    fn from(e: std::string::FromUtf8Error) -> (r: Error)
        ensures
            r@ matches ErrorView::Other(m) && starts_with(m, "invalid string recieved: "@),
    {
        let detail = describe_utf8_error(&e);
        let message = String::from_str("invalid string recieved: ").concat(detail.as_str());
        proof {
            assert(message@.subrange(0, "invalid string recieved: "@.len() as int)
                == "invalid string recieved: "@);
        }
        Error::Other(message)
    }
}

/// The message ends in the `Debug` text of the cause, which has no model
/// here: the conversion is described by what `from` ensures, not by a value.
impl FromSpecImpl<std::string::FromUtf8Error> for Error {
    open spec fn obeys_from_spec() -> bool {
        false
    }

    open spec fn from_spec(e: std::string::FromUtf8Error) -> Error {
        arbitrary()
    }
}

} // verus!
