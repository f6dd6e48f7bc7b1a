//! The error taxonomy shared by every driver operation.

use vstd::prelude::*;
use vstd::string::StringExecFns;

verus! {

/// Every driver operation returns a success value or exactly one of these
/// typed errors; there is no internal recovery or silent fallback.
#[derive(Clone, Copy, Debug, PartialEq, Eq, Structural)]
pub enum Error {
    /// The serial device is missing, busy, or not permitted.
    OpenFailed,
    /// A read or write failed for a reason other than a timeout.
    Io,
    /// No full line arrived within the configured read timeout. Kept
    /// distinct from `Io` so a caller can choose to retry.
    Timeout,
    /// A response line does not match the expected prefix or shape for the
    /// operation in progress.
    UnexpectedResponse,
    /// A declared payload length does not match the actual payload length.
    LengthMismatch,
    /// A hex payload or a numeric field could not be decoded.
    Decode,
    /// A radio configuration profile code outside the four known presets.
    UnknownProfile,
}

impl Error {
    /// The descriptive message carried by this error class.
    pub open spec fn spec_message(self) -> Seq<char> {
        match self {
            Error::OpenFailed => "could not open serial device"@,
            Error::Io => "i/o error on serial device"@,
            Error::Timeout => "read timeout"@,
            Error::UnexpectedResponse => "unexpected response from modem"@,
            Error::LengthMismatch => "payload length not matching actual length"@,
            Error::Decode => "could not decode field in response"@,
            Error::UnknownProfile => "unknown modem config code"@,
        }
    }

    /// A human-readable description of the error.
    pub fn message(&self) -> (r: String)
        ensures
            r@ == self.spec_message(),
    {
        match self {
            Error::OpenFailed => String::from_str("could not open serial device"),
            Error::Io => String::from_str("i/o error on serial device"),
            Error::Timeout => String::from_str("read timeout"),
            Error::UnexpectedResponse => String::from_str("unexpected response from modem"),
            Error::LengthMismatch => String::from_str("payload length not matching actual length"),
            Error::Decode => String::from_str("could not decode field in response"),
            Error::UnknownProfile => String::from_str("unknown modem config code"),
        }
    }
}

} // verus!
