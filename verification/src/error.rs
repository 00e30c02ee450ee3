//! What can go wrong when a client is set up or a line is sent.

use vstd::prelude::*;
use vstd::string::*;

verus! {

/// `std::io::Error`, carried through as it is.
#[verifier::external_type_specification]
#[verifier::external_body]
pub struct ExIoError(std::io::Error);

/// `url::ParseError`, carried through as it is.
#[verifier::external_type_specification]
#[verifier::external_body]
pub struct ExParseError(url::ParseError);

/// The error in the results of the encoder. Appending to a `String` does not
/// fail, so the encoder's contracts promise `Ok` throughout; the type keeps
/// its results in the shape that a serializer's caller expects.
#[derive(Debug)]
pub struct FormatError;

/// An error of the transport.
#[derive(Debug)]
pub enum Error {
    /// The connection could not be opened or written to.
    Io(std::io::Error),
    /// The address is no URL.
    UrlParsing(url::ParseError),
    /// The address is a URL that names no carrier.
    Custom(String),
}

impl From<url::ParseError> for Error {
    fn from(err: url::ParseError) -> (r: Error) {
        Error::UrlParsing(err)
    }
}

impl vstd::std_specs::convert::FromSpecImpl<url::ParseError> for Error {
    open spec fn obeys_from_spec() -> bool {
        true
    }

    open spec fn from_spec(err: url::ParseError) -> Error {
        Error::UrlParsing(err)
    }
}

impl From<std::io::Error> for Error {
    fn from(err: std::io::Error) -> (r: Error) {
        Error::Io(err)
    }
}

impl vstd::std_specs::convert::FromSpecImpl<std::io::Error> for Error {
    open spec fn obeys_from_spec() -> bool {
        true
    }

    open spec fn from_spec(err: std::io::Error) -> Error {
        Error::Io(err)
    }
}

impl Error {
    /// The text of the error: that of the error inside, or the message of a
    /// `Custom` one.
    pub fn message(&self) -> (r: String)
        ensures
            self matches Error::Custom(msg) ==> r@ == msg@,
    {
        match self {
            Error::Io(err) => err.to_string(),
            Error::UrlParsing(err) => err.to_string(),
            Error::Custom(msg) => msg.clone(),
        }
    }
}

} // verus!
