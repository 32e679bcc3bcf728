//! The one error type of the library and the lifting of lower-level failures into it.

use crate::header::ConsensusError;
use crate::hex::HexError;
use crate::json::JsonError;
use crate::script_hash::ScriptHash;
use vstd::prelude::*;
use vstd::std_specs::convert::FromSpecImpl;

verus! {

#[verifier::external_type_specification]
#[verifier::external_body]
pub struct ExIoError(std::io::Error);

/// Every way in which an operation of the client can fail.
#[derive(Debug)]
pub enum Error {
    /// The transport failed.
    IOError(std::io::Error),
    /// A payload is not JSON, or not JSON of the expected form.
    JSON(JsonError),
    /// A field that should be hexadecimal text is not.
    Hex(HexError),
    /// The server answered with an error of its own, kept as it came.
    Protocol(serde_json::Value),
    /// Bytes are not the consensus encoding of the structure asked for.
    Bitcoin(ConsensusError),
    /// The script hash is already subscribed to.
    AlreadySubscribed(ScriptHash),
    /// The script hash is not subscribed to.
    NotSubscribed(ScriptHash),
    /// The reply has a form that no request expects, kept as it came.
    InvalidResponse(serde_json::Value),
    /// Any other failure, by its message.
    Message(String),
    /// The name is not a valid DNS name for a certificate.
    InvalidDNSNameError(String),
    /// Validation of the domain was asked for and no domain was given.
    MissingDomain,
}

impl From<std::io::Error> for Error {
    fn from(err: std::io::Error) -> (r: Error) {
        Error::IOError(err)
    }
}

impl FromSpecImpl<std::io::Error> for Error {
    open spec fn obeys_from_spec() -> bool {
        true
    }

    open spec fn from_spec(err: std::io::Error) -> Error {
        Error::IOError(err)
    }
}

impl From<JsonError> for Error {
    fn from(err: JsonError) -> (r: Error) {
        Error::JSON(err)
    }
}

impl FromSpecImpl<JsonError> for Error {
    open spec fn obeys_from_spec() -> bool {
        true
    }

    open spec fn from_spec(err: JsonError) -> Error {
        Error::JSON(err)
    }
}

impl From<HexError> for Error {
    fn from(err: HexError) -> (r: Error) {
        Error::Hex(err)
    }
}

impl FromSpecImpl<HexError> for Error {
    open spec fn obeys_from_spec() -> bool {
        true
    }

    open spec fn from_spec(err: HexError) -> Error {
        Error::Hex(err)
    }
}

impl From<ConsensusError> for Error {
    fn from(err: ConsensusError) -> (r: Error) {
        Error::Bitcoin(err)
    }
}

impl FromSpecImpl<ConsensusError> for Error {
    open spec fn obeys_from_spec() -> bool {
        true
    }

    open spec fn from_spec(err: ConsensusError) -> Error {
        Error::Bitcoin(err)
    }
}

} // verus!
