//! The two messages that a server sends unasked, and their decoding.

use crate::error::Error;
use crate::header::{from_hex_header, header_decoded, BlockHeader, ConsensusError, HEADER_LEN};
use crate::hex::{decoded, HexError};
use crate::json::{
    bytes_at, document, expect_object, found, hex_failure, integer_at, json_failure, missing,
    not_object, read_bytes32, read_str, read_usize, require, text_at, then, Document,
};
use crate::response::{hex_at, hex_found};
use crate::script_hash::{ScriptHash, ScriptStatus};
use vstd::prelude::*;
use vstd::string::*;
use vstd::utf8::*;

verus! {

/// A new block has been added to the chain.
#[derive(Debug)]
pub struct HeaderNotification {
    /// The height of the new block.
    pub height: usize,
    /// The header of the new block.
    pub header: BlockHeader,
}

/// The status of a script has changed.
#[derive(Debug)]
pub struct ScriptNotification {
    /// The script that the notification is about.
    pub scripthash: ScriptHash,
    /// The new status of the script.
    pub status: ScriptStatus,
}

impl HeaderNotification {
    /// What reading the member `height` gives.
    pub open spec fn height_at(d: Document) -> Result<Option<int>, crate::json::JsonError> {
        integer_at(d, "height", false, 0, usize::MAX as int)
    }

    /// The bytes that the text of the header writes.
    pub open spec fn header_bytes_at(d: Document) -> Option<Result<Seq<u8>, HexError>> {
        hex_at(text_at(d, "hex", false), |b: Seq<u8>| decoded(b))
    }

    /// The failure of reading the members that are there, where one fails for
    /// a reason other than the bytes of the header being no header.
    pub open spec fn failure(d: Document) -> Option<Error> {
        then(
            not_object(d),
            then(
                json_failure(Self::height_at(d)),
                then(json_failure(text_at(d, "hex", false)), hex_failure(Self::header_bytes_at(d))),
            ),
        )
    }

    /// The failure owed for the first member that must be there and is not.
    pub open spec fn lacks(d: Document) -> Option<Error> {
        then(
            missing(found(Self::height_at(d)), "height"),
            missing(Self::header_bytes_at(d), "hex"),
        )
    }

    /// `r` is what decoding the payload `d` gives. The header is decoded from
    /// the hexadecimal text in one step: bytes that are not the encoding of a
    /// header fail as the decoder of headers says.
    pub open spec fn decoded_as(d: Document, r: Result<HeaderNotification, Error>) -> bool {
        match Self::failure(d) {
            Some(e) => r matches Err(f) && f == e,
            None => match hex_found(Self::header_bytes_at(d)) {
                Some(b) => if b.len() != HEADER_LEN {
                    r matches Err(Error::Bitcoin(c)) && header_decoded(
                        b,
                        Err::<BlockHeader, ConsensusError>(c),
                    )
                } else {
                    match Self::lacks(d) {
                        Some(e) => r matches Err(f) && f == e,
                        None => r matches Ok(x) && Some(x.height as int) == found(
                            Self::height_at(d),
                        ) && x.header.encoded_by(b),
                    }
                },
                None => r matches Err(f) && Some(f) == Self::lacks(d),
            },
        }
    }

    /// Decodes the notification of a new block.
    pub fn from_value(v: &serde_json::Value) -> (r: Result<HeaderNotification, Error>)
        ensures
            Self::decoded_as(document(*v), r),
    {
        match expect_object(v) {
            Ok(_) => {},
            Err(e) => { return Err(e); },
        }
        let height = match read_usize(v, "height") {
            Ok(x) => x,
            Err(e) => { return Err(e); },
        };
        let text = match read_str(v, "hex", false) {
            Ok(x) => x,
            Err(e) => { return Err(e); },
        };
        let header = match text {
            None => None,
            Some(s) => match from_hex_header(s) {
                Ok(h) => Some(h),
                Err(e) => { return Err(e); },
            },
        };
        let height = match require(height, "height") {
            Ok(x) => x,
            Err(e) => { return Err(e); },
        };
        let header = match require(header, "hex") {
            Ok(x) => x,
            Err(e) => { return Err(e); },
        };
        Ok(HeaderNotification { height, header })
    }
}

impl ScriptNotification {
    /// The failure of decoding a payload, where it fails.
    pub open spec fn failure(d: Document) -> Option<Error> {
        then(
            not_object(d),
            then(
                json_failure(bytes_at(d, "scripthash")),
                then(
                    json_failure(bytes_at(d, "status")),
                    then(
                        missing(found(bytes_at(d, "scripthash")), "scripthash"),
                        missing(found(bytes_at(d, "status")), "status"),
                    ),
                ),
            ),
        )
    }

    /// `r` is what decoding the payload `d` gives. Both members are arrays of
    /// 32 numbers from 0 to 255, taken as they are.
    pub open spec fn decoded_as(d: Document, r: Result<ScriptNotification, Error>) -> bool {
        match Self::failure(d) {
            Some(e) => r matches Err(f) && f == e,
            None => r matches Ok(x) && Some(x.scripthash@) == found(bytes_at(d, "scripthash"))
                && Some(x.status@) == found(bytes_at(d, "status")),
        }
    }

    /// Decodes the notification of a change of status.
    pub fn from_value(v: &serde_json::Value) -> (r: Result<ScriptNotification, Error>)
        ensures
            Self::decoded_as(document(*v), r),
    {
        match expect_object(v) {
            Ok(_) => {},
            Err(e) => { return Err(e); },
        }
        let scripthash = match read_bytes32(v, "scripthash") {
            Ok(x) => x,
            Err(e) => { return Err(e); },
        };
        let status = match read_bytes32(v, "status") {
            Ok(x) => x,
            Err(e) => { return Err(e); },
        };
        let scripthash = match require(scripthash, "scripthash") {
            Ok(x) => x,
            Err(e) => { return Err(e); },
        };
        let status = match require(status, "status") {
            Ok(x) => x,
            Err(e) => { return Err(e); },
        };
        Ok(ScriptNotification { scripthash, status })
    }
}

} // verus!
