//! The replies of an Electrum server, one type for each family of calls, and
//! their decoding from JSON payloads.
//!
//! Every decoder reads a payload in two passes. The first takes the members
//! that the record knows in the order of their names, and fails at the first
//! whose value is of the wrong kind, out of range, or not the hexadecimal text
//! it should be. The second asks, in the order of the record's fields, for the
//! members that must be there. Members that the record does not know are
//! passed over. A decoder hands out the whole record or one failure.

use crate::error::Error;
use crate::header::BlockHeader;
use crate::hex::{
    contents, decoded, decoded_backward, decoded_fixed, decoded_list, from_hex, from_hex_32,
    from_hex_array, from_hex_txid, texts, HexError,
};
use crate::json::{
    document, expect_object, found, hex_failure, integer_at, json_failure, missing, not_object,
    read_i32, read_i64, read_str, read_strs, read_u64, read_usize, require, text_at, texts_at,
    then, views, Document,
};
use crate::script_hash::Txid;
use vstd::prelude::*;
use vstd::string::*;
use vstd::utf8::*;

verus! {

/// One entry of the history of a script.
#[derive(Debug)]
pub struct GetHistoryRes {
    /// The height of the block that confirmed the transaction: 0 while it is
    /// unconfirmed, negative while some of its inputs are unconfirmed too.
    pub height: i32,
    /// The id of the transaction.
    pub tx_hash: Txid,
    /// The fee of the transaction, where the server gave it.
    pub fee: Option<u64>,
}

/// One unspent output of a script.
#[derive(Debug)]
pub struct ListUnspentRes {
    /// The height of the block that confirmed the transaction of this output.
    pub height: usize,
    /// The id of that transaction.
    pub tx_hash: Txid,
    /// The index of the output in the transaction.
    pub tx_pos: usize,
    /// The value of the output, in the smallest unit.
    pub value: u64,
}

/// What a server says of itself.
#[derive(Debug)]
pub struct ServerFeaturesRes {
    /// The version of the server.
    pub server_version: String,
    /// The hash of the genesis block.
    pub genesis_hash: [u8; 32],
    /// The oldest version of the protocol that the server speaks.
    pub protocol_min: String,
    /// The newest version of the protocol that the server speaks.
    pub protocol_max: String,
    /// The hash function by which scripts are named, where the server gave it.
    pub hash_function: Option<String>,
    /// The height below which the server has pruned, where it has.
    pub pruning: Option<i64>,
}

/// A batch of block headers.
#[derive(Debug)]
pub struct GetHeadersRes {
    /// The most headers that the server gives in one reply.
    pub max: usize,
    /// The number of headers in this reply.
    pub count: usize,
    /// The headers as they came, one after the other.
    pub raw_headers: Vec<u8>,
    /// The headers, once they have been split off `raw_headers`. Decoding a
    /// payload leaves this empty.
    pub headers: Vec<BlockHeader>,
}

/// The balance of a script.
#[derive(Debug)]
pub struct GetBalanceRes {
    /// The confirmed amount, in the smallest unit.
    pub confirmed: u64,
    /// The unconfirmed amount, in the smallest unit.
    pub unconfirmed: u64,
}

/// The proof that a transaction is in a block.
#[derive(Debug)]
pub struct GetMerkleRes {
    /// The height of the block.
    pub block_height: usize,
    /// The position of the transaction in the block.
    pub pos: usize,
    /// The hashes that lead from the transaction to the root, in order.
    pub merkle: Vec<[u8; 32]>,
}

/// What reading an optional text as hexadecimal gives, by the rule `rule`.
pub open spec fn hex_at(
    text: Result<Option<Seq<char>>, crate::json::JsonError>,
    rule: spec_fn(Seq<u8>) -> Result<Seq<u8>, HexError>,
) -> Option<Result<Seq<u8>, HexError>> {
    match text {
        Ok(Some(t)) => Some(rule(encode_utf8(t))),
        _ => None,
    }
}

/// The bytes read, where there was a text and reading it gave bytes.
pub open spec fn hex_found(s: Option<Result<Seq<u8>, HexError>>) -> Option<Seq<u8>> {
    match s {
        Some(Ok(b)) => Some(b),
        _ => None,
    }
}

/// `r` is what reading the member `name` as hexadecimal text by the rule
/// `rule` gives: nothing where there is no such member, a failure where the
/// member is no string or the string cannot be read, the bytes otherwise.
pub open spec fn hex_read(
    d: Document,
    name: &'static str,
    rule: spec_fn(Seq<u8>) -> Result<Seq<u8>, HexError>,
    r: Result<Option<Seq<u8>>, Error>,
) -> bool {
    match then(
        json_failure(text_at(d, name, false)),
        hex_failure(hex_at(text_at(d, name, false), rule)),
    ) {
        Some(e) => r == Err::<Option<Seq<u8>>, Error>(e),
        None => r == Ok::<Option<Seq<u8>>, Error>(hex_found(hex_at(text_at(d, name, false), rule))),
    }
}

/// Reads a member as a transaction id.
pub fn read_txid(v: &serde_json::Value, name: &'static str) -> (r: Result<Option<Txid>, Error>)
    ensures
        hex_read(
            document(*v),
            name,
            |b: Seq<u8>| decoded_backward(b),
            match r {
                Ok(Some(a)) => Ok(Some(a@)),
                Ok(None) => Ok(None),
                Err(e) => Err(e),
            },
        ),
{
    match read_str(v, name, false) {
        Err(e) => Err(e),
        Ok(None) => Ok(None),
        Ok(Some(s)) => match from_hex_txid(s) {
            Ok(a) => Ok(Some(a)),
            Err(e) => Err(e),
        },
    }
}

/// Reads a member as 32 bytes written as 64 hexadecimal digits.
pub fn read_hex_32(v: &serde_json::Value, name: &'static str) -> (r: Result<
    Option<[u8; 32]>,
    Error,
>)
    ensures
        hex_read(
            document(*v),
            name,
            |b: Seq<u8>| decoded_fixed(b, 32),
            match r {
                Ok(Some(a)) => Ok(Some(a@)),
                Ok(None) => Ok(None),
                Err(e) => Err(e),
            },
        ),
{
    match read_str(v, name, false) {
        Err(e) => Err(e),
        Ok(None) => Ok(None),
        Ok(Some(s)) => match from_hex_32(s) {
            Ok(a) => Ok(Some(a)),
            Err(e) => Err(e),
        },
    }
}

/// Reads a member as bytes written as hexadecimal digits.
pub fn read_hex(v: &serde_json::Value, name: &'static str) -> (r: Result<Option<Vec<u8>>, Error>)
    ensures
        hex_read(
            document(*v),
            name,
            |b: Seq<u8>| decoded(b),
            match r {
                Ok(Some(a)) => Ok(Some(a@)),
                Ok(None) => Ok(None),
                Err(e) => Err(e),
            },
        ),
{
    match read_str(v, name, false) {
        Err(e) => Err(e),
        Ok(None) => Ok(None),
        Ok(Some(s)) => match from_hex(s) {
            Ok(a) => Ok(Some(a)),
            Err(e) => Err(e),
        },
    }
}

/// The characters of an optional string.
pub open spec fn view_of(x: Option<String>) -> Option<Seq<char>> {
    match x {
        Some(s) => Some(s@),
        None => None,
    }
}

/// Copies an optional borrowed string.
fn owned(x: Option<&str>) -> (r: Option<String>)
    ensures
        view_of(r) == (match x {
            Some(s) => Some(s@),
            None => None,
        }),
{
    match x {
        Some(s) => Some(s.to_owned()),
        None => None,
    }
}

/// The bytes of the UTF-8 encoding of each text of a list.
pub open spec fn encoded_each(list: Seq<Seq<char>>) -> Seq<Seq<u8>> {
    Seq::new(list.len(), |i: int| encode_utf8(list[i]))
}

impl GetBalanceRes {
    /// What reading the member `confirmed` gives.
    pub open spec fn confirmed_at(d: Document) -> Result<Option<int>, crate::json::JsonError> {
        integer_at(d, "confirmed", false, 0, u64::MAX as int)
    }

    /// What reading the member `unconfirmed` gives.
    pub open spec fn unconfirmed_at(d: Document) -> Result<Option<int>, crate::json::JsonError> {
        integer_at(d, "unconfirmed", false, 0, u64::MAX as int)
    }

    /// The failure of decoding a payload, where it fails.
    pub open spec fn failure(d: Document) -> Option<Error> {
        then(
            not_object(d),
            then(
                json_failure(Self::confirmed_at(d)),
                then(
                    json_failure(Self::unconfirmed_at(d)),
                    then(
                        missing(found(Self::confirmed_at(d)), "confirmed"),
                        missing(found(Self::unconfirmed_at(d)), "unconfirmed"),
                    ),
                ),
            ),
        )
    }

    /// `r` is what decoding the payload `d` gives.
    pub open spec fn decoded_as(d: Document, r: Result<GetBalanceRes, Error>) -> bool {
        match Self::failure(d) {
            Some(e) => r matches Err(f) && f == e,
            None => r matches Ok(x) && Some(x.confirmed as int) == found(Self::confirmed_at(d))
                && Some(x.unconfirmed as int) == found(Self::unconfirmed_at(d)),
        }
    }

    /// Decodes the reply to a request for the balance of a script.
    pub fn from_value(v: &serde_json::Value) -> (r: Result<GetBalanceRes, Error>)
        ensures
            Self::decoded_as(document(*v), r),
    {
        match expect_object(v) {
            Ok(_) => {},
            Err(e) => { return Err(e); },
        }
        let confirmed = match read_u64(v, "confirmed", false) {
            Ok(x) => x,
            Err(e) => { return Err(e); },
        };
        let unconfirmed = match read_u64(v, "unconfirmed", false) {
            Ok(x) => x,
            Err(e) => { return Err(e); },
        };
        let confirmed = match require(confirmed, "confirmed") {
            Ok(x) => x,
            Err(e) => { return Err(e); },
        };
        let unconfirmed = match require(unconfirmed, "unconfirmed") {
            Ok(x) => x,
            Err(e) => { return Err(e); },
        };
        Ok(GetBalanceRes { confirmed, unconfirmed })
    }
}

impl GetHistoryRes {
    /// What reading the member `fee` gives.
    pub open spec fn fee_at(d: Document) -> Result<Option<int>, crate::json::JsonError> {
        integer_at(d, "fee", true, 0, u64::MAX as int)
    }

    /// What reading the member `height` gives.
    pub open spec fn height_at(d: Document) -> Result<Option<int>, crate::json::JsonError> {
        integer_at(d, "height", false, i32::MIN as int, i32::MAX as int)
    }

    /// What reading the member `tx_hash` gives.
    pub open spec fn tx_hash_at(d: Document) -> Option<Result<Seq<u8>, HexError>> {
        hex_at(text_at(d, "tx_hash", false), |b: Seq<u8>| decoded_backward(b))
    }

    /// The failure of decoding a payload, where it fails.
    pub open spec fn failure(d: Document) -> Option<Error> {
        then(
            not_object(d),
            then(
                json_failure(Self::fee_at(d)),
                then(
                    json_failure(Self::height_at(d)),
                    then(
                        json_failure(text_at(d, "tx_hash", false)),
                        then(
                            hex_failure(Self::tx_hash_at(d)),
                            then(
                                missing(found(Self::height_at(d)), "height"),
                                missing(Self::tx_hash_at(d), "tx_hash"),
                            ),
                        ),
                    ),
                ),
            ),
        )
    }

    /// `r` is what decoding the payload `d` gives.
    pub open spec fn decoded_as(d: Document, r: Result<GetHistoryRes, Error>) -> bool {
        match Self::failure(d) {
            Some(e) => r matches Err(f) && f == e,
            None => r matches Ok(x) && Some(x.height as int) == found(Self::height_at(d)) && Some(
                x.tx_hash@,
            ) == hex_found(Self::tx_hash_at(d)) && found(Self::fee_at(d)) == (match x.fee {
                Some(f) => Some(f as int),
                None => None,
            }),
        }
    }

    /// Decodes one entry of the reply to a request for the history of a script.
    pub fn from_value(v: &serde_json::Value) -> (r: Result<GetHistoryRes, Error>)
        ensures
            Self::decoded_as(document(*v), r),
    {
        match expect_object(v) {
            Ok(_) => {},
            Err(e) => { return Err(e); },
        }
        let fee = match read_u64(v, "fee", true) {
            Ok(x) => x,
            Err(e) => { return Err(e); },
        };
        let height = match read_i32(v, "height") {
            Ok(x) => x,
            Err(e) => { return Err(e); },
        };
        let tx_hash = match read_txid(v, "tx_hash") {
            Ok(x) => x,
            Err(e) => { return Err(e); },
        };
        let height = match require(height, "height") {
            Ok(x) => x,
            Err(e) => { return Err(e); },
        };
        let tx_hash = match require(tx_hash, "tx_hash") {
            Ok(x) => x,
            Err(e) => { return Err(e); },
        };
        Ok(GetHistoryRes { height, tx_hash, fee })
    }
}

impl ListUnspentRes {
    /// What reading the member `height` gives.
    pub open spec fn height_at(d: Document) -> Result<Option<int>, crate::json::JsonError> {
        integer_at(d, "height", false, 0, usize::MAX as int)
    }

    /// What reading the member `tx_hash` gives.
    pub open spec fn tx_hash_at(d: Document) -> Option<Result<Seq<u8>, HexError>> {
        hex_at(text_at(d, "tx_hash", false), |b: Seq<u8>| decoded_backward(b))
    }

    /// What reading the member `tx_pos` gives.
    pub open spec fn tx_pos_at(d: Document) -> Result<Option<int>, crate::json::JsonError> {
        integer_at(d, "tx_pos", false, 0, usize::MAX as int)
    }

    /// What reading the member `value` gives.
    pub open spec fn value_at(d: Document) -> Result<Option<int>, crate::json::JsonError> {
        integer_at(d, "value", false, 0, u64::MAX as int)
    }

    /// The failure of decoding a payload, where it fails.
    pub open spec fn failure(d: Document) -> Option<Error> {
        then(
            not_object(d),
            then(
                json_failure(Self::height_at(d)),
                then(
                    json_failure(text_at(d, "tx_hash", false)),
                    then(
                        hex_failure(Self::tx_hash_at(d)),
                        then(
                            json_failure(Self::tx_pos_at(d)),
                            then(
                                json_failure(Self::value_at(d)),
                                then(
                                    missing(found(Self::height_at(d)), "height"),
                                    then(
                                        missing(Self::tx_hash_at(d), "tx_hash"),
                                        then(
                                            missing(found(Self::tx_pos_at(d)), "tx_pos"),
                                            missing(found(Self::value_at(d)), "value"),
                                        ),
                                    ),
                                ),
                            ),
                        ),
                    ),
                ),
            ),
        )
    }

    /// `r` is what decoding the payload `d` gives.
    pub open spec fn decoded_as(d: Document, r: Result<ListUnspentRes, Error>) -> bool {
        match Self::failure(d) {
            Some(e) => r matches Err(f) && f == e,
            None => r matches Ok(x) && Some(x.height as int) == found(Self::height_at(d)) && Some(
                x.tx_hash@,
            ) == hex_found(Self::tx_hash_at(d)) && Some(x.tx_pos as int) == found(
                Self::tx_pos_at(d),
            ) && Some(x.value as int) == found(Self::value_at(d)),
        }
    }

    /// Decodes one entry of the reply to a request for the unspent outputs of a script.
    pub fn from_value(v: &serde_json::Value) -> (r: Result<ListUnspentRes, Error>)
        ensures
            Self::decoded_as(document(*v), r),
    {
        match expect_object(v) {
            Ok(_) => {},
            Err(e) => { return Err(e); },
        }
        let height = match read_usize(v, "height") {
            Ok(x) => x,
            Err(e) => { return Err(e); },
        };
        let tx_hash = match read_txid(v, "tx_hash") {
            Ok(x) => x,
            Err(e) => { return Err(e); },
        };
        let tx_pos = match read_usize(v, "tx_pos") {
            Ok(x) => x,
            Err(e) => { return Err(e); },
        };
        let value = match read_u64(v, "value", false) {
            Ok(x) => x,
            Err(e) => { return Err(e); },
        };
        let height = match require(height, "height") {
            Ok(x) => x,
            Err(e) => { return Err(e); },
        };
        let tx_hash = match require(tx_hash, "tx_hash") {
            Ok(x) => x,
            Err(e) => { return Err(e); },
        };
        let tx_pos = match require(tx_pos, "tx_pos") {
            Ok(x) => x,
            Err(e) => { return Err(e); },
        };
        let value = match require(value, "value") {
            Ok(x) => x,
            Err(e) => { return Err(e); },
        };
        Ok(ListUnspentRes { height, tx_hash, tx_pos, value })
    }
}

impl ServerFeaturesRes {
    /// What reading the member `genesis_hash` gives.
    pub open spec fn genesis_hash_at(d: Document) -> Option<Result<Seq<u8>, HexError>> {
        hex_at(text_at(d, "genesis_hash", false), |b: Seq<u8>| decoded_fixed(b, 32))
    }

    /// What reading the member `pruning` gives.
    pub open spec fn pruning_at(d: Document) -> Result<Option<int>, crate::json::JsonError> {
        integer_at(d, "pruning", true, i64::MIN as int, i64::MAX as int)
    }

    /// The failure of decoding a payload, where it fails.
    pub open spec fn failure(d: Document) -> Option<Error> {
        then(
            not_object(d),
            then(
                json_failure(text_at(d, "genesis_hash", false)),
                then(
                    hex_failure(Self::genesis_hash_at(d)),
                    then(
                        json_failure(text_at(d, "hash_function", true)),
                        then(
                            json_failure(text_at(d, "protocol_max", false)),
                            then(
                                json_failure(text_at(d, "protocol_min", false)),
                                then(
                                    json_failure(Self::pruning_at(d)),
                                    then(
                                        json_failure(text_at(d, "server_version", false)),
                                        Self::lacks(d),
                                    ),
                                ),
                            ),
                        ),
                    ),
                ),
            ),
        )
    }

    /// The failure owed for the first member that must be there and is not.
    pub open spec fn lacks(d: Document) -> Option<Error> {
        then(
            missing(found(text_at(d, "server_version", false)), "server_version"),
            then(
                missing(Self::genesis_hash_at(d), "genesis_hash"),
                then(
                    missing(found(text_at(d, "protocol_min", false)), "protocol_min"),
                    missing(found(text_at(d, "protocol_max", false)), "protocol_max"),
                ),
            ),
        )
    }

    /// `r` is what decoding the payload `d` gives.
    pub open spec fn decoded_as(d: Document, r: Result<ServerFeaturesRes, Error>) -> bool {
        match Self::failure(d) {
            Some(e) => r matches Err(f) && f == e,
            None => {
                &&& r matches Ok(x)
                &&& Some(x.server_version@) == found(text_at(d, "server_version", false))
                &&& Some(x.genesis_hash@) == hex_found(Self::genesis_hash_at(d))
                &&& Some(x.protocol_min@) == found(text_at(d, "protocol_min", false))
                &&& Some(x.protocol_max@) == found(text_at(d, "protocol_max", false))
                &&& view_of(x.hash_function) == found(text_at(d, "hash_function", true))
                &&& found(Self::pruning_at(d)) == (match x.pruning {
                    Some(p) => Some(p as int),
                    None => None,
                })
            },
        }
    }

    /// Decodes the reply to a request for the features of the server.
    pub fn from_value(v: &serde_json::Value) -> (r: Result<ServerFeaturesRes, Error>)
        ensures
            Self::decoded_as(document(*v), r),
    {
        match expect_object(v) {
            Ok(_) => {},
            Err(e) => { return Err(e); },
        }
        let genesis_hash = match read_hex_32(v, "genesis_hash") {
            Ok(x) => x,
            Err(e) => { return Err(e); },
        };
        let hash_function = match read_str(v, "hash_function", true) {
            Ok(x) => x,
            Err(e) => { return Err(e); },
        };
        let protocol_max = match read_str(v, "protocol_max", false) {
            Ok(x) => x,
            Err(e) => { return Err(e); },
        };
        let protocol_min = match read_str(v, "protocol_min", false) {
            Ok(x) => x,
            Err(e) => { return Err(e); },
        };
        let pruning = match read_i64(v, "pruning", true) {
            Ok(x) => x,
            Err(e) => { return Err(e); },
        };
        let server_version = match read_str(v, "server_version", false) {
            Ok(x) => x,
            Err(e) => { return Err(e); },
        };
        let server_version = match require(server_version, "server_version") {
            Ok(x) => x,
            Err(e) => { return Err(e); },
        };
        let genesis_hash = match require(genesis_hash, "genesis_hash") {
            Ok(x) => x,
            Err(e) => { return Err(e); },
        };
        let protocol_min = match require(protocol_min, "protocol_min") {
            Ok(x) => x,
            Err(e) => { return Err(e); },
        };
        let protocol_max = match require(protocol_max, "protocol_max") {
            Ok(x) => x,
            Err(e) => { return Err(e); },
        };
        Ok(
            ServerFeaturesRes {
                server_version: server_version.to_owned(),
                genesis_hash,
                protocol_min: protocol_min.to_owned(),
                protocol_max: protocol_max.to_owned(),
                hash_function: owned(hash_function),
                pruning,
            },
        )
    }
}

impl GetHeadersRes {
    /// What reading the member `count` gives.
    pub open spec fn count_at(d: Document) -> Result<Option<int>, crate::json::JsonError> {
        integer_at(d, "count", false, 0, usize::MAX as int)
    }

    /// What reading the member `hex` gives.
    pub open spec fn raw_headers_at(d: Document) -> Option<Result<Seq<u8>, HexError>> {
        hex_at(text_at(d, "hex", false), |b: Seq<u8>| decoded(b))
    }

    /// What reading the member `max` gives.
    pub open spec fn max_at(d: Document) -> Result<Option<int>, crate::json::JsonError> {
        integer_at(d, "max", false, 0, usize::MAX as int)
    }

    /// The failure of decoding a payload, where it fails.
    pub open spec fn failure(d: Document) -> Option<Error> {
        then(
            not_object(d),
            then(
                json_failure(Self::count_at(d)),
                then(
                    json_failure(text_at(d, "hex", false)),
                    then(
                        hex_failure(Self::raw_headers_at(d)),
                        then(
                            json_failure(Self::max_at(d)),
                            then(
                                missing(found(Self::max_at(d)), "max"),
                                then(
                                    missing(found(Self::count_at(d)), "count"),
                                    missing(Self::raw_headers_at(d), "hex"),
                                ),
                            ),
                        ),
                    ),
                ),
            ),
        )
    }

    /// `r` is what decoding the payload `d` gives. The list of headers of a
    /// decoded record is empty, whatever the payload holds.
    pub open spec fn decoded_as(d: Document, r: Result<GetHeadersRes, Error>) -> bool {
        match Self::failure(d) {
            Some(e) => r matches Err(f) && f == e,
            None => {
                &&& r matches Ok(x)
                &&& Some(x.max as int) == found(Self::max_at(d))
                &&& Some(x.count as int) == found(Self::count_at(d))
                &&& Some(x.raw_headers@) == hex_found(Self::raw_headers_at(d))
                &&& x.headers@ == Seq::<BlockHeader>::empty()
            },
        }
    }

    /// Decodes the reply to a request for a batch of headers. The headers
    /// themselves are left in `raw_headers`.
    pub fn from_value(v: &serde_json::Value) -> (r: Result<GetHeadersRes, Error>)
        ensures
            Self::decoded_as(document(*v), r),
            r matches Ok(x) ==> x.headers@.len() == 0,
    {
        match expect_object(v) {
            Ok(_) => {},
            Err(e) => { return Err(e); },
        }
        let count = match read_usize(v, "count") {
            Ok(x) => x,
            Err(e) => { return Err(e); },
        };
        let raw_headers = match read_hex(v, "hex") {
            Ok(x) => x,
            Err(e) => { return Err(e); },
        };
        let max = match read_usize(v, "max") {
            Ok(x) => x,
            Err(e) => { return Err(e); },
        };
        let max = match require(max, "max") {
            Ok(x) => x,
            Err(e) => { return Err(e); },
        };
        let count = match require(count, "count") {
            Ok(x) => x,
            Err(e) => { return Err(e); },
        };
        let raw_headers = match require(raw_headers, "hex") {
            Ok(x) => x,
            Err(e) => { return Err(e); },
        };
        Ok(GetHeadersRes { max, count, raw_headers, headers: Vec::new() })
    }
}

impl GetMerkleRes {
    /// What reading the member `block_height` gives.
    pub open spec fn block_height_at(d: Document) -> Result<Option<int>, crate::json::JsonError> {
        integer_at(d, "block_height", false, 0, usize::MAX as int)
    }

    /// What reading the member `merkle` gives.
    pub open spec fn merkle_at(d: Document) -> Option<Result<Seq<Seq<u8>>, HexError>> {
        match texts_at(d, "merkle") {
            Ok(Some(list)) => Some(decoded_list(encoded_each(list))),
            _ => None,
        }
    }

    /// What reading the member `pos` gives.
    pub open spec fn pos_at(d: Document) -> Result<Option<int>, crate::json::JsonError> {
        integer_at(d, "pos", false, 0, usize::MAX as int)
    }

    /// The failure of decoding a payload, where it fails.
    pub open spec fn failure(d: Document) -> Option<Error> {
        then(
            not_object(d),
            then(
                json_failure(Self::block_height_at(d)),
                then(
                    json_failure(texts_at(d, "merkle")),
                    then(
                        hex_failure(Self::merkle_at(d)),
                        then(
                            json_failure(Self::pos_at(d)),
                            then(
                                missing(found(Self::block_height_at(d)), "block_height"),
                                then(
                                    missing(found(Self::pos_at(d)), "pos"),
                                    missing(Self::merkle_at(d), "merkle"),
                                ),
                            ),
                        ),
                    ),
                ),
            ),
        )
    }

    /// `r` is what decoding the payload `d` gives.
    pub open spec fn decoded_as(d: Document, r: Result<GetMerkleRes, Error>) -> bool {
        match Self::failure(d) {
            Some(e) => r matches Err(f) && f == e,
            None => {
                &&& r matches Ok(x)
                &&& Some(x.block_height as int) == found(Self::block_height_at(d))
                &&& Some(x.pos as int) == found(Self::pos_at(d))
                &&& Self::merkle_at(d) == Some(Ok::<Seq<Seq<u8>>, HexError>(contents(x.merkle@)))
            },
        }
    }

    /// Decodes the reply to a request for the merkle proof of a transaction.
    pub fn from_value(v: &serde_json::Value) -> (r: Result<GetMerkleRes, Error>)
        ensures
            Self::decoded_as(document(*v), r),
    {
        match expect_object(v) {
            Ok(_) => {},
            Err(e) => { return Err(e); },
        }
        let block_height = match read_usize(v, "block_height") {
            Ok(x) => x,
            Err(e) => { return Err(e); },
        };
        let merkle = match read_strs(v, "merkle") {
            Ok(x) => x,
            Err(e) => { return Err(e); },
        };
        let merkle = match merkle {
            None => None,
            Some(list) => {
                assert(texts(list@) =~= encoded_each(views(list@)));
                match from_hex_array(&list) {
                    Ok(nodes) => Some(nodes),
                    Err(e) => { return Err(e); },
                }
            },
        };
        let pos = match read_usize(v, "pos") {
            Ok(x) => x,
            Err(e) => { return Err(e); },
        };
        let block_height = match require(block_height, "block_height") {
            Ok(x) => x,
            Err(e) => { return Err(e); },
        };
        let pos = match require(pos, "pos") {
            Ok(x) => x,
            Err(e) => { return Err(e); },
        };
        let merkle = match require(merkle, "merkle") {
            Ok(x) => x,
            Err(e) => { return Err(e); },
        };
        Ok(GetMerkleRes { block_height, pos, merkle })
    }
}

} // verus!
