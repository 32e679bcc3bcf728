//! JSON payloads as `serde_json` holds them, and the reading of members from them.
//!
//! A payload is a `serde_json::Value`. What such a value holds is named by
//! [`document`]; the few methods of `Value` that the decoders call are stated
//! over that name, and everything else here is proved from those statements.

use crate::error::Error;
use vstd::prelude::*;

verus! {

#[verifier::external_type_specification]
#[verifier::external_body]
pub struct ExValue(serde_json::Value);

/// Why a payload could not be read.
#[derive(Debug)]
pub enum JsonError {
    /// The text is not JSON: where the parser stopped, and its message.
    Syntax { line: usize, column: usize, message: String },
    /// The payload is not an object.
    NotAnObject,
    /// The object lacks the member of this name.
    MissingField(&'static str),
    /// The member of this name holds a value of the wrong kind or out of range.
    WrongType(&'static str),
}

/// A JSON document as mathematics sees it.
pub enum Document {
    /// `null`
    Null,
    /// `true` or `false`
    Bool(bool),
    /// A number held as an integer.
    Integer(int),
    /// Any other number.
    Fraction,
    /// A string.
    Text(Seq<char>),
    /// An array, in order.
    Array(Seq<Document>),
    /// An object: its members by name.
    Object(Map<Seq<char>, Document>),
}

/// The document that a `serde_json::Value` holds.
pub uninterp spec fn document(v: serde_json::Value) -> Document;

/// The document that a text is parsed into, where it is JSON.
pub uninterp spec fn parsed(text: Seq<char>) -> Option<Document>;

/// The member of a name, where the document is an object that has it.
pub open spec fn member_of(d: Document, name: Seq<char>) -> Option<Document> {
    match d {
        Document::Object(o) => if o.contains_key(name) {
            Some(o[name])
        } else {
            None
        },
        _ => None,
    }
}

/// The number, where the document is an integer from 0 to `u64::MAX`.
pub open spec fn unsigned_of(d: Document) -> Option<u64> {
    match d {
        Document::Integer(n) => if 0 <= n <= u64::MAX {
            Some(n as u64)
        } else {
            None
        },
        _ => None,
    }
}

/// The number, where the document is an integer from `i64::MIN` to `i64::MAX`.
pub open spec fn signed_of(d: Document) -> Option<i64> {
    match d {
        Document::Integer(n) => if i64::MIN <= n <= i64::MAX {
            Some(n as i64)
        } else {
            None
        },
        _ => None,
    }
}

/// The characters, where the document is a string.
pub open spec fn text_of(d: Document) -> Option<Seq<char>> {
    match d {
        Document::Text(s) => Some(s),
        _ => None,
    }
}

/// The items, where the document is an array.
pub open spec fn items_of(d: Document) -> Option<Seq<Document>> {
    match d {
        Document::Array(a) => Some(a),
        _ => None,
    }
}

/// The documents that a list of values holds, in order.
pub open spec fn documents(values: Seq<serde_json::Value>) -> Seq<Document> {
    Seq::new(values.len(), |i: int| document(values[i]))
}

/// `serde_json::from_str` for a `Value`. The result depends on the text
/// alone. A failure is handed out as the line and column at which the parser
/// stopped and the message it gives.
#[verifier::external_body]
fn value_from_str(text: &str) -> (r: Result<serde_json::Value, JsonError>)
    ensures
        match r {
            Ok(v) => parsed(text@) == Some(document(v)),
            Err(e) => parsed(text@) is None && e is Syntax,
        },
{
    match serde_json::from_str::<serde_json::Value>(text) {
        Ok(v) => Ok(v),
        Err(e) => Err(
            JsonError::Syntax { line: e.line(), column: e.column(), message: e.to_string() },
        ),
    }
}

/// `Value::get` with a name: the member of that name of an object, and
/// nothing for any other value.
#[verifier::external_body]
fn value_get<'a>(v: &'a serde_json::Value, name: &str) -> (r: Option<&'a serde_json::Value>)
    ensures
        match r {
            Some(m) => member_of(document(*v), name@) == Some(document(*m)),
            None => member_of(document(*v), name@) is None,
        },
{
    v.get(name)
}

/// `Value::is_object`.
#[verifier::external_body]
fn value_is_object(v: &serde_json::Value) -> (r: bool)
    ensures
        r == (document(*v) is Object),
{
    v.is_object()
}

/// `Value::is_null`.
#[verifier::external_body]
fn value_is_null(v: &serde_json::Value) -> (r: bool)
    ensures
        r == (document(*v) is Null),
{
    v.is_null()
}

/// `Value::as_u64`: the number, for an integer that is not negative.
#[verifier::external_body]
fn value_as_u64(v: &serde_json::Value) -> (r: Option<u64>)
    ensures
        r == unsigned_of(document(*v)),
{
    v.as_u64()
}

/// `Value::as_i64`: the number, for an integer that fits in 64 bits with a sign.
#[verifier::external_body]
fn value_as_i64(v: &serde_json::Value) -> (r: Option<i64>)
    ensures
        r == signed_of(document(*v)),
{
    v.as_i64()
}

/// `Value::as_str`: the characters of a string, borrowed.
#[verifier::external_body]
fn value_as_str<'a>(v: &'a serde_json::Value) -> (r: Option<&'a str>)
    ensures
        match r {
            Some(s) => text_of(document(*v)) == Some(s@),
            None => text_of(document(*v)) is None,
        },
{
    v.as_str()
}

/// `Value::as_array`: the items of an array, borrowed.
#[verifier::external_body]
fn value_as_array<'a>(v: &'a serde_json::Value) -> (r: Option<&'a Vec<serde_json::Value>>)
    ensures
        match r {
            Some(a) => items_of(document(*v)) == Some(documents(a@)),
            None => items_of(document(*v)) is None,
        },
{
    v.as_array()
}

/// `Value::clone`: a value that holds the same document.
pub assume_specification[ <serde_json::Value as Clone>::clone ](v: &serde_json::Value) -> (r:
    serde_json::Value)
    ensures
        document(r) == document(*v),
;

/// Parses the text of a payload.
pub fn parse(text: &str) -> (r: Result<serde_json::Value, Error>)
    ensures
        match r {
            Ok(v) => parsed(text@) == Some(document(v)),
            Err(e) => parsed(text@) is None && (e matches Error::JSON(j) && j is Syntax),
        },
{
    match value_from_str(text) {
        Ok(v) => Ok(v),
        Err(j) => Err(Error::JSON(j)),
    }
}

/// What reading the member `name` of a payload as an integer from `lo` to
/// `hi` gives: nothing where the payload has no such member, or where the
/// member is `null` and `nullable` says that this stands for nothing; the
/// number where the member is an integer in the range; a failure that names
/// the member otherwise.
pub open spec fn integer_at(d: Document, name: &'static str, nullable: bool, lo: int, hi: int)
    -> Result<Option<int>, JsonError> {
    match member_of(d, name@) {
        None => Ok(None),
        Some(Document::Null) => if nullable {
            Ok(None)
        } else {
            Err(JsonError::WrongType(name))
        },
        Some(Document::Integer(n)) => if lo <= n <= hi {
            Ok(Some(n))
        } else {
            Err(JsonError::WrongType(name))
        },
        Some(_) => Err(JsonError::WrongType(name)),
    }
}

/// What reading the member `name` of a payload as a string gives.
pub open spec fn text_at(d: Document, name: &'static str, nullable: bool)
    -> Result<Option<Seq<char>>, JsonError> {
    match member_of(d, name@) {
        None => Ok(None),
        Some(Document::Null) => if nullable {
            Ok(None)
        } else {
            Err(JsonError::WrongType(name))
        },
        Some(Document::Text(s)) => Ok(Some(s)),
        Some(_) => Err(JsonError::WrongType(name)),
    }
}

/// Every item is a string.
pub open spec fn all_texts(items: Seq<Document>) -> bool {
    forall|i: int| 0 <= i < items.len() ==> #[trigger] items[i] is Text
}

/// What reading the member `name` of a payload as an array of strings gives.
pub open spec fn texts_at(d: Document, name: &'static str)
    -> Result<Option<Seq<Seq<char>>>, JsonError> {
    match member_of(d, name@) {
        None => Ok(None),
        Some(Document::Array(items)) => if all_texts(items) {
            Ok(Some(Seq::new(items.len(), |i: int| text_of(items[i]).unwrap())))
        } else {
            Err(JsonError::WrongType(name))
        },
        Some(_) => Err(JsonError::WrongType(name)),
    }
}

/// Every item is an integer from 0 to 255.
pub open spec fn all_bytes(items: Seq<Document>) -> bool {
    forall|i: int|
        0 <= i < items.len() ==> (#[trigger] items[i] matches Document::Integer(n) && 0 <= n
            <= 255)
}

/// What reading the member `name` of a payload as 32 bytes gives, the bytes
/// being written as an array of 32 numbers.
pub open spec fn bytes_at(d: Document, name: &'static str) -> Result<Option<Seq<u8>>, JsonError> {
    match member_of(d, name@) {
        None => Ok(None),
        Some(Document::Array(items)) => if items.len() == 32 && all_bytes(items) {
            Ok(Some(Seq::new(32, |i: int| unsigned_of(items[i]).unwrap() as u8)))
        } else {
            Err(JsonError::WrongType(name))
        },
        Some(_) => Err(JsonError::WrongType(name)),
    }
}

/// The call failed with the failure that the reading names, or both succeeded.
pub open spec fn fails_as<A, B>(r: Result<A, Error>, s: Result<B, JsonError>) -> bool {
    match r {
        Ok(_) => s is Ok,
        Err(e) => e matches Error::JSON(j) && s == Err::<B, JsonError>(j),
    }
}

/// Reads a member as an integer from 0 to `u64::MAX`.
pub fn read_u64(v: &serde_json::Value, name: &'static str, nullable: bool) -> (r: Result<
    Option<u64>,
    Error,
>)
    ensures
        fails_as(r, integer_at(document(*v), name, nullable, 0, u64::MAX as int)),
        r matches Ok(x) ==> integer_at(document(*v), name, nullable, 0, u64::MAX as int) == Ok::<
            Option<int>,
            JsonError,
        >(
            match x {
                Some(n) => Some(n as int),
                None => None,
            },
        ),
{
    match value_get(v, name) {
        None => Ok(None),
        Some(m) => match value_as_u64(m) {
            Some(n) => Ok(Some(n)),
            None => if nullable && value_is_null(m) {
                Ok(None)
            } else {
                Err(Error::JSON(JsonError::WrongType(name)))
            },
        },
    }
}

/// Reads a member as an integer from `i64::MIN` to `i64::MAX`.
pub fn read_i64(v: &serde_json::Value, name: &'static str, nullable: bool) -> (r: Result<
    Option<i64>,
    Error,
>)
    ensures
        fails_as(r, integer_at(document(*v), name, nullable, i64::MIN as int, i64::MAX as int)),
        r matches Ok(x) ==> integer_at(
            document(*v),
            name,
            nullable,
            i64::MIN as int,
            i64::MAX as int,
        ) == Ok::<Option<int>, JsonError>(
            match x {
                Some(n) => Some(n as int),
                None => None,
            },
        ),
{
    match value_get(v, name) {
        None => Ok(None),
        Some(m) => match value_as_i64(m) {
            Some(n) => Ok(Some(n)),
            None => if nullable && value_is_null(m) {
                Ok(None)
            } else {
                Err(Error::JSON(JsonError::WrongType(name)))
            },
        },
    }
}

/// Reads a member as an integer from `i32::MIN` to `i32::MAX`.
pub fn read_i32(v: &serde_json::Value, name: &'static str) -> (r: Result<Option<i32>, Error>)
    ensures
        fails_as(r, integer_at(document(*v), name, false, i32::MIN as int, i32::MAX as int)),
        r matches Ok(x) ==> integer_at(
            document(*v),
            name,
            false,
            i32::MIN as int,
            i32::MAX as int,
        ) == Ok::<Option<int>, JsonError>(
            match x {
                Some(n) => Some(n as int),
                None => None,
            },
        ),
{
    match read_i64(v, name, false) {
        Err(e) => Err(e),
        Ok(None) => Ok(None),
        Ok(Some(n)) => if -0x8000_0000 <= n && n <= 0x7fff_ffff {
            Ok(Some(n as i32))
        } else {
            Err(Error::JSON(JsonError::WrongType(name)))
        },
    }
}

/// Reads a member as an integer from 0 to `usize::MAX`.
pub fn read_usize(v: &serde_json::Value, name: &'static str) -> (r: Result<Option<usize>, Error>)
    ensures
        fails_as(r, integer_at(document(*v), name, false, 0, usize::MAX as int)),
        r matches Ok(x) ==> integer_at(document(*v), name, false, 0, usize::MAX as int) == Ok::<
            Option<int>,
            JsonError,
        >(
            match x {
                Some(n) => Some(n as int),
                None => None,
            },
        ),
{
    match read_u64(v, name, false) {
        Err(e) => Err(e),
        Ok(None) => Ok(None),
        Ok(Some(n)) => if n <= usize::MAX as u64 {
            Ok(Some(n as usize))
        } else {
            Err(Error::JSON(JsonError::WrongType(name)))
        },
    }
}

/// Reads a member as a string, borrowed from the payload.
pub fn read_str<'a>(v: &'a serde_json::Value, name: &'static str, nullable: bool) -> (r: Result<
    Option<&'a str>,
    Error,
>)
    ensures
        fails_as(r, text_at(document(*v), name, nullable)),
        r matches Ok(x) ==> text_at(document(*v), name, nullable) == Ok::<
            Option<Seq<char>>,
            JsonError,
        >(
            match x {
                Some(s) => Some(s@),
                None => None,
            },
        ),
{
    match value_get(v, name) {
        None => Ok(None),
        Some(m) => match value_as_str(m) {
            Some(s) => Ok(Some(s)),
            None => if nullable && value_is_null(m) {
                Ok(None)
            } else {
                Err(Error::JSON(JsonError::WrongType(name)))
            },
        },
    }
}

/// The characters of each text of a list.
pub open spec fn views(items: Seq<&str>) -> Seq<Seq<char>> {
    Seq::new(items.len(), |i: int| items[i]@)
}

/// Reads a member as an array of strings, borrowed from the payload.
pub fn read_strs<'a>(v: &'a serde_json::Value, name: &'static str) -> (r: Result<
    Option<Vec<&'a str>>,
    Error,
>)
    ensures
        fails_as(r, texts_at(document(*v), name)),
        r matches Ok(x) ==> texts_at(document(*v), name) == Ok::<
            Option<Seq<Seq<char>>>,
            JsonError,
        >(
            match x {
                Some(list) => Some(views(list@)),
                None => None,
            },
        ),
{
    let m = match value_get(v, name) {
        None => { return Ok(None); },
        Some(m) => m,
    };
    let items = match value_as_array(m) {
        None => { return Err(Error::JSON(JsonError::WrongType(name))); },
        Some(items) => items,
    };
    let ghost docs = documents(items@);
    let mut list: Vec<&'a str> = Vec::new();
    let mut i: usize = 0;
    while i < items.len()
        invariant
            i <= items.len(),
            list.len() == i,
            docs == documents(items@),
            member_of(document(*v), name@) == Some(Document::Array(docs)),
            forall|j: int| 0 <= j < i ==> #[trigger] docs[j] == Document::Text(list@[j]@),
        decreases items.len() - i,
    {
        match value_as_str(&items[i]) {
            Some(s) => {
                assert(docs[i as int] == document(items@[i as int]));
                list.push(s);
            },
            None => {
                assert(docs[i as int] == document(items@[i as int]));
                assert(!all_texts(docs));
                return Err(Error::JSON(JsonError::WrongType(name)));
            },
        }
        i += 1;
    }
    proof {
        assert(all_texts(docs));
        assert(views(list@) =~= Seq::new(docs.len(), |i: int| text_of(docs[i]).unwrap()));
    }
    Ok(Some(list))
}

/// Reads a member as 32 bytes written as an array of 32 numbers.
pub fn read_bytes32(v: &serde_json::Value, name: &'static str) -> (r: Result<
    Option<[u8; 32]>,
    Error,
>)
    ensures
        fails_as(r, bytes_at(document(*v), name)),
        r matches Ok(x) ==> bytes_at(document(*v), name) == Ok::<Option<Seq<u8>>, JsonError>(
            match x {
                Some(a) => Some(a@),
                None => None,
            },
        ),
{
    let m = match value_get(v, name) {
        None => { return Ok(None); },
        Some(m) => m,
    };
    let items = match value_as_array(m) {
        None => { return Err(Error::JSON(JsonError::WrongType(name))); },
        Some(items) => items,
    };
    if items.len() != 32 {
        return Err(Error::JSON(JsonError::WrongType(name)));
    }
    let ghost docs = documents(items@);
    let mut out: [u8; 32] = [0u8; 32];
    let mut i: usize = 0;
    while i < 32
        invariant
            i <= 32,
            items.len() == 32,
            docs == documents(items@),
            member_of(document(*v), name@) == Some(Document::Array(docs)),
            forall|j: int|
                0 <= j < i ==> (#[trigger] docs[j] matches Document::Integer(n) && 0 <= n <= 255
                    && out@[j] == n),
        decreases 32 - i,
    {
        assert(docs[i as int] == document(items@[i as int]));
        match value_as_u64(&items[i]) {
            Some(n) => {
                if n > 255 {
                    assert(!all_bytes(docs));
                    return Err(Error::JSON(JsonError::WrongType(name)));
                }
                out[i] = n as u8;
            },
            None => {
                assert(!all_bytes(docs));
                return Err(Error::JSON(JsonError::WrongType(name)));
            },
        }
        i += 1;
    }
    proof {
        assert(all_bytes(docs));
        assert(out@ =~= Seq::new(32, |i: int| unsigned_of(docs[i]).unwrap() as u8));
    }
    Ok(Some(out))
}

/// Hands out a member that must be there, or says that it is missing.
pub fn require<T>(x: Option<T>, name: &'static str) -> (r: Result<T, Error>)
    ensures
        match r {
            Ok(t) => x == Some(t),
            Err(e) => x is None && e == Error::JSON(JsonError::MissingField(name)),
        },
{
    match x {
        Some(t) => Ok(t),
        None => Err(Error::JSON(JsonError::MissingField(name))),
    }
}

/// Tells whether the payload is an object, and fails where it is not.
pub fn expect_object(v: &serde_json::Value) -> (r: Result<(), Error>)
    ensures
        match r {
            Ok(_) => document(*v) is Object,
            Err(e) => !(document(*v) is Object) && e == Error::JSON(JsonError::NotAnObject),
        },
{
    if value_is_object(v) {
        Ok(())
    } else {
        Err(Error::JSON(JsonError::NotAnObject))
    }
}

/// The failure of a reading, lifted, where it failed.
pub open spec fn json_failure<T>(s: Result<T, JsonError>) -> Option<Error> {
    match s {
        Ok(_) => None,
        Err(j) => Some(Error::JSON(j)),
    }
}

/// The failure of reading hexadecimal text, lifted, where there was a text and
/// reading it failed.
pub open spec fn hex_failure<T>(s: Option<Result<T, crate::hex::HexError>>) -> Option<Error> {
    match s {
        Some(Err(h)) => Some(Error::Hex(h)),
        _ => None,
    }
}

/// The failure owed for a member that must be there and is not.
pub open spec fn missing<T>(x: Option<T>, name: &'static str) -> Option<Error> {
    match x {
        Some(_) => None,
        None => Some(Error::JSON(JsonError::MissingField(name))),
    }
}

/// The failure owed for a payload that is not an object.
pub open spec fn not_object(d: Document) -> Option<Error> {
    if d is Object {
        None
    } else {
        Some(Error::JSON(JsonError::NotAnObject))
    }
}

/// The first of two failures: the second counts only where the first did not happen.
pub open spec fn then(first: Option<Error>, second: Option<Error>) -> Option<Error> {
    if first is Some {
        first
    } else {
        second
    }
}

/// What was read, where the reading gave something.
pub open spec fn found<T>(s: Result<Option<T>, JsonError>) -> Option<T> {
    match s {
        Ok(x) => x,
        Err(_) => None,
    }
}

} // verus!
