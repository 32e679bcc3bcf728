//! Requests, and the text in which they go to the server.

use crate::error::Error;
use crate::hex::{digit_of, push_digit};
use crate::json::JsonError;
use vstd::prelude::*;
use vstd::string::*;

verus! {

/// One argument of a request.
#[derive(Clone)]
pub enum Param {
    /// A number of 32 bits.
    U32(u32),
    /// A number of the size of an address.
    Usize(usize),
    /// A string.
    String(String),
    /// A truth value.
    Bool(bool),
    /// Any JSON value.
    Json(serde_json::Value),
}

/// A request as it is sent to the server. Every request names version 2.0
/// of JSON-RPC; this is no field, so no caller can set it.
#[derive(Clone)]
pub struct Request<'a> {
    /// The number by which the reply is matched to the request.
    pub id: usize,
    /// The name of the method that is called.
    pub method: &'a str,
    /// The arguments of the call, in order.
    pub params: Vec<Param>,
}

/// The text in which JSON writes a string: quoted, and escaped where needed.
pub uninterp spec fn json_string(s: Seq<char>) -> Seq<char>;

/// The text in which JSON writes a value, without any space.
pub uninterp spec fn json_text(v: serde_json::Value) -> Seq<char>;

/// The decimal digits of a number, most significant first.
pub open spec fn decimal(n: nat) -> Seq<char>
    decreases n,
{
    if n < 10 {
        seq![digit_of(n as u8) as char]
    } else {
        decimal(n / 10).push(digit_of((n % 10) as u8) as char)
    }
}

/// The texts one after the other, with a comma between each two.
pub open spec fn joined(texts: Seq<Seq<char>>) -> Seq<char>
    decreases texts.len(),
{
    if texts.len() == 0 {
        Seq::empty()
    } else if texts.len() == 1 {
        texts[0]
    } else {
        joined(texts.drop_last()) + seq![','] + texts.last()
    }
}

/// The version of JSON-RPC that every request names.
pub open spec fn protocol_version() -> Seq<char> {
    seq!['2', '.', '0']
}

/// The text of a request with this number, whose method and arguments are
/// already written as JSON: an object with the members `jsonrpc`, `id`,
/// `method` and `params`, in this order and without any space.
pub open spec fn framed(id: nat, method: Seq<char>, params: Seq<Seq<char>>) -> Seq<char> {
    "{\"jsonrpc\":\""@ + protocol_version() + "\",\"id\":"@ + decimal(id) + ",\"method\":"@
        + method + ",\"params\":["@ + joined(params) + "]}"@
}

impl Param {
    /// The text in which the argument goes to the server: the bare value.
    pub open spec fn wire_text(self) -> Seq<char> {
        match self {
            Param::U32(n) => decimal(n as nat),
            Param::Usize(n) => decimal(n as nat),
            Param::String(s) => json_string(s@),
            Param::Bool(b) => if b {
                "true"@
            } else {
                "false"@
            },
            Param::Json(v) => json_text(v),
        }
    }
}

/// The texts of the arguments, in order.
pub open spec fn wire_texts(params: Seq<Param>) -> Seq<Seq<char>> {
    Seq::new(params.len(), |i: int| params[i].wire_text())
}

/// The views of a list of strings.
pub open spec fn string_views(texts: Seq<String>) -> Seq<Seq<char>> {
    Seq::new(texts.len(), |i: int| texts[i]@)
}

impl<'a> Request<'a> {
    /// The text in which the request goes to the server.
    pub open spec fn wire_text(&self) -> Seq<char> {
        framed(self.id as nat, json_string(self.method@), wire_texts(self.params@))
    }

    /// Makes a request with the number 0.
    pub fn new(method: &'a str, params: Vec<Param>) -> (r: Self)
        ensures
            r.id == 0,
            r.method == method,
            r.params == params,
    {
        Self { id: 0, method, params }
    }

    /// Makes a request with a number of the caller's choice.
    pub fn new_id(id: usize, method: &'a str, params: Vec<Param>) -> (r: Self)
        ensures
            r.id == id,
            r.method == method,
            r.params == params,
    {
        let mut instance = Self::new(method, params);
        instance.id = id;
        instance
    }

    /// The version of JSON-RPC that the request names: always 2.0.
    pub fn jsonrpc(&self) -> (r: &'static str)
        ensures
            r@ == protocol_version(),
    {
        proof {
            lemma_protocol_version();
        }
        "2.0"
    }
}

/// Whatever its number, method and arguments, the text of a request begins
/// with the member `jsonrpc` and the version 2.0.
pub proof fn lemma_request_names_version(r: Request)
    ensures
        r.wire_text().len() > 16,
        r.wire_text().take(16) == "{\"jsonrpc\":\"2.0\""@,
{
    reveal_strlit("{\"jsonrpc\":\"");
    reveal_strlit("\",\"id\":");
    reveal_strlit("{\"jsonrpc\":\"2.0\"");
    let head = "{\"jsonrpc\":\""@ + protocol_version() + "\",\"id\":"@;
    let rest = decimal(r.id as nat) + ",\"method\":"@ + json_string(r.method@) + ",\"params\":["@
        + joined(wire_texts(r.params@)) + "]}"@;
    assert(r.wire_text() =~= head + rest);
    assert(head.len() == 22);
    assert(r.wire_text().take(16) =~= "{\"jsonrpc\":\"2.0\""@);
}

/// The literal that names the version is the three characters `2.0`.
pub proof fn lemma_protocol_version()
    ensures
        "2.0"@ == protocol_version(),
{
    reveal_strlit("2.0");
    assert("2.0"@ =~= protocol_version());
}

/// `serde_json::to_string` for a string: the string as JSON writes it. The
/// text depends on the string alone. The call cannot fail: the text is
/// written into a vector in memory, and writing a string reports no failure
/// of its own.
#[verifier::external_body]
fn string_to_json(s: &str) -> (r: Result<String, JsonError>)
    ensures
        r is Ok,
        r matches Ok(t) ==> t@ == json_string(s@),
{
    match serde_json::to_string(s) {
        Ok(t) => Ok(t),
        Err(e) => Err(
            JsonError::Syntax { line: e.line(), column: e.column(), message: e.to_string() },
        ),
    }
}

/// `serde_json::to_string` for a value: the value as JSON writes it, without
/// any space. The text depends on the value alone. The call cannot fail: the
/// text is written into a vector in memory, every name in an object is a
/// string and every number is finite.
#[verifier::external_body]
fn value_to_json(v: &serde_json::Value) -> (r: Result<String, JsonError>)
    ensures
        r is Ok,
        r matches Ok(t) ==> t@ == json_text(*v),
{
    match serde_json::to_string(v) {
        Ok(t) => Ok(t),
        Err(e) => Err(
            JsonError::Syntax { line: e.line(), column: e.column(), message: e.to_string() },
        ),
    }
}

/// Appends the decimal digits of a number.
pub fn push_decimal(out: &mut String, n: u64)
    ensures
        final(out)@ == old(out)@ + decimal(n as nat),
    decreases n,
{
    if n >= 10 {
        push_decimal(out, n / 10);
    }
    push_digit(out, (n % 10) as u8);
    proof {
        if n < 10 {
            assert(old(out)@.push(digit_of(n as u8) as char) =~= old(out)@ + decimal(n as nat));
        } else {
            assert((old(out)@ + decimal((n / 10) as nat)).push(digit_of((n % 10) as u8) as char)
                =~= old(out)@ + decimal(n as nat));
        }
    }
}

/// Joins texts with commas.
pub fn join(texts: &Vec<String>) -> (r: String)
    ensures
        r@ == joined(string_views(texts@)),
{
    let mut out = String::new();
    let mut i: usize = 0;
    let ghost all = string_views(texts@);
    assert(all.take(0) =~= Seq::<Seq<char>>::empty());
    while i < texts.len()
        invariant
            i <= texts.len(),
            all == string_views(texts@),
            out@ == joined(all.take(i as int)),
        decreases texts.len() - i,
    {
        proof {
            let next = all.take(i + 1);
            assert(next.drop_last() =~= all.take(i as int));
            assert(next.last() == texts@[i as int]@);
            reveal_strlit(",");
            assert(","@ =~= seq![',']);
            if i > 0 {
                assert(joined(next) == joined(all.take(i as int)) + seq![','] + texts@[i as int]@);
            } else {
                assert(joined(next) =~= texts@[i as int]@);
                assert(out@ + texts@[i as int]@ =~= texts@[i as int]@);
            }
        }
        if i > 0 {
            out.append(",");
        }
        out.append(texts[i].as_str());
        i += 1;
    }
    assert(all.take(i as int) =~= all);
    out
}

/// Frames a request whose method and arguments are already written as JSON.
pub fn frame(id: usize, method: &str, params: &Vec<String>) -> (r: String)
    ensures
        r@ == framed(id as nat, method@, string_views(params@)),
{
    let mut out = String::new();
    out.append("{\"jsonrpc\":\"");
    out.append("2.0");
    out.append("\",\"id\":");
    push_decimal(&mut out, id as u64);
    out.append(",\"method\":");
    out.append(method);
    out.append(",\"params\":[");
    let list = join(params);
    out.append(list.as_str());
    out.append("]}");
    proof {
        lemma_protocol_version();
        assert(out@ =~= framed(id as nat, method@, string_views(params@)));
    }
    out
}

impl Param {
    /// Writes the argument as it goes to the server: the bare value, without
    /// a tag or an object round it. Strings and JSON values are written by
    /// `serde_json`. The result is always `Ok`.
    pub fn to_json(&self) -> (r: Result<String, Error>)
        ensures
            r matches Ok(t) && t@ == self.wire_text(),
    {
        match self {
            Param::U32(n) => {
                let mut out = String::new();
                push_decimal(&mut out, *n as u64);
                assert(out@ =~= decimal(*n as nat));
                Ok(out)
            },
            Param::Usize(n) => {
                let mut out = String::new();
                push_decimal(&mut out, *n as u64);
                assert(out@ =~= decimal(*n as nat));
                Ok(out)
            },
            Param::String(s) => match string_to_json(s.as_str()) {
                Ok(t) => Ok(t),
                Err(j) => Err(Error::JSON(j)),
            },
            Param::Bool(b) => if *b {
                Ok("true".to_owned())
            } else {
                Ok("false".to_owned())
            },
            Param::Json(v) => match value_to_json(v) {
                Ok(t) => Ok(t),
                Err(j) => Err(Error::JSON(j)),
            },
        }
    }
}

impl<'a> Request<'a> {
    /// Writes the request as it goes to the server: one JSON object with the
    /// members `jsonrpc`, `id`, `method` and `params`, in this order. The
    /// method and the strings and JSON values among the arguments are written
    /// by `serde_json`. The result is always `Ok`.
    pub fn to_json(&self) -> (r: Result<String, Error>)
        ensures
            r matches Ok(t) && t@ == self.wire_text(),
    {
        let method = match string_to_json(self.method) {
            Ok(t) => t,
            Err(j) => { return Err(Error::JSON(j)); },
        };
        let mut texts: Vec<String> = Vec::new();
        let mut i: usize = 0;
        while i < self.params.len()
            invariant
                i <= self.params.len(),
                texts.len() == i,
                forall|k: int| 0 <= k < i ==> #[trigger] texts@[k]@ == self.params@[k].wire_text(),
            decreases self.params.len() - i,
        {
            match self.params[i].to_json() {
                Ok(t) => texts.push(t),
                Err(e) => { return Err(e); },
            }
            i += 1;
        }
        assert(string_views(texts@) =~= wire_texts(self.params@));
        Ok(frame(self.id, method.as_str(), &texts))
    }
}

} // verus!
