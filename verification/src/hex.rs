//! Hexadecimal text and the bytes it stands for.
//!
//! Text is read by the `FromHex` implementations of `bitcoin::hashes`; what
//! they return is stated here over the bytes of the text. Writing bytes back
//! as text is done here.

use crate::error::Error;
use crate::script_hash::Txid;
use bitcoin::hashes::hex::FromHex;
use vstd::prelude::*;
use vstd::string::*;
use vstd::utf8::*;

verus! {

/// Why a string could not be read as hexadecimal.
#[derive(Debug, Clone, Copy, PartialEq, Eq)]
pub enum HexError {
    /// A byte of the text that is no hexadecimal digit.
    InvalidChar(u8),
    /// The text has an odd number of bytes; the number is given.
    OddLengthString(usize),
    /// The text does not have the length the target needs: expected, found.
    InvalidLength(usize, usize),
}

/// The value of an ASCII hexadecimal digit, upper or lower case.
pub open spec fn digit_value(b: u8) -> Option<u8> {
    if 0x30 <= b <= 0x39 {
        Some((b - 0x30) as u8)
    } else if 0x61 <= b <= 0x66 {
        Some((b - 0x61 + 10) as u8)
    } else if 0x41 <= b <= 0x46 {
        Some((b - 0x41 + 10) as u8)
    } else {
        None
    }
}

/// Every byte of the text is a hexadecimal digit.
pub open spec fn all_digits(s: Seq<u8>) -> bool {
    forall|i: int| 0 <= i < s.len() ==> digit_value(#[trigger] s[i]) is Some
}

/// The index of the first byte that is no digit; the length where there is none.
pub open spec fn first_invalid(s: Seq<u8>) -> int
    decreases s.len(),
{
    if s.len() == 0 {
        0
    } else if digit_value(s[0]) is None {
        0
    } else {
        1 + first_invalid(s.drop_first())
    }
}

/// The byte that the digits at `2 * i` and `2 * i + 1` write, high digit first.
pub open spec fn byte_at(s: Seq<u8>, i: int) -> u8 {
    (16 * digit_value(s[2 * i]).unwrap() + digit_value(s[2 * i + 1]).unwrap()) as u8
}

/// The bytes that a text of digits writes, two digits to a byte.
pub open spec fn bytes_of(s: Seq<u8>) -> Seq<u8> {
    Seq::new((s.len() / 2) as nat, |i: int| byte_at(s, i))
}

/// The text with its two-byte groups in the opposite order.
pub open spec fn pairs_reversed(s: Seq<u8>) -> Seq<u8> {
    Seq::new(s.len(), |i: int| s[s.len() - 2 - 2 * (i / 2) + i % 2])
}

/// What reading a text of any length gives.
pub open spec fn decoded(s: Seq<u8>) -> Result<Seq<u8>, HexError> {
    if s.len() % 2 != 0 {
        Err(HexError::OddLengthString(s.len() as usize))
    } else if !all_digits(s) {
        Err(HexError::InvalidChar(s[first_invalid(s)]))
    } else {
        Ok(bytes_of(s))
    }
}

/// What reading a text into exactly `n` bytes gives.
pub open spec fn decoded_fixed(s: Seq<u8>, n: nat) -> Result<Seq<u8>, HexError> {
    if s.len() % 2 != 0 {
        Err(HexError::OddLengthString(s.len() as usize))
    } else if s.len() != 2 * n {
        Err(HexError::InvalidLength((2 * n) as usize, s.len() as usize))
    } else {
        decoded(s)
    }
}

/// What reading a text into 32 bytes gives when the text writes them last
/// byte first, as transaction ids are written.
pub open spec fn decoded_backward(s: Seq<u8>) -> Result<Seq<u8>, HexError> {
    if s.len() % 2 != 0 {
        Err(HexError::OddLengthString(s.len() as usize))
    } else if s.len() != 64 {
        Err(HexError::InvalidLength(64, s.len() as usize))
    } else {
        decoded(pairs_reversed(s))
    }
}

/// `Vec::<u8>::from_hex` of `bitcoin::hashes`. An odd number of bytes is
/// refused with that number; otherwise the pairs are read in order, the first
/// byte that is no digit is reported, and each pair gives one byte, high
/// digit first.
#[verifier::external_body]
fn vec_from_hex(s: &str) -> (r: Result<Vec<u8>, HexError>)
    ensures
        match r {
            Ok(v) => decoded(s.spec_bytes()) == Ok::<Seq<u8>, HexError>(v@),
            Err(e) => decoded(s.spec_bytes()) == Err::<Seq<u8>, HexError>(e),
        },
{
    match Vec::<u8>::from_hex(s) {
        Ok(v) => Ok(v),
        Err(bitcoin::hashes::hex::Error::InvalidChar(c)) => Err(HexError::InvalidChar(c)),
        Err(bitcoin::hashes::hex::Error::OddLengthString(n)) => Err(HexError::OddLengthString(n)),
        Err(bitcoin::hashes::hex::Error::InvalidLength(n, m)) => Err(HexError::InvalidLength(n, m)),
    }
}

/// `<[u8; 32]>::from_hex` of `bitcoin::hashes`. As for a vector, but after
/// the test for an odd length a text that is not 64 bytes long is refused
/// with both lengths.
#[verifier::external_body]
fn array_from_hex(s: &str) -> (r: Result<[u8; 32], HexError>)
    ensures
        match r {
            Ok(a) => decoded_fixed(s.spec_bytes(), 32) == Ok::<Seq<u8>, HexError>(a@),
            Err(e) => decoded_fixed(s.spec_bytes(), 32) == Err::<Seq<u8>, HexError>(e),
        },
{
    match <[u8; 32]>::from_hex(s) {
        Ok(a) => Ok(a),
        Err(bitcoin::hashes::hex::Error::InvalidChar(c)) => Err(HexError::InvalidChar(c)),
        Err(bitcoin::hashes::hex::Error::OddLengthString(n)) => Err(HexError::OddLengthString(n)),
        Err(bitcoin::hashes::hex::Error::InvalidLength(n, m)) => Err(HexError::InvalidLength(n, m)),
    }
}

/// `bitcoin::Txid::from_hex`, with the id handed out as its 32 bytes. The
/// lengths are tested as for an array; then the pairs are read from the last
/// to the first, so the bytes come out in the opposite order of the text and
/// the byte reported is the first that fails in that order.
#[verifier::external_body]
fn txid_from_hex(s: &str) -> (r: Result<[u8; 32], HexError>)
    ensures
        match r {
            Ok(a) => decoded_backward(s.spec_bytes()) == Ok::<Seq<u8>, HexError>(a@),
            Err(e) => decoded_backward(s.spec_bytes()) == Err::<Seq<u8>, HexError>(e),
        },
{
    match bitcoin::Txid::from_hex(s) {
        Ok(t) => Ok(bitcoin::hashes::Hash::into_inner(t)),
        Err(bitcoin::hashes::hex::Error::InvalidChar(c)) => Err(HexError::InvalidChar(c)),
        Err(bitcoin::hashes::hex::Error::OddLengthString(n)) => Err(HexError::OddLengthString(n)),
        Err(bitcoin::hashes::hex::Error::InvalidLength(n, m)) => Err(HexError::InvalidLength(n, m)),
    }
}

/// The bytes of each text of a list.
pub open spec fn texts(items: Seq<&str>) -> Seq<Seq<u8>> {
    Seq::new(items.len(), |i: int| items[i].spec_bytes())
}

/// The contents of each array of a list.
pub open spec fn contents(items: Seq<[u8; 32]>) -> Seq<Seq<u8>> {
    Seq::new(items.len(), |i: int| items[i]@)
}

/// What reading a list of texts gives, each into 32 bytes: all of them in
/// order, or the failure of the first text that cannot be read.
pub open spec fn decoded_list(items: Seq<Seq<u8>>) -> Result<Seq<Seq<u8>>, HexError>
    decreases items.len(),
{
    if items.len() == 0 {
        Ok(Seq::empty())
    } else {
        match decoded_list(items.drop_last()) {
            Err(e) => Err(e),
            Ok(front) => match decoded_fixed(items.last(), 32) {
                Err(e) => Err(e),
                Ok(bytes) => Ok(front.push(bytes)),
            },
        }
    }
}

/// Reads hexadecimal text of any even length into bytes.
pub fn from_hex(s: &str) -> (r: Result<Vec<u8>, Error>)
    ensures
        match r {
            Ok(v) => decoded(s.spec_bytes()) == Ok::<Seq<u8>, HexError>(v@),
            Err(e) => e matches Error::Hex(h) && decoded(s.spec_bytes()) == Err::<Seq<u8>, HexError>(h),
        },
{
    match vec_from_hex(s) {
        Ok(v) => Ok(v),
        Err(h) => Err(Error::Hex(h)),
    }
}

/// Reads 64 hexadecimal digits into 32 bytes.
pub fn from_hex_32(s: &str) -> (r: Result<[u8; 32], Error>)
    ensures
        match r {
            Ok(a) => decoded_fixed(s.spec_bytes(), 32) == Ok::<Seq<u8>, HexError>(a@),
            Err(e) => e matches Error::Hex(h) && decoded_fixed(s.spec_bytes(), 32) == Err::<
                Seq<u8>,
                HexError,
            >(h),
        },
{
    match array_from_hex(s) {
        Ok(a) => Ok(a),
        Err(h) => Err(Error::Hex(h)),
    }
}

/// Reads a transaction id: 64 hexadecimal digits that write its 32 bytes
/// last byte first.
pub fn from_hex_txid(s: &str) -> (r: Result<Txid, Error>)
    ensures
        match r {
            Ok(a) => decoded_backward(s.spec_bytes()) == Ok::<Seq<u8>, HexError>(a@),
            Err(e) => e matches Error::Hex(h) && decoded_backward(s.spec_bytes()) == Err::<
                Seq<u8>,
                HexError,
            >(h),
        },
{
    match txid_from_hex(s) {
        Ok(a) => Ok(a),
        Err(h) => Err(Error::Hex(h)),
    }
}

/// Reads each text of a list into 32 bytes, keeping the order. The first
/// text that cannot be read ends the work, and its failure is the result.
pub fn from_hex_array(arr: &Vec<&str>) -> (r: Result<Vec<[u8; 32]>, Error>)
    ensures
        match r {
            Ok(v) => decoded_list(texts(arr@)) == Ok::<Seq<Seq<u8>>, HexError>(contents(v@)),
            Err(e) => e matches Error::Hex(h) && decoded_list(texts(arr@)) == Err::<
                Seq<Seq<u8>>,
                HexError,
            >(h),
        },
{
    let mut answer: Vec<[u8; 32]> = Vec::new();
    let mut i: usize = 0;
    assert(texts(arr@).take(0) =~= Seq::<Seq<u8>>::empty());
    assert(contents(answer@) =~= Seq::<Seq<u8>>::empty());
    while i < arr.len()
        invariant
            i <= arr.len(),
            answer.len() == i,
            decoded_list(texts(arr@).take(i as int)) == Ok::<Seq<Seq<u8>>, HexError>(
                contents(answer@),
            ),
        decreases arr.len() - i,
    {
        let ghost before = contents(answer@);
        proof {
            let next = texts(arr@).take(i + 1);
            assert(next.drop_last() =~= texts(arr@).take(i as int));
            assert(next.last() == arr@[i as int].spec_bytes());
        }
        match array_from_hex(arr[i]) {
            Ok(a) => {
                answer.push(a);
                assert(contents(answer@) =~= before.push(a@));
            },
            Err(h) => {
                proof {
                    lemma_decoded_list_stops(texts(arr@), i + 1);
                }
                return Err(Error::Hex(h));
            },
        }
        i += 1;
    }
    assert(texts(arr@).take(i as int) =~= texts(arr@));
    Ok(answer)
}

/// A failure among the first `n` texts is the failure of the whole list.
pub proof fn lemma_decoded_list_stops(items: Seq<Seq<u8>>, n: int)
    requires
        0 <= n <= items.len(),
        decoded_list(items.take(n)) is Err,
    ensures
        decoded_list(items) == decoded_list(items.take(n)),
    decreases items.len() - n,
{
    if n < items.len() {
        assert(items.take(n + 1).drop_last() =~= items.take(n));
        lemma_decoded_list_stops(items, n + 1);
    } else {
        assert(items.take(n) =~= items);
    }
}

/// Reading a list keeps the order and stops at the first failure: the list
/// is read exactly when each of its texts is, item by item; and a failure is
/// the failure of a text before which every text can be read.
pub proof fn lemma_decoded_list(items: Seq<Seq<u8>>)
    ensures
        match decoded_list(items) {
            Ok(out) => out.len() == items.len() && forall|i: int|
                0 <= i < items.len() ==> decoded_fixed(#[trigger] items[i], 32) == Ok::<
                    Seq<u8>,
                    HexError,
                >(out[i]),
            Err(e) => exists|k: int|
                0 <= k < items.len() && decoded_fixed(#[trigger] items[k], 32) == Err::<
                    Seq<u8>,
                    HexError,
                >(e) && forall|j: int| 0 <= j < k ==> decoded_fixed(#[trigger] items[j], 32) is Ok,
        },
    decreases items.len(),
{
    if items.len() > 0 {
        let front = items.drop_last();
        lemma_decoded_list(front);
        match decoded_list(front) {
            Ok(out) => {
                assert forall|i: int| 0 <= i < front.len() implies front[i] == items[i] by {}
                match decoded_fixed(items.last(), 32) {
                    Ok(bytes) => {
                        let all = out.push(bytes);
                        assert forall|i: int| 0 <= i < items.len() implies decoded_fixed(
                            #[trigger] items[i],
                            32,
                        ) == Ok::<Seq<u8>, HexError>(all[i]) by {
                            if i < front.len() {
                                assert(front[i] == items[i]);
                            }
                        }
                    },
                    Err(e) => {
                        let k = items.len() - 1;
                        assert forall|j: int| 0 <= j < k implies decoded_fixed(
                            #[trigger] items[j],
                            32,
                        ) is Ok by {
                            assert(front[j] == items[j]);
                        }
                        assert(decoded_fixed(items[k], 32) == Err::<Seq<u8>, HexError>(e));
                    },
                }
            },
            Err(e) => {
                let k = choose|k: int|
                    0 <= k < front.len() && decoded_fixed(#[trigger] front[k], 32) == Err::<
                        Seq<u8>,
                        HexError,
                    >(e) && forall|j: int|
                        0 <= j < k ==> decoded_fixed(#[trigger] front[j], 32) is Ok;
                assert(front[k] == items[k]);
                assert forall|j: int| 0 <= j < k implies decoded_fixed(
                    #[trigger] items[j],
                    32,
                ) is Ok by {
                    assert(front[j] == items[j]);
                }
            },
        }
    }
}

/// The lower-case digit that writes a value below sixteen.
pub open spec fn digit_of(v: u8) -> u8 {
    if v < 10 {
        (0x30 + v) as u8
    } else {
        (0x61 + (v - 10)) as u8
    }
}

/// The text that writes bytes in lower case, two digits to a byte, high digit first.
pub open spec fn text_of(b: Seq<u8>) -> Seq<u8> {
    Seq::new(
        2 * b.len(),
        |i: int|
            if i % 2 == 0 {
                digit_of(b[i / 2] / 16)
            } else {
                digit_of(b[i / 2] % 16)
            },
    )
}

/// The text has an even number of bytes, each a digit or one of `a` to `f`.
pub open spec fn is_lower_hex(h: Seq<u8>) -> bool {
    &&& h.len() % 2 == 0
    &&& forall|i: int|
        0 <= i < h.len() ==> 0x30 <= #[trigger] h[i] <= 0x39 || 0x61 <= h[i] <= 0x66
}

/// The characters of the text that writes bytes in lower case.
pub open spec fn chars_of(b: Seq<u8>) -> Seq<char> {
    Seq::new(2 * b.len(), |i: int| text_of(b)[i] as char)
}

/// The text has an even number of characters, each a digit or one of `a` to `f`.
pub open spec fn is_lower_hex_text(h: Seq<char>) -> bool {
    &&& h.len() % 2 == 0
    &&& forall|i: int| 0 <= i < h.len() ==> '0' <= #[trigger] h[i] <= '9' || 'a' <= h[i] <= 'f'
}

/// Appends the lower-case digit of a value below sixteen.
pub(crate) fn push_digit(out: &mut String, v: u8)
    requires
        v < 16,
    ensures
        final(out)@ == old(out)@.push(digit_of(v) as char),
{
    proof {
        reveal_strlit("0");
        reveal_strlit("1");
        reveal_strlit("2");
        reveal_strlit("3");
        reveal_strlit("4");
        reveal_strlit("5");
        reveal_strlit("6");
        reveal_strlit("7");
        reveal_strlit("8");
        reveal_strlit("9");
        reveal_strlit("a");
        reveal_strlit("b");
        reveal_strlit("c");
        reveal_strlit("d");
        reveal_strlit("e");
        reveal_strlit("f");
    }
    let d: &str = match v {
        0 => "0",
        1 => "1",
        2 => "2",
        3 => "3",
        4 => "4",
        5 => "5",
        6 => "6",
        7 => "7",
        8 => "8",
        9 => "9",
        10 => "a",
        11 => "b",
        12 => "c",
        13 => "d",
        14 => "e",
        _ => "f",
    };
    assert(d@ =~= seq![digit_of(v) as char]);
    out.append(d);
    assert(out@ =~= old(out)@.push(digit_of(v) as char));
}

/// Writes bytes as lower-case hexadecimal text.
pub fn to_hex(bytes: &[u8]) -> (r: String)
    ensures
        r@ == chars_of(bytes@),
        encode_utf8(r@) == text_of(bytes@),
{
    let mut out = String::new();
    let mut i: usize = 0;
    while i < bytes.len()
        invariant
            i <= bytes.len(),
            out@.len() == 2 * i,
            forall|j: int| 0 <= j < out@.len() ==> out@[j] == text_of(bytes@)[j] as char,
        decreases bytes.len() - i,
    {
        let b = bytes[i];
        push_digit(&mut out, b / 16);
        push_digit(&mut out, b % 16);
        i += 1;
    }
    proof {
        assert(out@ =~= chars_of(bytes@));
        assert(is_ascii_chars(out@));
        is_ascii_chars_encode_utf8(out@);
        assert(encode_utf8(out@) =~= text_of(bytes@));
    }
    out
}

/// Reading what was written gives the bytes back.
pub proof fn lemma_decode_after_encode(b: Seq<u8>)
    ensures
        is_lower_hex(text_of(b)),
        decoded(text_of(b)) == Ok::<Seq<u8>, HexError>(b),
{
    let h = text_of(b);
    assert(all_digits(h));
    assert forall|i: int| 0 <= i < b.len() implies byte_at(h, i) == b[i] by {
        assert(h[2 * i] == digit_of(b[i] / 16));
        assert(h[2 * i + 1] == digit_of(b[i] % 16));
    }
    assert(bytes_of(h) =~= b);
}

/// The round trip of lower-case text: a text of an even number of lower-case
/// digits is read into half as many bytes, and writing those bytes gives the
/// same text again.
pub proof fn lemma_encode_after_decode(h: Seq<u8>)
    requires
        is_lower_hex(h),
    ensures
        decoded(h) == Ok::<Seq<u8>, HexError>(bytes_of(h)),
        bytes_of(h).len() * 2 == h.len(),
        text_of(bytes_of(h)) == h,
{
    assert(all_digits(h));
    let t = text_of(bytes_of(h));
    assert forall|i: int| 0 <= i < h.len() implies t[i] == h[i] by {
        let k = i / 2;
        assert(bytes_of(h)[k] == byte_at(h, k));
        assert(0x30 <= h[2 * k] <= 0x39 || 0x61 <= h[2 * k] <= 0x66);
        assert(0x30 <= h[2 * k + 1] <= 0x39 || 0x61 <= h[2 * k + 1] <= 0x66);
    }
    assert(t =~= h);
}

/// The round trip of a string: a string of an even number of lower-case
/// hexadecimal digits is read into half as many bytes, and what is written
/// for those bytes is the same string.
pub proof fn lemma_round_trip(h: Seq<char>)
    requires
        is_lower_hex_text(h),
    ensures
        decoded(encode_utf8(h)) matches Ok(b) && b.len() * 2 == h.len() && chars_of(b) == h,
{
    assert(is_ascii_chars(h));
    is_ascii_chars_encode_utf8(h);
    let e = encode_utf8(h);
    assert forall|i: int| 0 <= i < e.len() implies 0x30 <= #[trigger] e[i] <= 0x39 || 0x61 <= e[i]
        <= 0x66 by {
        assert(e[i] == h[i] as u8);
        assert('0' <= h[i] <= '9' || 'a' <= h[i] <= 'f');
    }
    lemma_encode_after_decode(e);
    let b = bytes_of(e);
    assert forall|i: int| 0 <= i < h.len() implies chars_of(b)[i] == h[i] by {
        assert(text_of(b)[i] == e[i]);
        assert(e[i] == h[i] as u8);
    }
    assert(chars_of(b) =~= h);
}

/// The first byte that is no digit lies within the text exactly when the
/// text has such a byte, and every byte before it is a digit.
pub proof fn lemma_first_invalid(s: Seq<u8>)
    ensures
        0 <= first_invalid(s) <= s.len(),
        all_digits(s) <==> first_invalid(s) == s.len(),
        first_invalid(s) < s.len() ==> digit_value(s[first_invalid(s)]) is None,
        forall|j: int| 0 <= j < first_invalid(s) ==> digit_value(#[trigger] s[j]) is Some,
    decreases s.len(),
{
    if s.len() > 0 && digit_value(s[0]) is Some {
        let rest = s.drop_first();
        lemma_first_invalid(rest);
        assert forall|j: int| 0 <= j < first_invalid(s) implies digit_value(
            #[trigger] s[j],
        ) is Some by {
            if j > 0 {
                assert(s[j] == rest[j - 1]);
            }
        }
        if first_invalid(rest) < rest.len() {
            assert(s[first_invalid(s)] == rest[first_invalid(rest)]);
        }
    }
}

/// A text of odd length, or one that holds a byte that is no hexadecimal
/// digit, is never read: not as bytes of any number, not as 32 bytes, not as
/// a transaction id. Where a byte is reported, it is no digit.
pub proof fn lemma_malformed_is_rejected(s: Seq<u8>)
    requires
        s.len() % 2 != 0 || !all_digits(s),
    ensures
        decoded(s) is Err,
        decoded_fixed(s, 32) is Err,
        decoded_backward(s) is Err,
        decoded(s) matches Err(HexError::InvalidChar(c)) ==> digit_value(c) is None,
        decoded_fixed(s, 32) matches Err(HexError::InvalidChar(c)) ==> digit_value(c) is None,
        decoded_backward(s) matches Err(HexError::InvalidChar(c)) ==> digit_value(c) is None,
{
    lemma_first_invalid(s);
    lemma_first_invalid(pairs_reversed(s));
    if s.len() % 2 == 0 && s.len() == 64 {
        let k = choose|k: int| 0 <= k < s.len() && digit_value(#[trigger] s[k]) is None;
        let p = pairs_reversed(s);
        let j = s.len() - 2 - 2 * (k / 2) + k % 2;
        assert(p[j] == s[k]);
    }
}

} // verus!
