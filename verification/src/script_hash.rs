//! The key under which an Electrum server files a script.

use vstd::prelude::*;

verus! {

/// How the server names a script: the SHA-256 digest of the script's bytes,
/// last byte first.
pub type ScriptHash = [u8; 32];

/// A digest that sums up the history of a script. It is compared, never computed here.
pub type ScriptStatus = [u8; 32];

/// A transaction id, in the byte order of the digest. Written as text it is
/// read last byte first.
pub type Txid = [u8; 32];

#[verifier::external_type_specification]
#[verifier::external_body]
pub struct ExScript(bitcoin::Script);

/// The SHA-256 digest of a sequence of bytes.
pub uninterp spec fn sha256(data: Seq<u8>) -> Seq<u8>;

/// The bytes that a script holds.
pub uninterp spec fn script_bytes(script: bitcoin::Script) -> Seq<u8>;

/// What the server calls the script with these bytes.
pub open spec fn script_hash_of(script: Seq<u8>) -> Seq<u8> {
    sha256(script).reverse()
}

/// `sha256::Hash::hash` of `bitcoin::hashes`, then `into_inner`: the digest
/// of the bytes as an array. Nothing is claimed of the digest but that it is
/// the SHA-256 of the bytes given.
#[verifier::external_body]
fn sha256_digest(data: &[u8]) -> (r: [u8; 32])
    ensures
        r@ == sha256(data@),
{
    bitcoin::hashes::Hash::into_inner(
        <bitcoin::hashes::sha256::Hash as bitcoin::hashes::Hash>::hash(data),
    )
}

/// `Script::as_bytes`: the bytes of the script, borrowed.
#[verifier::external_body]
fn script_as_bytes(script: &bitcoin::Script) -> (r: &[u8])
    ensures
        r@ == script_bytes(*script),
{
    script.as_bytes()
}

/// The same 32 bytes, last byte first.
pub fn reversed(digest: [u8; 32]) -> (r: [u8; 32])
    ensures
        r@ == digest@.reverse(),
{
    let mut out: [u8; 32] = [0u8; 32];
    let mut i: usize = 0;
    while i < 32
        invariant
            i <= 32,
            forall|j: int| 0 <= j < i ==> out@[j] == digest@[31 - j],
        decreases 32 - i,
    {
        out[i] = digest[31 - i];
        i += 1;
    }
    assert(out@ =~= digest@.reverse());
    out
}

/// Derives the script hash of a script given by its serialized bytes. Every
/// byte sequence has one.
pub fn to_script_hash(script: &[u8]) -> (r: ScriptHash)
    ensures
        r@ == script_hash_of(script@),
{
    reversed(sha256_digest(script))
}

/// What can be named to an Electrum server by a script hash.
pub trait ToElectrumScriptHash {
    /// The serialized bytes of the locking script.
    spec fn locking_script(&self) -> Seq<u8>;

    /// The script hash: the SHA-256 digest of the locking script, last byte first.
    fn to_electrum_scripthash(&self) -> (r: ScriptHash)
        ensures
            r@ == script_hash_of(self.locking_script()),
    ;
}

impl ToElectrumScriptHash for bitcoin::Script {
    open spec fn locking_script(&self) -> Seq<u8> {
        script_bytes(*self)
    }

    fn to_electrum_scripthash(&self) -> (r: ScriptHash) {
        to_script_hash(script_as_bytes(self))
    }
}

/// Equal scripts have equal script hashes, and reversing a script hash gives
/// the digest of the script back.
pub proof fn lemma_script_hash_is_a_function(a: Seq<u8>, b: Seq<u8>)
    ensures
        a == b ==> script_hash_of(a) == script_hash_of(b),
        script_hash_of(a).reverse() == sha256(a),
{
    assert(sha256(a).reverse().reverse() =~= sha256(a));
}

} // verus!
