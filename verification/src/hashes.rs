//! Digest values and the hash primitives the commitment scheme is built on.
//!
//! The digests themselves come from the `bitcoin` crate; here each one is
//! given an uninterpreted name (`sha256_of`, `hash160_of`, `hmac_sha256_of`)
//! so that every contract in the crate can speak about the exact bytes a
//! computation produces without restating the hash algorithms.

use vstd::prelude::*;

use crate::bytes::clone_bytes;

verus! {

/// The 32-byte SHA-256 digest of `data`, determined by `data` alone.
pub uninterp spec fn sha256_of(data: Seq<u8>) -> Seq<u8>;

/// The 20-byte RIPEMD160-of-SHA-256 digest of `data`, determined by `data` alone.
pub uninterp spec fn hash160_of(data: Seq<u8>) -> Seq<u8>;

/// The 32-byte HMAC-SHA-256 of `data` under `key`, determined by both alone.
pub uninterp spec fn hmac_sha256_of(key: Seq<u8>, data: Seq<u8>) -> Seq<u8>;

/// Relies on `bitcoin::hashes::sha256`: the digest is 32 bytes and is a
/// function of the input bytes alone.
#[verifier::external_body]
pub(crate) fn sha256(data: &[u8]) -> (r: Vec<u8>)
    ensures
        r@ == sha256_of(data@),
        r@.len() == 32,
{
    let h = <bitcoin::hashes::sha256::Hash as bitcoin::hashes::Hash>::hash(data);
    <bitcoin::hashes::sha256::Hash as bitcoin::hashes::Hash>::to_byte_array(h).to_vec()
}

/// Relies on `bitcoin::hashes::hash160` (RIPEMD160 of SHA-256): the digest is
/// 20 bytes and is a function of the input bytes alone.
#[verifier::external_body]
pub(crate) fn hash160(data: &[u8]) -> (r: Vec<u8>)
    ensures
        r@ == hash160_of(data@),
        r@.len() == 20,
{
    let h = <bitcoin::hashes::hash160::Hash as bitcoin::hashes::Hash>::hash(data);
    <bitcoin::hashes::hash160::Hash as bitcoin::hashes::Hash>::to_byte_array(h).to_vec()
}

/// Relies on `bitcoin::hashes::Hmac` over SHA-256: the tag is 32 bytes and is
/// a function of the key and the input bytes alone. The engine never panics
/// for SHA-256, whose block size is 64 bytes.
#[verifier::external_body]
pub(crate) fn hmac_sha256(key: &[u8], data: &[u8]) -> (r: Vec<u8>)
    ensures
        r@ == hmac_sha256_of(key@, data@),
        r@.len() == 32,
{
    let mut engine: bitcoin::hashes::HmacEngine<bitcoin::hashes::sha256::Hash> =
        bitcoin::hashes::HmacEngine::new(key);
    bitcoin::hashes::HashEngine::input(&mut engine, data);
    let h = <bitcoin::hashes::Hmac<bitcoin::hashes::sha256::Hash> as bitcoin::hashes::Hash>::from_engine(
        engine,
    );
    <bitcoin::hashes::Hmac<bitcoin::hashes::sha256::Hash> as bitcoin::hashes::Hash>::to_byte_array(
        h,
    ).to_vec()
}

/// A single SHA-256 hash value, as used for protocol tags and taproot
/// script-tree roots: exactly 32 bytes.
#[derive(Clone, Debug, PartialEq, Eq)]
pub struct Hash256 {
    pub bytes: Vec<u8>,
}

impl View for Hash256 {
    type V = Seq<u8>;

    open spec fn view(&self) -> Seq<u8> {
        self.bytes@
    }
}

impl Hash256 {
    /// A hash value is well formed when it holds exactly 32 bytes.
    pub open spec fn wf(&self) -> bool {
        self@.len() == 32
    }

    /// Accepts exactly the 32-byte vectors.
    pub fn from_bytes(bytes: Vec<u8>) -> (r: Option<Self>)
        ensures
            r is Some <==> bytes@.len() == 32,
            r matches Some(h) ==> h@ == bytes@ && h.wf(),
    {
        if bytes.len() == 32 {
            Some(Hash256 { bytes })
        } else {
            None
        }
    }

    /// The single SHA-256 of arbitrary input bytes, e.g. a protocol tag.
    pub fn hash(data: &[u8]) -> (r: Self)
        ensures
            r@ == sha256_of(data@),
            r.wf(),
    {
        Hash256 { bytes: sha256(data) }
    }

    /// An owned copy with the same contents.
    pub fn copied(&self) -> (r: Self)
        ensures
            r@ == self@,
    {
        Hash256 { bytes: clone_bytes(&self.bytes) }
    }
}

/// An HMAC-SHA-256 value: the tweaking factor retained for audit after a
/// commitment has been embedded. Exactly 32 bytes.
#[derive(Clone, Debug, PartialEq, Eq)]
pub struct Hmac256 {
    pub bytes: Vec<u8>,
}

impl View for Hmac256 {
    type V = Seq<u8>;

    open spec fn view(&self) -> Seq<u8> {
        self.bytes@
    }
}

impl Hmac256 {
    /// A tweaking factor is well formed when it holds exactly 32 bytes.
    pub open spec fn wf(&self) -> bool {
        self@.len() == 32
    }

    /// Accepts exactly the 32-byte vectors.
    pub fn from_bytes(bytes: Vec<u8>) -> (r: Option<Self>)
        ensures
            r is Some <==> bytes@.len() == 32,
            r matches Some(h) ==> h@ == bytes@ && h.wf(),
    {
        if bytes.len() == 32 {
            Some(Hmac256 { bytes })
        } else {
            None
        }
    }

    /// The keyed hash of `data` under `key`.
    pub fn compute(key: &[u8], data: &[u8]) -> (r: Self)
        ensures
            r@ == hmac_sha256_of(key@, data@),
            r.wf(),
    {
        Hmac256 { bytes: hmac_sha256(key, data) }
    }

    /// An owned copy with the same contents.
    pub fn copied(&self) -> (r: Self)
        ensures
            r@ == self@,
    {
        Hmac256 { bytes: clone_bytes(&self.bytes) }
    }
}

} // verus!
