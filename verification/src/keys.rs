//! Compressed secp256k1 public keys as the commitment scheme sees them:
//! 33 serialized bytes. The elliptic-curve tweak itself is performed by the
//! `secp256k1` library (re-exported by the `bitcoin` crate) behind one
//! trusted wrapper whose result is named by `tweaked_pubkey_of`.

use vstd::prelude::*;

use crate::bytes::clone_bytes;
use crate::hashes::Hmac256;

verus! {

/// The serialized compressed public key obtained by adding `tweak * G` to the
/// key serialized as `pk`, or `None` when the operation fails: `pk` does not
/// parse as a public key, `tweak` is not a canonical scalar, or the sum is
/// the point at infinity. Determined by `pk` and `tweak` alone.
pub uninterp spec fn tweaked_pubkey_of(pk: Seq<u8>, tweak: Seq<u8>) -> Option<Seq<u8>>;

/// Relies on `secp256k1::PublicKey::{from_slice, add_exp_tweak, serialize}`
/// and `secp256k1::Scalar::from_be_bytes`: the tweaked key is a function of
/// the serialized key and the 32 tweak bytes alone, every failure of parsing,
/// scalar range or tweaking yields `None`, and a serialized compressed key is
/// 33 bytes long.
#[verifier::external_body]
fn secp_tweak_add(pk: &[u8], tweak: &[u8]) -> (r: Option<Vec<u8>>)
    requires
        tweak@.len() == 32,
    ensures
        match r {
            Some(out) => tweaked_pubkey_of(pk@, tweak@) == Some(out@) && out@.len() == 33
                && (out@[0] == 2 || out@[0] == 3),
            None => tweaked_pubkey_of(pk@, tweak@) is None,
        },
{
    let secp = bitcoin::secp256k1::Secp256k1::verification_only();
    let key = match bitcoin::secp256k1::PublicKey::from_slice(pk) {
        Ok(key) => key,
        Err(_) => return None,
    };
    let mut arr = [0u8; 32];
    arr.copy_from_slice(tweak);
    let scalar = match bitcoin::secp256k1::Scalar::from_be_bytes(arr) {
        Ok(scalar) => scalar,
        Err(_) => return None,
    };
    match key.add_exp_tweak(&secp, &scalar) {
        Ok(tweaked) => Some(tweaked.serialize().to_vec()),
        Err(_) => None,
    }
}

/// A secp256k1 public key in its 33-byte compressed serialization.
#[derive(Clone, Debug, PartialEq, Eq)]
pub struct PubKey {
    pub bytes: Vec<u8>,
}

impl View for PubKey {
    type V = Seq<u8>;

    open spec fn view(&self) -> Seq<u8> {
        self.bytes@
    }
}

impl PubKey {
    /// A key is well formed when it holds exactly 33 bytes beginning with the
    /// compressed-point marker 2 or 3.
    pub open spec fn wf(&self) -> bool {
        self@.len() == 33 && (self@[0] == 2 || self@[0] == 3)
    }

    /// Accepts exactly the 33-byte vectors that begin with 2 or 3.
    pub fn from_bytes(bytes: Vec<u8>) -> (r: Option<Self>)
        ensures
            r is Some <==> bytes@.len() == 33 && (bytes@[0] == 2 || bytes@[0] == 3),
            r matches Some(k) ==> k@ == bytes@ && k.wf(),
    {
        if bytes.len() == 33 && (bytes[0] == 2 || bytes[0] == 3) {
            Some(PubKey { bytes })
        } else {
            None
        }
    }

    /// An owned copy with the same contents.
    pub fn copied(&self) -> (r: Self)
        ensures
            r@ == self@,
    {
        PubKey { bytes: clone_bytes(&self.bytes) }
    }

    /// Adds `tweak * G` to this key; `None` exactly when the curve library
    /// rejects the key, the scalar or the sum.
    pub fn tweak_add(&self, tweak: &Hmac256) -> (r: Option<Self>)
        requires
            tweak.wf(),
        ensures
            match r {
                Some(out) => tweaked_pubkey_of(self@, tweak@) == Some(out@) && out.wf(),
                None => tweaked_pubkey_of(self@, tweak@) is None,
            },
    {
        match secp_tweak_add(self.bytes.as_slice(), tweak.bytes.as_slice()) {
            Some(bytes) => Some(PubKey { bytes }),
            None => None,
        }
    }
}

} // verus!
