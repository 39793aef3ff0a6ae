//! The leaf commitment primitive: a pay-to-contract tweak of a bare public
//! key. The tweak scalar is the keyed hash of the protocol tag and the
//! message under the target key, and it is applied additively to the key.

use vstd::prelude::*;

use crate::container::Error;
use crate::hashes::{hmac_sha256_of, Hash256, Hmac256};
use crate::keys::{tweaked_pubkey_of, PubKey};
use crate::bytes::{clone_bytes, extend_slice};

verus! {

/// The tweaking factor a bare-key commitment applies: the HMAC-SHA-256 of
/// the protocol tag followed by the message, keyed with the serialized
/// target key.
pub open spec fn lnpbp1_tweak(pubkey: Seq<u8>, tag: Seq<u8>, msg: Seq<u8>) -> Seq<u8> {
    hmac_sha256_of(pubkey, tag + msg)
}

/// What a bare-key commitment produces for the given container fields and
/// message: the tweaked key, or the error when the curve library rejects
/// the tweak.
pub open spec fn lnpbp1_commit(pubkey: Seq<u8>, tag: Seq<u8>, msg: Seq<u8>) -> Result<
    Seq<u8>,
    Error,
> {
    match tweaked_pubkey_of(pubkey, lnpbp1_tweak(pubkey, tag, msg)) {
        Some(t) => Ok(t),
        None => Err(Error::InvalidTweak),
    }
}

/// The working state of one bare-key commitment: the key to be tweaked, the
/// protocol tag, and the slot for the tweaking factor that was applied.
#[derive(Clone, Debug, PartialEq, Eq)]
pub struct LNPBP1Container {
    pub pubkey: PubKey,
    /// Single SHA-256 hash of the protocol-specific tag.
    pub tag: Hash256,
    /// Tweaking factor stored after the commitment has been embedded.
    pub tweaking_factor: Option<Hmac256>,
}

/// The view of a [`LNPBP1Container`].
pub struct LNPBP1ContainerV {
    pub pubkey: Seq<u8>,
    pub tag: Seq<u8>,
    pub tweaking_factor: Option<Seq<u8>>,
}

impl View for LNPBP1Container {
    type V = LNPBP1ContainerV;

    open spec fn view(&self) -> LNPBP1ContainerV {
        LNPBP1ContainerV {
            pubkey: self.pubkey@,
            tag: self.tag@,
            tweaking_factor: match self.tweaking_factor {
                Some(ref f) => Some(f@),
                None => None,
            },
        }
    }
}

impl LNPBP1Container {
    /// Well formed when the key and the tag have their exact byte lengths.
    pub open spec fn wf(&self) -> bool {
        self.pubkey.wf() && self.tag.wf()
    }
}

/// A bare public key carrying a commitment: the tweaked key itself.
#[derive(Clone, Debug, PartialEq, Eq)]
pub struct LNPBP1Commitment {
    pub pubkey: PubKey,
}

impl LNPBP1Commitment {
    /// Embeds `msg` into the container's key. On success the tweaked key is
    /// returned and the factor that was applied is recorded in the
    /// container; on failure the container is left unchanged.
    pub fn embed_commit(container: &mut LNPBP1Container, msg: &[u8]) -> (r: Result<Self, Error>)
        requires
            old(container).wf(),
        ensures
            ({
                let pre = old(container)@;
                let post = final(container)@;
                match r {
                    Ok(c) => {
                        &&& lnpbp1_commit(pre.pubkey, pre.tag, msg@) == Ok::<Seq<u8>, Error>(
                            c.pubkey@,
                        )
                        &&& c.pubkey.wf()
                        &&& post.pubkey == pre.pubkey
                        &&& post.tag == pre.tag
                        &&& post.tweaking_factor == Some(lnpbp1_tweak(pre.pubkey, pre.tag, msg@))
                    },
                    Err(e) => {
                        &&& lnpbp1_commit(pre.pubkey, pre.tag, msg@) == Err::<Seq<u8>, Error>(e)
                        &&& post == pre
                    },
                }
            }),
    {
        let mut data: Vec<u8> = clone_bytes(&container.tag.bytes);
        extend_slice(&mut data, msg);
        let factor = Hmac256::compute(container.pubkey.bytes.as_slice(), data.as_slice());
        match container.pubkey.tweak_add(&factor) {
            Some(tweaked) => {
                container.tweaking_factor = Some(factor);
                Ok(LNPBP1Commitment { pubkey: tweaked })
            },
            None => Err(Error::InvalidTweak),
        }
    }
}

} // verus!
