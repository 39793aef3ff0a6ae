//! The taproot commitment primitive: the message is embedded into the
//! taproot internal key, bound to the script-tree root. Computing the tweak
//! is defined; assembling a final taproot output script from it is not (see
//! [`crate::container::Error::TaprootUnsupported`]).

use vstd::prelude::*;

use crate::bytes::{clone_bytes, extend_slice};
use crate::container::Error;
use crate::hashes::{hmac_sha256_of, Hash256, Hmac256};
use crate::keys::{tweaked_pubkey_of, PubKey};

verus! {

/// The tweaking factor a taproot commitment applies: the HMAC-SHA-256 of the
/// protocol tag, the script-tree root and the message, keyed with the
/// serialized internal key.
pub open spec fn taproot_tweak(
    intermediate_key: Seq<u8>,
    script_root: Seq<u8>,
    tag: Seq<u8>,
    msg: Seq<u8>,
) -> Seq<u8> {
    hmac_sha256_of(intermediate_key, tag + script_root + msg)
}

/// What a taproot commitment produces for the given container fields and
/// message: the tweaked internal key, or the error when the curve library
/// rejects the tweak.
pub open spec fn taproot_commit(
    intermediate_key: Seq<u8>,
    script_root: Seq<u8>,
    tag: Seq<u8>,
    msg: Seq<u8>,
) -> Result<Seq<u8>, Error> {
    match tweaked_pubkey_of(
        intermediate_key,
        taproot_tweak(intermediate_key, script_root, tag, msg),
    ) {
        Some(t) => Ok(t),
        None => Err(Error::InvalidTweak),
    }
}

/// The working state of one taproot commitment: the script-tree root, the
/// internal key to be tweaked, the protocol tag, and the slot for the
/// applied tweaking factor.
#[derive(Clone, Debug, PartialEq, Eq)]
pub struct TaprootContainer {
    pub script_root: Hash256,
    pub intermediate_key: PubKey,
    /// Single SHA-256 hash of the protocol-specific tag.
    pub tag: Hash256,
    /// Tweaking factor stored after the commitment has been embedded.
    pub tweaking_factor: Option<Hmac256>,
}

/// The view of a [`TaprootContainer`].
pub struct TaprootContainerV {
    pub script_root: Seq<u8>,
    pub intermediate_key: Seq<u8>,
    pub tag: Seq<u8>,
    pub tweaking_factor: Option<Seq<u8>>,
}

impl View for TaprootContainer {
    type V = TaprootContainerV;

    open spec fn view(&self) -> TaprootContainerV {
        TaprootContainerV {
            script_root: self.script_root@,
            intermediate_key: self.intermediate_key@,
            tag: self.tag@,
            tweaking_factor: match self.tweaking_factor {
                Some(ref f) => Some(f@),
                None => None,
            },
        }
    }
}

impl TaprootContainer {
    /// Well formed when the root, the key and the tag have their exact byte
    /// lengths.
    pub open spec fn wf(&self) -> bool {
        self.script_root.wf() && self.intermediate_key.wf() && self.tag.wf()
    }
}

/// A taproot primitive carrying a commitment: the script-tree root together
/// with the tweaked internal key.
#[derive(Clone, Debug, PartialEq, Eq)]
pub struct TaprootCommitment {
    pub script_root: Hash256,
    pub intermediate_key_commitment: PubKey,
}

impl TaprootCommitment {
    /// Embeds `msg` into the container's internal key, bound to the
    /// script-tree root. On success the applied factor is recorded in the
    /// container; on failure the container is left unchanged.
    pub fn embed_commit(container: &mut TaprootContainer, msg: &[u8]) -> (r: Result<Self, Error>)
        requires
            old(container).wf(),
        ensures
            ({
                let pre = old(container)@;
                let post = final(container)@;
                match r {
                    Ok(c) => {
                        &&& taproot_commit(pre.intermediate_key, pre.script_root, pre.tag, msg@)
                            == Ok::<Seq<u8>, Error>(c.intermediate_key_commitment@)
                        &&& c.script_root@ == pre.script_root
                        &&& c.intermediate_key_commitment.wf()
                        &&& post.script_root == pre.script_root
                        &&& post.intermediate_key == pre.intermediate_key
                        &&& post.tag == pre.tag
                        &&& post.tweaking_factor == Some(
                            taproot_tweak(pre.intermediate_key, pre.script_root, pre.tag, msg@),
                        )
                    },
                    Err(e) => {
                        &&& taproot_commit(pre.intermediate_key, pre.script_root, pre.tag, msg@)
                            == Err::<Seq<u8>, Error>(e)
                        &&& post == pre
                    },
                }
            }),
    {
        let mut data: Vec<u8> = clone_bytes(&container.tag.bytes);
        let mut root: Vec<u8> = clone_bytes(&container.script_root.bytes);
        extend_slice(&mut data, root.as_slice());
        extend_slice(&mut data, msg);
        proof {
            assert(data@ == old(container)@.tag + old(container)@.script_root + msg@);
        }
        let factor = Hmac256::compute(container.intermediate_key.bytes.as_slice(), data.as_slice());
        match container.intermediate_key.tweak_add(&factor) {
            Some(tweaked) => {
                container.tweaking_factor = Some(factor);
                Ok(
                    TaprootCommitment {
                        script_root: container.script_root.copied(),
                        intermediate_key_commitment: tweaked,
                    },
                )
            },
            None => Err(Error::InvalidTweak),
        }
    }
}

} // verus!
