//! The lock-script commitment primitive: the message is embedded into the
//! public key found inside an explicit locking script, by replacing every
//! occurrence of the original key's serialization with the tweaked key.

use vstd::prelude::*;

use crate::bytes::{clone_bytes, extend_bytes, range_eq};
use crate::container::Error;
use crate::hashes::{Hash256, Hmac256};
use crate::keys::PubKey;
use crate::lnpbp1::{lnpbp1_tweak, LNPBP1Commitment, LNPBP1Container};
use crate::keys::tweaked_pubkey_of;

verus! {

/// `script` with every (left-to-right, non-overlapping) occurrence of `from`
/// replaced by `to`.
pub open spec fn replace_key(script: Seq<u8>, from: Seq<u8>, to: Seq<u8>) -> Seq<u8>
    decreases script.len(),
{
    if script.len() == 0 {
        Seq::empty()
    } else if from.len() > 0 && script.len() >= from.len() && script.subrange(
        0,
        from.len() as int,
    ) == from {
        to + replace_key(script.skip(from.len() as int), from, to)
    } else {
        seq![script[0]] + replace_key(script.skip(1), from, to)
    }
}

/// `key` occurs in `script` starting at position `i`.
pub open spec fn key_occurs_at(script: Seq<u8>, key: Seq<u8>, i: int) -> bool {
    0 <= i && i + key.len() <= script.len() && script.subrange(i, i + key.len()) == key
}

/// `key` occurs somewhere in `script`.
pub open spec fn script_contains_key(script: Seq<u8>, key: Seq<u8>) -> bool {
    exists|i: int| key_occurs_at(script, key, i)
}

/// Replacing one byte pattern by another of the same length preserves the
/// script's length: a committed lock script is as long as the original.
pub proof fn lemma_replace_key_len(script: Seq<u8>, from: Seq<u8>, to: Seq<u8>)
    requires
        from.len() == to.len(),
    ensures
        replace_key(script, from, to).len() == script.len(),
    decreases script.len(),
{
    if script.len() == 0 {
    } else if from.len() > 0 && script.len() >= from.len() && script.subrange(
        0,
        from.len() as int,
    ) == from {
        lemma_replace_key_len(script.skip(from.len() as int), from, to);
    } else {
        lemma_replace_key_len(script.skip(1), from, to);
    }
}

/// What a lock-script commitment produces for the given container fields and
/// message: the script with its embedded key tweaked, the structural error
/// when the key does not occur in the script, or the tweak error when the
/// curve library rejects the tweak.
pub open spec fn lockscript_commit(
    script: Seq<u8>,
    pubkey: Seq<u8>,
    tag: Seq<u8>,
    msg: Seq<u8>,
) -> Result<Seq<u8>, Error> {
    if !script_contains_key(script, pubkey) {
        Err(Error::InvalidProofStructure)
    } else {
        match tweaked_pubkey_of(pubkey, lnpbp1_tweak(pubkey, tag, msg)) {
            Some(t) => Ok(replace_key(script, pubkey, t)),
            None => Err(Error::InvalidTweak),
        }
    }
}

/// Scans `script` for an occurrence of `key`.
pub fn contains_key(script: &Vec<u8>, key: &Vec<u8>) -> (r: bool)
    requires
        key@.len() >= 1,
    ensures
        r <==> script_contains_key(script@, key@),
{
    let script_len: usize = script.len();
    let key_len: usize = key.len();
    if key_len > script_len {
        proof {
            assert(forall|i: int| !key_occurs_at(script@, key@, i));
        }
        return false;
    }
    let mut i: usize = 0;
    while i <= script_len - key_len
        invariant
            key_len == key@.len(),
            script_len == script@.len(),
            1 <= key_len <= script_len,
            i <= script_len - key_len + 1,
            forall|j: int| 0 <= j < i ==> !key_occurs_at(script@, key@, j),
        decreases script_len - i,
    {
        if range_eq(script, i, key) {
            proof {
                assert(key_occurs_at(script@, key@, i as int));
            }
            return true;
        }
        i = i + 1;
    }
    proof {
        assert(forall|j: int| key_occurs_at(script@, key@, j) ==> 0 <= j <= script@.len()
            - key@.len());
        assert(forall|j: int| !key_occurs_at(script@, key@, j));
    }
    false
}

/// Replaces every left-to-right occurrence of `from` in `script` by `to`.
pub fn replace_key_bytes(script: &Vec<u8>, from: &Vec<u8>, to: &Vec<u8>) -> (r: Vec<u8>)
    requires
        from@.len() >= 1,
    ensures
        r@ == replace_key(script@, from@, to@),
{
    let script_len: usize = script.len();
    let from_len: usize = from.len();
    let mut out: Vec<u8> = Vec::new();
    let mut i: usize = 0;
    proof {
        assert(script@.skip(0) =~= script@);
        assert(Seq::<u8>::empty() + replace_key(script@, from@, to@) =~= replace_key(
            script@,
            from@,
            to@,
        ));
    }
    while i < script_len
        invariant
            script_len == script@.len(),
            from_len == from@.len(),
            from_len >= 1,
            i <= script_len,
            replace_key(script@, from@, to@) == out@ + replace_key(
                script@.skip(i as int),
                from@,
                to@,
            ),
        decreases script_len - i,
    {
        let ghost rest = script@.skip(i as int);
        let ghost prev_out = out@;
        if from_len <= script_len - i && range_eq(script, i, from) {
            extend_bytes(&mut out, to);
            proof {
                assert(rest.subrange(0, from@.len() as int) =~= script@.subrange(
                    i as int,
                    i + from@.len(),
                ));
                assert(rest.skip(from@.len() as int) =~= script@.skip(i + from_len));
                assert(replace_key(rest, from@, to@) == to@ + replace_key(
                    script@.skip(i + from_len),
                    from@,
                    to@,
                ));
                assert(prev_out + (to@ + replace_key(script@.skip(i + from_len), from@, to@))
                    =~= (prev_out + to@) + replace_key(script@.skip(i + from_len), from@, to@));
            }
            i = i + from_len;
        } else {
            out.push(script[i]);
            proof {
                if from_len <= script_len - i {
                    assert(rest.subrange(0, from@.len() as int) =~= script@.subrange(
                        i as int,
                        i + from@.len(),
                    ));
                    assert(rest.subrange(0, from@.len() as int) != from@);
                } else {
                    assert(rest.len() < from@.len());
                }
                assert(rest[0] == script@[i as int]);
                assert(rest.skip(1) =~= script@.skip(i + 1));
                assert(replace_key(rest, from@, to@) == seq![script@[i as int]] + replace_key(
                    script@.skip(i + 1),
                    from@,
                    to@,
                ));
                assert(prev_out + (seq![script@[i as int]] + replace_key(
                    script@.skip(i + 1),
                    from@,
                    to@,
                )) =~= prev_out.push(script@[i as int]) + replace_key(
                    script@.skip(i + 1),
                    from@,
                    to@,
                ));
            }
            i = i + 1;
        }
    }
    proof {
        assert(script@.skip(script_len as int) =~= Seq::<u8>::empty());
        assert(out@ + Seq::<u8>::empty() =~= out@);
    }
    out
}

/// The working state of one lock-script commitment: the script whose key is
/// to be tweaked, the key itself, the protocol tag, and the slot for the
/// applied tweaking factor.
#[derive(Clone, Debug, PartialEq, Eq)]
pub struct LockscriptContainer {
    pub script: crate::script::LockScript,
    pub pubkey: PubKey,
    /// Single SHA-256 hash of the protocol-specific tag.
    pub tag: Hash256,
    /// Tweaking factor stored after the commitment has been embedded.
    pub tweaking_factor: Option<Hmac256>,
}

/// The view of a [`LockscriptContainer`].
pub struct LockscriptContainerV {
    pub script: Seq<u8>,
    pub pubkey: Seq<u8>,
    pub tag: Seq<u8>,
    pub tweaking_factor: Option<Seq<u8>>,
}

impl View for LockscriptContainer {
    type V = LockscriptContainerV;

    open spec fn view(&self) -> LockscriptContainerV {
        LockscriptContainerV {
            script: self.script@,
            pubkey: self.pubkey@,
            tag: self.tag@,
            tweaking_factor: match self.tweaking_factor {
                Some(ref f) => Some(f@),
                None => None,
            },
        }
    }
}

impl LockscriptContainer {
    /// Well formed when the key and the tag have their exact byte lengths.
    pub open spec fn wf(&self) -> bool {
        self.pubkey.wf() && self.tag.wf()
    }
}

/// A lock script carrying a commitment: the original script with its
/// embedded key replaced by the tweaked key.
#[derive(Clone, Debug, PartialEq, Eq)]
pub struct LockscriptCommitment {
    pub script: crate::script::LockScript,
}

impl LockscriptCommitment {
    /// Embeds `msg` into the key found inside the container's script. On
    /// success the committed script is returned and the applied factor is
    /// recorded in the container; on failure the container is unchanged.
    pub fn embed_commit(container: &mut LockscriptContainer, msg: &[u8]) -> (r: Result<
        Self,
        Error,
    >)
        requires
            old(container).wf(),
        ensures
            ({
                let pre = old(container)@;
                let post = final(container)@;
                match r {
                    Ok(c) => {
                        &&& lockscript_commit(pre.script, pre.pubkey, pre.tag, msg@) == Ok::<
                            Seq<u8>,
                            Error,
                        >(c.script@)
                        &&& post.script == pre.script
                        &&& post.pubkey == pre.pubkey
                        &&& post.tag == pre.tag
                        &&& post.tweaking_factor == Some(
                            lnpbp1_tweak(pre.pubkey, pre.tag, msg@),
                        )
                    },
                    Err(e) => {
                        &&& lockscript_commit(pre.script, pre.pubkey, pre.tag, msg@) == Err::<
                            Seq<u8>,
                            Error,
                        >(e)
                        &&& post == pre
                    },
                }
            }),
    {
        if !contains_key(&container.script.bytes, &container.pubkey.bytes) {
            return Err(Error::InvalidProofStructure);
        }
        let mut sub = LNPBP1Container {
            pubkey: container.pubkey.copied(),
            tag: container.tag.copied(),
            tweaking_factor: None,
        };
        match LNPBP1Commitment::embed_commit(&mut sub, msg) {
            Ok(commitment) => {
                let committed = replace_key_bytes(
                    &container.script.bytes,
                    &container.pubkey.bytes,
                    &commitment.pubkey.bytes,
                );
                match sub.tweaking_factor {
                    Some(factor) => {
                        container.tweaking_factor = Some(factor);
                        Ok(
                            LockscriptCommitment {
                                script: crate::script::LockScript { bytes: committed },
                            },
                        )
                    },
                    None => Err(Error::InvalidTweak),
                }
            },
            Err(e) => Err(e),
        }
    }
}

} // verus!
