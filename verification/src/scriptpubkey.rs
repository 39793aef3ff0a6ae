//! The top-level commitment component: classifies an output script into one
//! of the ten supported compositions, dispatches to the matching nested
//! commitment primitive, and reassembles the final output script.

use vstd::prelude::*;

use crate::container::{Container, Error, Proof, ProofV, ScriptInfo, ScriptInfoV};
use crate::hashes::{Hash256, Hmac256};
use crate::keys::PubKey;
use crate::lnpbp1::{lnpbp1_commit, lnpbp1_tweak, LNPBP1Commitment, LNPBP1Container};
use crate::lockscript::{lockscript_commit, LockscriptCommitment, LockscriptContainer};
use crate::script::{
    build_op_return, classify, op_return_script, pubkey_script_pubkey, script_script_pubkey,
    scripts_equal, LockScript, PubkeyScript, ScriptClass, ScriptPubkeyDescriptor, Strategy,
};
use crate::taproot::{taproot_commit, taproot_tweak, TaprootCommitment, TaprootContainer};

verus! {

/// The ten supported shapes of an output script carrying a commitment. The
/// composition determines which nested primitive is used and how its output
/// is wrapped into the final script.
#[derive(Clone, Copy, Debug, PartialEq, Eq, Hash, Structural)]
#[non_exhaustive]
pub enum ScriptPubkeyComposition {
    PublicKey,
    PubkeyHash,
    ScriptHash,
    WPubkeyHash,
    WScriptHash,
    SHWPubkeyHash,
    SHWScriptHash,
    TapRoot,
    OpReturn,
    PlainScript,
}

/// The working state of one commitment operation over an output script.
#[derive(Clone, Debug, PartialEq, Eq)]
pub struct ScriptPubkeyContainer {
    pub pubkey: PubKey,
    pub script_info: ScriptInfo,
    pub scriptpubkey_composition: ScriptPubkeyComposition,
    /// Single SHA-256 hash of the protocol-specific tag.
    pub tag: Hash256,
    /// Tweaking factor stored after a commitment has been embedded; the
    /// audit trail of which adjustment was applied.
    pub tweaking_factor: Option<Hmac256>,
}

/// The view of a [`ScriptPubkeyContainer`].
pub struct ScriptPubkeyContainerV {
    pub pubkey: Seq<u8>,
    pub script_info: ScriptInfoV,
    pub scriptpubkey_composition: ScriptPubkeyComposition,
    pub tag: Seq<u8>,
    pub tweaking_factor: Option<Seq<u8>>,
}

impl View for ScriptPubkeyContainer {
    type V = ScriptPubkeyContainerV;

    open spec fn view(&self) -> ScriptPubkeyContainerV {
        ScriptPubkeyContainerV {
            pubkey: self.pubkey@,
            script_info: self.script_info@,
            scriptpubkey_composition: self.scriptpubkey_composition,
            tag: self.tag@,
            tweaking_factor: match self.tweaking_factor {
                Some(ref f) => Some(f@),
                None => None,
            },
        }
    }
}

impl ScriptPubkeyContainer {
    /// Well formed when the key, the tag and any taproot root have their
    /// exact byte lengths.
    pub open spec fn wf(&self) -> bool {
        self.pubkey.wf() && self.tag.wf() && self.script_info.wf()
    }

    /// Assembles a fresh container, with no tweaking factor yet.
    pub fn construct(
        protocol_tag: &Hash256,
        pubkey: PubKey,
        script_info: ScriptInfo,
        scriptpubkey_composition: ScriptPubkeyComposition,
    ) -> (r: Self)
        ensures
            r@.pubkey == pubkey@,
            r@.script_info == script_info@,
            r@.scriptpubkey_composition == scriptpubkey_composition,
            r@.tag == protocol_tag@,
            r@.tweaking_factor is None,
    {
        Self {
            pubkey,
            script_info,
            scriptpubkey_composition,
            tag: protocol_tag.copied(),
            tweaking_factor: None,
        }
    }
}

/// A container for `proof` with the given composition and tag, and no
/// tweaking factor.
pub open spec fn container_of(
    proof: ProofV,
    composition: ScriptPubkeyComposition,
    tag: Seq<u8>,
) -> ScriptPubkeyContainerV {
    ScriptPubkeyContainerV {
        pubkey: proof.pubkey,
        script_info: proof.script_info,
        scriptpubkey_composition: composition,
        tag: tag,
        tweaking_factor: None,
    }
}

/// Accepts a host shape that demands a bare-key proof.
pub open spec fn accept_bare(
    proof: ProofV,
    tag: Seq<u8>,
    composition: ScriptPubkeyComposition,
) -> Result<ScriptPubkeyContainerV, Error> {
    if proof.script_info is Bare {
        Ok(container_of(proof, composition, tag))
    } else {
        Err(Error::InvalidProofStructure)
    }
}

/// The pay-to-script-hash disambiguation: a script hash wraps either the
/// legacy-hashed lock script, the witness-script-hash rendering of the lock
/// script, or — with no lock script in the proof — the witness-pubkey-hash
/// rendering of the key. The first rendering that reproduces `host` decides.
pub open spec fn reconstruct_p2sh(proof: ProofV, tag: Seq<u8>, host: Seq<u8>) -> Result<
    ScriptPubkeyContainerV,
    Error,
> {
    match proof.script_info {
        ScriptInfoV::LockScript(script) => {
            if script_script_pubkey(script, Strategy::LegacyHashed) == host {
                Ok(container_of(proof, ScriptPubkeyComposition::ScriptHash, tag))
            } else if script_script_pubkey(script, Strategy::WitnessScriptHash) == host {
                Ok(container_of(proof, ScriptPubkeyComposition::SHWScriptHash, tag))
            } else {
                Err(Error::InvalidProofStructure)
            }
        },
        _ => {
            if pubkey_script_pubkey(proof.pubkey, Strategy::WitnessScriptHash) == host
                && proof.script_info is Bare {
                Ok(container_of(proof, ScriptPubkeyComposition::SHWPubkeyHash, tag))
            } else {
                Err(Error::InvalidProofStructure)
            }
        },
    }
}

/// What reconstruction returns for a proof, a tag and an observed host
/// script: the classified, shape-checked container, or the structural error.
pub open spec fn spec_reconstruct(proof: ProofV, tag: Seq<u8>, host: Seq<u8>) -> Result<
    ScriptPubkeyContainerV,
    Error,
> {
    match classify(host) {
        ScriptClass::P2SH(_) => reconstruct_p2sh(proof, tag, host),
        ScriptClass::P2S(script) => Ok(
            ScriptPubkeyContainerV {
                pubkey: proof.pubkey,
                script_info: ScriptInfoV::LockScript(script),
                scriptpubkey_composition: ScriptPubkeyComposition::PlainScript,
                tag: tag,
                tweaking_factor: None,
            },
        ),
        ScriptClass::P2PK(_) => accept_bare(proof, tag, ScriptPubkeyComposition::PublicKey),
        ScriptClass::P2PKH(_) => accept_bare(proof, tag, ScriptPubkeyComposition::PubkeyHash),
        ScriptClass::P2OR(_) => accept_bare(proof, tag, ScriptPubkeyComposition::OpReturn),
        ScriptClass::P2WPKH(_) => accept_bare(proof, tag, ScriptPubkeyComposition::WPubkeyHash),
        ScriptClass::P2WSH(_) => {
            if proof.script_info is LockScript {
                Ok(container_of(proof, ScriptPubkeyComposition::WScriptHash, tag))
            } else {
                Err(Error::InvalidProofStructure)
            }
        },
        ScriptClass::P2TR(_) => {
            if proof.script_info is Taproot {
                Ok(container_of(proof, ScriptPubkeyComposition::TapRoot, tag))
            } else {
                Err(Error::InvalidProofStructure)
            }
        },
    }
}

impl Container for ScriptPubkeyContainer {
    /// The supplement is the protocol-specific tag in its hashed form.
    type Supplement = Hash256;

    /// The host is an observed output script.
    type Host = PubkeyScript;

    open spec fn proof_view(&self) -> ProofV {
        ProofV { pubkey: self.pubkey@, script_info: self.script_info@ }
    }

    open spec fn reconstruct_pre(
        proof: &Proof,
        supplement: &Hash256,
        host: &PubkeyScript,
    ) -> bool {
        proof.wf() && supplement.wf()
    }

    fn reconstruct(proof: &Proof, supplement: &Hash256, host: &PubkeyScript) -> (r: Result<
        Self,
        Error,
    >)
        ensures
            match r {
                Ok(c) => spec_reconstruct(proof@, supplement@, host@) == Ok::<
                    ScriptPubkeyContainerV,
                    Error,
                >(c@) && c.wf(),
                Err(e) => spec_reconstruct(proof@, supplement@, host@) == Err::<
                    ScriptPubkeyContainerV,
                    Error,
                >(e),
            },
    {
        let mut local = proof.copied();
        let composition: ScriptPubkeyComposition = match ScriptPubkeyDescriptor::from_script(
            host,
        ) {
            ScriptPubkeyDescriptor::P2SH(_) => {
                match &local.script_info {
                    ScriptInfo::LockScript(lockscript) => {
                        let legacy = lockscript.to_script_pubkey(Strategy::LegacyHashed);
                        let wrapped = lockscript.to_script_pubkey(Strategy::WitnessScriptHash);
                        if scripts_equal(&legacy, host) {
                            ScriptPubkeyComposition::ScriptHash
                        } else if scripts_equal(&wrapped, host) {
                            ScriptPubkeyComposition::SHWScriptHash
                        } else {
                            return Err(Error::InvalidProofStructure);
                        }
                    },
                    _ => {
                        let wrapped = local.pubkey.to_script_pubkey(Strategy::WitnessScriptHash);
                        if scripts_equal(&wrapped, host) {
                            ScriptPubkeyComposition::SHWPubkeyHash
                        } else {
                            return Err(Error::InvalidProofStructure);
                        }
                    },
                }
            },
            ScriptPubkeyDescriptor::P2S(script) => {
                local.script_info = ScriptInfo::LockScript(LockScript::from_bytes(script));
                ScriptPubkeyComposition::PlainScript
            },
            ScriptPubkeyDescriptor::P2PK(_) => ScriptPubkeyComposition::PublicKey,
            ScriptPubkeyDescriptor::P2PKH(_) => ScriptPubkeyComposition::PubkeyHash,
            ScriptPubkeyDescriptor::P2OR(_) => ScriptPubkeyComposition::OpReturn,
            ScriptPubkeyDescriptor::P2WPKH(_) => ScriptPubkeyComposition::WPubkeyHash,
            ScriptPubkeyDescriptor::P2WSH(_) => ScriptPubkeyComposition::WScriptHash,
            ScriptPubkeyDescriptor::P2TR(_) => ScriptPubkeyComposition::TapRoot,
        };
        let shape_ok: bool = match composition {
            ScriptPubkeyComposition::PublicKey
            | ScriptPubkeyComposition::PubkeyHash
            | ScriptPubkeyComposition::WPubkeyHash
            | ScriptPubkeyComposition::SHWPubkeyHash
            | ScriptPubkeyComposition::OpReturn => matches!(local.script_info, ScriptInfo::Bare),
            ScriptPubkeyComposition::PlainScript
            | ScriptPubkeyComposition::ScriptHash
            | ScriptPubkeyComposition::WScriptHash
            | ScriptPubkeyComposition::SHWScriptHash => matches!(
                local.script_info,
                ScriptInfo::LockScript(_),
            ),
            ScriptPubkeyComposition::TapRoot => matches!(
                local.script_info,
                ScriptInfo::Taproot(_),
            ),
        };
        if !shape_ok {
            return Err(Error::InvalidProofStructure);
        }
        Ok(
            ScriptPubkeyContainer {
                pubkey: local.pubkey,
                script_info: local.script_info,
                scriptpubkey_composition: composition,
                tag: supplement.copied(),
                tweaking_factor: None,
            },
        )
    }

    fn deconstruct(self) -> (r: (Proof, Hash256))
        ensures
            r.1@ == self@.tag,
    {
        (Proof { pubkey: self.pubkey, script_info: self.script_info }, self.tag)
    }

    fn to_proof(&self) -> (r: Proof) {
        Proof { pubkey: self.pubkey.copied(), script_info: self.script_info.copied() }
    }

    fn into_proof(self) -> (r: Proof) {
        Proof { pubkey: self.pubkey, script_info: self.script_info }
    }
}

/// An output script containing a commitment: the only externally meaningful
/// product of the construction path.
#[derive(Clone, Debug, PartialEq, Eq)]
pub struct ScriptPubkeyCommitment {
    pub script: PubkeyScript,
}

impl View for ScriptPubkeyCommitment {
    type V = Seq<u8>;

    open spec fn view(&self) -> Seq<u8> {
        self.script@
    }
}

impl ScriptPubkeyCommitment {
    /// Unwraps the committed output script.
    pub fn into_inner(self) -> (r: PubkeyScript)
        ensures
            r@ == self@,
    {
        self.script
    }
}

/// The output script the construction path returns for a container and a
/// message, or the error it fails with.
pub open spec fn spec_embed_result(c: ScriptPubkeyContainerV, msg: Seq<u8>) -> Result<
    Seq<u8>,
    Error,
> {
    match c.script_info {
        ScriptInfoV::LockScript(script) => {
            match lockscript_commit(script, c.pubkey, c.tag, msg) {
                Ok(committed) => match c.scriptpubkey_composition {
                    ScriptPubkeyComposition::PlainScript => Ok(
                        script_script_pubkey(committed, Strategy::Exposed),
                    ),
                    ScriptPubkeyComposition::ScriptHash => Ok(
                        script_script_pubkey(committed, Strategy::LegacyHashed),
                    ),
                    ScriptPubkeyComposition::WScriptHash => Ok(
                        script_script_pubkey(committed, Strategy::WitnessV0),
                    ),
                    ScriptPubkeyComposition::SHWScriptHash => Ok(
                        script_script_pubkey(committed, Strategy::WitnessScriptHash),
                    ),
                    _ => Err(Error::InvalidProofStructure),
                },
                Err(e) => Err(e),
            }
        },
        ScriptInfoV::Taproot(root) => {
            if c.scriptpubkey_composition != ScriptPubkeyComposition::TapRoot {
                Err(Error::InvalidProofStructure)
            } else {
                match taproot_commit(c.pubkey, root, c.tag, msg) {
                    Ok(_) => Err(Error::TaprootUnsupported),
                    Err(e) => Err(e),
                }
            }
        },
        ScriptInfoV::Bare => {
            match lnpbp1_commit(c.pubkey, c.tag, msg) {
                Ok(tweaked) => match c.scriptpubkey_composition {
                    ScriptPubkeyComposition::PublicKey => Ok(
                        pubkey_script_pubkey(tweaked, Strategy::Exposed),
                    ),
                    ScriptPubkeyComposition::PubkeyHash => Ok(
                        pubkey_script_pubkey(tweaked, Strategy::LegacyHashed),
                    ),
                    ScriptPubkeyComposition::WPubkeyHash => Ok(
                        pubkey_script_pubkey(tweaked, Strategy::WitnessV0),
                    ),
                    ScriptPubkeyComposition::SHWPubkeyHash => Ok(
                        pubkey_script_pubkey(tweaked, Strategy::WitnessScriptHash),
                    ),
                    ScriptPubkeyComposition::OpReturn => Ok(op_return_script(tweaked)),
                    _ => Err(Error::InvalidProofStructure),
                },
                Err(e) => Err(e),
            }
        },
    }
}

/// The tweaking factor recorded in the container after the construction
/// path: populated exactly when the nested primitive succeeded, and left as
/// it was otherwise.
pub open spec fn spec_embed_factor(c: ScriptPubkeyContainerV, msg: Seq<u8>) -> Option<Seq<u8>> {
    match c.script_info {
        ScriptInfoV::LockScript(script) => {
            if lockscript_commit(script, c.pubkey, c.tag, msg) is Ok {
                Some(lnpbp1_tweak(c.pubkey, c.tag, msg))
            } else {
                c.tweaking_factor
            }
        },
        ScriptInfoV::Taproot(root) => {
            if c.scriptpubkey_composition == ScriptPubkeyComposition::TapRoot && taproot_commit(
                c.pubkey,
                root,
                c.tag,
                msg,
            ) is Ok {
                Some(taproot_tweak(c.pubkey, root, c.tag, msg))
            } else {
                c.tweaking_factor
            }
        },
        ScriptInfoV::Bare => {
            if lnpbp1_commit(c.pubkey, c.tag, msg) is Ok {
                Some(lnpbp1_tweak(c.pubkey, c.tag, msg))
            } else {
                c.tweaking_factor
            }
        },
    }
}

impl ScriptPubkeyCommitment {
    /// Embeds `msg` into the container, dispatching on its script info, and
    /// wraps the committed primitive into the final output script according
    /// to the composition. The applied tweaking factor is recorded in the
    /// container exactly when the nested primitive succeeds; a taproot
    /// container computes its tweak but has no defined output script, so it
    /// always fails explicitly rather than returning a malformed script.
    pub fn embed_commit(container: &mut ScriptPubkeyContainer, msg: &[u8]) -> (r: Result<
        Self,
        Error,
    >)
        requires
            old(container).wf(),
        ensures
            ({
                let pre = old(container)@;
                let post = final(container)@;
                &&& post.pubkey == pre.pubkey
                &&& post.script_info == pre.script_info
                &&& post.scriptpubkey_composition == pre.scriptpubkey_composition
                &&& post.tag == pre.tag
                &&& post.tweaking_factor == spec_embed_factor(pre, msg@)
                &&& match r {
                    Ok(c) => spec_embed_result(pre, msg@) == Ok::<Seq<u8>, Error>(c@),
                    Err(e) => spec_embed_result(pre, msg@) == Err::<Seq<u8>, Error>(e),
                }
            }),
    {
        match &container.script_info {
            ScriptInfo::LockScript(lockscript) => {
                let mut sub = LockscriptContainer {
                    script: lockscript.copied(),
                    pubkey: container.pubkey.copied(),
                    tag: container.tag.copied(),
                    tweaking_factor: None,
                };
                let committed = match LockscriptCommitment::embed_commit(&mut sub, msg) {
                    Ok(c) => c.script,
                    Err(e) => {
                        return Err(e);
                    },
                };
                match sub.tweaking_factor {
                    Some(factor) => {
                        container.tweaking_factor = Some(factor);
                    },
                    None => {
                        proof {
                            assert(false);
                        }
                        return Err(Error::InvalidTweak);
                    },
                }
                let script_pubkey = match container.scriptpubkey_composition {
                    ScriptPubkeyComposition::PlainScript => committed.to_script_pubkey(
                        Strategy::Exposed,
                    ),
                    ScriptPubkeyComposition::ScriptHash => committed.to_script_pubkey(
                        Strategy::LegacyHashed,
                    ),
                    ScriptPubkeyComposition::WScriptHash => committed.to_script_pubkey(
                        Strategy::WitnessV0,
                    ),
                    ScriptPubkeyComposition::SHWScriptHash => committed.to_script_pubkey(
                        Strategy::WitnessScriptHash,
                    ),
                    _ => {
                        return Err(Error::InvalidProofStructure);
                    },
                };
                Ok(ScriptPubkeyCommitment { script: script_pubkey })
            },
            ScriptInfo::Taproot(root) => {
                if !(container.scriptpubkey_composition == ScriptPubkeyComposition::TapRoot) {
                    return Err(Error::InvalidProofStructure);
                }
                let mut sub = TaprootContainer {
                    script_root: root.copied(),
                    intermediate_key: container.pubkey.copied(),
                    tag: container.tag.copied(),
                    tweaking_factor: None,
                };
                match TaprootCommitment::embed_commit(&mut sub, msg) {
                    Ok(_) => {},
                    Err(e) => {
                        return Err(e);
                    },
                }
                match sub.tweaking_factor {
                    Some(factor) => {
                        container.tweaking_factor = Some(factor);
                    },
                    None => {
                        proof {
                            assert(false);
                        }
                        return Err(Error::InvalidTweak);
                    },
                }
                Err(Error::TaprootUnsupported)
            },
            ScriptInfo::Bare => {
                let mut sub = LNPBP1Container {
                    pubkey: container.pubkey.copied(),
                    tag: container.tag.copied(),
                    tweaking_factor: None,
                };
                let tweaked = match LNPBP1Commitment::embed_commit(&mut sub, msg) {
                    Ok(c) => c.pubkey,
                    Err(e) => {
                        return Err(e);
                    },
                };
                match sub.tweaking_factor {
                    Some(factor) => {
                        container.tweaking_factor = Some(factor);
                    },
                    None => {
                        proof {
                            assert(false);
                        }
                        return Err(Error::InvalidTweak);
                    },
                }
                let script_pubkey = match container.scriptpubkey_composition {
                    ScriptPubkeyComposition::PublicKey => tweaked.to_script_pubkey(
                        Strategy::Exposed,
                    ),
                    ScriptPubkeyComposition::PubkeyHash => tweaked.to_script_pubkey(
                        Strategy::LegacyHashed,
                    ),
                    ScriptPubkeyComposition::WPubkeyHash => tweaked.to_script_pubkey(
                        Strategy::WitnessV0,
                    ),
                    ScriptPubkeyComposition::SHWPubkeyHash => tweaked.to_script_pubkey(
                        Strategy::WitnessScriptHash,
                    ),
                    ScriptPubkeyComposition::OpReturn => PubkeyScript::from_bytes(
                        build_op_return(&tweaked.bytes),
                    ),
                    _ => {
                        return Err(Error::InvalidProofStructure);
                    },
                };
                Ok(ScriptPubkeyCommitment { script: script_pubkey })
            },
        }
    }
}

} // verus!
