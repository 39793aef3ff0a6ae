//! The shared proof/container abstraction: a [`Proof`] is the durable,
//! publicly shareable description of what was committed; a container is the
//! ephemeral working state of one embed/verify cycle, reconstructed from a
//! proof, a protocol-specific supplement and an observed host value.

use vstd::prelude::*;

use crate::hashes::Hash256;
use crate::keys::PubKey;
use crate::script::LockScript;

verus! {

/// Errors of the commitment subsystem. They are local to one commitment
/// attempt and are never silently swallowed.
#[derive(Clone, Copy, Debug, PartialEq, Eq, Structural)]
pub enum Error {
    /// The observed host script's shape disagrees with the proof's script
    /// info, or a composition is paired with the wrong script info.
    InvalidProofStructure,
    /// The curve library rejected the key, the tweak scalar or their sum.
    InvalidTweak,
    /// The taproot tweak is computed, but the protocol does not define how a
    /// taproot output script is assembled from it, so no script can be
    /// returned for a taproot container.
    TaprootUnsupported,
}

/// What was committed to, besides the public key: nothing (a bare key), an
/// explicit lock script, or a taproot script-tree root.
#[derive(Clone, Debug, PartialEq, Eq)]
pub enum ScriptInfo {
    /// A bare key commitment: the key itself is the tweak target.
    Bare,
    /// A script-based commitment over an explicit locking script.
    LockScript(LockScript),
    /// A commitment anchored to a taproot script-tree root.
    Taproot(Hash256),
}

/// The view of a [`ScriptInfo`]: the same three shapes over byte sequences.
pub enum ScriptInfoV {
    Bare,
    LockScript(Seq<u8>),
    Taproot(Seq<u8>),
}

impl View for ScriptInfo {
    type V = ScriptInfoV;

    open spec fn view(&self) -> ScriptInfoV {
        match self {
            ScriptInfo::Bare => ScriptInfoV::Bare,
            ScriptInfo::LockScript(script) => ScriptInfoV::LockScript(script@),
            ScriptInfo::Taproot(root) => ScriptInfoV::Taproot(root@),
        }
    }
}

impl ScriptInfo {
    /// Well formed when a taproot root holds exactly 32 bytes.
    pub open spec fn wf(&self) -> bool {
        match self {
            ScriptInfo::Taproot(root) => root.wf(),
            _ => true,
        }
    }

    /// An owned copy with the same contents.
    pub fn copied(&self) -> (r: Self)
        ensures
            r@ == self@,
    {
        match self {
            ScriptInfo::Bare => ScriptInfo::Bare,
            ScriptInfo::LockScript(script) => ScriptInfo::LockScript(script.copied()),
            ScriptInfo::Taproot(root) => ScriptInfo::Taproot(root.copied()),
        }
    }
}

/// The minimal, publicly shareable description of what was committed: the
/// original (untweaked) public key and the optional script information.
/// A verifier must possess it independently of the on-chain script.
#[derive(Clone, Debug, PartialEq, Eq)]
pub struct Proof {
    pub pubkey: PubKey,
    pub script_info: ScriptInfo,
}

/// The view of a [`Proof`].
pub struct ProofV {
    pub pubkey: Seq<u8>,
    pub script_info: ScriptInfoV,
}

impl View for Proof {
    type V = ProofV;

    open spec fn view(&self) -> ProofV {
        ProofV { pubkey: self.pubkey@, script_info: self.script_info@ }
    }
}

impl Proof {
    /// Well formed when the key is a 33-byte compressed key and a taproot
    /// root, if present, holds 32 bytes.
    pub open spec fn wf(&self) -> bool {
        self.pubkey.wf() && self.script_info.wf()
    }

    pub fn new(pubkey: PubKey, script_info: ScriptInfo) -> (r: Self)
        ensures
            r@.pubkey == pubkey@,
            r@.script_info == script_info@,
    {
        Proof { pubkey, script_info }
    }

    /// An owned copy with the same contents.
    pub fn copied(&self) -> (r: Self)
        ensures
            r@.pubkey == self@.pubkey,
            r@.script_info == self@.script_info,
    {
        Proof { pubkey: self.pubkey.copied(), script_info: self.script_info.copied() }
    }
}

/// The generic contract linking a [`Proof`] plus protocol-specific supplement
/// data to a container able to produce a commitment over a concrete host.
pub trait Container: Sized {
    /// Protocol-specific auxiliary data required alongside a proof.
    type Supplement;

    /// The concrete type commitments are embedded into.
    type Host;

    /// The proof this container carries.
    spec fn proof_view(&self) -> ProofV;

    /// When `reconstruct` may be called.
    spec fn reconstruct_pre(proof: &Proof, supplement: &Self::Supplement, host: &Self::Host) -> bool;

    /// Classifies and validates an observed host against a publicly known
    /// proof, returning a container poised for recomputation.
    fn reconstruct(proof: &Proof, supplement: &Self::Supplement, host: &Self::Host) -> (r: Result<
        Self,
        Error,
    >)
        requires
            Self::reconstruct_pre(proof, supplement, host),
    ;

    /// Strips commitment-specific state, recovering the sharable artifacts.
    /// Lossy by design: composition and tweaking factor are discarded.
    fn deconstruct(self) -> (r: (Proof, Self::Supplement))
        ensures
            r.0@.pubkey == self.proof_view().pubkey,
            r.0@.script_info == self.proof_view().script_info,
    ;

    /// A cheap projection to the proof, keeping the container.
    fn to_proof(&self) -> (r: Proof)
        ensures
            r@.pubkey == self.proof_view().pubkey,
            r@.script_info == self.proof_view().script_info,
    ;

    /// An owned projection to the proof, consuming the container.
    fn into_proof(self) -> (r: Proof)
        ensures
            r@.pubkey == self.proof_view().pubkey,
            r@.script_info == self.proof_view().script_info,
    ;
}

} // verus!
