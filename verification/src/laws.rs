//! The crate-level laws of the commitment scheme: the round trip between
//! construction and verification, the shape invariant that reconstruction
//! enforces, the determinism of the pay-to-script-hash disambiguation, the
//! exact form of a null-data commitment, and the explicit failure of the
//! taproot construction path.

use vstd::prelude::*;

use crate::container::{Error, ProofV, ScriptInfoV};
use crate::hashes::{hash160_of, sha256_of};
use crate::lnpbp1::{lnpbp1_commit, lnpbp1_tweak};
use crate::keys::tweaked_pubkey_of;
use crate::lockscript::{lemma_replace_key_len, lockscript_commit};
use crate::script::{
    classify, lemma_classify_op_return, lemma_classify_p2pk, lemma_classify_p2pkh,
    lemma_classify_p2wpkh, lemma_classify_p2wsh, op_return_script, pubkey_script_pubkey,
    script_script_pubkey, ScriptClass, Strategy,
};
use crate::scriptpubkey::{
    container_of, spec_embed_factor, spec_embed_result, spec_reconstruct, ScriptPubkeyComposition,
    ScriptPubkeyContainerV,
};

verus! {

/// Round trip for the bare-key compositions: embedding a commitment under a
/// bare-key proof and reconstructing from the resulting output script yields
/// back exactly the container the construction started from, and the factor
/// recorded during construction is the tweak re-derivable from the
/// reconstructed container's key and tag over the same message.
pub proof fn lemma_round_trip_bare(
    proof: ProofV,
    tag: Seq<u8>,
    msg: Seq<u8>,
    composition: ScriptPubkeyComposition,
    t: Seq<u8>,
)
    requires
        proof.script_info is Bare,
        composition == ScriptPubkeyComposition::PublicKey || composition
            == ScriptPubkeyComposition::PubkeyHash || composition
            == ScriptPubkeyComposition::WPubkeyHash || composition
            == ScriptPubkeyComposition::OpReturn,
        lnpbp1_commit(proof.pubkey, tag, msg) == Ok::<Seq<u8>, Error>(t),
        t.len() == 33,
        hash160_of(t).len() == 20,
    ensures
        ({
            let c0 = container_of(proof, composition, tag);
            &&& spec_embed_result(c0, msg) matches Ok(host) && spec_reconstruct(proof, tag, host)
                == Ok::<ScriptPubkeyContainerV, Error>(c0)
            &&& spec_embed_factor(c0, msg) == Some(lnpbp1_tweak(proof.pubkey, tag, msg))
        }),
{
    let c0 = container_of(proof, composition, tag);
    match composition {
        ScriptPubkeyComposition::PublicKey => {
            lemma_classify_p2pk(t);
        },
        ScriptPubkeyComposition::PubkeyHash => {
            lemma_classify_p2pkh(hash160_of(t));
        },
        ScriptPubkeyComposition::WPubkeyHash => {
            lemma_classify_p2wpkh(hash160_of(t));
        },
        ScriptPubkeyComposition::OpReturn => {
            lemma_classify_op_return(t);
        },
        _ => {},
    }
}

/// Round trip for the witness-script-hash composition: the output script is
/// the segwit v0 hash of the committed lock script, reconstruction yields
/// back exactly the container the construction started from, and the
/// recorded factor is the tweak re-derivable from its key and tag.
pub proof fn lemma_round_trip_wscripthash(
    proof: ProofV,
    tag: Seq<u8>,
    msg: Seq<u8>,
    committed: Seq<u8>,
)
    requires
        proof.script_info matches ScriptInfoV::LockScript(script) && lockscript_commit(
            script,
            proof.pubkey,
            tag,
            msg,
        ) == Ok::<Seq<u8>, Error>(committed),
        sha256_of(committed).len() == 32,
    ensures
        ({
            let c0 = container_of(proof, ScriptPubkeyComposition::WScriptHash, tag);
            &&& spec_embed_result(c0, msg) matches Ok(host) && spec_reconstruct(proof, tag, host)
                == Ok::<ScriptPubkeyContainerV, Error>(c0)
            &&& spec_embed_factor(c0, msg) == Some(lnpbp1_tweak(proof.pubkey, tag, msg))
        }),
{
    lemma_classify_p2wsh(sha256_of(committed));
}

/// Round trip for the plain-script composition: the committed lock script is
/// exposed as the output script itself; as long as the committed script still
/// classifies as a plain script, reconstruction succeeds, rewrites the proof
/// to carry the observed (committed) script, and keeps the composition, key
/// and tag. The factor recorded during construction is the tweak
/// re-derivable from the reconstructed container's key and tag alone — the
/// lock-script tweak does not depend on the script bytes.
pub proof fn lemma_round_trip_plain_script(
    proof: ProofV,
    tag: Seq<u8>,
    msg: Seq<u8>,
    committed: Seq<u8>,
)
    requires
        proof.script_info matches ScriptInfoV::LockScript(script) && lockscript_commit(
            script,
            proof.pubkey,
            tag,
            msg,
        ) == Ok::<Seq<u8>, Error>(committed),
        tweaked_pubkey_of(proof.pubkey, lnpbp1_tweak(proof.pubkey, tag, msg)) matches Some(t)
            && t.len() == proof.pubkey.len(),
        classify(committed) is P2S,
    ensures
        ({
            let c0 = container_of(proof, ScriptPubkeyComposition::PlainScript, tag);
            let rec = ScriptPubkeyContainerV {
                pubkey: proof.pubkey,
                script_info: ScriptInfoV::LockScript(committed),
                scriptpubkey_composition: ScriptPubkeyComposition::PlainScript,
                tag: tag,
                tweaking_factor: None,
            };
            &&& spec_embed_result(c0, msg) == Ok::<Seq<u8>, Error>(committed)
            &&& spec_reconstruct(proof, tag, committed) == Ok::<ScriptPubkeyContainerV, Error>(
                rec,
            )
            &&& spec_embed_factor(c0, msg) == Some(lnpbp1_tweak(rec.pubkey, rec.tag, msg))
            &&& committed.len() == proof.script_info->LockScript_0.len()
        }),
{
    let script = proof.script_info->LockScript_0;
    let t = tweaked_pubkey_of(proof.pubkey, lnpbp1_tweak(proof.pubkey, tag, msg))->Some_0;
    lemma_replace_key_len(script, proof.pubkey, t);
}

/// The shape invariant of reconstruction: a host script whose descriptor
/// does not belong to the proof's script info is rejected with
/// `InvalidProofStructure`. A bare-key proof admits no witness-script or
/// taproot host; a lock-script proof admits no bare-key, null-data or
/// taproot host; a taproot proof admits, of the standard shapes, only a
/// taproot host — every pay-to-script-hash host is rejected for it as well.
/// (A plain-script host is accepted under every variant, since
/// reconstruction rewrites the proof to carry the observed script.)
pub proof fn lemma_shape_rejection(proof: ProofV, tag: Seq<u8>, host: Seq<u8>)
    ensures
        proof.script_info is Bare && (classify(host) is P2WSH || classify(host) is P2TR)
            ==> spec_reconstruct(proof, tag, host) == Err::<ScriptPubkeyContainerV, Error>(
            Error::InvalidProofStructure,
        ),
        proof.script_info is LockScript && (classify(host) is P2PK || classify(host) is P2PKH
            || classify(host) is P2OR || classify(host) is P2WPKH || classify(host) is P2TR)
            ==> spec_reconstruct(proof, tag, host) == Err::<ScriptPubkeyContainerV, Error>(
            Error::InvalidProofStructure,
        ),
        proof.script_info is Taproot && !(classify(host) is P2TR) && !(classify(host) is P2S)
            ==> spec_reconstruct(proof, tag, host) == Err::<ScriptPubkeyContainerV, Error>(
            Error::InvalidProofStructure,
        ),
{
}

/// The pay-to-script-hash disambiguation is deterministic: with a lock
/// script in the proof, the legacy-hashed rendering is tried first and
/// selects `ScriptHash`; otherwise the witness-script-hash rendering selects
/// `SHWScriptHash`; otherwise reconstruction fails. With no lock script, the
/// witness-pubkey-hash rendering selects `SHWPubkeyHash` for a bare-key
/// proof, and everything else fails.
pub proof fn lemma_p2sh_disambiguation(proof: ProofV, tag: Seq<u8>, host: Seq<u8>)
    requires
        classify(host) is P2SH,
    ensures
        proof.script_info matches ScriptInfoV::LockScript(script) ==> spec_reconstruct(
            proof,
            tag,
            host,
        ) == (if script_script_pubkey(script, Strategy::LegacyHashed) == host {
            Ok::<ScriptPubkeyContainerV, Error>(
                container_of(proof, ScriptPubkeyComposition::ScriptHash, tag),
            )
        } else if script_script_pubkey(script, Strategy::WitnessScriptHash) == host {
            Ok::<ScriptPubkeyContainerV, Error>(
                container_of(proof, ScriptPubkeyComposition::SHWScriptHash, tag),
            )
        } else {
            Err::<ScriptPubkeyContainerV, Error>(Error::InvalidProofStructure)
        }),
        proof.script_info is Bare ==> spec_reconstruct(proof, tag, host) == (if
        pubkey_script_pubkey(proof.pubkey, Strategy::WitnessScriptHash) == host {
            Ok::<ScriptPubkeyContainerV, Error>(
                container_of(proof, ScriptPubkeyComposition::SHWPubkeyHash, tag),
            )
        } else {
            Err::<ScriptPubkeyContainerV, Error>(Error::InvalidProofStructure)
        }),
{
}

/// The null-data commitment has exactly the documented form: the output
/// script is OP_RETURN followed by one push of the tweaked key, the pushed
/// bytes are exactly the key obtained by applying the tweak re-derived from
/// the protocol tag, the original key and the message, and that tweak is the
/// factor the container records.
pub proof fn lemma_op_return_commitment(proof: ProofV, tag: Seq<u8>, msg: Seq<u8>, t: Seq<u8>)
    requires
        proof.script_info is Bare,
        lnpbp1_commit(proof.pubkey, tag, msg) == Ok::<Seq<u8>, Error>(t),
        t.len() == 33,
    ensures
        spec_embed_result(container_of(proof, ScriptPubkeyComposition::OpReturn, tag), msg)
            == Ok::<Seq<u8>, Error>(seq![0x6au8, 33u8] + t),
        tweaked_pubkey_of(proof.pubkey, lnpbp1_tweak(proof.pubkey, tag, msg)) == Some(t),
        spec_embed_factor(container_of(proof, ScriptPubkeyComposition::OpReturn, tag), msg)
            == Some(lnpbp1_tweak(proof.pubkey, tag, msg)),
{
    assert(op_return_script(t) =~= seq![0x6au8, 33u8] + t);
}

/// The taproot construction path never returns a script: whatever the
/// composition and message, embedding into a taproot container fails — with
/// the structural error if the composition is not `TapRoot`, with the tweak
/// error if the curve library rejects the tweak, and with the explicit
/// unsupported-output error otherwise.
pub proof fn lemma_taproot_rejected(c: ScriptPubkeyContainerV, msg: Seq<u8>)
    requires
        c.script_info is Taproot,
    ensures
        spec_embed_result(c, msg) is Err,
        c.scriptpubkey_composition != ScriptPubkeyComposition::TapRoot ==> spec_embed_result(
            c,
            msg,
        ) == Err::<Seq<u8>, Error>(Error::InvalidProofStructure),
{
}

} // verus!

