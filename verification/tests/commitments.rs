//! End-to-end tests of the commitment core: construction, reconstruction,
//! the round trip between them, and the failure cases.

use bitcoin::hashes::{Hash as BitcoinHash, HashEngine as BitcoinHashEngine};

use lnpbp::container::{Container, Error, Proof, ScriptInfo};
use lnpbp::hashes::Hash256;
use lnpbp::keys::PubKey;
use lnpbp::lockscript::{LockscriptCommitment, LockscriptContainer};
use lnpbp::script::{LockScript, PubkeyScript, ScriptPubkeyDescriptor, Strategy};
use lnpbp::scriptpubkey::{
    ScriptPubkeyCommitment, ScriptPubkeyComposition, ScriptPubkeyContainer,
};

/// The compressed serialization of the secp256k1 generator point.
fn generator_key_bytes() -> Vec<u8> {
    let mut v = vec![0x02u8];
    v.extend_from_slice(&[
        0x79, 0xBE, 0x66, 0x7E, 0xF9, 0xDC, 0xBB, 0xAC, 0x55, 0xA0, 0x62, 0x95, 0xCE, 0x87, 0x0B,
        0x07, 0x02, 0x9B, 0xFC, 0xDB, 0x2D, 0xCE, 0x28, 0xD9, 0x59, 0xF2, 0x81, 0x5B, 0x16, 0xF8,
        0x17, 0x98,
    ]);
    v
}

fn test_pubkey() -> PubKey {
    PubKey::from_bytes(generator_key_bytes()).expect("33-byte compressed key")
}

fn test_tag() -> Hash256 {
    Hash256::hash(b"test-protocol-tag")
}

fn embed(
    script_info: ScriptInfo,
    composition: ScriptPubkeyComposition,
    msg: &[u8],
) -> (ScriptPubkeyContainer, Result<ScriptPubkeyCommitment, Error>) {
    let mut container =
        ScriptPubkeyContainer::construct(&test_tag(), test_pubkey(), script_info, composition);
    let result = ScriptPubkeyCommitment::embed_commit(&mut container, msg);
    (container, result)
}

fn lock_script_with_key() -> LockScript {
    // A lock script that embeds the public key once: <push 33> <key> OP_CHECKSIG.
    let mut bytes = vec![33u8];
    bytes.extend_from_slice(&generator_key_bytes());
    bytes.push(0xac);
    LockScript::from_bytes(bytes)
}

fn round_trip(script_info: ScriptInfo, composition: ScriptPubkeyComposition) {
    let msg = b"commit to this message";
    let (container, result) = embed(script_info, composition, msg);
    let commitment = result.expect("embedding must succeed");
    assert!(container.tweaking_factor.is_some());

    let proof = container.to_proof();
    let reconstructed =
        ScriptPubkeyContainer::reconstruct(&proof, &test_tag(), &commitment.into_inner())
            .expect("reconstruction must succeed");
    assert_eq!(reconstructed.scriptpubkey_composition, composition);
    assert_eq!(reconstructed.pubkey, test_pubkey());
    assert_eq!(reconstructed.tag, test_tag());
    assert!(reconstructed.tweaking_factor.is_none());

    // Recomputing the commitment over the same message reproduces the factor.
    let mut again = reconstructed;
    let _ = ScriptPubkeyCommitment::embed_commit(&mut again, msg);
    assert_eq!(again.tweaking_factor, container.tweaking_factor);
}

#[test]
fn round_trip_public_key() {
    round_trip(ScriptInfo::Bare, ScriptPubkeyComposition::PublicKey);
}

#[test]
fn round_trip_pubkey_hash() {
    round_trip(ScriptInfo::Bare, ScriptPubkeyComposition::PubkeyHash);
}

#[test]
fn round_trip_witness_pubkey_hash() {
    round_trip(ScriptInfo::Bare, ScriptPubkeyComposition::WPubkeyHash);
}

#[test]
fn round_trip_op_return() {
    round_trip(ScriptInfo::Bare, ScriptPubkeyComposition::OpReturn);
}

#[test]
fn round_trip_witness_script_hash() {
    round_trip(
        ScriptInfo::LockScript(lock_script_with_key()),
        ScriptPubkeyComposition::WScriptHash,
    );
}

#[test]
fn round_trip_plain_script() {
    let msg = b"commit to this message";
    // OP_1 <push 33> <key> OP_CHECKSIG: not one of the standard shapes, so
    // the committed script still classifies as a plain script.
    let mut bytes = vec![0x51u8, 33u8];
    bytes.extend_from_slice(&generator_key_bytes());
    bytes.push(0xac);
    let script_info = ScriptInfo::LockScript(LockScript::from_bytes(bytes));
    let (container, result) = embed(script_info, ScriptPubkeyComposition::PlainScript, msg);
    let commitment = result.expect("embedding must succeed");

    let proof = container.to_proof();
    let reconstructed =
        ScriptPubkeyContainer::reconstruct(&proof, &test_tag(), &commitment.into_inner())
            .expect("reconstruction must succeed");
    assert_eq!(
        reconstructed.scriptpubkey_composition,
        ScriptPubkeyComposition::PlainScript
    );
    // The reconstructed proof carries the committed script: the embedded key
    // has been replaced by the tweaked key, so it differs from the original.
    match (&reconstructed.script_info, &proof.script_info) {
        (ScriptInfo::LockScript(observed), ScriptInfo::LockScript(original)) => {
            assert_ne!(observed, original);
            assert_eq!(observed.bytes.len(), original.bytes.len());
        }
        _ => panic!("both proofs must carry lock scripts"),
    }
}

#[test]
fn p2sh_disambiguation_selects_script_hash() {
    let lockscript = lock_script_with_key();
    let proof = Proof::new(test_pubkey(), ScriptInfo::LockScript(lockscript.clone()));
    let host = lockscript.to_script_pubkey(Strategy::LegacyHashed);
    let container = ScriptPubkeyContainer::reconstruct(&proof, &test_tag(), &host)
        .expect("legacy-hashed rendering must match");
    assert_eq!(
        container.scriptpubkey_composition,
        ScriptPubkeyComposition::ScriptHash
    );
}

#[test]
fn p2sh_disambiguation_selects_wrapped_witness_script_hash() {
    let lockscript = lock_script_with_key();
    let proof = Proof::new(test_pubkey(), ScriptInfo::LockScript(lockscript.clone()));
    let host = lockscript.to_script_pubkey(Strategy::WitnessScriptHash);
    let container = ScriptPubkeyContainer::reconstruct(&proof, &test_tag(), &host)
        .expect("witness-script-hash rendering must match");
    assert_eq!(
        container.scriptpubkey_composition,
        ScriptPubkeyComposition::SHWScriptHash
    );
}

#[test]
fn p2sh_disambiguation_selects_wrapped_witness_pubkey_hash() {
    let proof = Proof::new(test_pubkey(), ScriptInfo::Bare);
    let host = test_pubkey().to_script_pubkey(Strategy::WitnessScriptHash);
    let container = ScriptPubkeyContainer::reconstruct(&proof, &test_tag(), &host)
        .expect("witness-pubkey-hash rendering must match");
    assert_eq!(
        container.scriptpubkey_composition,
        ScriptPubkeyComposition::SHWPubkeyHash
    );
}

#[test]
fn p2sh_disambiguation_rejects_unrelated_hash() {
    let lockscript = lock_script_with_key();
    let proof = Proof::new(test_pubkey(), ScriptInfo::LockScript(lockscript));
    // A pay-to-script-hash output over a hash that matches neither rendering.
    let mut bytes = vec![0xa9u8, 20u8];
    bytes.extend_from_slice(&[0x55u8; 20]);
    bytes.push(0x87);
    let host = PubkeyScript::from_bytes(bytes);
    let result = ScriptPubkeyContainer::reconstruct(&proof, &test_tag(), &host);
    assert_eq!(result, Err(Error::InvalidProofStructure));
}

#[test]
fn shape_mismatch_is_rejected() {
    // A bare-key proof against a witness-script-hash host.
    let proof = Proof::new(test_pubkey(), ScriptInfo::Bare);
    let mut bytes = vec![0u8, 32u8];
    bytes.extend_from_slice(&[0x11u8; 32]);
    let host = PubkeyScript::from_bytes(bytes);
    assert_eq!(
        ScriptPubkeyContainer::reconstruct(&proof, &test_tag(), &host),
        Err(Error::InvalidProofStructure)
    );

    // A lock-script proof against a pay-to-pubkey-hash host.
    let proof = Proof::new(test_pubkey(), ScriptInfo::LockScript(lock_script_with_key()));
    let mut bytes = vec![0x76u8, 0xa9u8, 20u8];
    bytes.extend_from_slice(&[0x22u8; 20]);
    bytes.extend_from_slice(&[0x88, 0xac]);
    let host = PubkeyScript::from_bytes(bytes);
    assert_eq!(
        ScriptPubkeyContainer::reconstruct(&proof, &test_tag(), &host),
        Err(Error::InvalidProofStructure)
    );

    // A taproot proof against a null-data host.
    let root = Hash256::from_bytes(vec![0x33u8; 32]).unwrap();
    let proof = Proof::new(test_pubkey(), ScriptInfo::Taproot(root));
    let host = PubkeyScript::from_bytes(vec![0x6au8, 1u8, 0x00u8]);
    assert_eq!(
        ScriptPubkeyContainer::reconstruct(&proof, &test_tag(), &host),
        Err(Error::InvalidProofStructure)
    );
}

#[test]
fn distinct_messages_give_distinct_factors() {
    let (c1, r1) = embed(ScriptInfo::Bare, ScriptPubkeyComposition::PublicKey, b"first");
    let (c2, r2) = embed(ScriptInfo::Bare, ScriptPubkeyComposition::PublicKey, b"second");
    r1.expect("first embedding succeeds");
    r2.expect("second embedding succeeds");
    assert_ne!(c1.tweaking_factor.unwrap(), c2.tweaking_factor.unwrap());
}

#[test]
fn op_return_pushes_the_tweaked_key() {
    let msg: &[u8] = b"null-data commitment";
    let (container, result) = embed(ScriptInfo::Bare, ScriptPubkeyComposition::OpReturn, msg);
    let script = result.expect("embedding must succeed").into_inner();
    assert_eq!(script.bytes[0], 0x6a);
    assert_eq!(script.bytes[1], 33);
    assert_eq!(script.bytes.len(), 35);
    let pushed = &script.bytes[2..];

    // Re-derive the tweak from (tag, original key, message) with the real
    // primitives and apply it to the original key.
    let pk = generator_key_bytes();
    let mut engine: bitcoin::hashes::HmacEngine<bitcoin::hashes::sha256::Hash> =
        bitcoin::hashes::HmacEngine::new(&pk);
    engine.input(&test_tag().bytes);
    engine.input(msg);
    let tweak = bitcoin::hashes::Hmac::<bitcoin::hashes::sha256::Hash>::from_engine(engine)
        .to_byte_array();
    assert_eq!(container.tweaking_factor.unwrap().bytes, tweak.to_vec());

    let secp = bitcoin::secp256k1::Secp256k1::verification_only();
    let key = bitcoin::secp256k1::PublicKey::from_slice(&pk).unwrap();
    let scalar = bitcoin::secp256k1::Scalar::from_be_bytes(tweak).unwrap();
    let tweaked = key.add_exp_tweak(&secp, &scalar).unwrap();
    assert_eq!(pushed, tweaked.serialize());
}

#[test]
fn taproot_embedding_fails_explicitly() {
    let root = Hash256::from_bytes(vec![0x44u8; 32]).unwrap();
    let (container, result) = embed(
        ScriptInfo::Taproot(root),
        ScriptPubkeyComposition::TapRoot,
        b"taproot message",
    );
    assert_eq!(result, Err(Error::TaprootUnsupported));
    // The tweak itself was computed and recorded before the failure.
    assert!(container.tweaking_factor.is_some());

    // With a composition that does not match, the structural error comes
    // first and nothing is recorded.
    let root = Hash256::from_bytes(vec![0x44u8; 32]).unwrap();
    let (container, result) = embed(
        ScriptInfo::Taproot(root),
        ScriptPubkeyComposition::PublicKey,
        b"taproot message",
    );
    assert_eq!(result, Err(Error::InvalidProofStructure));
    assert!(container.tweaking_factor.is_none());
}

#[test]
fn wrong_composition_for_bare_key_is_rejected() {
    let (container, result) = embed(
        ScriptInfo::Bare,
        ScriptPubkeyComposition::ScriptHash,
        b"message",
    );
    assert_eq!(result, Err(Error::InvalidProofStructure));
    // The bare-key tweak had already succeeded, so the factor is recorded.
    assert!(container.tweaking_factor.is_some());
}

#[test]
fn lockscript_without_the_key_is_rejected() {
    // A lock script that does not mention the key at all.
    let script = LockScript::from_bytes(vec![0x51u8, 0x93u8, 0x52u8, 0x87u8]);
    let (container, result) = embed(
        ScriptInfo::LockScript(script),
        ScriptPubkeyComposition::WScriptHash,
        b"message",
    );
    assert_eq!(result, Err(Error::InvalidProofStructure));
    assert!(container.tweaking_factor.is_none());
}

#[test]
fn lockscript_replacement_covers_every_occurrence() {
    let mut container = LockscriptContainer {
        script: {
            // The key occurs twice: <push><key> OP_DROP <push><key> OP_CHECKSIG.
            let mut bytes = vec![33u8];
            bytes.extend_from_slice(&generator_key_bytes());
            bytes.push(0x75);
            bytes.push(33u8);
            bytes.extend_from_slice(&generator_key_bytes());
            bytes.push(0xac);
            LockScript::from_bytes(bytes)
        },
        pubkey: test_pubkey(),
        tag: test_tag(),
        tweaking_factor: None,
    };
    let committed = LockscriptCommitment::embed_commit(&mut container, b"message")
        .expect("embedding must succeed");
    let bytes = &committed.script.bytes;
    assert_eq!(bytes.len(), 2 * 34 + 2);
    // Both pushes now carry the same tweaked key, distinct from the original.
    assert_eq!(&bytes[1..34], &bytes[36..69]);
    assert_ne!(&bytes[1..34], generator_key_bytes().as_slice());
    assert_eq!(bytes[0], 33);
    assert_eq!(bytes[34], 0x75);
    assert_eq!(bytes[69], 0xac);
}

#[test]
fn classification_covers_every_shape() {
    let cases: Vec<(Vec<u8>, &str)> = vec![
        (
            {
                let mut v = vec![0xa9u8, 20u8];
                v.extend_from_slice(&[0u8; 20]);
                v.push(0x87);
                v
            },
            "p2sh",
        ),
        (
            {
                let mut v = vec![0x76u8, 0xa9u8, 20u8];
                v.extend_from_slice(&[0u8; 20]);
                v.extend_from_slice(&[0x88, 0xac]);
                v
            },
            "p2pkh",
        ),
        (
            {
                let mut v = vec![33u8];
                v.extend_from_slice(&[2u8; 33]);
                v.push(0xac);
                v
            },
            "p2pk",
        ),
        (vec![0x6au8, 2u8, 0xde, 0xad], "p2or"),
        (
            {
                let mut v = vec![0u8, 20u8];
                v.extend_from_slice(&[0u8; 20]);
                v
            },
            "p2wpkh",
        ),
        (
            {
                let mut v = vec![0u8, 32u8];
                v.extend_from_slice(&[0u8; 32]);
                v
            },
            "p2wsh",
        ),
        (
            {
                let mut v = vec![0x51u8, 32u8];
                v.extend_from_slice(&[0u8; 32]);
                v
            },
            "p2tr",
        ),
        (vec![0x51u8, 0x93u8], "p2s"),
    ];
    for (bytes, expected) in cases {
        let descriptor = ScriptPubkeyDescriptor::from_script(&PubkeyScript::from_bytes(bytes));
        let got = match descriptor {
            ScriptPubkeyDescriptor::P2SH(_) => "p2sh",
            ScriptPubkeyDescriptor::P2PKH(_) => "p2pkh",
            ScriptPubkeyDescriptor::P2PK(_) => "p2pk",
            ScriptPubkeyDescriptor::P2OR(_) => "p2or",
            ScriptPubkeyDescriptor::P2WPKH(_) => "p2wpkh",
            ScriptPubkeyDescriptor::P2WSH(_) => "p2wsh",
            ScriptPubkeyDescriptor::P2TR(_) => "p2tr",
            ScriptPubkeyDescriptor::P2S(_) => "p2s",
        };
        assert_eq!(got, expected);
    }
}

#[test]
fn uncompressed_pay_to_pubkey_is_classified() {
    let mut v = vec![65u8];
    v.extend_from_slice(&[4u8; 65]);
    v.push(0xac);
    let descriptor = ScriptPubkeyDescriptor::from_script(&PubkeyScript::from_bytes(v));
    assert!(matches!(descriptor, ScriptPubkeyDescriptor::P2PK(key) if key.len() == 65));
}

#[test]
fn rendered_scripts_have_exact_bytes() {
    let pk = test_pubkey();
    let key_hash =
        bitcoin::hashes::hash160::Hash::hash(&generator_key_bytes()).to_byte_array();

    let p2pkh = pk.to_script_pubkey(Strategy::LegacyHashed);
    let mut expected = vec![0x76u8, 0xa9, 20];
    expected.extend_from_slice(&key_hash);
    expected.extend_from_slice(&[0x88, 0xac]);
    assert_eq!(p2pkh.bytes, expected);

    let p2wpkh = pk.to_script_pubkey(Strategy::WitnessV0);
    let mut expected = vec![0u8, 20];
    expected.extend_from_slice(&key_hash);
    assert_eq!(p2wpkh.bytes, expected);

    let lockscript = lock_script_with_key();
    let script_sha = bitcoin::hashes::sha256::Hash::hash(&lockscript.bytes).to_byte_array();
    let p2wsh = lockscript.to_script_pubkey(Strategy::WitnessV0);
    let mut expected = vec![0u8, 32];
    expected.extend_from_slice(&script_sha);
    assert_eq!(p2wsh.bytes, expected);

    let exposed = lockscript.to_script_pubkey(Strategy::Exposed);
    assert_eq!(exposed.bytes, lockscript.bytes);
}

#[test]
fn deconstruct_recovers_proof_and_tag() {
    let lockscript = lock_script_with_key();
    let container = ScriptPubkeyContainer::construct(
        &test_tag(),
        test_pubkey(),
        ScriptInfo::LockScript(lockscript.clone()),
        ScriptPubkeyComposition::ScriptHash,
    );
    let (proof, tag) = container.deconstruct();
    assert_eq!(tag, test_tag());
    assert_eq!(proof.pubkey, test_pubkey());
    assert_eq!(proof.script_info, ScriptInfo::LockScript(lockscript));

    let container = ScriptPubkeyContainer::construct(
        &test_tag(),
        test_pubkey(),
        ScriptInfo::Bare,
        ScriptPubkeyComposition::PublicKey,
    );
    assert_eq!(container.to_proof(), container.clone().into_proof());
}
