//! The byte-level model of bitcoin output scripts: the standard shapes a
//! script pubkey can take, how a key or a lock script is rendered into each
//! shape, and how an observed script is classified back into a descriptor.

use vstd::prelude::*;

use crate::bytes::{bytes_eq, clone_bytes, extend_bytes, sub_bytes};
use crate::hashes::{hash160, hash160_of, sha256, sha256_of};
use crate::keys::PubKey;

verus! {

/// An explicit locking script, as raw script bytes.
#[derive(Clone, Debug, PartialEq, Eq)]
pub struct LockScript {
    pub bytes: Vec<u8>,
}

impl View for LockScript {
    type V = Seq<u8>;

    open spec fn view(&self) -> Seq<u8> {
        self.bytes@
    }
}

impl LockScript {
    pub fn from_bytes(bytes: Vec<u8>) -> (r: Self)
        ensures
            r@ == bytes@,
    {
        LockScript { bytes }
    }

    /// An owned copy with the same contents.
    pub fn copied(&self) -> (r: Self)
        ensures
            r@ == self@,
    {
        LockScript { bytes: clone_bytes(&self.bytes) }
    }
}

/// A transaction output script (script pubkey), as raw script bytes.
#[derive(Clone, Debug, PartialEq, Eq)]
pub struct PubkeyScript {
    pub bytes: Vec<u8>,
}

impl View for PubkeyScript {
    type V = Seq<u8>;

    open spec fn view(&self) -> Seq<u8> {
        self.bytes@
    }
}

impl PubkeyScript {
    pub fn from_bytes(bytes: Vec<u8>) -> (r: Self)
        ensures
            r@ == bytes@,
    {
        PubkeyScript { bytes }
    }

    /// An owned copy with the same contents.
    pub fn copied(&self) -> (r: Self)
        ensures
            r@ == self@,
    {
        PubkeyScript { bytes: clone_bytes(&self.bytes) }
    }
}

/// How a key or a lock script is wrapped into the final output script.
#[derive(Clone, Copy, Debug, PartialEq, Eq, Structural)]
pub enum Strategy {
    /// The key or script stands in the output script itself.
    Exposed,
    /// The output script pays to the hash160 of the key or script.
    LegacyHashed,
    /// The output script is the native segwit v0 form.
    WitnessV0,
    /// The segwit v0 form, itself wrapped into a legacy script hash.
    WitnessScriptHash,
}

// -- The byte layouts of the standard output-script shapes.

/// Pay-to-pubkey: a push of the 33 key bytes, then OP_CHECKSIG.
pub open spec fn p2pk_script(pk: Seq<u8>) -> Seq<u8> {
    seq![33u8] + pk + seq![0xacu8]
}

/// Pay-to-pubkey-hash: OP_DUP OP_HASH160, a push of the 20-byte key hash,
/// OP_EQUALVERIFY OP_CHECKSIG.
pub open spec fn p2pkh_script(kh: Seq<u8>) -> Seq<u8> {
    seq![0x76u8, 0xa9u8, 20u8] + kh + seq![0x88u8, 0xacu8]
}

/// Pay-to-script-hash: OP_HASH160, a push of the 20-byte script hash, OP_EQUAL.
pub open spec fn p2sh_script(sh: Seq<u8>) -> Seq<u8> {
    seq![0xa9u8, 20u8] + sh + seq![0x87u8]
}

/// Native segwit v0 pay-to-witness-pubkey-hash: OP_0, a push of 20 bytes.
pub open spec fn p2wpkh_script(kh: Seq<u8>) -> Seq<u8> {
    seq![0u8, 20u8] + kh
}

/// Native segwit v0 pay-to-witness-script-hash: OP_0, a push of 32 bytes.
pub open spec fn p2wsh_script(sh: Seq<u8>) -> Seq<u8> {
    seq![0u8, 32u8] + sh
}

/// Segwit v1 (taproot): OP_1, a push of the 32-byte output key.
pub open spec fn p2tr_script(key: Seq<u8>) -> Seq<u8> {
    seq![0x51u8, 32u8] + key
}

/// Null-data output: OP_RETURN, then one direct push of the payload
/// (at most 75 bytes, so a single length byte suffices).
pub open spec fn op_return_script(data: Seq<u8>) -> Seq<u8> {
    seq![0x6au8, data.len() as u8] + data
}

/// The output script that exposes or hashes a public key under `strategy`.
pub open spec fn pubkey_script_pubkey(pk: Seq<u8>, strategy: Strategy) -> Seq<u8> {
    match strategy {
        Strategy::Exposed => p2pk_script(pk),
        Strategy::LegacyHashed => p2pkh_script(hash160_of(pk)),
        Strategy::WitnessV0 => p2wpkh_script(hash160_of(pk)),
        Strategy::WitnessScriptHash => p2sh_script(
            hash160_of(p2wpkh_script(hash160_of(pk))),
        ),
    }
}

/// The output script that exposes or hashes a lock script under `strategy`.
pub open spec fn script_script_pubkey(script: Seq<u8>, strategy: Strategy) -> Seq<u8> {
    match strategy {
        Strategy::Exposed => script,
        Strategy::LegacyHashed => p2sh_script(hash160_of(script)),
        Strategy::WitnessV0 => p2wsh_script(sha256_of(script)),
        Strategy::WitnessScriptHash => p2sh_script(
            hash160_of(p2wsh_script(sha256_of(script))),
        ),
    }
}

// -- Exec builders for each shape.

fn build_p2pk(pk: &Vec<u8>) -> (r: Vec<u8>)
    requires
        pk@.len() == 33,
    ensures
        r@ == p2pk_script(pk@),
{
    let mut out: Vec<u8> = Vec::new();
    out.push(33u8);
    extend_bytes(&mut out, pk);
    out.push(0xacu8);
    proof {
        assert(out@ =~= p2pk_script(pk@));
    }
    out
}

fn build_p2pkh(kh: &Vec<u8>) -> (r: Vec<u8>)
    requires
        kh@.len() == 20,
    ensures
        r@ == p2pkh_script(kh@),
{
    let mut out: Vec<u8> = Vec::new();
    out.push(0x76u8);
    out.push(0xa9u8);
    out.push(20u8);
    extend_bytes(&mut out, kh);
    out.push(0x88u8);
    out.push(0xacu8);
    proof {
        assert(out@ =~= p2pkh_script(kh@));
    }
    out
}

fn build_p2sh(sh: &Vec<u8>) -> (r: Vec<u8>)
    requires
        sh@.len() == 20,
    ensures
        r@ == p2sh_script(sh@),
{
    let mut out: Vec<u8> = Vec::new();
    out.push(0xa9u8);
    out.push(20u8);
    extend_bytes(&mut out, sh);
    out.push(0x87u8);
    proof {
        assert(out@ =~= p2sh_script(sh@));
    }
    out
}

fn build_p2wpkh(kh: &Vec<u8>) -> (r: Vec<u8>)
    requires
        kh@.len() == 20,
    ensures
        r@ == p2wpkh_script(kh@),
{
    let mut out: Vec<u8> = Vec::new();
    out.push(0u8);
    out.push(20u8);
    extend_bytes(&mut out, kh);
    proof {
        assert(out@ =~= p2wpkh_script(kh@));
    }
    out
}

fn build_p2wsh(sh: &Vec<u8>) -> (r: Vec<u8>)
    requires
        sh@.len() == 32,
    ensures
        r@ == p2wsh_script(sh@),
{
    let mut out: Vec<u8> = Vec::new();
    out.push(0u8);
    out.push(32u8);
    extend_bytes(&mut out, sh);
    proof {
        assert(out@ =~= p2wsh_script(sh@));
    }
    out
}

/// Builds the null-data output for a short payload.
pub fn build_op_return(data: &Vec<u8>) -> (r: Vec<u8>)
    requires
        data@.len() <= 75,
    ensures
        r@ == op_return_script(data@),
{
    let mut out: Vec<u8> = Vec::new();
    out.push(0x6au8);
    out.push(data.len() as u8);
    extend_bytes(&mut out, data);
    proof {
        assert(out@ =~= op_return_script(data@));
    }
    out
}

impl PubKey {
    /// Renders this key into an output script under the given strategy.
    pub fn to_script_pubkey(&self, strategy: Strategy) -> (r: PubkeyScript)
        requires
            self@.len() == 33,
        ensures
            r@ == pubkey_script_pubkey(self@, strategy),
    {
        let bytes = match strategy {
            Strategy::Exposed => build_p2pk(&self.bytes),
            Strategy::LegacyHashed => build_p2pkh(&hash160(self.bytes.as_slice())),
            Strategy::WitnessV0 => build_p2wpkh(&hash160(self.bytes.as_slice())),
            Strategy::WitnessScriptHash => {
                let witness = build_p2wpkh(&hash160(self.bytes.as_slice()));
                build_p2sh(&hash160(witness.as_slice()))
            },
        };
        PubkeyScript { bytes }
    }
}

impl LockScript {
    /// Renders this lock script into an output script under the given strategy.
    pub fn to_script_pubkey(&self, strategy: Strategy) -> (r: PubkeyScript)
        ensures
            r@ == script_script_pubkey(self@, strategy),
    {
        let bytes = match strategy {
            Strategy::Exposed => clone_bytes(&self.bytes),
            Strategy::LegacyHashed => build_p2sh(&hash160(self.bytes.as_slice())),
            Strategy::WitnessV0 => build_p2wsh(&sha256(self.bytes.as_slice())),
            Strategy::WitnessScriptHash => {
                let witness = build_p2wsh(&sha256(self.bytes.as_slice()));
                build_p2sh(&hash160(witness.as_slice()))
            },
        };
        PubkeyScript { bytes }
    }
}

// -- Classification of an observed output script.

pub open spec fn is_p2sh(s: Seq<u8>) -> bool {
    s.len() == 23 && s[0] == 0xa9 && s[1] == 20 && s[22] == 0x87
}

pub open spec fn is_p2pkh(s: Seq<u8>) -> bool {
    s.len() == 25 && s[0] == 0x76 && s[1] == 0xa9 && s[2] == 20 && s[23] == 0x88 && s[24] == 0xac
}

pub open spec fn is_p2pk(s: Seq<u8>) -> bool {
    (s.len() == 35 && s[0] == 33 && s[34] == 0xac) || (s.len() == 67 && s[0] == 65 && s[66]
        == 0xac)
}

pub open spec fn is_op_return(s: Seq<u8>) -> bool {
    s.len() >= 1 && s[0] == 0x6a
}

pub open spec fn is_p2wpkh(s: Seq<u8>) -> bool {
    s.len() == 22 && s[0] == 0 && s[1] == 20
}

pub open spec fn is_p2wsh(s: Seq<u8>) -> bool {
    s.len() == 34 && s[0] == 0 && s[1] == 32
}

pub open spec fn is_p2tr(s: Seq<u8>) -> bool {
    s.len() == 34 && s[0] == 0x51 && s[1] == 32
}

/// The classification of a script, with the payload each shape carries.
/// A script that matches none of the standard shapes is a plain script.
pub enum ScriptClass {
    P2SH(Seq<u8>),
    P2PKH(Seq<u8>),
    P2PK(Seq<u8>),
    P2OR(Seq<u8>),
    P2WPKH(Seq<u8>),
    P2WSH(Seq<u8>),
    P2TR(Seq<u8>),
    P2S(Seq<u8>),
}

/// Classifies raw output-script bytes. The standard shapes are mutually
/// exclusive (they differ in length or in a fixed opcode byte), so the order
/// of the tests does not matter.
pub open spec fn classify(s: Seq<u8>) -> ScriptClass {
    if is_p2sh(s) {
        ScriptClass::P2SH(s.subrange(2, 22))
    } else if is_p2pkh(s) {
        ScriptClass::P2PKH(s.subrange(3, 23))
    } else if is_p2pk(s) {
        ScriptClass::P2PK(if s.len() == 35 {
            s.subrange(1, 34)
        } else {
            s.subrange(1, 66)
        })
    } else if is_op_return(s) {
        ScriptClass::P2OR(s)
    } else if is_p2wpkh(s) {
        ScriptClass::P2WPKH(s.subrange(2, 22))
    } else if is_p2wsh(s) {
        ScriptClass::P2WSH(s.subrange(2, 34))
    } else if is_p2tr(s) {
        ScriptClass::P2TR(s.subrange(2, 34))
    } else {
        ScriptClass::P2S(s)
    }
}

/// The descriptor of an observed output script: which standard shape it has,
/// and the payload bytes that shape carries.
#[derive(Clone, Debug, PartialEq, Eq)]
pub enum ScriptPubkeyDescriptor {
    /// Pay-to-script-hash; carries the 20-byte script hash.
    P2SH(Vec<u8>),
    /// Pay-to-pubkey-hash; carries the 20-byte key hash.
    P2PKH(Vec<u8>),
    /// Bare pay-to-pubkey; carries the serialized key (33 or 65 bytes).
    P2PK(Vec<u8>),
    /// Null-data output; carries the whole script.
    P2OR(Vec<u8>),
    /// Segwit v0 pay-to-witness-pubkey-hash; carries the 20-byte key hash.
    P2WPKH(Vec<u8>),
    /// Segwit v0 pay-to-witness-script-hash; carries the 32-byte script hash.
    P2WSH(Vec<u8>),
    /// Segwit v1 taproot output; carries the 32-byte output key.
    P2TR(Vec<u8>),
    /// None of the standard shapes; carries the whole script.
    P2S(Vec<u8>),
}

impl View for ScriptPubkeyDescriptor {
    type V = ScriptClass;

    open spec fn view(&self) -> ScriptClass {
        match self {
            ScriptPubkeyDescriptor::P2SH(v) => ScriptClass::P2SH(v@),
            ScriptPubkeyDescriptor::P2PKH(v) => ScriptClass::P2PKH(v@),
            ScriptPubkeyDescriptor::P2PK(v) => ScriptClass::P2PK(v@),
            ScriptPubkeyDescriptor::P2OR(v) => ScriptClass::P2OR(v@),
            ScriptPubkeyDescriptor::P2WPKH(v) => ScriptClass::P2WPKH(v@),
            ScriptPubkeyDescriptor::P2WSH(v) => ScriptClass::P2WSH(v@),
            ScriptPubkeyDescriptor::P2TR(v) => ScriptClass::P2TR(v@),
            ScriptPubkeyDescriptor::P2S(v) => ScriptClass::P2S(v@),
        }
    }
}

impl ScriptPubkeyDescriptor {
    /// Parses an observed output script into its descriptor. Total: a script
    /// that matches no standard shape is a plain script.
    pub fn from_script(host: &PubkeyScript) -> (r: Self)
        ensures
            r@ == classify(host@),
    {
        let s = &host.bytes;
        let n = s.len();
        if n == 23 && s[0] == 0xa9 && s[1] == 20 && s[22] == 0x87 {
            ScriptPubkeyDescriptor::P2SH(sub_bytes(s, 2, 22))
        } else if n == 25 && s[0] == 0x76 && s[1] == 0xa9 && s[2] == 20 && s[23] == 0x88 && s[24]
            == 0xac {
            ScriptPubkeyDescriptor::P2PKH(sub_bytes(s, 3, 23))
        } else if n == 35 && s[0] == 33 && s[34] == 0xac {
            ScriptPubkeyDescriptor::P2PK(sub_bytes(s, 1, 34))
        } else if n == 67 && s[0] == 65 && s[66] == 0xac {
            ScriptPubkeyDescriptor::P2PK(sub_bytes(s, 1, 66))
        } else if n >= 1 && s[0] == 0x6a {
            ScriptPubkeyDescriptor::P2OR(clone_bytes(s))
        } else if n == 22 && s[0] == 0 && s[1] == 20 {
            ScriptPubkeyDescriptor::P2WPKH(sub_bytes(s, 2, 22))
        } else if n == 34 && s[0] == 0 && s[1] == 32 {
            ScriptPubkeyDescriptor::P2WSH(sub_bytes(s, 2, 34))
        } else if n == 34 && s[0] == 0x51 && s[1] == 32 {
            ScriptPubkeyDescriptor::P2TR(sub_bytes(s, 2, 34))
        } else {
            ScriptPubkeyDescriptor::P2S(clone_bytes(s))
        }
    }
}

/// Compares two output scripts byte for byte.
pub fn scripts_equal(a: &PubkeyScript, b: &PubkeyScript) -> (r: bool)
    ensures
        r <==> a@ == b@,
{
    bytes_eq(&a.bytes, &b.bytes)
}

// -- Classification inverts rendering, shape by shape.

/// A rendered pay-to-script-hash output classifies as P2SH with its hash.
pub proof fn lemma_classify_p2sh(sh: Seq<u8>)
    requires
        sh.len() == 20,
    ensures
        classify(p2sh_script(sh)) == ScriptClass::P2SH(sh),
{
    let s = p2sh_script(sh);
    assert(is_p2sh(s));
    assert(s.subrange(2, 22) =~= sh);
}

/// A rendered pay-to-pubkey-hash output classifies as P2PKH with its hash.
pub proof fn lemma_classify_p2pkh(kh: Seq<u8>)
    requires
        kh.len() == 20,
    ensures
        classify(p2pkh_script(kh)) == ScriptClass::P2PKH(kh),
{
    let s = p2pkh_script(kh);
    assert(!is_p2sh(s));
    assert(is_p2pkh(s));
    assert(s.subrange(3, 23) =~= kh);
}

/// A rendered bare pay-to-pubkey output classifies as P2PK with its key.
pub proof fn lemma_classify_p2pk(pk: Seq<u8>)
    requires
        pk.len() == 33,
    ensures
        classify(p2pk_script(pk)) == ScriptClass::P2PK(pk),
{
    let s = p2pk_script(pk);
    assert(s[0] == 33);
    assert(!is_p2sh(s));
    assert(!is_p2pkh(s));
    assert(is_p2pk(s));
    assert(s.subrange(1, 34) =~= pk);
}

/// A rendered null-data output classifies as P2OR carrying the whole script.
pub proof fn lemma_classify_op_return(data: Seq<u8>)
    requires
        data.len() <= 75,
    ensures
        classify(op_return_script(data)) == ScriptClass::P2OR(op_return_script(data)),
{
    let s = op_return_script(data);
    assert(s[0] == 0x6a);
    assert(!is_p2sh(s));
    assert(!is_p2pkh(s));
    assert(!is_p2pk(s));
    assert(is_op_return(s));
}

/// A rendered witness-pubkey-hash output classifies as P2WPKH with its hash.
pub proof fn lemma_classify_p2wpkh(kh: Seq<u8>)
    requires
        kh.len() == 20,
    ensures
        classify(p2wpkh_script(kh)) == ScriptClass::P2WPKH(kh),
{
    let s = p2wpkh_script(kh);
    assert(s[0] == 0);
    assert(!is_p2sh(s));
    assert(!is_p2pkh(s));
    assert(!is_p2pk(s));
    assert(!is_op_return(s));
    assert(is_p2wpkh(s));
    assert(s.subrange(2, 22) =~= kh);
}

/// A rendered witness-script-hash output classifies as P2WSH with its hash.
pub proof fn lemma_classify_p2wsh(sh: Seq<u8>)
    requires
        sh.len() == 32,
    ensures
        classify(p2wsh_script(sh)) == ScriptClass::P2WSH(sh),
{
    let s = p2wsh_script(sh);
    assert(s[0] == 0);
    assert(!is_p2sh(s));
    assert(!is_p2pkh(s));
    assert(!is_p2pk(s));
    assert(!is_op_return(s));
    assert(!is_p2wpkh(s));
    assert(is_p2wsh(s));
    assert(s.subrange(2, 34) =~= sh);
}

/// A rendered taproot output classifies as P2TR with its output key.
pub proof fn lemma_classify_p2tr(key: Seq<u8>)
    requires
        key.len() == 32,
    ensures
        classify(p2tr_script(key)) == ScriptClass::P2TR(key),
{
    let s = p2tr_script(key);
    assert(s[0] == 0x51);
    assert(!is_p2sh(s));
    assert(!is_p2pkh(s));
    assert(!is_p2pk(s));
    assert(!is_op_return(s));
    assert(!is_p2wpkh(s));
    assert(!is_p2wsh(s));
    assert(is_p2tr(s));
    assert(s.subrange(2, 34) =~= key);
}

} // verus!
