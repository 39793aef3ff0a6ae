//! Deterministic bitcoin commitments (DBC) over output scripts, together with
//! the bech32 string layer used to display and transport commitment data.
//!
//! The core of the crate is the [`scriptpubkey::ScriptPubkeyContainer`]
//! abstraction: a message is embedded into a public key, a lock script or a
//! taproot tree by an additive pay-to-contract tweak, and the resulting
//! output script is byte-for-byte a valid instance of its claimed shape.

pub mod bytes;
pub mod keys;
pub mod script;
pub mod hashes;
pub mod container;
pub mod lnpbp1;
pub mod lockscript;
pub mod taproot;
pub mod scriptpubkey;
pub mod laws;
pub mod bech32;
