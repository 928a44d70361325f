//! The calls into the `bitcoin` crate: hashing, taproot tree construction,
//! consensus encoding, signature hashes and Schnorr signing. Each result is named by a spec
//! function of the arguments, since the computation it stands for is the
//! crate's, not this library's.
use bitcoin::absolute::LockTime;
use bitcoin::hashes::Hash as _;
use bitcoin::secp256k1::{Keypair, Message, Secp256k1, XOnlyPublicKey};
use bitcoin::sighash::{Prevouts, SighashCache};
use bitcoin::taproot::{LeafVersion, TapLeafHash, TaprootSpendInfo};
use bitcoin::transaction::Version;
use bitcoin::{Amount, Script, ScriptBuf, Sequence, TapSighashType, Transaction, TxIn, TxOut, Txid};
use vstd::prelude::*;

use crate::skeleton::Witness;
use crate::tx::{inputs_view, outputs_view, scripts_view, TxInput, TxInputView, TxOutput, TxOutputView, UnsignedTx};

verus! {

/// SHA-256 of a byte string.
pub uninterp spec fn sha256_of(data: Seq<u8>) -> Seq<u8>;

/// The tweaked output key of the taproot tree that `TaprootSpendInfo::with_huffman_tree`
/// builds over `leaves`, all of equal weight, under `internal_key`.
pub uninterp spec fn tap_output_key_of(internal_key: Seq<u8>, leaves: Seq<Seq<u8>>) -> Option<Seq<u8>>;

/// The serialized control block of leaf `index` in that same tree.
pub uninterp spec fn tap_control_block_of(
    internal_key: Seq<u8>,
    leaves: Seq<Seq<u8>>,
    index: nat,
) -> Option<Seq<u8>>;

/// The taproot script-path signature hash, `SIGHASH_ALL`, of input `index`
/// spending `leaf`, of the transaction encoded in `wire`, over the outputs it
/// spends.
pub uninterp spec fn tap_sighash_of(
    wire: Seq<u8>,
    prev_outs: Seq<TxOutputView>,
    index: nat,
    leaf: Seq<u8>,
) -> Option<Seq<u8>>;

/// The consensus wire encoding of a transaction with a witness per input.
pub uninterp spec fn wire_bytes_of(
    version: i32,
    lock_time: u32,
    inputs: Seq<TxInputView>,
    outputs: Seq<TxOutputView>,
    witnesses: Seq<Seq<Seq<u8>>>,
) -> Seq<u8>;

/// The BIP-340 Schnorr signature, without auxiliary randomness, of a
/// 32-byte digest under a secret key.
pub uninterp spec fn schnorr_sig_of(secret: Seq<u8>, digest: Seq<u8>) -> Option<Seq<u8>>;

/// Relies on `bitcoin::hashes::sha256::Hash::hash`: a 32-byte digest that
/// depends on the data alone.
#[verifier::external_body]
pub(crate) fn sha256(data: &[u8]) -> (r: [u8; 32])
    ensures
        r@ == sha256_of(data@),
        r@.len() == 32,
{
    bitcoin::hashes::sha256::Hash::hash(data).to_byte_array()
}

/// Relies on `XOnlyPublicKey::from_slice` and `TaprootSpendInfo::with_huffman_tree`
/// with weight 1 for each leaf: the output key, 32 bytes, of the tree.
#[verifier::external_body]
pub(crate) fn tap_output_key(internal_key: &Vec<u8>, leaves: &Vec<Vec<u8>>) -> (r: Option<[u8; 32]>)
    ensures
        match r {
            Some(k) => tap_output_key_of(internal_key@, scripts_view(leaves@)) == Some(k@)
                && k@.len() == 32,
            None => tap_output_key_of(internal_key@, scripts_view(leaves@)).is_none(),
        },
{
    let key = XOnlyPublicKey::from_slice(internal_key).ok()?;
    let weighted = leaves.iter().map(|l| (1u32, ScriptBuf::from_bytes(l.clone())));
    let secp = Secp256k1::verification_only();
    let info = TaprootSpendInfo::with_huffman_tree(&secp, key, weighted).ok()?;
    Some(info.output_key().to_inner().serialize())
}

/// Relies on `TaprootSpendInfo::with_huffman_tree`, as `tap_output_key` does,
/// and on `TaprootSpendInfo::control_block` for leaf `index` as a tapscript.
#[verifier::external_body]
pub(crate) fn tap_control_block(internal_key: &Vec<u8>, leaves: &Vec<Vec<u8>>, index: usize) -> (r:
    Option<Vec<u8>>)
    ensures
        match r {
            Some(c) => tap_control_block_of(internal_key@, scripts_view(leaves@), index as nat)
                == Some(c@),
            None => tap_control_block_of(internal_key@, scripts_view(leaves@), index as nat).is_none(),
        },
{
    let key = XOnlyPublicKey::from_slice(internal_key).ok()?;
    let weighted = leaves.iter().map(|l| (1u32, ScriptBuf::from_bytes(l.clone())));
    let secp = Secp256k1::verification_only();
    let info = TaprootSpendInfo::with_huffman_tree(&secp, key, weighted).ok()?;
    let leaf = (ScriptBuf::from_bytes(leaves.get(index)?.clone()), LeafVersion::TapScript);
    Some(info.control_block(&leaf)?.serialize())
}

/// Relies on `bitcoin::consensus::deserialize` of a `Transaction` and on
/// `SighashCache::taproot_script_spend_signature_hash` with `Prevouts::All`
/// and `TapSighashType::All`: a 32-byte hash.
#[verifier::external_body]
pub(crate) fn tap_sighash(wire: &Vec<u8>, prev_outs: &Vec<TxOutput>, index: usize, leaf: &Vec<u8>) -> (r:
    Option<[u8; 32]>)
    ensures
        match r {
            Some(h) => h@.len() == 32 && tap_sighash_of(wire@, outputs_view(prev_outs@), index as nat, leaf@)
                == Some(h@),
            None => tap_sighash_of(wire@, outputs_view(prev_outs@), index as nat, leaf@).is_none(),
        },
{
    let body: Transaction = bitcoin::consensus::deserialize(wire).ok()?;
    let out = |o: &TxOutput| TxOut { value: Amount::from_sat(o.value), script_pubkey: ScriptBuf::from_bytes(o.script_pubkey.clone()) };
    let prev: Vec<TxOut> = prev_outs.iter().map(out).collect();
    let leaf_hash = TapLeafHash::from_script(Script::from_bytes(leaf), LeafVersion::TapScript);
    let hash = SighashCache::new(&body).taproot_script_spend_signature_hash(index, &Prevouts::All(&prev), leaf_hash, TapSighashType::All);
    hash.ok().map(|h| h.to_byte_array())
}

/// Relies on `bitcoin::consensus::serialize` of a `Transaction` and on
/// `Witness::from_slice`: the wire encoding, which depends on the body and
/// the witnesses alone.
#[verifier::external_body]
pub(crate) fn consensus_encode(tx: &UnsignedTx, witnesses: &Vec<Witness>) -> (r: Vec<u8>)
    requires
        witnesses@.len() == tx.input@.len(),
    ensures
        r@ == wire_bytes_of(tx.version, tx.lock_time, inputs_view(tx.input@), outputs_view(tx.output@),
            witnesses@.map_values(|w: Witness| w@)),
{
    let out = |o: &TxOutput| TxOut { value: Amount::from_sat(o.value), script_pubkey: ScriptBuf::from_bytes(o.script_pubkey.clone()) };
    let txin = |(i, w): (&TxInput, &Witness)| TxIn { previous_output: bitcoin::OutPoint::new(Txid::from_byte_array(i.previous_output.txid), i.previous_output.vout), sequence: Sequence(i.sequence), witness: bitcoin::Witness::from_slice(&w.items), ..TxIn::default() };
    let input = tx.input.iter().zip(witnesses).map(txin).collect();
    let body = Transaction { version: Version(tx.version), lock_time: LockTime::from_consensus(tx.lock_time), input, output: tx.output.iter().map(out).collect() };
    bitcoin::consensus::serialize(&body)
}

/// Relies on `Keypair::from_seckey_slice`, which refuses anything but a
/// valid 32-byte secret, and on `Secp256k1::sign_schnorr_no_aux_rand`: a
/// 64-byte signature that depends on the key and the digest alone.
#[verifier::external_body]
pub(crate) fn schnorr_sign(secret: &Vec<u8>, digest: [u8; 32]) -> (r: Option<[u8; 64]>)
    ensures
        match r {
            Some(s) => schnorr_sig_of(secret@, digest@) == Some(s@) && s@.len() == 64,
            None => schnorr_sig_of(secret@, digest@).is_none(),
        },
        secret@.len() != 32 ==> r.is_none(),
{
    let secp = Secp256k1::signing_only();
    let keypair = Keypair::from_seckey_slice(&secp, secret).ok()?;
    Some(secp.sign_schnorr_no_aux_rand(&Message::from_digest(digest), &keypair).serialize())
}

} // verus!
