use bitcoin::secp256k1::{Keypair, Secp256k1};
use bitcoin::sighash::{Prevouts, SighashCache};
use bitcoin::taproot::{LeafVersion, TapLeafHash};
use peg_in_confirm::balance::{remaining_amount, sum_amounts};
use peg_in_confirm::connector::{commitment_connector, committee_script, COMMITMENT_CONFIRM_LEAF};
use peg_in_confirm::context::{BridgeContext, BridgeError, ContextKey, Network, Role};
use peg_in_confirm::peg_in_confirm::{PegInConfirmTransaction, FEE_AMOUNT};
use peg_in_confirm::script::{double_sig_leaf, p2tr, pay_to_pubkey, single_sig_leaf};
use peg_in_confirm::skeleton::SIGHASH_ALL;
use peg_in_confirm::tx::{Input, OutPoint, TxOutput};

const DEPOSITOR_SECRET: [u8; 32] = [0x11; 32];
const N_OF_N_SECRET: [u8; 32] = [0x22; 32];
const EVM_ADDRESS: &str = "0x0000000000000000000000000000000000000001";

fn x_only(secret: &[u8; 32]) -> Vec<u8> {
    let secp = Secp256k1::new();
    let kp = Keypair::from_seckey_slice(&secp, secret).unwrap();
    kp.x_only_public_key().0.serialize().to_vec()
}

fn compressed(secret: &[u8; 32]) -> Vec<u8> {
    let secp = Secp256k1::new();
    let kp = Keypair::from_seckey_slice(&secp, secret).unwrap();
    kp.public_key().serialize().to_vec()
}

fn full_context() -> BridgeContext {
    BridgeContext {
        network: Network::Regtest,
        n_of_n_public_key: Some(compressed(&N_OF_N_SECRET)),
        n_of_n_taproot_public_key: Some(x_only(&N_OF_N_SECRET)),
        depositor_taproot_public_key: Some(x_only(&DEPOSITOR_SECRET)),
        n_of_n_keypair: Some(N_OF_N_SECRET.to_vec()),
        depositor_keypair: Some(DEPOSITOR_SECRET.to_vec()),
    }
}

fn funding(amount: u64) -> Input {
    Input { outpoint: OutPoint { txid: [0xab; 32], vout: 3 }, amount }
}

fn build(amount: u64) -> PegInConfirmTransaction {
    PegInConfirmTransaction::new(&full_context(), funding(amount), EVM_ADDRESS.to_string()).unwrap()
}

#[test]
fn deposit_of_100000_is_signed_and_finalized() {
    let context = full_context();
    let mut t = build(100_000);
    assert_eq!(t.tx().input.len(), 1);
    assert_eq!(t.tx().output.len(), 1);
    assert_eq!(t.tx().output[0].value, 99_000);
    assert_eq!(t.tx().version, 2);
    assert_eq!(t.tx().lock_time, 0);
    assert_eq!(t.tx().input[0].previous_output, OutPoint { txid: [0xab; 32], vout: 3 });
    assert_eq!(t.tx().input[0].sequence, 0xffff_ffff);
    assert_eq!(t.tx().output[0].script_pubkey, committee_script(&compressed(&N_OF_N_SECRET)));

    t.pre_sign(&context).unwrap();
    let f = t.finalize(&context).unwrap();
    assert_eq!(f.tx.input.len(), 1);
    assert_eq!(f.tx.output.len(), 1);
    assert_eq!(f.tx.output[0].value, 99_000);
    assert_eq!(f.witnesses.len(), 1);
    let items = &f.witnesses[0].items;
    assert_eq!(items.len(), 4);
    assert_eq!(items[0].len(), 65);
    assert_eq!(items[1].len(), 65);
    assert_eq!(items[0][64], SIGHASH_ALL);
    assert_eq!(items[1][64], SIGHASH_ALL);
    assert_ne!(items[0], items[1]);
    assert_eq!(items[2], t.prev_scripts()[0]);
    // a control block for a leaf at depth one: header, internal key, one hash
    assert_eq!(items[3].len(), 1 + 32 + 32);
    assert_eq!(&items[3][1..33], &x_only(&N_OF_N_SECRET)[..]);
}

#[test]
fn signatures_stand_in_the_order_the_leaf_expects() {
    let context = full_context();
    let mut t = build(100_000);
    t.pre_sign(&context).unwrap();
    let f = t.finalize(&context).unwrap();

    let mut only_depositor = build(100_000);
    let dep = only_depositor.skeleton.input_signature(0, &DEPOSITOR_SECRET.to_vec()).unwrap();
    let com = only_depositor.skeleton.input_signature(0, &N_OF_N_SECRET.to_vec()).unwrap();
    only_depositor.skeleton.sign_input(0, Role::Depositor, &DEPOSITOR_SECRET.to_vec()).unwrap();
    assert_eq!(f.witnesses[0].items[0], dep);
    assert_eq!(f.witnesses[0].items[1], com);
    // the leaf checks the committee key first, so its signature is on top
    assert_eq!(
        t.prev_scripts()[0],
        double_sig_leaf(EVM_ADDRESS.as_bytes(), &x_only(&N_OF_N_SECRET), &x_only(&DEPOSITOR_SECRET))
    );
}

#[test]
fn signatures_verify_against_the_sighash() {
    let context = full_context();
    let mut t = build(100_000);
    t.pre_sign(&context).unwrap();
    let f = t.finalize(&context).unwrap();
    let u = t.tx();
    let body = bitcoin::Transaction {
        version: bitcoin::transaction::Version(u.version),
        lock_time: bitcoin::absolute::LockTime::from_consensus(u.lock_time),
        input: vec![bitcoin::TxIn {
            previous_output: bitcoin::OutPoint::new(
                <bitcoin::Txid as bitcoin::hashes::Hash>::from_byte_array(u.input[0].previous_output.txid),
                u.input[0].previous_output.vout,
            ),
            sequence: bitcoin::Sequence(u.input[0].sequence),
            ..Default::default()
        }],
        output: vec![bitcoin::TxOut {
            value: bitcoin::Amount::from_sat(u.output[0].value),
            script_pubkey: bitcoin::ScriptBuf::from_bytes(u.output[0].script_pubkey.clone()),
        }],
    };
    let prev = vec![bitcoin::TxOut {
        value: bitcoin::Amount::from_sat(t.prev_outs()[0].value),
        script_pubkey: bitcoin::ScriptBuf::from_bytes(t.prev_outs()[0].script_pubkey.clone()),
    }];
    let leaf = TapLeafHash::from_script(
        bitcoin::Script::from_bytes(&t.prev_scripts()[0]),
        LeafVersion::TapScript,
    );
    let hash = SighashCache::new(&body)
        .taproot_script_spend_signature_hash(0, &Prevouts::All(&prev), leaf, bitcoin::TapSighashType::All)
        .unwrap();
    let msg = bitcoin::secp256k1::Message::from_digest(bitcoin::hashes::Hash::to_byte_array(hash));
    let secp = Secp256k1::new();
    for (k, secret) in [DEPOSITOR_SECRET, N_OF_N_SECRET].iter().enumerate() {
        let sig = bitcoin::secp256k1::schnorr::Signature::from_slice(&f.witnesses[0].items[k][..64]).unwrap();
        let key = bitcoin::secp256k1::XOnlyPublicKey::from_slice(&x_only(secret)).unwrap();
        assert!(secp.verify_schnorr(&sig, &msg, &key).is_ok());
    }
}

#[test]
fn outputs_and_fee_balance_the_input() {
    let t = build(123_456);
    let out: u64 = t.tx().output.iter().map(|o| o.value).sum();
    let spent: u64 = t.prev_outs().iter().map(|o| o.value).sum();
    assert_eq!(out + FEE_AMOUNT, spent);
    assert_eq!(spent, 123_456);
}

#[test]
fn amount_equal_to_fee_is_rejected() {
    let r = PegInConfirmTransaction::new(&full_context(), funding(FEE_AMOUNT), EVM_ADDRESS.to_string());
    assert_eq!(r.err(), Some(BridgeError::ZeroValueOutput));
}

#[test]
fn amount_below_fee_is_rejected() {
    let r = PegInConfirmTransaction::new(&full_context(), funding(FEE_AMOUNT - 1), EVM_ADDRESS.to_string());
    assert_eq!(r.err(), Some(BridgeError::InsufficientFunds));
    let r = PegInConfirmTransaction::new(&full_context(), funding(0), EVM_ADDRESS.to_string());
    assert_eq!(r.err(), Some(BridgeError::InsufficientFunds));
}

#[test]
fn smallest_nonzero_output_is_accepted() {
    let t = build(FEE_AMOUNT + 1);
    assert_eq!(t.tx().output[0].value, 1);
}

#[test]
fn missing_public_keys_are_reported_in_order() {
    let mut c = full_context();
    c.n_of_n_public_key = None;
    c.depositor_taproot_public_key = None;
    let r = PegInConfirmTransaction::new(&c, funding(100_000), EVM_ADDRESS.to_string());
    assert_eq!(r.err(), Some(BridgeError::MissingKey(ContextKey::NOfNPublicKey)));

    let mut c = full_context();
    c.n_of_n_taproot_public_key = None;
    let r = PegInConfirmTransaction::new(&c, funding(100_000), EVM_ADDRESS.to_string());
    assert_eq!(r.err(), Some(BridgeError::MissingKey(ContextKey::NOfNTaprootPublicKey)));

    let mut c = full_context();
    c.depositor_taproot_public_key = None;
    let r = PegInConfirmTransaction::new(&c, funding(100_000), EVM_ADDRESS.to_string());
    assert_eq!(r.err(), Some(BridgeError::MissingKey(ContextKey::DepositorTaprootPublicKey)));
}

#[test]
fn malformed_key_and_long_commitment_are_rejected() {
    let mut c = full_context();
    c.n_of_n_taproot_public_key = Some(vec![2u8; 33]);
    let r = PegInConfirmTransaction::new(&c, funding(100_000), EVM_ADDRESS.to_string());
    assert_eq!(r.err(), Some(BridgeError::InvalidKey(ContextKey::NOfNTaprootPublicKey)));

    let long = "a".repeat(256);
    let r = PegInConfirmTransaction::new(&full_context(), funding(100_000), long);
    assert_eq!(r.err(), Some(BridgeError::InvalidCommitment));
}

#[test]
fn internal_key_off_the_curve_gives_no_spend_info() {
    let mut c = full_context();
    // the x coordinate 0 is not on secp256k1
    c.n_of_n_taproot_public_key = Some(vec![0u8; 32]);
    let r = PegInConfirmTransaction::new(&c, funding(100_000), EVM_ADDRESS.to_string());
    assert_eq!(r.err(), Some(BridgeError::InvalidSpendInfo));
}

#[test]
fn pre_sign_without_a_secret_fails_and_changes_nothing() {
    let t0 = build(100_000);
    let mut c = full_context();
    c.n_of_n_keypair = None;
    let mut t = t0.clone();
    assert_eq!(t.pre_sign(&c), Err(BridgeError::MissingKey(ContextKey::NOfNKeypair)));
    assert_eq!(t, t0);

    let mut c = full_context();
    c.depositor_keypair = None;
    assert_eq!(t.pre_sign(&c), Err(BridgeError::MissingKey(ContextKey::DepositorKeypair)));
    assert_eq!(t, t0);

    let mut c = full_context();
    c.depositor_keypair = Some(vec![0u8; 32]);
    assert_eq!(t.pre_sign(&c), Err(BridgeError::SigningFailed));
    assert_eq!(t, t0);
}

#[test]
fn finalize_refuses_missing_signatures() {
    let context = full_context();
    let mut t = build(100_000);
    assert_eq!(t.finalize(&context).err(), Some(BridgeError::Incomplete));
    t.skeleton.sign_input(0, Role::Depositor, &DEPOSITOR_SECRET.to_vec()).unwrap();
    assert!(!t.skeleton.is_complete());
    assert_eq!(t.finalize(&context).err(), Some(BridgeError::Incomplete));
    t.skeleton.sign_input(0, Role::NOfN, &N_OF_N_SECRET.to_vec()).unwrap();
    assert!(t.skeleton.is_complete());
    assert!(t.finalize(&context).is_ok());
}

#[test]
fn signing_order_does_not_matter() {
    let context = full_context();
    let mut ab = build(100_000);
    ab.skeleton.sign_input(0, Role::Depositor, &DEPOSITOR_SECRET.to_vec()).unwrap();
    ab.skeleton.sign_input(0, Role::NOfN, &N_OF_N_SECRET.to_vec()).unwrap();
    let mut ba = build(100_000);
    ba.skeleton.sign_input(0, Role::NOfN, &N_OF_N_SECRET.to_vec()).unwrap();
    ba.skeleton.sign_input(0, Role::Depositor, &DEPOSITOR_SECRET.to_vec()).unwrap();
    assert_eq!(ab, ba);
    let mut both = build(100_000);
    both.pre_sign(&context).unwrap();
    assert_eq!(ab, both);
    assert_eq!(ab.finalize(&context).unwrap(), ba.finalize(&context).unwrap());
}

#[test]
fn sign_input_out_of_range_is_reported() {
    let mut t = build(100_000);
    let t0 = t.clone();
    assert_eq!(
        t.skeleton.sign_input(1, Role::Depositor, &DEPOSITOR_SECRET.to_vec()),
        Err(BridgeError::InputIndexOutOfRange)
    );
    assert_eq!(t, t0);
}

#[test]
fn construction_is_deterministic() {
    let a = build(100_000);
    let b = build(100_000);
    assert_eq!(a, b);
    let context = full_context();
    let mut a = a;
    let mut b = b;
    a.pre_sign(&context).unwrap();
    b.pre_sign(&context).unwrap();
    assert_eq!(a.finalize(&context).unwrap(), b.finalize(&context).unwrap());
    // finalizing twice gives the same transaction
    assert_eq!(a.finalize(&context).unwrap(), a.finalize(&context).unwrap());
}

#[test]
fn sighash_signature_is_stable() {
    let t = build(100_000);
    let s1 = t.skeleton.input_signature(0, &DEPOSITOR_SECRET.to_vec()).unwrap();
    let s2 = t.skeleton.input_signature(0, &DEPOSITOR_SECRET.to_vec()).unwrap();
    assert_eq!(s1, s2);
    let mut signed = t.clone();
    signed.skeleton.sign_input(0, Role::NOfN, &N_OF_N_SECRET.to_vec()).unwrap();
    assert_eq!(signed.skeleton.input_signature(0, &DEPOSITOR_SECRET.to_vec()).unwrap(), s1);
    assert_eq!(
        t.skeleton.input_signature(0, &vec![1u8; 31]),
        Err(BridgeError::SigningFailed)
    );
}

#[test]
fn connector_leaves_and_scripts() {
    let dep = x_only(&DEPOSITOR_SECRET);
    let com = x_only(&N_OF_N_SECRET);
    let c = commitment_connector(EVM_ADDRESS.as_bytes(), &dep, &com);
    assert_eq!(c.leaf_script(0).unwrap(), single_sig_leaf(EVM_ADDRESS.as_bytes(), &dep));
    assert_eq!(c.leaf_script(COMMITMENT_CONFIRM_LEAF).unwrap(), double_sig_leaf(EVM_ADDRESS.as_bytes(), &com, &dep));
    assert_eq!(c.leaf_script(2), Err(BridgeError::LeafIndexOutOfRange));
    assert_eq!(c.control_block(2), Err(BridgeError::LeafIndexOutOfRange));
    assert_eq!(c.build_input(2, &funding(5)), Err(BridgeError::LeafIndexOutOfRange));
    let lock = c.locking_script().unwrap();
    assert_eq!(lock.len(), 34);
    assert_eq!(&lock[..2], &[0x51, 0x20]);
    // the output key is tweaked: it differs from the internal key
    assert_ne!(&lock[2..], &com[..]);
    assert_eq!(lock, c.clone().locking_script().unwrap());
    assert_eq!(c.control_block(0).unwrap().len(), 65);
    assert_ne!(c.control_block(0).unwrap(), c.control_block(1).unwrap());
}

#[test]
fn script_templates_are_exact() {
    let key = [7u8; 32];
    let mut expected = vec![3u8, 1, 2, 3, 0x75, 32];
    expected.extend_from_slice(&key);
    expected.push(0xac);
    assert_eq!(single_sig_leaf(&[1, 2, 3], &key), expected);

    let long = [9u8; 80];
    let leaf = single_sig_leaf(&long, &key);
    assert_eq!(&leaf[..2], &[0x4c, 80]);
    assert_eq!(leaf.len(), 2 + 80 + 1 + 1 + 32 + 1);

    let mut expected = vec![0x51u8, 32];
    expected.extend_from_slice(&key);
    assert_eq!(p2tr(&key), expected);
    assert_eq!(pay_to_pubkey(&[5u8; 33])[0], 33);
    assert_eq!(pay_to_pubkey(&[5u8; 33])[34], 0xac);
}

#[test]
fn committee_script_is_a_script_hash() {
    let pk = compressed(&N_OF_N_SECRET);
    let s = committee_script(&pk);
    assert_eq!(s.len(), 34);
    assert_eq!(&s[..2], &[0x00, 0x20]);
    let witness_script = bitcoin::ScriptBuf::from_bytes(pay_to_pubkey(&pk));
    assert_eq!(s, bitcoin::ScriptBuf::new_p2wsh(&witness_script.wscript_hash()).to_bytes());
}


#[test]
fn separately_signed_copies_merge_into_the_fully_signed_one() {
    let context = full_context();
    let mut by_depositor = build(100_000);
    by_depositor.skeleton.sign_input(0, Role::Depositor, &DEPOSITOR_SECRET.to_vec()).unwrap();
    let mut by_committee = build(100_000);
    by_committee.skeleton.sign_input(0, Role::NOfN, &N_OF_N_SECRET.to_vec()).unwrap();

    let mut ab = by_depositor.clone();
    ab.skeleton.merge(&by_committee.skeleton).unwrap();
    let mut ba = by_committee.clone();
    ba.skeleton.merge(&by_depositor.skeleton).unwrap();
    assert_eq!(ab, ba);

    let mut both = build(100_000);
    both.pre_sign(&context).unwrap();
    assert_eq!(ab, both);
    assert!(ab.skeleton.is_complete());
}

#[test]
fn merge_refuses_another_transaction() {
    let mut a = build(100_000);
    let b = build(100_001);
    let a0 = a.clone();
    assert_eq!(a.skeleton.merge(&b.skeleton), Err(BridgeError::Mismatch));
    assert_eq!(a, a0);
}

#[test]
fn wire_bytes_decode_to_the_same_transaction() {
    let context = full_context();
    let mut t = build(100_000);
    t.pre_sign(&context).unwrap();
    let f = t.finalize(&context).unwrap();
    let bytes = f.to_wire_bytes();
    // version 2, then the segwit marker and flag
    assert_eq!(&bytes[..6], &[2, 0, 0, 0, 0, 1]);
    let decoded: bitcoin::Transaction = bitcoin::consensus::deserialize(&bytes).unwrap();
    assert_eq!(decoded.input.len(), 1);
    assert_eq!(decoded.output.len(), 1);
    assert_eq!(decoded.output[0].value.to_sat(), 99_000);
    assert_eq!(decoded.input[0].witness.len(), 4);
    assert_eq!(decoded.input[0].witness.nth(0).unwrap(), &f.witnesses[0].items[0][..]);
    assert_eq!(decoded.input[0].previous_output.vout, 3);
}

fn out(value: u64) -> TxOutput {
    TxOutput { value, script_pubkey: vec![0x51] }
}

#[test]
fn remaining_amount_after_fee_and_outputs() {
    assert_eq!(remaining_amount(&vec![100_000], 1_000, &vec![]), Ok(99_000));
    assert_eq!(remaining_amount(&vec![60_000, 40_000], 1_000, &vec![out(9_000)]), Ok(90_000));
    assert_eq!(remaining_amount(&vec![1_000], 1_000, &vec![]), Err(BridgeError::ZeroValueOutput));
    assert_eq!(remaining_amount(&vec![10_000], 1_000, &vec![out(9_000)]), Err(BridgeError::ZeroValueOutput));
    assert_eq!(remaining_amount(&vec![10_000], 1_000, &vec![out(9_001)]), Err(BridgeError::InsufficientFunds));
    assert_eq!(remaining_amount(&vec![], 1, &vec![]), Err(BridgeError::InsufficientFunds));
    assert_eq!(remaining_amount(&vec![u64::MAX, u64::MAX], 0, &vec![]), Err(BridgeError::AmountOverflow));
    assert_eq!(remaining_amount(&vec![u64::MAX, 5], 5, &vec![]), Ok(u64::MAX));
    assert_eq!(
        remaining_amount(&vec![u64::MAX], u64::MAX, &vec![out(u64::MAX)]),
        Err(BridgeError::InsufficientFunds)
    );
}

#[test]
fn sums_do_not_wrap() {
    assert_eq!(sum_amounts(&vec![u64::MAX, u64::MAX, 2]), 2 * (u64::MAX as u128) + 2);
    assert_eq!(sum_amounts(&vec![]), 0);
}
