//! The peg-in confirm transaction: it moves a deposit from the commitment
//! connector, through the leaf that the committee and the depositor sign
//! together, into the committee's output, less a fixed fee.
use vstd::prelude::*;
use vstd::utf8::encode_utf8;

use crate::balance::{lemma_single_input, lemma_total_value_single, remaining_amount};
use crate::btc::tap_output_key_of;
use crate::connector::{
    commitment_connector, commitment_connector_spec, committee_script, committee_script_spec,
    COMMITMENT_CONFIRM_LEAF, SEQUENCE_FINAL,
};
use crate::context::{key_view, BridgeContext, BridgeError, ContextKey, Role, KEY_LEN_32, PUBLIC_KEY_LEN};
use crate::script::{double_sig_leaf_spec, p2tr_spec, single_sig_leaf_spec, MAX_PUSH_LEN};
use crate::skeleton::{all_filled, fill_slots, slots_view, SlotView, FinalizedTransaction, SigSlot, SpendPath, TxSkeleton};
use crate::tx::{inputs_view, outputs_view, scripts_view, total_value, Input, TxInput, TxOutput, TxView, UnsignedTx};

verus! {

/// The fixed fee of the transaction, in satoshis, agreed by all signers.
pub const FEE_AMOUNT: u64 = 1_000;

pub const TX_VERSION: i32 = 2;

/// An absolute lock time of zero: no lock.
pub const LOCK_TIME_ZERO: u32 = 0;

/// Checks a key of the context: absent, of the wrong length, or usable.
pub open spec fn key_status(k: Option<Seq<u8>>, len: nat, name: ContextKey) -> Option<BridgeError> {
    match k {
        None => Some(BridgeError::MissingKey(name)),
        Some(v) => if v.len() == len {
            None
        } else {
            Some(BridgeError::InvalidKey(name))
        },
    }
}

/// Why construction fails before any script is derived, if it does: the
/// keys in order, then the commitment, then the amounts.
pub open spec fn new_error(context: BridgeContext, amount: u64, destination: Seq<u8>) -> Option<BridgeError> {
    let a = key_status(key_view(context.n_of_n_public_key), PUBLIC_KEY_LEN as nat, ContextKey::NOfNPublicKey);
    let b = key_status(
        key_view(context.n_of_n_taproot_public_key),
        KEY_LEN_32 as nat,
        ContextKey::NOfNTaprootPublicKey,
    );
    let c = key_status(
        key_view(context.depositor_taproot_public_key),
        KEY_LEN_32 as nat,
        ContextKey::DepositorTaprootPublicKey,
    );
    if a.is_some() {
        a
    } else if b.is_some() {
        b
    } else if c.is_some() {
        c
    } else if destination.len() > MAX_PUSH_LEN {
        Some(BridgeError::InvalidCommitment)
    } else if amount < FEE_AMOUNT {
        Some(BridgeError::InsufficientFunds)
    } else if amount == FEE_AMOUNT {
        Some(BridgeError::ZeroValueOutput)
    } else {
        None
    }
}

/// The leaves of the commitment connector.
pub open spec fn commitment_leaves(destination: Seq<u8>, depositor: Seq<u8>, n_of_n: Seq<u8>) -> Seq<Seq<u8>> {
    seq![
        single_sig_leaf_spec(destination, depositor),
        double_sig_leaf_spec(destination, n_of_n, depositor),
    ]
}

/// The locking script of the commitment connector, if its tree can be built.
pub open spec fn commitment_locking_spec(destination: Seq<u8>, depositor: Seq<u8>, n_of_n: Seq<u8>) -> Option<
    Seq<u8>,
> {
    match tap_output_key_of(n_of_n, commitment_leaves(destination, depositor, n_of_n)) {
        Some(k) => Some(p2tr_spec(k)),
        None => None,
    }
}

/// Looks up a public key of the context and checks its length.
fn require_key(k: &Option<Vec<u8>>, len: usize, name: ContextKey) -> (r: Result<&Vec<u8>, BridgeError>)
    ensures
        match r {
            Ok(v) => key_view(*k) == Some(v@) && v@.len() == len && key_status(key_view(*k), len as nat, name).is_none(),
            Err(e) => key_status(key_view(*k), len as nat, name) == Some(e),
        },
{
    match k {
        Some(v) => if v.len() == len {
            Ok(v)
        } else {
            Err(BridgeError::InvalidKey(name))
        },
        None => Err(BridgeError::MissingKey(name)),
    }
}

#[derive(Clone, Debug, PartialEq, Eq)]
pub struct PegInConfirmTransaction {
    pub skeleton: TxSkeleton,
}

impl PegInConfirmTransaction {
    /// One input, a well-formed skeleton, and outputs plus fee equal to what
    /// the input spends.
    pub open spec fn wf(&self) -> bool {
        &&& self.skeleton.wf()
        &&& self.skeleton.input_count() == 1
        &&& total_value(outputs_view(self.skeleton.tx.output@)) + FEE_AMOUNT == total_value(
            outputs_view(self.skeleton.prev_outs@),
        )
    }

    /// `self` is the transaction built from these keys, funding input and
    /// destination commitment.
    pub open spec fn built_from(&self, context: BridgeContext, input0: Input, destination: Seq<u8>) -> bool {
        let n_of_n = key_view(context.n_of_n_public_key).unwrap();
        let n_of_n_tap = key_view(context.n_of_n_taproot_public_key).unwrap();
        let depositor = key_view(context.depositor_taproot_public_key).unwrap();
        let sk = self.skeleton;
        &&& sk.tx@ == TxView {
            version: TX_VERSION,
            lock_time: LOCK_TIME_ZERO,
            inputs: seq![(input0.outpoint.txid@, input0.outpoint.vout, SEQUENCE_FINAL)],
            outputs: seq![((input0.amount - FEE_AMOUNT) as u64, committee_script_spec(n_of_n))],
        }
        &&& outputs_view(sk.prev_outs@) == seq![
            (input0.amount, commitment_locking_spec(destination, depositor, n_of_n_tap).unwrap()),
        ]
        &&& scripts_view(sk.prev_scripts@) == seq![double_sig_leaf_spec(destination, n_of_n_tap, depositor)]
        &&& sk.spends@.len() == 1
        &&& commitment_connector_spec(destination, depositor, n_of_n_tap, sk.spends@[0].connector)
        &&& sk.spends@[0].leaf_index == COMMITMENT_CONFIRM_LEAF
        &&& slots_view(sk.slots@) == seq![
            (0nat, Role::Depositor, None::<Seq<u8>>),
            (0nat, Role::NOfN, None::<Seq<u8>>),
        ]
    }

    /// Builds the unsigned transaction that spends `input0` through the
    /// confirm leaf of the commitment connector for `evm_address`, paying
    /// the input amount less the fee to the committee connector.
    pub fn new(context: &BridgeContext, input0: Input, evm_address: String) -> (r: Result<Self, BridgeError>)
        ensures
            ({
                let destination = encode_utf8(evm_address@);
                match r {
                    Ok(t) => new_error(*context, input0.amount, destination).is_none() && t.wf()
                        && t.built_from(*context, input0, destination),
                    Err(e) => new_error(*context, input0.amount, destination) == Some(e) || (new_error(
                        *context,
                        input0.amount,
                        destination,
                    ).is_none() && e == BridgeError::InvalidSpendInfo && commitment_locking_spec(
                        destination,
                        key_view(context.depositor_taproot_public_key).unwrap(),
                        key_view(context.n_of_n_taproot_public_key).unwrap(),
                    ).is_none()),
                }
            }),
    {
        let n_of_n = require_key(&context.n_of_n_public_key, PUBLIC_KEY_LEN, ContextKey::NOfNPublicKey)?;
        let n_of_n_tap = require_key(
            &context.n_of_n_taproot_public_key,
            KEY_LEN_32,
            ContextKey::NOfNTaprootPublicKey,
        )?;
        let depositor = require_key(
            &context.depositor_taproot_public_key,
            KEY_LEN_32,
            ContextKey::DepositorTaprootPublicKey,
        )?;
        let destination = evm_address.as_str().as_bytes();
        if destination.len() > MAX_PUSH_LEN {
            return Err(BridgeError::InvalidCommitment);
        }
        let mut input_amounts: Vec<u64> = Vec::new();
        input_amounts.push(input0.amount);
        let other_outputs: Vec<TxOutput> = Vec::new();
        proof {
            assert(input_amounts@ =~= seq![input0.amount]);
            assert(outputs_view(other_outputs@) =~= Seq::<(u64, Seq<u8>)>::empty());
            lemma_single_input(input0.amount, outputs_view(other_outputs@));
        }
        let value = remaining_amount(&input_amounts, FEE_AMOUNT, &other_outputs)?;
        let connector_z = commitment_connector(destination, depositor, n_of_n_tap);
        assert(scripts_view(connector_z.leaves@) =~= commitment_leaves(destination@, depositor@, n_of_n_tap@));
        let prev_script_pubkey = connector_z.locking_script()?;
        let input = connector_z.build_input(COMMITMENT_CONFIRM_LEAF, &input0)?;
        let leaf = connector_z.leaf_script(COMMITMENT_CONFIRM_LEAF)?;
        let output0 = TxOutput { value, script_pubkey: committee_script(n_of_n) };
        let prev_out = TxOutput { value: input0.amount, script_pubkey: prev_script_pubkey };

        let mut inputs: Vec<TxInput> = Vec::new();
        inputs.push(input);
        let mut outputs: Vec<TxOutput> = Vec::new();
        outputs.push(output0);
        let mut prev_outs: Vec<TxOutput> = Vec::new();
        prev_outs.push(prev_out);
        let mut prev_scripts: Vec<Vec<u8>> = Vec::new();
        prev_scripts.push(leaf);
        let mut spends: Vec<SpendPath> = Vec::new();
        spends.push(SpendPath { connector: connector_z, leaf_index: COMMITMENT_CONFIRM_LEAF });
        let mut slots: Vec<SigSlot> = Vec::new();
        slots.push(SigSlot { input: 0, role: Role::Depositor, signature: None });
        slots.push(SigSlot { input: 0, role: Role::NOfN, signature: None });

        let t = PegInConfirmTransaction {
            skeleton: TxSkeleton {
                tx: UnsignedTx { version: TX_VERSION, lock_time: LOCK_TIME_ZERO, input: inputs, output: outputs },
                prev_outs,
                prev_scripts,
                spends,
                slots,
            },
        };
        proof {
            let sk = t.skeleton;
            assert(outputs_view(sk.tx.output@) =~= seq![(sk.tx.output@[0].value, sk.tx.output@[0].script_pubkey@)]);
            assert(outputs_view(sk.prev_outs@) =~= seq![(input0.amount, sk.prev_outs@[0].script_pubkey@)]);
            lemma_total_value_single(outputs_view(sk.tx.output@));
            lemma_total_value_single(outputs_view(sk.prev_outs@));
            assert(inputs_view(sk.tx.input@) =~= seq![(input0.outpoint.txid@, input0.outpoint.vout, SEQUENCE_FINAL)]);
            assert(scripts_view(sk.prev_scripts@) =~= seq![double_sig_leaf_spec(destination@, n_of_n_tap@, depositor@)]);
            assert(slots_view(sk.slots@) =~= seq![
                (0nat, Role::Depositor, None::<Seq<u8>>),
                (0nat, Role::NOfN, None::<Seq<u8>>),
            ]);
        }
        Ok(t)
    }
    /// Why pre-signing fails, if it does: the committee secret, then the
    /// depositor secret, must be in the context, and both must sign.
    pub open spec fn pre_sign_error(&self, context: BridgeContext) -> Option<BridgeError> {
        if context.secret_for(Role::NOfN).is_none() {
            Some(BridgeError::MissingKey(ContextKey::NOfNKeypair))
        } else if context.secret_for(Role::Depositor).is_none() {
            Some(BridgeError::MissingKey(ContextKey::DepositorKeypair))
        } else if self.skeleton.signature_spec(0, context.secret_for(Role::Depositor).unwrap()).is_none()
            || self.skeleton.signature_spec(0, context.secret_for(Role::NOfN).unwrap()).is_none() {
            Some(BridgeError::SigningFailed)
        } else {
            None
        }
    }

    /// Signs the single input for the depositor and for the committee with
    /// the secrets of the context. Both signatures are made before any slot
    /// is filled, so on failure nothing changes.
    pub fn pre_sign(&mut self, context: &BridgeContext) -> (r: Result<(), BridgeError>)
        requires
            old(self).wf(),
        ensures
            final(self).wf(),
            match r {
                Ok(()) => {
                    let dep = old(self).skeleton.signature_spec(0, context.secret_for(Role::Depositor).unwrap());
                    let com = old(self).skeleton.signature_spec(0, context.secret_for(Role::NOfN).unwrap());
                    &&& old(self).pre_sign_error(*context).is_none()
                    &&& final(self).skeleton.same_body(&old(self).skeleton)
                    &&& slots_view(final(self).skeleton.slots@) == fill_slots(
                        fill_slots(slots_view(old(self).skeleton.slots@), 0, Role::Depositor, dep.unwrap()),
                        0,
                        Role::NOfN,
                        com.unwrap(),
                    )
                },
                Err(e) => *final(self) == *old(self) && old(self).pre_sign_error(*context) == Some(e),
            },
    {
        let n_of_n_secret = context.keypair(Role::NOfN)?;
        let depositor_secret = context.keypair(Role::Depositor)?;
        let depositor_sig = self.skeleton.input_signature(0, depositor_secret)?;
        let n_of_n_sig = self.skeleton.input_signature(0, n_of_n_secret)?;
        self.skeleton.put_signature(0, Role::Depositor, &depositor_sig);
        self.skeleton.put_signature(0, Role::NOfN, &n_of_n_sig);
        Ok(())
    }

    /// The witnessed transaction; fails while a signature is missing.
    pub fn finalize(&self, _context: &BridgeContext) -> (r: Result<FinalizedTransaction, BridgeError>)
        requires
            self.wf(),
        ensures
            match r {
                Ok(f) => {
                    &&& self.skeleton.complete()
                    &&& self.skeleton.spend_info_ok()
                    &&& f.tx@ == self.skeleton.tx@
                    &&& f.wf()
                    &&& f.witnesses@.len() == 1
                    &&& f.witnesses@[0]@ == self.skeleton.witness_spec(0)
                },
                Err(e) => (!self.skeleton.complete() && e == BridgeError::Incomplete) || (
                self.skeleton.complete() && !self.skeleton.spend_info_ok() && e
                    == BridgeError::InvalidSpendInfo),
            },
    {
        self.skeleton.finalize()
    }

    pub fn tx(&self) -> (r: &UnsignedTx)
        ensures
            *r == self.skeleton.tx,
    {
        &self.skeleton.tx
    }

    pub fn prev_outs(&self) -> (r: &Vec<TxOutput>)
        ensures
            *r == self.skeleton.prev_outs,
    {
        &self.skeleton.prev_outs
    }

    pub fn prev_scripts(&self) -> (r: &Vec<Vec<u8>>)
        ensures
            *r == self.skeleton.prev_scripts,
    {
        &self.skeleton.prev_scripts
    }
}

/// Pre-signing a freshly built transaction fills both of its slots, the
/// depositor's below the committee's, so that it can then be finalized.
pub proof fn lemma_pre_sign_completes(slots: Seq<SlotView>, depositor_sig: Seq<u8>, committee_sig: Seq<u8>)
    requires
        slots == seq![(0nat, Role::Depositor, None::<Seq<u8>>), (0nat, Role::NOfN, None::<Seq<u8>>)],
    ensures
        fill_slots(fill_slots(slots, 0, Role::Depositor, depositor_sig), 0, Role::NOfN, committee_sig)
            == seq![(0nat, Role::Depositor, Some(depositor_sig)), (0nat, Role::NOfN, Some(committee_sig))],
        all_filled(fill_slots(fill_slots(slots, 0, Role::Depositor, depositor_sig), 0, Role::NOfN, committee_sig)),
{
    let filled = fill_slots(fill_slots(slots, 0, Role::Depositor, depositor_sig), 0, Role::NOfN, committee_sig);
    assert(filled =~= seq![(0nat, Role::Depositor, Some(depositor_sig)), (0nat, Role::NOfN, Some(committee_sig))]);
}

/// Every constructed transaction balances: its outputs plus the fee equal
/// the amounts of the outputs it spends, and signing keeps it so.
pub proof fn lemma_balance(t: PegInConfirmTransaction)
    requires
        t.wf(),
    ensures
        total_value(outputs_view(t.skeleton.tx.output@)) + FEE_AMOUNT == total_value(
            outputs_view(t.skeleton.prev_outs@),
        ),
{
}

} // verus!
