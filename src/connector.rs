//! Connectors: script-template generators. A taproot connector commits to a
//! list of alternative leaf scripts under an internal key; each leaf lists
//! the roles whose signatures it needs, in witness order (bottom of the stack
//! first).
use vstd::prelude::*;

use crate::btc::{sha256, sha256_of, tap_control_block, tap_control_block_of, tap_output_key, tap_output_key_of};
use crate::context::{BridgeError, Role, KEY_LEN_32, PUBLIC_KEY_LEN};
use crate::script::{
    double_sig_leaf, double_sig_leaf_spec, p2tr, p2tr_spec, p2wsh, p2wsh_spec, pay_to_pubkey,
    pay_to_pubkey_spec, single_sig_leaf, single_sig_leaf_spec, MAX_PUSH_LEN,
};
use crate::tx::{scripts_view, Input, TxInput};

verus! {

/// The sequence number of an input that spends a connector leaf.
pub const SEQUENCE_FINAL: u32 = 0xffff_ffff;

/// A taproot connector: an internal key and its leaf scripts, with the
/// signers that each leaf needs.
#[derive(Clone, Debug, PartialEq, Eq)]
pub struct TaprootConnector {
    pub internal_key: Vec<u8>,
    pub leaves: Vec<Vec<u8>>,
    pub signers: Vec<Vec<Role>>,
}

impl TaprootConnector {
    pub open spec fn wf(&self) -> bool {
        self.leaves@.len() == self.signers@.len()
    }

    pub open spec fn leaf_count(&self) -> nat {
        self.leaves@.len()
    }

    pub open spec fn leaf_spec(&self, leaf_index: nat) -> Seq<u8> {
        self.leaves@[leaf_index as int]@
    }

    pub open spec fn signers_spec(&self, leaf_index: nat) -> Seq<Role> {
        self.signers@[leaf_index as int]@
    }

    /// The locking script of the connector, if its tree can be built.
    pub open spec fn locking_script_spec(&self) -> Option<Seq<u8>> {
        match tap_output_key_of(self.internal_key@, scripts_view(self.leaves@)) {
            Some(k) => Some(p2tr_spec(k)),
            None => None,
        }
    }

    pub open spec fn control_block_spec(&self, leaf_index: nat) -> Option<Seq<u8>> {
        tap_control_block_of(self.internal_key@, scripts_view(self.leaves@), leaf_index)
    }

    /// The script of one spending path; fails on an index past the last leaf.
    pub fn leaf_script(&self, leaf_index: usize) -> (r: Result<Vec<u8>, BridgeError>)
        ensures
            match r {
                Ok(s) => leaf_index < self.leaf_count() && s@ == self.leaf_spec(leaf_index as nat),
                Err(e) => leaf_index >= self.leaf_count() && e == BridgeError::LeafIndexOutOfRange,
            },
    {
        if leaf_index < self.leaves.len() {
            let s = self.leaves[leaf_index].clone();
            assert(s@ =~= self.leaf_spec(leaf_index as nat));
            Ok(s)
        } else {
            Err(BridgeError::LeafIndexOutOfRange)
        }
    }

    /// The segwit v1 locking script of the connector's output.
    pub fn locking_script(&self) -> (r: Result<Vec<u8>, BridgeError>)
        ensures
            match r {
                Ok(s) => self.locking_script_spec() == Some(s@),
                Err(e) => self.locking_script_spec().is_none() && e == BridgeError::InvalidSpendInfo,
            },
    {
        match tap_output_key(&self.internal_key, &self.leaves) {
            Some(k) => Ok(p2tr(&k)),
            None => Err(BridgeError::InvalidSpendInfo),
        }
    }

    /// The control block that proves leaf `leaf_index` part of the tree.
    pub fn control_block(&self, leaf_index: usize) -> (r: Result<Vec<u8>, BridgeError>)
        ensures
            match r {
                Ok(c) => leaf_index < self.leaf_count() && self.control_block_spec(leaf_index as nat)
                    == Some(c@),
                Err(e) => (leaf_index >= self.leaf_count() && e == BridgeError::LeafIndexOutOfRange)
                    || (leaf_index < self.leaf_count() && self.control_block_spec(
                    leaf_index as nat,
                ).is_none() && e == BridgeError::InvalidSpendInfo),
            },
    {
        if leaf_index >= self.leaves.len() {
            return Err(BridgeError::LeafIndexOutOfRange);
        }
        match tap_control_block(&self.internal_key, &self.leaves, leaf_index) {
            Some(c) => Ok(c),
            None => Err(BridgeError::InvalidSpendInfo),
        }
    }

    /// An unsigned input that spends `input` through leaf `leaf_index`.
    pub fn build_input(&self, leaf_index: usize, input: &Input) -> (r: Result<TxInput, BridgeError>)
        ensures
            match r {
                Ok(i) => leaf_index < self.leaf_count() && i.previous_output == input.outpoint
                    && i.sequence == SEQUENCE_FINAL,
                Err(e) => leaf_index >= self.leaf_count() && e == BridgeError::LeafIndexOutOfRange,
            },
    {
        if leaf_index < self.leaves.len() {
            Ok(TxInput { previous_output: input.outpoint, sequence: SEQUENCE_FINAL })
        } else {
            Err(BridgeError::LeafIndexOutOfRange)
        }
    }
}

/// The refund leaf of the commitment connector: the depositor alone.
pub const COMMITMENT_REFUND_LEAF: usize = 0;

/// The confirm leaf of the commitment connector: committee and depositor.
pub const COMMITMENT_CONFIRM_LEAF: usize = 1;

/// The commitment connector: it binds a deposit to a destination address on
/// the other chain. The committee key is the internal key. Leaf 0 lets the
/// depositor take the coin back; leaf 1 needs the committee key, checked
/// first, and the depositor key.
pub open spec fn commitment_connector_spec(
    destination: Seq<u8>,
    depositor: Seq<u8>,
    n_of_n: Seq<u8>,
    c: TaprootConnector,
) -> bool {
    &&& c.internal_key@ == n_of_n
    &&& c.leaves@.len() == 2
    &&& c.signers@.len() == 2
    &&& c.leaves@[0]@ == single_sig_leaf_spec(destination, depositor)
    &&& c.leaves@[1]@ == double_sig_leaf_spec(destination, n_of_n, depositor)
    &&& c.signers@[0]@ == seq![Role::Depositor]
    &&& c.signers@[1]@ == seq![Role::Depositor, Role::NOfN]
}

pub fn commitment_connector(destination: &[u8], depositor: &Vec<u8>, n_of_n: &Vec<u8>) -> (r:
    TaprootConnector)
    requires
        destination@.len() <= MAX_PUSH_LEN,
        depositor@.len() == KEY_LEN_32,
        n_of_n@.len() == KEY_LEN_32,
    ensures
        r.wf(),
        commitment_connector_spec(destination@, depositor@, n_of_n@, r),
{
    let refund = single_sig_leaf(destination, depositor.as_slice());
    let confirm = double_sig_leaf(destination, n_of_n.as_slice(), depositor.as_slice());
    let mut leaves: Vec<Vec<u8>> = Vec::new();
    leaves.push(refund);
    leaves.push(confirm);
    let mut refund_signers: Vec<Role> = Vec::new();
    refund_signers.push(Role::Depositor);
    let mut confirm_signers: Vec<Role> = Vec::new();
    confirm_signers.push(Role::Depositor);
    confirm_signers.push(Role::NOfN);
    let mut signers: Vec<Vec<Role>> = Vec::new();
    signers.push(refund_signers);
    signers.push(confirm_signers);
    let r = TaprootConnector { internal_key: n_of_n.clone(), leaves, signers };
    assert(r.internal_key@ =~= n_of_n@);
    assert(r.signers@[0]@ =~= seq![Role::Depositor]);
    assert(r.signers@[1]@ =~= seq![Role::Depositor, Role::NOfN]);
    r
}

/// The committee connector: a segwit v0 script-hash output that the
/// committee key alone spends.
pub open spec fn committee_script_spec(n_of_n_public_key: Seq<u8>) -> Seq<u8> {
    p2wsh_spec(sha256_of(pay_to_pubkey_spec(n_of_n_public_key)))
}

pub fn committee_script(n_of_n_public_key: &Vec<u8>) -> (r: Vec<u8>)
    requires
        n_of_n_public_key@.len() == PUBLIC_KEY_LEN,
    ensures
        r@ == committee_script_spec(n_of_n_public_key@),
{
    let witness_script = pay_to_pubkey(n_of_n_public_key.as_slice());
    let hash = sha256(witness_script.as_slice());
    p2wsh(&hash)
}

/// Same parameters give the same locking script, leaf scripts and control
/// blocks: every derivation is a function of the connector's contents.
pub proof fn lemma_connector_deterministic(a: TaprootConnector, b: TaprootConnector, leaf_index: nat)
    requires
        a.internal_key@ == b.internal_key@,
        scripts_view(a.leaves@) == scripts_view(b.leaves@),
        leaf_index < a.leaf_count(),
    ensures
        a.locking_script_spec() == b.locking_script_spec(),
        a.control_block_spec(leaf_index) == b.control_block_spec(leaf_index),
        a.leaf_spec(leaf_index) == b.leaf_spec(leaf_index),
{
    let i = leaf_index as int;
    assert(scripts_view(a.leaves@)[i] == a.leaves@[i]@);
    assert(b.leaves@.len() == scripts_view(b.leaves@).len());
    assert(scripts_view(b.leaves@)[i] == b.leaves@[i]@);
}

/// The commitment connector is fixed by its parameters: two connectors made
/// from the same destination and keys derive the same locking script and the
/// same leaves.
pub proof fn lemma_commitment_connector_deterministic(
    destination: Seq<u8>,
    depositor: Seq<u8>,
    n_of_n: Seq<u8>,
    a: TaprootConnector,
    b: TaprootConnector,
)
    requires
        commitment_connector_spec(destination, depositor, n_of_n, a),
        commitment_connector_spec(destination, depositor, n_of_n, b),
    ensures
        a.locking_script_spec() == b.locking_script_spec(),
        forall|i: nat| i < 2 ==> a.leaf_spec(i) == b.leaf_spec(i) && a.control_block_spec(i)
            == b.control_block_spec(i),
{
    assert(scripts_view(a.leaves@) =~= scripts_view(b.leaves@));
}

} // verus!
