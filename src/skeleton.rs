//! The transaction skeleton: an unsigned body, the outputs and leaf scripts
//! its inputs spend, the spending path of each input, and one signature slot
//! per required signer. Signing fills slots; finalizing assembles witnesses.
use vstd::prelude::*;

use crate::btc::{consensus_encode, schnorr_sig_of, schnorr_sign, tap_sighash, tap_sighash_of, wire_bytes_of};
use crate::connector::TaprootConnector;
use crate::context::{BridgeError, Role};
use crate::script::append_bytes;
use crate::tx::{copy_bytes, copy_tx, outputs_eq, scripts_eq, tx_eq, inputs_view, outputs_view, scripts_view, TxOutput, UnsignedTx};

verus! {

/// The sighash type byte that a `SIGHASH_ALL` taproot signature carries.
pub const SIGHASH_ALL: u8 = 0x01;

/// The signature of `role` on input `input`, once it is made.
#[derive(Clone, Debug, PartialEq, Eq)]
pub struct SigSlot {
    pub input: usize,
    pub role: Role,
    pub signature: Option<Vec<u8>>,
}

pub type SlotView = (nat, Role, Option<Seq<u8>>);

impl View for SigSlot {
    type V = SlotView;

    open spec fn view(&self) -> SlotView {
        (
            self.input as nat,
            self.role,
            match self.signature {
                Some(s) => Some(s@),
                None => None,
            },
        )
    }
}

pub open spec fn slots_view(s: Seq<SigSlot>) -> Seq<SlotView> {
    s.map_values(|x: SigSlot| x@)
}

/// The leaf of a connector through which an input spends.
#[derive(Clone, Debug, PartialEq, Eq)]
pub struct SpendPath {
    pub connector: TaprootConnector,
    pub leaf_index: usize,
}

/// A witness: the stack items of one input, bottom first.
#[derive(Clone, Debug, PartialEq, Eq)]
pub struct Witness {
    pub items: Vec<Vec<u8>>,
}

impl View for Witness {
    type V = Seq<Seq<u8>>;

    open spec fn view(&self) -> Seq<Seq<u8>> {
        scripts_view(self.items@)
    }
}

/// A transaction with a witness for each input, ready for broadcast.
#[derive(Clone, Debug, PartialEq, Eq)]
pub struct FinalizedTransaction {
    pub tx: UnsignedTx,
    pub witnesses: Vec<Witness>,
}

impl FinalizedTransaction {
    pub open spec fn wf(&self) -> bool {
        self.witnesses@.len() == self.tx.input@.len()
    }

    /// The consensus wire encoding: version, inputs, outputs, witnesses and
    /// lock time, as the network expects them.
    pub fn to_wire_bytes(&self) -> (r: Vec<u8>)
        requires
            self.wf(),
        ensures
            r@ == wire_bytes_of(
                self.tx.version,
                self.tx.lock_time,
                inputs_view(self.tx.input@),
                outputs_view(self.tx.output@),
                self.witnesses@.map_values(|w: Witness| w@),
            ),
    {
        consensus_encode(&self.tx, &self.witnesses)
    }
}

#[derive(Clone, Debug, PartialEq, Eq)]
pub struct TxSkeleton {
    pub tx: UnsignedTx,
    pub prev_outs: Vec<TxOutput>,
    pub prev_scripts: Vec<Vec<u8>>,
    pub spends: Vec<SpendPath>,
    pub slots: Vec<SigSlot>,
}

/// Fills with `sig` every slot of `role` on input `i`; leaves the rest.
pub open spec fn fill_slots(slots: Seq<SlotView>, i: nat, role: Role, sig: Seq<u8>) -> Seq<SlotView> {
    slots.map_values(
        |s: SlotView|
            if s.0 == i && s.1 == role {
                (s.0, s.1, Some(sig))
            } else {
                s
            },
    )
}

/// Every slot holds a signature.
pub open spec fn all_filled(slots: Seq<SlotView>) -> bool {
    forall|k: int| 0 <= k < slots.len() ==> (#[trigger] slots[k]).2.is_some()
}

/// The signatures of the slots of input `i`, in slot order.
pub open spec fn input_signatures(slots: Seq<SlotView>, i: nat) -> Seq<Seq<u8>>
    decreases slots.len(),
{
    if slots.len() == 0 {
        seq![]
    } else {
        let rest = input_signatures(slots.drop_last(), i);
        let last = slots.last();
        if last.0 == i {
            rest.push(last.2.unwrap())
        } else {
            rest
        }
    }
}

/// Both lists have the same slots, position by position.
pub open spec fn same_layout(a: Seq<SlotView>, b: Seq<SlotView>) -> bool {
    &&& a.len() == b.len()
    &&& forall|k: int| 0 <= k < a.len() ==> (#[trigger] a[k]).0 == b[k].0 && a[k].1 == b[k].1
}

/// Where both lists hold a signature, it is the same one.
pub open spec fn agree(a: Seq<SlotView>, b: Seq<SlotView>) -> bool {
    forall|k: int|
        0 <= k < a.len() && (#[trigger] a[k]).2.is_some() && b[k].2.is_some() ==> a[k].2 == b[k].2
}

/// The slots of `a`, each empty one taken from `b`.
pub open spec fn merge_slots(a: Seq<SlotView>, b: Seq<SlotView>) -> Seq<SlotView> {
    Seq::new(a.len(), |k: int| if a[k].2.is_some() { a[k] } else { b[k] })
}

/// The wire encoding of a body whose inputs all have empty witnesses.
pub open spec fn unsigned_wire_spec(tx: UnsignedTx) -> Seq<u8> {
    wire_bytes_of(
        tx.version,
        tx.lock_time,
        inputs_view(tx.input@),
        outputs_view(tx.output@),
        Seq::new(tx.input@.len(), |k: int| Seq::<Seq<u8>>::empty()),
    )
}

/// The wire encoding of `tx` with empty witnesses.
pub fn unsigned_wire(tx: &UnsignedTx) -> (r: Vec<u8>)
    ensures
        r@ == unsigned_wire_spec(*tx),
{
    let mut empty: Vec<Witness> = Vec::new();
    let mut k: usize = 0;
    while k < tx.input.len()
        invariant
            0 <= k <= tx.input@.len(),
            empty@.len() == k,
            forall|j: int| 0 <= j < k ==> (#[trigger] empty@[j])@ == Seq::<Seq<u8>>::empty(),
        decreases tx.input@.len() - k,
    {
        let w = Witness { items: Vec::new() };
        assert(w@ =~= Seq::<Seq<u8>>::empty());
        empty.push(w);
        k = k + 1;
    }
    assert(empty@.map_values(|w: Witness| w@) =~= Seq::new(tx.input@.len(), |k: int| Seq::<Seq<u8>>::empty()));
    consensus_encode(tx, &empty)
}

impl TxSkeleton {
    pub open spec fn input_count(&self) -> nat {
        self.tx.input@.len()
    }

    /// The side tables run parallel to the inputs, each input spends an
    /// existing leaf of its connector whose script is the one recorded, and
    /// every slot belongs to an input.
    pub open spec fn wf(&self) -> bool {
        &&& self.prev_outs@.len() == self.input_count()
        &&& self.prev_scripts@.len() == self.input_count()
        &&& self.spends@.len() == self.input_count()
        &&& forall|i: int|
            0 <= i < self.input_count() ==> {
                let p = #[trigger] self.spends@[i];
                &&& p.connector.wf()
                &&& p.leaf_index < p.connector.leaf_count()
                &&& self.prev_scripts@[i]@ == p.connector.leaf_spec(p.leaf_index as nat)
            }
        &&& forall|k: int|
            0 <= k < self.slots@.len() ==> (#[trigger] self.slots@[k]).input < self.input_count()
    }

    /// The signature hash of input `i`: a function of the body, the spent
    /// outputs and the spent leaf alone.
    pub open spec fn sighash_spec(&self, i: nat) -> Option<Seq<u8>> {
        tap_sighash_of(unsigned_wire_spec(self.tx), outputs_view(self.prev_outs@), i, self.prev_scripts@[i as int]@)
    }

    /// The witness signature that `secret` makes on input `i`: the Schnorr
    /// signature of its sighash followed by the sighash type.
    pub open spec fn signature_spec(&self, i: nat, secret: Seq<u8>) -> Option<Seq<u8>> {
        match self.sighash_spec(i) {
            Some(h) => match schnorr_sig_of(secret, h) {
                Some(s) => Some(s.push(SIGHASH_ALL)),
                None => None,
            },
            None => None,
        }
    }

    /// Everything but the signature slots is the same in both.
    pub open spec fn same_body(&self, other: &TxSkeleton) -> bool {
        &&& self.tx == other.tx
        &&& self.prev_outs == other.prev_outs
        &&& self.prev_scripts == other.prev_scripts
        &&& self.spends == other.spends
    }

    /// `after` is `before` with the slots of `role` on input `i` filled with
    /// the signature that `secret` makes.
    pub open spec fn signed(before: TxSkeleton, after: TxSkeleton, i: nat, role: Role, secret: Seq<u8>) -> bool {
        &&& after.same_body(&before)
        &&& i < before.input_count()
        &&& before.signature_spec(i, secret).is_some()
        &&& slots_view(after.slots@) == fill_slots(
            slots_view(before.slots@),
            i,
            role,
            before.signature_spec(i, secret).unwrap(),
        )
    }

    pub open spec fn complete(&self) -> bool {
        all_filled(slots_view(self.slots@))
    }

    /// The control block of the leaf that input `i` spends.
    pub open spec fn control_block_spec(&self, i: nat) -> Option<Seq<u8>> {
        let p = self.spends@[i as int];
        p.connector.control_block_spec(p.leaf_index as nat)
    }

    pub open spec fn spend_info_ok(&self) -> bool {
        forall|i: nat| i < self.input_count() ==> (#[trigger] self.control_block_spec(i)).is_some()
    }

    /// The witness of input `i`: its signatures in slot order, then the leaf
    /// script, then the control block.
    pub open spec fn witness_spec(&self, i: nat) -> Seq<Seq<u8>> {
        input_signatures(slots_view(self.slots@), i) + seq![
            self.prev_scripts@[i as int]@,
            self.control_block_spec(i).unwrap(),
        ]
    }

    /// The witness signature of input `i` under `secret`; nothing changes.
    pub fn input_signature(&self, i: usize, secret: &Vec<u8>) -> (r: Result<Vec<u8>, BridgeError>)
        requires
            self.wf(),
        ensures
            match r {
                Ok(s) => i < self.input_count() && self.signature_spec(i as nat, secret@) == Some(s@),
                Err(e) => (i >= self.input_count() && e == BridgeError::InputIndexOutOfRange) || (i
                    < self.input_count() && self.signature_spec(i as nat, secret@).is_none() && e
                    == BridgeError::SigningFailed),
            },
    {
        if i >= self.tx.input.len() {
            return Err(BridgeError::InputIndexOutOfRange);
        }
        let wire = unsigned_wire(&self.tx);
        let hash = match tap_sighash(&wire, &self.prev_outs, i, &self.prev_scripts[i]) {
            Some(h) => h,
            None => return Err(BridgeError::SigningFailed),
        };
        let sig = match schnorr_sign(secret, hash) {
            Some(s) => s,
            None => return Err(BridgeError::SigningFailed),
        };
        let mut out: Vec<u8> = Vec::new();
        append_bytes(&mut out, &sig);
        out.push(SIGHASH_ALL);
        assert(out@ =~= sig@.push(SIGHASH_ALL));
        Ok(out)
    }

    /// Puts `sig` into every slot of `role` on input `i`.
    pub fn put_signature(&mut self, i: usize, role: Role, sig: &Vec<u8>)
        requires
            old(self).wf(),
        ensures
            final(self).wf(),
            final(self).same_body(old(self)),
            slots_view(final(self).slots@) == fill_slots(slots_view(old(self).slots@), i as nat, role, sig@),
    {
        let ghost start = slots_view(self.slots@);
        let ghost target = fill_slots(start, i as nat, role, sig@);
        let mut k: usize = 0;
        while k < self.slots.len()
            invariant
                old(self).wf(),
                self.same_body(old(self)),
                self.slots@.len() == old(self).slots@.len(),
                start == slots_view(old(self).slots@),
                target == fill_slots(start, i as nat, role, sig@),
                0 <= k <= self.slots@.len(),
                forall|j: int| 0 <= j < k ==> #[trigger] self.slots@[j]@ == target[j],
                forall|j: int| k <= j < self.slots@.len() ==> #[trigger] self.slots@[j] == old(self).slots@[j],
                forall|j: int| 0 <= j < self.slots@.len() ==> #[trigger] self.slots@[j].input == old(self).slots@[j].input,
            decreases self.slots@.len() - k,
        {
            if self.slots[k].input == i && self.slots[k].role == role {
                let slot = SigSlot { input: i, role, signature: Some(copy_bytes(sig)) };
                self.slots.set(k, slot);
            }
            assert(self.slots@[k as int]@ == target[k as int]);
            k = k + 1;
        }
        assert(slots_view(self.slots@) =~= target);
    }

    /// Signs input `i` for `role` with `secret`. On failure nothing changes.
    pub fn sign_input(&mut self, i: usize, role: Role, secret: &Vec<u8>) -> (r: Result<(), BridgeError>)
        requires
            old(self).wf(),
        ensures
            final(self).wf(),
            match r {
                Ok(()) => TxSkeleton::signed(*old(self), *final(self), i as nat, role, secret@),
                Err(e) => *final(self) == *old(self) && ((i >= old(self).input_count() && e
                    == BridgeError::InputIndexOutOfRange) || (i < old(self).input_count()
                    && old(self).signature_spec(i as nat, secret@).is_none() && e
                    == BridgeError::SigningFailed)),
            },
    {
        let sig = self.input_signature(i, secret)?;
        self.put_signature(i, role, &sig);
        Ok(())
    }

    /// Both skeletons commit to the same body, spent outputs and leaves.
    pub open spec fn same_message(&self, other: &TxSkeleton) -> bool {
        &&& self.tx@ == other.tx@
        &&& outputs_view(self.prev_outs@) == outputs_view(other.prev_outs@)
        &&& scripts_view(self.prev_scripts@) == scripts_view(other.prev_scripts@)
    }

    /// Takes into `self` the signatures that `other` holds and `self` lacks.
    /// Fails, changing nothing, unless both are the same transaction with
    /// the same slots.
    pub fn merge(&mut self, other: &TxSkeleton) -> (r: Result<(), BridgeError>)
        requires
            old(self).wf(),
        ensures
            final(self).wf(),
            match r {
                Ok(()) => {
                    &&& old(self).same_message(other)
                    &&& same_layout(slots_view(old(self).slots@), slots_view(other.slots@))
                    &&& final(self).same_body(old(self))
                    &&& slots_view(final(self).slots@) == merge_slots(
                        slots_view(old(self).slots@),
                        slots_view(other.slots@),
                    )
                },
                Err(e) => *final(self) == *old(self) && e == BridgeError::Mismatch && !(old(
                    self,
                ).same_message(other) && same_layout(slots_view(old(self).slots@), slots_view(other.slots@))),
            },
    {
        if !(tx_eq(&self.tx, &other.tx) && outputs_eq(&self.prev_outs, &other.prev_outs) && scripts_eq(
            &self.prev_scripts,
            &other.prev_scripts,
        )) {
            return Err(BridgeError::Mismatch);
        }
        if self.slots.len() != other.slots.len() {
            assert(slots_view(self.slots@).len() != slots_view(other.slots@).len());
            return Err(BridgeError::Mismatch);
        }
        let mut k: usize = 0;
        while k < self.slots.len()
            invariant
                *self == *old(self),
                self.wf(),
                self.slots@.len() == other.slots@.len(),
                0 <= k <= self.slots@.len(),
                forall|j: int| 0 <= j < k ==> (#[trigger] self.slots@[j]).input == other.slots@[j].input
                    && self.slots@[j].role == other.slots@[j].role,
            decreases self.slots@.len() - k,
        {
            if self.slots[k].input != other.slots[k].input || self.slots[k].role != other.slots[k].role {
                assert(slots_view(self.slots@)[k as int].0 != slots_view(other.slots@)[k as int].0
                    || slots_view(self.slots@)[k as int].1 != slots_view(other.slots@)[k as int].1);
                return Err(BridgeError::Mismatch);
            }
            k = k + 1;
        }
        let ghost a = slots_view(self.slots@);
        let ghost b = slots_view(other.slots@);
        let mut k: usize = 0;
        while k < self.slots.len()
            invariant
                old(self).wf(),
                self.same_body(old(self)),
                a == slots_view(old(self).slots@),
                b == slots_view(other.slots@),
                self.slots@.len() == other.slots@.len(),
                self.slots@.len() == old(self).slots@.len(),
                0 <= k <= self.slots@.len(),
                forall|j: int| 0 <= j < k ==> (#[trigger] self.slots@[j])@ == merge_slots(a, b)[j],
                forall|j: int| k <= j < self.slots@.len() ==> #[trigger] self.slots@[j] == old(self).slots@[j],
                forall|j: int| 0 <= j < self.slots@.len() ==> (#[trigger] self.slots@[j]).input == other.slots@[j].input
                    && self.slots@[j].role == other.slots@[j].role,
                forall|j: int| 0 <= j < self.slots@.len() ==> #[trigger] self.slots@[j].input == old(self).slots@[j].input,
            decreases self.slots@.len() - k,
        {
            if self.slots[k].signature.is_none() {
                match &other.slots[k].signature {
                    Some(sig) => {
                        let slot = SigSlot { input: other.slots[k].input, role: other.slots[k].role, signature: Some(copy_bytes(sig)) };
                        self.slots.set(k, slot);
                    },
                    None => {},
                }
            }
            k = k + 1;
        }
        assert(slots_view(self.slots@) =~= merge_slots(a, b));
        Ok(())
    }

    /// Whether every slot holds a signature.
    pub fn is_complete(&self) -> (r: bool)
        ensures
            r == self.complete(),
    {
        let mut k: usize = 0;
        while k < self.slots.len()
            invariant
                0 <= k <= self.slots@.len(),
                forall|j: int| 0 <= j < k ==> (#[trigger] self.slots@[j]).signature.is_some(),
            decreases self.slots@.len() - k,
        {
            if self.slots[k].signature.is_none() {
                assert(slots_view(self.slots@)[k as int].2.is_none());
                return false;
            }
            k = k + 1;
        }
        assert forall|j: int| 0 <= j < slots_view(self.slots@).len() implies (#[trigger] slots_view(
            self.slots@,
        )[j]).2.is_some() by {
            assert(self.slots@[j].signature.is_some());
        }
        true
    }

    /// The signatures of input `i`, in slot order; every slot must be filled.
    fn collect_signatures(&self, i: usize) -> (r: Vec<Vec<u8>>)
        requires
            self.complete(),
        ensures
            scripts_view(r@) == input_signatures(slots_view(self.slots@), i as nat),
    {
        let ghost sv = slots_view(self.slots@);
        let mut r: Vec<Vec<u8>> = Vec::new();
        let mut k: usize = 0;
        while k < self.slots.len()
            invariant
                sv == slots_view(self.slots@),
                all_filled(sv),
                0 <= k <= self.slots@.len(),
                scripts_view(r@) == input_signatures(sv.take(k as int), i as nat),
            decreases self.slots@.len() - k,
        {
            assert(sv.take(k + 1).drop_last() =~= sv.take(k as int));
            assert(sv[k as int].2.is_some());
            if self.slots[k].input == i {
                match &self.slots[k].signature {
                    Some(s) => {
                        r.push(copy_bytes(s));
                    },
                    None => {},
                }
            }
            k = k + 1;
            assert(scripts_view(r@) =~= input_signatures(sv.take(k as int), i as nat));
        }
        assert(sv.take(self.slots@.len() as int) =~= sv);
        r
    }

    /// The witnessed transaction; fails while a slot is empty.
    pub fn finalize(&self) -> (r: Result<FinalizedTransaction, BridgeError>)
        requires
            self.wf(),
        ensures
            match r {
                Ok(f) => {
                    &&& self.complete()
                    &&& self.spend_info_ok()
                    &&& f.tx@ == self.tx@
                    &&& f.wf()
                    &&& f.witnesses@.len() == self.input_count()
                    &&& forall|i: int|
                        0 <= i < self.input_count() ==> (#[trigger] f.witnesses@[i])@
                            == self.witness_spec(i as nat)
                },
                Err(e) => (!self.complete() && e == BridgeError::Incomplete) || (self.complete()
                    && !self.spend_info_ok() && e == BridgeError::InvalidSpendInfo),
            },
    {
        if !self.is_complete() {
            return Err(BridgeError::Incomplete);
        }
        let mut witnesses: Vec<Witness> = Vec::new();
        let mut i: usize = 0;
        while i < self.tx.input.len()
            invariant
                self.wf(),
                self.complete(),
                0 <= i <= self.input_count(),
                witnesses@.len() == i,
                forall|j: nat| j < i ==> (#[trigger] self.control_block_spec(j)).is_some(),
                forall|j: int| 0 <= j < i ==> (#[trigger] witnesses@[j])@ == self.witness_spec(j as nat),
            decreases self.input_count() - i,
        {
            let p = &self.spends[i];
            assert(self.spends@[i as int] == *p);
            let cb = match p.connector.control_block(p.leaf_index) {
                Ok(c) => c,
                Err(e) => {
                    assert(self.control_block_spec(i as nat).is_none());
                    return Err(BridgeError::InvalidSpendInfo);
                },
            };
            let mut items = self.collect_signatures(i);
            items.push(copy_bytes(&self.prev_scripts[i]));
            items.push(cb);
            let w = Witness { items };
            assert(w@ =~= self.witness_spec(i as nat));
            witnesses.push(w);
            i = i + 1;
        }
        let f = FinalizedTransaction { tx: copy_tx(&self.tx), witnesses };
        assert(inputs_view(f.tx.input@).len() == f.tx.input@.len());
        assert(inputs_view(self.tx.input@).len() == self.tx.input@.len());
        Ok(f)
    }
}

/// Merging is commutative where the two agree on every signature both hold.
pub proof fn lemma_merge_commutes(a: Seq<SlotView>, b: Seq<SlotView>)
    requires
        same_layout(a, b),
        agree(a, b),
    ensures
        merge_slots(a, b) == merge_slots(b, a),
{
    assert forall|k: int| 0 <= k < a.len() implies merge_slots(a, b)[k] == merge_slots(b, a)[k] by {
        if a[k].2.is_some() && b[k].2.is_some() {
            assert(a[k].2 == b[k].2);
        }
    }
    assert(merge_slots(a, b) =~= merge_slots(b, a));
}

/// Merging is associative.
pub proof fn lemma_merge_associative(a: Seq<SlotView>, b: Seq<SlotView>, c: Seq<SlotView>)
    requires
        same_layout(a, b),
        same_layout(b, c),
    ensures
        merge_slots(merge_slots(a, b), c) == merge_slots(a, merge_slots(b, c)),
{
    assert(merge_slots(merge_slots(a, b), c) =~= merge_slots(a, merge_slots(b, c)));
}

/// Two parties that each sign their own slot of the same unsigned
/// skeleton, and then merge, reach what one party signing both reaches.
pub proof fn lemma_merge_of_separate_signers(
    s: Seq<SlotView>,
    i: nat,
    a: Role,
    sa: Seq<u8>,
    j: nat,
    b: Role,
    sb: Seq<u8>,
)
    requires
        i != j || a != b,
        forall|k: int| 0 <= k < s.len() ==> (#[trigger] s[k]).2.is_none(),
    ensures
        same_layout(fill_slots(s, i, a, sa), fill_slots(s, j, b, sb)),
        merge_slots(fill_slots(s, i, a, sa), fill_slots(s, j, b, sb)) == fill_slots(
            fill_slots(s, i, a, sa),
            j,
            b,
            sb,
        ),
{
    assert(merge_slots(fill_slots(s, i, a, sa), fill_slots(s, j, b, sb)) =~= fill_slots(
        fill_slots(s, i, a, sa),
        j,
        b,
        sb,
    ));
}

/// Filling the slots of two different signers commutes.
pub proof fn lemma_fill_commutes(
    slots: Seq<SlotView>,
    i: nat,
    a: Role,
    sa: Seq<u8>,
    j: nat,
    b: Role,
    sb: Seq<u8>,
)
    requires
        i != j || a != b,
    ensures
        fill_slots(fill_slots(slots, i, a, sa), j, b, sb) == fill_slots(fill_slots(slots, j, b, sb), i, a, sa),
{
    assert(fill_slots(fill_slots(slots, i, a, sa), j, b, sb) =~= fill_slots(fill_slots(slots, j, b, sb), i, a, sa));
}

/// Pre-signing commutes: two signers for different slots reach the same
/// slots whichever signs first, since neither signature covers the other.
pub proof fn lemma_signing_commutes(
    s: TxSkeleton,
    ab1: TxSkeleton,
    ab2: TxSkeleton,
    ba1: TxSkeleton,
    ba2: TxSkeleton,
    i: nat,
    a: Role,
    ka: Seq<u8>,
    j: nat,
    b: Role,
    kb: Seq<u8>,
)
    requires
        i != j || a != b,
        TxSkeleton::signed(s, ab1, i, a, ka),
        TxSkeleton::signed(ab1, ab2, j, b, kb),
        TxSkeleton::signed(s, ba1, j, b, kb),
        TxSkeleton::signed(ba1, ba2, i, a, ka),
    ensures
        ab2.same_body(&ba2),
        slots_view(ab2.slots@) == slots_view(ba2.slots@),
{
    lemma_fill_commutes(
        slots_view(s.slots@),
        i,
        a,
        s.signature_spec(i, ka).unwrap(),
        j,
        b,
        s.signature_spec(j, kb).unwrap(),
    );
}

/// The sighash of an input is recomputed the same from the same recorded
/// body, spent outputs and leaf scripts, whatever the slots hold.
pub proof fn lemma_sighash_stable(a: TxSkeleton, b: TxSkeleton, i: nat)
    requires
        a.tx@ == b.tx@,
        outputs_view(a.prev_outs@) == outputs_view(b.prev_outs@),
        scripts_view(a.prev_scripts@) == scripts_view(b.prev_scripts@),
        i < a.prev_scripts@.len(),
    ensures
        a.sighash_spec(i) == b.sighash_spec(i),
        forall|k: Seq<u8>| #[trigger] a.signature_spec(i, k) == b.signature_spec(i, k),
{
    assert(a.tx.input@.len() == inputs_view(a.tx.input@).len());
    assert(b.tx.input@.len() == inputs_view(b.tx.input@).len());
    assert(Seq::new(a.tx.input@.len(), |k: int| Seq::<Seq<u8>>::empty()) =~= Seq::new(
        b.tx.input@.len(),
        |k: int| Seq::<Seq<u8>>::empty(),
    ));
    assert(unsigned_wire_spec(a.tx) == unsigned_wire_spec(b.tx));
    assert(scripts_view(a.prev_scripts@)[i as int] == a.prev_scripts@[i as int]@);
    assert(b.prev_scripts@.len() == scripts_view(b.prev_scripts@).len());
    assert(scripts_view(b.prev_scripts@)[i as int] == b.prev_scripts@[i as int]@);
}

/// A skeleton is complete exactly when every one of its slots holds a
/// signature; `finalize` refuses any other.
pub proof fn lemma_complete_iff_all_slots_filled(s: TxSkeleton)
    ensures
        s.complete() <==> forall|k: int| 0 <= k < s.slots@.len() ==> (#[trigger] s.slots@[k]).signature.is_some(),
{
    if s.complete() {
        assert forall|k: int| 0 <= k < s.slots@.len() implies (#[trigger] s.slots@[k]).signature.is_some() by {
            assert(slots_view(s.slots@)[k].2.is_some());
        }
    }
}

} // verus!
