//! Plain transaction data: outpoints, funding descriptors, unsigned inputs
//! and outputs, and the unsigned transaction body.
use vstd::prelude::*;

verus! {

/// A reference to an output of an earlier transaction.
#[derive(Clone, Copy, Debug, PartialEq, Eq)]
pub struct OutPoint {
    pub txid: [u8; 32],
    pub vout: u32,
}

/// A funding outpoint together with the amount it holds, in satoshis.
#[derive(Clone, Copy, Debug, PartialEq, Eq)]
pub struct Input {
    pub outpoint: OutPoint,
    pub amount: u64,
}

/// An unsigned transaction input: what it spends and its sequence number.
/// Its witness is assembled when the transaction is finalized.
#[derive(Clone, Copy, Debug, PartialEq, Eq)]
pub struct TxInput {
    pub previous_output: OutPoint,
    pub sequence: u32,
}

/// A transaction output: an amount in satoshis and its locking script.
#[derive(Clone, Debug, PartialEq, Eq)]
pub struct TxOutput {
    pub value: u64,
    pub script_pubkey: Vec<u8>,
}

/// The body of a transaction without witnesses.
#[derive(Clone, Debug, PartialEq, Eq)]
pub struct UnsignedTx {
    pub version: i32,
    pub lock_time: u32,
    pub input: Vec<TxInput>,
    pub output: Vec<TxOutput>,
}

/// What an input commits to: previous txid, previous index, sequence.
pub type TxInputView = (Seq<u8>, u32, u32);

/// What an output commits to: amount and locking script.
pub type TxOutputView = (u64, Seq<u8>);

impl View for TxInput {
    type V = TxInputView;

    open spec fn view(&self) -> TxInputView {
        (self.previous_output.txid@, self.previous_output.vout, self.sequence)
    }
}

impl View for TxOutput {
    type V = TxOutputView;

    open spec fn view(&self) -> TxOutputView {
        (self.value, self.script_pubkey@)
    }
}

pub open spec fn inputs_view(s: Seq<TxInput>) -> Seq<TxInputView> {
    s.map_values(|i: TxInput| i@)
}

pub open spec fn outputs_view(s: Seq<TxOutput>) -> Seq<TxOutputView> {
    s.map_values(|o: TxOutput| o@)
}

pub open spec fn scripts_view(s: Seq<Vec<u8>>) -> Seq<Seq<u8>> {
    s.map_values(|v: Vec<u8>| v@)
}

/// The sum of the amounts of a list of outputs.
pub open spec fn total_value(outs: Seq<TxOutputView>) -> int
    decreases outs.len(),
{
    if outs.len() == 0 {
        0
    } else {
        total_value(outs.drop_last()) + outs.last().0
    }
}

/// The unsigned body as a value: version, lock time, inputs, outputs.
pub struct TxView {
    pub version: i32,
    pub lock_time: u32,
    pub inputs: Seq<TxInputView>,
    pub outputs: Seq<TxOutputView>,
}

impl View for UnsignedTx {
    type V = TxView;

    open spec fn view(&self) -> TxView {
        TxView {
            version: self.version,
            lock_time: self.lock_time,
            inputs: inputs_view(self.input@),
            outputs: outputs_view(self.output@),
        }
    }
}

/// A copy of a byte vector.
pub fn copy_bytes(v: &Vec<u8>) -> (r: Vec<u8>)
    ensures
        r@ == v@,
{
    let r = v.clone();
    assert(r@ =~= v@);
    r
}

/// A copy of an output.
pub fn copy_output(o: &TxOutput) -> (r: TxOutput)
    ensures
        r@ == o@,
{
    TxOutput { value: o.value, script_pubkey: copy_bytes(&o.script_pubkey) }
}

/// A copy of an unsigned transaction body.
pub fn copy_tx(tx: &UnsignedTx) -> (r: UnsignedTx)
    ensures
        r@ == tx@,
{
    let mut input: Vec<TxInput> = Vec::new();
    let mut k: usize = 0;
    while k < tx.input.len()
        invariant
            0 <= k <= tx.input@.len(),
            input@ == tx.input@.subrange(0, k as int),
        decreases tx.input@.len() - k,
    {
        input.push(tx.input[k]);
        k = k + 1;
        assert(input@ =~= tx.input@.subrange(0, k as int));
    }
    assert(input@ =~= tx.input@);
    let mut output: Vec<TxOutput> = Vec::new();
    let mut k: usize = 0;
    while k < tx.output.len()
        invariant
            0 <= k <= tx.output@.len(),
            output@.len() == k,
            forall|j: int| 0 <= j < k ==> (#[trigger] output@[j])@ == tx.output@[j]@,
        decreases tx.output@.len() - k,
    {
        output.push(copy_output(&tx.output[k]));
        k = k + 1;
    }
    assert(outputs_view(output@) =~= outputs_view(tx.output@));
    let r = UnsignedTx { version: tx.version, lock_time: tx.lock_time, input, output };
    assert(inputs_view(r.input@) =~= inputs_view(tx.input@));
    r
}

/// Whether two byte strings are equal.
pub fn bytes_eq(a: &[u8], b: &[u8]) -> (r: bool)
    ensures
        r == (a@ == b@),
{
    if a.len() != b.len() {
        return false;
    }
    let mut k: usize = 0;
    while k < a.len()
        invariant
            a@.len() == b@.len(),
            0 <= k <= a@.len(),
            forall|j: int| 0 <= j < k ==> a@[j] == b@[j],
        decreases a@.len() - k,
    {
        if a[k] != b[k] {
            return false;
        }
        k = k + 1;
    }
    assert(a@ =~= b@);
    true
}

/// Whether two lists of inputs commit to the same outpoints and sequences.
pub fn inputs_eq(a: &Vec<TxInput>, b: &Vec<TxInput>) -> (r: bool)
    ensures
        r == (inputs_view(a@) == inputs_view(b@)),
{
    if a.len() != b.len() {
        assert(inputs_view(a@).len() != inputs_view(b@).len());
        return false;
    }
    let mut k: usize = 0;
    while k < a.len()
        invariant
            a@.len() == b@.len(),
            0 <= k <= a@.len(),
            forall|j: int| 0 <= j < k ==> (#[trigger] a@[j])@ == b@[j]@,
        decreases a@.len() - k,
    {
        let x = a[k];
        let y = b[k];
        if !bytes_eq(&x.previous_output.txid, &y.previous_output.txid) || x.previous_output.vout
            != y.previous_output.vout || x.sequence != y.sequence {
            assert(inputs_view(a@)[k as int] != inputs_view(b@)[k as int]);
            return false;
        }
        k = k + 1;
    }
    assert(inputs_view(a@) =~= inputs_view(b@));
    true
}

/// Whether two lists of outputs have the same amounts and scripts.
pub fn outputs_eq(a: &Vec<TxOutput>, b: &Vec<TxOutput>) -> (r: bool)
    ensures
        r == (outputs_view(a@) == outputs_view(b@)),
{
    if a.len() != b.len() {
        assert(outputs_view(a@).len() != outputs_view(b@).len());
        return false;
    }
    let mut k: usize = 0;
    while k < a.len()
        invariant
            a@.len() == b@.len(),
            0 <= k <= a@.len(),
            forall|j: int| 0 <= j < k ==> (#[trigger] a@[j])@ == b@[j]@,
        decreases a@.len() - k,
    {
        if a[k].value != b[k].value || !bytes_eq(a[k].script_pubkey.as_slice(), b[k].script_pubkey.as_slice()) {
            assert(outputs_view(a@)[k as int] != outputs_view(b@)[k as int]);
            return false;
        }
        k = k + 1;
    }
    assert(outputs_view(a@) =~= outputs_view(b@));
    true
}

/// Whether two lists of scripts are equal.
pub fn scripts_eq(a: &Vec<Vec<u8>>, b: &Vec<Vec<u8>>) -> (r: bool)
    ensures
        r == (scripts_view(a@) == scripts_view(b@)),
{
    if a.len() != b.len() {
        assert(scripts_view(a@).len() != scripts_view(b@).len());
        return false;
    }
    let mut k: usize = 0;
    while k < a.len()
        invariant
            a@.len() == b@.len(),
            0 <= k <= a@.len(),
            forall|j: int| 0 <= j < k ==> (#[trigger] a@[j])@ == b@[j]@,
        decreases a@.len() - k,
    {
        if !bytes_eq(a[k].as_slice(), b[k].as_slice()) {
            assert(scripts_view(a@)[k as int] != scripts_view(b@)[k as int]);
            return false;
        }
        k = k + 1;
    }
    assert(scripts_view(a@) =~= scripts_view(b@));
    true
}

/// Whether two bodies are the same transaction.
pub fn tx_eq(a: &UnsignedTx, b: &UnsignedTx) -> (r: bool)
    ensures
        r == (a@ == b@),
{
    a.version == b.version && a.lock_time == b.lock_time && inputs_eq(&a.input, &b.input) && outputs_eq(
        &a.output,
        &b.output,
    )
}

} // verus!
