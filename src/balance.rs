//! The balance rule of a pre-signed transaction: the inputs pay a fixed fee
//! and the given outputs, and what is left goes to one more output, which
//! must carry a positive amount.
use vstd::prelude::*;

use crate::context::BridgeError;
use crate::tx::{outputs_view, total_value, TxOutput, TxOutputView};

verus! {

/// The sum of a list of amounts.
pub open spec fn total_amount(amounts: Seq<u64>) -> int
    decreases amounts.len(),
{
    if amounts.len() == 0 {
        0
    } else {
        total_amount(amounts.drop_last()) + amounts.last()
    }
}

pub const MAX_SATS: u128 = 0xffff_ffff_ffff_ffff;

proof fn lemma_total_amount_bounded(amounts: Seq<u64>)
    ensures
        0 <= total_amount(amounts) <= amounts.len() * MAX_SATS,
    decreases amounts.len(),
{
    if amounts.len() > 0 {
        lemma_total_amount_bounded(amounts.drop_last());
    }
}

proof fn lemma_total_value_bounded(outs: Seq<TxOutputView>)
    ensures
        0 <= total_value(outs) <= outs.len() * MAX_SATS,
    decreases outs.len(),
{
    if outs.len() > 0 {
        lemma_total_value_bounded(outs.drop_last());
    }
}

/// The sum of `amounts`, which a `u128` always holds.
pub fn sum_amounts(amounts: &Vec<u64>) -> (r: u128)
    ensures
        r == total_amount(amounts@),
{
    let mut acc: u128 = 0;
    let mut k: usize = 0;
    while k < amounts.len()
        invariant
            0 <= k <= amounts@.len(),
            acc == total_amount(amounts@.take(k as int)),
            acc <= k * MAX_SATS,
        decreases amounts@.len() - k,
    {
        assert(amounts@.take(k + 1).drop_last() =~= amounts@.take(k as int));
        acc = acc + amounts[k] as u128;
        k = k + 1;
    }
    assert(amounts@.take(amounts@.len() as int) =~= amounts@);
    acc
}

/// The sum of the amounts of `outputs`, which a `u128` always holds.
pub fn sum_outputs(outputs: &Vec<TxOutput>) -> (r: u128)
    ensures
        r == total_value(outputs_view(outputs@)),
{
    let mut acc: u128 = 0;
    let mut k: usize = 0;
    while k < outputs.len()
        invariant
            0 <= k <= outputs@.len(),
            acc == total_value(outputs_view(outputs@.take(k as int))),
            acc <= k * MAX_SATS,
        decreases outputs@.len() - k,
    {
        assert(outputs_view(outputs@.take(k + 1)).drop_last() =~= outputs_view(outputs@.take(k as int)));
        acc = acc + outputs[k].value as u128;
        k = k + 1;
    }
    assert(outputs@.take(outputs@.len() as int) =~= outputs@);
    acc
}

/// What is left for the last output once the inputs have paid `fee` and
/// `outputs`. Fails when the inputs fall short, and when nothing is left,
/// since an output of zero is refused.
pub fn remaining_amount(input_amounts: &Vec<u64>, fee: u64, outputs: &Vec<TxOutput>) -> (r: Result<u64, BridgeError>)
    ensures
        ({
            let have = total_amount(input_amounts@);
            let owe = fee + total_value(outputs_view(outputs@));
            match r {
                Ok(v) => owe < have && v == have - owe,
                Err(e) => (have < owe && e == BridgeError::InsufficientFunds) || (have == owe && e
                    == BridgeError::ZeroValueOutput) || (have - owe > u64::MAX && e
                    == BridgeError::AmountOverflow),
            }
        }),
{
    let have = sum_amounts(input_amounts);
    let paid = sum_outputs(outputs);
    proof {
        lemma_total_value_bounded(outputs_view(outputs@));
        assert(outputs_view(outputs@).len() == outputs@.len());
    }
    if paid > u128::MAX - fee as u128 {
        // more than any set of inputs can hold: `have` is below
        proof {
            lemma_total_amount_bounded(input_amounts@);
        }
        return Err(BridgeError::InsufficientFunds);
    }
    let owe = paid + fee as u128;
    if have < owe {
        Err(BridgeError::InsufficientFunds)
    } else if have == owe {
        Err(BridgeError::ZeroValueOutput)
    } else if have - owe > u64::MAX as u128 {
        Err(BridgeError::AmountOverflow)
    } else {
        Ok((have - owe) as u64)
    }
}

/// The total of a single output is its amount.
pub proof fn lemma_total_value_single(outs: Seq<(u64, Seq<u8>)>)
    requires
        outs.len() == 1,
    ensures
        total_value(outs) == outs[0].0,
{
    assert(outs.drop_last() =~= Seq::<(u64, Seq<u8>)>::empty());
    reveal_with_fuel(total_value, 2);
}

/// One input and no other output: what the inputs hold is that input's
/// amount, and nothing else is owed but the fee.
pub proof fn lemma_single_input(amount: u64, outputs: Seq<TxOutputView>)
    requires
        outputs.len() == 0,
    ensures
        total_amount(seq![amount]) == amount,
        total_value(outputs) == 0,
{
    assert(seq![amount].drop_last() =~= Seq::<u64>::empty());
    reveal_with_fuel(total_amount, 2);
}

} // verus!
