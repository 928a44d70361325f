//! Byte-level script templates: data pushes, the leaf scripts of the
//! connectors and the standard locking scripts.
use vstd::prelude::*;

verus! {

pub const OP_0: u8 = 0x00;

pub const OP_PUSHDATA1: u8 = 0x4c;

pub const OP_1: u8 = 0x51;

pub const OP_DROP: u8 = 0x75;

pub const OP_CHECKSIG: u8 = 0xac;

pub const OP_CHECKSIGVERIFY: u8 = 0xad;

/// The largest element that a single push in these templates carries.
pub const MAX_PUSH_LEN: usize = 255;

/// The minimal push of `data` onto the script stack.
pub open spec fn push_spec(data: Seq<u8>) -> Seq<u8> {
    if data.len() < 76 {
        seq![data.len() as u8] + data
    } else {
        seq![OP_PUSHDATA1, data.len() as u8] + data
    }
}

/// Appends the bytes of `data` to `out`.
pub fn append_bytes(out: &mut Vec<u8>, data: &[u8])
    ensures
        final(out)@ == old(out)@ + data@,
{
    let ghost start = out@;
    let mut i: usize = 0;
    while i < data.len()
        invariant
            i <= data@.len(),
            out@ == start + data@.subrange(0, i as int),
        decreases data@.len() - i,
    {
        out.push(data[i]);
        i = i + 1;
        assert(out@ =~= start + data@.subrange(0, i as int));
    }
    assert(data@.subrange(0, data@.len() as int) =~= data@);
}

/// Appends the minimal push of `data` to `out`.
pub fn append_push(out: &mut Vec<u8>, data: &[u8])
    requires
        data@.len() <= MAX_PUSH_LEN,
    ensures
        final(out)@ == old(out)@ + push_spec(data@),
{
    let ghost start = out@;
    let n = data.len();
    if n < 76 {
        out.push(n as u8);
    } else {
        out.push(OP_PUSHDATA1);
        out.push(n as u8);
    }
    append_bytes(out, data);
    assert(out@ =~= start + push_spec(data@));
}

/// A leaf that one key alone can spend, after dropping the committed data:
/// `<commitment> OP_DROP <key> OP_CHECKSIG`.
pub open spec fn single_sig_leaf_spec(commitment: Seq<u8>, key: Seq<u8>) -> Seq<u8> {
    push_spec(commitment) + seq![OP_DROP] + push_spec(key) + seq![OP_CHECKSIG]
}

/// A leaf that needs two keys, after dropping the committed data:
/// `<commitment> OP_DROP <first> OP_CHECKSIGVERIFY <second> OP_CHECKSIG`.
/// `first` is checked first, so its signature lies on top of the stack.
pub open spec fn double_sig_leaf_spec(commitment: Seq<u8>, first: Seq<u8>, second: Seq<u8>) -> Seq<u8> {
    push_spec(commitment) + seq![OP_DROP] + push_spec(first) + seq![OP_CHECKSIGVERIFY] + push_spec(
        second,
    ) + seq![OP_CHECKSIG]
}

/// `<key> OP_CHECKSIG`.
pub open spec fn pay_to_pubkey_spec(key: Seq<u8>) -> Seq<u8> {
    push_spec(key) + seq![OP_CHECKSIG]
}

/// The segwit v1 locking script of a tweaked output key.
pub open spec fn p2tr_spec(output_key: Seq<u8>) -> Seq<u8> {
    seq![OP_1] + push_spec(output_key)
}

/// The segwit v0 locking script of a script hash.
pub open spec fn p2wsh_spec(script_hash: Seq<u8>) -> Seq<u8> {
    seq![OP_0] + push_spec(script_hash)
}

pub fn single_sig_leaf(commitment: &[u8], key: &[u8]) -> (r: Vec<u8>)
    requires
        commitment@.len() <= MAX_PUSH_LEN,
        key@.len() <= MAX_PUSH_LEN,
    ensures
        r@ == single_sig_leaf_spec(commitment@, key@),
{
    let mut r: Vec<u8> = Vec::new();
    append_push(&mut r, commitment);
    r.push(OP_DROP);
    append_push(&mut r, key);
    r.push(OP_CHECKSIG);
    assert(r@ =~= single_sig_leaf_spec(commitment@, key@));
    r
}

pub fn double_sig_leaf(commitment: &[u8], first: &[u8], second: &[u8]) -> (r: Vec<u8>)
    requires
        commitment@.len() <= MAX_PUSH_LEN,
        first@.len() <= MAX_PUSH_LEN,
        second@.len() <= MAX_PUSH_LEN,
    ensures
        r@ == double_sig_leaf_spec(commitment@, first@, second@),
{
    let mut r: Vec<u8> = Vec::new();
    append_push(&mut r, commitment);
    r.push(OP_DROP);
    append_push(&mut r, first);
    r.push(OP_CHECKSIGVERIFY);
    append_push(&mut r, second);
    r.push(OP_CHECKSIG);
    assert(r@ =~= double_sig_leaf_spec(commitment@, first@, second@));
    r
}

pub fn pay_to_pubkey(key: &[u8]) -> (r: Vec<u8>)
    requires
        key@.len() <= MAX_PUSH_LEN,
    ensures
        r@ == pay_to_pubkey_spec(key@),
{
    let mut r: Vec<u8> = Vec::new();
    append_push(&mut r, key);
    r.push(OP_CHECKSIG);
    assert(r@ =~= pay_to_pubkey_spec(key@));
    r
}

pub fn p2tr(output_key: &[u8]) -> (r: Vec<u8>)
    requires
        output_key@.len() <= MAX_PUSH_LEN,
    ensures
        r@ == p2tr_spec(output_key@),
{
    let mut r: Vec<u8> = Vec::new();
    r.push(OP_1);
    append_push(&mut r, output_key);
    assert(r@ =~= p2tr_spec(output_key@));
    r
}

pub fn p2wsh(script_hash: &[u8]) -> (r: Vec<u8>)
    requires
        script_hash@.len() <= MAX_PUSH_LEN,
    ensures
        r@ == p2wsh_spec(script_hash@),
{
    let mut r: Vec<u8> = Vec::new();
    r.push(OP_0);
    append_push(&mut r, script_hash);
    assert(r@ =~= p2wsh_spec(script_hash@));
    r
}

} // verus!
