//! How large the cipher's scratch buffer must be, and how its result is cut
//! back to the length of the data.
//!
//! The cipher writes whole blocks and asks for room up to the next block
//! boundary above the input plus one more block. None of that room is output:
//! counter mode yields exactly as many bytes as it was given.
use vstd::prelude::*;

verus! {

/// The number of blocks of `block` bytes that cover `len` bytes.
pub open spec fn block_count(len: nat, block: nat) -> nat {
    if block == 0 {
        0
    } else {
        ((len + block - 1) / (block as int)) as nat
    }
}

/// The scratch length for `len` bytes of input: the covering blocks, and one
/// block of headroom.
pub open spec fn padded(len: nat, block: nat) -> nat {
    block_count(len, block) * block + block
}

/// `len` zero bytes.
pub open spec fn zeros(len: nat) -> Seq<u8> {
    Seq::new(len, |i: int| 0u8)
}

/// `buf` cut or zero-extended to exactly `len` bytes.
pub open spec fn fit(buf: Seq<u8>, len: nat) -> Seq<u8> {
    Seq::new(
        len,
        |i: int|
            if i < buf.len() {
                buf[i]
            } else {
                0u8
            },
    )
}

/// The covering blocks hold the data and waste less than one block.
pub proof fn lemma_block_count_covers(len: nat, block: nat)
    requires
        block > 0,
    ensures
        len <= block_count(len, block) * block < len + block,
{
    let l = len as int;
    let b = block as int;
    let q = (l + b - 1) / b;
    let r = (l + b - 1) % b;
    assert(l + b - 1 == q * b + r && 0 <= r < b && q >= 0) by (nonlinear_arith)
        requires
            b > 0,
            l >= 0,
            q == (l + b - 1) / b,
            r == (l + b - 1) % b,
    ;
}

/// The scratch length leaves the cipher a full block beyond the data, is a
/// whole number of blocks, and is the least such length.
pub proof fn lemma_padded_bounds(len: nat, block: nat)
    requires
        block > 0,
    ensures
        len + block <= padded(len, block) < len + 2 * block,
        padded(len, block) as int % block as int == 0,
        padded(len, block) == (len + 2 * block - 1) / (block as int) * block,
{
    lemma_block_count_covers(len, block);
    let l = len as int;
    let b = block as int;
    let q = (l + b - 1) / b;
    vstd::arithmetic::div_mod::lemma_div_plus_one(l + b - 1, b);
    vstd::arithmetic::div_mod::lemma_mod_multiples_basic(q + 1, b);
    assert((q + 1) * b == q * b + b) by (nonlinear_arith);
}

/// Cutting a buffer that is long enough keeps its first `len` bytes.
pub proof fn lemma_fit_is_prefix(buf: Seq<u8>, len: nat)
    requires
        len <= buf.len(),
    ensures
        fit(buf, len) == buf.subrange(0, len as int),
{
    assert(fit(buf, len) =~= buf.subrange(0, len as int));
}

/// The length of the scratch buffer for `input_len` bytes of input and blocks
/// of `block_len` bytes, or `None` where there is no such length: with blocks
/// of no bytes, or beyond what `usize` holds.
pub fn padded_len(input_len: usize, block_len: usize) -> (r: Option<usize>)
    ensures
        r is Some <==> block_len > 0 && padded(input_len as nat, block_len as nat) <= usize::MAX,
        r matches Some(n) ==> n == padded(input_len as nat, block_len as nat),
{
    if block_len == 0 {
        return None;
    }
    proof {
        lemma_block_count_covers(input_len as nat, block_len as nat);
    }
    match input_len.checked_add(block_len - 1) {
        None => None,
        Some(reach) => {
            let covering: usize = reach / block_len * block_len;
            covering.checked_add(block_len)
        },
    }
}

/// A buffer of `len` zero bytes.
pub fn zeroed(len: usize) -> (v: Vec<u8>)
    ensures
        v@ == zeros(len as nat),
{
    let v = vec![0u8; len];
    assert(v@ =~= zeros(len as nat));
    v
}

/// Cuts or zero-extends `buf` to exactly `len` bytes.
pub fn fit_to(buf: Vec<u8>, len: usize) -> (out: Vec<u8>)
    ensures
        out@ == fit(buf@, len as nat),
        out@.len() == len,
{
    let mut out = buf;
    out.resize(len, 0u8);
    assert(out@ =~= fit(buf@, len as nat));
    out
}

} // verus!
