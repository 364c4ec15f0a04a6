//! Recursive-length-prefix encoding: the canonical length-prefixed byte
//! format used for Ethereum transaction envelopes.
//!
//! A byte string of length one whose byte is below `0x80` encodes as itself;
//! a string of at most 55 bytes gets the prefix `0x80 + len`; a longer string
//! gets `0xb7 + len_of_len` followed by the big-endian length. Lists wrap
//! their concatenated item encodings the same way with `0xc0`/`0xf7`.
//! Unsigned integers encode as their minimal big-endian bytes (zero as the
//! empty string).

use vstd::prelude::*;
use vstd::arithmetic::div_mod::{lemma_div_decreases, lemma_multiply_divide_lt};

verus! {

/// Minimal big-endian byte representation of `n`; empty for zero.
pub open spec fn be_bytes(n: nat) -> Seq<u8>
    decreases n,
{
    if n == 0 {
        seq![]
    } else {
        be_bytes(n / 256) + seq![(n % 256) as u8]
    }
}

/// `256^k`, the bound under which `n` fits in `k` big-endian bytes.
pub open spec fn pow256(k: nat) -> nat
    decreases k,
{
    if k == 0 {
        1nat
    } else {
        256 * pow256((k - 1) as nat)
    }
}

/// A value below `256^k` needs at most `k` big-endian bytes.
pub proof fn lemma_be_bytes_len(n: nat, k: nat)
    requires
        n < pow256(k),
    ensures
        be_bytes(n).len() <= k,
    decreases k,
{
    if k == 0 {
    } else if n == 0 {
    } else {
        lemma_multiply_divide_lt(n as int, 256, pow256((k - 1) as nat) as int);
        lemma_be_bytes_len(n / 256, (k - 1) as nat);
    }
}

/// RLP encoding of a byte string.
pub open spec fn rlp_str(payload: Seq<u8>) -> Seq<u8> {
    if payload.len() == 1 && payload[0] < 0x80 {
        payload
    } else if payload.len() <= 55 {
        seq![(0x80 + payload.len()) as u8] + payload
    } else {
        seq![(0xb7 + be_bytes(payload.len()).len()) as u8] + be_bytes(payload.len()) + payload
    }
}

/// RLP encoding of a list whose items concatenate to `payload`.
pub open spec fn rlp_list(payload: Seq<u8>) -> Seq<u8> {
    if payload.len() <= 55 {
        seq![(0xc0 + payload.len()) as u8] + payload
    } else {
        seq![(0xf7 + be_bytes(payload.len()).len()) as u8] + be_bytes(payload.len()) + payload
    }
}

/// RLP encoding of an unsigned integer: its minimal big-endian bytes as a
/// string.
pub open spec fn rlp_uint(n: nat) -> Seq<u8> {
    rlp_str(be_bytes(n))
}

/// Appends every byte of `s` to `out`.
pub fn push_all(out: &mut Vec<u8>, s: &[u8])
    ensures
        final(out)@ == old(out)@ + s@,
{
    let mut i: usize = 0;
    while i < s.len()
        invariant
            i <= s@.len(),
            out@ == old(out)@ + s@.take(i as int),
        decreases s@.len() - i,
    {
        out.push(s[i]);
        i = i + 1;
        assert(out@ =~= old(out)@ + s@.take(i as int));
    }
    assert(s@.take(s@.len() as int) =~= s@);
}

/// Minimal big-endian bytes of `n`.
pub fn be_bytes_u128(n: u128) -> (r: Vec<u8>)
    ensures
        r@ == be_bytes(n as nat),
    decreases n,
{
    if n == 0 {
        Vec::new()
    } else {
        proof {
            lemma_div_decreases(n as int, 256);
        }
        let mut r = be_bytes_u128(n / 256);
        r.push((n % 256) as u8);
        assert(r@ =~= be_bytes(n as nat));
        r
    }
}

/// At most eight big-endian bytes suffice for a `usize` length.
proof fn lemma_usize_len_bytes(len: usize)
    ensures
        1 <= be_bytes(len as nat).len() <= 8 || len == 0,
{
    reveal_with_fuel(pow256, 9);
    assert(pow256(8) == 0x1_0000_0000_0000_0000nat);
    lemma_be_bytes_len(len as nat, 8);
}

/// Appends the RLP encoding of the byte string `payload` to `out`.
pub fn rlp_append_bytes(out: &mut Vec<u8>, payload: &[u8])
    ensures
        final(out)@ == old(out)@ + rlp_str(payload@),
{
    if payload.len() == 1 && payload[0] < 0x80 {
        out.push(payload[0]);
        assert(out@ =~= old(out)@ + rlp_str(payload@));
    } else if payload.len() <= 55 {
        out.push(0x80u8 + payload.len() as u8);
        push_all(out, payload);
        assert(out@ =~= old(out)@ + rlp_str(payload@));
    } else {
        proof {
            lemma_usize_len_bytes(payload.len());
        }
        let lenb = be_bytes_u128(payload.len() as u128);
        out.push(0xb7u8 + lenb.len() as u8);
        push_all(out, lenb.as_slice());
        push_all(out, payload);
        assert(out@ =~= old(out)@ + rlp_str(payload@));
    }
}

/// Appends the RLP encoding of the unsigned integer `n` to `out`.
pub fn rlp_append_uint(out: &mut Vec<u8>, n: u128)
    ensures
        final(out)@ == old(out)@ + rlp_uint(n as nat),
{
    let b = be_bytes_u128(n);
    proof {
        reveal_with_fuel(pow256, 17);
        assert(pow256(16) == 0x1_0000_0000_0000_0000_0000_0000_0000_0000nat);
        lemma_be_bytes_len(n as nat, 16);
    }
    rlp_append_bytes(out, b.as_slice());
}

/// Wraps the concatenated item encodings `payload` into an RLP list.
pub fn rlp_wrap_list(payload: &[u8]) -> (r: Vec<u8>)
    ensures
        r@ == rlp_list(payload@),
{
    let mut out: Vec<u8> = Vec::new();
    if payload.len() <= 55 {
        out.push(0xc0u8 + payload.len() as u8);
        push_all(&mut out, payload);
        assert(out@ =~= rlp_list(payload@));
    } else {
        proof {
            lemma_usize_len_bytes(payload.len());
        }
        let lenb = be_bytes_u128(payload.len() as u128);
        out.push(0xf7u8 + lenb.len() as u8);
        push_all(&mut out, lenb.as_slice());
        push_all(&mut out, payload);
        assert(out@ =~= rlp_list(payload@));
    }
    out
}

} // verus!
