//! Parsing of the string forms the service receives: hex-encoded addresses
//! and transaction hashes, and decimal-encoded integers.

use vstd::prelude::*;
use vstd::arithmetic::div_mod::lemma_fundamental_div_mod;
use vstd::arithmetic::mul::{lemma_mul_inequality, lemma_mul_is_commutative};
use vstd::string::StringSliceAdditionalSpecFns;

verus! {

/// Whether `b` is an ASCII hex digit (either case).
pub open spec fn is_hex_digit(b: u8) -> bool {
    (0x30 <= b <= 0x39) || (0x41 <= b <= 0x46) || (0x61 <= b <= 0x66)
}

/// The value of an ASCII hex digit; zero for other bytes.
pub open spec fn hex_digit_val(b: u8) -> nat {
    if 0x30 <= b <= 0x39 {
        (b - 0x30) as nat
    } else if 0x41 <= b <= 0x46 {
        (b - 0x41 + 10) as nat
    } else if 0x61 <= b <= 0x66 {
        (b - 0x61 + 10) as nat
    } else {
        0
    }
}

/// Whether every byte of `s` is an ASCII hex digit.
pub open spec fn all_hex_digits(s: Seq<u8>) -> bool {
    forall|i: int| 0 <= i < s.len() ==> is_hex_digit(#[trigger] s[i])
}

/// The bytes an even-length hex string spells, one byte per digit pair,
/// high nibble first.
pub open spec fn spec_hex_decode(s: Seq<u8>) -> Seq<u8>
    decreases s.len(),
{
    if s.len() < 2 {
        seq![]
    } else {
        seq![(hex_digit_val(s[0]) * 16 + hex_digit_val(s[1])) as u8] + spec_hex_decode(s.skip(2))
    }
}

/// Decoding an even-length hex string halves its length.
pub proof fn lemma_hex_decode_len(s: Seq<u8>)
    requires
        s.len() % 2 == 0,
    ensures
        spec_hex_decode(s).len() == s.len() / 2,
    decreases s.len(),
{
    if s.len() >= 2 {
        lemma_hex_decode_len(s.skip(2));
    }
}

/// Relies on hex::decode: it succeeds exactly on even-length input made of
/// ASCII hex digits, producing one byte per digit pair, high nibble first.
#[verifier::external_body]
pub(crate) fn hex_decode(s: &[u8]) -> (r: Option<Vec<u8>>)
    ensures
        r is Some <==> (s@.len() % 2 == 0 && all_hex_digits(s@)),
        r matches Some(v) ==> v@ == spec_hex_decode(s@),
{
    hex::decode(s).ok()
}

/// `b` without a leading `0x`, when it has one.
pub open spec fn spec_strip_0x(b: Seq<u8>) -> Seq<u8> {
    if b.len() >= 2 && b[0] == 0x30 && b[1] == 0x78 {
        b.skip(2)
    } else {
        b
    }
}

/// Parses a 20-byte account address written as 40 hex digits, with an
/// optional `0x` prefix.
pub fn parse_address(s: &str) -> (r: Option<Vec<u8>>)
    ensures
        r is Some <==> (spec_strip_0x(s.spec_bytes()).len() == 40 && all_hex_digits(
            spec_strip_0x(s.spec_bytes()),
        )),
        r matches Some(v) ==> v@ == spec_hex_decode(spec_strip_0x(s.spec_bytes())) && v@.len()
            == 20,
{
    let b = s.as_bytes();
    let stripped: &[u8] = if b.len() >= 2 && b[0] == 0x30 && b[1] == 0x78 {
        vstd::slice::slice_subrange(b, 2, b.len())
    } else {
        b
    };
    if stripped.len() != 40 {
        return None;
    }
    let r = hex_decode(stripped);
    proof {
        if r is Some {
            lemma_hex_decode_len(stripped@);
        }
    }
    r
}

/// Whether the bytes spell a `0x`-prefixed 32-byte transaction hash:
/// `0x` followed by 64 hex digits.
pub open spec fn spec_valid_tx_hash(b: Seq<u8>) -> bool {
    b.len() == 66 && b[0] == 0x30 && b[1] == 0x78 && all_hex_digits(b.skip(2))
}

/// Parses a `0x`-prefixed 32-byte transaction hash.
pub fn parse_tx_hash(s: &str) -> (r: Option<Vec<u8>>)
    ensures
        r is Some <==> spec_valid_tx_hash(s.spec_bytes()),
        r matches Some(v) ==> v@ == spec_hex_decode(s.spec_bytes().skip(2)) && v@.len() == 32,
{
    let b = s.as_bytes();
    if b.len() != 66 {
        return None;
    }
    if !(b[0] == 0x30 && b[1] == 0x78) {
        return None;
    }
    let digits = vstd::slice::slice_subrange(b, 2, b.len());
    let r = hex_decode(digits);
    proof {
        if r is Some {
            lemma_hex_decode_len(digits@);
        }
    }
    r
}

/// Whether `b` is an ASCII decimal digit.
pub open spec fn is_dec_digit(b: u8) -> bool {
    0x30 <= b <= 0x39
}

/// The value of an ASCII decimal digit; zero for other bytes.
pub open spec fn dec_digit_val(b: u8) -> nat {
    if is_dec_digit(b) {
        (b - 0x30) as nat
    } else {
        0
    }
}

/// Whether every byte of `s` is an ASCII decimal digit.
pub open spec fn all_dec_digits(s: Seq<u8>) -> bool {
    forall|i: int| 0 <= i < s.len() ==> is_dec_digit(#[trigger] s[i])
}

/// The number a decimal string spells.
pub open spec fn dec_val(s: Seq<u8>) -> nat
    decreases s.len(),
{
    if s.len() == 0 {
        0
    } else {
        dec_val(s.drop_last()) * 10 + dec_digit_val(s.last())
    }
}

/// The value of a prefix never exceeds the value of the whole string.
proof fn lemma_dec_val_prefix_le(s: Seq<u8>, i: int)
    requires
        0 <= i <= s.len(),
    ensures
        dec_val(s.take(i)) <= dec_val(s),
    decreases s.len() - i,
{
    if i == s.len() {
        assert(s.take(i) =~= s);
    } else {
        assert(s.take(i + 1).drop_last() =~= s.take(i));
        assert(dec_val(s.take(i + 1)) == dec_val(s.take(i)) * 10 + dec_digit_val(s[i]));
        assert(dec_val(s.take(i)) * 10 >= dec_val(s.take(i)));
        lemma_dec_val_prefix_le(s, i + 1);
    }
}

/// Parses an unsigned decimal integer that fits in 128 bits. Succeeds
/// exactly on a non-empty all-digit string whose value fits.
pub fn parse_dec_u128(s: &str) -> (r: Option<u128>)
    ensures
        r is Some <==> (s.spec_bytes().len() > 0 && all_dec_digits(s.spec_bytes()) && dec_val(
            s.spec_bytes(),
        ) <= u128::MAX),
        r matches Some(v) ==> v as nat == dec_val(s.spec_bytes()),
{
    let b = s.as_bytes();
    if b.len() == 0 {
        return None;
    }
    let ghost sq = b@;
    let mut acc: u128 = 0;
    let mut i: usize = 0;
    while i < b.len()
        invariant
            i <= sq.len(),
            sq == b@,
            sq == s.spec_bytes(),
            sq.len() > 0,
            acc as nat == dec_val(sq.take(i as int)),
            all_dec_digits(sq.take(i as int)),
        decreases sq.len() - i,
    {
        let c = b[i];
        if !(0x30 <= c && c <= 0x39) {
            assert(!is_dec_digit(sq[i as int]));
            assert(!all_dec_digits(s.spec_bytes()));
            return None;
        }
        let d = (c - 0x30) as u128;
        let limit = (u128::MAX - d) / 10;
        proof {
            assert(sq.take(i + 1).drop_last() =~= sq.take(i as int));
            assert(sq.take(i + 1).last() == sq[i as int]);
            lemma_fundamental_div_mod(u128::MAX as int - d as int, 10);
            assert(dec_val(sq.take(i + 1)) == (acc as nat) * 10 + (d as nat));
        }
        if acc > limit {
            proof {
                // acc >= limit + 1, so acc * 10 + d exceeds u128::MAX.
                lemma_mul_inequality(limit as int + 1, acc as int, 10);
                assert((acc as nat) * 10 + (d as nat) > u128::MAX);
                lemma_dec_val_prefix_le(sq, i + 1);
                assert(dec_val(s.spec_bytes()) > u128::MAX);
            }
            return None;
        }
        proof {
            lemma_mul_inequality(acc as int, limit as int, 10);
            assert((acc as nat) * 10 + (d as nat) <= u128::MAX);
        }
        acc = acc * 10 + d;
        i = i + 1;
    }
    proof {
        assert(sq.take(i as int) =~= sq);
    }
    Some(acc)
}

/// Byte-sequence equality.
pub fn bytes_eq(a: &[u8], b: &[u8]) -> (r: bool)
    ensures
        r <==> a@ == b@,
{
    if a.len() != b.len() {
        return false;
    }
    let mut i: usize = 0;
    while i < a.len()
        invariant
            i <= a@.len(),
            a@.len() == b@.len(),
            forall|j: int| 0 <= j < i ==> a@[j] == b@[j],
        decreases a@.len() - i,
    {
        if a[i] != b[i] {
            assert(a@[i as int] != b@[i as int]);
            return false;
        }
        i = i + 1;
    }
    assert(a@ =~= b@);
    true
}

/// The number a byte sequence spells in big-endian.
pub open spec fn be_val(b: Seq<u8>) -> nat
    decreases b.len(),
{
    if b.len() == 0 {
        0
    } else {
        be_val(b.drop_last()) * 256 + (b.last() as nat)
    }
}

/// A big-endian value is bounded by `256^len`.
pub proof fn lemma_be_val_bound(b: Seq<u8>)
    ensures
        be_val(b) < crate::rlp::pow256(b.len()),
    decreases b.len(),
{
    if b.len() == 0 {
    } else {
        lemma_be_val_bound(b.drop_last());
        let p = crate::rlp::pow256((b.len() - 1) as nat);
        lemma_mul_inequality(be_val(b.drop_last()) as int + 1, p as int, 256);
    }
}

/// Concatenation splits a big-endian value at a power of 256.
pub proof fn lemma_be_val_append(a: Seq<u8>, b: Seq<u8>)
    ensures
        be_val(a + b) == be_val(a) * crate::rlp::pow256(b.len()) + be_val(b),
    decreases b.len(),
{
    if b.len() == 0 {
        assert(a + b =~= a);
        assert(be_val(a) * 1 == be_val(a)) by (nonlinear_arith);
    } else {
        assert((a + b).drop_last() =~= a + b.drop_last());
        lemma_be_val_append(a, b.drop_last());
        let p1 = crate::rlp::pow256((b.len() - 1) as nat);
        assert((be_val(a) * p1 + be_val(b.drop_last())) * 256 == be_val(a) * (p1 * 256)
            + be_val(b.drop_last()) * 256) by (nonlinear_arith);
        assert(p1 * 256 == crate::rlp::pow256(b.len())) by {
            assert(crate::rlp::pow256(b.len()) == 256 * p1);
            lemma_mul_is_commutative(p1 as int, 256);
        }
    }
}

/// The number up to 16 big-endian bytes spell.
pub fn be_val_u128(b: &[u8]) -> (r: u128)
    requires
        b@.len() <= 16,
    ensures
        r as nat == be_val(b@),
{
    let ghost sq = b@;
    let mut acc: u128 = 0;
    let mut i: usize = 0;
    while i < b.len()
        invariant
            sq == b@,
            sq.len() <= 16,
            i <= sq.len(),
            acc as nat == be_val(sq.take(i as int)),
        decreases sq.len() - i,
    {
        proof {
            lemma_be_val_bound(sq.take(i as int));
            lemma_pow256_le_16(i as nat);
            assert(acc as nat <= crate::rlp::pow256(i as nat) - 1);
            lemma_mul_inequality(acc as int, crate::rlp::pow256(i as nat) as int - 1, 256);
            assert(sq.take(i + 1).drop_last() =~= sq.take(i as int));
            assert(sq.take(i + 1).last() == sq[i as int]);
        }
        acc = acc * 256 + (b[i] as u128);
        i = i + 1;
    }
    proof {
        assert(sq.take(sq.len() as int) =~= sq);
    }
    acc
}

/// The sixteenth power of 256 is one past the largest 128-bit value.
pub proof fn lemma_pow256_16_value()
    ensures
        crate::rlp::pow256(16) == 0x1_0000_0000_0000_0000_0000_0000_0000_0000nat,
{
    reveal_with_fuel(crate::rlp::pow256, 17);
}

/// Powers of 256 up to the sixteenth stay within 128 bits.
proof fn lemma_pow256_le_16(e: nat)
    requires
        e <= 15,
    ensures
        crate::rlp::pow256(e + 1) <= 0x1_0000_0000_0000_0000_0000_0000_0000_0000nat,
    decreases e,
{
    reveal_with_fuel(crate::rlp::pow256, 17);
    assert(crate::rlp::pow256(16) == 0x1_0000_0000_0000_0000_0000_0000_0000_0000nat);
    lemma_pow256_monotone(e + 1, 16);
}

/// Powers of 256 are monotone in the exponent.
proof fn lemma_pow256_monotone(a: nat, b: nat)
    requires
        a <= b,
    ensures
        crate::rlp::pow256(a) <= crate::rlp::pow256(b),
    decreases b,
{
    if a < b {
        lemma_pow256_monotone(a, (b - 1) as nat);
        lemma_pow256_pos((b - 1) as nat);
    }
}

/// Powers of 256 are positive.
proof fn lemma_pow256_pos(e: nat)
    ensures
        crate::rlp::pow256(e) >= 1,
    decreases e,
{
    if e > 0 {
        lemma_pow256_pos((e - 1) as nat);
    }
}

/// Parses an unsigned decimal integer that fits in 64 bits.
pub fn parse_dec_u64(s: &str) -> (r: Option<u64>)
    ensures
        r is Some <==> (s.spec_bytes().len() > 0 && all_dec_digits(s.spec_bytes()) && dec_val(
            s.spec_bytes(),
        ) <= u64::MAX),
        r matches Some(v) ==> v as nat == dec_val(s.spec_bytes()),
{
    match parse_dec_u128(s) {
        Some(v) => if v <= u64::MAX as u128 {
            Some(v as u64)
        } else {
            None
        },
        None => None,
    }
}

} // verus!
