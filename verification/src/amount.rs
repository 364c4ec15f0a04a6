//! The fee/amount engine: exact decimal amounts and their conversion to
//! on-chain integer base units.
//!
//! A human-denominated amount is the exact rational
//! `mantissa / 10^scale`. Converting to base units of a token with `d`
//! decimals yields `floor(mantissa * 10^d / 10^scale)` — rounding toward
//! zero — and fails when the result exceeds 128 bits. The bridge fee is the
//! destination network's rate times the amount, formed exactly by
//! multiplying mantissas and adding scales.

use vstd::prelude::*;
use vstd::arithmetic::div_mod::{
    lemma_basic_div, lemma_div_denominator, lemma_div_multiples_vanish,
};
use vstd::arithmetic::mul::{
    lemma_mul_inequality, lemma_mul_is_associative, lemma_mul_is_commutative,
};
use crate::error::BridgeError;

verus! {

/// An exact decimal amount: the rational `mantissa / 10^scale`.
#[derive(Clone, Copy, Debug, PartialEq, Eq, Structural)]
pub struct Amount {
    pub mantissa: u128,
    pub scale: u32,
}

/// `10^e`.
pub open spec fn pow10(e: nat) -> nat
    decreases e,
{
    if e == 0 {
        1nat
    } else {
        10 * pow10((e - 1) as nat)
    }
}

impl Amount {
    /// The base units this amount converts to under `decimals` token
    /// decimals: `floor(mantissa * 10^decimals / 10^scale)`.
    pub open spec fn spec_base_units(self, decimals: nat) -> nat {
        ((self.mantissa as nat) * pow10(decimals)) / pow10(self.scale as nat)
    }
}

/// Powers of ten are positive.
pub proof fn lemma_pow10_pos(e: nat)
    ensures
        pow10(e) >= 1,
    decreases e,
{
    if e > 0 {
        lemma_pow10_pos((e - 1) as nat);
    }
}

/// Powers of ten multiply by adding exponents.
pub proof fn lemma_pow10_add(a: nat, b: nat)
    ensures
        pow10(a + b) == pow10(a) * pow10(b),
    decreases a,
{
    if a == 0 {
        assert(pow10(a) == 1);
        assert(pow10(a + b) == pow10(b));
        assert(1 * pow10(b) == pow10(b)) by (nonlinear_arith);
    } else {
        let a1 = (a - 1) as nat;
        lemma_pow10_add(a1, b);
        assert(a + b - 1 == a1 + b);
        assert(pow10(a + b) == 10 * pow10(a1 + b));
        assert(pow10(a1 + b) == pow10(a1) * pow10(b));
        lemma_mul_is_associative(10, pow10(a1) as int, pow10(b) as int);
        assert(10 * (pow10(a1) * pow10(b)) == (10 * pow10(a1)) * pow10(b));
        assert(pow10(a) == 10 * pow10(a1));
    }
}

/// Powers of ten are monotone in the exponent.
pub proof fn lemma_pow10_monotone(a: nat, b: nat)
    requires
        a <= b,
    ensures
        pow10(a) <= pow10(b),
    decreases b,
{
    if a < b {
        lemma_pow10_monotone(a, (b - 1) as nat);
        lemma_pow10_pos((b - 1) as nat);
    }
}

/// `10^38` fits in 128 bits and `10^39` does not.
proof fn lemma_pow10_u128_bounds()
    ensures
        pow10(38) == 0x4B3B4CA85A86C47A_098A224000000000nat,
        pow10(39) > u128::MAX,
{
    reveal_with_fuel(pow10, 40);
    assert(pow10(38) == 0x4B3B4CA85A86C47A_098A224000000000nat);
    assert(pow10(39) == 10 * pow10(38));
}

/// `10^e` when it fits in 128 bits, `None` when it does not.
pub fn pow10_u128(e: u32) -> (r: Option<u128>)
    ensures
        r matches Some(v) ==> v as nat == pow10(e as nat),
        r is None <==> pow10(e as nat) > u128::MAX,
{
    proof {
        lemma_pow10_u128_bounds();
    }
    if e >= 39 {
        proof {
            lemma_pow10_monotone(39, e as nat);
        }
        return None;
    }
    let mut acc: u128 = 1;
    let mut i: u32 = 0;
    while i < e
        invariant
            i <= e,
            e <= 38,
            acc as nat == pow10(i as nat),
        decreases e - i,
    {
        proof {
            lemma_pow10_u128_bounds();
            lemma_pow10_monotone(i as nat + 1, 38);
        }
        acc = acc * 10;
        i = i + 1;
    }
    proof {
        lemma_pow10_monotone(e as nat, 38);
    }
    Some(acc)
}

/// Conversion with the target decimals at least the scale is an exact
/// multiplication: `floor((m / 10^s) * 10^d) == m * 10^(d - s)`.
pub proof fn lemma_base_units_exact(m: nat, s: nat, d: nat)
    requires
        s <= d,
    ensures
        (m * pow10(d)) / pow10(s) == m * pow10((d - s) as nat),
{
    let e = (d - s) as nat;
    lemma_pow10_add(s, e);
    lemma_pow10_pos(s);
    assert(m * (pow10(s) * pow10(e)) == pow10(s) * (m * pow10(e))) by {
        lemma_mul_is_associative(m as int, pow10(s) as int, pow10(e) as int);
        lemma_mul_is_commutative(m as int, pow10(s) as int);
        lemma_mul_is_associative(pow10(s) as int, m as int, pow10(e) as int);
    }
    lemma_div_multiples_vanish((m * pow10(e)) as int, pow10(s) as int);
}

/// Conversion with the target decimals below the scale divides the
/// mantissa: `floor((m / 10^s) * 10^d) == floor(m / 10^(s - d))`.
pub proof fn lemma_base_units_shrink(m: nat, s: nat, d: nat)
    requires
        d < s,
    ensures
        (m * pow10(d)) / pow10(s) == m / pow10((s - d) as nat),
{
    let e = (s - d) as nat;
    lemma_pow10_add(d, e);
    lemma_pow10_pos(d);
    lemma_pow10_pos(e);
    lemma_div_denominator((m * pow10(d)) as int, pow10(d) as int, pow10(e) as int);
    assert(m * pow10(d) == pow10(d) * m) by {
        lemma_mul_is_commutative(m as int, pow10(d) as int);
    }
    lemma_div_multiples_vanish(m as int, pow10(d) as int);
    assert(pow10(d) * pow10(e) == pow10(d + e));
}

/// Converts an amount to integer base units under `decimals` token
/// decimals, rounding toward zero. Fails exactly when the result exceeds
/// 128 bits.
pub fn to_base_units(amount: Amount, decimals: u32) -> (r: Result<u128, BridgeError>)
    ensures
        r matches Ok(v) ==> v as nat == amount.spec_base_units(decimals as nat),
        r is Ok <==> amount.spec_base_units(decimals as nat) <= u128::MAX,
        r matches Err(e) ==> e == BridgeError::AmountOverflow,
{
    let m = amount.mantissa;
    let s = amount.scale;
    if decimals >= s {
        let d = decimals - s;
        proof {
            lemma_base_units_exact(m as nat, s as nat, decimals as nat);
        }
        match pow10_u128(d) {
            Some(p) => {
                match m.checked_mul(p) {
                    Some(v) => Ok(v),
                    None => Err(BridgeError::AmountOverflow),
                }
            },
            None => {
                if m == 0 {
                    Ok(0)
                } else {
                    proof {
                        // A positive mantissa times an overflowing power of
                        // ten exceeds the representable range.
                        lemma_mul_inequality(1, m as int, pow10(d as nat) as int);
                    }
                    Err(BridgeError::AmountOverflow)
                }
            },
        }
    } else {
        let d = s - decimals;
        proof {
            lemma_base_units_shrink(m as nat, s as nat, decimals as nat);
        }
        match pow10_u128(d) {
            Some(p) => {
                proof {
                    lemma_pow10_pos(d as nat);
                    vstd::arithmetic::div_mod::lemma_div_nonincreasing(m as int, p as int);
                }
                Ok(m / p)
            },
            None => {
                proof {
                    lemma_basic_div(m as int, pow10(d as nat) as int);
                }
                Ok(0)
            },
        }
    }
}

/// The bridge fee as an exact decimal: `rate * amount`, formed by
/// multiplying mantissas and adding scales. Fails exactly when the mantissa
/// product exceeds 128 bits or the scale sum exceeds 32 bits.
pub fn bridge_fee_amount(rate: Amount, amount: Amount) -> (r: Result<Amount, BridgeError>)
    ensures
        r matches Ok(f) ==> f.mantissa as nat == rate.mantissa * amount.mantissa && f.scale as nat
            == rate.scale + amount.scale,
        r is Ok <==> (rate.mantissa * amount.mantissa <= u128::MAX && rate.scale + amount.scale
            <= u32::MAX),
        r matches Err(e) ==> e == BridgeError::AmountOverflow,
{
    let mantissa = match rate.mantissa.checked_mul(amount.mantissa) {
        Some(m) => m,
        None => {
            return Err(BridgeError::AmountOverflow);
        },
    };
    let scale = match rate.scale.checked_add(amount.scale) {
        Some(s) => s,
        None => {
            return Err(BridgeError::AmountOverflow);
        },
    };
    Ok(Amount { mantissa, scale })
}

} // verus!
