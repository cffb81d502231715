//! The numeric kernel: widening multiplication and Barrett reduction.
//!
//! Both functions are pure. Their contracts are stated over mathematical
//! integers: `mul_128` returns the exact product, `barrett_reduction` returns
//! the remainder of Euclidean division.

use vstd::arithmetic::div_mod::{
    lemma_add_mod_noop_right, lemma_fundamental_div_mod, lemma_fundamental_div_mod_converse,
    lemma_mod_multiples_vanish, lemma_mul_mod_noop_left, lemma_small_mod,
    lemma_sub_mod_noop_right,
};
use vstd::prelude::*;

verus! {

/// Represents the plaintext modulus.
pub type PlaintextModulus = u64;

/// The radix of a machine word, `2^64`.
pub open spec fn word_radix() -> int {
    0x1_0000_0000_0000_0000
}

/// The radix of a double word, `2^128`.
pub open spec fn wide_radix() -> int {
    0x1_0000_0000_0000_0000_0000_0000_0000_0000int
}

/// The moduli that the reduction accepts: at least 2, and small enough that
/// twice the modulus still fits a machine word.
pub open spec fn is_modulus(modulus: u64) -> bool {
    2 <= modulus <= 0x8000_0000_0000_0000
}

/// The Barrett constant of a modulus: `floor(2^128 / modulus)`.
pub open spec fn spec_barrett_constant(modulus: u64) -> int {
    wide_radix() / (modulus as int)
}

/// The low word of `x` is `x mod 2^64`, the high word is `floor(x / 2^64)`.
proof fn lemma_words_of(x: u128)
    ensures
        (x as u64) == x as int % word_radix(),
        ((x >> 64) as u64) == x as int / word_radix(),
        x == ((x >> 64) as u64) * word_radix() + (x as u64),
{
    assert((x as u64) == x % 0x1_0000_0000_0000_0000) by (bit_vector);
    assert(((x >> 64) as u64) == x / 0x1_0000_0000_0000_0000) by (bit_vector);
    lemma_fundamental_div_mod(x as int, word_radix());
}

/// The product of two words, divided by the radix, leaves room for a carry.
proof fn lemma_high_word_of_product(x: int, y: int)
    requires
        0 <= x < word_radix(),
        0 <= y < word_radix(),
    ensures
        0 <= x * y <= 0xffff_ffff_ffff_fffe_0000_0000_0000_0001,
        (x * y) / word_radix() <= 0xffff_ffff_ffff_fffe,
{
    assert(0 <= x * y <= 0xffff_ffff_ffff_ffff * 0xffff_ffff_ffff_ffff) by (nonlinear_arith)
        requires
            0 <= x <= 0xffff_ffff_ffff_ffff,
            0 <= y <= 0xffff_ffff_ffff_ffff,
    ;
}

/// The product of two double words, by their halves in radix `b`.
proof fn lemma_product_by_halves(a_lo: int, a_hi: int, mu_lo: int, mu_hi: int, b: int)
    ensures
        (a_hi * b + a_lo) * (mu_hi * b + mu_lo) == (a_hi * mu_hi) * (b * b) + (a_lo * mu_hi + a_hi
            * mu_lo) * b + a_lo * mu_lo,
{
    let x = a_hi * b;
    let y = mu_hi * b;
    assert((x + a_lo) * (y + mu_lo) == x * y + x * mu_lo + a_lo * y + a_lo * mu_lo)
        by (nonlinear_arith);
    assert(x * y == (a_hi * mu_hi) * (b * b)) by (nonlinear_arith)
        requires
            x == a_hi * b,
            y == mu_hi * b,
    ;
    assert(x * mu_lo == (a_hi * mu_lo) * b) by (nonlinear_arith)
        requires
            x == a_hi * b,
    ;
    assert(a_lo * y == (a_lo * mu_hi) * b) by (nonlinear_arith)
        requires
            y == mu_hi * b,
    ;
    assert((a_lo * mu_hi) * b + (a_hi * mu_lo) * b == (a_lo * mu_hi + a_hi * mu_lo) * b)
        by (nonlinear_arith);
}

/// Carries moved from the partial products `ll`, `lh`, `hl` into the next
/// higher word leave the sum unchanged, and what stays below is less than
/// `b * b`.
proof fn lemma_carries_collect(
    ll: int,
    lh: int,
    hl: int,
    hh: int,
    h0: int,
    r0: int,
    t2: int,
    t1: int,
    h2: int,
    r2: int,
    b: int,
)
    by (nonlinear_arith)
    requires
        0 <= r0 < b,
        0 <= r2 < b,
        ll == h0 * b + r0,
        lh + h0 == t2 * b + t1,
        hl + t1 == h2 * b + r2,
    ensures
        hh * (b * b) + (lh + hl) * b + ll == (hh + t2 + h2) * (b * b) + (r2 * b + r0),
        0 <= r2 * b + r0 < b * b,
{
}

/// The three partial products and their carries add up to the high double
/// word of the 256-bit product: with
///   `a_lo * mu_lo       == h0 * 2^64 + r0`,
///   `a_lo * mu_hi + h0  == t2 * 2^64 + t1`,
///   `a_hi * mu_lo + t1  == h2 * 2^64 + r2`,
/// the quotient of `a * mu` by `2^128` is `a_hi * mu_hi + t2 + h2`.
proof fn lemma_quotient_from_words(
    a_lo: int,
    a_hi: int,
    mu_lo: int,
    mu_hi: int,
    h0: int,
    r0: int,
    t2: int,
    t1: int,
    h2: int,
    r2: int,
)
    requires
        0 <= r0 < word_radix(),
        0 <= r2 < word_radix(),
        a_lo * mu_lo == h0 * word_radix() + r0,
        a_lo * mu_hi + h0 == t2 * word_radix() + t1,
        a_hi * mu_lo + t1 == h2 * word_radix() + r2,
    ensures
        ((a_hi * word_radix() + a_lo) * (mu_hi * word_radix() + mu_lo)) / wide_radix() == a_hi
            * mu_hi + t2 + h2,
{
    let b = word_radix();
    let product = (a_hi * b + a_lo) * (mu_hi * b + mu_lo);
    let q = a_hi * mu_hi + t2 + h2;
    let r = r2 * b + r0;
    lemma_product_by_halves(a_lo, a_hi, mu_lo, mu_hi, b);
    lemma_carries_collect(
        a_lo * mu_lo,
        a_lo * mu_hi,
        a_hi * mu_lo,
        a_hi * mu_hi,
        h0,
        r0,
        t2,
        t1,
        h2,
        r2,
        b,
    );
    assert(b * b == wide_radix());
    lemma_fundamental_div_mod_converse(product, wide_radix(), q, r);
}

/// Barrett's bound: the quotient estimate `q = floor(a * mu / 2^128)` is the
/// true quotient or one less, so `a - q * m` lies in `[0, 2m)`.
proof fn lemma_estimate_is_close(a: int, m: int, mu: int, q: int)
    requires
        0 <= a < wide_radix(),
        0 < m,
        mu == wide_radix() / m,
        q == (a * mu) / wide_radix(),
    ensures
        0 <= a - q * m < 2 * m,
{
    let w = wide_radix();
    let c = w % m;
    let d = (a * mu) % w;
    lemma_fundamental_div_mod(w, m);
    lemma_fundamental_div_mod(a * mu, w);
    assert(0 <= c < m);
    assert(0 <= d < w);
    assert((a - q * m) * w == a * c + d * m) by (nonlinear_arith)
        requires
            w == m * mu + c,
            a * mu == w * q + d,
    ;
    assert(0 <= a * c + d * m < 2 * m * w) by (nonlinear_arith)
        requires
            0 <= a < w,
            0 <= c < m,
            0 <= d < w,
    ;
}

/// Wrapping word arithmetic recovers a small difference: where `a - q * m`
/// fits a word, it is what the low words give, whatever was lost above them
/// in the estimate `q = a_hi * mu_hi + t2 + h2` and in its product with `m`.
proof fn lemma_low_words_suffice(a_lo: u64, a_hi: u64, mu_hi: u64, t2: u64, h2: u64, m: u64)
    requires
        0 <= (a_hi * word_radix() + a_lo) - (a_hi * mu_hi + t2 + h2) * m < word_radix(),
    ensures
        a_lo.wrapping_sub(
            a_hi.wrapping_mul(mu_hi).wrapping_add(t2).wrapping_add(h2).wrapping_mul(m),
        ) == (a_hi * word_radix() + a_lo) - (a_hi * mu_hi + t2 + h2) * m,
{
    let b = word_radix();
    let q = a_hi * mu_hi + t2 + h2;
    let x = (a_hi * b + a_lo) - q * m;
    let e1 = a_hi.wrapping_mul(mu_hi);
    let e2 = e1.wrapping_add(t2);
    let e3 = e2.wrapping_add(h2);
    let prod = e3.wrapping_mul(m);
    let diff = a_lo.wrapping_sub(prod);
    assert(e1 == (a_hi * mu_hi) % b);
    assert(e2 == (e1 + t2) % b);
    assert(e3 == (e2 + h2) % b);
    assert(prod == (e3 * m) % b);
    assert(diff == (a_lo - prod) % b);
    assert(e2 == (a_hi * mu_hi + t2) % b) by {
        lemma_add_mod_noop_right(t2 as int, a_hi * mu_hi, b);
    }
    assert(e3 == q % b) by {
        lemma_add_mod_noop_right(h2 as int, a_hi * mu_hi + t2, b);
    }
    assert(diff == (a_lo - q * m) % b) by {
        lemma_mul_mod_noop_left(q, m as int, b);
        lemma_sub_mod_noop_right(a_lo as int, q * m, b);
    }
    assert((a_lo - q * m) % b == x) by {
        lemma_mod_multiples_vanish(-(a_hi as int), x, b);
        assert(b * (-(a_hi as int)) + x == a_lo - q * m) by (nonlinear_arith)
            requires
                x == (a_hi * b + a_lo) - q * m,
        ;
        lemma_small_mod(x as nat, b as nat);
    }
}

/// The product of two words is rebuilt from its halves: the high word times
/// `2^64`, plus the low word.
pub proof fn lemma_product_from_halves(a: u64, b: u64)
    ensures
        ({
            let product = (a * b) as u128;
            ((product >> 64) as u64) * word_radix() + (product as u64) == a * b
        }),
{
    lemma_high_word_of_product(a as int, b as int);
    lemma_words_of((a * b) as u128);
}

/// Reducing what is reduced changes nothing.
pub proof fn lemma_reduction_is_idempotent(a: u128, modulus: u64)
    requires
        modulus > 0,
    ensures
        ({
            let once = (a % (modulus as u128)) as u64;
            (once as u128) % (modulus as u128) == once
        }),
{
    lemma_small_mod((a % (modulus as u128)) as nat, modulus as nat);
}

/// Product of two 64-bit words, exact in 128 bits.
pub fn mul_128(a: u64, b: u64) -> (product: u128)
    ensures
        product == a * b,
{
    proof {
        lemma_high_word_of_product(a as int, b as int);
    }
    let lhs = a as u128;
    let rhs = b as u128;
    lhs * rhs
}

/// The low 64 bits of a double word.
fn low_word(x: u128) -> (word: u64)
    ensures
        word == x as int % word_radix(),
{
    proof {
        lemma_words_of(x);
    }
    #[verifier::truncate]
    (x as u64)
}

/// The high 64 bits of a double word.
fn high_word(x: u128) -> (word: u64)
    ensures
        word == x as int / word_radix(),
{
    proof {
        lemma_words_of(x);
    }
    #[verifier::truncate]
    ((x >> 64) as u64)
}

/// The Barrett constant `floor(2^128 / modulus)` of a modulus.
pub fn barrett_constant(modulus: u64) -> (mu: u128)
    requires
        modulus >= 2,
    ensures
        mu == spec_barrett_constant(modulus),
{
    let m = modulus as u128;
    let top: u128 = 0xffff_ffff_ffff_ffff_ffff_ffff_ffff_ffff;
    let quotient = top / m;
    let remainder = top % m;
    proof {
        lemma_fundamental_div_mod(top as int, m as int);
        assert(quotient * m <= top) by (nonlinear_arith)
            requires
                top == m * quotient + remainder,
                0 <= remainder,
        ;
        assert(quotient <= top / 2) by (nonlinear_arith)
            requires
                quotient * m <= top,
                m >= 2,
                quotient >= 0,
        ;
    }
    if remainder == m - 1 {
        proof {
            assert(wide_radix() == (quotient + 1) * m + 0) by (nonlinear_arith)
                requires
                    top == m * quotient + remainder,
                    remainder == m - 1,
                    wide_radix() == top + 1,
            ;
            lemma_fundamental_div_mod_converse(wide_radix(), m as int, quotient + 1, 0);
        }
        quotient + 1
    } else {
        proof {
            assert(wide_radix() == quotient * m + (remainder + 1)) by (nonlinear_arith)
                requires
                    top == m * quotient + remainder,
                    wide_radix() == top + 1,
            ;
            lemma_fundamental_div_mod_converse(
                wide_radix(),
                m as int,
                quotient as int,
                remainder + 1,
            );
        }
        quotient
    }
}

/// Barrett reduction of a 128-bit integer modulo a 64-bit modulus, after
/// Menezes, van Oorschot and Vanstone, Handbook of Applied Cryptography,
/// section 14.3.3.
///
/// `mu` is the Barrett constant of the modulus, `floor(2^128 / modulus)`. The
/// result is `a mod modulus`, for every 128-bit `a`: the quotient is estimated
/// by the high double word of `a * mu`, which is the true quotient or one
/// less, so that the correction loop subtracts the modulus once at most. No
/// division is executed.
pub fn barrett_reduction(a: u128, modulus: u64, mu: u128) -> (result: u64)
    requires
        is_modulus(modulus),
        mu == spec_barrett_constant(modulus),
    ensures
        result == a % (modulus as u128),
        result < modulus,
{
    // (a * mu) / 2^128: the upper double word of the 256-bit product
    let a_lo = low_word(a);
    let a_hi = high_word(a);
    let mu_lo = low_word(mu);
    let mu_hi = high_word(mu);

    // multiply the low parts, discard the lower word
    let left_hi = high_word(mul_128(a_lo, mu_lo));

    // first middle product
    let middle = mul_128(a_lo, mu_hi);
    let middle_lo = low_word(middle);
    let middle_hi = high_word(middle);

    // accumulate and check the carry
    let tmp1 = middle_lo.wrapping_add(left_hi);
    let carry: u64 = if tmp1 < middle_lo {
        1
    } else {
        0
    };
    proof {
        lemma_high_word_of_product(a_lo as int, mu_hi as int);
    }
    let tmp2 = middle_hi + carry;

    // second middle product
    let middle = mul_128(a_hi, mu_lo);
    let middle_lo = low_word(middle);
    let middle_hi = high_word(middle);

    // check the carry
    let low_sum = middle_lo.wrapping_add(tmp1);
    let carry: u64 = if low_sum < middle_lo {
        1
    } else {
        0
    };
    proof {
        lemma_high_word_of_product(a_hi as int, mu_lo as int);
    }
    let left_hi2 = middle_hi + carry;

    // the lower word of (a * mu) / 2^128; the higher word is not needed
    let estimate = a_hi.wrapping_mul(mu_hi).wrapping_add(tmp2).wrapping_add(left_hi2);

    // subtract the lower words only: the higher words are the same
    let mut result = a_lo.wrapping_sub(estimate.wrapping_mul(modulus));

    proof {
        let b = word_radix();
        let q = a_hi * mu_hi + tmp2 + left_hi2;
        lemma_fundamental_div_mod(a as int, b);
        lemma_fundamental_div_mod(mu as int, b);
        lemma_fundamental_div_mod(a_lo * mu_lo, b);
        lemma_fundamental_div_mod(a_lo * mu_hi, b);
        lemma_fundamental_div_mod(a_hi * mu_lo, b);
        lemma_quotient_from_words(
            a_lo as int,
            a_hi as int,
            mu_lo as int,
            mu_hi as int,
            left_hi as int,
            (a_lo * mu_lo) % b,
            tmp2 as int,
            tmp1 as int,
            left_hi2 as int,
            low_sum as int,
        );
        lemma_estimate_is_close(a as int, modulus as int, mu as int, q);
        lemma_low_words_suffice(a_lo, a_hi, mu_hi, tmp2, left_hi2, modulus);
        assert(result == a - q * modulus);
        assert(result as int % modulus as int == a as int % modulus as int) by {
            lemma_mod_multiples_vanish(-q, a as int, modulus as int);
            assert(modulus * (-q) + a == a - q * modulus) by (nonlinear_arith);
        }
    }

    // the estimate falls short by one at most: this runs once or not at all
    while result >= modulus
        invariant
            modulus > 0,
            result < 2 * modulus,
            result as int % modulus as int == a as int % modulus as int,
        decreases result,
    {
        proof {
            lemma_mod_multiples_vanish(-1, result as int, modulus as int);
        }
        result -= modulus;
    }

    proof {
        lemma_small_mod(result as nat, modulus as nat);
    }
    result
}

} // verus!
