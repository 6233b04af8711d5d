//! Q32.32 fixed-point arithmetic.
//!
//! A non-negative quantity (a rate, a duration, a level, a coefficient)
//! is a `u64` holding its value scaled by 2^32; a signed audio sample is
//! an `i64` scaled the same way.  `FX_ONE` is the representation of 1.
//! Products and quotients are truncated toward minus infinity and, where
//! a result cannot be represented, saturated at `u64::MAX`; the spec
//! functions below state the exact value of every operation.

use vstd::prelude::*;

use vstd::arithmetic::div_mod::{
    lemma_div_is_ordered, lemma_div_multiples_vanish, lemma_div_nonincreasing,
    lemma_div_pos_is_pos,
};
use vstd::arithmetic::power2::{
    lemma2_to64, lemma_pow2_pos, lemma_pow2_strictly_increases, lemma_pow2_unfold, pow2,
};

verus! {

/// The fixed-point representation of 1.0: 2^32.
pub const FX_ONE: u64 = 4294967296;

/// The fixed-point representation of 1/4.
pub const FX_QUARTER: u64 = 1073741824;

/// Exact value of the saturating fixed-point product `a * b`.
pub open spec fn fx_mul_spec(a: int, b: int) -> int {
    if (a * b) / (FX_ONE as int) > u64::MAX {
        u64::MAX as int
    } else {
        (a * b) / (FX_ONE as int)
    }
}

/// Exact value of the saturating fixed-point quotient `a / b`.
pub open spec fn fx_div_spec(a: int, b: int) -> int {
    if (a * FX_ONE) / b > u64::MAX {
        u64::MAX as int
    } else {
        (a * FX_ONE) / b
    }
}

/// Fixed-point multiplication, truncating, saturating at `u64::MAX`.
pub fn fx_mul(a: u64, b: u64) -> (r: u64)
    ensures
        r == fx_mul_spec(a as int, b as int),
{
    proof {
        assert((a as int) * (b as int) <= (u64::MAX as int) * (u64::MAX as int))
            by (nonlinear_arith)
            requires
                a <= u64::MAX,
                b <= u64::MAX,
        ;
    }
    let p: u128 = ((a as u128) * (b as u128)) / (FX_ONE as u128);
    if p > u64::MAX as u128 {
        u64::MAX
    } else {
        p as u64
    }
}

/// Fixed-point division, truncating, saturating at `u64::MAX`.
///
/// Because the scale cancels, this also turns a ratio of two plain
/// integers into its Q32.32 value: `fx_div(9, 10)` is 0.9.
pub fn fx_div(a: u64, b: u64) -> (r: u64)
    requires
        b > 0,
    ensures
        r == fx_div_spec(a as int, b as int),
{
    let q: u128 = ((a as u128) * (FX_ONE as u128)) / (b as u128);
    if q > u64::MAX as u128 {
        u64::MAX
    } else {
        q as u64
    }
}

/// The fixed-point representation of the integer `n`.
pub fn fx_from_int(n: u32) -> (r: u64)
    ensures
        r == n * FX_ONE,
{
    (n as u64) * FX_ONE
}

/// `2^(-1/2)`, `2^(-1/4)`, ... `2^(-1/2^32)` in Q32.32: one constant for
/// each bit of a fractional exponent, used by `exp2_neg`.
pub const EXP2_C1: u64 = 3037000500;
pub const EXP2_C2: u64 = 3611622603;
pub const EXP2_C3: u64 = 3938502376;
pub const EXP2_C4: u64 = 4112874773;
pub const EXP2_C5: u64 = 4202935003;
pub const EXP2_C6: u64 = 4248701965;
pub const EXP2_C7: u64 = 4271771996;
pub const EXP2_C8: u64 = 4283353945;
pub const EXP2_C9: u64 = 4289156690;
pub const EXP2_C10: u64 = 4292061010;
pub const EXP2_C11: u64 = 4293513907;
pub const EXP2_C12: u64 = 4294240540;
pub const EXP2_C13: u64 = 4294603903;
pub const EXP2_C14: u64 = 4294785595;
pub const EXP2_C15: u64 = 4294876445;
pub const EXP2_C16: u64 = 4294921870;
pub const EXP2_C17: u64 = 4294944583;
pub const EXP2_C18: u64 = 4294955939;
pub const EXP2_C19: u64 = 4294961618;
pub const EXP2_C20: u64 = 4294964457;
pub const EXP2_C21: u64 = 4294965876;
pub const EXP2_C22: u64 = 4294966586;
pub const EXP2_C23: u64 = 4294966941;
pub const EXP2_C24: u64 = 4294967119;
pub const EXP2_C25: u64 = 4294967207;
pub const EXP2_C26: u64 = 4294967252;
pub const EXP2_C27: u64 = 4294967274;
pub const EXP2_C28: u64 = 4294967285;
pub const EXP2_C29: u64 = 4294967290;
pub const EXP2_C30: u64 = 4294967293;
pub const EXP2_C31: u64 = 4294967295;
pub const EXP2_C32: u64 = 4294967295;

/// One step of the fractional-exponent product: multiplies `r` by `c` if
/// bit `w` (a power of two) is set in `f`.
pub open spec fn frac_step_spec(r: int, f: int, w: int, c: int) -> int {
    if (f / w) % 2 == 1 {
        fx_mul_spec(r, c)
    } else {
        r
    }
}

/// `2^(-f/FX_ONE) * FX_ONE` for a fractional exponent `0 <= f < FX_ONE`,
/// as the product of the per-bit constants above (each product truncated
/// to Q32.32).
#[verifier::opaque]
pub open spec fn exp2_frac_spec(f: int) -> int {
    let r = FX_ONE as int;
    let r = frac_step_spec(r, f, 2147483648, EXP2_C1 as int);
    let r = frac_step_spec(r, f, 1073741824, EXP2_C2 as int);
    let r = frac_step_spec(r, f, 536870912, EXP2_C3 as int);
    let r = frac_step_spec(r, f, 268435456, EXP2_C4 as int);
    let r = frac_step_spec(r, f, 134217728, EXP2_C5 as int);
    let r = frac_step_spec(r, f, 67108864, EXP2_C6 as int);
    let r = frac_step_spec(r, f, 33554432, EXP2_C7 as int);
    let r = frac_step_spec(r, f, 16777216, EXP2_C8 as int);
    let r = frac_step_spec(r, f, 8388608, EXP2_C9 as int);
    let r = frac_step_spec(r, f, 4194304, EXP2_C10 as int);
    let r = frac_step_spec(r, f, 2097152, EXP2_C11 as int);
    let r = frac_step_spec(r, f, 1048576, EXP2_C12 as int);
    let r = frac_step_spec(r, f, 524288, EXP2_C13 as int);
    let r = frac_step_spec(r, f, 262144, EXP2_C14 as int);
    let r = frac_step_spec(r, f, 131072, EXP2_C15 as int);
    let r = frac_step_spec(r, f, 65536, EXP2_C16 as int);
    let r = frac_step_spec(r, f, 32768, EXP2_C17 as int);
    let r = frac_step_spec(r, f, 16384, EXP2_C18 as int);
    let r = frac_step_spec(r, f, 8192, EXP2_C19 as int);
    let r = frac_step_spec(r, f, 4096, EXP2_C20 as int);
    let r = frac_step_spec(r, f, 2048, EXP2_C21 as int);
    let r = frac_step_spec(r, f, 1024, EXP2_C22 as int);
    let r = frac_step_spec(r, f, 512, EXP2_C23 as int);
    let r = frac_step_spec(r, f, 256, EXP2_C24 as int);
    let r = frac_step_spec(r, f, 128, EXP2_C25 as int);
    let r = frac_step_spec(r, f, 64, EXP2_C26 as int);
    let r = frac_step_spec(r, f, 32, EXP2_C27 as int);
    let r = frac_step_spec(r, f, 16, EXP2_C28 as int);
    let r = frac_step_spec(r, f, 8, EXP2_C29 as int);
    let r = frac_step_spec(r, f, 4, EXP2_C30 as int);
    let r = frac_step_spec(r, f, 2, EXP2_C31 as int);
    let r = frac_step_spec(r, f, 1, EXP2_C32 as int);
    r
}

/// Multiplying by a factor of at most one does not increase a
/// non-negative fixed-point value.
pub proof fn lemma_fx_mul_le(a: int, b: int)
    requires
        0 <= a <= u64::MAX,
        0 <= b <= FX_ONE,
    ensures
        0 <= fx_mul_spec(a, b) <= a,
{
    assert(a * b <= a * (FX_ONE as int)) by (nonlinear_arith)
        requires
            0 <= a,
            b <= FX_ONE,
    ;
    assert(a * b >= 0) by (nonlinear_arith)
        requires
            0 <= a,
            0 <= b,
    ;
    lemma_div_is_ordered(a * b, a * (FX_ONE as int), FX_ONE as int);
    lemma_div_multiples_vanish(a, FX_ONE as int);
    lemma_div_pos_is_pos(a * b, FX_ONE as int);
}

/// One step of the fractional-exponent product.
fn frac_step(r: u64, f: u64, w: u64, c: u64) -> (r2: u64)
    requires
        w >= 1,
        c <= FX_ONE,
    ensures
        r2 == frac_step_spec(r as int, f as int, w as int, c as int),
        r2 <= r,
{
    proof {
        lemma_fx_mul_le(r as int, c as int);
    }
    if (f / w) % 2 == 1 {
        fx_mul(r, c)
    } else {
        r
    }
}

/// `2^(-f/FX_ONE) * FX_ONE` for a fractional exponent.
fn exp2_frac(f: u64) -> (r: u64)
    ensures
        r == exp2_frac_spec(f as int),
        r <= FX_ONE,
{
    proof {
        reveal(exp2_frac_spec);
    }
    let r: u64 = FX_ONE;
    let r = frac_step(r, f, 2147483648, EXP2_C1);
    let r = frac_step(r, f, 1073741824, EXP2_C2);
    let r = frac_step(r, f, 536870912, EXP2_C3);
    let r = frac_step(r, f, 268435456, EXP2_C4);
    let r = frac_step(r, f, 134217728, EXP2_C5);
    let r = frac_step(r, f, 67108864, EXP2_C6);
    let r = frac_step(r, f, 33554432, EXP2_C7);
    let r = frac_step(r, f, 16777216, EXP2_C8);
    let r = frac_step(r, f, 8388608, EXP2_C9);
    let r = frac_step(r, f, 4194304, EXP2_C10);
    let r = frac_step(r, f, 2097152, EXP2_C11);
    let r = frac_step(r, f, 1048576, EXP2_C12);
    let r = frac_step(r, f, 524288, EXP2_C13);
    let r = frac_step(r, f, 262144, EXP2_C14);
    let r = frac_step(r, f, 131072, EXP2_C15);
    let r = frac_step(r, f, 65536, EXP2_C16);
    let r = frac_step(r, f, 32768, EXP2_C17);
    let r = frac_step(r, f, 16384, EXP2_C18);
    let r = frac_step(r, f, 8192, EXP2_C19);
    let r = frac_step(r, f, 4096, EXP2_C20);
    let r = frac_step(r, f, 2048, EXP2_C21);
    let r = frac_step(r, f, 1024, EXP2_C22);
    let r = frac_step(r, f, 512, EXP2_C23);
    let r = frac_step(r, f, 256, EXP2_C24);
    let r = frac_step(r, f, 128, EXP2_C25);
    let r = frac_step(r, f, 64, EXP2_C26);
    let r = frac_step(r, f, 32, EXP2_C27);
    let r = frac_step(r, f, 16, EXP2_C28);
    let r = frac_step(r, f, 8, EXP2_C29);
    let r = frac_step(r, f, 4, EXP2_C30);
    let r = frac_step(r, f, 2, EXP2_C31);
    let r = frac_step(r, f, 1, EXP2_C32);
    r
}

/// `2^(-x/FX_ONE) * FX_ONE`: the integer part of the exponent becomes a
/// division by a power of two, the fractional part the product of the
/// per-bit constants.  Exponents of 33 or more underflow to 0.
pub open spec fn exp2_neg_spec(x: int) -> int {
    let ip = x / (FX_ONE as int);
    let f = x % (FX_ONE as int);
    if ip >= 33 {
        0
    } else {
        exp2_frac_spec(f) / pow2(ip as nat) as int
    }
}

/// An exponential-decay curve: computes `2^(-x)` for a non-negative
/// Q32.32 exponent `x`, exactly as `exp2_neg_spec` states.
pub fn exp2_neg(x: u64) -> (r: u64)
    ensures
        r == exp2_neg_spec(x as int),
        r <= FX_ONE,
{
    let ip = x / FX_ONE;
    let f = x % FX_ONE;
    let base = exp2_frac(f);
    if ip >= 33 {
        0
    } else {
        let mut p: u64 = 1;
        let mut j: u64 = 0;
        proof {
            lemma2_to64();
        }
        while j < ip
            invariant
                j <= ip <= 32,
                p == pow2(j as nat),
            decreases ip - j,
        {
            proof {
                lemma_pow2_strictly_increases(j as nat, 33);
                lemma_pow2_unfold((j + 1) as nat);
                lemma2_to64();
            }
            p = p * 2;
            j = j + 1;
        }
        proof {
            lemma_pow2_pos(ip as nat);
            lemma_div_pos_is_pos(base as int, p as int);
            lemma_div_nonincreasing(base as int, p as int);
        }
        base / p
    }
}

/// Exact value of the fixed-point weighted blend
/// `(w * x + (FX_ONE - w) * y) / FX_ONE`, truncated toward minus
/// infinity: the one-pole update `w * input + (1 - w) * state`.
pub open spec fn fx_blend_spec(x: int, y: int, w: int) -> int {
    (w * x + (FX_ONE - w) * y) / (FX_ONE as int)
}

/// A blend with a weight in `[0, FX_ONE]` lies between its two inputs:
/// a one-pole filter moves its state toward the input and never
/// overshoots it.
pub proof fn lemma_blend_bounds(x: int, y: int, w: int)
    requires
        0 <= w <= FX_ONE,
    ensures
        x <= y ==> x <= fx_blend_spec(x, y, w) <= y,
        y <= x ==> y <= fx_blend_spec(x, y, w) <= x,
{
    let one = FX_ONE as int;
    let lo = if x <= y { x } else { y };
    let hi = if x <= y { y } else { x };
    let p = w * x + (one - w) * y;
    assert(one * lo <= p <= one * hi) by (nonlinear_arith)
        requires
            0 <= w <= one,
            lo <= x <= hi,
            lo <= y <= hi,
            p == w * x + (one - w) * y,
    ;
    lemma_div_is_ordered(one * lo, p, one);
    lemma_div_is_ordered(p, one * hi, one);
    lemma_div_multiples_vanish(lo, one);
    lemma_div_multiples_vanish(hi, one);
}

/// Fixed-point weighted blend of two signed samples:
/// `w * x + (1 - w) * y`.  The result lies between `x` and `y`.
pub fn fx_blend(x: i64, y: i64, w: u64) -> (r: i64)
    requires
        w <= FX_ONE,
    ensures
        r == fx_blend_spec(x as int, y as int, w as int),
        x <= y ==> x <= r <= y,
        y <= x ==> y <= r <= x,
{
    proof {
        assert((w as int) * (x as int) <= 79228162514264337593543950336
            && (w as int) * (x as int) >= -79228162514264337593543950336) by (nonlinear_arith)
            requires
                0 <= w <= FX_ONE,
                i64::MIN <= x <= i64::MAX,
        ;
        assert(((FX_ONE - w) as int) * (y as int) <= 79228162514264337593543950336
            && ((FX_ONE - w) as int) * (y as int) >= -79228162514264337593543950336)
            by (nonlinear_arith)
            requires
                0 <= w <= FX_ONE,
                i64::MIN <= y <= i64::MAX,
        ;
        lemma_blend_bounds(x as int, y as int, w as int);
    }
    let p: i128 = (w as i128) * (x as i128) + ((FX_ONE - w) as i128) * (y as i128);
    let q: i128 = p.checked_div_euclid(FX_ONE as i128).unwrap();
    q as i64
}

} // verus!
