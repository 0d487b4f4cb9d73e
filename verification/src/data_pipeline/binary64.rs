//! Exact comparisons of IEEE-754 binary64 values, given by their encoding,
//! against non-negative constants.
//!
//! A finite value is `±m · 2^(q − 1074)` for integers `m` and `q ≥ 0`; it is
//! compared exactly, the way hardware compares two `f64`s. Comparisons with a
//! NaN are false; infinities are below or above every finite value.
use vstd::arithmetic::power2::{lemma2_to64, lemma_pow2_adds, lemma_pow2_pos, pow2};
use vstd::prelude::*;

verus! {

/// The 11-bit biased exponent field.
pub open spec fn exponent_field(bits: u64) -> nat {
    ((bits as nat) / 0x10_0000_0000_0000) % 2048
}

/// The 52-bit fraction field.
pub open spec fn fraction_field(bits: u64) -> nat {
    (bits as nat) % 0x10_0000_0000_0000
}

/// The sign bit.
pub open spec fn sign_negative(bits: u64) -> bool {
    bits >= 0x8000_0000_0000_0000
}

pub open spec fn is_nan(bits: u64) -> bool {
    exponent_field(bits) == 2047 && fraction_field(bits) != 0
}

pub open spec fn is_infinite(bits: u64) -> bool {
    exponent_field(bits) == 2047 && fraction_field(bits) == 0
}

/// The magnitude of a finite value times `2^1074` (an integer).
pub open spec fn scaled_magnitude(bits: u64) -> nat {
    let e = exponent_field(bits);
    let f = fraction_field(bits);
    if e == 0 {
        f
    } else {
        (f + 0x10_0000_0000_0000) * pow2((e - 1) as nat)
    }
}

/// A finite value times `2^1074` (an integer).
pub open spec fn scaled_value(bits: u64) -> int {
    if sign_negative(bits) {
        -scaled_magnitude(bits)
    } else {
        scaled_magnitude(bits) as int
    }
}

/// `m · 2^(p − 1074)` times `2^1074`: a non-negative constant in scaled form.
pub open spec fn scaled_constant(m: nat, p: nat) -> int {
    (m * pow2(p)) as int
}

/// `x < c` for the `f64` encoded by `bits` and a scaled constant `c >= 0`.
pub open spec fn f64_lt(bits: u64, c: int) -> bool {
    if is_nan(bits) {
        false
    } else if is_infinite(bits) {
        sign_negative(bits)
    } else {
        scaled_value(bits) < c
    }
}

/// `x > c` for the `f64` encoded by `bits` and a scaled constant `c >= 0`.
pub open spec fn f64_gt(bits: u64, c: int) -> bool {
    if is_nan(bits) {
        false
    } else if is_infinite(bits) {
        !sign_negative(bits)
    } else {
        scaled_value(bits) > c
    }
}

/// `x <= c` for the `f64` encoded by `bits` and a scaled constant `c >= 0`.
pub open spec fn f64_le(bits: u64, c: int) -> bool {
    f64_lt(bits, c) || (!is_nan(bits) && !is_infinite(bits) && scaled_value(bits) == c)
}

/// `x >= c` for the `f64` encoded by `bits` and a scaled constant `c >= 0`.
pub open spec fn f64_ge(bits: u64, c: int) -> bool {
    f64_gt(bits, c) || (!is_nan(bits) && !is_infinite(bits) && scaled_value(bits) == c)
}

/// Outcome of a three-way comparison.
#[derive(Clone, Copy, Debug, PartialEq, Eq, Structural)]
pub enum Comparison {
    Below,
    Equal,
    Above,
    /// One side is NaN.
    Unordered,
}

/// The exact relation between the encoded value and `c`.
pub open spec fn compare_spec(bits: u64, c: int) -> Comparison {
    if is_nan(bits) {
        Comparison::Unordered
    } else if is_infinite(bits) {
        if sign_negative(bits) {
            Comparison::Below
        } else {
            Comparison::Above
        }
    } else if scaled_value(bits) < c {
        Comparison::Below
    } else if scaled_value(bits) == c {
        Comparison::Equal
    } else {
        Comparison::Above
    }
}

proof fn lemma_cancel(a: int, b: int, y: int)
    by (nonlinear_arith)
    requires
        y > 0,
    ensures
        (a * y < b * y) == (a < b),
        (a * y == b * y) == (a == b),
{
}

proof fn lemma_assoc(a: int, x: int, y: int)
    by (nonlinear_arith)
    ensures
        a * (x * y) == (a * x) * y,
{
}

proof fn lemma_grow(a: int, x: int, b: int)
    by (nonlinear_arith)
    requires
        a >= 1,
        x >= b,
        b >= 0,
    ensures
        a * x >= b,
{
}

/// `m * 2^d` for `m < 2^53` and `d < 64`.
fn shifted(m: u64, d: u64) -> (r: u128)
    requires
        m < 0x20_0000_0000_0000,
        d < 64,
    ensures
        r as int == m * pow2(d as nat),
{
    let mut r: u128 = m as u128;
    let mut i: u64 = 0;
    proof {
        lemma2_to64();
    }
    while i < d
        invariant
            i <= d < 64,
            m < 0x20_0000_0000_0000,
            r as int == m * pow2(i as nat),
            r <= 0x20_0000_0000_0000 * pow2(i as nat),
            pow2(i as nat) <= 0x8000_0000_0000_0000,
        decreases d - i,
    {
        proof {
            vstd::arithmetic::power2::lemma_pow2_unfold((i + 1) as nat);
            assert(m * pow2((i + 1) as nat) == (m * pow2(i as nat)) * 2) by (nonlinear_arith)
                requires
                    pow2((i + 1) as nat) == 2 * pow2(i as nat),
            ;
            assert(pow2(63) == 0x8000_0000_0000_0000) by {
                lemma2_to64();
                lemma_pow2_adds(32, 31);
            }
            if i + 1 < 63 {
                vstd::arithmetic::power2::lemma_pow2_strictly_increases((i + 1) as nat, 63);
            }
            assert(r * 2 <= 0x20_0000_0000_0000 * pow2((i + 1) as nat)) by (nonlinear_arith)
                requires
                    r <= 0x20_0000_0000_0000 * pow2(i as nat),
                    pow2((i + 1) as nat) == 2 * pow2(i as nat),
            ;
        }
        r = r * 2;
        i = i + 1;
    }
    r
}

/// Compares the `f64` encoded by `bits` with the constant `cm · 2^(cp − 1074)`.
pub fn compare_with(bits: u64, cm: u64, cp: u64) -> (r: Comparison)
    requires
        cm < 0x20_0000_0000_0000,
        cp < 4096,
    ensures
        r == compare_spec(bits, scaled_constant(cm as nat, cp as nat)),
{
    let e: u64 = (bits / 0x10_0000_0000_0000) % 2048;
    let f: u64 = bits % 0x10_0000_0000_0000;
    let negative: bool = bits >= 0x8000_0000_0000_0000;
    let ghost c = scaled_constant(cm as nat, cp as nat);
    proof {
        lemma_pow2_pos(cp as nat);
        assert(c >= 0) by (nonlinear_arith)
            requires
                c == cm * pow2(cp as nat),
                pow2(cp as nat) > 0,
        ;
    }
    if e == 2047 {
        if f != 0 {
            return Comparison::Unordered;
        } else if negative {
            return Comparison::Below;
        } else {
            return Comparison::Above;
        }
    }
    // magnitude = m · 2^p (scaled by 2^1074)
    let m: u64 = if e == 0 { f } else { f + 0x10_0000_0000_0000 };
    let p: u64 = if e == 0 { 0 } else { e - 1 };
    let ghost mag = scaled_magnitude(bits);
    proof {
        lemma2_to64();
        if e == 0 {
            assert(mag == m);
            assert(pow2(0) == 1);
            assert(mag == m * pow2(p as nat));
        } else {
            assert(mag == m * pow2(p as nat));
        }
    }
    if m == 0 {
        proof {
            assert(mag == 0) by (nonlinear_arith)
                requires
                    mag == m * pow2(p as nat),
                    m == 0,
            ;
        }
        if cm == 0 {
            proof {
                assert(c == 0) by (nonlinear_arith)
                    requires
                        c == cm * pow2(cp as nat),
                        cm == 0,
                ;
            }
            return Comparison::Equal;
        } else {
            proof {
                assert(c > 0) by (nonlinear_arith)
                    requires
                        c == cm * pow2(cp as nat),
                        cm > 0,
                        pow2(cp as nat) > 0,
                ;
            }
            return Comparison::Below;
        }
    }
    proof {
        lemma_pow2_pos(p as nat);
        assert(mag > 0) by (nonlinear_arith)
            requires
                mag == m * pow2(p as nat),
                m > 0,
                pow2(p as nat) > 0,
        ;
    }
    if negative {
        return Comparison::Below;
    }
    if cm == 0 {
        proof {
            assert(c == 0) by (nonlinear_arith)
                requires
                    c == cm * pow2(cp as nat),
                    cm == 0,
            ;
        }
        return Comparison::Above;
    }
    if p >= cp {
        let d: u64 = p - cp;
        proof {
            lemma_pow2_adds(d as nat, cp as nat);
            assert(p as nat == d as nat + cp as nat);
            lemma_assoc(m as int, pow2(d as nat) as int, pow2(cp as nat) as int);
            lemma_cancel(m * pow2(d as nat), cm as int, pow2(cp as nat) as int);
        }
        if d >= 64 {
            proof {
                if d > 64 {
                    vstd::arithmetic::power2::lemma_pow2_strictly_increases(64, d as nat);
                }
                lemma_grow(m as int, pow2(d as nat) as int, 0x10000000000000000);
            }
            return Comparison::Above;
        }
        let lhs: u128 = shifted(m, d);
        if lhs < cm as u128 {
            Comparison::Below
        } else if lhs == cm as u128 {
            Comparison::Equal
        } else {
            Comparison::Above
        }
    } else {
        let d: u64 = cp - p;
        proof {
            lemma_pow2_adds(d as nat, p as nat);
            assert(cp as nat == d as nat + p as nat);
            lemma_assoc(cm as int, pow2(d as nat) as int, pow2(p as nat) as int);
            lemma_cancel(m as int, cm * pow2(d as nat), pow2(p as nat) as int);
        }
        if d >= 64 {
            proof {
                if d > 64 {
                    vstd::arithmetic::power2::lemma_pow2_strictly_increases(64, d as nat);
                }
                lemma_grow(cm as int, pow2(d as nat) as int, 0x10000000000000000);
            }
            return Comparison::Below;
        }
        let rhs: u128 = shifted(cm, d);
        if (m as u128) < rhs {
            Comparison::Below
        } else if m as u128 == rhs {
            Comparison::Equal
        } else {
            Comparison::Above
        }
    }
}

} // verus!
