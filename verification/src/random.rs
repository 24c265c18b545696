use vstd::prelude::*;

use crate::num::{sym_lt, sym_one, sym_sign, val_eq, Sym, Val};

verus! {

// The random source threaded through sampling: rand's standard
// generator, exclusively borrowed, so a fixed seed reproduces every
// draw in order.

#[verifier::external_type_specification]
#[verifier::external_body]
pub struct ExStdRng(rand::rngs::StdRng);

/// Relies on rand's `RngCore::next_u32` for `StdRng`: the next 32
/// random bits.  Nothing is promised of the value.
#[verifier::external_body]
pub(crate) fn next_random_u32(rng: &mut rand::rngs::StdRng) -> u32 {
    rand::RngCore::next_u32(rng)
}

/// The top 20 bits of a draw as the exact rational
/// (bits div 4096) / 2^20: a scalar in [0, 1), pinned as a function of
/// the drawn bits.
pub fn unit_from_bits(bits: u32) -> (res: Val)
    ensures
        val_eq(res@, (Sym { a: bits as int / 4096, b: 0, d: 1048576, r: 0, k: 0 })),
        sym_sign(res@) >= 0,
        sym_lt(res@, sym_one()) == Some(true),
{
    let m: u32 = bits >> 12;
    proof {
        assert(m == bits / 4096 && m < 1048576u32) by (bit_vector)
            requires
                m == bits >> 12u32,
        ;
        crate::num::lemma_norm_small(m as int, 1048576);
    }
    let v: Val = match Val::ratio(m as i32, 1048576) {
        Some(v0) => v0,
        None => Val::from_int(0),
    };
    proof {
        lemma_unit_interval(m as int, v@);
    }
    v
}

/// A random scalar in the unit interval, built from the top 20 bits of
/// one draw.  Whatever the generator produced, the result is at least
/// zero and strictly below one.
pub fn draw_unit(rng: &mut rand::rngs::StdRng) -> (res: Val)
    ensures
        sym_sign(res@) >= 0,
        sym_lt(res@, sym_one()) == Some(true),
{
    let bits: u32 = next_random_u32(rng);
    unit_from_bits(bits)
}

/// The reduced form of m / 2^20 with 0 <= m < 2^20 denotes the same
/// value, is non-negative, and sits strictly below one.
proof fn lemma_unit_interval(m: int, v: Sym)
    requires
        0 <= m < 1048576,
        crate::num::sym_norm(m, 0, 1048576, 0, 0) == Some(v),
    ensures
        val_eq(v, (Sym { a: m, b: 0, d: 1048576, r: 0, k: 0 })),
        sym_sign(v) >= 0,
        sym_lt(v, sym_one()) == Some(true),
{
    crate::num::lemma_norm_small(m, 1048576);
    assert(v.a * 1048576 == m * v.d);
    if m == 0 {
        assert(val_eq(v, (Sym { a: 0, b: 0, d: 1048576, r: 0, k: 0 })));
        assert(crate::num::sym_add(v, crate::num::sym_neg(sym_one())) == Some(
            crate::num::sym_neg(sym_one()),
        ));
    } else {
        assert(v.a >= 1);
        // The denoted value is below one: the numerator stays below the
        // denominator through the reduction.
        assert(v.a < v.d) by (nonlinear_arith)
            requires
                v.a * 1048576 == m * v.d,
                0 < m < 1048576,
                v.d >= 1,
                v.a >= 1,
        ;
        // v - 1 normalises to a rational with a negative numerator.
        let na = v.a * 1 + (-1) * v.d;
        assert(na == v.a - v.d);
        assert(-crate::num::NUM_BOUND <= na <= crate::num::NUM_BOUND);
        assert(1 <= v.d * 1 && v.d * 1 == v.d) by (nonlinear_arith)
            requires
                v.d >= 1,
        ;
        crate::num::lemma_norm_small(na, v.d);
        assert(crate::num::sym_norm(na, 0, v.d, 0, 0) matches Some(w) && crate::num::sym_sign(w)
            == -1);
        assert(v.a * 1 == v.a && (-1) * v.d == -v.d && v.b * 1 == v.b && 0 * v.d == 0 && v.d * 1
            == v.d && (-1) * 1048576 == -1048576) by (nonlinear_arith);
        assert(crate::num::sym_add(v, crate::num::sym_neg(sym_one())) == crate::num::sym_norm(
            na,
            0,
            v.d,
            0,
            0,
        ));
        assert(sym_lt(v, sym_one()) == Some(true));
    }
}

} // verus!
