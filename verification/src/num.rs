use vstd::prelude::*;

verus! {

// An exact scalar for light-transport geometry.
//
// A `Val` denotes the real number ((a + b*sqrt(r)) / d) * pi^k.  Every
// quantity the engine manipulates (coordinates, cosines, Fresnel terms,
// solid angles and their reciprocals) is of this shape, so intersection
// math, Snell refraction and cone sampling can be carried out exactly.
// Operations whose result falls outside this set, or whose components
// exceed the fixed capacity bounds, return `None`; callers treat that as
// a degenerate outcome ("no hit", "no sample"), never as a panic.
//
// The mathematical model lives in `Sym`, the same quadruple over
// unbounded integers.  Each executable operation is specified against a
// spec-level mirror (`sym_add`, `sym_mul`, ...) that performs the same
// computation on `Sym`, so the contract pins the result completely,
// including when `None` is returned.

/// Capacity bound for the numerators `a` and `b`.
pub const NUM_BOUND: i64 = 2147483648;

/// Capacity bound for the denominator `d`.
pub const DEN_BOUND: i64 = 1048576;

/// Capacity bound for the radicand `r`.
pub const RAD_BOUND: i64 = 4194304;

/// Capacity bound for the power of pi `k`.
pub const PI_BOUND: i64 = 32;

/// Mathematical model of a scalar: ((a + b*sqrt(r)) / d) * pi^k
/// over unbounded integers.
pub struct Sym {
    pub a: int,
    pub b: int,
    pub d: int,
    pub r: int,
    pub k: int,
}

/// Floor of the square root, defined by counting upward.
pub open spec fn isqrt_spec(n: int) -> int
    decreases n,
{
    if n <= 0 {
        0
    } else {
        let p = isqrt_spec(n - 1);
        if (p + 1) * (p + 1) <= n {
            p + 1
        } else {
            p
        }
    }
}

/// Whether `n` is a perfect square.
pub open spec fn is_square(n: int) -> bool {
    isqrt_spec(n) * isqrt_spec(n) == n
}

/// Sign of an integer as -1, 0 or 1.
pub open spec fn sgn(x: int) -> int {
    if x > 0 {
        1
    } else if x < 0 {
        -1
    } else {
        0
    }
}

/// Well-formed models: bounded components, positive denominator, and a
/// surd part that is canonical (radicand 0 for rationals, otherwise a
/// non-square radicand of at least 2; zero is 0/1 with no pi factor).
pub open spec fn sym_wf(x: Sym) -> bool {
    &&& 1 <= x.d <= DEN_BOUND
    &&& -NUM_BOUND <= x.a <= NUM_BOUND
    &&& -NUM_BOUND <= x.b <= NUM_BOUND
    &&& 0 <= x.r <= RAD_BOUND
    &&& -PI_BOUND <= x.k <= PI_BOUND
    &&& (x.b == 0 ==> x.r == 0)
    &&& (x.b != 0 ==> 2 <= x.r && !is_square(x.r))
    &&& (x.a == 0 && x.b == 0 ==> x.d == 1 && x.k == 0 && x.r == 0)
}

/// The model of the number zero.
pub open spec fn sym_zero() -> Sym {
    Sym { a: 0, b: 0, d: 1, r: 0, k: 0 }
}

/// The model of the number one.
pub open spec fn sym_one() -> Sym {
    Sym { a: 1, b: 0, d: 1, r: 0, k: 0 }
}

pub open spec fn sym_is_zero(x: Sym) -> bool {
    x.a == 0 && x.b == 0
}

/// Denotational equality of two well-formed models: same value as real
/// numbers.  For non-square radicands the rational parts and the surd
/// parts must agree separately; the surd parts agree exactly when their
/// signs match and their squares match.
pub open spec fn val_eq(x: Sym, y: Sym) -> bool {
    if sym_is_zero(x) && sym_is_zero(y) {
        true
    } else if sym_is_zero(x) || sym_is_zero(y) {
        false
    } else {
        &&& x.k == y.k
        &&& x.a * y.d == y.a * x.d
        &&& sgn(x.b) == sgn(y.b)
        &&& x.b * x.b * x.r * y.d * y.d == y.b * y.b * y.r * x.d * x.d
    }
}

/// Sign of the denoted real number.
pub open spec fn sym_sign(x: Sym) -> int {
    if sym_is_zero(x) {
        0
    } else if x.b == 0 {
        sgn(x.a)
    } else if x.a == 0 {
        sgn(x.b)
    } else if x.a > 0 && x.b > 0 {
        1
    } else if x.a < 0 && x.b < 0 {
        -1
    } else {
        let aa = x.a * x.a;
        let bb = x.b * x.b * x.r;
        if aa == bb {
            0
        } else if aa > bb {
            sgn(x.a)
        } else {
            sgn(x.b)
        }
    }
}

/// Greatest common divisor on non-negative integers.
pub open spec fn gcd_spec(a: int, b: int) -> int
    decreases b,
{
    if b <= 0 {
        a
    } else {
        gcd_spec(b, a % b)
    }
}

/// Magnitude-directed division: divides |v| by g and restores the sign,
/// matching an executable division on magnitudes.
pub open spec fn div_mag(v: int, g: int) -> int {
    if v >= 0 {
        v / g
    } else {
        -((-v) / g)
    }
}

/// Reduce a raw quadruple by the common divisor of its integer parts and
/// canonicalise the zero and rational cases.
pub open spec fn sym_reduce(a: int, b: int, d: int, r: int, k: int) -> Sym {
    if a == 0 && b == 0 {
        sym_zero()
    } else {
        let rr = if b == 0 { 0 } else { r };
        let g = gcd_spec(gcd_spec(if a >= 0 { a } else { -a }, if b >= 0 { b } else { -b }), d);
        Sym { a: div_mag(a, g), b: div_mag(b, g), d: d / g, r: rr, k: k }
    }
}

/// Reduce a raw quadruple and fit it under the capacity bounds; `None`
/// when some reduced component is still out of range.
pub open spec fn sym_norm(a: int, b: int, d: int, r: int, k: int) -> Option<Sym> {
    let red = sym_reduce(a, b, d, r, k);
    if -NUM_BOUND <= red.a <= NUM_BOUND && -NUM_BOUND <= red.b <= NUM_BOUND && 1 <= red.d
        <= DEN_BOUND && 0 <= red.r <= RAD_BOUND && -PI_BOUND <= red.k <= PI_BOUND {
        Some(red)
    } else {
        None
    }
}

/// Negation of the model.
pub open spec fn sym_neg(x: Sym) -> Sym {
    Sym { a: -x.a, b: -x.b, d: x.d, r: x.r, k: x.k }
}

/// Addition on models.  Defined when the operands share a pi power and
/// their radicands are commensurable (equal, or with a perfect-square
/// product); `None` otherwise or when the result exceeds capacity.
pub open spec fn sym_add(x: Sym, y: Sym) -> Option<Sym> {
    if sym_is_zero(x) {
        Some(y)
    } else if sym_is_zero(y) {
        Some(x)
    } else if x.k != y.k {
        None
    } else if x.b == 0 || y.b == 0 || x.r == y.r {
        let rr = if x.b != 0 { x.r } else { y.r };
        sym_norm(x.a * y.d + y.a * x.d, x.b * y.d + y.b * x.d, x.d * y.d, rr, x.k)
    } else {
        let p = x.r * y.r;
        let s = isqrt_spec(p);
        if s * s == p {
            sym_norm(
                x.a * y.d * x.r + y.a * x.d * x.r,
                x.b * y.d * x.r + y.b * s * x.d,
                x.d * y.d * x.r,
                x.r,
                x.k,
            )
        } else {
            None
        }
    }
}

/// Multiplication on models; pi powers add.
pub open spec fn sym_mul(x: Sym, y: Sym) -> Option<Sym> {
    if sym_is_zero(x) || sym_is_zero(y) {
        Some(sym_zero())
    } else if x.b == 0 || y.b == 0 || x.r == y.r {
        let rr = if x.b != 0 { x.r } else { y.r };
        sym_norm(
            x.a * y.a + x.b * y.b * x.r,
            x.a * y.b + x.b * y.a,
            x.d * y.d,
            rr,
            x.k + y.k,
        )
    } else {
        let p = x.r * y.r;
        let s = isqrt_spec(p);
        if s * s == p {
            sym_norm(
                x.a * y.a * x.r + x.b * y.b * s * x.r,
                x.a * y.b * s + x.b * y.a * x.r,
                x.d * y.d * x.r,
                x.r,
                x.k + y.k,
            )
        } else {
            None
        }
    }
}

/// Reciprocal on models, by the conjugate: 1/((a+b*sqrt(r))/d) =
/// d*(a-b*sqrt(r))/(a*a-b*b*r); the pi power negates.
pub open spec fn sym_recip(x: Sym) -> Option<Sym> {
    if sym_is_zero(x) {
        None
    } else {
        let den = x.a * x.a - x.b * x.b * x.r;
        if den == 0 {
            None
        } else if den > 0 {
            sym_norm(x.d * x.a, -(x.d * x.b), den, x.r, -x.k)
        } else {
            sym_norm(-(x.d * x.a), x.d * x.b, -den, x.r, -x.k)
        }
    }
}

/// Square root on models: defined for non-negative rationals with an
/// even pi power; folds perfect squares, otherwise produces a surd.
pub open spec fn sym_sqrt(x: Sym) -> Option<Sym> {
    if sym_is_zero(x) {
        Some(sym_zero())
    } else if x.b != 0 || x.a < 0 || (if x.k >= 0 { x.k } else { -x.k }) % 2 != 0 {
        None
    } else {
        let p = x.a * x.d;
        let s = isqrt_spec(p);
        if s * s == p {
            sym_norm(s, 0, x.d, 0, div_mag(x.k, 2))
        } else if p <= RAD_BOUND {
            sym_norm(0, 1, x.d, p, div_mag(x.k, 2))
        } else {
            None
        }
    }
}

/// Division on models, as multiplication by the reciprocal.
pub open spec fn sym_div(x: Sym, y: Sym) -> Option<Sym> {
    match sym_recip(y) {
        Some(inv_y) => sym_mul(x, inv_y),
        None => None,
    }
}

/// Strict order of two pure surds b*sqrt(r)/d: by sign, then by the
/// squares, which preserve the order of non-negative reals.
pub open spec fn surd_less(x: Sym, y: Sym) -> bool {
    if sgn(x.b) != sgn(y.b) {
        sgn(x.b) < sgn(y.b)
    } else if x.b >= 0 {
        x.b * x.b * x.r * y.d * y.d < y.b * y.b * y.r * x.d * x.d
    } else {
        x.b * x.b * x.r * y.d * y.d > y.b * y.b * y.r * x.d * x.d
    }
}

/// Whether the difference of two models escapes the representation but
/// both are pure surds with the same pi power, so that order is still
/// decidable through `surd_less`.
pub open spec fn surd_comparable(x: Sym, y: Sym) -> bool {
    x.a == 0 && y.a == 0 && x.k == y.k
}

/// Strict comparison on models, through the sign of the difference;
/// for incommensurable pure surds, by comparing squares; `None` when
/// the order is not decidable in this representation.
pub open spec fn sym_lt(x: Sym, y: Sym) -> Option<bool> {
    match sym_add(x, sym_neg(y)) {
        Some(diff) => Some(sym_sign(diff) < 0),
        None => if surd_comparable(x, y) {
            Some(surd_less(x, y))
        } else {
            None
        },
    }
}

/// Non-strict comparison on models: the negation of the reverse strict
/// order.
pub open spec fn sym_le(x: Sym, y: Sym) -> Option<bool> {
    match sym_add(x, sym_neg(y)) {
        Some(diff) => Some(sym_sign(diff) <= 0),
        None => if surd_comparable(x, y) {
            Some(!surd_less(y, x))
        } else {
            None
        },
    }
}

/// View of an optional scalar as an optional model.
pub open spec fn ov(o: Option<Val>) -> Option<Sym> {
    match o {
        Some(v) => Some(v@),
        None => None,
    }
}

pub proof fn lemma_isqrt_spec_brackets(n: int)
    requires
        0 <= n,
    ensures
        isqrt_spec(n) * isqrt_spec(n) <= n,
        n < (isqrt_spec(n) + 1) * (isqrt_spec(n) + 1),
        0 <= isqrt_spec(n),
    decreases n,
{
    if n == 0 {
        assert(isqrt_spec(0) == 0);
    } else {
        lemma_isqrt_spec_brackets(n - 1);
        let p = isqrt_spec(n - 1);
        assert(p * p <= n - 1);
        assert(n - 1 < (p + 1) * (p + 1));
        if (p + 1) * (p + 1) <= n {
            assert(isqrt_spec(n) == p + 1);
            assert((p + 2) * (p + 2) > (p + 1) * (p + 1)) by (nonlinear_arith)
                requires 0 <= p,
            ;
            assert(n <= (p + 1) * (p + 1));
            assert(n < (p + 2) * (p + 2));
        } else {
            assert(isqrt_spec(n) == p);
            assert(n < (p + 1) * (p + 1));
        }
    }
}

pub proof fn lemma_isqrt_unique(n: int, s: int)
    requires
        0 <= n,
        0 <= s,
        s * s <= n,
        n < (s + 1) * (s + 1),
    ensures
        s == isqrt_spec(n),
{
    lemma_isqrt_spec_brackets(n);
    let t = isqrt_spec(n);
    if s < t {
        assert((s + 1) * (s + 1) <= t * t) by (nonlinear_arith)
            requires 0 <= s, s < t,
        ;
    } else if t < s {
        assert((t + 1) * (t + 1) <= s * s) by (nonlinear_arith)
            requires 0 <= t, t < s,
        ;
    }
}

pub proof fn lemma_gcd_pos(a: int, b: int)
    requires
        0 <= a,
        0 <= b,
        a > 0 || b > 0,
    ensures
        gcd_spec(a, b) > 0,
    decreases b,
{
    if b <= 0 {
    } else {
        lemma_gcd_pos(b, a % b);
    }
}

pub proof fn lemma_gcd_divides(a: int, b: int)
    requires
        0 <= a,
        0 <= b,
        a > 0 || b > 0,
    ensures
        a % gcd_spec(a, b) == 0,
        b % gcd_spec(a, b) == 0,
    decreases b,
{
    lemma_gcd_pos(a, b);
    let g = gcd_spec(a, b);
    if b <= 0 {
        assert(g == a);
        vstd::arithmetic::div_mod::lemma_mod_multiples_basic(1, a);
        assert(1 * a == a) by (nonlinear_arith);
        vstd::arithmetic::div_mod::lemma_mod_multiples_basic(0, a);
        assert(0 * a == 0) by (nonlinear_arith);
    } else {
        lemma_gcd_divides(b, a % b);
        assert(g == gcd_spec(b, a % b));
        lemma_exact_div(b, g);
        lemma_exact_div(a % b, g);
        vstd::arithmetic::div_mod::lemma_fundamental_div_mod(a, b);
        assert(a == b * (a / b) + (a % b));
        let m = (b / g) * (a / b) + (a % b) / g;
        assert(a == g * m) by (nonlinear_arith)
            requires
                a == b * (a / b) + (a % b),
                b == g * (b / g),
                (a % b) == g * ((a % b) / g),
                m == (b / g) * (a / b) + (a % b) / g,
        ;
        vstd::arithmetic::div_mod::lemma_mod_multiples_basic(m, g);
        assert(m * g == g * m) by (nonlinear_arith);
    }
}

/// From `v % g == 0` obtain the exact multiplicative decomposition and
/// the bounds of the exact quotient.
pub proof fn lemma_exact_div(v: int, g: int)
    requires
        0 <= v,
        1 <= g,
        v % g == 0,
    ensures
        v == g * (v / g),
        v / g <= v,
        v >= 1 ==> v / g >= 1,
        v == 0 ==> v / g == 0,
{
    vstd::arithmetic::div_mod::lemma_fundamental_div_mod(v, g);
    assert(v == g * (v / g));
    assert(v / g <= v) by (nonlinear_arith)
        requires
            v == g * (v / g),
            1 <= g,
            0 <= v,
            0 <= v / g,
    ;
    if v >= 1 {
        assert(v / g >= 1) by (nonlinear_arith)
            requires
                v == g * (v / g),
                1 <= g,
                1 <= v,
        ;
    }
    if v == 0 {
        assert(v / g == 0) by (nonlinear_arith)
            requires
                v == g * (v / g),
                1 <= g,
                v == 0,
                0 <= v / g,
        ;
    }
}

/// Divisibility is transitive.
pub proof fn lemma_mod_trans(v: int, g1: int, g: int)
    requires
        0 <= v,
        1 <= g1,
        1 <= g,
        v % g1 == 0,
        g1 % g == 0,
    ensures
        v % g == 0,
{
    lemma_exact_div(v, g1);
    lemma_exact_div(g1, g);
    let m = (g1 / g) * (v / g1);
    assert(v == g * m) by (nonlinear_arith)
        requires
            v == g1 * (v / g1),
            g1 == g * (g1 / g),
            m == (g1 / g) * (v / g1),
    ;
    vstd::arithmetic::div_mod::lemma_mod_multiples_basic(m, g);
    assert(m * g == g * m) by (nonlinear_arith);
}

/// Concrete facts about one and zero used to establish axis directions.
pub proof fn lemma_sym_mul_unit()
    ensures
        sym_mul(sym_one(), sym_one()) == Some(sym_one()),
        sym_mul(sym_zero(), sym_zero()) == Some(sym_zero()),
        sym_add(sym_one(), sym_zero()) == Some(sym_one()),
        sym_add(sym_zero(), sym_zero()) == Some(sym_zero()),
        sym_add(sym_zero(), sym_one()) == Some(sym_one()),
        val_eq(sym_one(), sym_one()),
{
    reveal_with_fuel(gcd_spec, 4);
    assert(1int * 1 == 1) by (nonlinear_arith);
    assert(sym_mul(sym_one(), sym_one()) == sym_norm(1, 0, 1, 0, 0));
    assert(gcd_spec(1, 0) == 1);
    assert(gcd_spec(1, 1) == 1);
    assert(1int / 1 == 1) by (nonlinear_arith);
    assert(0int / 1 == 0) by (nonlinear_arith);
    assert(div_mag(1, 1) == 1);
    assert(div_mag(0, 1) == 0);
    assert(sym_reduce(1, 0, 1, 0, 0) == sym_one());
    assert(sym_norm(1, 0, 1, 0, 0) == Some(sym_one()));
}

/// Normalising a plain bounded rational always succeeds, preserves the
/// denoted value and the sign of the numerator, and yields a rational.
pub proof fn lemma_norm_small(a: int, d: int)
    requires
        -NUM_BOUND <= a <= NUM_BOUND,
        1 <= d <= DEN_BOUND,
    ensures
        sym_norm(a, 0, d, 0, 0) matches Some(v) && {
            &&& v.b == 0
            &&& v.r == 0
            &&& v.k == 0
            &&& 1 <= v.d <= d
            &&& v.a * d == a * v.d
            &&& (a > 0 ==> v.a >= 1)
            &&& (a < 0 ==> v.a <= -1)
            &&& (a == 0 ==> v.a == 0)
            &&& -NUM_BOUND <= v.a <= NUM_BOUND
        },
{
    if a == 0 {
        assert(sym_reduce(0, 0, d, 0, 0) == sym_zero());
        assert(0int * 1 == 0 && 0int * d == 0) by (nonlinear_arith);
    } else {
        let am = if a >= 0 { a } else { -a };
        assert(gcd_spec(am, 0) == am);
        let g = gcd_spec(am, d);
        lemma_gcd_pos(am, d);
        lemma_gcd_divides(am, d);
        lemma_exact_div(am, g);
        lemma_exact_div(d, g);
        let q1 = am / g;
        let q2 = d / g;
        assert(q1 * d == am * q2) by (nonlinear_arith)
            requires
                am == g * q1,
                d == g * q2,
        ;
        if a >= 0 {
            assert(div_mag(a, g) == q1);
        } else {
            assert(div_mag(a, g) == -q1);
            assert((-q1) * d == a * q2) by (nonlinear_arith)
                requires
                    q1 * d == am * q2,
                    am == -a,
            ;
        }
        assert(div_mag(0, g) == 0) by {
            vstd::arithmetic::div_mod::lemma_mod_multiples_basic(0, g);
            assert(0int * g == 0) by (nonlinear_arith);
            lemma_exact_div(0, g);
        };
    }
}

/// Two times pi evaluates to the literal model with pi power one.
pub proof fn lemma_two_pi()
    ensures
        sym_mul(
            Sym { a: 2, b: 0, d: 1, r: 0, k: 0 },
            Sym { a: 1, b: 0, d: 1, r: 0, k: 1 },
        ) == Some(Sym { a: 2, b: 0, d: 1, r: 0, k: 1 }),
{
    reveal_with_fuel(gcd_spec, 4);
    let x = Sym { a: 2, b: 0, d: 1, r: 0, k: 0 };
    let y = Sym { a: 1, b: 0, d: 1, r: 0, k: 1 };
    assert(2int * 1 == 2) by (nonlinear_arith);
    assert(1int * 1 == 1) by (nonlinear_arith);
    assert(x.a * y.a + x.b * y.b * x.r == 2) by (nonlinear_arith)
        requires
            x.a == 2 && x.b == 0 && x.r == 0 && y.a == 1 && y.b == 0,
    ;
    assert(x.a * y.b + x.b * y.a == 0) by (nonlinear_arith)
        requires
            x.a == 2 && x.b == 0 && y.a == 1 && y.b == 0,
    ;
    assert(x.d * y.d == 1) by (nonlinear_arith)
        requires
            x.d == 1 && y.d == 1,
    ;
    assert(sym_mul(x, y) == sym_norm(2, 0, 1, 0, 1));
    assert(gcd_spec(2, 0) == 2);
    assert(gcd_spec(2, 1) == 1);
    assert(2int / 1 == 2) by (nonlinear_arith);
    assert(0int / 1 == 0) by (nonlinear_arith);
    assert(1int / 1 == 1) by (nonlinear_arith);
    assert(div_mag(2, 1) == 2);
    assert(div_mag(0, 1) == 0);
    assert(sym_reduce(2, 0, 1, 0, 1) == Sym { a: 2, b: 0, d: 1, r: 0, k: 1 });
}

/// Negation flips the sign of the denoted real.
pub proof fn lemma_sign_neg(x: Sym)
    ensures
        sym_sign(sym_neg(x)) == -sym_sign(x),
{
    let nx = sym_neg(x);
    assert(nx.a * nx.a == x.a * x.a) by (nonlinear_arith)
        requires
            nx.a == -x.a,
    ;
    assert(nx.b * nx.b * nx.r == x.b * x.b * x.r) by (nonlinear_arith)
        requires
            nx.b == -x.b,
            nx.r == x.r,
    ;
}

/// Multiplying a model by itself is insensitive to negation.
pub proof fn lemma_sym_mul_neg(x: Sym)
    ensures
        sym_mul(sym_neg(x), sym_neg(x)) == sym_mul(x, x),
{
    let nx = sym_neg(x);
    assert(nx.a * nx.a == x.a * x.a) by (nonlinear_arith)
        requires
            nx.a == -x.a,
    ;
    assert(nx.b * nx.b * nx.r == x.b * x.b * x.r) by (nonlinear_arith)
        requires
            nx.b == -x.b,
            nx.r == x.r,
    ;
    assert(nx.a * nx.b + nx.b * nx.a == x.a * x.b + x.b * x.a) by (nonlinear_arith)
        requires
            nx.a == -x.a,
            nx.b == -x.b,
    ;
    assert(nx.d * nx.d == x.d * x.d) by (nonlinear_arith)
        requires
            nx.d == x.d,
    ;
}

/// An exact scalar: ((a + b*sqrt(r)) / d) * pi^k with bounded components.
#[derive(Clone, Copy, Debug)]
pub struct Val {
    a: i64,
    b: i64,
    d: i64,
    r: i64,
    k: i64,
}

impl View for Val {
    type V = Sym;

    closed spec fn view(&self) -> Sym {
        Sym { a: self.a as int, b: self.b as int, d: self.d as int, r: self.r as int, k: self.k as int }
    }
}

impl Val {
    #[verifier::type_invariant]
    spec fn inv(self) -> bool {
        sym_wf(self@)
    }

    /// The integer `n` as a scalar.
    pub fn from_int(n: i32) -> (res: Val)
        ensures
            res@ == (if n == 0 { sym_zero() } else { Sym { a: n as int, b: 0, d: 1, r: 0, k: 0 } }),
    {
        Val { a: n as i64, b: 0, d: 1, r: 0, k: 0 }
    }

    /// The rational `num / den` as a scalar, reduced.
    pub fn ratio(num: i32, den: i32) -> (res: Option<Val>)
        requires
            den >= 1,
        ensures
            ov(res) == sym_norm(num as int, 0, den as int, 0, 0),
    {
        norm(num as i128, 0, den as i128, 0, 0)
    }

    /// The constant pi as a scalar.
    pub fn pi() -> (res: Val)
        ensures
            res@ == (Sym { a: 1, b: 0, d: 1, r: 0, k: 1 }),
    {
        Val { a: 1, b: 0, d: 1, r: 0, k: 1 }
    }

    /// The raw components (a, b, d, r, k) denoting ((a+b*sqrt(r))/d)*pi^k;
    /// for callers outside the verified world, e.g. to print a decimal.
    pub fn parts(&self) -> (res: (i64, i64, i64, i64, i64))
        ensures
            res.0 == self@.a,
            res.1 == self@.b,
            res.2 == self@.d,
            res.3 == self@.r,
            res.4 == self@.k,
    {
        (self.a, self.b, self.d, self.r, self.k)
    }

    /// Whether this scalar is zero.
    pub fn is_zero(&self) -> (res: bool)
        ensures
            res == sym_is_zero(self@),
    {
        self.a == 0 && self.b == 0
    }

    /// Negation; always representable.
    pub fn neg(self) -> (res: Val)
        ensures
            res@ == sym_neg(self@),
    {
        proof {
            use_type_invariant(&self);
        }
        Val { a: -self.a, b: -self.b, d: self.d, r: self.r, k: self.k }
    }

    /// Sign of the denoted real: -1, 0 or 1.
    pub fn sign(&self) -> (res: i64)
        ensures
            res == sym_sign(self@),
    {
        proof {
            use_type_invariant(self);
        }
        if self.a == 0 && self.b == 0 {
            0
        } else if self.b == 0 {
            if self.a > 0 { 1 } else { -1 }
        } else if self.a == 0 {
            if self.b > 0 { 1 } else { -1 }
        } else if self.a > 0 && self.b > 0 {
            1
        } else if self.a < 0 && self.b < 0 {
            -1
        } else {
            let aa: i128 = mul2(self.a, self.a);
            let bb: i128 = mul3(self.b, self.b, self.r);
            if aa == bb {
                0
            } else if aa > bb {
                if self.a > 0 { 1 } else { -1 }
            } else {
                if self.b > 0 { 1 } else { -1 }
            }
        }
    }

    /// Denotational equality with another scalar.
    pub fn equals(&self, other: &Val) -> (res: bool)
        ensures
            res == val_eq(self@, other@),
    {
        proof {
            use_type_invariant(self);
            use_type_invariant(other);
        }
        if self.a == 0 && self.b == 0 {
            other.a == 0 && other.b == 0
        } else if other.a == 0 && other.b == 0 {
            false
        } else {
            let sb: i64 = if self.b > 0 { 1 } else if self.b < 0 { -1 } else { 0 };
            let ob: i64 = if other.b > 0 { 1 } else if other.b < 0 { -1 } else { 0 };
            self.k == other.k && mul2(self.a, other.d) == mul2(other.a, self.d) && sb == ob
                && mul5_bbrdd(self.b, self.r, other.d) == mul5_bbrdd(other.b, other.r, self.d)
        }
    }

    /// Addition; `None` when the radicands are incommensurable, the pi
    /// powers differ, or the reduced result exceeds capacity.
    pub fn add(self, other: Val) -> (res: Option<Val>)
        ensures
            ov(res) == sym_add(self@, other@),
    {
        proof {
            use_type_invariant(&self);
            use_type_invariant(&other);
        }
        if self.a == 0 && self.b == 0 {
            return Some(other);
        }
        if other.a == 0 && other.b == 0 {
            return Some(self);
        }
        if self.k != other.k {
            return None;
        }
        if self.b == 0 || other.b == 0 || self.r == other.r {
            let rr: i64 = if self.b != 0 { self.r } else { other.r };
            let na: i128 = mul2(self.a, other.d) + mul2(other.a, self.d);
            let nb: i128 = mul2(self.b, other.d) + mul2(other.b, self.d);
            let nd: i128 = mul2(self.d, other.d);
            norm(na, nb, nd, rr, self.k)
        } else {
            let p: i128 = mul2(self.r, other.r);
            proof {
                lemma_rad_product_bounds(self@.r, other@.r, p as int);
            }
            let pu: u64 = p as u64;
            let s: u64 = isqrt(pu);
            proof {
                lemma_isqrt_small(pu as int, s as int);
            }
            if (s as i128) * (s as i128) == p {
                let na: i128 = mul3(self.a, other.d, self.r) + mul3(other.a, self.d, self.r);
                let nb: i128 = mul3(self.b, other.d, self.r) + mul3(other.b, s as i64, self.d);
                let nd: i128 = mul3(self.d, other.d, self.r);
                norm(na, nb, nd, self.r, self.k)
            } else {
                None
            }
        }
    }

    /// Subtraction, as addition of the negation.
    pub fn sub(self, other: Val) -> (res: Option<Val>)
        ensures
            ov(res) == sym_add(self@, sym_neg(other@)),
    {
        self.add(other.neg())
    }

    /// Multiplication; pi powers add.
    pub fn mul(self, other: Val) -> (res: Option<Val>)
        ensures
            ov(res) == sym_mul(self@, other@),
    {
        proof {
            use_type_invariant(&self);
            use_type_invariant(&other);
        }
        if (self.a == 0 && self.b == 0) || (other.a == 0 && other.b == 0) {
            return Some(Val { a: 0, b: 0, d: 1, r: 0, k: 0 });
        }
        if self.b == 0 || other.b == 0 || self.r == other.r {
            let rr: i64 = if self.b != 0 { self.r } else { other.r };
            let na: i128 = mul2(self.a, other.a) + mul3(self.b, other.b, self.r);
            let nb: i128 = mul2(self.a, other.b) + mul2(self.b, other.a);
            let nd: i128 = mul2(self.d, other.d);
            norm(na, nb, nd, rr, self.k + other.k)
        } else {
            let p: i128 = mul2(self.r, other.r);
            proof {
                lemma_rad_product_bounds(self@.r, other@.r, p as int);
            }
            let pu: u64 = p as u64;
            let s: u64 = isqrt(pu);
            proof {
                lemma_isqrt_small(pu as int, s as int);
            }
            if (s as i128) * (s as i128) == p {
                let na: i128 = mul3(self.a, other.a, self.r) + mul4(self.b, other.b, s as i64, self.r);
                let nb: i128 = mul3(self.a, other.b, s as i64) + mul3(self.b, other.a, self.r);
                let nd: i128 = mul3(self.d, other.d, self.r);
                norm(na, nb, nd, self.r, self.k + other.k)
            } else {
                None
            }
        }
    }

    /// Reciprocal, by the conjugate; `None` on zero.
    pub fn recip(self) -> (res: Option<Val>)
        ensures
            ov(res) == sym_recip(self@),
    {
        proof {
            use_type_invariant(&self);
        }
        if self.a == 0 && self.b == 0 {
            return None;
        }
        let den: i128 = mul2(self.a, self.a) - mul3(self.b, self.b, self.r);
        if den == 0 {
            None
        } else if den > 0 {
            norm(mul2(self.d, self.a), -mul2(self.d, self.b), den, self.r, -self.k)
        } else {
            norm(-mul2(self.d, self.a), mul2(self.d, self.b), -den, self.r, -self.k)
        }
    }

    /// Division, as multiplication by the reciprocal.
    pub fn div(self, other: Val) -> (res: Option<Val>)
        ensures
            ov(res) == (match sym_recip(other@) {
                Some(inv_o) => sym_mul(self@, inv_o),
                None => None::<Sym>,
            }),
    {
        match other.recip() {
            Some(inv_o) => self.mul(inv_o),
            None => None,
        }
    }

    /// Square root; defined on non-negative rationals with an even pi power.
    pub fn sqrt(self) -> (res: Option<Val>)
        ensures
            ov(res) == sym_sqrt(self@),
    {
        proof {
            use_type_invariant(&self);
        }
        if self.a == 0 && self.b == 0 {
            return Some(Val { a: 0, b: 0, d: 1, r: 0, k: 0 });
        }
        let km: i64 = if self.k >= 0 { self.k } else { -self.k };
        if self.b != 0 || self.a < 0 || km % 2 != 0 {
            return None;
        }
        let kmu: u64 = km as u64;
        let khu: u64 = kmu / 2;
        let kh: i64 = if self.k >= 0 { khu as i64 } else { -(khu as i64) };
        proof {
            assert(kh as int == div_mag(self@.k, 2));
        }
        let p: i128 = mul2(self.a, self.d);
        proof {
            assert(p >= 1) by (nonlinear_arith)
                requires
                    p == self@.a * self@.d,
                    self@.a >= 1,
                    self@.d >= 1,
            ;
            assert(p <= 0x8_0000_0000_0000i128) by (nonlinear_arith)
                requires
                    p == self@.a * self@.d,
                    0 <= self@.a <= NUM_BOUND,
                    1 <= self@.d <= DEN_BOUND,
            ;
        }
        let pu: u64 = p as u64;
        let s: u64 = isqrt(pu);
        if (s as u128) * (s as u128) == pu as u128 {
            proof {
                assert(s as int * s as int == p as int);
                assert(s <= 0x1_0000_0000u64) by (nonlinear_arith)
                    requires
                        s * s <= pu,
                        pu <= 0x8_0000_0000_0000u64,
                ;
            }
            norm(s as i128, 0, self.d as i128, 0, kh)
        } else if p <= RAD_BOUND as i128 {
            proof {
                assert(s as int == isqrt_spec(p as int));
                assert(s as int * s as int != p as int);
                assert(!is_square(p as int));
                if p == 1 {
                    assert(s * s <= pu < (s + 1) * (s + 1));
                    assert(s == 1) by (nonlinear_arith)
                        requires
                            0 <= s,
                            s * s <= 1,
                            1 < (s + 1) * (s + 1),
                    ;
                    assert((s as u128) * (s as u128) == 1u128) by (nonlinear_arith)
                        requires
                            s == 1u64,
                    ;
                    assert(pu as u128 == 1u128);
                    assert(false);
                }
                assert(p >= 2);
            }
            norm(0, 1, self.d as i128, p as i64, kh)
        } else {
            None
        }
    }

    /// Absolute value.
    pub fn abs(self) -> (res: Val)
        ensures
            res@ == (if sym_sign(self@) < 0 { sym_neg(self@) } else { self@ }),
    {
        if self.sign() < 0 {
            self.neg()
        } else {
            self
        }
    }

    /// Strict order; `None` when the two scalars are incomparable within
    /// this representation.
    pub fn lt(self, other: Val) -> (res: Option<bool>)
        ensures
            res == sym_lt(self@, other@),
    {
        match self.sub(other) {
            Some(diff) => Some(diff.sign() < 0),
            None => if self.a == 0 && other.a == 0 && self.k == other.k {
                Some(self.surd_less_exec(&other))
            } else {
                None
            },
        }
    }

    /// Non-strict order.
    pub fn le(self, other: Val) -> (res: Option<bool>)
        ensures
            res == sym_le(self@, other@),
    {
        match self.sub(other) {
            Some(diff) => Some(diff.sign() <= 0),
            None => if self.a == 0 && other.a == 0 && self.k == other.k {
                Some(!other.surd_less_exec(&self))
            } else {
                None
            },
        }
    }

    /// The pure-surd order, mirroring `surd_less`.
    fn surd_less_exec(&self, other: &Val) -> (res: bool)
        ensures
            res == surd_less(self@, other@),
    {
        proof {
            use_type_invariant(self);
            use_type_invariant(other);
        }
        let sb: i64 = if self.b > 0 { 1 } else if self.b < 0 { -1 } else { 0 };
        let ob: i64 = if other.b > 0 { 1 } else if other.b < 0 { -1 } else { 0 };
        if sb != ob {
            sb < ob
        } else {
            let lhs: i128 = mul5_bbrdd(self.b, self.r, other.d);
            let rhs: i128 = mul5_bbrdd(other.b, other.r, self.d);
            if self.b >= 0 {
                lhs < rhs
            } else {
                lhs > rhs
            }
        }
    }
}

/// Exact product of two bounded components.
fn mul2(x: i64, y: i64) -> (p: i128)
    requires
        -NUM_BOUND <= x <= NUM_BOUND,
        -NUM_BOUND <= y <= NUM_BOUND,
    ensures
        p == x * y,
        -0x4000_0000_0000_0000_0000i128 <= p <= 0x4000_0000_0000_0000_0000i128,
        x >= 1 && y >= 1 ==> p >= 1,
{
    proof {
        lemma_abs_mul(x as int, y as int, NUM_BOUND as int, NUM_BOUND as int);
        if x >= 1 && y >= 1 {
            assert(x * y >= 1) by (nonlinear_arith)
                requires x >= 1, y >= 1,
            ;
        }
    }
    (x as i128) * (y as i128)
}

/// Exact product of three bounded components.
fn mul3(x: i64, y: i64, z: i64) -> (p: i128)
    requires
        -NUM_BOUND <= x <= NUM_BOUND,
        -NUM_BOUND <= y <= NUM_BOUND,
        -NUM_BOUND <= z <= NUM_BOUND,
    ensures
        p == x * y * z,
        -0x2000_0000_0000_0000_0000_0000_0000i128 <= p
            <= 0x2000_0000_0000_0000_0000_0000_0000i128,
        x >= 1 && y >= 1 && z >= 1 ==> p >= 1,
{
    proof {
        lemma_abs_mul(x as int, y as int, NUM_BOUND as int, NUM_BOUND as int);
        lemma_abs_mul(x * y, z as int, 0x4000_0000_0000_0000_0000, NUM_BOUND as int);
        if x >= 1 && y >= 1 && z >= 1 {
            assert(x * y * z >= 1) by (nonlinear_arith)
                requires x >= 1, y >= 1, z >= 1,
            ;
        }
    }
    (x as i128) * (y as i128) * (z as i128)
}

/// Exact product of four bounded components, the last two small.
fn mul4(x: i64, y: i64, s: i64, r: i64) -> (p: i128)
    requires
        -NUM_BOUND <= x <= NUM_BOUND,
        -NUM_BOUND <= y <= NUM_BOUND,
        0 <= s <= RAD_BOUND,
        0 <= r <= RAD_BOUND,
    ensures
        p == x * y * s * r,
        -0x2000_0000_0000_0000_0000_0000_0000i128 <= p
            <= 0x2000_0000_0000_0000_0000_0000_0000i128,
{
    proof {
        lemma_abs_mul(x as int, y as int, NUM_BOUND as int, NUM_BOUND as int);
        lemma_abs_mul(x * y, s as int, NUM_BOUND as int * NUM_BOUND as int, RAD_BOUND as int);
        lemma_abs_mul(
            x * y * s,
            r as int,
            NUM_BOUND as int * NUM_BOUND as int * RAD_BOUND as int,
            RAD_BOUND as int,
        );
    }
    (x as i128) * (y as i128) * (s as i128) * (r as i128)
}

proof fn lemma_rad_product_bounds(r1: int, r2: int, p: int)
    by (nonlinear_arith)
    requires
        0 <= r1 <= RAD_BOUND,
        0 <= r2 <= RAD_BOUND,
        p == r1 * r2,
    ensures
        0 <= p <= 0x1000_0000_0000,
{
}

proof fn lemma_isqrt_small(pu: int, s: int)
    by (nonlinear_arith)
    requires
        0 <= pu <= 0x1000_0000_0000,
        0 <= s,
        s * s <= pu,
    ensures
        s <= RAD_BOUND,
{
}

/// Exact value of b*b*r*d*d for the surd-part comparison in `equals`.
fn mul5_bbrdd(b: i64, r: i64, d: i64) -> (p: i128)
    requires
        -NUM_BOUND <= b <= NUM_BOUND,
        0 <= r <= RAD_BOUND,
        1 <= d <= DEN_BOUND,
    ensures
        p == b * b * r * d * d,
{
    proof {
        lemma_abs_mul(b as int, b as int, NUM_BOUND as int, NUM_BOUND as int);
        lemma_abs_mul(b * b, r as int, NUM_BOUND as int * NUM_BOUND as int, RAD_BOUND as int);
        lemma_abs_mul(
            b * b * r,
            d as int,
            NUM_BOUND as int * NUM_BOUND as int * RAD_BOUND as int,
            DEN_BOUND as int,
        );
        lemma_abs_mul(
            b * b * r * d,
            d as int,
            NUM_BOUND as int * NUM_BOUND as int * RAD_BOUND as int * DEN_BOUND as int,
            DEN_BOUND as int,
        );
    }
    (b as i128) * (b as i128) * (r as i128) * (d as i128) * (d as i128)
}

proof fn lemma_abs_mul(x: int, y: int, bx: int, by: int)
    by (nonlinear_arith)
    requires
        -bx <= x <= bx,
        -by <= y <= by,
        0 <= bx,
        0 <= by,
    ensures
        -(bx * by) <= x * y <= bx * by,
{
}

/// Floor square root of a 64-bit number, by binary search.
fn isqrt(n: u64) -> (s: u64)
    ensures
        s * s <= n < (s + 1) * (s + 1),
        s as int == isqrt_spec(n as int),
{
    let mut lo: u64 = 0;
    let mut hi: u64 = 4294967296;
    while lo + 1 < hi
        invariant
            lo < hi <= 4294967296,
            lo * lo <= n,
            (n as u128) < (hi as u128) * (hi as u128),
        decreases hi - lo,
    {
        let mid: u64 = lo + (hi - lo) / 2;
        proof {
            assert(mid < 0x2_0000_0000u64);
            assert((mid as int) * (mid as int) < 0x2_0000_0000 * 0x2_0000_0000) by (
            nonlinear_arith)
                requires
                    0 <= mid < 0x2_0000_0000,
            ;
        }
        if (mid as u128) * (mid as u128) <= n as u128 {
            lo = mid;
        } else {
            hi = mid;
        }
    }
    proof {
        assert(hi == lo + 1);
        assert((n as u128) < (hi as u128) * (hi as u128));
        assert(n < (lo + 1) * (lo + 1));
        lemma_isqrt_unique(n as int, lo as int);
    }
    lo
}

/// Greatest common divisor by Euclid's algorithm, matching `gcd_spec`.
fn gcd_u(x0: u128, y0: u128) -> (g: u128)
    ensures
        g as int == gcd_spec(x0 as int, y0 as int),
{
    let mut x: u128 = x0;
    let mut y: u128 = y0;
    while y != 0
        invariant
            gcd_spec(x as int, y as int) == gcd_spec(x0 as int, y0 as int),
        decreases y,
    {
        let t: u128 = x % y;
        x = y;
        y = t;
    }
    x
}

/// Reduce a raw quadruple and fit it into a `Val`, mirroring `sym_norm`.
fn norm(a: i128, b: i128, d: i128, r: i64, k: i64) -> (res: Option<Val>)
    requires
        1 <= d <= 0x100_0000_0000_0000_0000_0000_0000_0000,
        -0x100_0000_0000_0000_0000_0000_0000_0000 <= a <= 0x100_0000_0000_0000_0000_0000_0000_0000,
        -0x100_0000_0000_0000_0000_0000_0000_0000 <= b <= 0x100_0000_0000_0000_0000_0000_0000_0000,
        0 <= r <= RAD_BOUND,
        b != 0 ==> 2 <= r && !is_square(r as int),
        -128 <= k <= 128,
    ensures
        ov(res) == sym_norm(a as int, b as int, d as int, r as int, k as int),
{
    if a == 0 && b == 0 {
        return Some(Val { a: 0, b: 0, d: 1, r: 0, k: 0 });
    }
    let rr: i64 = if b == 0 { 0 } else { r };
    let am: u128 = if a >= 0 { a as u128 } else { (-a) as u128 };
    let bm: u128 = if b >= 0 { b as u128 } else { (-b) as u128 };
    let g1: u128 = gcd_u(am, bm);
    let g: u128 = gcd_u(g1, d as u128);
    proof {
        lemma_gcd_pos(am as int, bm as int);
        lemma_gcd_divides(am as int, bm as int);
        lemma_gcd_pos(g1 as int, d as int);
        lemma_gcd_divides(g1 as int, d as int);
        lemma_mod_trans(am as int, g1 as int, g as int);
        lemma_mod_trans(bm as int, g1 as int, g as int);
        lemma_exact_div(am as int, g as int);
        lemma_exact_div(bm as int, g as int);
        lemma_exact_div(d as int, g as int);
    }
    let ar: u128 = am / g;
    let br: u128 = bm / g;
    let dr: u128 = (d as u128) / g;
    if ar > NUM_BOUND as u128 || br > NUM_BOUND as u128 || dr > DEN_BOUND as u128 || k < -PI_BOUND
        || k > PI_BOUND {
        return None;
    }
    let na: i64 = if a >= 0 { ar as i64 } else { -(ar as i64) };
    let nb: i64 = if b >= 0 { br as i64 } else { -(br as i64) };
    Some(Val { a: na, b: nb, d: dr as i64, r: rr, k: k })
}

} // verus!
