use vstd::prelude::*;

use crate::num::{
    ov, sym_add, sym_is_zero, sym_mul, sym_neg, sym_one, sym_recip, sym_sign, sym_sqrt, val_eq,
    Sym, Val,
};

verus! {

// Three-component vectors, points and unit vectors over the exact scalar
// `Val`.  Operations mirror spec-level computations on triples of `Sym`,
// so every contract pins the produced components completely.

/// The model of a small integer.
pub open spec fn sym_int(n: int) -> Sym {
    Sym { a: n, b: 0, d: 1, r: 0, k: 0 }
}

/// View of an optional vector as an optional triple of models.
pub open spec fn ovv(o: Option<Vector>) -> Option<(Sym, Sym, Sym)> {
    match o {
        Some(v) => Some(v@),
        None => None,
    }
}

/// Component-wise addition of triples.
pub open spec fn vadd(a: (Sym, Sym, Sym), b: (Sym, Sym, Sym)) -> Option<(Sym, Sym, Sym)> {
    match (sym_add(a.0, b.0), sym_add(a.1, b.1), sym_add(a.2, b.2)) {
        (Some(x), Some(y), Some(z)) => Some((x, y, z)),
        _ => None,
    }
}

/// Component-wise negation of a triple.
pub open spec fn vneg(a: (Sym, Sym, Sym)) -> (Sym, Sym, Sym) {
    (sym_neg(a.0), sym_neg(a.1), sym_neg(a.2))
}

/// Scaling of a triple by a scalar.
pub open spec fn vscale(s: Sym, a: (Sym, Sym, Sym)) -> Option<(Sym, Sym, Sym)> {
    match (sym_mul(s, a.0), sym_mul(s, a.1), sym_mul(s, a.2)) {
        (Some(x), Some(y), Some(z)) => Some((x, y, z)),
        _ => None,
    }
}

/// Component-wise product of triples.
pub open spec fn vmul3(a: (Sym, Sym, Sym), b: (Sym, Sym, Sym)) -> Option<(Sym, Sym, Sym)> {
    match (sym_mul(a.0, b.0), sym_mul(a.1, b.1), sym_mul(a.2, b.2)) {
        (Some(x), Some(y), Some(z)) => Some((x, y, z)),
        _ => None,
    }
}

/// Cross product of two triples.
pub open spec fn vcross(a: (Sym, Sym, Sym), b: (Sym, Sym, Sym)) -> Option<(Sym, Sym, Sym)> {
    let x = match (sym_mul(a.1, b.2), sym_mul(a.2, b.1)) {
        (Some(p), Some(q)) => sym_add(p, sym_neg(q)),
        _ => None,
    };
    let y = match (sym_mul(a.2, b.0), sym_mul(a.0, b.2)) {
        (Some(p), Some(q)) => sym_add(p, sym_neg(q)),
        _ => None,
    };
    let z = match (sym_mul(a.0, b.1), sym_mul(a.1, b.0)) {
        (Some(p), Some(q)) => sym_add(p, sym_neg(q)),
        _ => None,
    };
    match (x, y, z) {
        (Some(xx), Some(yy), Some(zz)) => Some((xx, yy, zz)),
        _ => None,
    }
}

/// Equality of triples as denoted values.
pub open spec fn v3_eq(a: (Sym, Sym, Sym), b: (Sym, Sym, Sym)) -> bool {
    val_eq(a.0, b.0) && val_eq(a.1, b.1) && val_eq(a.2, b.2)
}

/// Dot product of two triples.
pub open spec fn vdot(a: (Sym, Sym, Sym), b: (Sym, Sym, Sym)) -> Option<Sym> {
    match (sym_mul(a.0, b.0), sym_mul(a.1, b.1), sym_mul(a.2, b.2)) {
        (Some(xx), Some(yy), Some(zz)) => match sym_add(xx, yy) {
            Some(t) => sym_add(t, zz),
            None => None,
        },
        _ => None,
    }
}

/// Squared norm of a triple.
pub open spec fn vnorm2(a: (Sym, Sym, Sym)) -> Option<Sym> {
    vdot(a, a)
}

/// Whether a triple denotes a vector of length one.
pub open spec fn unit3(a: (Sym, Sym, Sym)) -> bool {
    match vnorm2(a) {
        Some(n2) => val_eq(n2, sym_one()),
        None => false,
    }
}

/// Normalisation of a triple, with the final unit check mirrored.
pub open spec fn unormalize(a: (Sym, Sym, Sym)) -> Option<(Sym, Sym, Sym)> {
    match vnorm2(a) {
        None => None,
        Some(n2) => match sym_sqrt(n2) {
            None => None,
            Some(s) => if sym_sign(s) != 1 {
                None
            } else {
                match sym_recip(s) {
                    None => None,
                    Some(inv_s) => match vscale(inv_s, a) {
                        None => None,
                        Some(u) => match vnorm2(u) {
                            None => None,
                            Some(n2u) => if val_eq(n2u, sym_one()) {
                                Some(u)
                            } else {
                                None
                            },
                        },
                    },
                }
            },
        },
    }
}

/// Mirror reflection of a direction about a normal, with the reflection
/// law checked: the result is d - 2(d.n)n, renormalised, and its dot
/// product with the normal is the negation of the incoming one.
pub open spec fn reflect_spec(dir: (Sym, Sym, Sym), n: (Sym, Sym, Sym)) -> Option<
    (Sym, Sym, Sym),
> {
    match vdot(dir, n) {
        None => None,
        Some(dn) => match sym_mul(sym_int(2), dn) {
            None => None,
            Some(d2) => match vscale(d2, n) {
                None => None,
                Some(scaled) => match vadd(dir, vneg(scaled)) {
                    None => None,
                    Some(raw) => match unormalize(raw) {
                        None => None,
                        Some(u) => match vdot(u, n) {
                            None => None,
                            Some(rdn) => if val_eq(rdn, sym_neg(dn)) {
                                Some(u)
                            } else {
                                None
                            },
                        },
                    },
                },
            },
        },
    }
}

/// A vector of three exact scalars.
#[derive(Clone, Copy, Debug)]
pub struct Vector {
    pub x: Val,
    pub y: Val,
    pub z: Val,
}

impl View for Vector {
    type V = (Sym, Sym, Sym);

    open spec fn view(&self) -> (Sym, Sym, Sym) {
        (self.x@, self.y@, self.z@)
    }
}

impl Vector {
    pub fn new(x: Val, y: Val, z: Val) -> (res: Vector)
        ensures
            res@ == (x@, y@, z@),
    {
        Vector { x, y, z }
    }

    pub fn add(&self, other: &Vector) -> (res: Option<Vector>)
        ensures
            ovv(res) == vadd(self@, other@),
    {
        match (self.x.add(other.x), self.y.add(other.y), self.z.add(other.z)) {
            (Some(x), Some(y), Some(z)) => Some(Vector { x, y, z }),
            _ => None,
        }
    }

    pub fn sub(&self, other: &Vector) -> (res: Option<Vector>)
        ensures
            ovv(res) == vadd(self@, vneg(other@)),
    {
        self.add(&other.neg())
    }

    pub fn neg(&self) -> (res: Vector)
        ensures
            res@ == vneg(self@),
    {
        Vector { x: self.x.neg(), y: self.y.neg(), z: self.z.neg() }
    }

    pub fn scale(&self, s: Val) -> (res: Option<Vector>)
        ensures
            ovv(res) == vscale(s@, self@),
    {
        match (s.mul(self.x), s.mul(self.y), s.mul(self.z)) {
            (Some(x), Some(y), Some(z)) => Some(Vector { x, y, z }),
            _ => None,
        }
    }

    pub fn dot(&self, other: &Vector) -> (res: Option<Val>)
        ensures
            ov(res) == vdot(self@, other@),
    {
        match (self.x.mul(other.x), self.y.mul(other.y), self.z.mul(other.z)) {
            (Some(xx), Some(yy), Some(zz)) => match xx.add(yy) {
                Some(t) => t.add(zz),
                None => None,
            },
            _ => None,
        }
    }

    pub fn norm_squared(&self) -> (res: Option<Val>)
        ensures
            ov(res) == vnorm2(self@),
    {
        self.dot(self)
    }

    /// Component-wise product, e.g. a color filter applied to a radiance.
    pub fn mul_comp(&self, other: &Vector) -> (res: Option<Vector>)
        ensures
            ovv(res) == vmul3(self@, other@),
    {
        match (self.x.mul(other.x), self.y.mul(other.y), self.z.mul(other.z)) {
            (Some(x), Some(y), Some(z)) => Some(Vector { x, y, z }),
            _ => None,
        }
    }

    /// Cross product.
    pub fn cross(&self, other: &Vector) -> (res: Option<Vector>)
        ensures
            ovv(res) == vcross(self@, other@),
    {
        let x = match (self.y.mul(other.z), self.z.mul(other.y)) {
            (Some(p), Some(q)) => p.sub(q),
            _ => None,
        };
        let y = match (self.z.mul(other.x), self.x.mul(other.z)) {
            (Some(p), Some(q)) => p.sub(q),
            _ => None,
        };
        let z = match (self.x.mul(other.y), self.y.mul(other.x)) {
            (Some(p), Some(q)) => p.sub(q),
            _ => None,
        };
        match (x, y, z) {
            (Some(xx), Some(yy), Some(zz)) => Some(Vector { x: xx, y: yy, z: zz }),
            _ => None,
        }
    }

    /// Denotational equality of the components.
    pub fn equals(&self, other: &Vector) -> (res: bool)
        ensures
            res == v3_eq(self@, other@),
    {
        self.x.equals(&other.x) && self.y.equals(&other.y) && self.z.equals(&other.z)
    }

    /// Normalise to a unit vector; `None` on the zero vector or when the
    /// normalised components are not representable.
    pub fn normalize(&self) -> (res: Option<UnitVector>)
        ensures
            (match res {
                Some(u) => unormalize(self@) == Some(u@),
                None => unormalize(self@) == None::<(Sym, Sym, Sym)>,
            }),
            res matches Some(u) ==> unit3(u@),
    {
        match self.norm_squared() {
            None => None,
            Some(n2) => match n2.sqrt() {
                None => None,
                Some(s) => if s.sign() != 1 {
                    None
                } else {
                    match s.recip() {
                        None => None,
                        Some(inv_s) => match self.scale(inv_s) {
                            None => None,
                            Some(u) => match u.norm_squared() {
                                None => None,
                                Some(n2u) => if n2u.equals(&Val::from_int(1)) {
                                    Some(UnitVector { v: u })
                                } else {
                                    None
                                },
                            },
                        },
                    }
                },
            },
        }
    }
}

/// A point in space, as three exact coordinates.
#[derive(Clone, Copy, Debug)]
pub struct Point {
    pub x: Val,
    pub y: Val,
    pub z: Val,
}

impl View for Point {
    type V = (Sym, Sym, Sym);

    open spec fn view(&self) -> (Sym, Sym, Sym) {
        (self.x@, self.y@, self.z@)
    }
}

impl Point {
    pub fn new(x: Val, y: Val, z: Val) -> (res: Point)
        ensures
            res@ == (x@, y@, z@),
    {
        Point { x, y, z }
    }

    /// The vector from `other` to `self`.
    pub fn sub(&self, other: &Point) -> (res: Option<Vector>)
        ensures
            ovv(res) == vadd(self@, vneg(other@)),
    {
        match (self.x.sub(other.x), self.y.sub(other.y), self.z.sub(other.z)) {
            (Some(x), Some(y), Some(z)) => Some(Vector { x, y, z }),
            _ => None,
        }
    }

    /// Denotational equality of the coordinates.
    pub fn equals(&self, other: &Point) -> (res: bool)
        ensures
            res == v3_eq(self@, other@),
    {
        self.x.equals(&other.x) && self.y.equals(&other.y) && self.z.equals(&other.z)
    }

    /// The point reached from `self` along `v`.
    pub fn translate(&self, v: &Vector) -> (res: Option<Point>)
        ensures
            (match res {
                Some(p) => vadd(self@, v@) == Some(p@),
                None => vadd(self@, v@) == None::<(Sym, Sym, Sym)>,
            }),
    {
        match (self.x.add(v.x), self.y.add(v.y), self.z.add(v.z)) {
            (Some(x), Some(y), Some(z)) => Some(Point { x, y, z }),
            _ => None,
        }
    }
}

/// A direction: a vector whose squared norm is exactly one.
#[derive(Clone, Copy, Debug)]
pub struct UnitVector {
    v: Vector,
}

impl View for UnitVector {
    type V = (Sym, Sym, Sym);

    closed spec fn view(&self) -> (Sym, Sym, Sym) {
        self.v@
    }
}

impl UnitVector {
    /// The type invariant: a `UnitVector` always has squared norm one;
    /// obtain it with `use_type_invariant`.
    #[verifier::type_invariant]
    pub open spec fn inv(self) -> bool {
        unit3(self@)
    }

    /// The underlying vector.
    pub fn as_vector(&self) -> (res: Vector)
        ensures
            res@ == self@,
            unit3(res@),
    {
        proof {
            use_type_invariant(self);
        }
        self.v
    }

    /// The +x axis.
    pub fn x_direction() -> (res: UnitVector)
        ensures
            res@ == (sym_int(1), sym_int(0), sym_int(0)),
    {
        let one = Val::from_int(1);
        let zero = Val::from_int(0);
        let v = Vector { x: one, y: zero, z: zero };
        proof {
            lemma_unit_axis(v@);
        }
        UnitVector { v }
    }

    /// The +y axis.
    pub fn y_direction() -> (res: UnitVector)
        ensures
            res@ == (sym_int(0), sym_int(1), sym_int(0)),
    {
        let one = Val::from_int(1);
        let zero = Val::from_int(0);
        let v = Vector { x: zero, y: one, z: zero };
        proof {
            lemma_unit_axis(v@);
        }
        UnitVector { v }
    }

    /// The +z axis.
    pub fn z_direction() -> (res: UnitVector)
        ensures
            res@ == (sym_int(0), sym_int(0), sym_int(1)),
    {
        let one = Val::from_int(1);
        let zero = Val::from_int(0);
        let v = Vector { x: zero, y: zero, z: one };
        proof {
            lemma_unit_axis(v@);
        }
        UnitVector { v }
    }

    /// Denotational equality of the components.
    pub fn equals(&self, other: &UnitVector) -> (res: bool)
        ensures
            res == v3_eq(self@, other@),
    {
        self.v.equals(&other.v)
    }

    /// The opposite direction.
    pub fn neg(&self) -> (res: UnitVector)
        ensures
            res@ == vneg(self@),
    {
        proof {
            use_type_invariant(self);
            lemma_vneg_norm2(self.v@);
        }
        UnitVector { v: self.v.neg() }
    }
}

/// Mirror reflection of `dir` about `normal`: d - 2(d.n)n, renormalised.
/// When it returns a direction, that direction is unit length and makes
/// the same angle with the normal as the incoming one:
/// reflect(d, n) . n == -(d . n).
pub fn reflect_dir(dir: &UnitVector, normal: &UnitVector) -> (res: Option<UnitVector>)
    ensures
        (match res {
            Some(u) => reflect_spec(dir@, normal@) == Some(u@),
            None => reflect_spec(dir@, normal@) == None::<(Sym, Sym, Sym)>,
        }),
        res matches Some(u) ==> unit3(u@),
        res matches Some(u) ==> (match (vdot(u@, normal@), vdot(dir@, normal@)) {
            (Some(rdn), Some(dn)) => val_eq(rdn, sym_neg(dn)),
            _ => false,
        }),
{
    let dv = dir.as_vector();
    let nv = normal.as_vector();
    match dv.dot(&nv) {
        None => None,
        Some(dn) => match Val::from_int(2).mul(dn) {
            None => None,
            Some(d2) => match nv.scale(d2) {
                None => None,
                Some(scaled) => match dv.sub(&scaled) {
                    None => None,
                    Some(raw) => match raw.normalize() {
                        None => None,
                        Some(u) => {
                            let uv = u.as_vector();
                            match uv.dot(&nv) {
                                None => None,
                                Some(rdn) => if rdn.equals(&dn.neg()) {
                                    Some(u)
                                } else {
                                    None
                                },
                            }
                        },
                    },
                },
            },
        },
    }
}

/// An axis vector (a single one among zeros) has squared norm one.
proof fn lemma_unit_axis(a: (Sym, Sym, Sym))
    requires
        (a.0 == sym_int(1) || a.0 == sym_int(0)),
        (a.1 == sym_int(1) || a.1 == sym_int(0)),
        (a.2 == sym_int(1) || a.2 == sym_int(0)),
        sym_int(1) == a.0 || sym_int(1) == a.1 || sym_int(1) == a.2,
        (a.0 == sym_int(1) ==> a.1 == sym_int(0) && a.2 == sym_int(0)),
        (a.1 == sym_int(1) ==> a.0 == sym_int(0) && a.2 == sym_int(0)),
        (a.2 == sym_int(1) ==> a.0 == sym_int(0) && a.1 == sym_int(0)),
    ensures
        unit3(a),
{
    crate::num::lemma_sym_mul_unit();
    assert(unit3(a));
}

/// Negating every component leaves the squared norm unchanged.
proof fn lemma_vneg_norm2(a: (Sym, Sym, Sym))
    ensures
        vnorm2(vneg(a)) == vnorm2(a),
        unit3(a) ==> unit3(vneg(a)),
{
    crate::num::lemma_sym_mul_neg(a.0);
    crate::num::lemma_sym_mul_neg(a.1);
    crate::num::lemma_sym_mul_neg(a.2);
}

} // verus!
