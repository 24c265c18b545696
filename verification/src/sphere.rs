use vstd::prelude::*;

use crate::algebra::{unit3, unormalize, vadd, vdot, vneg, vnorm2, Point, Vector};
use crate::geometry::{dr_contains, ray_at, BoundingBox, DisRange, Ray, RayIntersection,
    ShapeId, ShapeKind, SurfaceSide};
use crate::num::{sym_add, sym_is_zero, sym_mul, sym_neg, sym_sign, sym_sqrt, val_eq, Sym, Val};

verus! {

// A sphere, given by its center and a strictly positive radius.

/// The outcome of intersecting a ray with a sphere, on the model side:
/// the nearest admissible root of the quadratic, the hit position,
/// whether the ray origin was outside the sphere (front face), and the
/// outward unit normal at the hit, checked to lie on the sphere.
/// `None` both when there is no admissible hit and when a step of the
/// exact arithmetic is not representable.
pub open spec fn sphere_hit_spec(
    center: (Sym, Sym, Sym),
    radius: Sym,
    start: (Sym, Sym, Sym),
    dir: (Sym, Sym, Sym),
    range: DisRange,
) -> Option<(Sym, (Sym, Sym, Sym), bool, (Sym, Sym, Sym))> {
    match vadd(center, vneg(start)) {
        None => None,
        Some(tc) => match vdot(tc, dir) {
            None => None,
            Some(b) => match vnorm2(tc) {
                None => None,
                Some(n2) => match sym_mul(radius, radius) {
                    None => None,
                    Some(r2) => match sym_add(n2, sym_neg(r2)) {
                        None => None,
                        Some(c2) => match sym_mul(b, b) {
                            None => None,
                            Some(b2) => match sym_add(b2, sym_neg(c2)) {
                                None => None,
                                Some(disc) => if sym_sign(disc) < 0 {
                                    None
                                } else {
                                    match sym_sqrt(disc) {
                                        None => None,
                                        Some(sq) => match (
                                            sym_add(b, sym_neg(sq)),
                                            sym_add(b, sq),
                                        ) {
                                            (Some(t1), Some(t2)) => {
                                                let dist = if dr_contains(range, t1) == Some(
                                                    true,
                                                ) {
                                                    Some(t1)
                                                } else if dr_contains(range, t2) == Some(true) {
                                                    Some(t2)
                                                } else {
                                                    None
                                                };
                                                match dist {
                                                    None => None,
                                                    Some(t) => match ray_at(start, dir, t) {
                                                        None => None,
                                                        Some(pos) => match vadd(
                                                            pos,
                                                            vneg(center),
                                                        ) {
                                                            None => None,
                                                            Some(op) => match (
                                                                unormalize(op),
                                                                vnorm2(op),
                                                            ) {
                                                                (Some(on), Some(opn)) => if
                                                                    val_eq(opn, r2) {
                                                                    Some(
                                                                        (
                                                                            t,
                                                                            pos,
                                                                            sym_sign(c2) > 0,
                                                                            on,
                                                                        ),
                                                                    )
                                                                } else {
                                                                    None
                                                                },
                                                                _ => None,
                                                            },
                                                        },
                                                    },
                                                }
                                            },
                                            _ => None,
                                        },
                                    }
                                },
                            },
                        },
                    },
                },
            },
        },
    }
}

/// Why a sphere could not be constructed.
#[derive(Clone, Copy, Debug, PartialEq, Eq, Structural)]
pub enum TryNewSphereError {
    InvalidRadius,
}

#[derive(Clone, Copy, Debug)]
pub struct Sphere {
    center: Point,
    radius: Val,
}

impl View for Sphere {
    type V = ((Sym, Sym, Sym), Sym);

    closed spec fn view(&self) -> ((Sym, Sym, Sym), Sym) {
        (self.center@, self.radius@)
    }
}

impl Sphere {
    /// The type invariant: the radius is strictly positive.
    #[verifier::type_invariant]
    pub open spec fn inv(self) -> bool {
        sym_sign(self@.1) == 1
    }

    /// Construction validates the radius: it succeeds exactly when the
    /// radius is strictly positive, and fails with `InvalidRadius`
    /// otherwise.
    pub fn new(center: Point, radius: Val) -> (res: Result<Sphere, TryNewSphereError>)
        ensures
            (sym_sign(radius@) == 1) <==> res is Ok,
            res matches Ok(s) ==> s@ == (center@, radius@),
            res matches Err(e) ==> e == TryNewSphereError::InvalidRadius,
    {
        if radius.sign() == 1 {
            Ok(Sphere { center, radius })
        } else {
            Err(TryNewSphereError::InvalidRadius)
        }
    }

    pub fn center(&self) -> (res: Point)
        ensures
            res@ == self@.0,
    {
        self.center
    }

    pub fn radius(&self) -> (res: Val)
        ensures
            res@ == self@.1,
            sym_sign(res@) == 1,
    {
        proof {
            use_type_invariant(self);
        }
        self.radius
    }

    pub fn shape_kind(&self) -> (res: ShapeKind)
        ensures
            res == ShapeKind::Sphere,
    {
        ShapeKind::Sphere
    }

    /// Ray-sphere intersection: the nearest root of the quadratic that
    /// lies in the range, with the outward unit normal and the side
    /// derived from whether the origin was outside the sphere.  The
    /// returned position is checked to lie on the sphere exactly.
    pub fn hit(&self, ray: &Ray, range: DisRange) -> (res: Option<RayIntersection>)
        ensures
            (match res {
                Some(ri) => sphere_hit_spec(self@.0, self@.1, ray.start@, ray.direction@, range)
                    matches Some(t) && t.0 == ri.distance@ && t.1 == ri.position@ && (ri.side
                    == SurfaceSide::Front) == t.2 && ri.normal@ == (if t.2 {
                    t.3
                } else {
                    vneg(t.3)
                }),
                None => sphere_hit_spec(self@.0, self@.1, ray.start@, ray.direction@, range)
                    is None,
            }),
            res matches Some(ri) ==> dr_contains(range, ri.distance@) == Some(true),
            res matches Some(ri) ==> ray_at(ray.start@, ray.direction@, ri.distance@) == Some(
                ri.position@,
            ),
            res matches Some(ri) ==> (match (
                vadd(ri.position@, vneg(self@.0)),
                sym_mul(self@.1, self@.1),
            ) {
                (Some(op), Some(r2)) => match vnorm2(op) {
                    Some(opn) => val_eq(opn, r2),
                    None => false,
                },
                _ => false,
            }),
    {
        proof {
            use_type_invariant(self);
        }
        let tc = match self.center.sub(&ray.start()) {
            None => { return None; },
            Some(v) => v,
        };
        let dv = ray.direction().as_vector();
        let b = match tc.dot(&dv) {
            None => { return None; },
            Some(v) => v,
        };
        let n2 = match tc.norm_squared() {
            None => { return None; },
            Some(v) => v,
        };
        let r2 = match self.radius.mul(self.radius) {
            None => { return None; },
            Some(v) => v,
        };
        let c2 = match n2.sub(r2) {
            None => { return None; },
            Some(v) => v,
        };
        let b2 = match b.mul(b) {
            None => { return None; },
            Some(v) => v,
        };
        let disc = match b2.sub(c2) {
            None => { return None; },
            Some(v) => v,
        };
        if disc.sign() < 0 {
            return None;
        }
        let sq = match disc.sqrt() {
            None => { return None; },
            Some(v) => v,
        };
        let t1 = match b.sub(sq) {
            None => { return None; },
            Some(v) => v,
        };
        let t2 = match b.add(sq) {
            None => { return None; },
            Some(v) => v,
        };
        let t1_in = match range.contains(t1) {
            Some(true) => true,
            _ => false,
        };
        let t2_in = match range.contains(t2) {
            Some(true) => true,
            _ => false,
        };
        let dist = if t1_in {
            t1
        } else if t2_in {
            t2
        } else {
            return None;
        };
        let position = match ray.at(dist) {
            None => { return None; },
            Some(p) => p,
        };
        let op = match position.sub(&self.center) {
            None => { return None; },
            Some(v) => v,
        };
        let out_normal = match op.normalize() {
            None => { return None; },
            Some(u) => u,
        };
        let opn = match op.norm_squared() {
            None => { return None; },
            Some(v) => v,
        };
        if !opn.equals(&r2) {
            return None;
        }
        let front = c2.sign() > 0;
        let (normal, side) = if front {
            (out_normal, SurfaceSide::Front)
        } else {
            (out_normal.neg(), SurfaceSide::Back)
        };
        Some(RayIntersection::new(dist, position, normal, side))
    }

    /// The axis-aligned box center +- radius in each coordinate; `None`
    /// only when a coordinate is not representable.
    pub fn bounding_box(&self) -> (res: Option<BoundingBox>)
        ensures
            res matches Some(bb) ==> vadd(self@.0, vneg((self@.1, self@.1, self@.1))) == Some(
                bb.min@,
            ) && vadd(self@.0, (self@.1, self@.1, self@.1)) == Some(bb.max@),
            (res is None) <==> (vadd(self@.0, vneg((self@.1, self@.1, self@.1))) is None || vadd(
                self@.0,
                (self@.1, self@.1, self@.1),
            ) is None),
    {
        let r = self.radius;
        let rv = Vector::new(r, r, r);
        let min = match self.center.translate(&rv.neg()) {
            None => { return None; },
            Some(v) => v,
        };
        let max_v = match self.center.translate(&rv) {
            None => { return None; },
            Some(v) => v,
        };
        Some(BoundingBox::new(min, max_v))
    }

    /// A sphere can serve as an area light, sampled over its subtended
    /// cone and keyed by the given identifier.
    pub fn get_sampler(&self, shape_id: ShapeId) -> (res: Option<crate::sampling::LightSampler>)
        ensures
            (match res {
                Some(s) => s matches crate::sampling::LightSampler::Sphere(ss) && ss@ == (
                    shape_id,
                    self@,
                ),
                None => false,
            }),
    {
        Some(crate::sampling::LightSampler::Sphere(crate::sampling::SphereSampler::new(
            shape_id,
            *self,
        )))
    }
}

} // verus!
