use vstd::prelude::*;

use crate::algebra::{unit3, vadd, vdot, vneg, Point, UnitVector};
use crate::geometry::{dr_contains, ray_at, BoundingBox, DisRange, Ray, RayIntersection, ShapeId,
    ShapeKind, SurfaceSide};
use crate::num::{sym_div, sym_is_zero, sym_mul, sym_sign, val_eq, Sym};
use crate::sampling::LightSampler;

verus! {

// An infinite plane, given by a point on it and its unit normal.

/// The outcome of intersecting a ray with a plane, on the model side:
/// hit distance, hit position, and whether the front face was struck.
/// `None` both when there is no admissible hit and when a step of the
/// exact arithmetic is not representable.
pub open spec fn plane_hit_spec(
    start: (Sym, Sym, Sym),
    dir: (Sym, Sym, Sym),
    range: DisRange,
    point: (Sym, Sym, Sym),
    normal: (Sym, Sym, Sym),
) -> Option<(Sym, (Sym, Sym, Sym), bool)> {
    match vdot(dir, normal) {
        None => None,
        Some(den) => if sym_is_zero(den) {
            None
        } else {
            match vadd(point, vneg(start)) {
                None => None,
                Some(tc) => match vdot(tc, normal) {
                    None => None,
                    Some(num) => match sym_div(num, den) {
                        None => None,
                        Some(dist) => if sym_sign(dist) != 1 {
                            None
                        } else if dr_contains(range, dist) != Some(true) {
                            None
                        } else {
                            match sym_mul(dist, den) {
                                None => None,
                                Some(chk) => if !val_eq(chk, num) {
                                    None
                                } else {
                                    match ray_at(start, dir, dist) {
                                        None => None,
                                        Some(pos) => Some((dist, pos, sym_sign(den) < 0)),
                                    }
                                },
                            }
                        },
                    },
                },
            }
        },
    }
}

/// The plane equation at the returned distance: dist * (d . n) equals
/// (p - o) . n, stated over the models.
pub open spec fn plane_eqn_holds(
    start: (Sym, Sym, Sym),
    dir: (Sym, Sym, Sym),
    point: (Sym, Sym, Sym),
    normal: (Sym, Sym, Sym),
    dist: Sym,
) -> bool {
    match vdot(dir, normal) {
        None => false,
        Some(den) => !sym_is_zero(den) && (match vadd(point, vneg(start)) {
            None => false,
            Some(tc) => match vdot(tc, normal) {
                None => false,
                Some(num) => match sym_mul(dist, den) {
                    None => false,
                    Some(chk) => val_eq(chk, num),
                },
            },
        }),
    }
}

#[derive(Clone, Copy, Debug)]
pub struct Plane {
    point: Point,
    normal: UnitVector,
}

impl View for Plane {
    type V = ((Sym, Sym, Sym), (Sym, Sym, Sym));

    closed spec fn view(&self) -> ((Sym, Sym, Sym), (Sym, Sym, Sym)) {
        (self.point@, self.normal@)
    }
}

impl Plane {
    pub fn new(point: Point, normal: UnitVector) -> (res: Plane)
        ensures
            res@ == (point@, normal@),
    {
        Plane { point, normal }
    }

    pub fn point(&self) -> (res: Point)
        ensures
            res@ == self@.0,
    {
        self.point
    }

    pub fn normal(&self) -> (res: UnitVector)
        ensures
            res@ == self@.1,
            unit3(res@),
    {
        let n = self.normal;
        proof {
            use_type_invariant(&n);
        }
        n
    }

    /// Ray-plane intersection: the distance solves
    /// dist * (direction . normal) == (point - origin) . normal, the
    /// position is origin + dist * direction, and the returned normal and
    /// side are oriented by the sign of the denominator.  A parallel ray
    /// (zero denominator), a non-positive or out-of-range distance, and
    /// an unrepresentable step all yield `None`.
    pub fn calc_ray_intersection(
        ray: &Ray,
        range: DisRange,
        point: &Point,
        normal: &UnitVector,
    ) -> (res: Option<RayIntersection>)
        ensures
            (match res {
                Some(ri) => plane_hit_spec(ray.start@, ray.direction@, range, point@, normal@)
                    == Some((ri.distance@, ri.position@, ri.side == SurfaceSide::Front))
                    && ri.normal@ == (if ri.side == SurfaceSide::Front {
                    normal@
                } else {
                    vneg(normal@)
                }),
                None => plane_hit_spec(ray.start@, ray.direction@, range, point@, normal@)
                    == None::<(Sym, (Sym, Sym, Sym), bool)>,
            }),
            res matches Some(ri) ==> sym_sign(ri.distance@) == 1,
            res matches Some(ri) ==> dr_contains(range, ri.distance@) == Some(true),
            res matches Some(ri) ==> plane_eqn_holds(
                ray.start@,
                ray.direction@,
                point@,
                normal@,
                ri.distance@,
            ),
            res matches Some(ri) ==> ray_at(ray.start@, ray.direction@, ri.distance@) == Some(
                ri.position@,
            ),
    {
        let nv = normal.as_vector();
        let den = match ray.direction().as_vector().dot(&nv) {
            None => { return None; },
            Some(d) => d,
        };
        if den.is_zero() {
            return None;
        }
        let tc = match point.sub(&ray.start()) {
            None => { return None; },
            Some(t) => t,
        };
        let num = match tc.dot(&nv) {
            None => { return None; },
            Some(n) => n,
        };
        let dist = match num.div(den) {
            None => { return None; },
            Some(q) => q,
        };
        if dist.sign() != 1 {
            return None;
        }
        let in_range = match range.contains(dist) {
            None => { return None; },
            Some(b) => b,
        };
        if !in_range {
            return None;
        }
        let chk = match dist.mul(den) {
            None => { return None; },
            Some(c) => c,
        };
        if !chk.equals(&num) {
            return None;
        }
        let position = match ray.at(dist) {
            None => { return None; },
            Some(p) => p,
        };
        let front = den.sign() < 0;
        let (out_normal, side) = if front {
            (*normal, SurfaceSide::Front)
        } else {
            (normal.neg(), SurfaceSide::Back)
        };
        Some(RayIntersection::new(dist, position, out_normal, side))
    }

    pub fn shape_kind(&self) -> (res: ShapeKind)
        ensures
            res == ShapeKind::Plane,
    {
        ShapeKind::Plane
    }

    /// Hit test against this plane's own point and normal.
    pub fn hit(&self, ray: &Ray, range: DisRange) -> (res: Option<RayIntersection>)
        ensures
            (match res {
                Some(ri) => plane_hit_spec(ray.start@, ray.direction@, range, self@.0, self@.1)
                    == Some((ri.distance@, ri.position@, ri.side == SurfaceSide::Front))
                    && ri.normal@ == (if ri.side == SurfaceSide::Front {
                    self@.1
                } else {
                    vneg(self@.1)
                }),
                None => plane_hit_spec(ray.start@, ray.direction@, range, self@.0, self@.1)
                    == None::<(Sym, (Sym, Sym, Sym), bool)>,
            }),
    {
        Self::calc_ray_intersection(ray, range, &self.point, &self.normal)
    }

    /// An infinite shape has no bounding box.
    pub fn bounding_box(&self) -> (res: Option<BoundingBox>)
        ensures
            res is None,
    {
        None
    }

    /// A plane is never treated as an area light.
    pub fn get_sampler(&self, shape_id: ShapeId) -> (res: Option<LightSampler>)
        ensures
            res is None,
    {
        None
    }
}

} // verus!
