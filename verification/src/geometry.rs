use vstd::prelude::*;

use crate::algebra::{unit3, vadd, vscale, Point, UnitVector, Vector};
use crate::num::{sym_le, sym_lt, Sym, Val};

verus! {

// Rays, distance ranges and intersection records.

/// Which face of a surface a ray struck: the side the stated normal
/// points toward (`Front`) or the opposite one (`Back`).
#[derive(Clone, Copy, Debug, PartialEq, Eq, Structural)]
pub enum SurfaceSide {
    Front,
    Back,
}

/// A ray: an origin and a unit direction.
#[derive(Clone, Copy, Debug)]
pub struct Ray {
    pub start: Point,
    pub direction: UnitVector,
}

/// The point reached by walking `dist` along a ray with the given
/// origin and direction.
pub open spec fn ray_at(start: (Sym, Sym, Sym), dir: (Sym, Sym, Sym), dist: Sym) -> Option<
    (Sym, Sym, Sym),
> {
    match vscale(dist, dir) {
        Some(step) => vadd(start, step),
        None => None,
    }
}

impl Ray {
    pub fn new(start: Point, direction: UnitVector) -> (res: Ray)
        ensures
            res.start@ == start@,
            res.direction@ == direction@,
    {
        Ray { start, direction }
    }

    pub fn start(&self) -> (res: Point)
        ensures
            res@ == self.start@,
    {
        self.start
    }

    pub fn direction(&self) -> (res: UnitVector)
        ensures
            res@ == self.direction@,
    {
        self.direction
    }

    /// origin + dist * direction; `None` when not representable.
    pub fn at(&self, dist: Val) -> (res: Option<Point>)
        ensures
            (match res {
                Some(p) => ray_at(self.start@, self.direction@, dist@) == Some(p@),
                None => ray_at(self.start@, self.direction@, dist@) == None::<(Sym, Sym, Sym)>,
            }),
    {
        let dv = self.direction.as_vector();
        match dv.scale(dist) {
            Some(step) => self.start.translate(&step),
            None => None,
        }
    }
}

/// An interval of admissible hit distances along a ray.
#[derive(Clone, Copy, Debug)]
pub struct DisRange {
    pub lo: Val,
    pub lo_strict: bool,
    pub hi: Option<Val>,
    pub hi_strict: bool,
}

/// Whether `v` lies in the range; `None` when a comparison is not
/// representable.
pub open spec fn dr_contains(r: DisRange, v: Sym) -> Option<bool> {
    let lo_ok = if r.lo_strict {
        sym_lt(r.lo@, v)
    } else {
        sym_le(r.lo@, v)
    };
    match lo_ok {
        None => None,
        Some(b) => if !b {
            Some(false)
        } else {
            match r.hi {
                None => Some(true),
                Some(h) => if r.hi_strict {
                    sym_lt(v, h@)
                } else {
                    sym_le(v, h@)
                },
            }
        },
    }
}

impl DisRange {
    /// All strictly positive distances, excluding self-intersection at
    /// distance zero.
    pub fn positive() -> (res: DisRange)
        ensures
            res.lo@ == crate::algebra::sym_int(0),
            res.lo_strict,
            res.hi is None,
    {
        DisRange { lo: Val::from_int(0), lo_strict: true, hi: None, hi_strict: true }
    }

    /// Membership test, mirroring `dr_contains`.
    pub fn contains(&self, v: Val) -> (res: Option<bool>)
        ensures
            res == dr_contains(*self, v@),
    {
        let lo_ok = if self.lo_strict {
            self.lo.lt(v)
        } else {
            self.lo.le(v)
        };
        match lo_ok {
            None => None,
            Some(b) => if !b {
                Some(false)
            } else {
                match self.hi {
                    None => Some(true),
                    Some(h) => if self.hi_strict {
                        v.lt(h)
                    } else {
                        v.le(h)
                    },
                }
            },
        }
    }
}

/// A hit record: distance along the ray, world position, the surface
/// normal oriented toward the incoming ray, and which face was struck.
#[derive(Clone, Copy, Debug)]
pub struct RayIntersection {
    pub distance: Val,
    pub position: Point,
    pub normal: UnitVector,
    pub side: SurfaceSide,
}

impl RayIntersection {
    pub fn new(distance: Val, position: Point, normal: UnitVector, side: SurfaceSide) -> (res:
        RayIntersection)
        ensures
            res.distance@ == distance@,
            res.position@ == position@,
            res.normal@ == normal@,
            res.side == side,
    {
        RayIntersection { distance, position, normal, side }
    }

    pub fn distance(&self) -> (res: Val)
        ensures
            res@ == self.distance@,
    {
        self.distance
    }

    pub fn position(&self) -> (res: Point)
        ensures
            res@ == self.position@,
    {
        self.position
    }

    pub fn normal(&self) -> (res: UnitVector)
        ensures
            res@ == self.normal@,
            unit3(res@),
    {
        let n = self.normal;
        proof {
            use_type_invariant(&n);
        }
        n
    }

    pub fn side(&self) -> (res: SurfaceSide)
        ensures
            res == self.side,
    {
        self.side
    }
}

/// An axis-aligned box, for shapes of finite extent.
#[derive(Clone, Copy, Debug)]
pub struct BoundingBox {
    pub min: Point,
    pub max: Point,
}

impl BoundingBox {
    pub fn new(min: Point, max: Point) -> (res: BoundingBox)
        ensures
            res.min@ == min@,
            res.max@ == max@,
    {
        BoundingBox { min, max }
    }
}

/// The kind tag of a shape.
#[derive(Clone, Copy, Debug, PartialEq, Eq, Structural)]
pub enum ShapeKind {
    Plane,
    Sphere,
}

/// A stable identifier correlating a light sampler with its shape.
#[derive(Clone, Copy, Debug, PartialEq, Eq, Structural)]
pub struct ShapeId {
    pub kind: ShapeKind,
    pub index: u64,
}

impl ShapeId {
    pub fn new(kind: ShapeKind, index: u64) -> (res: ShapeId)
        ensures
            res.kind == kind,
            res.index == index,
    {
        ShapeId { kind, index }
    }
}

} // verus!
