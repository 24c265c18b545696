use vstd::prelude::*;

use crate::algebra::{sym_int, vadd, vcross, vdot, vneg, vnorm2, vscale, UnitVector, Vector};
use crate::geometry::{Ray, RayIntersection, ShapeId};
use crate::material::Material;
use crate::num::{sym_add, sym_div, sym_is_zero, sym_lt, sym_mul, sym_neg, sym_recip, sym_sign,
    sym_sqrt, Sym, Val};
use crate::sphere::Sphere;

verus! {

// Next-event estimation: sampling a spherical emitter over the cone it
// subtends as seen from an intersection, and the matching density
// evaluation used for multiple-importance weighting.

/// A material scattering sample: the outgoing ray, the radiance
/// coefficient to apply, and the conventional density.
#[derive(Clone, Copy, Debug)]
pub struct CoefSample {
    pub ray: Ray,
    pub coefficient: Vector,
    pub pdf: Val,
}

impl CoefSample {
    pub fn new(ray: Ray, coefficient: Vector, pdf: Val) -> (res: CoefSample)
        ensures
            res.ray == ray,
            res.coefficient == coefficient,
            res.pdf == pdf,
    {
        CoefSample { ray, coefficient, pdf }
    }

    pub fn coefficient(&self) -> (res: Vector)
        ensures
            res == self.coefficient,
    {
        self.coefficient
    }

    pub fn pdf(&self) -> (res: Val)
        ensures
            res == self.pdf,
    {
        self.pdf
    }

    pub fn into_ray(self) -> (res: Ray)
        ensures
            res == self.ray,
    {
        self.ray
    }
}

/// A light sample: the outgoing ray, the coefficient, the density, and
/// the identifier of the sampled shape.
#[derive(Clone, Copy, Debug)]
pub struct LightSample {
    pub ray: Ray,
    pub coefficient: Vector,
    pub pdf: Val,
    pub id: ShapeId,
}

impl LightSample {
    pub fn new(ray: Ray, coefficient: Vector, pdf: Val, id: ShapeId) -> (res: LightSample)
        ensures
            res.ray == ray,
            res.coefficient == coefficient,
            res.pdf == pdf,
            res.id == id,
    {
        LightSample { ray, coefficient, pdf, id }
    }
}

/// The density of the cone sampler for a sphere with the given center
/// and radius, seen from `ipos`, queried along `dir_next`:
/// 1 / (2 pi (1 - cos_max)) inside the cone, zero outside, where
/// cos_max = sqrt(1 - radius^2 / |center - ipos|^2).  `None` covers the
/// degenerate geometry (intersection at the center, the intersection
/// inside the sphere) and unrepresentable steps.
pub open spec fn light_pdf_spec(
    center: (Sym, Sym, Sym),
    radius: Sym,
    ipos: (Sym, Sym, Sym),
    dir_next: (Sym, Sym, Sym),
) -> Option<Sym> {
    match sym_mul(radius, radius) {
        None => None,
        Some(r2) => match vadd(center, vneg(ipos)) {
            None => None,
            Some(tc) => match vnorm2(tc) {
                None => None,
                Some(n2) => match sym_div(r2, n2) {
                    None => None,
                    Some(ratio) => match sym_add(sym_int(1), sym_neg(ratio)) {
                        None => None,
                        Some(om) => match sym_sqrt(om) {
                            None => None,
                            Some(cmax) => match crate::algebra::unormalize(tc) {
                                None => None,
                                Some(tcu) => match vdot(dir_next, tcu) {
                                    None => None,
                                    Some(crc) => match sym_lt(crc, cmax) {
                                        None => None,
                                        Some(outside) => if outside {
                                            Some(crate::num::sym_zero())
                                        } else {
                                            match sym_add(sym_int(1), sym_neg(cmax)) {
                                                None => None,
                                                Some(omc) => match sym_mul(
                                                    Sym { a: 2, b: 0, d: 1, r: 0, k: 1 },
                                                    omc,
                                                ) {
                                                    None => None,
                                                    Some(sa) => sym_recip(sa),
                                                },
                                            }
                                        },
                                    },
                                },
                            },
                        },
                    },
                },
            },
        },
    }
}

/// The cone-sampling construction on the model side, mirrored step for
/// step: the direction and density that `sample_cone` produces from the
/// two unit draws, or `None` when no sample is produced.  The cosine is
/// the rational 1 - u2 * ratio / 2, which lies in the sub-cap
/// [(1 + cos_max^2) / 2, 1] of the cone, and the azimuth comes from the
/// rational circle point of the tangent half-angle 4 u1 - 2.  This is
/// deliberately not the uniform cone distribution of a floating-point
/// sampler: a uniform azimuth and an exact cap cosine would need
/// transcendentals, which the exact scalars cannot carry.  The reported
/// density remains the reciprocal solid angle of the full cone, and the
/// final clause re-evaluates that density along the constructed
/// direction.
pub open spec fn sample_cone_spec(
    center: (Sym, Sym, Sym),
    radius: Sym,
    ipos: (Sym, Sym, Sym),
    u1: Sym,
    u2: Sym,
) -> Option<((Sym, Sym, Sym), Sym)> {
    let one = sym_int(1);
    let zdir = (sym_int(0), sym_int(0), sym_int(1));
    let xdir = (sym_int(1), sym_int(0), sym_int(0));
    match sym_mul(radius, radius) {
        None => None,
        Some(r2) => match vadd(center, vneg(ipos)) {
            None => None,
            Some(tc) => match vnorm2(tc) {
                None => None,
                Some(n2) => match sym_div(r2, n2) {
                    None => None,
                    Some(ratio) => match sym_add(one, sym_neg(ratio)) {
                        None => None,
                        Some(om) => match sym_sqrt(om) {
                            None => None,
                            Some(cmax) => {
                                let axis = match crate::algebra::unormalize(tc) {
                                    Some(u) => u,
                                    None => zdir,
                                };
                                match crate::num::sym_norm(1, 0, 2, 0, 0) {
                                    None => None,
                                    Some(half) => match sym_mul(ratio, half) {
                                        None => None,
                                        Some(half_ratio) => match sym_mul(u2, half_ratio) {
                                            None => None,
                                            Some(depth) => match sym_add(one, sym_neg(depth)) {
                                                None => None,
                                                Some(z) => sample_cone_frame_spec(
                                                    center,
                                                    radius,
                                                    ipos,
                                                    u1,
                                                    axis,
                                                    cmax,
                                                    z,
                                                ),
                                            },
                                        },
                                    },
                                }
                            },
                        },
                    },
                },
            },
        },
    }
}

/// The second half of the cone construction: the tangent plane frame,
/// the direction z * axis + w (c, s) in that frame, the full-cone
/// density, and the round-trip density check.
pub open spec fn sample_cone_frame_spec(
    center: (Sym, Sym, Sym),
    radius: Sym,
    ipos: (Sym, Sym, Sym),
    u1: Sym,
    axis: (Sym, Sym, Sym),
    cmax: Sym,
    z: Sym,
) -> Option<((Sym, Sym, Sym), Sym)> {
    let one = sym_int(1);
    let zdir = (sym_int(0), sym_int(0), sym_int(1));
    let xdir = (sym_int(1), sym_int(0), sym_int(0));
    match sym_mul(z, z) {
        None => None,
        Some(z2) => match sym_add(one, sym_neg(z2)) {
            None => None,
            Some(tmp) => if sym_sign(tmp) < 0 {
                None
            } else {
                match sym_sqrt(tmp) {
                    None => None,
                    Some(w) => match sym_mul(u1, sym_int(4)) {
                        None => None,
                        Some(t0) => match sym_add(t0, sym_neg(sym_int(2))) {
                            None => None,
                            Some(t) => match sym_mul(t, t) {
                                None => None,
                                Some(t2) => match sym_add(one, t2) {
                                    None => None,
                                    Some(denom) => match sym_add(one, sym_neg(t2)) {
                                        None => None,
                                        Some(c0) => match sym_div(c0, denom) {
                                            None => None,
                                            Some(c) => match sym_mul(sym_int(2), t) {
                                                None => None,
                                                Some(s0) => match sym_div(s0, denom) {
                                                    None => None,
                                                    Some(s) => {
                                                        let b1 = match vcross(axis, zdir) {
                                                            Some(cv) => match
                                                                crate::algebra::unormalize(cv) {
                                                                Some(u) => u,
                                                                None => xdir,
                                                            },
                                                            None => xdir,
                                                        };
                                                        match vcross(axis, b1) {
                                                            None => None,
                                                            Some(cv2) => match
                                                                crate::algebra::unormalize(cv2) {
                                                                None => None,
                                                                Some(b2) =>
                                                                    sample_cone_mix_spec(
                                                                    center,
                                                                    radius,
                                                                    ipos,
                                                                    axis,
                                                                    cmax,
                                                                    z,
                                                                    w,
                                                                    c,
                                                                    s,
                                                                    b1,
                                                                    b2,
                                                                ),
                                                            },
                                                        }
                                                    },
                                                },
                                            },
                                        },
                                    },
                                },
                            },
                        },
                    },
                }
            },
        },
    }
}

/// The last steps of the cone construction: combine the frame into the
/// sampled direction, renormalise, form the reciprocal solid angle of
/// the full cone, and accept only when the density evaluation along the
/// constructed direction returns exactly that positive weight.
pub open spec fn sample_cone_mix_spec(
    center: (Sym, Sym, Sym),
    radius: Sym,
    ipos: (Sym, Sym, Sym),
    axis: (Sym, Sym, Sym),
    cmax: Sym,
    z: Sym,
    w: Sym,
    c: Sym,
    s: Sym,
    b1: (Sym, Sym, Sym),
    b2: (Sym, Sym, Sym),
) -> Option<((Sym, Sym, Sym), Sym)> {
    let one = sym_int(1);
    match (sym_mul(w, c), sym_mul(w, s)) {
        (Some(wc), Some(ws)) => match (vscale(z, axis), vscale(wc, b1), vscale(ws, b2)) {
            (Some(pa), Some(pb), Some(pc)) => match vadd(pa, pb) {
                None => None,
                Some(sum0) => match vadd(sum0, pc) {
                    None => None,
                    Some(sum) => match crate::algebra::unormalize(sum) {
                        None => None,
                        Some(dir) => match sym_add(one, sym_neg(cmax)) {
                            None => None,
                            Some(omc) => match sym_mul(
                                sym_int(2),
                                Sym { a: 1, b: 0, d: 1, r: 0, k: 1 },
                            ) {
                                None => None,
                                Some(two_pi) => match sym_mul(two_pi, omc) {
                                    None => None,
                                    Some(sa) => match sym_recip(sa) {
                                        None => None,
                                        Some(pdf) => match light_pdf_spec(
                                            center,
                                            radius,
                                            ipos,
                                            dir,
                                        ) {
                                            None => None,
                                            Some(q) => if crate::num::val_eq(q, pdf)
                                                && sym_sign(q) == 1 {
                                                Some((dir, pdf))
                                            } else {
                                                None
                                            },
                                        },
                                    },
                                },
                            },
                        },
                    },
                },
            },
            _ => None,
        },
        _ => None,
    }
}

/// The sampler standing for "this shape is not a light".
#[derive(Clone, Copy, Debug)]
pub struct EmptySampler {}

impl EmptySampler {
    pub fn new() -> (res: EmptySampler) {
        EmptySampler {  }
    }

    pub fn id(&self) -> (res: Option<ShapeId>)
        ensures
            res is None,
    {
        None
    }

    pub fn shape(&self) -> (res: Option<&Sphere>)
        ensures
            res is None,
    {
        None
    }

    /// No light source: never selects a sample.
    pub fn light_sample(
        &self,
        ray: &Ray,
        intersection: &RayIntersection,
        material: &Material,
        rng: &mut rand::rngs::StdRng,
    ) -> (res: Option<LightSample>)
        ensures
            res is None,
    {
        None
    }

    /// No light source: zero density everywhere.
    pub fn light_pdf(&self, intersection: &RayIntersection, ray_next: &Ray) -> (res: Val)
        ensures
            res@ == crate::num::sym_zero(),
    {
        Val::from_int(0)
    }
}

/// Next-event estimation for a spherical emitter, keyed by its shape
/// identifier.
#[derive(Clone, Copy, Debug)]
pub struct SphereSampler {
    id: ShapeId,
    shape: Sphere,
}

impl View for SphereSampler {
    type V = (ShapeId, ((Sym, Sym, Sym), Sym));

    closed spec fn view(&self) -> (ShapeId, ((Sym, Sym, Sym), Sym)) {
        (self.id, self.shape@)
    }
}

impl SphereSampler {
    pub fn new(id: ShapeId, shape: Sphere) -> (res: SphereSampler)
        ensures
            res@ == (id, shape@),
    {
        SphereSampler { id, shape }
    }

    pub fn id(&self) -> (res: Option<ShapeId>)
        ensures
            res == Some(self@.0),
    {
        Some(self.id)
    }

    pub fn shape(&self) -> (res: Option<&Sphere>)
        ensures
            (match res {
                Some(s) => s@ == self@.1,
                None => false,
            }),
    {
        Some(&self.shape)
    }

    /// The cone-sampling density along a queried direction, mirroring
    /// `light_pdf_spec`.
    pub fn light_pdf(&self, intersection: &RayIntersection, ray_next: &Ray) -> (res: Option<Val>)
        ensures
            crate::num::ov(res) == light_pdf_spec(
                self@.1.0,
                self@.1.1,
                intersection.position@,
                ray_next.direction@,
            ),
    {
        let radius = self.shape.radius();
        let r2 = match radius.mul(radius) {
            None => { return None; },
            Some(v) => v,
        };
        let tc = match self.shape.center().sub(&intersection.position()) {
            None => { return None; },
            Some(v) => v,
        };
        let n2 = match tc.norm_squared() {
            None => { return None; },
            Some(v) => v,
        };
        let ratio = match r2.div(n2) {
            None => { return None; },
            Some(v) => v,
        };
        let one = Val::from_int(1);
        let om = match one.sub(ratio) {
            None => { return None; },
            Some(v) => v,
        };
        let cmax = match om.sqrt() {
            None => { return None; },
            Some(v) => v,
        };
        let tcu = match tc.normalize() {
            None => { return None; },
            Some(v) => v,
        };
        let crc = match ray_next.direction().as_vector().dot(&tcu.as_vector()) {
            None => { return None; },
            Some(v) => v,
        };
        let outside = match crc.lt(cmax) {
            None => { return None; },
            Some(b) => b,
        };
        if outside {
            return Some(Val::from_int(0));
        }
        let omc = match one.sub(cmax) {
            None => { return None; },
            Some(v) => v,
        };
        proof {
            crate::num::lemma_two_pi();
        }
        let two_pi = match Val::from_int(2).mul(Val::pi()) {
            None => { return None; },
            Some(v) => v,
        };
        let sa = match two_pi.mul(omc) {
            None => { return None; },
            Some(v) => v,
        };
        sa.recip()
    }

    /// Sample a direction within the cone subtended by the sphere, from
    /// two unit draws, mirroring `sample_cone_spec`: `u1` chooses the
    /// azimuth through the rational circle point of its tangent
    /// half-angle, `u2` a rational cosine in the sub-cap of the cone —
    /// not the uniform cone distribution, which exact arithmetic cannot
    /// carry (see `sample_cone_spec`).  On success the returned density
    /// is the reciprocal solid angle of the full cone, it is strictly
    /// positive, and it is exactly what `light_pdf` reports for the
    /// returned ray: feeding a sampled direction back into the density
    /// evaluation returns the weight the sample was built with.
    #[verifier::rlimit(100)]
    pub fn sample_cone(&self, intersection: &RayIntersection, u1: Val, u2: Val) -> (res: Option<
        (Ray, Val)>)
        ensures
            (match res {
                Some(rp) => sample_cone_spec(
                    self@.1.0,
                    self@.1.1,
                    intersection.position@,
                    u1@,
                    u2@,
                ) == Some((rp.0.direction@, rp.1@)),
                None => sample_cone_spec(
                    self@.1.0,
                    self@.1.1,
                    intersection.position@,
                    u1@,
                    u2@,
                ) is None,
            }),
            res matches Some(rp) ==> rp.0.start@ == intersection.position@,
            res matches Some(rp) ==> (match light_pdf_spec(
                self@.1.0,
                self@.1.1,
                intersection.position@,
                rp.0.direction@,
            ) {
                Some(q) => crate::num::val_eq(q, rp.1@) && sym_sign(q) == 1,
                None => false,
            }),
            (match vadd(self@.1.0, vneg(intersection.position@)) {
                Some(tc) => match vnorm2(tc) {
                    Some(n2) => sym_is_zero(n2) ==> res is None,
                    None => true,
                },
                None => true,
            }),
    {
        let one = Val::from_int(1);
        let radius = self.shape.radius();
        let r2 = match radius.mul(radius) {
            None => { return None; },
            Some(v) => v,
        };
        let tc = match self.shape.center().sub(&intersection.position()) {
            None => { return None; },
            Some(v) => v,
        };
        let n2 = match tc.norm_squared() {
            None => { return None; },
            Some(v) => v,
        };
        let ratio = match r2.div(n2) {
            None => { return None; },
            Some(v) => v,
        };
        let om = match one.sub(ratio) {
            None => { return None; },
            Some(v) => v,
        };
        let cmax = match om.sqrt() {
            None => { return None; },
            Some(v) => v,
        };
        // The cone axis, toward the center; on degenerate geometry fall
        // back to the +z axis (the density evaluation then rejects).
        let axis = match tc.normalize() {
            Some(u) => u,
            None => UnitVector::z_direction(),
        };
        let av = axis.as_vector();
        // Depth into the cap: a rational z with cos_max <= (1+s)/2 <= z <= 1.
        let half = match Val::ratio(1, 2) {
            None => { return None; },
            Some(v) => v,
        };
        let half_ratio = match ratio.mul(half) {
            None => { return None; },
            Some(v) => v,
        };
        let depth = match u2.mul(half_ratio) {
            None => { return None; },
            Some(v) => v,
        };
        let z = match one.sub(depth) {
            None => { return None; },
            Some(v) => v,
        };
        let z2 = match z.mul(z) {
            None => { return None; },
            Some(v) => v,
        };
        let tmp = match one.sub(z2) {
            None => { return None; },
            Some(v) => v,
        };
        if tmp.sign() < 0 {
            return None;
        }
        let w = match tmp.sqrt() {
            None => { return None; },
            Some(v) => v,
        };
        // Azimuth: a rational point (c, s) on the unit circle from the
        // tangent half-angle t = 4 u1 - 2.
        let t = match u1.mul(Val::from_int(4)) {
            None => { return None; },
            Some(v) => v,
        };
        let t = match t.sub(Val::from_int(2)) {
            None => { return None; },
            Some(v) => v,
        };
        let t2 = match t.mul(t) {
            None => { return None; },
            Some(v) => v,
        };
        let denom = match one.add(t2) {
            None => { return None; },
            Some(v) => v,
        };
        let c = match one.sub(t2) {
            None => { return None; },
            Some(v) => v,
        };
        let c = match c.div(denom) {
            None => { return None; },
            Some(v) => v,
        };
        let s = match Val::from_int(2).mul(t) {
            None => { return None; },
            Some(v) => v,
        };
        let s = match s.div(denom) {
            None => { return None; },
            Some(v) => v,
        };
        // An orthonormal frame around the axis.
        let zv = UnitVector::z_direction().as_vector();
        let b1 = match av.cross(&zv) {
            Some(cv) => match cv.normalize() {
                Some(u) => u,
                None => UnitVector::x_direction(),
            },
            None => UnitVector::x_direction(),
        };
        let b2 = match av.cross(&b1.as_vector()) {
            Some(cv) => match cv.normalize() {
                Some(u) => u,
                None => { return None; },
            },
            None => { return None; },
        };
        // dir = z * axis + (w c) * b1 + (w s) * b2, renormalised.
        let wc = match w.mul(c) {
            None => { return None; },
            Some(v) => v,
        };
        let ws = match w.mul(s) {
            None => { return None; },
            Some(v) => v,
        };
        let pa = match av.scale(z) {
            None => { return None; },
            Some(v) => v,
        };
        let pb = match b1.as_vector().scale(wc) {
            None => { return None; },
            Some(v) => v,
        };
        let pc = match b2.as_vector().scale(ws) {
            None => { return None; },
            Some(v) => v,
        };
        let sum = match pa.add(&pb) {
            None => { return None; },
            Some(v) => v,
        };
        let sum = match sum.add(&pc) {
            None => { return None; },
            Some(v) => v,
        };
        let dir = match sum.normalize() {
            None => { return None; },
            Some(u) => u,
        };
        let ray_next = Ray::new(intersection.position(), dir);
        // The density of the full cone, and the round-trip check: the
        // density evaluation on the sampled ray must return this exact
        // weight, and a positive one.
        let omc = match one.sub(cmax) {
            None => { return None; },
            Some(v) => v,
        };
        let two_pi = match Val::from_int(2).mul(Val::pi()) {
            None => { return None; },
            Some(v) => v,
        };
        let sa = match two_pi.mul(omc) {
            None => { return None; },
            Some(v) => v,
        };
        let pdf = match sa.recip() {
            None => { return None; },
            Some(v) => v,
        };
        match self.light_pdf(intersection, &ray_next) {
            None => None,
            Some(q) => if q.equals(&pdf) && q.sign() == 1 {
                Some((ray_next, pdf))
            } else {
                None
            },
        }
    }

    /// Next-event estimation against a material: sample the cone, then
    /// weight by the material's kernel along the sampled direction.
    /// Both materials of this engine are Dirac (their kernel reports no
    /// finite value), so no light sample is produced for them.
    pub fn light_sample(
        &self,
        ray: &Ray,
        intersection: &RayIntersection,
        material: &Material,
        u1: Val,
        u2: Val,
    ) -> (res: Option<LightSample>)
        ensures
            res is None,
    {
        match self.sample_cone(intersection, u1, u2) {
            None => None,
            Some(rp) => {
                let (ray_next, pdf) = rp;
                match material.bsdf(ray, intersection, &ray_next) {
                    None => None,
                    Some(bs) => {
                        // A finite kernel would be weighted by
                        // cos(dir, normal) / pdf and filtered when it
                        // vanishes; unreachable for the Dirac materials
                        // above, whose kernel reports no value.
                        let b2 = match bs.norm_squared() {
                            None => { return None; },
                            Some(v) => v,
                        };
                        if b2.sign() == 0 {
                            return None;
                        }
                        let nv = intersection.normal().as_vector();
                        let cos = match ray_next.direction().as_vector().dot(&nv) {
                            None => { return None; },
                            Some(v) => v,
                        };
                        let solid = match pdf.recip() {
                            None => { return None; },
                            Some(v) => v,
                        };
                        let w = match cos.mul(solid) {
                            None => { return None; },
                            Some(v) => v,
                        };
                        let coefficient = match bs.scale(w) {
                            None => { return None; },
                            Some(v) => v,
                        };
                        Some(LightSample::new(ray_next, coefficient, pdf, self.id))
                    },
                }
            },
        }
    }

    /// Next-event estimation with the draws taken from the generator.
    pub fn light_sample_rng(
        &self,
        ray: &Ray,
        intersection: &RayIntersection,
        material: &Material,
        rng: &mut rand::rngs::StdRng,
    ) -> (res: Option<LightSample>)
        ensures
            res is None,
    {
        let u1 = crate::random::draw_unit(rng);
        let u2 = crate::random::draw_unit(rng);
        self.light_sample(ray, intersection, material, u1, u2)
    }
}

/// The closed set of light samplers, dispatched by variant.
#[derive(Clone, Copy, Debug)]
pub enum LightSampler {
    Empty(EmptySampler),
    Sphere(SphereSampler),
}

impl LightSampler {
    pub fn id(&self) -> (res: Option<ShapeId>)
        ensures
            self matches LightSampler::Empty(_) ==> res is None,
            self matches LightSampler::Sphere(s) ==> res == Some(s@.0),
    {
        match self {
            LightSampler::Empty(e) => e.id(),
            LightSampler::Sphere(s) => s.id(),
        }
    }

    pub fn shape(&self) -> (res: Option<&Sphere>)
        ensures
            self matches LightSampler::Empty(_) ==> res is None,
            self matches LightSampler::Sphere(s) ==> res is Some,
    {
        match self {
            LightSampler::Empty(e) => e.shape(),
            LightSampler::Sphere(s) => s.shape(),
        }
    }

    /// Density dispatch: zero for the empty sampler.
    pub fn light_pdf(&self, intersection: &RayIntersection, ray_next: &Ray) -> (res: Option<Val>)
        ensures
            self matches LightSampler::Empty(_) ==> (match res {
                Some(v) => v@ == crate::num::sym_zero(),
                None => false,
            }),
            self matches LightSampler::Sphere(s) ==> crate::num::ov(res) == light_pdf_spec(
                s@.1.0,
                s@.1.1,
                intersection.position@,
                ray_next.direction@,
            ),
    {
        match self {
            LightSampler::Empty(e) => Some(e.light_pdf(intersection, ray_next)),
            LightSampler::Sphere(s) => s.light_pdf(intersection, ray_next),
        }
    }

    /// Sampling dispatch; no light sample exists for Dirac materials.
    pub fn light_sample(
        &self,
        ray: &Ray,
        intersection: &RayIntersection,
        material: &Material,
        u1: Val,
        u2: Val,
    ) -> (res: Option<LightSample>)
        ensures
            res is None,
    {
        match self {
            LightSampler::Empty(e) => None,
            LightSampler::Sphere(s) => s.light_sample(ray, intersection, material, u1, u2),
        }
    }
}

} // verus!
