use vstd::prelude::*;

use crate::algebra::{reflect_spec, unormalize, vadd, vdot, vneg, vnorm2, vscale, sym_int,
    Vector};
use crate::color::Color;
use crate::geometry::{Ray, RayIntersection, SurfaceSide};
use crate::num::{sym_add, sym_div, sym_lt, sym_mul, sym_neg, sym_recip, sym_sign, sym_sqrt,
    Sym, Val};
use crate::sampling::CoefSample;

verus! {

// Materials: perfect specular reflection and a dielectric with
// Fresnel-weighted choice between reflection and refraction.  Both are
// Dirac-delta materials: their scattering kernel has no finite density,
// so `bsdf` reports no value, and the sampled direction carries a
// conventional probability density of one (the sample is already
// coefficient-weighted).

/// The kind tag of a material.
#[derive(Clone, Copy, Debug, PartialEq, Eq, Structural)]
pub enum MaterialKind {
    Specular,
    Refractive,
}

/// Why a refractive material could not be constructed.
#[derive(Clone, Copy, Debug, PartialEq, Eq, Structural)]
#[non_exhaustive]
pub enum TryNewRefractiveError {
    InvalidRefractiveIndex,
}

/// Schlick's approximation of the Fresnel reflectance:
/// r0 + (1 - r0) * (1 - cos_i)^5 with r0 = ((1 - ri) / (1 + ri))^2.
pub open spec fn reflectance_spec(cos_i: Sym, ri: Sym) -> Option<Sym> {
    match sym_add(sym_int(1), sym_neg(ri)) {
        None => None,
        Some(nume) => match sym_add(sym_int(1), ri) {
            None => None,
            Some(deno) => match sym_div(nume, deno) {
                None => None,
                Some(r0s) => match sym_mul(r0s, r0s) {
                    None => None,
                    Some(r0) => match sym_add(sym_int(1), sym_neg(cos_i)) {
                        None => None,
                        Some(om) => match sym_mul(om, om) {
                            None => None,
                            Some(p2) => match sym_mul(p2, p2) {
                                None => None,
                                Some(p4) => match sym_mul(p4, om) {
                                    None => None,
                                    Some(p5) => match sym_add(sym_int(1), sym_neg(r0)) {
                                        None => None,
                                        Some(omr0) => match sym_mul(omr0, p5) {
                                            None => None,
                                            Some(term) => sym_add(r0, term),
                                        },
                                    },
                                },
                            },
                        },
                    },
                },
            },
        },
    }
}

/// Snell refraction in vector form.  `Some(None)` is total internal
/// reflection (1 - |perp|^2 negative); `Some(Some(u))` is the refracted
/// unit direction; `None` means a step was not representable.
pub open spec fn refract_spec(
    dir: (Sym, Sym, Sym),
    normal: (Sym, Sym, Sym),
    cos_i: Sym,
    ri: Sym,
) -> Option<Option<(Sym, Sym, Sym)>> {
    match vscale(cos_i, normal) {
        None => None,
        Some(cn) => match vadd(dir, cn) {
            None => None,
            Some(perp_raw) => match sym_recip(ri) {
                None => None,
                Some(inv_ri) => match vscale(inv_ri, perp_raw) {
                    None => None,
                    Some(perp) => match vnorm2(perp) {
                        None => None,
                        Some(n2) => match sym_add(sym_int(1), sym_neg(n2)) {
                            None => None,
                            Some(tmp) => if sym_sign(tmp) < 0 {
                                Some(None)
                            } else {
                                match sym_sqrt(tmp) {
                                    None => None,
                                    Some(st) => match vscale(sym_neg(st), normal) {
                                        None => None,
                                        Some(para) => match vadd(para, perp) {
                                            None => None,
                                            Some(raw) => match unormalize(raw) {
                                                None => None,
                                                Some(u) => Some(Some(u)),
                                            },
                                        },
                                    },
                                }
                            },
                        },
                    },
                },
            },
        },
    }
}

/// The absolute cosine of incidence and the effective relative index:
/// the configured index on the front face, its reciprocal on the back.
pub open spec fn incidence_spec(
    dir: (Sym, Sym, Sym),
    normal: (Sym, Sym, Sym),
    side: SurfaceSide,
    index: Sym,
) -> Option<(Sym, Sym)> {
    match vdot(dir, normal) {
        None => None,
        Some(dn) => {
            let cos_i = if sym_sign(dn) < 0 {
                sym_neg(dn)
            } else {
                dn
            };
            if side == SurfaceSide::Front {
                Some((cos_i, index))
            } else {
                match sym_recip(index) {
                    None => None,
                    Some(inv_i) => Some((cos_i, inv_i)),
                }
            }
        },
    }
}

/// The next scattering direction of the dielectric, given the uniform
/// draw `det`: reflect when det < reflectance, otherwise refract,
/// falling back to reflection on total internal reflection.
pub open spec fn next_ray_spec(
    dir: (Sym, Sym, Sym),
    normal: (Sym, Sym, Sym),
    side: SurfaceSide,
    index: Sym,
    det: Sym,
) -> Option<(Sym, Sym, Sym)> {
    match incidence_spec(dir, normal, side, index) {
        None => None,
        Some((cos_i, ri)) => match reflectance_spec(cos_i, ri) {
            None => None,
            Some(refl) => match sym_lt(det, refl) {
                None => None,
                Some(take_reflect) => if take_reflect {
                    reflect_spec(dir, normal)
                } else {
                    match refract_spec(dir, normal, cos_i, ri) {
                        None => None,
                        Some(None) => reflect_spec(dir, normal),
                        Some(Some(u)) => Some(u),
                    }
                },
            },
        },
    }
}

/// Total internal reflection falls back to pure reflection: when the
/// draw selects the refraction branch and Snell's condition fails
/// (1 - |perp|^2 negative), the produced direction is exactly the
/// mirror reflection; no refracted ray is ever produced.
pub proof fn lemma_tir_falls_back(
    dir: (Sym, Sym, Sym),
    normal: (Sym, Sym, Sym),
    side: SurfaceSide,
    index: Sym,
    det: Sym,
)
    requires
        incidence_spec(dir, normal, side, index) matches Some(p) && (reflectance_spec(p.0, p.1)
            matches Some(refl) && sym_lt(det, refl) == Some(false) && refract_spec(
            dir,
            normal,
            p.0,
            p.1,
        ) == Some(None::<(Sym, Sym, Sym)>)),
    ensures
        next_ray_spec(dir, normal, side, index, det) == reflect_spec(dir, normal),
{
}

/// With the draw pinned at zero and a strictly positive reflectance,
/// the dielectric always takes the reflective branch, whatever the
/// Fresnel value: zero is below any reflectance in (0, 1).
pub proof fn lemma_zero_draw_reflects(
    dir: (Sym, Sym, Sym),
    normal: (Sym, Sym, Sym),
    side: SurfaceSide,
    index: Sym,
)
    requires
        incidence_spec(dir, normal, side, index) matches Some(p) && (reflectance_spec(p.0, p.1)
            matches Some(refl) && sym_sign(refl) == 1),
    ensures
        next_ray_spec(dir, normal, side, index, crate::num::sym_zero()) == reflect_spec(
            dir,
            normal,
        ),
{
    let p = incidence_spec(dir, normal, side, index).unwrap();
    let refl = reflectance_spec(p.0, p.1).unwrap();
    assert(sym_add(crate::num::sym_zero(), sym_neg(refl)) == Some(sym_neg(refl)));
    crate::num::lemma_sign_neg(refl);
    assert(sym_lt(crate::num::sym_zero(), refl) == Some(true));
}

/// With the draw at or above the reflectance, refraction is attempted
/// first: when Snell's construction succeeds, its direction is the
/// result.
pub proof fn lemma_high_draw_refracts(
    dir: (Sym, Sym, Sym),
    normal: (Sym, Sym, Sym),
    side: SurfaceSide,
    index: Sym,
    det: Sym,
    u: (Sym, Sym, Sym),
)
    requires
        incidence_spec(dir, normal, side, index) matches Some(p) && (reflectance_spec(p.0, p.1)
            matches Some(refl) && sym_lt(det, refl) == Some(false) && refract_spec(
            dir,
            normal,
            p.0,
            p.1,
        ) == Some(Some(u))),
    ensures
        next_ray_spec(dir, normal, side, index, det) == Some(u),
{
}

/// A perfect mirror with an albedo filter.
#[derive(Clone, Copy, Debug)]
pub struct Specular {
    color: Color,
}

impl View for Specular {
    type V = (Sym, Sym, Sym);

    closed spec fn view(&self) -> (Sym, Sym, Sym) {
        self.color@
    }
}

impl Specular {
    pub fn new(albedo: Color) -> (res: Specular)
        ensures
            res@ == albedo@,
    {
        Specular { color: albedo }
    }

    pub fn material_kind(&self) -> (res: MaterialKind)
        ensures
            res == MaterialKind::Specular,
    {
        MaterialKind::Specular
    }

    /// The mirror-reflected ray from the intersection point.
    pub fn calc_next_ray(&self, ray: &Ray, intersection: &RayIntersection) -> (res: Option<Ray>)
        ensures
            (match res {
                Some(r2) => r2.start@ == intersection.position@ && reflect_spec(
                    ray.direction@,
                    intersection.normal@,
                ) == Some(r2.direction@),
                None => reflect_spec(ray.direction@, intersection.normal@) == None::<
                    (Sym, Sym, Sym),
                >,
            }),
    {
        match crate::algebra::reflect_dir(&ray.direction(), &intersection.normal()) {
            Some(u) => Some(Ray::new(intersection.position(), u)),
            None => None,
        }
    }

    /// A Dirac kernel has no finite density to report.
    pub fn bsdf(&self, ray: &Ray, intersection: &RayIntersection, ray_next: &Ray) -> (res:
        Option<Vector>)
        ensures
            res is None,
    {
        None
    }

    /// One scattering sample: the mirror direction, the albedo as the
    /// coefficient, and the conventional density of one.  No randomness
    /// is consumed.
    pub fn coef_sample(&self, ray: &Ray, intersection: &RayIntersection) -> (res: Option<
        CoefSample>)
        ensures
            (match res {
                Some(s) => s.ray.start@ == intersection.position@ && reflect_spec(
                    ray.direction@,
                    intersection.normal@,
                ) == Some(s.ray.direction@) && s.coefficient@ == self@ && s.pdf@ == crate::num::sym_one(),
                None => reflect_spec(ray.direction@, intersection.normal@) == None::<
                    (Sym, Sym, Sym),
                >,
            }),
    {
        match self.calc_next_ray(ray, intersection) {
            Some(r2) => {
                let pdf = self.coef_pdf(ray, intersection, &r2);
                Some(CoefSample::new(r2, self.color.to_vector(), pdf))
            },
            None => None,
        }
    }

    /// The conventional density of a Dirac sample.
    pub fn coef_pdf(&self, ray: &Ray, intersection: &RayIntersection, ray_next: &Ray) -> (res:
        Val)
        ensures
            res@ == crate::num::sym_one(),
    {
        Val::from_int(1)
    }
}

/// A smooth dielectric with a validated refractive index.
#[derive(Clone, Copy, Debug)]
pub struct Refractive {
    color: Color,
    refractive_index: Val,
}

impl View for Refractive {
    type V = ((Sym, Sym, Sym), Sym);

    closed spec fn view(&self) -> ((Sym, Sym, Sym), Sym) {
        (self.color@, self.refractive_index@)
    }
}

impl Refractive {
    /// Construction succeeds exactly when the refractive index is
    /// strictly positive, and fails with `InvalidRefractiveIndex`
    /// otherwise.
    pub fn new(color: Color, refractive_index: Val) -> (res: Result<
        Refractive,
        TryNewRefractiveError,
    >)
        ensures
            (sym_sign(refractive_index@) == 1) <==> res is Ok,
            res matches Ok(m) ==> m@ == (color@, refractive_index@),
            res matches Err(e) ==> e == TryNewRefractiveError::InvalidRefractiveIndex,
    {
        if refractive_index.sign() == 1 {
            Ok(Refractive { color, refractive_index })
        } else {
            Err(TryNewRefractiveError::InvalidRefractiveIndex)
        }
    }

    pub fn material_kind(&self) -> (res: MaterialKind)
        ensures
            res == MaterialKind::Refractive,
    {
        MaterialKind::Refractive
    }

    /// The mirror-reflected ray, shared by the Fresnel branch and the
    /// total-internal-reflection fallback.
    pub fn calc_next_reflective_ray(&self, ray: &Ray, intersection: &RayIntersection) -> (res:
        Option<Ray>)
        ensures
            (match res {
                Some(r2) => r2.start@ == intersection.position@ && reflect_spec(
                    ray.direction@,
                    intersection.normal@,
                ) == Some(r2.direction@),
                None => reflect_spec(ray.direction@, intersection.normal@) == None::<
                    (Sym, Sym, Sym),
                >,
            }),
    {
        match crate::algebra::reflect_dir(&ray.direction(), &intersection.normal()) {
            Some(u) => Some(Ray::new(intersection.position(), u)),
            None => None,
        }
    }

    /// Schlick's approximation, mirrored by `reflectance_spec`.
    pub fn calc_reflectance(&self, cos_i: Val, ri: Val) -> (res: Option<Val>)
        ensures
            crate::num::ov(res) == reflectance_spec(cos_i@, ri@),
    {
        let one = Val::from_int(1);
        let nume = match one.sub(ri) {
            None => { return None; },
            Some(v) => v,
        };
        let deno = match one.add(ri) {
            None => { return None; },
            Some(v) => v,
        };
        let r0s = match nume.div(deno) {
            None => { return None; },
            Some(v) => v,
        };
        let r0 = match r0s.mul(r0s) {
            None => { return None; },
            Some(v) => v,
        };
        let om = match one.sub(cos_i) {
            None => { return None; },
            Some(v) => v,
        };
        let p2 = match om.mul(om) {
            None => { return None; },
            Some(v) => v,
        };
        let p4 = match p2.mul(p2) {
            None => { return None; },
            Some(v) => v,
        };
        let p5 = match p4.mul(om) {
            None => { return None; },
            Some(v) => v,
        };
        let omr0 = match one.sub(r0) {
            None => { return None; },
            Some(v) => v,
        };
        let term = match omr0.mul(p5) {
            None => { return None; },
            Some(v) => v,
        };
        r0.add(term)
    }

    /// Attempt Snell refraction; reports total internal reflection
    /// instead of a ray when 1 - |perp|^2 is negative.
    pub fn calc_next_refractive_direction(
        &self,
        ray: &Ray,
        intersection: &RayIntersection,
        cos_i: Val,
        ri: Val,
    ) -> (res: Option<RefractionOutcome>)
        ensures
            (match res {
                Some(RefractionOutcome::Refracted(r2)) => r2.start@ == intersection.position@
                    && refract_spec(ray.direction@, intersection.normal@, cos_i@, ri@) == Some(
                    Some(r2.direction@),
                ),
                Some(RefractionOutcome::TotalInternalReflection) => refract_spec(
                    ray.direction@,
                    intersection.normal@,
                    cos_i@,
                    ri@,
                ) == Some(None::<(Sym, Sym, Sym)>),
                None => refract_spec(ray.direction@, intersection.normal@, cos_i@, ri@)
                    == None::<Option<(Sym, Sym, Sym)>>,
            }),
    {
        let one = Val::from_int(1);
        let dv = ray.direction().as_vector();
        let nv = intersection.normal().as_vector();
        let cn = match nv.scale(cos_i) {
            None => { return None; },
            Some(v) => v,
        };
        let perp_raw = match dv.add(&cn) {
            None => { return None; },
            Some(v) => v,
        };
        let inv_ri = match ri.recip() {
            None => { return None; },
            Some(v) => v,
        };
        let perp = match perp_raw.scale(inv_ri) {
            None => { return None; },
            Some(v) => v,
        };
        let n2 = match perp.norm_squared() {
            None => { return None; },
            Some(v) => v,
        };
        let tmp = match one.sub(n2) {
            None => { return None; },
            Some(v) => v,
        };
        if tmp.sign() < 0 {
            return Some(RefractionOutcome::TotalInternalReflection);
        }
        let st = match tmp.sqrt() {
            None => { return None; },
            Some(v) => v,
        };
        let para = match nv.scale(st.neg()) {
            None => { return None; },
            Some(v) => v,
        };
        let raw = match para.add(&perp) {
            None => { return None; },
            Some(v) => v,
        };
        match raw.normalize() {
            None => None,
            Some(u) => Some(RefractionOutcome::Refracted(Ray::new(intersection.position(), u))),
        }
    }

    /// The next scattering ray: reflect when the uniform draw falls
    /// below the Fresnel reflectance, otherwise refract, falling back to
    /// reflection on total internal reflection.
    #[verifier::rlimit(60)]
    pub fn calc_next_ray(
        &self,
        ray: &Ray,
        intersection: &RayIntersection,
        reflection_determination: Val,
    ) -> (res: Option<Ray>)
        ensures
            (match res {
                Some(r2) => r2.start@ == intersection.position@ && next_ray_spec(
                    ray.direction@,
                    intersection.normal@,
                    intersection.side,
                    self@.1,
                    reflection_determination@,
                ) == Some(r2.direction@),
                None => next_ray_spec(
                    ray.direction@,
                    intersection.normal@,
                    intersection.side,
                    self@.1,
                    reflection_determination@,
                ) == None::<(Sym, Sym, Sym)>,
            }),
    {
        let dv = ray.direction().as_vector();
        let nv = intersection.normal().as_vector();
        let dn = match dv.dot(&nv) {
            None => { return None; },
            Some(v) => v,
        };
        let cos_i = dn.abs();
        let ri = if intersection.side() == SurfaceSide::Front {
            self.refractive_index
        } else {
            match self.refractive_index.recip() {
                None => { return None; },
                Some(v) => v,
            }
        };
        let refl = match self.calc_reflectance(cos_i, ri) {
            None => { return None; },
            Some(v) => v,
        };
        let take_reflect = match reflection_determination.lt(refl) {
            None => { return None; },
            Some(b) => b,
        };
        if take_reflect {
            self.calc_next_reflective_ray(ray, intersection)
        } else {
            match self.calc_next_refractive_direction(ray, intersection, cos_i, ri) {
                None => None,
                Some(RefractionOutcome::TotalInternalReflection) => self.calc_next_reflective_ray(
                    ray,
                    intersection,
                ),
                Some(RefractionOutcome::Refracted(r2)) => Some(r2),
            }
        }
    }

    /// A Dirac kernel has no finite density to report.
    pub fn bsdf(&self, ray: &Ray, intersection: &RayIntersection, ray_next: &Ray) -> (res:
        Option<Vector>)
        ensures
            res is None,
    {
        None
    }

    /// One scattering sample from the given uniform draw: the branch
    /// direction, the albedo coefficient, and the conventional density
    /// of one.
    pub fn coef_sample(
        &self,
        ray: &Ray,
        intersection: &RayIntersection,
        reflection_determination: Val,
    ) -> (res: Option<CoefSample>)
        ensures
            (match res {
                Some(s) => s.ray.start@ == intersection.position@ && next_ray_spec(
                    ray.direction@,
                    intersection.normal@,
                    intersection.side,
                    self@.1,
                    reflection_determination@,
                ) == Some(s.ray.direction@) && s.coefficient@ == self@.0 && s.pdf@
                    == crate::num::sym_one(),
                None => next_ray_spec(
                    ray.direction@,
                    intersection.normal@,
                    intersection.side,
                    self@.1,
                    reflection_determination@,
                ) == None::<(Sym, Sym, Sym)>,
            }),
    {
        match self.calc_next_ray(ray, intersection, reflection_determination) {
            Some(r2) => {
                let pdf = self.coef_pdf(ray, intersection, &r2);
                Some(CoefSample::new(r2, self.color.to_vector(), pdf))
            },
            None => None,
        }
    }

    /// One scattering sample with the draw taken from the generator.
    /// Whatever the generator returned, a produced sample's direction is
    /// a Fresnel-lawful scattering direction for some admissible draw in
    /// the unit interval.
    pub fn coef_sample_rng(
        &self,
        ray: &Ray,
        intersection: &RayIntersection,
        rng: &mut rand::rngs::StdRng,
    ) -> (res: Option<CoefSample>)
        ensures
            res matches Some(s) ==> s.ray.start@ == intersection.position@ && s.coefficient@
                == self@.0 && s.pdf@ == crate::num::sym_one(),
            res matches Some(s) ==> exists|det: Sym|
                sym_sign(det) >= 0 && sym_lt(det, crate::num::sym_one()) == Some(true)
                    && #[trigger] next_ray_spec(
                    ray.direction@,
                    intersection.normal@,
                    intersection.side,
                    self@.1,
                    det,
                ) == Some(s.ray.direction@),
    {
        let det = crate::random::draw_unit(rng);
        let res = self.coef_sample(ray, intersection, det);
        proof {
            match res {
                Some(s) => {
                    assert(next_ray_spec(
                        ray.direction@,
                        intersection.normal@,
                        intersection.side,
                        self@.1,
                        det@,
                    ) == Some(s.ray.direction@));
                },
                None => {},
            }
        }
        res
    }

    /// The conventional density of a Dirac sample.
    pub fn coef_pdf(&self, ray: &Ray, intersection: &RayIntersection, ray_next: &Ray) -> (res:
        Val)
        ensures
            res@ == crate::num::sym_one(),
    {
        Val::from_int(1)
    }
}

/// The outcome of a refraction attempt.
#[derive(Clone, Copy, Debug)]
pub enum RefractionOutcome {
    Refracted(Ray),
    TotalInternalReflection,
}

/// The closed set of materials, dispatched by variant.
#[derive(Clone, Copy, Debug)]
pub enum Material {
    Specular(Specular),
    Refractive(Refractive),
}

impl Material {
    pub fn material_kind(&self) -> (res: MaterialKind)
        ensures
            self matches Material::Specular(_) ==> res == MaterialKind::Specular,
            self matches Material::Refractive(_) ==> res == MaterialKind::Refractive,
    {
        match self {
            Material::Specular(m) => m.material_kind(),
            Material::Refractive(m) => m.material_kind(),
        }
    }

    /// Both materials here are Dirac: no finite kernel exists, so the
    /// light-sampling path must not rely on one.
    pub fn bsdf(&self, ray: &Ray, intersection: &RayIntersection, ray_next: &Ray) -> (res:
        Option<Vector>)
        ensures
            res is None,
    {
        match self {
            Material::Specular(m) => m.bsdf(ray, intersection, ray_next),
            Material::Refractive(m) => m.bsdf(ray, intersection, ray_next),
        }
    }

    /// One scattering sample; the draw is consumed only by the
    /// refractive variant.
    pub fn coef_sample(
        &self,
        ray: &Ray,
        intersection: &RayIntersection,
        reflection_determination: Val,
    ) -> (res: Option<CoefSample>)
        ensures
            res matches Some(s) ==> s.ray.start@ == intersection.position@ && s.pdf@
                == crate::num::sym_one(),
            self matches Material::Specular(m) ==> (match res {
                Some(s) => reflect_spec(ray.direction@, intersection.normal@) == Some(
                    s.ray.direction@,
                ) && s.coefficient@ == m@,
                None => reflect_spec(ray.direction@, intersection.normal@) == None::<
                    (Sym, Sym, Sym),
                >,
            }),
            self matches Material::Refractive(m) ==> (match res {
                Some(s) => next_ray_spec(
                    ray.direction@,
                    intersection.normal@,
                    intersection.side,
                    m@.1,
                    reflection_determination@,
                ) == Some(s.ray.direction@) && s.coefficient@ == m@.0,
                None => next_ray_spec(
                    ray.direction@,
                    intersection.normal@,
                    intersection.side,
                    m@.1,
                    reflection_determination@,
                ) == None::<(Sym, Sym, Sym)>,
            }),
    {
        match self {
            Material::Specular(m) => m.coef_sample(ray, intersection),
            Material::Refractive(m) => m.coef_sample(ray, intersection, reflection_determination),
        }
    }

    /// The conventional density of a Dirac sample.
    pub fn coef_pdf(&self, ray: &Ray, intersection: &RayIntersection, ray_next: &Ray) -> (res:
        Val)
        ensures
            res@ == crate::num::sym_one(),
    {
        match self {
            Material::Specular(m) => m.coef_pdf(ray, intersection, ray_next),
            Material::Refractive(m) => m.coef_pdf(ray, intersection, ray_next),
        }
    }
}

} // verus!
