use lumen::algebra::{Point, UnitVector, Vector};
use lumen::color::Color;
use lumen::geometry::{Ray, RayIntersection, ShapeId, ShapeKind, SurfaceSide};
use lumen::material::{Material, Specular};
use lumen::num::Val;
use lumen::sampling::{EmptySampler, LightSampler, SphereSampler};
use lumen::sphere::{Sphere, TryNewSphereError};
use rand::SeedableRng;

fn val_to_f64(v: &Val) -> f64 {
    let (a, b, d, r, k) = v.parts();
    (a as f64 + b as f64 * (r as f64).sqrt()) / d as f64 * std::f64::consts::PI.powi(k as i32)
}

fn unit_sphere_sampler() -> SphereSampler {
    let zero = Val::from_int(0);
    SphereSampler::new(
        ShapeId::new(ShapeKind::Sphere, 0),
        Sphere::new(Point::new(zero, zero, zero), Val::from_int(2)).unwrap(),
    )
}

fn side_intersection() -> RayIntersection {
    let zero = Val::from_int(0);
    RayIntersection::new(
        Val::from_int(1),
        Point::new(Val::from_int(4), zero, zero),
        UnitVector::x_direction().neg(),
        SurfaceSide::Front,
    )
}

#[test]
fn sphere_sampler_light_pdf_succeeds() {
    let zero = Val::from_int(0);
    let sampler = unit_sphere_sampler();
    let intersection = side_intersection();
    // A direction along the edge of the subtended cone.
    let ray_next = Ray::new(
        Point::new(Val::from_int(4), zero, zero),
        Vector::new(Val::from_int(-3), Val::from_int(3).sqrt().unwrap(), zero)
            .normalize()
            .unwrap(),
    );
    let pdf = sampler.light_pdf(&intersection, &ray_next).unwrap();
    // Exactly (2 + sqrt(3)) / pi, the reciprocal of the cone's solid angle.
    let expected = Val::from_int(2)
        .add(Val::from_int(3).sqrt().unwrap())
        .unwrap()
        .div(Val::pi())
        .unwrap();
    assert!(pdf.equals(&expected));
    assert!((val_to_f64(&pdf) - 1.187948667).abs() < 1e-6);
}

#[test]
fn sphere_sampler_light_pdf_zero_outside_cone() {
    let zero = Val::from_int(0);
    let sampler = unit_sphere_sampler();
    let intersection = side_intersection();
    let ray_next = Ray::new(
        Point::new(Val::from_int(4), zero, zero),
        UnitVector::y_direction(),
    );
    let pdf = sampler.light_pdf(&intersection, &ray_next).unwrap();
    assert!(pdf.equals(&Val::from_int(0)));
}

#[test]
fn sphere_sampler_round_trip_density() {
    // A sampled direction fed back into light_pdf returns the weight the
    // sample was built with.
    let sampler = unit_sphere_sampler();
    let intersection = side_intersection();
    let (ray_next, pdf) = sampler
        .sample_cone(&intersection, Val::ratio(1, 2).unwrap(), Val::ratio(1, 2).unwrap())
        .unwrap();
    let queried = sampler.light_pdf(&intersection, &ray_next).unwrap();
    assert!(queried.equals(&pdf));
    assert_eq!(queried.sign(), 1);
}

#[test]
fn sphere_sampler_degenerate_center_yields_no_sample() {
    // Intersection exactly at the sphere center: no panic, no sample.
    let zero = Val::from_int(0);
    let sampler = unit_sphere_sampler();
    let intersection = RayIntersection::new(
        Val::from_int(1),
        Point::new(zero, zero, zero),
        UnitVector::z_direction(),
        SurfaceSide::Back,
    );
    assert!(sampler
        .sample_cone(&intersection, Val::ratio(1, 2).unwrap(), Val::ratio(1, 2).unwrap())
        .is_none());
    let ray_next = Ray::new(Point::new(zero, zero, zero), UnitVector::z_direction());
    assert!(sampler.light_pdf(&intersection, &ray_next).is_none());
}

#[test]
fn light_sample_rejects_dirac_material() {
    let sampler = unit_sphere_sampler();
    let intersection = side_intersection();
    let zero = Val::from_int(0);
    let ray = Ray::new(
        Point::new(Val::from_int(8), zero, zero),
        UnitVector::x_direction().neg(),
    );
    let material = Material::Specular(Specular::new(Color::white()));
    assert!(sampler
        .light_sample(
            &ray,
            &intersection,
            &material,
            Val::ratio(1, 2).unwrap(),
            Val::ratio(1, 2).unwrap(),
        )
        .is_none());
}

#[test]
fn empty_sampler_is_never_a_light() {
    let zero = Val::from_int(0);
    let sampler = EmptySampler::new();
    assert!(sampler.id().is_none());
    assert!(sampler.shape().is_none());
    let intersection = side_intersection();
    let ray_next = Ray::new(Point::new(zero, zero, zero), UnitVector::z_direction());
    assert!(sampler.light_pdf(&intersection, &ray_next).equals(&zero));
    let material = Material::Specular(Specular::new(Color::white()));
    let mut rng = rand::rngs::StdRng::seed_from_u64(7);
    assert!(sampler
        .light_sample(&ray_next, &intersection, &material, &mut rng)
        .is_none());
}

#[test]
fn sampler_dispatch_reports_identity() {
    let sampler = LightSampler::Sphere(unit_sphere_sampler());
    assert_eq!(
        sampler.id(),
        Some(ShapeId::new(ShapeKind::Sphere, 0))
    );
    assert!(sampler.shape().is_some());
    let empty = LightSampler::Empty(EmptySampler::new());
    assert!(empty.id().is_none());
    assert!(empty.shape().is_none());
}

#[test]
fn sphere_new_rejects_nonpositive_radius() {
    let zero = Val::from_int(0);
    assert!(matches!(
        Sphere::new(Point::new(zero, zero, zero), zero),
        Err(TryNewSphereError::InvalidRadius),
    ));
    assert!(matches!(
        Sphere::new(Point::new(zero, zero, zero), Val::from_int(-1)),
        Err(TryNewSphereError::InvalidRadius),
    ));
    assert!(Sphere::new(Point::new(zero, zero, zero), Val::ratio(1, 2).unwrap()).is_ok());
}

#[test]
fn random_draws_stay_in_unit_interval() {
    let mut rng = rand::rngs::StdRng::seed_from_u64(42);
    let mut i: u32 = 0;
    while i < 16 {
        let v = lumen::random::draw_unit(&mut rng);
        assert!(v.sign() >= 0);
        assert!(val_to_f64(&v) < 1.0);
        i += 1;
    }
}
