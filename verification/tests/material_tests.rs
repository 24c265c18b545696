use lumen::algebra::{Point, UnitVector, Vector};
use lumen::color::Color;
use lumen::geometry::{Ray, RayIntersection, SurfaceSide};
use lumen::material::{Material, MaterialKind, Refractive, Specular, TryNewRefractiveError};
use lumen::num::Val;

fn sqrt3_over_2() -> Val {
    Val::from_int(3)
        .sqrt()
        .unwrap()
        .div(Val::from_int(2))
        .unwrap()
}

fn half() -> Val {
    Val::ratio(1, 2).unwrap()
}

fn grazing_ray() -> Ray {
    Ray::new(
        Point::new(sqrt3_over_2(), half(), Val::from_int(0)),
        Vector::new(sqrt3_over_2().neg(), half().neg(), Val::from_int(0))
            .normalize()
            .unwrap(),
    )
}

#[test]
fn refractive_new_fails_when_refractive_index_is_invalid() {
    assert!(matches!(
        Refractive::new(Color::white(), Val::from_int(0)),
        Err(TryNewRefractiveError::InvalidRefractiveIndex),
    ));
}

#[test]
fn refractive_new_succeeds_for_positive_index() {
    assert!(Refractive::new(Color::white(), Val::ratio(3, 2).unwrap()).is_ok());
    assert!(Refractive::new(Color::white(), Val::from_int(3).sqrt().unwrap()).is_ok());
    assert!(matches!(
        Refractive::new(Color::white(), Val::from_int(-2)),
        Err(TryNewRefractiveError::InvalidRefractiveIndex),
    ));
}

#[test]
fn refractive_calc_next_ray_succeeds_returning_refractive_ray() {
    let zero = Val::from_int(0);
    let ray = grazing_ray();
    let intersection = RayIntersection::new(
        Val::from_int(1),
        Point::new(zero, zero, zero),
        UnitVector::y_direction(),
        SurfaceSide::Front,
    );
    let refractive =
        Refractive::new(Color::white(), Val::from_int(3).sqrt().unwrap()).unwrap();
    let ray_next = refractive
        .calc_next_ray(&ray, &intersection, Val::from_int(1))
        .unwrap();
    let expected = Vector::new(half().neg(), sqrt3_over_2().neg(), zero)
        .normalize()
        .unwrap();
    assert!(ray_next.direction().equals(&expected));
}

#[test]
fn refractive_calc_next_ray_succeeds_when_total_internal_reflection_occurs() {
    let zero = Val::from_int(0);
    let ray = grazing_ray();
    let intersection = RayIntersection::new(
        Val::from_int(1),
        Point::new(zero, zero, zero),
        UnitVector::y_direction(),
        SurfaceSide::Back,
    );
    let refractive =
        Refractive::new(Color::white(), Val::from_int(3).sqrt().unwrap()).unwrap();
    let ray_next = refractive
        .calc_next_ray(&ray, &intersection, Val::from_int(1))
        .unwrap();
    let expected = Vector::new(sqrt3_over_2().neg(), half(), zero)
        .normalize()
        .unwrap();
    assert!(ray_next.direction().equals(&expected));
}

#[test]
fn refractive_calc_next_ray_succeeds_when_reflectance_is_high() {
    let zero = Val::from_int(0);
    let ray = grazing_ray();
    let intersection = RayIntersection::new(
        Val::from_int(1),
        Point::new(zero, zero, zero),
        UnitVector::y_direction(),
        SurfaceSide::Front,
    );
    let refractive =
        Refractive::new(Color::white(), Val::from_int(3).sqrt().unwrap()).unwrap();
    let ray_next = refractive
        .calc_next_ray(&ray, &intersection, Val::from_int(0))
        .unwrap();
    let expected = Vector::new(sqrt3_over_2().neg(), half(), zero)
        .normalize()
        .unwrap();
    assert!(ray_next.direction().equals(&expected));
}

#[test]
fn specular_calc_next_ray_succeeds() {
    let zero = Val::from_int(0);
    let ray = grazing_ray();
    let intersection = RayIntersection::new(
        Val::from_int(1),
        Point::new(zero, zero, zero),
        UnitVector::y_direction(),
        SurfaceSide::Back,
    );
    let specular = Specular::new(Color::white());
    let ray_next = specular.calc_next_ray(&ray, &intersection).unwrap();
    let expected = Vector::new(sqrt3_over_2().neg(), half(), zero)
        .normalize()
        .unwrap();
    assert!(ray_next.direction().equals(&expected));
}

#[test]
fn reflection_preserves_incidence_angle() {
    // reflect(d, n) . n == -(d . n), and the reflected direction is unit.
    let zero = Val::from_int(0);
    let ray = grazing_ray();
    let intersection = RayIntersection::new(
        Val::from_int(1),
        Point::new(zero, zero, zero),
        UnitVector::y_direction(),
        SurfaceSide::Back,
    );
    let specular = Specular::new(Color::white());
    let ray_next = specular.calc_next_ray(&ray, &intersection).unwrap();
    let n = intersection.normal().as_vector();
    let din = ray.direction().as_vector().dot(&n).unwrap();
    let dout = ray_next.direction().as_vector().dot(&n).unwrap();
    assert!(dout.equals(&din.neg()));
    let n2 = ray_next
        .direction()
        .as_vector()
        .norm_squared()
        .unwrap();
    assert!(n2.equals(&Val::from_int(1)));
}

#[test]
fn dirac_materials_report_no_kernel() {
    let zero = Val::from_int(0);
    let ray = grazing_ray();
    let intersection = RayIntersection::new(
        Val::from_int(1),
        Point::new(zero, zero, zero),
        UnitVector::y_direction(),
        SurfaceSide::Front,
    );
    let specular = Material::Specular(Specular::new(Color::white()));
    let refractive = Material::Refractive(
        Refractive::new(Color::white(), Val::ratio(3, 2).unwrap()).unwrap(),
    );
    assert!(specular.bsdf(&ray, &intersection, &ray).is_none());
    assert!(refractive.bsdf(&ray, &intersection, &ray).is_none());
    assert_eq!(specular.material_kind(), MaterialKind::Specular);
    assert_eq!(refractive.material_kind(), MaterialKind::Refractive);
}

#[test]
fn coef_sample_carries_unit_pdf_and_albedo() {
    let zero = Val::from_int(0);
    let ray = grazing_ray();
    let intersection = RayIntersection::new(
        Val::from_int(1),
        Point::new(zero, zero, zero),
        UnitVector::y_direction(),
        SurfaceSide::Back,
    );
    let specular = Specular::new(Color::white());
    let sample = specular.coef_sample(&ray, &intersection).unwrap();
    assert!(sample.pdf().equals(&Val::from_int(1)));
    assert!(sample
        .coefficient()
        .equals(&Color::white().to_vector()));
    let refractive =
        Refractive::new(Color::white(), Val::from_int(3).sqrt().unwrap()).unwrap();
    let sample2 = refractive
        .coef_sample(&ray, &intersection, Val::from_int(0))
        .unwrap();
    assert!(sample2.pdf().equals(&Val::from_int(1)));
}

#[test]
fn shade_term_applies_coefficient() {
    let half_gray = Vector::new(half(), half(), half());
    let lit = lumen::color::shade_term(&half_gray, &Color::white()).unwrap();
    assert!(lit.red.equals(&half()));
    assert!(lit.green.equals(&half()));
    assert!(lit.blue.equals(&half()));
    let dark = lumen::color::shade_term(&half_gray, &Color::black()).unwrap();
    assert!(dark.red.equals(&Val::from_int(0)));
}
