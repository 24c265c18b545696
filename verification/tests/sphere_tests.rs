use lumen::algebra::{Point, UnitVector};
use lumen::geometry::{DisRange, Ray, ShapeId, ShapeKind, SurfaceSide};
use lumen::num::Val;
use lumen::sphere::Sphere;

fn origin_sphere() -> Sphere {
    let zero = Val::from_int(0);
    Sphere::new(Point::new(zero, zero, zero), Val::from_int(2)).unwrap()
}

#[test]
fn sphere_hit_from_outside() {
    let zero = Val::from_int(0);
    let sphere = origin_sphere();
    let ray = Ray::new(
        Point::new(Val::from_int(4), zero, zero),
        UnitVector::x_direction().neg(),
    );
    let intersection = sphere.hit(&ray, DisRange::positive()).unwrap();
    assert!(intersection.distance().equals(&Val::from_int(2)));
    assert!(intersection
        .position()
        .equals(&Point::new(Val::from_int(2), zero, zero)));
    assert!(intersection.normal().equals(&UnitVector::x_direction()));
    assert_eq!(intersection.side(), SurfaceSide::Front);
}

#[test]
fn sphere_hit_from_inside() {
    let zero = Val::from_int(0);
    let sphere = origin_sphere();
    let ray = Ray::new(Point::new(zero, zero, zero), UnitVector::x_direction());
    let intersection = sphere.hit(&ray, DisRange::positive()).unwrap();
    assert!(intersection.distance().equals(&Val::from_int(2)));
    assert!(intersection
        .position()
        .equals(&Point::new(Val::from_int(2), zero, zero)));
    assert!(intersection
        .normal()
        .equals(&UnitVector::x_direction().neg()));
    assert_eq!(intersection.side(), SurfaceSide::Back);
}

#[test]
fn sphere_tangent_hit() {
    let zero = Val::from_int(0);
    let sphere = origin_sphere();
    let ray = Ray::new(
        Point::new(Val::from_int(4), zero, Val::from_int(2)),
        UnitVector::x_direction().neg(),
    );
    let intersection = sphere.hit(&ray, DisRange::positive()).unwrap();
    assert!(intersection.distance().equals(&Val::from_int(4)));
    assert!(intersection
        .position()
        .equals(&Point::new(zero, zero, Val::from_int(2))));
    assert!(intersection.normal().equals(&UnitVector::z_direction()));
}

#[test]
fn sphere_miss() {
    let zero = Val::from_int(0);
    let sphere = origin_sphere();
    let ray = Ray::new(
        Point::new(Val::from_int(4), zero, zero),
        UnitVector::y_direction(),
    );
    assert!(sphere.hit(&ray, DisRange::positive()).is_none());
}

#[test]
fn sphere_capabilities() {
    let sphere = origin_sphere();
    assert_eq!(sphere.shape_kind(), ShapeKind::Sphere);
    let bb = sphere.bounding_box().unwrap();
    let m2 = Val::from_int(-2);
    let p2 = Val::from_int(2);
    assert!(bb.min.equals(&Point::new(m2, m2, m2)));
    assert!(bb.max.equals(&Point::new(p2, p2, p2)));
    let sampler = sphere
        .get_sampler(ShapeId::new(ShapeKind::Sphere, 3))
        .unwrap();
    assert_eq!(sampler.id(), Some(ShapeId::new(ShapeKind::Sphere, 3)));
}
