use lumen::algebra::{Point, UnitVector, Vector};
use lumen::geometry::{DisRange, Ray, ShapeId, ShapeKind, SurfaceSide};
use lumen::num::Val;
use lumen::plane::Plane;

#[test]
fn plane_hit_succeeds() {
    let zero = Val::from_int(0);
    let plane = Plane::new(
        Point::new(Val::from_int(-1), zero, zero),
        UnitVector::x_direction(),
    );
    let ray = Ray::new(
        Point::new(zero, zero, zero),
        Vector::new(Val::from_int(-1), zero, Val::from_int(-1))
            .normalize()
            .unwrap(),
    );
    let intersection = plane.hit(&ray, DisRange::positive()).unwrap();
    assert!(intersection
        .distance()
        .equals(&Val::from_int(2).sqrt().unwrap()));
    assert!(intersection
        .position()
        .equals(&Point::new(Val::from_int(-1), zero, Val::from_int(-1))));
    assert!(intersection.normal().equals(&UnitVector::x_direction()));
    assert_eq!(intersection.side(), SurfaceSide::Front);
}

#[test]
fn plane_parallel_ray_misses() {
    let zero = Val::from_int(0);
    let plane = Plane::new(
        Point::new(Val::from_int(-1), zero, zero),
        UnitVector::x_direction(),
    );
    let ray = Ray::new(Point::new(zero, zero, zero), UnitVector::y_direction());
    assert!(plane.hit(&ray, DisRange::positive()).is_none());
}

#[test]
fn plane_behind_ray_misses() {
    let zero = Val::from_int(0);
    let plane = Plane::new(
        Point::new(Val::from_int(-1), zero, zero),
        UnitVector::x_direction(),
    );
    // The plane is behind this ray: the distance would be negative.
    let ray = Ray::new(Point::new(zero, zero, zero), UnitVector::x_direction());
    assert!(plane.hit(&ray, DisRange::positive()).is_none());
}

#[test]
fn plane_back_side_flips_normal() {
    let zero = Val::from_int(0);
    let plane = Plane::new(
        Point::new(Val::from_int(1), zero, zero),
        UnitVector::x_direction(),
    );
    // Traveling along +x, the ray strikes the inward-facing side.
    let ray = Ray::new(Point::new(zero, zero, zero), UnitVector::x_direction());
    let intersection = plane.hit(&ray, DisRange::positive()).unwrap();
    assert_eq!(intersection.side(), SurfaceSide::Back);
    assert!(intersection
        .normal()
        .equals(&UnitVector::x_direction().neg()));
    assert!(intersection.distance().equals(&Val::from_int(1)));
}

#[test]
fn plane_capabilities() {
    let zero = Val::from_int(0);
    let plane = Plane::new(Point::new(zero, zero, zero), UnitVector::z_direction());
    assert_eq!(plane.shape_kind(), ShapeKind::Plane);
    assert!(plane.bounding_box().is_none());
    assert!(plane
        .get_sampler(ShapeId::new(ShapeKind::Plane, 0))
        .is_none());
    assert!(plane.point().equals(&Point::new(zero, zero, zero)));
    assert!(plane.normal().equals(&UnitVector::z_direction()));
}
