use geomath::point::Point3;
use geomath::ray::{Ray, RayDifferential};
use geomath::vector::Vector3;

#[test]
fn ray_defaults_to_unbounded_extent_at_time_zero() {
    let r = Ray::new(Point3::new(1i64, 2, 3), Vector3::new(4i64, 5, 6));
    assert_eq!(r.origin, Point3::new(1, 2, 3));
    assert_eq!(r.direction, Vector3::new(4, 5, 6));
    assert_eq!(r.tmax, i64::MAX);
    assert_eq!(r.time, 0);
}

#[test]
fn ray_with_tmax_and_with_time_return_modified_copies() {
    let r = Ray::new(Point3::new(1i64, 2, 3), Vector3::new(4i64, 5, 6));
    let s = r.with_tmax(100);
    assert_eq!(s.tmax, 100);
    assert_eq!(s.origin, r.origin);
    assert_eq!(s.direction, r.direction);
    assert_eq!(s.time, r.time);
    let t = s.with_time(7);
    assert_eq!(t.time, 7);
    assert_eq!(t.tmax, 100);
    // The originals are untouched: copies, not mutation.
    assert_eq!(r.tmax, i64::MAX);
    assert_eq!(s.time, 0);
}

#[test]
fn ray_point_at_walks_the_parametric_line() {
    let r = Ray::new(Point3::new(1i64, 2, 3), Vector3::new(4i64, 5, 6));
    assert_eq!(r.point_at(0), Point3::new(1, 2, 3));
    assert_eq!(r.point_at(2), Point3::new(9, 12, 15));
    assert_eq!(r.point_at(-1), Point3::new(-3, -3, -3));
}

#[test]
fn differentials_absent_after_construction_from_a_bare_ray() {
    let rd = RayDifferential::new(Point3::new(0i64, 0, 0), Vector3::new(1i64, 0, 0));
    assert!(!rd.has_differentials());
    let rd2 = RayDifferential::from_ray(Ray::new(
        Point3::new(0i64, 0, 0),
        Vector3::new(1i64, 0, 0),
    ));
    assert!(!rd2.has_differentials());
}

#[test]
fn differentials_present_only_after_all_four_are_supplied() {
    let rd = RayDifferential::new(Point3::new(0i64, 0, 0), Vector3::new(1i64, 0, 0));
    let with = rd.with_differentials(
        Point3::new(1i64, 0, 0),
        Vector3::new(1i64, 1, 0),
        Point3::new(0i64, 1, 0),
        Vector3::new(1i64, 0, 1),
    );
    assert!(with.has_differentials());
    assert_eq!(with.rx_origin, Some(Point3::new(1, 0, 0)));
    assert_eq!(with.ry_origin, Some(Point3::new(0, 1, 0)));
    assert_eq!(with.rx_direction, Some(Vector3::new(1, 1, 0)));
    assert_eq!(with.ry_direction, Some(Vector3::new(1, 0, 1)));
    // The receiver is unchanged.
    assert!(!rd.has_differentials());
}

#[test]
fn scale_differentials_moves_present_values_toward_the_primary_ray() {
    let rd = RayDifferential::new(Point3::new(1i64, 1, 1), Vector3::new(1i64, 0, 0))
        .with_differentials(
            Point3::new(3i64, 5, 7),
            Vector3::new(3i64, 0, 0),
            Point3::new(1i64, 1, 1),
            Vector3::new(1i64, 2, 0),
        );
    let scaled = rd.scale_differentials(2);
    // origin + (aux - origin) * t, per component.
    assert_eq!(scaled.rx_origin, Some(Point3::new(5, 9, 13)));
    assert_eq!(scaled.ry_origin, Some(Point3::new(1, 1, 1)));
    assert_eq!(scaled.rx_direction, Some(Vector3::new(5, 0, 0)));
    assert_eq!(scaled.ry_direction, Some(Vector3::new(1, 4, 0)));
    assert_eq!(scaled.ray, rd.ray);
}

#[test]
fn scale_differentials_keeps_absent_values_absent() {
    let rd = RayDifferential::new(Point3::new(1i64, 2, 3), Vector3::new(4i64, 5, 6));
    let scaled = rd.scale_differentials(10);
    assert!(!scaled.has_differentials());
    assert_eq!(scaled.rx_origin, None);
    assert_eq!(scaled.ry_origin, None);
    assert_eq!(scaled.rx_direction, None);
    assert_eq!(scaled.ry_direction, None);
    assert_eq!(scaled.ray, rd.ray);
}
