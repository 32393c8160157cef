use geomath::common::{
    Dimension2, Dimension3, cross, dot, ComponentWise, ComponentWiseSigned, InnerProduct,
    LinearInterpolate, MetricSpace,
};
use geomath::normal::Normal3;
use geomath::point::{Point2, Point3};
use geomath::vector::{Vector2, Vector3};

#[test]
fn point_minus_point_is_the_zero_vector_when_equal() {
    let p = Point3::new(1i64, 2, 3);
    let q = Point3::new(1i64, 2, 3);
    assert_eq!(p.sub(q), Vector3::zero());
}

#[test]
fn point3_minus_point3_yields_a_vector() {
    let p = Point3::new(5i64, 7, 9);
    let q = Point3::new(1i64, 2, 3);
    assert_eq!(p.sub(q), Vector3::new(4, 5, 6));
}

#[test]
fn point3_plus_and_minus_vector_yield_points() {
    let p = Point3::new(1i64, 2, 3);
    let v = Vector3::new(10i64, 20, 30);
    assert_eq!(p.add_vector(v), Point3::new(11, 22, 33));
    assert_eq!(p.sub_vector(v), Point3::new(-9, -18, -27));
    let mut q = p;
    q.add_vector_assign(v);
    assert_eq!(q, Point3::new(11, 22, 33));
    q.sub_vector_assign(v);
    assert_eq!(q, p);
}

#[test]
fn point3_affine_scaling() {
    let p = Point3::new(2i64, -4, 6);
    assert_eq!(p.mul_scalar(3), Point3::new(6, -12, 18));
    assert_eq!(Point3::new(7i64, -7, 8).div_scalar(2), Point3::new(3, -3, 4));
}

#[test]
fn point3_conversions_and_queries() {
    let v = Vector3::new(1i64, 2, 3);
    let p = Point3::from_vector(v);
    assert_eq!(p, Point3::new(1, 2, 3));
    assert_eq!(p.to_vector(), v);
    assert_eq!(Point3::from_value(4i64), Point3::new(4, 4, 4));
    assert!(Point3::<i64>::zero().is_zero());
    assert_eq!(p.index(0), 1);
    assert_eq!(p.index(2), 3);
    assert_eq!(p.axis(Dimension3::Y), 2);
    assert_eq!(p.permute(Dimension3::Y, Dimension3::Z, Dimension3::X), Point3::new(2, 3, 1));
    assert_eq!(p.neg(), Point3::new(-1, -2, -3));
    assert_eq!(Point3::new(-5i64, 4, -3).abs(), Point3::new(5, 4, 3));
}

#[test]
fn point3_component_folds() {
    let p = Point3::new(3i64, 1, 2);
    let q = Point3::new(2i64, 2, 2);
    assert_eq!(p.min_component(), 1);
    assert_eq!(p.max_component(), 3);
    assert_eq!(p.max_dimension(), Dimension3::X);
    assert_eq!(Point3::new(1i64, 1, 1).max_dimension(), Dimension3::Z);
    assert_eq!(p.min(q), Point3::new(2, 1, 2));
    assert_eq!(p.max(q), Point3::new(3, 2, 2));
}

#[test]
fn point3_metric_and_interpolation() {
    let p = Point3::new(1i64, 2, 3);
    let q = Point3::new(4i64, 6, 3);
    assert_eq!(p.distance_squared(q), 25);
    assert_eq!(p.lerp(q, 0), p);
    assert_eq!(p.lerp(q, 1), q);
}

#[test]
fn point2_operations() {
    let p = Point2::from_vector2(Vector2::new(1i64, 2));
    let q = Point2::from_value(3i64);
    assert_eq!(q, Point2::from_vector2(Vector2::new(3, 3)));
    assert_eq!(q.sub(p), Vector2::new(2, 1));
    assert_eq!(p.add_vector(Vector2::new(5, 5)), Point2::from_vector2(Vector2::new(6, 7)));
    assert_eq!(p.sub_vector(Vector2::new(1, 1)), Point2::from_vector2(Vector2::new(0, 1)));
    assert_eq!(p.mul_scalar(4), Point2::from_vector2(Vector2::new(4, 8)));
    assert_eq!(Point2::from_value(-7i64).div_scalar(2), Point2::from_value(-3));
    assert_eq!(p.index(0), 1);
    assert_eq!(p.axis(Dimension2::Y), 2);
    assert_eq!(p.neg(), Point2::from_vector2(Vector2::new(-1, -2)));
    assert_eq!(p.min_component(), 1);
    assert_eq!(p.max_component(), 2);
    assert_eq!(p.max_dimension(), Dimension2::Y);
    assert_eq!(p.distance_squared(q), 5);
    assert_eq!(p.lerp(q, 0), p);
    assert_eq!(p.lerp(q, 1), q);
    assert_eq!(Point2::from_point3(Point3::new(8i64, 9, 10)), Point2::from_vector2(Vector2::new(8, 9)));
    assert_eq!(Point2::from_vector3(Vector3::new(8i64, 9, 10)), Point2::from_vector2(Vector2::new(8, 9)));
    assert!(Point2::<i64>::zero().is_zero());
}

#[test]
fn normal3_arithmetic() {
    let n = Normal3::new(1i64, 2, 3);
    let m = Normal3::new(10i64, 20, 30);
    assert_eq!(n.add(m), Normal3::new(11, 22, 33));
    assert_eq!(m.sub(n), Normal3::new(9, 18, 27));
    assert_eq!(n.mul_scalar(2), Normal3::new(2, 4, 6));
    assert_eq!(Normal3::new(9i64, -9, 7).div_scalar(2), Normal3::new(4, -4, 3));
    assert_eq!(n.neg(), Normal3::new(-1, -2, -3));
    assert!(Normal3::<i64>::zero().is_zero());
    let mut k = n;
    k.add_assign(n);
    assert_eq!(k, Normal3::new(2, 4, 6));
    k.sub_assign(n);
    assert_eq!(k, n);
}

#[test]
fn normal3_interoperates_with_vector3() {
    let n = Normal3::new(1i64, 0, 0);
    let v = Vector3::new(0i64, 1, 0);
    assert_eq!(dot(n, v), 0);
    assert_eq!(dot(v, n), 0);
    assert_eq!(n.dot(n), 1);
    assert_eq!(cross(n, v), Vector3::new(0, 0, 1));
    assert_eq!(cross(v, n), Vector3::new(0, 0, -1));
    assert_eq!(n.magnitude_squared(), 1);
    let w = Vector3::new(4i64, 5, 6);
    assert_eq!(Normal3::from_vector(w).to_vector(), w);
}
