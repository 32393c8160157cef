use geomath::common::{
    Dimension2, Dimension3, abs_dot, component_wise_max, component_wise_min, cross, dot,
    face_forward, max_component, min_component, distance_squared, ComponentWise,
    ComponentWiseSigned, CrossProduct, InnerProduct, LinearInterpolate, MetricSpace,
};
use geomath::scalar::{partial_max, partial_min};
use geomath::vector::{Vector2, Vector3, vec2, vec3};

#[test]
fn partial_min_picks_left_on_strict_order() {
    assert_eq!(partial_min(1i32, 2i32), 1);
    assert_eq!(partial_min(2i32, 1i32), 1);
    assert_eq!(partial_max(1i32, 2i32), 2);
    assert_eq!(partial_max(7u32, 3u32), 7);
}

#[test]
fn partial_min_ties_resolve_to_right_operand() {
    assert_eq!(partial_min(5i32, 5i32), 5);
    assert_eq!(partial_max(5i32, 5i32), 5);
}

#[test]
fn vector3_constructors() {
    let v = Vector3::new(1i64, 2, 3);
    assert_eq!((v.x, v.y, v.z), (1, 2, 3));
    assert_eq!(Vector3::from_value(7i64), Vector3::new(7, 7, 7));
    assert_eq!(Vector3::<i64>::unit_x(), Vector3::new(1, 0, 0));
    assert_eq!(Vector3::<i64>::unit_y(), Vector3::new(0, 1, 0));
    assert_eq!(Vector3::<i64>::unit_z(), Vector3::new(0, 0, 1));
    assert_eq!(vec3(4i32, 5, 6), Vector3::new(4, 5, 6));
    assert!(Vector3::<i64>::zero().is_zero());
    assert!(!Vector3::new(0i64, 1, 0).is_zero());
}

#[test]
fn vector3_arithmetic_is_component_wise() {
    let a = Vector3::new(1i64, 2, 3);
    let b = Vector3::new(10i64, 20, 30);
    assert_eq!(a.add(b), Vector3::new(11, 22, 33));
    assert_eq!(b.sub(a), Vector3::new(9, 18, 27));
    assert_eq!(a.mul_scalar(-2), Vector3::new(-2, -4, -6));
    assert_eq!(a.neg(), Vector3::new(-1, -2, -3));
}

#[test]
fn vector3_division_truncates_toward_zero() {
    let v = Vector3::new(7i64, -7, 9);
    assert_eq!(v.div_scalar(2), Vector3::new(3, -3, 4));
    assert_eq!(v.div_scalar(-2), Vector3::new(-3, 3, -4));
}

#[test]
fn vector3_assign_forms_replace_the_value() {
    let mut v = Vector3::new(1i64, 2, 3);
    v.add_assign(Vector3::new(1, 1, 1));
    assert_eq!(v, Vector3::new(2, 3, 4));
    v.sub_assign(Vector3::new(2, 2, 2));
    assert_eq!(v, Vector3::new(0, 1, 2));
}

#[test]
fn vector3_indexing_by_position_and_axis() {
    let v = Vector3::new(4i64, 5, 6);
    assert_eq!(v.index(0), 4);
    assert_eq!(v.index(1), 5);
    assert_eq!(v.index(2), 6);
    assert_eq!(v.axis(Dimension3::X), 4);
    assert_eq!(v.axis(Dimension3::Y), 5);
    assert_eq!(v.axis(Dimension3::Z), 6);
}

#[test]
fn vector3_permute_allows_duplicated_axes() {
    let v = Vector3::new(1i64, 2, 3);
    assert_eq!(v.permute(Dimension3::Z, Dimension3::X, Dimension3::Y), Vector3::new(3, 1, 2));
    assert_eq!(v.permute(Dimension3::X, Dimension3::X, Dimension3::X), Vector3::new(1, 1, 1));
}

#[test]
fn vector3_component_folds() {
    let v = Vector3::new(3i64, 1, 2);
    assert_eq!(min_component(v), 1);
    assert_eq!(max_component(v), 3);
    assert_eq!(v.min_component(), 1);
    assert_eq!(v.max_component(), 3);
}

#[test]
fn vector3_max_dimension_tie_breaks_to_z() {
    assert_eq!(Vector3::new(3i64, 1, 2).max_dimension(), Dimension3::X);
    assert_eq!(Vector3::new(1i64, 3, 2).max_dimension(), Dimension3::Y);
    assert_eq!(Vector3::new(1i64, 2, 3).max_dimension(), Dimension3::Z);
    // No axis is strictly greatest: the conditionals fall through to Z.
    assert_eq!(Vector3::new(1i64, 1, 1).max_dimension(), Dimension3::Z);
    assert_eq!(Vector3::new(2i64, 1, 2).max_dimension(), Dimension3::Z);
}

#[test]
fn vector3_component_wise_min_max() {
    let a = Vector3::new(1i64, 5, 3);
    let b = Vector3::new(2i64, 4, 3);
    assert_eq!(component_wise_min(a, b), Vector3::new(1, 4, 3));
    assert_eq!(component_wise_max(a, b), Vector3::new(2, 5, 3));
    assert_eq!(a.min(b), Vector3::new(1, 4, 3));
    assert_eq!(a.max(b), Vector3::new(2, 5, 3));
}

#[test]
fn vector3_abs_is_per_component() {
    assert_eq!(Vector3::new(-1i64, 2, -3).abs(), Vector3::new(1, 2, 3));
}

#[test]
fn vector3_dot_and_magnitude_squared() {
    let a = Vector3::new(1i64, 2, 3);
    let b = Vector3::new(4i64, -5, 6);
    assert_eq!(dot(a, b), 4 - 10 + 18);
    assert_eq!(a.dot(b), 12);
    assert_eq!(abs_dot(a, Vector3::new(-4i64, -5, -6)), 32);
    assert_eq!(a.magnitude_squared(), 14);
}

#[test]
fn vector3_cross_matches_determinant_expansion() {
    let a = Vector3::new(1i64, 2, 3);
    let b = Vector3::new(4i64, 5, 6);
    let c = cross(a, b);
    assert_eq!(c, Vector3::new(-3, 6, -3));
}

#[test]
fn cross_product_is_orthogonal_to_both_operands() {
    let a = Vector3::new(3i64, -7, 11);
    let b = Vector3::new(-2i64, 5, 13);
    let c = a.cross(b);
    assert_eq!(c.dot(a), 0);
    assert_eq!(c.dot(b), 0);
}

#[test]
fn vector3_lerp_hits_endpoints() {
    let a = Vector3::new(1i64, 2, 3);
    let b = Vector3::new(10i64, 20, 30);
    assert_eq!(a.lerp(b, 0), a);
    assert_eq!(a.lerp(b, 1), b);
    // Extrapolation is permitted: t is not clamped.
    assert_eq!(a.lerp(b, 2), Vector3::new(19, 38, 57));
}

#[test]
fn vector3_distance_squared() {
    let a = Vector3::new(1i64, 2, 3);
    let b = Vector3::new(4i64, 6, 3);
    assert_eq!(distance_squared(a, b), 25);
    assert_eq!(a.distance_squared(b), 25);
}

#[test]
fn face_forward_flips_against_the_hemisphere() {
    let v = Vector3::new(1i64, 0, 0);
    let w = Vector3::new(-1i64, 0, 0);
    assert_eq!(face_forward(v, w), Vector3::new(-1, 0, 0));
    assert_eq!(face_forward(v, v), v);
    // A perpendicular reference leaves the vector unchanged.
    assert_eq!(face_forward(v, Vector3::new(0i64, 1, 0)), v);
}

#[test]
fn vector2_constructors_and_arithmetic() {
    let a = Vector2::new(1i64, 2);
    let b = Vector2::new(10i64, 20);
    assert_eq!(vec2(1i64, 2), a);
    assert_eq!(Vector2::from_value(3i64), Vector2::new(3, 3));
    assert_eq!(Vector2::<i64>::unit_x(), Vector2::new(1, 0));
    assert_eq!(Vector2::<i64>::unit_y(), Vector2::new(0, 1));
    assert!(Vector2::<i64>::zero().is_zero());
    assert_eq!(a.add(b), Vector2::new(11, 22));
    assert_eq!(b.sub(a), Vector2::new(9, 18));
    assert_eq!(a.mul_scalar(4), Vector2::new(4, 8));
    assert_eq!(Vector2::new(-9i64, 9).div_scalar(2), Vector2::new(-4, 4));
    assert_eq!(a.neg(), Vector2::new(-1, -2));
    assert_eq!(Vector2::new(-3i64, 4).abs(), Vector2::new(3, 4));
}

#[test]
fn vector2_folds_and_products() {
    let a = Vector2::new(3i64, 1);
    let b = Vector2::new(2i64, 5);
    assert_eq!(a.min_component(), 1);
    assert_eq!(a.max_component(), 3);
    assert_eq!(a.max_dimension(), Dimension2::X);
    assert_eq!(Vector2::new(1i64, 1).max_dimension(), Dimension2::Y);
    assert_eq!(a.min(b), Vector2::new(2, 1));
    assert_eq!(a.max(b), Vector2::new(3, 5));
    assert_eq!(a.dot(b), 11);
    assert_eq!(a.magnitude_squared(), 10);
    assert_eq!(a.distance_squared(b), 17);
    assert_eq!(a.index(0), 3);
    assert_eq!(a.index(1), 1);
    assert_eq!(a.axis(Dimension2::X), 3);
    assert_eq!(a.axis(Dimension2::Y), 1);
}

#[test]
fn vector2_lerp_hits_endpoints() {
    let a = Vector2::new(-4i64, 9);
    let b = Vector2::new(6i64, -1);
    assert_eq!(a.lerp(b, 0), a);
    assert_eq!(a.lerp(b, 1), b);
}

#[test]
fn integer_scalar_aliases_use_thirty_two_bit_components() {
    let v: geomath::vector::Vector3i = Vector3::new(1i32, 2, 3);
    let w: geomath::vector::Vector2i = Vector2::new(4i32, 5);
    assert_eq!(v.dot(v), 14);
    assert_eq!(w.dot(w), 41);
    let p: geomath::point::Point3i = geomath::point::Point3::new(1i32, 2, 3);
    let q: geomath::point::Point2i = geomath::point::Point2::from_value(6i32);
    assert_eq!(p.sub(p), Vector3::zero());
    assert_eq!(q.index(0), 6);
}
