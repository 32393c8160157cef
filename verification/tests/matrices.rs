use geomath::matrix::{Matrix2x2, Matrix3x3, Matrix4x4};

#[test]
fn matrix2_determinant_of_one_two_three_four() {
    assert_eq!(Matrix2x2::new(1, 2, 3, 4).determinant(), -2);
}

#[test]
fn matrix2_identity_inverts_to_itself() {
    assert_eq!(Matrix2x2::identity().inverse(), Some(Matrix2x2::identity()));
}

#[test]
fn matrix2_singular_inverse_is_absent() {
    // Two equal rows: the determinant is exactly zero.
    assert_eq!(Matrix2x2::new(1, 2, 1, 2).determinant(), 0);
    assert_eq!(Matrix2x2::new(1, 2, 1, 2).inverse(), None);
}

#[test]
fn matrix2_exact_inverse_round_trip() {
    // Determinant one: the cofactor division is exact.
    let m = Matrix2x2::new(2, 1, 1, 1);
    assert_eq!(m.determinant(), 1);
    let inv = m.inverse().unwrap();
    assert_eq!(inv, Matrix2x2::new(1, -1, -1, 2));
    assert_eq!(inv.mul(m), Matrix2x2::identity());
    assert_eq!(m.mul(inv), Matrix2x2::identity());
    // Double inverse round-trips to the original.
    assert_eq!(inv.inverse(), Some(m));
}

#[test]
fn matrix2_inverse_entries_divide_toward_zero() {
    // Determinant six does not divide the cofactors: the integer inverse
    // truncates each entry toward zero.
    let m = Matrix2x2::new(2, 0, 0, 3);
    assert_eq!(m.determinant(), 6);
    assert_eq!(m.inverse(), Some(Matrix2x2::new(0, 0, 0, 0)));
}

#[test]
fn matrix2_minor_deletes_row_and_column() {
    let m = Matrix2x2::new(1, 2, 3, 4);
    assert_eq!(m.minor(0, 0), 4);
    assert_eq!(m.minor(0, 1), 3);
    assert_eq!(m.minor(1, 0), 2);
    assert_eq!(m.minor(1, 1), 1);
}

#[test]
fn matrix2_arithmetic() {
    let a = Matrix2x2::new(1, 2, 3, 4);
    let b = Matrix2x2::new(10, 20, 30, 40);
    assert_eq!(a.add(b), Matrix2x2::new(11, 22, 33, 44));
    assert_eq!(b.sub(a), Matrix2x2::new(9, 18, 27, 36));
    assert_eq!(a.mul_scalar(3), Matrix2x2::new(3, 6, 9, 12));
    assert_eq!(Matrix2x2::new(7, -7, 9, -9).div_scalar(2), Matrix2x2::new(3, -3, 4, -4));
    assert_eq!(a.transpose(), Matrix2x2::new(1, 3, 2, 4));
    assert_eq!(a.mul(Matrix2x2::identity()), a);
    assert_eq!(a.mul(b), Matrix2x2::new(70, 100, 150, 220));
    assert!(Matrix2x2::zero().is_zero());
    assert!(!a.is_zero());
}

#[test]
fn matrix2_entry_access_and_update() {
    let mut m = Matrix2x2::zero();
    m.set_entry(0, 1, 9);
    assert_eq!(m.entry(0, 1), 9);
    assert_eq!(m.entry(0, 0), 0);
    assert_eq!(m.entry(1, 0), 0);
}

#[test]
fn matrix3_determinant_by_cofactor_expansion() {
    let m = Matrix3x3::new(2, 0, 0, 0, 3, 0, 0, 0, 4);
    assert_eq!(m.determinant(), 24);
    let n = Matrix3x3::new(1, 2, 3, 4, 5, 6, 7, 8, 9);
    assert_eq!(n.determinant(), 0);
}

#[test]
fn matrix3_singular_inverse_is_absent() {
    // Two equal rows.
    let m = Matrix3x3::new(1, 2, 3, 1, 2, 3, 4, 5, 6);
    assert_eq!(m.inverse(), None);
}

#[test]
fn matrix3_exact_inverse_round_trip() {
    // A unit upper-triangular matrix has determinant one, so its integer
    // inverse is exact.
    let m = Matrix3x3::new(1, 2, 3, 0, 1, 4, 0, 0, 1);
    assert_eq!(m.determinant(), 1);
    let inv = m.inverse().unwrap();
    assert_eq!(inv, Matrix3x3::new(1, -2, 5, 0, 1, -4, 0, 0, 1));
    assert_eq!(inv.mul(m), Matrix3x3::identity());
    assert_eq!(m.mul(inv), Matrix3x3::identity());
    assert_eq!(inv.inverse(), Some(m));
}

#[test]
fn matrix3_identity_inverts_to_itself() {
    assert_eq!(Matrix3x3::identity().inverse(), Some(Matrix3x3::identity()));
}

#[test]
fn matrix3_minor_deletes_row_and_column() {
    let m = Matrix3x3::new(1, 2, 3, 4, 5, 6, 7, 8, 9);
    assert_eq!(m.minor(1, 1), Matrix2x2::new(1, 3, 7, 9));
    assert_eq!(m.minor(0, 0), Matrix2x2::new(5, 6, 8, 9));
    assert_eq!(m.minor(2, 2), Matrix2x2::new(1, 2, 4, 5));
}

#[test]
fn matrix3_arithmetic() {
    let a = Matrix3x3::new(1, 2, 3, 4, 5, 6, 7, 8, 9);
    let i = Matrix3x3::identity();
    assert_eq!(a.add(Matrix3x3::zero()), a);
    assert_eq!(a.sub(a), Matrix3x3::zero());
    assert_eq!(a.mul_scalar(2), Matrix3x3::new(2, 4, 6, 8, 10, 12, 14, 16, 18));
    assert_eq!(a.div_scalar(-2), Matrix3x3::new(0, -1, -1, -2, -2, -3, -3, -4, -4));
    assert_eq!(a.transpose(), Matrix3x3::new(1, 4, 7, 2, 5, 8, 3, 6, 9));
    assert_eq!(a.mul(i), a);
    assert_eq!(i.mul(a), a);
    let mut m = Matrix3x3::zero();
    m.set_entry(2, 1, 5);
    assert_eq!(m.entry(2, 1), 5);
    assert!(!m.is_zero());
}

#[test]
fn matrix4_determinant_by_cofactor_expansion() {
    let m = Matrix4x4::new(2, 0, 0, 0, 0, 3, 0, 0, 0, 0, 4, 0, 0, 0, 0, 5);
    assert_eq!(m.determinant(), 120);
}

#[test]
fn matrix4_singular_inverse_is_absent() {
    // Two equal rows.
    let m = Matrix4x4::new(1, 2, 3, 4, 1, 2, 3, 4, 5, 6, 7, 8, 9, 10, 11, 12);
    assert_eq!(m.determinant(), 0);
    assert_eq!(m.inverse(), None);
}

#[test]
fn matrix4_exact_inverse_round_trip() {
    // A shear with determinant one inverts exactly.
    let m = Matrix4x4::new(1, 0, 0, 5, 0, 1, 0, 0, 0, 0, 1, 0, 0, 0, 0, 1);
    assert_eq!(m.determinant(), 1);
    let inv = m.inverse().unwrap();
    assert_eq!(inv, Matrix4x4::new(1, 0, 0, -5, 0, 1, 0, 0, 0, 0, 1, 0, 0, 0, 0, 1));
    assert_eq!(inv.mul(m), Matrix4x4::identity());
    assert_eq!(m.mul(inv), Matrix4x4::identity());
    assert_eq!(inv.inverse(), Some(m));
}

#[test]
fn matrix4_identity_inverts_to_itself() {
    assert_eq!(Matrix4x4::identity().inverse(), Some(Matrix4x4::identity()));
}

#[test]
fn matrix4_minor_deletes_row_and_column() {
    let m = Matrix4x4::new(1, 2, 3, 4, 5, 6, 7, 8, 9, 10, 11, 12, 13, 14, 15, 16);
    assert_eq!(m.minor(0, 0), Matrix3x3::new(6, 7, 8, 10, 11, 12, 14, 15, 16));
    assert_eq!(m.minor(3, 3), Matrix3x3::new(1, 2, 3, 5, 6, 7, 9, 10, 11));
    assert_eq!(m.minor(1, 2), Matrix3x3::new(1, 2, 4, 9, 10, 12, 13, 14, 16));
}

#[test]
fn matrix4_arithmetic() {
    let a = Matrix4x4::new(1, 2, 3, 4, 5, 6, 7, 8, 9, 10, 11, 12, 13, 14, 15, 16);
    let i = Matrix4x4::identity();
    assert_eq!(a.add(Matrix4x4::zero()), a);
    assert_eq!(a.sub(a), Matrix4x4::zero());
    assert_eq!(
        a.mul_scalar(-1),
        Matrix4x4::new(-1, -2, -3, -4, -5, -6, -7, -8, -9, -10, -11, -12, -13, -14, -15, -16)
    );
    assert_eq!(
        a.div_scalar(3),
        Matrix4x4::new(0, 0, 1, 1, 1, 2, 2, 2, 3, 3, 3, 4, 4, 4, 5, 5)
    );
    assert_eq!(
        a.transpose(),
        Matrix4x4::new(1, 5, 9, 13, 2, 6, 10, 14, 3, 7, 11, 15, 4, 8, 12, 16)
    );
    assert_eq!(a.mul(i), a);
    assert_eq!(i.mul(a), a);
    let mut m = Matrix4x4::zero();
    m.set_entry(3, 0, 7);
    assert_eq!(m.entry(3, 0), 7);
    assert_eq!(m.entry(0, 3), 0);
    assert!(Matrix4x4::zero().is_zero());
    assert!(!m.is_zero());
}
