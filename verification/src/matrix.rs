//! Fixed-size square matrices (2x2, 3x3, 4x4) over 64-bit integer scalars:
//! dense row-major storage, matrix arithmetic, transpose, minor and cofactor
//! extraction, determinant by cofactor expansion along the first row, and
//! inverse with the checkerboard sign pattern and exact zero-determinant
//! test. Each size is a closed implementation of its own; 3x3 and 4x4
//! determinants are defined through minors of the next-smaller size.

use vstd::prelude::*;
use crate::scalar::{abs_int, trunc_div, i64_fits};

verus! {

/// The determinant of a 2x2 entry block.
pub open spec fn det2x2(a: int, b: int, c: int, d: int) -> int {
    a * d - b * c
}

/// The determinant of a 3x3 entry block, expanded along its first row.
pub open spec fn det3x3(
    a00: int,
    a01: int,
    a02: int,
    a10: int,
    a11: int,
    a12: int,
    a20: int,
    a21: int,
    a22: int,
) -> int {
    a00 * det2x2(a11, a12, a21, a22) - a01 * det2x2(a10, a12, a20, a22) + a02 * det2x2(
        a10,
        a11,
        a20,
        a21,
    )
}

/// The row or column index of the containing matrix that position `a` of a
/// minor maps to when row or column `k` is deleted.
pub open spec fn skip_idx(k: int, a: int) -> int {
    if a < k {
        a
    } else {
        a + 1
    }
}

/// Entry bound under which every intermediate of the 2x2 determinant,
/// inverse, and matrix product fits in an `i64`.
pub const MAT2_LIMIT: i64 = 0x4000_0000;

/// Entry bound under which every intermediate of the 3x3 determinant,
/// inverse, and matrix product fits in an `i64`.
pub const MAT3_LIMIT: i64 = 0x8_0000;

/// Entry bound under which every intermediate of the 4x4 determinant,
/// inverse, and matrix product fits in an `i64`.
pub const MAT4_LIMIT: i64 = 0x4000;

/// `|a * b| <= ka * kb` whenever `|a| <= ka` and `|b| <= kb`.
pub proof fn lemma_mul_bound(a: int, b: int, ka: int, kb: int)
    requires
        -ka <= a <= ka,
        -kb <= b <= kb,
    ensures
        -(ka * kb) <= a * b <= ka * kb,
{
    assert(-(ka * kb) <= a * b <= ka * kb) by (nonlinear_arith)
        requires
            -ka <= a <= ka,
            -kb <= b <= kb,
    ;
}

/// Division toward zero never increases magnitude by more than the dividend,
/// so a quotient of representable operands fits unless the dividend is the
/// least value and the divisor is minus one.
pub proof fn lemma_trunc_div_bound(a: int, b: int)
    requires
        b != 0,
    ensures
        abs_int(trunc_div(a, b)) <= abs_int(a),
{
    let q = abs_int(a) / abs_int(b);
    assert(0 <= q <= abs_int(a)) by (nonlinear_arith)
        requires
            q == abs_int(a) / abs_int(b),
            abs_int(a) >= 0,
            abs_int(b) >= 1,
    ;
}

/// Division toward zero by one and by minus one.
pub proof fn lemma_trunc_div_unit(a: int)
    ensures
        trunc_div(a, 1) == a,
        trunc_div(a, -1) == -a,
{
    assert(abs_int(a) / 1 == abs_int(a));
}

/// A dense row-major 2x2 matrix of integer scalars.
#[derive(Clone, Copy, Debug, PartialEq, Eq, Structural)]
pub struct Matrix2x2 {
    pub m00: i64,
    pub m01: i64,
    pub m10: i64,
    pub m11: i64,
}

impl Matrix2x2 {
    /// The entry in row `i`, column `j`, as a mathematical integer.
    pub open spec fn at(self, i: int, j: int) -> int {
        if i == 0 {
            if j == 0 {
                self.m00 as int
            } else {
                self.m01 as int
            }
        } else {
            if j == 0 {
                self.m10 as int
            } else {
                self.m11 as int
            }
        }
    }

    /// All entries bounded by `b` in magnitude.
    pub open spec fn bounded(self, b: int) -> bool {
        &&& abs_int(self.at(0, 0)) <= b
        &&& abs_int(self.at(0, 1)) <= b
        &&& abs_int(self.at(1, 0)) <= b
        &&& abs_int(self.at(1, 1)) <= b
    }

    /// The determinant `ad - bc`.
    pub open spec fn det(self) -> int {
        det2x2(self.at(0, 0), self.at(0, 1), self.at(1, 0), self.at(1, 1))
    }

    /// The minor at `(i, j)`: the single entry left after deleting row `i`
    /// and column `j`.
    pub open spec fn minor_spec(self, i: int, j: int) -> int {
        self.at(1 - i, 1 - j)
    }

    /// The cofactor at `(i, j)`: the minor with the checkerboard sign.
    pub open spec fn cofactor(self, i: int, j: int) -> int {
        if (i + j) % 2 == 0 {
            self.minor_spec(i, j)
        } else {
            -self.minor_spec(i, j)
        }
    }

    /// The entry `(i, j)` of the inverse: the transposed cofactor divided by
    /// the determinant.
    pub open spec fn inv_at(self, i: int, j: int) -> int {
        trunc_div(self.cofactor(j, i), self.det())
    }

    pub fn new(t00: i64, t01: i64, t10: i64, t11: i64) -> (r: Matrix2x2)
        ensures
            r.at(0, 0) == t00 as int,
            r.at(0, 1) == t01 as int,
            r.at(1, 0) == t10 as int,
            r.at(1, 1) == t11 as int,
    {
        Matrix2x2 { m00: t00, m01: t01, m10: t10, m11: t11 }
    }

    /// The matrix with every entry zero.
    pub fn zero() -> (r: Matrix2x2)
        ensures
            r.at(0, 0) == 0,
            r.at(0, 1) == 0,
            r.at(1, 0) == 0,
            r.at(1, 1) == 0,
    {
        Matrix2x2::new(0, 0, 0, 0)
    }

    pub fn is_zero(&self) -> (r: bool)
        ensures
            r == (self.at(0, 0) == 0 && self.at(0, 1) == 0 && self.at(1, 0) == 0 && self.at(1, 1)
                == 0),
    {
        self.m00 == 0 && self.m01 == 0 && self.m10 == 0 && self.m11 == 0
    }

    /// The multiplicative identity.
    pub fn identity() -> (r: Matrix2x2)
        ensures
            r.at(0, 0) == 1,
            r.at(0, 1) == 0,
            r.at(1, 0) == 0,
            r.at(1, 1) == 1,
    {
        Matrix2x2::new(1, 0, 0, 1)
    }

    /// The entry in row `i`, column `j`; out-of-range positions are a caller
    /// defect and excluded by precondition.
    pub fn entry(&self, i: usize, j: usize) -> (r: i64)
        requires
            i < 2,
            j < 2,
        ensures
            r as int == self.at(i as int, j as int),
    {
        if i == 0 {
            if j == 0 {
                self.m00
            } else {
                self.m01
            }
        } else {
            if j == 0 {
                self.m10
            } else {
                self.m11
            }
        }
    }

    /// Replaces the entry in row `i`, column `j`.
    pub fn set_entry(&mut self, i: usize, j: usize, v: i64)
        requires
            i < 2,
            j < 2,
        ensures
            final(self).at(i as int, j as int) == v as int,
            forall|a: int, b: int|
                0 <= a < 2 && 0 <= b < 2 && !(a == i as int && b == j as int) ==> final(self).at(
                    a,
                    b,
                ) == old(self).at(a, b),
    {
        if i == 0 {
            if j == 0 {
                self.m00 = v;
            } else {
                self.m01 = v;
            }
        } else {
            if j == 0 {
                self.m10 = v;
            } else {
                self.m11 = v;
            }
        }
    }

    /// The minor at `(i, j)`; out-of-range positions are a caller defect and
    /// excluded by precondition.
    pub fn minor(&self, i: usize, j: usize) -> (r: i64)
        requires
            i < 2,
            j < 2,
        ensures
            r as int == self.minor_spec(i as int, j as int),
    {
        self.entry((i + 1) % 2, (j + 1) % 2)
    }

    pub fn transpose(&self) -> (r: Matrix2x2)
        ensures
            r.at(0, 0) == self.at(0, 0),
            r.at(0, 1) == self.at(1, 0),
            r.at(1, 0) == self.at(0, 1),
            r.at(1, 1) == self.at(1, 1),
    {
        Matrix2x2::new(self.m00, self.m10, self.m01, self.m11)
    }

    pub fn add(self, m: Matrix2x2) -> (r: Matrix2x2)
        requires
            i64_fits(self.at(0, 0) + m.at(0, 0)),
            i64_fits(self.at(0, 1) + m.at(0, 1)),
            i64_fits(self.at(1, 0) + m.at(1, 0)),
            i64_fits(self.at(1, 1) + m.at(1, 1)),
        ensures
            r.at(0, 0) == self.at(0, 0) + m.at(0, 0),
            r.at(0, 1) == self.at(0, 1) + m.at(0, 1),
            r.at(1, 0) == self.at(1, 0) + m.at(1, 0),
            r.at(1, 1) == self.at(1, 1) + m.at(1, 1),
    {
        Matrix2x2::new(self.m00 + m.m00, self.m01 + m.m01, self.m10 + m.m10, self.m11 + m.m11)
    }

    pub fn sub(self, m: Matrix2x2) -> (r: Matrix2x2)
        requires
            i64_fits(self.at(0, 0) - m.at(0, 0)),
            i64_fits(self.at(0, 1) - m.at(0, 1)),
            i64_fits(self.at(1, 0) - m.at(1, 0)),
            i64_fits(self.at(1, 1) - m.at(1, 1)),
        ensures
            r.at(0, 0) == self.at(0, 0) - m.at(0, 0),
            r.at(0, 1) == self.at(0, 1) - m.at(0, 1),
            r.at(1, 0) == self.at(1, 0) - m.at(1, 0),
            r.at(1, 1) == self.at(1, 1) - m.at(1, 1),
    {
        Matrix2x2::new(self.m00 - m.m00, self.m01 - m.m01, self.m10 - m.m10, self.m11 - m.m11)
    }

    pub fn mul_scalar(self, t: i64) -> (r: Matrix2x2)
        requires
            i64_fits(self.at(0, 0) * t),
            i64_fits(self.at(0, 1) * t),
            i64_fits(self.at(1, 0) * t),
            i64_fits(self.at(1, 1) * t),
        ensures
            r.at(0, 0) == self.at(0, 0) * t,
            r.at(0, 1) == self.at(0, 1) * t,
            r.at(1, 0) == self.at(1, 0) * t,
            r.at(1, 1) == self.at(1, 1) * t,
    {
        Matrix2x2::new(self.m00 * t, self.m01 * t, self.m10 * t, self.m11 * t)
    }

    pub fn div_scalar(self, t: i64) -> (r: Matrix2x2)
        requires
            t != 0,
            i64_fits(trunc_div(self.at(0, 0), t as int)),
            i64_fits(trunc_div(self.at(0, 1), t as int)),
            i64_fits(trunc_div(self.at(1, 0), t as int)),
            i64_fits(trunc_div(self.at(1, 1), t as int)),
        ensures
            r.at(0, 0) == trunc_div(self.at(0, 0), t as int),
            r.at(0, 1) == trunc_div(self.at(0, 1), t as int),
            r.at(1, 0) == trunc_div(self.at(1, 0), t as int),
            r.at(1, 1) == trunc_div(self.at(1, 1), t as int),
    {
        Matrix2x2::new(
            div_exact(self.m00, t),
            div_exact(self.m01, t),
            div_exact(self.m10, t),
            div_exact(self.m11, t),
        )
    }

    /// The matrix product `self * m` by the standard row-column sums.
    pub fn mul(self, m: Matrix2x2) -> (r: Matrix2x2)
        requires
            self.bounded(MAT2_LIMIT as int),
            m.bounded(MAT2_LIMIT as int),
        ensures
            r.at(0, 0) == self.at(0, 0) * m.at(0, 0) + self.at(0, 1) * m.at(1, 0),
            r.at(0, 1) == self.at(0, 0) * m.at(0, 1) + self.at(0, 1) * m.at(1, 1),
            r.at(1, 0) == self.at(1, 0) * m.at(0, 0) + self.at(1, 1) * m.at(1, 0),
            r.at(1, 1) == self.at(1, 0) * m.at(0, 1) + self.at(1, 1) * m.at(1, 1),
    {
        proof {
            lemma_mat2_products(self, m);
        }
        Matrix2x2::new(
            self.m00 * m.m00 + self.m01 * m.m10,
            self.m00 * m.m01 + self.m01 * m.m11,
            self.m10 * m.m00 + self.m11 * m.m10,
            self.m10 * m.m01 + self.m11 * m.m11,
        )
    }

    /// The determinant, by the direct `ad - bc` formula.
    pub fn determinant(&self) -> (r: i64)
        requires
            self.bounded(MAT2_LIMIT as int),
        ensures
            r as int == self.det(),
    {
        proof {
            lemma_mat2_products(*self, *self);
        }
        self.m00 * self.m11 - self.m01 * self.m10
    }

    /// The inverse, absent exactly when the determinant is zero; each entry
    /// of the result is the transposed cofactor divided by the determinant.
    pub fn inverse(&self) -> (r: Option<Matrix2x2>)
        requires
            self.bounded(MAT2_LIMIT as int),
        ensures
            self.det() == 0 <==> r is None,
            r matches Some(inv) ==> {
                &&& inv.at(0, 0) == self.inv_at(0, 0)
                &&& inv.at(0, 1) == self.inv_at(0, 1)
                &&& inv.at(1, 0) == self.inv_at(1, 0)
                &&& inv.at(1, 1) == self.inv_at(1, 1)
            },
    {
        let det = self.determinant();
        if det == 0 {
            None
        } else {
            proof {
                lemma_trunc_div_bound(self.cofactor(0, 0), self.det());
                lemma_trunc_div_bound(self.cofactor(0, 1), self.det());
                lemma_trunc_div_bound(self.cofactor(1, 0), self.det());
                lemma_trunc_div_bound(self.cofactor(1, 1), self.det());
            }
            Some(
                Matrix2x2::new(
                    div_exact(self.m11, det),
                    div_exact(-self.m01, det),
                    div_exact(-self.m10, det),
                    div_exact(self.m00, det),
                ),
            )
        }
    }
}

/// Every product of two entries bounded by the 2x2 limit, and every sum or
/// difference of two such products, fits in an `i64`.
proof fn lemma_mat2_products(a: Matrix2x2, b: Matrix2x2)
    requires
        a.bounded(MAT2_LIMIT as int),
        b.bounded(MAT2_LIMIT as int),
    ensures
        forall|i: int, j: int, k: int, l: int|
            0 <= i < 2 && 0 <= j < 2 && 0 <= k < 2 && 0 <= l < 2 ==> -(0x4000_0000
                * 0x4000_0000) <= #[trigger] (a.at(i, j) * b.at(k, l)) <= 0x4000_0000
                * 0x4000_0000,
{
    assert forall|i: int, j: int, k: int, l: int|
        0 <= i < 2 && 0 <= j < 2 && 0 <= k < 2 && 0 <= l < 2 implies -(0x4000_0000
        * 0x4000_0000) <= #[trigger] (a.at(i, j) * b.at(k, l)) <= 0x4000_0000 * 0x4000_0000 by {
        lemma_mul_bound(a.at(i, j), b.at(k, l), 0x4000_0000, 0x4000_0000);
    }
}

/// The determinant of a 2x2 block of entries bounded by `k` is bounded by
/// `2 * k * k`.
pub proof fn lemma_det2x2_bound(a: int, b: int, c: int, d: int, k: int)
    requires
        abs_int(a) <= k,
        abs_int(b) <= k,
        abs_int(c) <= k,
        abs_int(d) <= k,
    ensures
        abs_int(det2x2(a, b, c, d)) <= 2 * (k * k),
{
    lemma_mul_bound(a, d, k, k);
    lemma_mul_bound(b, c, k, k);
}

/// The determinant of a 3x3 block of entries bounded by `k` is bounded by
/// `6 * k * k * k`.
pub proof fn lemma_det3x3_bound(
    a00: int,
    a01: int,
    a02: int,
    a10: int,
    a11: int,
    a12: int,
    a20: int,
    a21: int,
    a22: int,
    k: int,
)
    requires
        abs_int(a00) <= k,
        abs_int(a01) <= k,
        abs_int(a02) <= k,
        abs_int(a10) <= k,
        abs_int(a11) <= k,
        abs_int(a12) <= k,
        abs_int(a20) <= k,
        abs_int(a21) <= k,
        abs_int(a22) <= k,
    ensures
        abs_int(det3x3(a00, a01, a02, a10, a11, a12, a20, a21, a22)) <= 6 * ((k * k) * k),
{
    lemma_det2x2_bound(a11, a12, a21, a22, k);
    lemma_det2x2_bound(a10, a12, a20, a22, k);
    lemma_det2x2_bound(a10, a11, a20, a21, k);
    lemma_mul_bound(a00, det2x2(a11, a12, a21, a22), k, 2 * (k * k));
    lemma_mul_bound(a01, det2x2(a10, a12, a20, a22), k, 2 * (k * k));
    lemma_mul_bound(a02, det2x2(a10, a11, a20, a21), k, 2 * (k * k));
    assert(k * (2 * (k * k)) == 2 * ((k * k) * k)) by (nonlinear_arith);
}

/// A dense row-major 3x3 matrix of integer scalars.
#[derive(Clone, Copy, Debug, PartialEq, Eq, Structural)]
pub struct Matrix3x3 {
    pub m00: i64,
    pub m01: i64,
    pub m02: i64,
    pub m10: i64,
    pub m11: i64,
    pub m12: i64,
    pub m20: i64,
    pub m21: i64,
    pub m22: i64,
}

impl Matrix3x3 {
    /// The entry in row `i`, column `j`, as a mathematical integer.
    pub open spec fn at(self, i: int, j: int) -> int {
        if i == 0 {
            if j == 0 {
                self.m00 as int
            } else if j == 1 {
                self.m01 as int
            } else {
                self.m02 as int
            }
        } else if i == 1 {
            if j == 0 {
                self.m10 as int
            } else if j == 1 {
                self.m11 as int
            } else {
                self.m12 as int
            }
        } else {
            if j == 0 {
                self.m20 as int
            } else if j == 1 {
                self.m21 as int
            } else {
                self.m22 as int
            }
        }
    }

    /// All entries bounded by `b` in magnitude.
    pub open spec fn bounded(self, b: int) -> bool {
        &&& abs_int(self.at(0, 0)) <= b
        &&& abs_int(self.at(0, 1)) <= b
        &&& abs_int(self.at(0, 2)) <= b
        &&& abs_int(self.at(1, 0)) <= b
        &&& abs_int(self.at(1, 1)) <= b
        &&& abs_int(self.at(1, 2)) <= b
        &&& abs_int(self.at(2, 0)) <= b
        &&& abs_int(self.at(2, 1)) <= b
        &&& abs_int(self.at(2, 2)) <= b
    }

    /// The determinant of the minor at `(i, j)`.
    pub open spec fn minor_det(self, i: int, j: int) -> int {
        det2x2(
            self.at(skip_idx(i, 0), skip_idx(j, 0)),
            self.at(skip_idx(i, 0), skip_idx(j, 1)),
            self.at(skip_idx(i, 1), skip_idx(j, 0)),
            self.at(skip_idx(i, 1), skip_idx(j, 1)),
        )
    }

    /// The determinant, by cofactor expansion along the first row.
    pub open spec fn det(self) -> int {
        det3x3(
            self.at(0, 0),
            self.at(0, 1),
            self.at(0, 2),
            self.at(1, 0),
            self.at(1, 1),
            self.at(1, 2),
            self.at(2, 0),
            self.at(2, 1),
            self.at(2, 2),
        )
    }

    /// The cofactor at `(i, j)`: the minor determinant with the checkerboard
    /// sign.
    pub open spec fn cofactor(self, i: int, j: int) -> int {
        if (i + j) % 2 == 0 {
            self.minor_det(i, j)
        } else {
            -self.minor_det(i, j)
        }
    }

    /// The entry `(i, j)` of the inverse: the transposed cofactor divided by
    /// the determinant.
    pub open spec fn inv_at(self, i: int, j: int) -> int {
        trunc_div(self.cofactor(j, i), self.det())
    }

    pub fn new(
        t00: i64,
        t01: i64,
        t02: i64,
        t10: i64,
        t11: i64,
        t12: i64,
        t20: i64,
        t21: i64,
        t22: i64,
    ) -> (r: Matrix3x3)
        ensures
            r.at(0, 0) == t00 as int,
            r.at(0, 1) == t01 as int,
            r.at(0, 2) == t02 as int,
            r.at(1, 0) == t10 as int,
            r.at(1, 1) == t11 as int,
            r.at(1, 2) == t12 as int,
            r.at(2, 0) == t20 as int,
            r.at(2, 1) == t21 as int,
            r.at(2, 2) == t22 as int,
    {
        Matrix3x3 {
            m00: t00,
            m01: t01,
            m02: t02,
            m10: t10,
            m11: t11,
            m12: t12,
            m20: t20,
            m21: t21,
            m22: t22,
        }
    }

    /// The matrix with every entry zero.
    pub fn zero() -> (r: Matrix3x3)
        ensures
            forall|i: int, j: int| 0 <= i < 3 && 0 <= j < 3 ==> r.at(i, j) == 0,
    {
        Matrix3x3::new(0, 0, 0, 0, 0, 0, 0, 0, 0)
    }

    pub fn is_zero(&self) -> (r: bool)
        ensures
            r == (self.at(0, 0) == 0 && self.at(0, 1) == 0 && self.at(0, 2) == 0 && self.at(1, 0)
                == 0 && self.at(1, 1) == 0 && self.at(1, 2) == 0 && self.at(2, 0) == 0 && self.at(
                2,
                1,
            ) == 0 && self.at(2, 2) == 0),
    {
        self.m00 == 0 && self.m01 == 0 && self.m02 == 0 && self.m10 == 0 && self.m11 == 0
            && self.m12 == 0 && self.m20 == 0 && self.m21 == 0 && self.m22 == 0
    }


    /// The multiplicative identity.
    pub fn identity() -> (r: Matrix3x3)
        ensures
            forall|i: int, j: int|
                0 <= i < 3 && 0 <= j < 3 ==> r.at(i, j) == (if i == j {
                    1int
                } else {
                    0int
                }),
    {
        Matrix3x3::new(1, 0, 0, 0, 1, 0, 0, 0, 1)
    }

    /// The entry in row `i`, column `j`; out-of-range positions are a caller
    /// defect and excluded by precondition.
    pub fn entry(&self, i: usize, j: usize) -> (r: i64)
        requires
            i < 3,
            j < 3,
        ensures
            r as int == self.at(i as int, j as int),
    {
        if i == 0 {
            if j == 0 {
                self.m00
            } else if j == 1 {
                self.m01
            } else {
                self.m02
            }
        } else if i == 1 {
            if j == 0 {
                self.m10
            } else if j == 1 {
                self.m11
            } else {
                self.m12
            }
        } else {
            if j == 0 {
                self.m20
            } else if j == 1 {
                self.m21
            } else {
                self.m22
            }
        }
    }

    /// Replaces the entry in row `i`, column `j`.
    pub fn set_entry(&mut self, i: usize, j: usize, v: i64)
        requires
            i < 3,
            j < 3,
        ensures
            final(self).at(i as int, j as int) == v as int,
            forall|a: int, b: int|
                0 <= a < 3 && 0 <= b < 3 && !(a == i as int && b == j as int) ==> final(self).at(
                    a,
                    b,
                ) == old(self).at(a, b),
    {
        if i == 0 {
            if j == 0 {
                self.m00 = v;
            } else if j == 1 {
                self.m01 = v;
            } else {
                self.m02 = v;
            }
        } else if i == 1 {
            if j == 0 {
                self.m10 = v;
            } else if j == 1 {
                self.m11 = v;
            } else {
                self.m12 = v;
            }
        } else {
            if j == 0 {
                self.m20 = v;
            } else if j == 1 {
                self.m21 = v;
            } else {
                self.m22 = v;
            }
        }
    }

    /// The 2x2 minor obtained by deleting row `i` and column `j`;
    /// out-of-range positions are a caller defect and excluded by
    /// precondition.
    pub fn minor(&self, i: usize, j: usize) -> (r: Matrix2x2)
        requires
            i < 3,
            j < 3,
        ensures
            r.at(0, 0) == self.at(skip_idx(i as int, 0), skip_idx(j as int, 0)),
            r.at(0, 1) == self.at(skip_idx(i as int, 0), skip_idx(j as int, 1)),
            r.at(1, 0) == self.at(skip_idx(i as int, 1), skip_idx(j as int, 0)),
            r.at(1, 1) == self.at(skip_idx(i as int, 1), skip_idx(j as int, 1)),
            r.det() == self.minor_det(i as int, j as int),
    {
        let fst_row: usize = if i == 0 {
            1
        } else {
            0
        };
        let snd_row: usize = if i == 1 {
            2
        } else {
            fst_row + 1
        };
        let fst_col: usize = if j == 0 {
            1
        } else {
            0
        };
        let snd_col: usize = if j == 1 {
            2
        } else {
            fst_col + 1
        };
        Matrix2x2::new(
            self.entry(fst_row, fst_col),
            self.entry(fst_row, snd_col),
            self.entry(snd_row, fst_col),
            self.entry(snd_row, snd_col),
        )
    }

    pub fn transpose(&self) -> (r: Matrix3x3)
        ensures
            forall|i: int, j: int| 0 <= i < 3 && 0 <= j < 3 ==> r.at(i, j) == self.at(j, i),
    {
        Matrix3x3::new(
            self.m00,
            self.m10,
            self.m20,
            self.m01,
            self.m11,
            self.m21,
            self.m02,
            self.m12,
            self.m22,
        )
    }

    pub fn add(self, m: Matrix3x3) -> (r: Matrix3x3)
        requires
            i64_fits(self.at(0, 0) + m.at(0, 0)),
            i64_fits(self.at(0, 1) + m.at(0, 1)),
            i64_fits(self.at(0, 2) + m.at(0, 2)),
            i64_fits(self.at(1, 0) + m.at(1, 0)),
            i64_fits(self.at(1, 1) + m.at(1, 1)),
            i64_fits(self.at(1, 2) + m.at(1, 2)),
            i64_fits(self.at(2, 0) + m.at(2, 0)),
            i64_fits(self.at(2, 1) + m.at(2, 1)),
            i64_fits(self.at(2, 2) + m.at(2, 2)),
        ensures
            forall|i: int, j: int|
                0 <= i < 3 && 0 <= j < 3 ==> r.at(i, j) == self.at(i, j) + m.at(i, j),
    {
        Matrix3x3::new(
            self.m00 + m.m00,
            self.m01 + m.m01,
            self.m02 + m.m02,
            self.m10 + m.m10,
            self.m11 + m.m11,
            self.m12 + m.m12,
            self.m20 + m.m20,
            self.m21 + m.m21,
            self.m22 + m.m22,
        )
    }

    pub fn sub(self, m: Matrix3x3) -> (r: Matrix3x3)
        requires
            i64_fits(self.at(0, 0) - m.at(0, 0)),
            i64_fits(self.at(0, 1) - m.at(0, 1)),
            i64_fits(self.at(0, 2) - m.at(0, 2)),
            i64_fits(self.at(1, 0) - m.at(1, 0)),
            i64_fits(self.at(1, 1) - m.at(1, 1)),
            i64_fits(self.at(1, 2) - m.at(1, 2)),
            i64_fits(self.at(2, 0) - m.at(2, 0)),
            i64_fits(self.at(2, 1) - m.at(2, 1)),
            i64_fits(self.at(2, 2) - m.at(2, 2)),
        ensures
            forall|i: int, j: int|
                0 <= i < 3 && 0 <= j < 3 ==> r.at(i, j) == self.at(i, j) - m.at(i, j),
    {
        Matrix3x3::new(
            self.m00 - m.m00,
            self.m01 - m.m01,
            self.m02 - m.m02,
            self.m10 - m.m10,
            self.m11 - m.m11,
            self.m12 - m.m12,
            self.m20 - m.m20,
            self.m21 - m.m21,
            self.m22 - m.m22,
        )
    }

    pub fn mul_scalar(self, t: i64) -> (r: Matrix3x3)
        requires
            i64_fits(self.at(0, 0) * t),
            i64_fits(self.at(0, 1) * t),
            i64_fits(self.at(0, 2) * t),
            i64_fits(self.at(1, 0) * t),
            i64_fits(self.at(1, 1) * t),
            i64_fits(self.at(1, 2) * t),
            i64_fits(self.at(2, 0) * t),
            i64_fits(self.at(2, 1) * t),
            i64_fits(self.at(2, 2) * t),
        ensures
            forall|i: int, j: int| 0 <= i < 3 && 0 <= j < 3 ==> r.at(i, j) == self.at(i, j) * t,
    {
        Matrix3x3::new(
            self.m00 * t,
            self.m01 * t,
            self.m02 * t,
            self.m10 * t,
            self.m11 * t,
            self.m12 * t,
            self.m20 * t,
            self.m21 * t,
            self.m22 * t,
        )
    }

    pub fn div_scalar(self, t: i64) -> (r: Matrix3x3)
        requires
            t != 0,
            i64_fits(trunc_div(self.at(0, 0), t as int)),
            i64_fits(trunc_div(self.at(0, 1), t as int)),
            i64_fits(trunc_div(self.at(0, 2), t as int)),
            i64_fits(trunc_div(self.at(1, 0), t as int)),
            i64_fits(trunc_div(self.at(1, 1), t as int)),
            i64_fits(trunc_div(self.at(1, 2), t as int)),
            i64_fits(trunc_div(self.at(2, 0), t as int)),
            i64_fits(trunc_div(self.at(2, 1), t as int)),
            i64_fits(trunc_div(self.at(2, 2), t as int)),
        ensures
            forall|i: int, j: int|
                0 <= i < 3 && 0 <= j < 3 ==> r.at(i, j) == trunc_div(self.at(i, j), t as int),
    {
        Matrix3x3::new(
            div_exact(self.m00, t),
            div_exact(self.m01, t),
            div_exact(self.m02, t),
            div_exact(self.m10, t),
            div_exact(self.m11, t),
            div_exact(self.m12, t),
            div_exact(self.m20, t),
            div_exact(self.m21, t),
            div_exact(self.m22, t),
        )
    }

    /// The matrix product `self * m` by the standard row-column sums.
    pub fn mul(self, m: Matrix3x3) -> (r: Matrix3x3)
        requires
            self.bounded(MAT3_LIMIT as int),
            m.bounded(MAT3_LIMIT as int),
        ensures
            forall|i: int, j: int|
                0 <= i < 3 && 0 <= j < 3 ==> r.at(i, j) == self.at(i, 0) * m.at(0, j) + self.at(
                    i,
                    1,
                ) * m.at(1, j) + self.at(i, 2) * m.at(2, j),
    {
        proof {
            lemma_mat3_products(self, m);
        }
        Matrix3x3::new(
            self.m00 * m.m00 + self.m01 * m.m10 + self.m02 * m.m20,
            self.m00 * m.m01 + self.m01 * m.m11 + self.m02 * m.m21,
            self.m00 * m.m02 + self.m01 * m.m12 + self.m02 * m.m22,
            self.m10 * m.m00 + self.m11 * m.m10 + self.m12 * m.m20,
            self.m10 * m.m01 + self.m11 * m.m11 + self.m12 * m.m21,
            self.m10 * m.m02 + self.m11 * m.m12 + self.m12 * m.m22,
            self.m20 * m.m00 + self.m21 * m.m10 + self.m22 * m.m20,
            self.m20 * m.m01 + self.m21 * m.m11 + self.m22 * m.m21,
            self.m20 * m.m02 + self.m21 * m.m12 + self.m22 * m.m22,
        )
    }

    /// The determinant, by cofactor expansion along the first row.
    pub fn determinant(&self) -> (r: i64)
        requires
            self.bounded(MAT3_LIMIT as int),
        ensures
            r as int == self.det(),
    {
        let d0 = self.minor(0, 0).determinant();
        let d1 = self.minor(0, 1).determinant();
        let d2 = self.minor(0, 2).determinant();
        proof {
            self.lemma_minor_det_bounds(MAT3_LIMIT as int);
            let k = MAT3_LIMIT as int;
            lemma_mul_bound(self.at(0, 0), d0 as int, k, 2 * (k * k));
            lemma_mul_bound(self.at(0, 1), d1 as int, k, 2 * (k * k));
            lemma_mul_bound(self.at(0, 2), d2 as int, k, 2 * (k * k));
        }
        self.m00 * d0 - self.m01 * d1 + self.m02 * d2
    }

    /// Every minor determinant of a matrix bounded by `k` is bounded by
    /// `2 * k * k`.
    proof fn lemma_minor_det_bounds(self, k: int)
        requires
            self.bounded(k),
        ensures
            forall|i: int, j: int|
                0 <= i < 3 && 0 <= j < 3 ==> abs_int(#[trigger] self.minor_det(i, j)) <= 2 * (k
                    * k),
    {
        assert forall|i: int, j: int|
            0 <= i < 3 && 0 <= j < 3 implies abs_int(#[trigger] self.minor_det(i, j)) <= 2 * (k
            * k) by {
            lemma_det2x2_bound(
                self.at(skip_idx(i, 0), skip_idx(j, 0)),
                self.at(skip_idx(i, 0), skip_idx(j, 1)),
                self.at(skip_idx(i, 1), skip_idx(j, 0)),
                self.at(skip_idx(i, 1), skip_idx(j, 1)),
                k,
            );
        }
    }

    /// The inverse, absent exactly when the determinant is zero; each entry
    /// `(i, j)` of the result is the cofactor at `(j, i)` divided by the
    /// determinant, with the checkerboard sign applied per cofactor.
    pub fn inverse(&self) -> (r: Option<Matrix3x3>)
        requires
            self.bounded(MAT3_LIMIT as int),
        ensures
            self.det() == 0 <==> r is None,
            r matches Some(inv) ==> forall|i: int, j: int|
                0 <= i < 3 && 0 <= j < 3 ==> inv.at(i, j) == self.inv_at(i, j),
    {
        let det = self.determinant();
        if det == 0 {
            None
        } else {
            let c00 = self.minor(0, 0).determinant();
            let c01 = self.minor(0, 1).determinant();
            let c02 = self.minor(0, 2).determinant();
            let c10 = self.minor(1, 0).determinant();
            let c11 = self.minor(1, 1).determinant();
            let c12 = self.minor(1, 2).determinant();
            let c20 = self.minor(2, 0).determinant();
            let c21 = self.minor(2, 1).determinant();
            let c22 = self.minor(2, 2).determinant();
            proof {
                self.lemma_minor_det_bounds(MAT3_LIMIT as int);
                assert forall|i: int, j: int| 0 <= i < 3 && 0 <= j < 3 implies i64_fits(
                    trunc_div(#[trigger] self.cofactor(i, j), self.det()),
                ) by {
                    lemma_trunc_div_bound(self.cofactor(i, j), self.det());
                }
            }
            Some(
                Matrix3x3::new(
                    div_exact(c00, det),
                    div_exact(-c10, det),
                    div_exact(c20, det),
                    div_exact(-c01, det),
                    div_exact(c11, det),
                    div_exact(-c21, det),
                    div_exact(c02, det),
                    div_exact(-c12, det),
                    div_exact(c22, det),
                ),
            )
        }
    }
}

/// Every product of two entries bounded by the 3x3 limit fits in an `i64`,
/// with room for row-column sums of three such products.
proof fn lemma_mat3_products(a: Matrix3x3, b: Matrix3x3)
    requires
        a.bounded(MAT3_LIMIT as int),
        b.bounded(MAT3_LIMIT as int),
    ensures
        forall|i: int, j: int, k: int, l: int|
            0 <= i < 3 && 0 <= j < 3 && 0 <= k < 3 && 0 <= l < 3 ==> -(0x8_0000
                * 0x8_0000) <= #[trigger] (a.at(i, j) * b.at(k, l)) <= 0x8_0000 * 0x8_0000,
{
    assert forall|i: int, j: int, k: int, l: int|
        0 <= i < 3 && 0 <= j < 3 && 0 <= k < 3 && 0 <= l < 3 implies -(0x8_0000
        * 0x8_0000) <= #[trigger] (a.at(i, j) * b.at(k, l)) <= 0x8_0000 * 0x8_0000 by {
        lemma_mul_bound(a.at(i, j), b.at(k, l), 0x8_0000, 0x8_0000);
    }
}

/// A dense row-major 4x4 matrix of integer scalars.
#[derive(Clone, Copy, Debug, PartialEq, Eq, Structural)]
pub struct Matrix4x4 {
    pub m00: i64,
    pub m01: i64,
    pub m02: i64,
    pub m03: i64,
    pub m10: i64,
    pub m11: i64,
    pub m12: i64,
    pub m13: i64,
    pub m20: i64,
    pub m21: i64,
    pub m22: i64,
    pub m23: i64,
    pub m30: i64,
    pub m31: i64,
    pub m32: i64,
    pub m33: i64,
}

impl Matrix4x4 {
    /// The entry in row `i`, column `j`, as a mathematical integer.
    pub open spec fn at(self, i: int, j: int) -> int {
        if i == 0 {
            if j == 0 {
                self.m00 as int
            } else if j == 1 {
                self.m01 as int
            } else if j == 2 {
                self.m02 as int
            } else {
                self.m03 as int
            }
        } else if i == 1 {
            if j == 0 {
                self.m10 as int
            } else if j == 1 {
                self.m11 as int
            } else if j == 2 {
                self.m12 as int
            } else {
                self.m13 as int
            }
        } else if i == 2 {
            if j == 0 {
                self.m20 as int
            } else if j == 1 {
                self.m21 as int
            } else if j == 2 {
                self.m22 as int
            } else {
                self.m23 as int
            }
        } else {
            if j == 0 {
                self.m30 as int
            } else if j == 1 {
                self.m31 as int
            } else if j == 2 {
                self.m32 as int
            } else {
                self.m33 as int
            }
        }
    }

    /// All entries bounded by `b` in magnitude.
    pub open spec fn bounded(self, b: int) -> bool {
        &&& abs_int(self.at(0, 0)) <= b
        &&& abs_int(self.at(0, 1)) <= b
        &&& abs_int(self.at(0, 2)) <= b
        &&& abs_int(self.at(0, 3)) <= b
        &&& abs_int(self.at(1, 0)) <= b
        &&& abs_int(self.at(1, 1)) <= b
        &&& abs_int(self.at(1, 2)) <= b
        &&& abs_int(self.at(1, 3)) <= b
        &&& abs_int(self.at(2, 0)) <= b
        &&& abs_int(self.at(2, 1)) <= b
        &&& abs_int(self.at(2, 2)) <= b
        &&& abs_int(self.at(2, 3)) <= b
        &&& abs_int(self.at(3, 0)) <= b
        &&& abs_int(self.at(3, 1)) <= b
        &&& abs_int(self.at(3, 2)) <= b
        &&& abs_int(self.at(3, 3)) <= b
    }

    /// The determinant of the minor at `(i, j)`.
    pub open spec fn minor_det(self, i: int, j: int) -> int {
        det3x3(
            self.at(skip_idx(i, 0), skip_idx(j, 0)),
            self.at(skip_idx(i, 0), skip_idx(j, 1)),
            self.at(skip_idx(i, 0), skip_idx(j, 2)),
            self.at(skip_idx(i, 1), skip_idx(j, 0)),
            self.at(skip_idx(i, 1), skip_idx(j, 1)),
            self.at(skip_idx(i, 1), skip_idx(j, 2)),
            self.at(skip_idx(i, 2), skip_idx(j, 0)),
            self.at(skip_idx(i, 2), skip_idx(j, 1)),
            self.at(skip_idx(i, 2), skip_idx(j, 2)),
        )
    }

    /// The determinant, by cofactor expansion along the first row.
    pub open spec fn det(self) -> int {
        self.at(0, 0) * self.minor_det(0, 0) - self.at(0, 1) * self.minor_det(0, 1) + self.at(0, 2)
            * self.minor_det(0, 2) - self.at(0, 3) * self.minor_det(0, 3)
    }

    /// The cofactor at `(i, j)`: the minor determinant with the checkerboard
    /// sign.
    pub open spec fn cofactor(self, i: int, j: int) -> int {
        if (i + j) % 2 == 0 {
            self.minor_det(i, j)
        } else {
            -self.minor_det(i, j)
        }
    }

    /// The entry `(i, j)` of the inverse: the transposed cofactor divided by
    /// the determinant.
    pub open spec fn inv_at(self, i: int, j: int) -> int {
        trunc_div(self.cofactor(j, i), self.det())
    }

    pub fn new(
        t00: i64,
        t01: i64,
        t02: i64,
        t03: i64,
        t10: i64,
        t11: i64,
        t12: i64,
        t13: i64,
        t20: i64,
        t21: i64,
        t22: i64,
        t23: i64,
        t30: i64,
        t31: i64,
        t32: i64,
        t33: i64,
    ) -> (r: Matrix4x4)
        ensures
            r.at(0, 0) == t00 as int,
            r.at(0, 1) == t01 as int,
            r.at(0, 2) == t02 as int,
            r.at(0, 3) == t03 as int,
            r.at(1, 0) == t10 as int,
            r.at(1, 1) == t11 as int,
            r.at(1, 2) == t12 as int,
            r.at(1, 3) == t13 as int,
            r.at(2, 0) == t20 as int,
            r.at(2, 1) == t21 as int,
            r.at(2, 2) == t22 as int,
            r.at(2, 3) == t23 as int,
            r.at(3, 0) == t30 as int,
            r.at(3, 1) == t31 as int,
            r.at(3, 2) == t32 as int,
            r.at(3, 3) == t33 as int,
    {
        Matrix4x4 {
            m00: t00,
            m01: t01,
            m02: t02,
            m03: t03,
            m10: t10,
            m11: t11,
            m12: t12,
            m13: t13,
            m20: t20,
            m21: t21,
            m22: t22,
            m23: t23,
            m30: t30,
            m31: t31,
            m32: t32,
            m33: t33,
        }
    }

    /// The matrix with every entry zero.
    pub fn zero() -> (r: Matrix4x4)
        ensures
            forall|i: int, j: int| 0 <= i < 4 && 0 <= j < 4 ==> r.at(i, j) == 0,
    {
        Matrix4x4::new(0, 0, 0, 0, 0, 0, 0, 0, 0, 0, 0, 0, 0, 0, 0, 0)
    }

    pub fn is_zero(&self) -> (r: bool)
        ensures
            r == (self.at(0, 0) == 0 && self.at(0, 1) == 0 && self.at(0, 2) == 0 && self.at(0, 3)
                == 0 && self.at(1, 0) == 0 && self.at(1, 1) == 0 && self.at(1, 2) == 0 && self.at(
                1,
                3,
            ) == 0 && self.at(2, 0) == 0 && self.at(2, 1) == 0 && self.at(2, 2) == 0 && self.at(
                2,
                3,
            ) == 0 && self.at(3, 0) == 0 && self.at(3, 1) == 0 && self.at(3, 2) == 0 && self.at(
                3,
                3,
            ) == 0),
    {
        self.m00 == 0 && self.m01 == 0 && self.m02 == 0 && self.m03 == 0 && self.m10 == 0
            && self.m11 == 0 && self.m12 == 0 && self.m13 == 0 && self.m20 == 0 && self.m21 == 0
            && self.m22 == 0 && self.m23 == 0 && self.m30 == 0 && self.m31 == 0 && self.m32 == 0
            && self.m33 == 0
    }


    /// The multiplicative identity.
    pub fn identity() -> (r: Matrix4x4)
        ensures
            forall|i: int, j: int|
                0 <= i < 4 && 0 <= j < 4 ==> r.at(i, j) == (if i == j {
                    1int
                } else {
                    0int
                }),
    {
        Matrix4x4::new(1, 0, 0, 0, 0, 1, 0, 0, 0, 0, 1, 0, 0, 0, 0, 1)
    }

    /// The entry in row `i`, column `j`; out-of-range positions are a caller
    /// defect and excluded by precondition.
    pub fn entry(&self, i: usize, j: usize) -> (r: i64)
        requires
            i < 4,
            j < 4,
        ensures
            r as int == self.at(i as int, j as int),
    {
        if i == 0 {
            if j == 0 {
                self.m00
            } else if j == 1 {
                self.m01
            } else if j == 2 {
                self.m02
            } else {
                self.m03
            }
        } else if i == 1 {
            if j == 0 {
                self.m10
            } else if j == 1 {
                self.m11
            } else if j == 2 {
                self.m12
            } else {
                self.m13
            }
        } else if i == 2 {
            if j == 0 {
                self.m20
            } else if j == 1 {
                self.m21
            } else if j == 2 {
                self.m22
            } else {
                self.m23
            }
        } else {
            if j == 0 {
                self.m30
            } else if j == 1 {
                self.m31
            } else if j == 2 {
                self.m32
            } else {
                self.m33
            }
        }
    }

    /// Replaces the entry in row `i`, column `j`.
    pub fn set_entry(&mut self, i: usize, j: usize, v: i64)
        requires
            i < 4,
            j < 4,
        ensures
            final(self).at(i as int, j as int) == v as int,
            forall|a: int, b: int|
                0 <= a < 4 && 0 <= b < 4 && !(a == i as int && b == j as int) ==> final(self).at(
                    a,
                    b,
                ) == old(self).at(a, b),
    {
        if i == 0 {
            if j == 0 {
                self.m00 = v;
            } else if j == 1 {
                self.m01 = v;
            } else if j == 2 {
                self.m02 = v;
            } else {
                self.m03 = v;
            }
        } else if i == 1 {
            if j == 0 {
                self.m10 = v;
            } else if j == 1 {
                self.m11 = v;
            } else if j == 2 {
                self.m12 = v;
            } else {
                self.m13 = v;
            }
        } else if i == 2 {
            if j == 0 {
                self.m20 = v;
            } else if j == 1 {
                self.m21 = v;
            } else if j == 2 {
                self.m22 = v;
            } else {
                self.m23 = v;
            }
        } else {
            if j == 0 {
                self.m30 = v;
            } else if j == 1 {
                self.m31 = v;
            } else if j == 2 {
                self.m32 = v;
            } else {
                self.m33 = v;
            }
        }
    }

    /// The 3x3 minor obtained by deleting row `i` and column `j`;
    /// out-of-range positions are a caller defect and excluded by
    /// precondition.
    pub fn minor(&self, i: usize, j: usize) -> (r: Matrix3x3)
        requires
            i < 4,
            j < 4,
        ensures
            r.at(0, 0) == self.at(skip_idx(i as int, 0), skip_idx(j as int, 0)),
            r.at(0, 1) == self.at(skip_idx(i as int, 0), skip_idx(j as int, 1)),
            r.at(0, 2) == self.at(skip_idx(i as int, 0), skip_idx(j as int, 2)),
            r.at(1, 0) == self.at(skip_idx(i as int, 1), skip_idx(j as int, 0)),
            r.at(1, 1) == self.at(skip_idx(i as int, 1), skip_idx(j as int, 1)),
            r.at(1, 2) == self.at(skip_idx(i as int, 1), skip_idx(j as int, 2)),
            r.at(2, 0) == self.at(skip_idx(i as int, 2), skip_idx(j as int, 0)),
            r.at(2, 1) == self.at(skip_idx(i as int, 2), skip_idx(j as int, 1)),
            r.at(2, 2) == self.at(skip_idx(i as int, 2), skip_idx(j as int, 2)),
            r.det() == self.minor_det(i as int, j as int),
    {
        let fst_row: usize = if i == 0 {
            1
        } else {
            0
        };
        let snd_row: usize = if i == 1 {
            2
        } else {
            fst_row + 1
        };
        let trd_row: usize = if i == 2 {
            3
        } else {
            snd_row + 1
        };
        let fst_col: usize = if j == 0 {
            1
        } else {
            0
        };
        let snd_col: usize = if j == 1 {
            2
        } else {
            fst_col + 1
        };
        let trd_col: usize = if j == 2 {
            3
        } else {
            snd_col + 1
        };
        Matrix3x3::new(
            self.entry(fst_row, fst_col),
            self.entry(fst_row, snd_col),
            self.entry(fst_row, trd_col),
            self.entry(snd_row, fst_col),
            self.entry(snd_row, snd_col),
            self.entry(snd_row, trd_col),
            self.entry(trd_row, fst_col),
            self.entry(trd_row, snd_col),
            self.entry(trd_row, trd_col),
        )
    }

    pub fn transpose(&self) -> (r: Matrix4x4)
        ensures
            forall|i: int, j: int| 0 <= i < 4 && 0 <= j < 4 ==> r.at(i, j) == self.at(j, i),
    {
        Matrix4x4::new(
            self.m00,
            self.m10,
            self.m20,
            self.m30,
            self.m01,
            self.m11,
            self.m21,
            self.m31,
            self.m02,
            self.m12,
            self.m22,
            self.m32,
            self.m03,
            self.m13,
            self.m23,
            self.m33,
        )
    }

    pub fn add(self, m: Matrix4x4) -> (r: Matrix4x4)
        requires
            i64_fits(self.at(0, 0) + m.at(0, 0)),
            i64_fits(self.at(0, 1) + m.at(0, 1)),
            i64_fits(self.at(0, 2) + m.at(0, 2)),
            i64_fits(self.at(0, 3) + m.at(0, 3)),
            i64_fits(self.at(1, 0) + m.at(1, 0)),
            i64_fits(self.at(1, 1) + m.at(1, 1)),
            i64_fits(self.at(1, 2) + m.at(1, 2)),
            i64_fits(self.at(1, 3) + m.at(1, 3)),
            i64_fits(self.at(2, 0) + m.at(2, 0)),
            i64_fits(self.at(2, 1) + m.at(2, 1)),
            i64_fits(self.at(2, 2) + m.at(2, 2)),
            i64_fits(self.at(2, 3) + m.at(2, 3)),
            i64_fits(self.at(3, 0) + m.at(3, 0)),
            i64_fits(self.at(3, 1) + m.at(3, 1)),
            i64_fits(self.at(3, 2) + m.at(3, 2)),
            i64_fits(self.at(3, 3) + m.at(3, 3)),
        ensures
            forall|i: int, j: int|
                0 <= i < 4 && 0 <= j < 4 ==> r.at(i, j) == self.at(i, j) + m.at(i, j),
    {
        Matrix4x4::new(
            self.m00 + m.m00,
            self.m01 + m.m01,
            self.m02 + m.m02,
            self.m03 + m.m03,
            self.m10 + m.m10,
            self.m11 + m.m11,
            self.m12 + m.m12,
            self.m13 + m.m13,
            self.m20 + m.m20,
            self.m21 + m.m21,
            self.m22 + m.m22,
            self.m23 + m.m23,
            self.m30 + m.m30,
            self.m31 + m.m31,
            self.m32 + m.m32,
            self.m33 + m.m33,
        )
    }

    pub fn sub(self, m: Matrix4x4) -> (r: Matrix4x4)
        requires
            i64_fits(self.at(0, 0) - m.at(0, 0)),
            i64_fits(self.at(0, 1) - m.at(0, 1)),
            i64_fits(self.at(0, 2) - m.at(0, 2)),
            i64_fits(self.at(0, 3) - m.at(0, 3)),
            i64_fits(self.at(1, 0) - m.at(1, 0)),
            i64_fits(self.at(1, 1) - m.at(1, 1)),
            i64_fits(self.at(1, 2) - m.at(1, 2)),
            i64_fits(self.at(1, 3) - m.at(1, 3)),
            i64_fits(self.at(2, 0) - m.at(2, 0)),
            i64_fits(self.at(2, 1) - m.at(2, 1)),
            i64_fits(self.at(2, 2) - m.at(2, 2)),
            i64_fits(self.at(2, 3) - m.at(2, 3)),
            i64_fits(self.at(3, 0) - m.at(3, 0)),
            i64_fits(self.at(3, 1) - m.at(3, 1)),
            i64_fits(self.at(3, 2) - m.at(3, 2)),
            i64_fits(self.at(3, 3) - m.at(3, 3)),
        ensures
            forall|i: int, j: int|
                0 <= i < 4 && 0 <= j < 4 ==> r.at(i, j) == self.at(i, j) - m.at(i, j),
    {
        Matrix4x4::new(
            self.m00 - m.m00,
            self.m01 - m.m01,
            self.m02 - m.m02,
            self.m03 - m.m03,
            self.m10 - m.m10,
            self.m11 - m.m11,
            self.m12 - m.m12,
            self.m13 - m.m13,
            self.m20 - m.m20,
            self.m21 - m.m21,
            self.m22 - m.m22,
            self.m23 - m.m23,
            self.m30 - m.m30,
            self.m31 - m.m31,
            self.m32 - m.m32,
            self.m33 - m.m33,
        )
    }

    pub fn mul_scalar(self, t: i64) -> (r: Matrix4x4)
        requires
            i64_fits(self.at(0, 0) * t),
            i64_fits(self.at(0, 1) * t),
            i64_fits(self.at(0, 2) * t),
            i64_fits(self.at(0, 3) * t),
            i64_fits(self.at(1, 0) * t),
            i64_fits(self.at(1, 1) * t),
            i64_fits(self.at(1, 2) * t),
            i64_fits(self.at(1, 3) * t),
            i64_fits(self.at(2, 0) * t),
            i64_fits(self.at(2, 1) * t),
            i64_fits(self.at(2, 2) * t),
            i64_fits(self.at(2, 3) * t),
            i64_fits(self.at(3, 0) * t),
            i64_fits(self.at(3, 1) * t),
            i64_fits(self.at(3, 2) * t),
            i64_fits(self.at(3, 3) * t),
        ensures
            forall|i: int, j: int| 0 <= i < 4 && 0 <= j < 4 ==> r.at(i, j) == self.at(i, j) * t,
    {
        Matrix4x4::new(
            self.m00 * t,
            self.m01 * t,
            self.m02 * t,
            self.m03 * t,
            self.m10 * t,
            self.m11 * t,
            self.m12 * t,
            self.m13 * t,
            self.m20 * t,
            self.m21 * t,
            self.m22 * t,
            self.m23 * t,
            self.m30 * t,
            self.m31 * t,
            self.m32 * t,
            self.m33 * t,
        )
    }

    pub fn div_scalar(self, t: i64) -> (r: Matrix4x4)
        requires
            t != 0,
            i64_fits(trunc_div(self.at(0, 0), t as int)),
            i64_fits(trunc_div(self.at(0, 1), t as int)),
            i64_fits(trunc_div(self.at(0, 2), t as int)),
            i64_fits(trunc_div(self.at(0, 3), t as int)),
            i64_fits(trunc_div(self.at(1, 0), t as int)),
            i64_fits(trunc_div(self.at(1, 1), t as int)),
            i64_fits(trunc_div(self.at(1, 2), t as int)),
            i64_fits(trunc_div(self.at(1, 3), t as int)),
            i64_fits(trunc_div(self.at(2, 0), t as int)),
            i64_fits(trunc_div(self.at(2, 1), t as int)),
            i64_fits(trunc_div(self.at(2, 2), t as int)),
            i64_fits(trunc_div(self.at(2, 3), t as int)),
            i64_fits(trunc_div(self.at(3, 0), t as int)),
            i64_fits(trunc_div(self.at(3, 1), t as int)),
            i64_fits(trunc_div(self.at(3, 2), t as int)),
            i64_fits(trunc_div(self.at(3, 3), t as int)),
        ensures
            forall|i: int, j: int|
                0 <= i < 4 && 0 <= j < 4 ==> r.at(i, j) == trunc_div(self.at(i, j), t as int),
    {
        Matrix4x4::new(
            div_exact(self.m00, t),
            div_exact(self.m01, t),
            div_exact(self.m02, t),
            div_exact(self.m03, t),
            div_exact(self.m10, t),
            div_exact(self.m11, t),
            div_exact(self.m12, t),
            div_exact(self.m13, t),
            div_exact(self.m20, t),
            div_exact(self.m21, t),
            div_exact(self.m22, t),
            div_exact(self.m23, t),
            div_exact(self.m30, t),
            div_exact(self.m31, t),
            div_exact(self.m32, t),
            div_exact(self.m33, t),
        )
    }

    /// The matrix product `self * m` by the standard row-column sums.
    pub fn mul(self, m: Matrix4x4) -> (r: Matrix4x4)
        requires
            self.bounded(MAT4_LIMIT as int),
            m.bounded(MAT4_LIMIT as int),
        ensures
            forall|i: int, j: int|
                0 <= i < 4 && 0 <= j < 4 ==> r.at(i, j) == self.at(i, 0) * m.at(0, j) + self.at(
                    i,
                    1,
                ) * m.at(1, j) + self.at(i, 2) * m.at(2, j) + self.at(i, 3) * m.at(3, j),
    {
        proof {
            lemma_mat4_products(self, m);
        }
        Matrix4x4::new(
            self.m00 * m.m00 + self.m01 * m.m10 + self.m02 * m.m20 + self.m03 * m.m30,
            self.m00 * m.m01 + self.m01 * m.m11 + self.m02 * m.m21 + self.m03 * m.m31,
            self.m00 * m.m02 + self.m01 * m.m12 + self.m02 * m.m22 + self.m03 * m.m32,
            self.m00 * m.m03 + self.m01 * m.m13 + self.m02 * m.m23 + self.m03 * m.m33,
            self.m10 * m.m00 + self.m11 * m.m10 + self.m12 * m.m20 + self.m13 * m.m30,
            self.m10 * m.m01 + self.m11 * m.m11 + self.m12 * m.m21 + self.m13 * m.m31,
            self.m10 * m.m02 + self.m11 * m.m12 + self.m12 * m.m22 + self.m13 * m.m32,
            self.m10 * m.m03 + self.m11 * m.m13 + self.m12 * m.m23 + self.m13 * m.m33,
            self.m20 * m.m00 + self.m21 * m.m10 + self.m22 * m.m20 + self.m23 * m.m30,
            self.m20 * m.m01 + self.m21 * m.m11 + self.m22 * m.m21 + self.m23 * m.m31,
            self.m20 * m.m02 + self.m21 * m.m12 + self.m22 * m.m22 + self.m23 * m.m32,
            self.m20 * m.m03 + self.m21 * m.m13 + self.m22 * m.m23 + self.m23 * m.m33,
            self.m30 * m.m00 + self.m31 * m.m10 + self.m32 * m.m20 + self.m33 * m.m30,
            self.m30 * m.m01 + self.m31 * m.m11 + self.m32 * m.m21 + self.m33 * m.m31,
            self.m30 * m.m02 + self.m31 * m.m12 + self.m32 * m.m22 + self.m33 * m.m32,
            self.m30 * m.m03 + self.m31 * m.m13 + self.m32 * m.m23 + self.m33 * m.m33,
        )
    }

    /// The determinant, by cofactor expansion along the first row.
    pub fn determinant(&self) -> (r: i64)
        requires
            self.bounded(MAT4_LIMIT as int),
        ensures
            r as int == self.det(),
    {
        let d0 = self.minor(0, 0).determinant();
        let d1 = self.minor(0, 1).determinant();
        let d2 = self.minor(0, 2).determinant();
        let d3 = self.minor(0, 3).determinant();
        proof {
            self.lemma_minor_det_bounds(MAT4_LIMIT as int);
            let k = MAT4_LIMIT as int;
            lemma_mul_bound(self.at(0, 0), d0 as int, k, 6 * ((k * k) * k));
            lemma_mul_bound(self.at(0, 1), d1 as int, k, 6 * ((k * k) * k));
            lemma_mul_bound(self.at(0, 2), d2 as int, k, 6 * ((k * k) * k));
            lemma_mul_bound(self.at(0, 3), d3 as int, k, 6 * ((k * k) * k));
        }
        self.m00 * d0 - self.m01 * d1 + self.m02 * d2 - self.m03 * d3
    }

    /// Every minor determinant of a matrix bounded by `k` is bounded by
    /// `6 * k^3`.
    proof fn lemma_minor_det_bounds(self, k: int)
        requires
            self.bounded(k),
        ensures
            forall|i: int, j: int|
                0 <= i < 4 && 0 <= j < 4 ==> abs_int(#[trigger] self.minor_det(i, j)) <= 6 * ((k
                    * k) * k),
    {
        assert forall|i: int, j: int|
            0 <= i < 4 && 0 <= j < 4 implies abs_int(#[trigger] self.minor_det(i, j)) <= 6 * ((k
            * k) * k) by {
            lemma_det3x3_bound(
                self.at(skip_idx(i, 0), skip_idx(j, 0)),
                self.at(skip_idx(i, 0), skip_idx(j, 1)),
                self.at(skip_idx(i, 0), skip_idx(j, 2)),
                self.at(skip_idx(i, 1), skip_idx(j, 0)),
                self.at(skip_idx(i, 1), skip_idx(j, 1)),
                self.at(skip_idx(i, 1), skip_idx(j, 2)),
                self.at(skip_idx(i, 2), skip_idx(j, 0)),
                self.at(skip_idx(i, 2), skip_idx(j, 1)),
                self.at(skip_idx(i, 2), skip_idx(j, 2)),
                k,
            );
        }
    }

    /// The inverse, absent exactly when the determinant is zero; each entry
    /// `(i, j)` of the result is the cofactor at `(j, i)` divided by the
    /// determinant, with the checkerboard sign applied per cofactor.
    pub fn inverse(&self) -> (r: Option<Matrix4x4>)
        requires
            self.bounded(MAT4_LIMIT as int),
        ensures
            self.det() == 0 <==> r is None,
            r matches Some(inv) ==> forall|i: int, j: int|
                0 <= i < 4 && 0 <= j < 4 ==> inv.at(i, j) == self.inv_at(i, j),
    {
        let det = self.determinant();
        if det == 0 {
            None
        } else {
            let c00 = self.minor(0, 0).determinant();
            let c01 = self.minor(0, 1).determinant();
            let c02 = self.minor(0, 2).determinant();
            let c03 = self.minor(0, 3).determinant();
            let c10 = self.minor(1, 0).determinant();
            let c11 = self.minor(1, 1).determinant();
            let c12 = self.minor(1, 2).determinant();
            let c13 = self.minor(1, 3).determinant();
            let c20 = self.minor(2, 0).determinant();
            let c21 = self.minor(2, 1).determinant();
            let c22 = self.minor(2, 2).determinant();
            let c23 = self.minor(2, 3).determinant();
            let c30 = self.minor(3, 0).determinant();
            let c31 = self.minor(3, 1).determinant();
            let c32 = self.minor(3, 2).determinant();
            let c33 = self.minor(3, 3).determinant();
            proof {
                self.lemma_minor_det_bounds(MAT4_LIMIT as int);
                assert forall|i: int, j: int| 0 <= i < 4 && 0 <= j < 4 implies i64_fits(
                    trunc_div(#[trigger] self.cofactor(i, j), self.det()),
                ) by {
                    lemma_trunc_div_bound(self.cofactor(i, j), self.det());
                }
            }
            Some(
                Matrix4x4::new(
                    div_exact(c00, det),
                    div_exact(-c10, det),
                    div_exact(c20, det),
                    div_exact(-c30, det),
                    div_exact(-c01, det),
                    div_exact(c11, det),
                    div_exact(-c21, det),
                    div_exact(c31, det),
                    div_exact(c02, det),
                    div_exact(-c12, det),
                    div_exact(c22, det),
                    div_exact(-c32, det),
                    div_exact(-c03, det),
                    div_exact(c13, det),
                    div_exact(-c23, det),
                    div_exact(c33, det),
                ),
            )
        }
    }
}

/// Every product of two entries bounded by the 4x4 limit fits in an `i64`,
/// with room for row-column sums of four such products.
proof fn lemma_mat4_products(a: Matrix4x4, b: Matrix4x4)
    requires
        a.bounded(MAT4_LIMIT as int),
        b.bounded(MAT4_LIMIT as int),
    ensures
        forall|i: int, j: int, k: int, l: int|
            0 <= i < 4 && 0 <= j < 4 && 0 <= k < 4 && 0 <= l < 4 ==> -(0x4000
                * 0x4000) <= #[trigger] (a.at(i, j) * b.at(k, l)) <= 0x4000 * 0x4000,
{
    assert forall|i: int, j: int, k: int, l: int|
        0 <= i < 4 && 0 <= j < 4 && 0 <= k < 4 && 0 <= l < 4 implies -(0x4000
        * 0x4000) <= #[trigger] (a.at(i, j) * b.at(k, l)) <= 0x4000 * 0x4000 by {
        lemma_mul_bound(a.at(i, j), b.at(k, l), 0x4000, 0x4000);
    }
}

/// Multiplication by a nonzero factor is injective.
proof fn lemma_cancel_mul(x: int, y: int, d: int)
    requires
        x * d == y * d,
        d != 0,
    ensures
        x == y,
{
    assert(x == y) by (nonlinear_arith)
        requires
            x * d == y * d,
            d != 0,
    ;
}

/// Law: a 2x2 matrix times its inverse is the identity. Whenever the
/// determinant is nonzero and divides every cofactor exactly, a matrix
/// whose entries satisfy the inverse relation multiplies `m` back to the
/// identity.
pub proof fn lemma_matrix2_inverse_identity(m: Matrix2x2, inv: Matrix2x2)
    requires
        m.det() != 0,
        inv.at(0, 0) == m.inv_at(0, 0),
        inv.at(0, 1) == m.inv_at(0, 1),
        inv.at(1, 0) == m.inv_at(1, 0),
        inv.at(1, 1) == m.inv_at(1, 1),
        m.inv_at(0, 0) * m.det() == m.cofactor(0, 0),
        m.inv_at(0, 1) * m.det() == m.cofactor(1, 0),
        m.inv_at(1, 0) * m.det() == m.cofactor(0, 1),
        m.inv_at(1, 1) * m.det() == m.cofactor(1, 1),
    ensures
        inv.at(0, 0) * m.at(0, 0) + inv.at(0, 1) * m.at(1, 0) == 1,
        inv.at(0, 0) * m.at(0, 1) + inv.at(0, 1) * m.at(1, 1) == 0,
        inv.at(1, 0) * m.at(0, 0) + inv.at(1, 1) * m.at(1, 0) == 0,
        inv.at(1, 0) * m.at(0, 1) + inv.at(1, 1) * m.at(1, 1) == 1,
{
    let a = m.at(0, 0);
    let b = m.at(0, 1);
    let c = m.at(1, 0);
    let d = m.at(1, 1);
    let det = m.det();
    let q00 = inv.at(0, 0);
    let q01 = inv.at(0, 1);
    let q10 = inv.at(1, 0);
    let q11 = inv.at(1, 1);
    assert((q00 * a + q01 * c) * det == 1 * det) by (nonlinear_arith)
        requires
            q00 * det == d,
            q01 * det == -b,
            det == a * d - b * c,
    ;
    lemma_cancel_mul(q00 * a + q01 * c, 1, det);
    assert((q00 * b + q01 * d) * det == 0 * det) by (nonlinear_arith)
        requires
            q00 * det == d,
            q01 * det == -b,
    ;
    lemma_cancel_mul(q00 * b + q01 * d, 0, det);
    assert((q10 * a + q11 * c) * det == 0 * det) by (nonlinear_arith)
        requires
            q10 * det == -c,
            q11 * det == a,
    ;
    lemma_cancel_mul(q10 * a + q11 * c, 0, det);
    assert((q10 * b + q11 * d) * det == 1 * det) by (nonlinear_arith)
        requires
            q10 * det == -c,
            q11 * det == a,
            det == a * d - b * c,
    ;
    lemma_cancel_mul(q10 * b + q11 * d, 1, det);
}

/// Law: inverting a 2x2 inverse gives the original back. For a matrix whose
/// determinant is one or minus one the inverse is exact, its determinant is
/// nonzero, and the entries of its own inverse are the original entries.
pub proof fn lemma_matrix2_inverse_involution(m: Matrix2x2, inv: Matrix2x2)
    requires
        m.det() == 1 || m.det() == -1,
        inv.at(0, 0) == m.inv_at(0, 0),
        inv.at(0, 1) == m.inv_at(0, 1),
        inv.at(1, 0) == m.inv_at(1, 0),
        inv.at(1, 1) == m.inv_at(1, 1),
    ensures
        inv.det() != 0,
        inv.inv_at(0, 0) == m.at(0, 0),
        inv.inv_at(0, 1) == m.at(0, 1),
        inv.inv_at(1, 0) == m.at(1, 0),
        inv.inv_at(1, 1) == m.at(1, 1),
{
    let a = m.at(0, 0);
    let b = m.at(0, 1);
    let c = m.at(1, 0);
    let d = m.at(1, 1);
    let det = m.det();
    lemma_trunc_div_unit(d);
    lemma_trunc_div_unit(-b);
    lemma_trunc_div_unit(-c);
    lemma_trunc_div_unit(a);
    if det == 1 {
        assert(inv.at(0, 0) == d && inv.at(0, 1) == -b && inv.at(1, 0) == -c && inv.at(1, 1) == a);
        assert(inv.det() == d * a - (-b) * (-c)) by (nonlinear_arith)
            requires
                inv.det() == inv.at(0, 0) * inv.at(1, 1) - inv.at(0, 1) * inv.at(1, 0),
                inv.at(0, 0) == d,
                inv.at(0, 1) == -b,
                inv.at(1, 0) == -c,
                inv.at(1, 1) == a,
        ;
        assert(d * a - (-b) * (-c) == a * d - b * c) by (nonlinear_arith);
        lemma_trunc_div_unit(inv.cofactor(0, 0));
        lemma_trunc_div_unit(inv.cofactor(1, 0));
        lemma_trunc_div_unit(inv.cofactor(0, 1));
        lemma_trunc_div_unit(inv.cofactor(1, 1));
    } else {
        assert(inv.at(0, 0) == -d && inv.at(0, 1) == b && inv.at(1, 0) == c && inv.at(1, 1) == -a);
        assert(inv.det() == (-d) * (-a) - b * c) by (nonlinear_arith)
            requires
                inv.det() == inv.at(0, 0) * inv.at(1, 1) - inv.at(0, 1) * inv.at(1, 0),
                inv.at(0, 0) == -d,
                inv.at(0, 1) == b,
                inv.at(1, 0) == c,
                inv.at(1, 1) == -a,
        ;
        assert((-d) * (-a) - b * c == a * d - b * c) by (nonlinear_arith);
        lemma_trunc_div_unit(inv.cofactor(0, 0));
        lemma_trunc_div_unit(inv.cofactor(1, 0));
        lemma_trunc_div_unit(inv.cofactor(0, 1));
        lemma_trunc_div_unit(inv.cofactor(1, 1));
    }
}

/// A sum of three scaled terms distributes over a common factor.
proof fn lemma_distribute3(x: int, y: int, z: int, d: int)
    ensures
        (x + y + z) * d == x * d + y * d + z * d,
{
    assert((x + y + z) * d == x * d + y * d + z * d) by (nonlinear_arith);
}

/// Reassociation: when `q * d == c`, scaling `q * e` by `d` gives `c * e`.
proof fn lemma_mul_shuffle(q: int, e: int, d: int, c: int)
    requires
        q * d == c,
    ensures
        (q * e) * d == c * e,
{
    assert((q * e) * d == c * e) by (nonlinear_arith)
        requires
            q * d == c,
    ;
}

/// Law: a 3x3 matrix times its inverse is the identity. Whenever the
/// determinant is nonzero and divides every cofactor exactly, a matrix
/// whose entries satisfy the inverse relation multiplies `m` back to the
/// identity.
pub proof fn lemma_matrix3_inverse_identity(m: Matrix3x3, inv: Matrix3x3)
    requires
        m.det() != 0,
        forall|i: int, j: int| 0 <= i < 3 && 0 <= j < 3 ==> #[trigger] inv.at(i, j) == m.inv_at(
            i,
            j,
        ),
        forall|i: int, j: int|
            0 <= i < 3 && 0 <= j < 3 ==> #[trigger] m.inv_at(i, j) * m.det() == m.cofactor(j, i),
    ensures
        forall|i: int, j: int|
            0 <= i < 3 && 0 <= j < 3 ==> inv.at(i, 0) * m.at(0, j) + inv.at(i, 1) * m.at(1, j)
                + inv.at(i, 2) * m.at(2, j) == (if i == j {
                1int
            } else {
                0int
            }),
{
    let a00 = m.at(0, 0);
    let a01 = m.at(0, 1);
    let a02 = m.at(0, 2);
    let a10 = m.at(1, 0);
    let a11 = m.at(1, 1);
    let a12 = m.at(1, 2);
    let a20 = m.at(2, 0);
    let a21 = m.at(2, 1);
    let a22 = m.at(2, 2);
    let det = m.det();
    assert forall|i: int, j: int| 0 <= i < 3 && 0 <= j < 3 implies inv.at(i, 0) * m.at(0, j)
        + inv.at(i, 1) * m.at(1, j) + inv.at(i, 2) * m.at(2, j) == (if i == j {
        1int
    } else {
        0int
    }) by {
        let q0 = inv.at(i, 0);
        let q1 = inv.at(i, 1);
        let q2 = inv.at(i, 2);
        let c0 = m.cofactor(0, i);
        let c1 = m.cofactor(1, i);
        let c2 = m.cofactor(2, i);
        let e0 = m.at(0, j);
        let e1 = m.at(1, j);
        let e2 = m.at(2, j);
        if i == 0 && j == 0 {
            assert(a00 * (a11 * a22 - a12 * a21) == a00 * a11 * a22 - a00 * a12 * a21) by (nonlinear_arith);
            assert(a01 * (a10 * a22 - a12 * a20) == a01 * a10 * a22 - a01 * a12 * a20) by (nonlinear_arith);
            assert(a02 * (a10 * a21 - a11 * a20) == a02 * a10 * a21 - a02 * a11 * a20) by (nonlinear_arith);
            assert((a11 * a22 - a12 * a21) * a00 == a00 * a11 * a22 - a00 * a12 * a21) by (nonlinear_arith);
            assert((-(a01 * a22 - a02 * a21)) * a10 == -(a01 * a10 * a22) + a02 * a10 * a21) by (nonlinear_arith);
            assert((a01 * a12 - a02 * a11) * a20 == a01 * a12 * a20 - a02 * a11 * a20) by (nonlinear_arith);
            assert(c0 * e0 + c1 * e1 + c2 * e2 == det);
        }
        if i == 0 && j == 1 {
            assert((a11 * a22 - a12 * a21) * a01 + (-(a01 * a22 - a02 * a21)) * a11 + (a01 * a12 - a02 * a11) * a21 == 0) by (nonlinear_arith);
            assert(c0 * e0 + c1 * e1 + c2 * e2 == 0);
        }
        if i == 0 && j == 2 {
            assert((a11 * a22 - a12 * a21) * a02 + (-(a01 * a22 - a02 * a21)) * a12 + (a01 * a12 - a02 * a11) * a22 == 0) by (nonlinear_arith);
            assert(c0 * e0 + c1 * e1 + c2 * e2 == 0);
        }
        if i == 1 && j == 0 {
            assert((-(a10 * a22 - a12 * a20)) * a00 + (a00 * a22 - a02 * a20) * a10 + (-(a00 * a12 - a02 * a10)) * a20 == 0) by (nonlinear_arith);
            assert(c0 * e0 + c1 * e1 + c2 * e2 == 0);
        }
        if i == 1 && j == 1 {
            assert(a00 * (a11 * a22 - a12 * a21) == a00 * a11 * a22 - a00 * a12 * a21) by (nonlinear_arith);
            assert(a01 * (a10 * a22 - a12 * a20) == a01 * a10 * a22 - a01 * a12 * a20) by (nonlinear_arith);
            assert(a02 * (a10 * a21 - a11 * a20) == a02 * a10 * a21 - a02 * a11 * a20) by (nonlinear_arith);
            assert((-(a10 * a22 - a12 * a20)) * a01 == -(a01 * a10 * a22) + a01 * a12 * a20) by (nonlinear_arith);
            assert((a00 * a22 - a02 * a20) * a11 == a00 * a11 * a22 - a02 * a11 * a20) by (nonlinear_arith);
            assert((-(a00 * a12 - a02 * a10)) * a21 == -(a00 * a12 * a21) + a02 * a10 * a21) by (nonlinear_arith);
            assert(c0 * e0 + c1 * e1 + c2 * e2 == det);
        }
        if i == 1 && j == 2 {
            assert((-(a10 * a22 - a12 * a20)) * a02 + (a00 * a22 - a02 * a20) * a12 + (-(a00 * a12 - a02 * a10)) * a22 == 0) by (nonlinear_arith);
            assert(c0 * e0 + c1 * e1 + c2 * e2 == 0);
        }
        if i == 2 && j == 0 {
            assert((a10 * a21 - a11 * a20) * a00 + (-(a00 * a21 - a01 * a20)) * a10 + (a00 * a11 - a01 * a10) * a20 == 0) by (nonlinear_arith);
            assert(c0 * e0 + c1 * e1 + c2 * e2 == 0);
        }
        if i == 2 && j == 1 {
            assert((a10 * a21 - a11 * a20) * a01 + (-(a00 * a21 - a01 * a20)) * a11 + (a00 * a11 - a01 * a10) * a21 == 0) by (nonlinear_arith);
            assert(c0 * e0 + c1 * e1 + c2 * e2 == 0);
        }
        if i == 2 && j == 2 {
            assert(a00 * (a11 * a22 - a12 * a21) == a00 * a11 * a22 - a00 * a12 * a21) by (nonlinear_arith);
            assert(a01 * (a10 * a22 - a12 * a20) == a01 * a10 * a22 - a01 * a12 * a20) by (nonlinear_arith);
            assert(a02 * (a10 * a21 - a11 * a20) == a02 * a10 * a21 - a02 * a11 * a20) by (nonlinear_arith);
            assert((a10 * a21 - a11 * a20) * a02 == a02 * a10 * a21 - a02 * a11 * a20) by (nonlinear_arith);
            assert((-(a00 * a21 - a01 * a20)) * a12 == -(a00 * a12 * a21) + a01 * a12 * a20) by (nonlinear_arith);
            assert((a00 * a11 - a01 * a10) * a22 == a00 * a11 * a22 - a01 * a10 * a22) by (nonlinear_arith);
            assert(c0 * e0 + c1 * e1 + c2 * e2 == det);
        }
        lemma_distribute3(q0 * e0, q1 * e1, q2 * e2, det);
        lemma_mul_shuffle(q0, e0, det, c0);
        lemma_mul_shuffle(q1, e1, det, c1);
        lemma_mul_shuffle(q2, e2, det, c2);
        if i == j {
            assert((q0 * e0 + q1 * e1 + q2 * e2) * det == 1 * det);
            lemma_cancel_mul(q0 * e0 + q1 * e1 + q2 * e2, 1, det);
        } else {
            assert((q0 * e0 + q1 * e1 + q2 * e2) * det == 0 * det);
            lemma_cancel_mul(q0 * e0 + q1 * e1 + q2 * e2, 0, det);
        }
    }
}

/// Exact truncating division of `i64` operands, total under the stated
/// preconditions.
fn div_exact(a: i64, b: i64) -> (r: i64)
    requires
        b != 0,
        i64_fits(trunc_div(a as int, b as int)),
    ensures
        r as int == trunc_div(a as int, b as int),
{
    let q = a.checked_div(b);
    q.unwrap()
}



} // verus!
