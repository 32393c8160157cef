//! Scalar capability layer: which primitive numeric types may serve as
//! vector/point/matrix components, and what their arithmetic means.
//!
//! Every scalar is modelled by a mathematical integer (`val`), and each
//! operation's contract is stated over that model. `fits` says which model
//! values the representation can hold; operations require that their exact
//! result fits, so no operation here overflows or panics.

use vstd::prelude::*;

verus! {

/// Absolute value of a mathematical integer.
pub open spec fn abs_int(a: int) -> int {
    if a >= 0 {
        a
    } else {
        -a
    }
}

/// Whether a mathematical integer is representable as an `i64`.
pub open spec fn i64_fits(x: int) -> bool {
    i64::MIN <= x <= i64::MAX
}

/// Division of mathematical integers rounding toward zero, the semantics of
/// `/` on the primitive integer types.
pub open spec fn trunc_div(a: int, b: int) -> int {
    if (a >= 0) == (b >= 0) {
        abs_int(a) / abs_int(b)
    } else {
        -(abs_int(a) / abs_int(b))
    }
}

/// A numeric component type: ordered, with exact arithmetic over an integer
/// model and additive/multiplicative identities.
pub trait BaseNum: Sized + Copy {
    /// The mathematical value this scalar stands for.
    spec fn val(self) -> int;

    /// Whether the representation can hold the model value `x`.
    spec fn fits(x: int) -> bool;

    /// Every value of the type is within its own range.
    proof fn lemma_val_fits(self)
        ensures
            Self::fits(self.val()),
    ;

    /// The additive identity.
    fn zero() -> (r: Self)
        ensures
            r.val() == 0,
    ;

    /// The multiplicative identity.
    fn one() -> (r: Self)
        ensures
            r.val() == 1,
    ;

    fn add(self, other: Self) -> (r: Self)
        requires
            Self::fits(self.val() + other.val()),
        ensures
            r.val() == self.val() + other.val(),
    ;

    fn sub(self, other: Self) -> (r: Self)
        requires
            Self::fits(self.val() - other.val()),
        ensures
            r.val() == self.val() - other.val(),
    ;

    fn mul(self, other: Self) -> (r: Self)
        requires
            Self::fits(self.val() * other.val()),
        ensures
            r.val() == self.val() * other.val(),
    ;

    fn div(self, other: Self) -> (r: Self)
        requires
            other.val() != 0,
            Self::fits(trunc_div(self.val(), other.val())),
        ensures
            r.val() == trunc_div(self.val(), other.val()),
    ;

    fn lt(self, other: Self) -> (r: bool)
        ensures
            r == (self.val() < other.val()),
    ;

    fn gt(self, other: Self) -> (r: bool)
        ensures
            r == (self.val() > other.val()),
    ;

    fn eq_val(self, other: Self) -> (r: bool)
        ensures
            r == (self.val() == other.val()),
    ;
}

/// A scalar that can represent negative values: adds negation, absolute
/// value, and a sign query to the numeric capability.
pub trait BaseSigned: BaseNum {
    fn neg(self) -> (r: Self)
        requires
            Self::fits(-self.val()),
        ensures
            r.val() == -self.val(),
    ;

    fn abs(self) -> (r: Self)
        requires
            Self::fits(abs_int(self.val())),
        ensures
            r.val() == abs_int(self.val()),
    ;

    fn is_negative(self) -> (r: bool)
        ensures
            r == (self.val() < 0),
    ;
}

/// Marker for scalars whose representation is itself an integer type.
pub trait BaseInt: BaseNum {
}

impl BaseNum for i64 {
    open spec fn val(self) -> int {
        self as int
    }

    open spec fn fits(x: int) -> bool {
        i64::MIN <= x <= i64::MAX
    }

    proof fn lemma_val_fits(self) {
    }

    fn zero() -> i64 {
        0
    }

    fn one() -> i64 {
        1
    }

    fn add(self, other: i64) -> i64 {
        self + other
    }

    fn sub(self, other: i64) -> i64 {
        self - other
    }

    fn mul(self, other: i64) -> i64 {
        self * other
    }

    fn div(self, other: i64) -> (r: i64) {
        let q = self.checked_div(other);
        q.unwrap()
    }

    fn lt(self, other: i64) -> bool {
        self < other
    }

    fn gt(self, other: i64) -> bool {
        self > other
    }

    fn eq_val(self, other: i64) -> bool {
        self == other
    }
}

impl BaseSigned for i64 {
    fn neg(self) -> i64 {
        -self
    }

    fn abs(self) -> (r: i64) {
        if self < 0 {
            -self
        } else {
            self
        }
    }

    fn is_negative(self) -> bool {
        self < 0
    }
}

impl BaseInt for i64 {
}

/// The operand `partial_min` picks: `a` if strictly below `b`, else `b`.
pub open spec fn spec_pmin<T: BaseNum>(a: T, b: T) -> T {
    if a.val() < b.val() {
        a
    } else {
        b
    }
}

/// The operand `partial_max` picks: `a` if strictly above `b`, else `b`.
pub open spec fn spec_pmax<T: BaseNum>(a: T, b: T) -> T {
    if a.val() > b.val() {
        a
    } else {
        b
    }
}

/// `a` if it compares strictly below `b`, otherwise `b`: ties resolve to the
/// right operand.
pub fn partial_min<T: BaseNum>(a: T, b: T) -> (r: T)
    ensures
        r == (if a.val() < b.val() {
            a
        } else {
            b
        }),
{
    if a.lt(b) {
        a
    } else {
        b
    }
}

/// `a` if it compares strictly above `b`, otherwise `b`: ties resolve to the
/// right operand.
pub fn partial_max<T: BaseNum>(a: T, b: T) -> (r: T)
    ensures
        r == (if a.val() > b.val() {
            a
        } else {
            b
        }),
{
    if a.gt(b) {
        a
    } else {
        b
    }
}

/// The integer scalar the concrete aliases use.
pub type IntScalar = i32;

impl BaseNum for i32 {
    open spec fn val(self) -> int {
        self as int
    }

    open spec fn fits(x: int) -> bool {
        i32::MIN <= x <= i32::MAX
    }

    proof fn lemma_val_fits(self) {
    }

    fn zero() -> i32 {
        0
    }

    fn one() -> i32 {
        1
    }

    fn add(self, other: i32) -> i32 {
        self + other
    }

    fn sub(self, other: i32) -> i32 {
        self - other
    }

    fn mul(self, other: i32) -> i32 {
        self * other
    }

    fn div(self, other: i32) -> (r: i32) {
        let q = self.checked_div(other);
        q.unwrap()
    }

    fn lt(self, other: i32) -> bool {
        self < other
    }

    fn gt(self, other: i32) -> bool {
        self > other
    }

    fn eq_val(self, other: i32) -> bool {
        self == other
    }
}

impl BaseSigned for i32 {
    fn neg(self) -> i32 {
        -self
    }

    fn abs(self) -> (r: i32) {
        if self < 0 {
            -self
        } else {
            self
        }
    }

    fn is_negative(self) -> bool {
        self < 0
    }
}

impl BaseInt for i32 {
}


impl BaseNum for i8 {
    open spec fn val(self) -> int {
        self as int
    }

    open spec fn fits(x: int) -> bool {
        i8::MIN <= x <= i8::MAX
    }

    proof fn lemma_val_fits(self) {
    }

    fn zero() -> i8 {
        0
    }

    fn one() -> i8 {
        1
    }

    fn add(self, other: i8) -> i8 {
        self + other
    }

    fn sub(self, other: i8) -> i8 {
        self - other
    }

    fn mul(self, other: i8) -> i8 {
        self * other
    }

    fn div(self, other: i8) -> (r: i8) {
        let q = self.checked_div(other);
        q.unwrap()
    }

    fn lt(self, other: i8) -> bool {
        self < other
    }

    fn gt(self, other: i8) -> bool {
        self > other
    }

    fn eq_val(self, other: i8) -> bool {
        self == other
    }
}

impl BaseSigned for i8 {
    fn neg(self) -> i8 {
        -self
    }

    fn abs(self) -> (r: i8) {
        if self < 0 {
            -self
        } else {
            self
        }
    }

    fn is_negative(self) -> bool {
        self < 0
    }
}

impl BaseInt for i8 {
}

impl BaseNum for i16 {
    open spec fn val(self) -> int {
        self as int
    }

    open spec fn fits(x: int) -> bool {
        i16::MIN <= x <= i16::MAX
    }

    proof fn lemma_val_fits(self) {
    }

    fn zero() -> i16 {
        0
    }

    fn one() -> i16 {
        1
    }

    fn add(self, other: i16) -> i16 {
        self + other
    }

    fn sub(self, other: i16) -> i16 {
        self - other
    }

    fn mul(self, other: i16) -> i16 {
        self * other
    }

    fn div(self, other: i16) -> (r: i16) {
        let q = self.checked_div(other);
        q.unwrap()
    }

    fn lt(self, other: i16) -> bool {
        self < other
    }

    fn gt(self, other: i16) -> bool {
        self > other
    }

    fn eq_val(self, other: i16) -> bool {
        self == other
    }
}

impl BaseSigned for i16 {
    fn neg(self) -> i16 {
        -self
    }

    fn abs(self) -> (r: i16) {
        if self < 0 {
            -self
        } else {
            self
        }
    }

    fn is_negative(self) -> bool {
        self < 0
    }
}

impl BaseInt for i16 {
}

impl BaseNum for isize {
    open spec fn val(self) -> int {
        self as int
    }

    open spec fn fits(x: int) -> bool {
        isize::MIN <= x <= isize::MAX
    }

    proof fn lemma_val_fits(self) {
    }

    fn zero() -> isize {
        0
    }

    fn one() -> isize {
        1
    }

    fn add(self, other: isize) -> isize {
        self + other
    }

    fn sub(self, other: isize) -> isize {
        self - other
    }

    fn mul(self, other: isize) -> isize {
        self * other
    }

    fn div(self, other: isize) -> (r: isize) {
        let q = self.checked_div(other);
        q.unwrap()
    }

    fn lt(self, other: isize) -> bool {
        self < other
    }

    fn gt(self, other: isize) -> bool {
        self > other
    }

    fn eq_val(self, other: isize) -> bool {
        self == other
    }
}

impl BaseSigned for isize {
    fn neg(self) -> isize {
        -self
    }

    fn abs(self) -> (r: isize) {
        if self < 0 {
            -self
        } else {
            self
        }
    }

    fn is_negative(self) -> bool {
        self < 0
    }
}

impl BaseInt for isize {
}

impl BaseNum for u8 {
    open spec fn val(self) -> int {
        self as int
    }

    open spec fn fits(x: int) -> bool {
        u8::MIN <= x <= u8::MAX
    }

    proof fn lemma_val_fits(self) {
    }

    fn zero() -> u8 {
        0
    }

    fn one() -> u8 {
        1
    }

    fn add(self, other: u8) -> u8 {
        self + other
    }

    fn sub(self, other: u8) -> u8 {
        self - other
    }

    fn mul(self, other: u8) -> u8 {
        self * other
    }

    fn div(self, other: u8) -> (r: u8) {
        let q = self.checked_div(other);
        q.unwrap()
    }

    fn lt(self, other: u8) -> bool {
        self < other
    }

    fn gt(self, other: u8) -> bool {
        self > other
    }

    fn eq_val(self, other: u8) -> bool {
        self == other
    }
}

impl BaseInt for u8 {
}

impl BaseNum for u16 {
    open spec fn val(self) -> int {
        self as int
    }

    open spec fn fits(x: int) -> bool {
        u16::MIN <= x <= u16::MAX
    }

    proof fn lemma_val_fits(self) {
    }

    fn zero() -> u16 {
        0
    }

    fn one() -> u16 {
        1
    }

    fn add(self, other: u16) -> u16 {
        self + other
    }

    fn sub(self, other: u16) -> u16 {
        self - other
    }

    fn mul(self, other: u16) -> u16 {
        self * other
    }

    fn div(self, other: u16) -> (r: u16) {
        let q = self.checked_div(other);
        q.unwrap()
    }

    fn lt(self, other: u16) -> bool {
        self < other
    }

    fn gt(self, other: u16) -> bool {
        self > other
    }

    fn eq_val(self, other: u16) -> bool {
        self == other
    }
}

impl BaseInt for u16 {
}

impl BaseNum for u32 {
    open spec fn val(self) -> int {
        self as int
    }

    open spec fn fits(x: int) -> bool {
        u32::MIN <= x <= u32::MAX
    }

    proof fn lemma_val_fits(self) {
    }

    fn zero() -> u32 {
        0
    }

    fn one() -> u32 {
        1
    }

    fn add(self, other: u32) -> u32 {
        self + other
    }

    fn sub(self, other: u32) -> u32 {
        self - other
    }

    fn mul(self, other: u32) -> u32 {
        self * other
    }

    fn div(self, other: u32) -> (r: u32) {
        let q = self.checked_div(other);
        q.unwrap()
    }

    fn lt(self, other: u32) -> bool {
        self < other
    }

    fn gt(self, other: u32) -> bool {
        self > other
    }

    fn eq_val(self, other: u32) -> bool {
        self == other
    }
}

impl BaseInt for u32 {
}

impl BaseNum for u64 {
    open spec fn val(self) -> int {
        self as int
    }

    open spec fn fits(x: int) -> bool {
        u64::MIN <= x <= u64::MAX
    }

    proof fn lemma_val_fits(self) {
    }

    fn zero() -> u64 {
        0
    }

    fn one() -> u64 {
        1
    }

    fn add(self, other: u64) -> u64 {
        self + other
    }

    fn sub(self, other: u64) -> u64 {
        self - other
    }

    fn mul(self, other: u64) -> u64 {
        self * other
    }

    fn div(self, other: u64) -> (r: u64) {
        let q = self.checked_div(other);
        q.unwrap()
    }

    fn lt(self, other: u64) -> bool {
        self < other
    }

    fn gt(self, other: u64) -> bool {
        self > other
    }

    fn eq_val(self, other: u64) -> bool {
        self == other
    }
}

impl BaseInt for u64 {
}

impl BaseNum for usize {
    open spec fn val(self) -> int {
        self as int
    }

    open spec fn fits(x: int) -> bool {
        usize::MIN <= x <= usize::MAX
    }

    proof fn lemma_val_fits(self) {
    }

    fn zero() -> usize {
        0
    }

    fn one() -> usize {
        1
    }

    fn add(self, other: usize) -> usize {
        self + other
    }

    fn sub(self, other: usize) -> usize {
        self - other
    }

    fn mul(self, other: usize) -> usize {
        self * other
    }

    fn div(self, other: usize) -> (r: usize) {
        let q = self.checked_div(other);
        q.unwrap()
    }

    fn lt(self, other: usize) -> bool {
        self < other
    }

    fn gt(self, other: usize) -> bool {
        self > other
    }

    fn eq_val(self, other: usize) -> bool {
        self == other
    }
}

impl BaseInt for usize {
}

} // verus!
