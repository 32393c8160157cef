//! Affine positions in two and three dimensions. Points are distinguished
//! from free vectors at the type level: point minus point yields a vector,
//! point plus or minus a vector yields a point, and there is no point plus
//! point. Scalar scaling is available for affine blending.

use vstd::prelude::*;
use crate::scalar::{BaseNum, BaseSigned, IntScalar, abs_int, trunc_div, spec_pmin, spec_pmax};
use crate::common::{
    Dimension2, Dimension3, ComponentWise, ComponentWiseSigned, MetricSpace, LinearInterpolate,
};
use crate::vector::{Vector2, Vector3};

verus! {

/// An ordered pair of scalar components representing an affine position.
#[derive(Clone, Copy, Debug, PartialEq, Eq, Structural)]
pub struct Point2<T> {
    pub x: T,
    pub y: T,
}

/// An ordered triple of scalar components representing an affine position.
#[derive(Clone, Copy, Debug, PartialEq, Eq, Structural)]
pub struct Point3<T> {
    pub x: T,
    pub y: T,
    pub z: T,
}

impl<T: BaseNum> Point3<T> {
    /// The component selected by the axis tag `d`.
    pub open spec fn axis_spec(self, d: Dimension3) -> T {
        match d {
            Dimension3::X => self.x,
            Dimension3::Y => self.y,
            Dimension3::Z => self.z,
        }
    }

    /// The component at 0-based position `i`.
    pub open spec fn index_spec(self, i: int) -> T {
        if i == 0 {
            self.x
        } else if i == 1 {
            self.y
        } else {
            self.z
        }
    }

    pub fn new(x: T, y: T, z: T) -> (r: Point3<T>)
        ensures
            r == (Point3 { x, y, z }),
    {
        Point3 { x, y, z }
    }

    /// All three components set to `s`.
    pub fn from_value(s: T) -> (r: Point3<T>)
        ensures
            r == (Point3 { x: s, y: s, z: s }),
    {
        Point3::new(s, s, s)
    }

    /// The position with the components of `v`.
    pub fn from_vector(v: Vector3<T>) -> (r: Point3<T>)
        ensures
            r == (Point3 { x: v.x, y: v.y, z: v.z }),
    {
        Point3::new(v.x, v.y, v.z)
    }

    /// The free vector with the components of this position.
    pub fn to_vector(self) -> (r: Vector3<T>)
        ensures
            r == (Vector3 { x: self.x, y: self.y, z: self.z }),
    {
        Vector3::new(self.x, self.y, self.z)
    }

    /// The origin.
    pub fn zero() -> (r: Point3<T>)
        ensures
            r.x.val() == 0,
            r.y.val() == 0,
            r.z.val() == 0,
    {
        Point3::new(T::zero(), T::zero(), T::zero())
    }

    pub fn is_zero(self) -> (r: bool)
        ensures
            r == (self.x.val() == 0 && self.y.val() == 0 && self.z.val() == 0),
    {
        let z = T::zero();
        self.x.eq_val(z) && self.y.eq_val(z) && self.z.eq_val(z)
    }

    /// The point `(self[x], self[y], self[z])`: arbitrary axis reordering or
    /// duplication.
    pub fn permute(&self, x: Dimension3, y: Dimension3, z: Dimension3) -> (r: Point3<T>)
        ensures
            r == (Point3 { x: self.axis_spec(x), y: self.axis_spec(y), z: self.axis_spec(z) }),
    {
        Point3::new(self.axis(x), self.axis(y), self.axis(z))
    }

    /// The component at 0-based position `i`; positions 3 and above are a
    /// caller defect and excluded by precondition.
    pub fn index(&self, i: usize) -> (r: T)
        requires
            i < 3,
        ensures
            r == self.index_spec(i as int),
    {
        if i == 0 {
            self.x
        } else if i == 1 {
            self.y
        } else {
            self.z
        }
    }

    /// The component selected by the axis tag `d`; tags are exhaustive, so
    /// this cannot fail.
    pub fn axis(&self, d: Dimension3) -> (r: T)
        ensures
            r == self.axis_spec(d),
    {
        match d {
            Dimension3::X => self.x,
            Dimension3::Y => self.y,
            Dimension3::Z => self.z,
        }
    }

    /// Point minus point: the displacement vector from `other` to `self`.
    pub fn sub(self, other: Point3<T>) -> (r: Vector3<T>)
        requires
            T::fits(self.x.val() - other.x.val()),
            T::fits(self.y.val() - other.y.val()),
            T::fits(self.z.val() - other.z.val()),
        ensures
            r.x.val() == self.x.val() - other.x.val(),
            r.y.val() == self.y.val() - other.y.val(),
            r.z.val() == self.z.val() - other.z.val(),
    {
        Vector3::new(self.x.sub(other.x), self.y.sub(other.y), self.z.sub(other.z))
    }

    /// Point plus vector: `self` displaced by `v`.
    pub fn add_vector(self, v: Vector3<T>) -> (r: Point3<T>)
        requires
            T::fits(self.x.val() + v.x.val()),
            T::fits(self.y.val() + v.y.val()),
            T::fits(self.z.val() + v.z.val()),
        ensures
            r.x.val() == self.x.val() + v.x.val(),
            r.y.val() == self.y.val() + v.y.val(),
            r.z.val() == self.z.val() + v.z.val(),
    {
        Point3::new(self.x.add(v.x), self.y.add(v.y), self.z.add(v.z))
    }

    pub fn add_vector_assign(&mut self, v: Vector3<T>)
        requires
            T::fits(old(self).x.val() + v.x.val()),
            T::fits(old(self).y.val() + v.y.val()),
            T::fits(old(self).z.val() + v.z.val()),
        ensures
            final(self).x.val() == old(self).x.val() + v.x.val(),
            final(self).y.val() == old(self).y.val() + v.y.val(),
            final(self).z.val() == old(self).z.val() + v.z.val(),
    {
        let s = *self;
        *self = s.add_vector(v);
    }

    /// Point minus vector: `self` displaced against `v`.
    pub fn sub_vector(self, v: Vector3<T>) -> (r: Point3<T>)
        requires
            T::fits(self.x.val() - v.x.val()),
            T::fits(self.y.val() - v.y.val()),
            T::fits(self.z.val() - v.z.val()),
        ensures
            r.x.val() == self.x.val() - v.x.val(),
            r.y.val() == self.y.val() - v.y.val(),
            r.z.val() == self.z.val() - v.z.val(),
    {
        Point3::new(self.x.sub(v.x), self.y.sub(v.y), self.z.sub(v.z))
    }

    pub fn sub_vector_assign(&mut self, v: Vector3<T>)
        requires
            T::fits(old(self).x.val() - v.x.val()),
            T::fits(old(self).y.val() - v.y.val()),
            T::fits(old(self).z.val() - v.z.val()),
        ensures
            final(self).x.val() == old(self).x.val() - v.x.val(),
            final(self).y.val() == old(self).y.val() - v.y.val(),
            final(self).z.val() == old(self).z.val() - v.z.val(),
    {
        let s = *self;
        *self = s.sub_vector(v);
    }

    /// Affine scaling, used for blending positions.
    pub fn mul_scalar(self, scalar: T) -> (r: Point3<T>)
        requires
            T::fits(self.x.val() * scalar.val()),
            T::fits(self.y.val() * scalar.val()),
            T::fits(self.z.val() * scalar.val()),
        ensures
            r.x.val() == self.x.val() * scalar.val(),
            r.y.val() == self.y.val() * scalar.val(),
            r.z.val() == self.z.val() * scalar.val(),
    {
        Point3::new(self.x.mul(scalar), self.y.mul(scalar), self.z.mul(scalar))
    }

    pub fn div_scalar(self, scalar: T) -> (r: Point3<T>)
        requires
            scalar.val() != 0,
            T::fits(trunc_div(self.x.val(), scalar.val())),
            T::fits(trunc_div(self.y.val(), scalar.val())),
            T::fits(trunc_div(self.z.val(), scalar.val())),
        ensures
            r.x.val() == trunc_div(self.x.val(), scalar.val()),
            r.y.val() == trunc_div(self.y.val(), scalar.val()),
            r.z.val() == trunc_div(self.z.val(), scalar.val()),
    {
        Point3::new(self.x.div(scalar), self.y.div(scalar), self.z.div(scalar))
    }
}

impl<T: BaseSigned> Point3<T> {
    pub fn neg(self) -> (r: Point3<T>)
        requires
            T::fits(-self.x.val()),
            T::fits(-self.y.val()),
            T::fits(-self.z.val()),
        ensures
            r.x.val() == -self.x.val(),
            r.y.val() == -self.y.val(),
            r.z.val() == -self.z.val(),
    {
        Point3::new(self.x.neg(), self.y.neg(), self.z.neg())
    }
}

impl<T: BaseNum> ComponentWise for Point3<T> {
    type Scalar = T;

    type Dimension = Dimension3;

    open spec fn min_component_spec(self) -> T {
        spec_pmin(self.x, spec_pmin(self.y, self.z))
    }

    open spec fn max_component_spec(self) -> T {
        spec_pmax(self.x, spec_pmax(self.y, self.z))
    }

    open spec fn max_dimension_spec(self) -> Dimension3 {
        if self.x.val() > self.y.val() && self.x.val() > self.z.val() {
            Dimension3::X
        } else if self.y.val() > self.x.val() && self.y.val() > self.z.val() {
            Dimension3::Y
        } else {
            Dimension3::Z
        }
    }

    open spec fn component_min_spec(self, other: Self) -> Self {
        Point3 {
            x: spec_pmin(self.x, other.x),
            y: spec_pmin(self.y, other.y),
            z: spec_pmin(self.z, other.z),
        }
    }

    open spec fn component_max_spec(self, other: Self) -> Self {
        Point3 {
            x: spec_pmax(self.x, other.x),
            y: spec_pmax(self.y, other.y),
            z: spec_pmax(self.z, other.z),
        }
    }

    fn min_component(self) -> T {
        crate::scalar::partial_min(self.x, crate::scalar::partial_min(self.y, self.z))
    }

    fn max_component(self) -> T {
        crate::scalar::partial_max(self.x, crate::scalar::partial_max(self.y, self.z))
    }

    fn max_dimension(self) -> Dimension3 {
        if self.x.gt(self.y) && self.x.gt(self.z) {
            Dimension3::X
        } else if self.y.gt(self.x) && self.y.gt(self.z) {
            Dimension3::Y
        } else {
            Dimension3::Z
        }
    }

    fn min(self, other: Self) -> Self {
        Point3::new(
            crate::scalar::partial_min(self.x, other.x),
            crate::scalar::partial_min(self.y, other.y),
            crate::scalar::partial_min(self.z, other.z),
        )
    }

    fn max(self, other: Self) -> Self {
        Point3::new(
            crate::scalar::partial_max(self.x, other.x),
            crate::scalar::partial_max(self.y, other.y),
            crate::scalar::partial_max(self.z, other.z),
        )
    }
}

impl<T: BaseSigned> ComponentWiseSigned for Point3<T> {
    open spec fn abs_req(self) -> bool {
        &&& T::fits(abs_int(self.x.val()))
        &&& T::fits(abs_int(self.y.val()))
        &&& T::fits(abs_int(self.z.val()))
    }

    open spec fn abs_post(self, r: Self) -> bool {
        &&& r.x.val() == abs_int(self.x.val())
        &&& r.y.val() == abs_int(self.y.val())
        &&& r.z.val() == abs_int(self.z.val())
    }

    open spec fn neg_req(self) -> bool {
        &&& T::fits(-self.x.val())
        &&& T::fits(-self.y.val())
        &&& T::fits(-self.z.val())
    }

    open spec fn neg_post(self, r: Self) -> bool {
        &&& r.x.val() == -self.x.val()
        &&& r.y.val() == -self.y.val()
        &&& r.z.val() == -self.z.val()
    }

    fn abs(self) -> Self {
        Point3::new(self.x.abs(), self.y.abs(), self.z.abs())
    }

    fn neg(self) -> Self {
        Point3::new(self.x.neg(), self.y.neg(), self.z.neg())
    }
}

impl<T: BaseNum> MetricSpace<Point3<T>> for Point3<T> {
    type Scalar = T;

    open spec fn distance_squared_req(self, other: Point3<T>) -> bool {
        &&& T::fits(self.x.val() - other.x.val())
        &&& T::fits(self.y.val() - other.y.val())
        &&& T::fits(self.z.val() - other.z.val())
        &&& T::fits((self.x.val() - other.x.val()) * (self.x.val() - other.x.val()))
        &&& T::fits((self.y.val() - other.y.val()) * (self.y.val() - other.y.val()))
        &&& T::fits((self.z.val() - other.z.val()) * (self.z.val() - other.z.val()))
        &&& T::fits(
            (self.x.val() - other.x.val()) * (self.x.val() - other.x.val()) + (self.y.val()
                - other.y.val()) * (self.y.val() - other.y.val()),
        )
        &&& T::fits(
            (self.x.val() - other.x.val()) * (self.x.val() - other.x.val()) + (self.y.val()
                - other.y.val()) * (self.y.val() - other.y.val()) + (self.z.val() - other.z.val())
                * (self.z.val() - other.z.val()),
        )
    }

    open spec fn distance_squared_spec(self, other: Point3<T>) -> int {
        (self.x.val() - other.x.val()) * (self.x.val() - other.x.val()) + (self.y.val()
            - other.y.val()) * (self.y.val() - other.y.val()) + (self.z.val() - other.z.val()) * (
        self.z.val() - other.z.val())
    }

    fn distance_squared(self, other: Point3<T>) -> T {
        let d = self.sub(other);
        d.magnitude_squared()
    }
}

impl<T: BaseNum> LinearInterpolate for Point3<T> {
    type Scalar = T;

    open spec fn lerp_req(self, other: Self, t: T) -> bool {
        &&& T::fits(1 - t.val())
        &&& T::fits(self.x.val() * (1 - t.val()))
        &&& T::fits(self.y.val() * (1 - t.val()))
        &&& T::fits(self.z.val() * (1 - t.val()))
        &&& T::fits(other.x.val() * t.val())
        &&& T::fits(other.y.val() * t.val())
        &&& T::fits(other.z.val() * t.val())
        &&& T::fits(self.x.val() * (1 - t.val()) + other.x.val() * t.val())
        &&& T::fits(self.y.val() * (1 - t.val()) + other.y.val() * t.val())
        &&& T::fits(self.z.val() * (1 - t.val()) + other.z.val() * t.val())
    }

    open spec fn lerp_post(self, other: Self, t: T, r: Self) -> bool {
        &&& r.x.val() == self.x.val() * (1 - t.val()) + other.x.val() * t.val()
        &&& r.y.val() == self.y.val() * (1 - t.val()) + other.y.val() * t.val()
        &&& r.z.val() == self.z.val() * (1 - t.val()) + other.z.val() * t.val()
    }

    fn lerp(self, other: Self, t: T) -> Self {
        let u = T::one().sub(t);
        let a = self.mul_scalar(u);
        let b = other.mul_scalar(t);
        Point3::new(a.x.add(b.x), a.y.add(b.y), a.z.add(b.z))
    }
}

impl<T: BaseNum> Point2<T> {
    /// The component selected by the axis tag `d`.
    pub open spec fn axis_spec(self, d: Dimension2) -> T {
        match d {
            Dimension2::X => self.x,
            Dimension2::Y => self.y,
        }
    }

    /// The component at 0-based position `i`.
    pub open spec fn index_spec(self, i: int) -> T {
        if i == 0 {
            self.x
        } else {
            self.y
        }
    }

    fn new(x: T, y: T) -> (r: Point2<T>)
        ensures
            r == (Point2 { x, y }),
    {
        Point2 { x, y }
    }

    /// Both components set to `s`.
    pub fn from_value(s: T) -> (r: Point2<T>)
        ensures
            r == (Point2 { x: s, y: s }),
    {
        Point2::new(s, s)
    }

    /// The position with the components of `v`.
    pub fn from_vector2(v: Vector2<T>) -> (r: Point2<T>)
        ensures
            r == (Point2 { x: v.x, y: v.y }),
    {
        Point2::new(v.x, v.y)
    }

    /// The position with the first two components of `v`.
    pub fn from_vector3(v: Vector3<T>) -> (r: Point2<T>)
        ensures
            r == (Point2 { x: v.x, y: v.y }),
    {
        Point2::new(v.x, v.y)
    }

    /// The position with the first two components of `p`.
    pub fn from_point3(p: Point3<T>) -> (r: Point2<T>)
        ensures
            r == (Point2 { x: p.x, y: p.y }),
    {
        Point2::new(p.x, p.y)
    }

    /// The origin.
    pub fn zero() -> (r: Point2<T>)
        ensures
            r.x.val() == 0,
            r.y.val() == 0,
    {
        Point2::new(T::zero(), T::zero())
    }

    pub fn is_zero(self) -> (r: bool)
        ensures
            r == (self.x.val() == 0 && self.y.val() == 0),
    {
        let z = T::zero();
        self.x.eq_val(z) && self.y.eq_val(z)
    }

    /// The component at 0-based position `i`; positions 2 and above are a
    /// caller defect and excluded by precondition.
    pub fn index(&self, i: usize) -> (r: T)
        requires
            i < 2,
        ensures
            r == self.index_spec(i as int),
    {
        if i == 0 {
            self.x
        } else {
            self.y
        }
    }

    /// The component selected by the axis tag `d`; tags are exhaustive, so
    /// this cannot fail.
    pub fn axis(&self, d: Dimension2) -> (r: T)
        ensures
            r == self.axis_spec(d),
    {
        match d {
            Dimension2::X => self.x,
            Dimension2::Y => self.y,
        }
    }

    /// Point minus point: the displacement vector from `other` to `self`.
    pub fn sub(self, other: Point2<T>) -> (r: Vector2<T>)
        requires
            T::fits(self.x.val() - other.x.val()),
            T::fits(self.y.val() - other.y.val()),
        ensures
            r.x.val() == self.x.val() - other.x.val(),
            r.y.val() == self.y.val() - other.y.val(),
    {
        Vector2::new(self.x.sub(other.x), self.y.sub(other.y))
    }

    /// Point plus vector: `self` displaced by `v`.
    pub fn add_vector(self, v: Vector2<T>) -> (r: Point2<T>)
        requires
            T::fits(self.x.val() + v.x.val()),
            T::fits(self.y.val() + v.y.val()),
        ensures
            r.x.val() == self.x.val() + v.x.val(),
            r.y.val() == self.y.val() + v.y.val(),
    {
        Point2::new(self.x.add(v.x), self.y.add(v.y))
    }

    pub fn add_vector_assign(&mut self, v: Vector2<T>)
        requires
            T::fits(old(self).x.val() + v.x.val()),
            T::fits(old(self).y.val() + v.y.val()),
        ensures
            final(self).x.val() == old(self).x.val() + v.x.val(),
            final(self).y.val() == old(self).y.val() + v.y.val(),
    {
        let s = *self;
        *self = s.add_vector(v);
    }

    /// Point minus vector: `self` displaced against `v`.
    pub fn sub_vector(self, v: Vector2<T>) -> (r: Point2<T>)
        requires
            T::fits(self.x.val() - v.x.val()),
            T::fits(self.y.val() - v.y.val()),
        ensures
            r.x.val() == self.x.val() - v.x.val(),
            r.y.val() == self.y.val() - v.y.val(),
    {
        Point2::new(self.x.sub(v.x), self.y.sub(v.y))
    }

    pub fn sub_vector_assign(&mut self, v: Vector2<T>)
        requires
            T::fits(old(self).x.val() - v.x.val()),
            T::fits(old(self).y.val() - v.y.val()),
        ensures
            final(self).x.val() == old(self).x.val() - v.x.val(),
            final(self).y.val() == old(self).y.val() - v.y.val(),
    {
        let s = *self;
        *self = s.sub_vector(v);
    }

    /// Affine scaling, used for blending positions.
    pub fn mul_scalar(self, scalar: T) -> (r: Point2<T>)
        requires
            T::fits(self.x.val() * scalar.val()),
            T::fits(self.y.val() * scalar.val()),
        ensures
            r.x.val() == self.x.val() * scalar.val(),
            r.y.val() == self.y.val() * scalar.val(),
    {
        Point2::new(self.x.mul(scalar), self.y.mul(scalar))
    }

    pub fn div_scalar(self, scalar: T) -> (r: Point2<T>)
        requires
            scalar.val() != 0,
            T::fits(trunc_div(self.x.val(), scalar.val())),
            T::fits(trunc_div(self.y.val(), scalar.val())),
        ensures
            r.x.val() == trunc_div(self.x.val(), scalar.val()),
            r.y.val() == trunc_div(self.y.val(), scalar.val()),
    {
        Point2::new(self.x.div(scalar), self.y.div(scalar))
    }
}

impl<T: BaseSigned> Point2<T> {
    pub fn neg(self) -> (r: Point2<T>)
        requires
            T::fits(-self.x.val()),
            T::fits(-self.y.val()),
        ensures
            r.x.val() == -self.x.val(),
            r.y.val() == -self.y.val(),
    {
        Point2::new(self.x.neg(), self.y.neg())
    }
}

impl<T: BaseNum> ComponentWise for Point2<T> {
    type Scalar = T;

    type Dimension = Dimension2;

    open spec fn min_component_spec(self) -> T {
        spec_pmin(self.x, self.y)
    }

    open spec fn max_component_spec(self) -> T {
        spec_pmax(self.x, self.y)
    }

    open spec fn max_dimension_spec(self) -> Dimension2 {
        if self.x.val() > self.y.val() {
            Dimension2::X
        } else {
            Dimension2::Y
        }
    }

    open spec fn component_min_spec(self, other: Self) -> Self {
        Point2 { x: spec_pmin(self.x, other.x), y: spec_pmin(self.y, other.y) }
    }

    open spec fn component_max_spec(self, other: Self) -> Self {
        Point2 { x: spec_pmax(self.x, other.x), y: spec_pmax(self.y, other.y) }
    }

    fn min_component(self) -> T {
        crate::scalar::partial_min(self.x, self.y)
    }

    fn max_component(self) -> T {
        crate::scalar::partial_max(self.x, self.y)
    }

    fn max_dimension(self) -> Dimension2 {
        if self.x.gt(self.y) {
            Dimension2::X
        } else {
            Dimension2::Y
        }
    }

    fn min(self, other: Self) -> Self {
        Point2::new(
            crate::scalar::partial_min(self.x, other.x),
            crate::scalar::partial_min(self.y, other.y),
        )
    }

    fn max(self, other: Self) -> Self {
        Point2::new(
            crate::scalar::partial_max(self.x, other.x),
            crate::scalar::partial_max(self.y, other.y),
        )
    }
}

impl<T: BaseSigned> ComponentWiseSigned for Point2<T> {
    open spec fn abs_req(self) -> bool {
        &&& T::fits(abs_int(self.x.val()))
        &&& T::fits(abs_int(self.y.val()))
    }

    open spec fn abs_post(self, r: Self) -> bool {
        &&& r.x.val() == abs_int(self.x.val())
        &&& r.y.val() == abs_int(self.y.val())
    }

    open spec fn neg_req(self) -> bool {
        &&& T::fits(-self.x.val())
        &&& T::fits(-self.y.val())
    }

    open spec fn neg_post(self, r: Self) -> bool {
        &&& r.x.val() == -self.x.val()
        &&& r.y.val() == -self.y.val()
    }

    fn abs(self) -> Self {
        Point2::new(self.x.abs(), self.y.abs())
    }

    fn neg(self) -> Self {
        Point2::new(self.x.neg(), self.y.neg())
    }
}

impl<T: BaseNum> MetricSpace<Point2<T>> for Point2<T> {
    type Scalar = T;

    open spec fn distance_squared_req(self, other: Point2<T>) -> bool {
        &&& T::fits(self.x.val() - other.x.val())
        &&& T::fits(self.y.val() - other.y.val())
        &&& T::fits((self.x.val() - other.x.val()) * (self.x.val() - other.x.val()))
        &&& T::fits((self.y.val() - other.y.val()) * (self.y.val() - other.y.val()))
        &&& T::fits(
            (self.x.val() - other.x.val()) * (self.x.val() - other.x.val()) + (self.y.val()
                - other.y.val()) * (self.y.val() - other.y.val()),
        )
    }

    open spec fn distance_squared_spec(self, other: Point2<T>) -> int {
        (self.x.val() - other.x.val()) * (self.x.val() - other.x.val()) + (self.y.val()
            - other.y.val()) * (self.y.val() - other.y.val())
    }

    fn distance_squared(self, other: Point2<T>) -> T {
        let d = self.sub(other);
        d.magnitude_squared()
    }
}

impl<T: BaseNum> LinearInterpolate for Point2<T> {
    type Scalar = T;

    open spec fn lerp_req(self, other: Self, t: T) -> bool {
        &&& T::fits(1 - t.val())
        &&& T::fits(self.x.val() * (1 - t.val()))
        &&& T::fits(self.y.val() * (1 - t.val()))
        &&& T::fits(other.x.val() * t.val())
        &&& T::fits(other.y.val() * t.val())
        &&& T::fits(self.x.val() * (1 - t.val()) + other.x.val() * t.val())
        &&& T::fits(self.y.val() * (1 - t.val()) + other.y.val() * t.val())
    }

    open spec fn lerp_post(self, other: Self, t: T, r: Self) -> bool {
        &&& r.x.val() == self.x.val() * (1 - t.val()) + other.x.val() * t.val()
        &&& r.y.val() == self.y.val() * (1 - t.val()) + other.y.val() * t.val()
    }

    fn lerp(self, other: Self, t: T) -> Self {
        let u = T::one().sub(t);
        let a = self.mul_scalar(u);
        let b = other.mul_scalar(t);
        Point2::new(a.x.add(b.x), a.y.add(b.y))
    }
}

/// Law: linear interpolation of positions hits its endpoints. At parameter
/// zero the result carries the first operand's components, at parameter one
/// the second's.
pub proof fn lemma_lerp_endpoints_point3<T: BaseNum>(a: Point3<T>, b: Point3<T>, t: T, r: Point3<
    T,
>)
    requires
        a.lerp_post(b, t, r),
    ensures
        t.val() == 0 ==> r.x.val() == a.x.val() && r.y.val() == a.y.val() && r.z.val()
            == a.z.val(),
        t.val() == 1 ==> r.x.val() == b.x.val() && r.y.val() == b.y.val() && r.z.val()
            == b.z.val(),
{
    crate::common::lemma_lerp_formula_endpoints(a.x.val(), b.x.val(), t.val());
    crate::common::lemma_lerp_formula_endpoints(a.y.val(), b.y.val(), t.val());
    crate::common::lemma_lerp_formula_endpoints(a.z.val(), b.z.val(), t.val());
}

/// Law: linear interpolation of positions hits its endpoints. At parameter
/// zero the result carries the first operand's components, at parameter one
/// the second's.
pub proof fn lemma_lerp_endpoints_point2<T: BaseNum>(a: Point2<T>, b: Point2<T>, t: T, r: Point2<
    T,
>)
    requires
        a.lerp_post(b, t, r),
    ensures
        t.val() == 0 ==> r.x.val() == a.x.val() && r.y.val() == a.y.val(),
        t.val() == 1 ==> r.x.val() == b.x.val() && r.y.val() == b.y.val(),
{
    crate::common::lemma_lerp_formula_endpoints(a.x.val(), b.x.val(), t.val());
    crate::common::lemma_lerp_formula_endpoints(a.y.val(), b.y.val(), t.val());
}

/// Integer-scalar aliases of the concrete point types.
pub type Point2i = Point2<IntScalar>;

pub type Point3i = Point3<IntScalar>;

} // verus!
