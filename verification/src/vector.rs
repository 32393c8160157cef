//! Free vectors in two and three dimensions: coordinate tuples with
//! vector-space arithmetic, component-wise folds, inner and cross products,
//! and linear interpolation. Every operation's contract states the exact
//! component formula over the scalar model.

use vstd::prelude::*;
use crate::scalar::{BaseNum, BaseSigned, IntScalar, abs_int, spec_pmin, spec_pmax};
use crate::common::{
    Dimension2, Dimension3, ComponentWise, ComponentWiseSigned, InnerProduct, CrossProduct,
    MetricSpace, LinearInterpolate,
};

verus! {

/// An ordered pair of scalar components.
#[derive(Clone, Copy, Debug, PartialEq, Eq, Structural)]
pub struct Vector2<T> {
    pub x: T,
    pub y: T,
}

/// An ordered triple of scalar components.
#[derive(Clone, Copy, Debug, PartialEq, Eq, Structural)]
pub struct Vector3<T> {
    pub x: T,
    pub y: T,
    pub z: T,
}

impl<T: BaseNum> Vector3<T> {
    /// The component selected by the axis tag `d`.
    pub open spec fn axis_spec(self, d: Dimension3) -> T {
        match d {
            Dimension3::X => self.x,
            Dimension3::Y => self.y,
            Dimension3::Z => self.z,
        }
    }

    /// The component at 0-based position `i`.
    pub open spec fn index_spec(self, i: int) -> T {
        if i == 0 {
            self.x
        } else if i == 1 {
            self.y
        } else {
            self.z
        }
    }

    pub fn new(x: T, y: T, z: T) -> (r: Vector3<T>)
        ensures
            r == (Vector3 { x, y, z }),
    {
        Vector3 { x, y, z }
    }

    /// All three components set to `s`.
    pub fn from_value(s: T) -> (r: Vector3<T>)
        ensures
            r == (Vector3 { x: s, y: s, z: s }),
    {
        Vector3::new(s, s, s)
    }

    pub fn unit_x() -> (r: Vector3<T>)
        ensures
            r.x.val() == 1,
            r.y.val() == 0,
            r.z.val() == 0,
    {
        Vector3::new(T::one(), T::zero(), T::zero())
    }

    pub fn unit_y() -> (r: Vector3<T>)
        ensures
            r.x.val() == 0,
            r.y.val() == 1,
            r.z.val() == 0,
    {
        Vector3::new(T::zero(), T::one(), T::zero())
    }

    pub fn unit_z() -> (r: Vector3<T>)
        ensures
            r.x.val() == 0,
            r.y.val() == 0,
            r.z.val() == 1,
    {
        Vector3::new(T::zero(), T::zero(), T::one())
    }

    /// The all-zero vector.
    pub fn zero() -> (r: Vector3<T>)
        ensures
            r.x.val() == 0,
            r.y.val() == 0,
            r.z.val() == 0,
    {
        Vector3::new(T::zero(), T::zero(), T::zero())
    }

    pub fn is_zero(self) -> (r: bool)
        ensures
            r == (self.x.val() == 0 && self.y.val() == 0 && self.z.val() == 0),
    {
        let z = T::zero();
        self.x.eq_val(z) && self.y.eq_val(z) && self.z.eq_val(z)
    }

    /// The vector `(self[x], self[y], self[z])`: arbitrary axis reordering
    /// or duplication.
    pub fn permute(&self, x: Dimension3, y: Dimension3, z: Dimension3) -> (r: Vector3<T>)
        ensures
            r == (Vector3 {
                x: self.axis_spec(x),
                y: self.axis_spec(y),
                z: self.axis_spec(z),
            }),
    {
        Vector3::new(self.axis(x), self.axis(y), self.axis(z))
    }

    /// The component at 0-based position `i`; positions 3 and above are a
    /// caller defect and excluded by precondition.
    pub fn index(&self, i: usize) -> (r: T)
        requires
            i < 3,
        ensures
            r == self.index_spec(i as int),
    {
        if i == 0 {
            self.x
        } else if i == 1 {
            self.y
        } else {
            self.z
        }
    }

    /// The component selected by the axis tag `d`; tags are exhaustive, so
    /// this cannot fail.
    pub fn axis(&self, d: Dimension3) -> (r: T)
        ensures
            r == self.axis_spec(d),
    {
        match d {
            Dimension3::X => self.x,
            Dimension3::Y => self.y,
            Dimension3::Z => self.z,
        }
    }

    pub fn add(self, other: Vector3<T>) -> (r: Vector3<T>)
        requires
            T::fits(self.x.val() + other.x.val()),
            T::fits(self.y.val() + other.y.val()),
            T::fits(self.z.val() + other.z.val()),
        ensures
            r.x.val() == self.x.val() + other.x.val(),
            r.y.val() == self.y.val() + other.y.val(),
            r.z.val() == self.z.val() + other.z.val(),
    {
        Vector3::new(self.x.add(other.x), self.y.add(other.y), self.z.add(other.z))
    }

    pub fn add_assign(&mut self, other: Vector3<T>)
        requires
            T::fits(old(self).x.val() + other.x.val()),
            T::fits(old(self).y.val() + other.y.val()),
            T::fits(old(self).z.val() + other.z.val()),
        ensures
            final(self).x.val() == old(self).x.val() + other.x.val(),
            final(self).y.val() == old(self).y.val() + other.y.val(),
            final(self).z.val() == old(self).z.val() + other.z.val(),
    {
        let s = *self;
        *self = s.add(other);
    }

    pub fn sub(self, other: Vector3<T>) -> (r: Vector3<T>)
        requires
            T::fits(self.x.val() - other.x.val()),
            T::fits(self.y.val() - other.y.val()),
            T::fits(self.z.val() - other.z.val()),
        ensures
            r.x.val() == self.x.val() - other.x.val(),
            r.y.val() == self.y.val() - other.y.val(),
            r.z.val() == self.z.val() - other.z.val(),
    {
        Vector3::new(self.x.sub(other.x), self.y.sub(other.y), self.z.sub(other.z))
    }

    pub fn sub_assign(&mut self, other: Vector3<T>)
        requires
            T::fits(old(self).x.val() - other.x.val()),
            T::fits(old(self).y.val() - other.y.val()),
            T::fits(old(self).z.val() - other.z.val()),
        ensures
            final(self).x.val() == old(self).x.val() - other.x.val(),
            final(self).y.val() == old(self).y.val() - other.y.val(),
            final(self).z.val() == old(self).z.val() - other.z.val(),
    {
        let s = *self;
        *self = s.sub(other);
    }

    pub fn mul_scalar(self, scalar: T) -> (r: Vector3<T>)
        requires
            T::fits(self.x.val() * scalar.val()),
            T::fits(self.y.val() * scalar.val()),
            T::fits(self.z.val() * scalar.val()),
        ensures
            r.x.val() == self.x.val() * scalar.val(),
            r.y.val() == self.y.val() * scalar.val(),
            r.z.val() == self.z.val() * scalar.val(),
    {
        Vector3::new(self.x.mul(scalar), self.y.mul(scalar), self.z.mul(scalar))
    }

    pub fn div_scalar(self, scalar: T) -> (r: Vector3<T>)
        requires
            scalar.val() != 0,
            T::fits(crate::scalar::trunc_div(self.x.val(), scalar.val())),
            T::fits(crate::scalar::trunc_div(self.y.val(), scalar.val())),
            T::fits(crate::scalar::trunc_div(self.z.val(), scalar.val())),
        ensures
            r.x.val() == crate::scalar::trunc_div(self.x.val(), scalar.val()),
            r.y.val() == crate::scalar::trunc_div(self.y.val(), scalar.val()),
            r.z.val() == crate::scalar::trunc_div(self.z.val(), scalar.val()),
    {
        Vector3::new(self.x.div(scalar), self.y.div(scalar), self.z.div(scalar))
    }

    /// The sum of the squares of the components: the inner product of the
    /// vector with itself.
    pub fn magnitude_squared(self) -> (r: T)
        requires
            self.dot_req(self),
        ensures
            r.val() == self.dot_spec(self),
    {
        self.dot(self)
    }
}

impl<T: BaseSigned> Vector3<T> {
    pub fn neg(self) -> (r: Vector3<T>)
        requires
            T::fits(-self.x.val()),
            T::fits(-self.y.val()),
            T::fits(-self.z.val()),
        ensures
            r.x.val() == -self.x.val(),
            r.y.val() == -self.y.val(),
            r.z.val() == -self.z.val(),
    {
        Vector3::new(self.x.neg(), self.y.neg(), self.z.neg())
    }
}

impl<T: BaseNum> ComponentWise for Vector3<T> {
    type Scalar = T;

    type Dimension = Dimension3;

    open spec fn min_component_spec(self) -> T {
        spec_pmin(self.x, spec_pmin(self.y, self.z))
    }

    open spec fn max_component_spec(self) -> T {
        spec_pmax(self.x, spec_pmax(self.y, self.z))
    }

    open spec fn max_dimension_spec(self) -> Dimension3 {
        if self.x.val() > self.y.val() && self.x.val() > self.z.val() {
            Dimension3::X
        } else if self.y.val() > self.x.val() && self.y.val() > self.z.val() {
            Dimension3::Y
        } else {
            Dimension3::Z
        }
    }

    open spec fn component_min_spec(self, other: Self) -> Self {
        Vector3 {
            x: spec_pmin(self.x, other.x),
            y: spec_pmin(self.y, other.y),
            z: spec_pmin(self.z, other.z),
        }
    }

    open spec fn component_max_spec(self, other: Self) -> Self {
        Vector3 {
            x: spec_pmax(self.x, other.x),
            y: spec_pmax(self.y, other.y),
            z: spec_pmax(self.z, other.z),
        }
    }

    fn min_component(self) -> T {
        crate::scalar::partial_min(self.x, crate::scalar::partial_min(self.y, self.z))
    }

    fn max_component(self) -> T {
        crate::scalar::partial_max(self.x, crate::scalar::partial_max(self.y, self.z))
    }

    fn max_dimension(self) -> Dimension3 {
        if self.x.gt(self.y) && self.x.gt(self.z) {
            Dimension3::X
        } else if self.y.gt(self.x) && self.y.gt(self.z) {
            Dimension3::Y
        } else {
            Dimension3::Z
        }
    }

    fn min(self, other: Self) -> Self {
        Vector3::new(
            crate::scalar::partial_min(self.x, other.x),
            crate::scalar::partial_min(self.y, other.y),
            crate::scalar::partial_min(self.z, other.z),
        )
    }

    fn max(self, other: Self) -> Self {
        Vector3::new(
            crate::scalar::partial_max(self.x, other.x),
            crate::scalar::partial_max(self.y, other.y),
            crate::scalar::partial_max(self.z, other.z),
        )
    }
}

impl<T: BaseSigned> ComponentWiseSigned for Vector3<T> {
    open spec fn abs_req(self) -> bool {
        &&& T::fits(abs_int(self.x.val()))
        &&& T::fits(abs_int(self.y.val()))
        &&& T::fits(abs_int(self.z.val()))
    }

    open spec fn abs_post(self, r: Self) -> bool {
        &&& r.x.val() == abs_int(self.x.val())
        &&& r.y.val() == abs_int(self.y.val())
        &&& r.z.val() == abs_int(self.z.val())
    }

    open spec fn neg_req(self) -> bool {
        &&& T::fits(-self.x.val())
        &&& T::fits(-self.y.val())
        &&& T::fits(-self.z.val())
    }

    open spec fn neg_post(self, r: Self) -> bool {
        &&& r.x.val() == -self.x.val()
        &&& r.y.val() == -self.y.val()
        &&& r.z.val() == -self.z.val()
    }

    fn abs(self) -> Self {
        Vector3::new(self.x.abs(), self.y.abs(), self.z.abs())
    }

    fn neg(self) -> Self {
        Vector3::new(self.x.neg(), self.y.neg(), self.z.neg())
    }
}

impl<T: BaseNum> InnerProduct<Vector3<T>> for Vector3<T> {
    type Scalar = T;

    open spec fn dot_req(self, other: Vector3<T>) -> bool {
        &&& T::fits(self.x.val() * other.x.val())
        &&& T::fits(self.y.val() * other.y.val())
        &&& T::fits(self.z.val() * other.z.val())
        &&& T::fits(self.x.val() * other.x.val() + self.y.val() * other.y.val())
        &&& T::fits(
            self.x.val() * other.x.val() + self.y.val() * other.y.val() + self.z.val()
                * other.z.val(),
        )
    }

    open spec fn dot_spec(self, other: Vector3<T>) -> int {
        self.x.val() * other.x.val() + self.y.val() * other.y.val() + self.z.val() * other.z.val()
    }

    fn dot(self, other: Vector3<T>) -> T {
        let a = self.x.mul(other.x);
        let b = self.y.mul(other.y);
        let c = self.z.mul(other.z);
        a.add(b).add(c)
    }
}

impl<T: BaseNum> CrossProduct<Vector3<T>> for Vector3<T> {
    type CrossOutput = Vector3<T>;

    open spec fn cross_req(self, other: Vector3<T>) -> bool {
        &&& T::fits(self.y.val() * other.z.val())
        &&& T::fits(self.z.val() * other.y.val())
        &&& T::fits(self.y.val() * other.z.val() - self.z.val() * other.y.val())
        &&& T::fits(self.z.val() * other.x.val())
        &&& T::fits(self.x.val() * other.z.val())
        &&& T::fits(self.z.val() * other.x.val() - self.x.val() * other.z.val())
        &&& T::fits(self.x.val() * other.y.val())
        &&& T::fits(self.y.val() * other.x.val())
        &&& T::fits(self.x.val() * other.y.val() - self.y.val() * other.x.val())
    }

    open spec fn cross_post(self, other: Vector3<T>, r: Vector3<T>) -> bool {
        &&& r.x.val() == self.y.val() * other.z.val() - self.z.val() * other.y.val()
        &&& r.y.val() == self.z.val() * other.x.val() - self.x.val() * other.z.val()
        &&& r.z.val() == self.x.val() * other.y.val() - self.y.val() * other.x.val()
    }

    fn cross(self, other: Vector3<T>) -> Vector3<T> {
        Vector3::new(
            (self.y.mul(other.z)).sub(self.z.mul(other.y)),
            (self.z.mul(other.x)).sub(self.x.mul(other.z)),
            (self.x.mul(other.y)).sub(self.y.mul(other.x)),
        )
    }
}

impl<T: BaseNum> MetricSpace<Vector3<T>> for Vector3<T> {
    type Scalar = T;

    open spec fn distance_squared_req(self, other: Vector3<T>) -> bool {
        &&& T::fits(self.x.val() - other.x.val())
        &&& T::fits(self.y.val() - other.y.val())
        &&& T::fits(self.z.val() - other.z.val())
        &&& T::fits((self.x.val() - other.x.val()) * (self.x.val() - other.x.val()))
        &&& T::fits((self.y.val() - other.y.val()) * (self.y.val() - other.y.val()))
        &&& T::fits((self.z.val() - other.z.val()) * (self.z.val() - other.z.val()))
        &&& T::fits(
            (self.x.val() - other.x.val()) * (self.x.val() - other.x.val()) + (self.y.val()
                - other.y.val()) * (self.y.val() - other.y.val()),
        )
        &&& T::fits(
            (self.x.val() - other.x.val()) * (self.x.val() - other.x.val()) + (self.y.val()
                - other.y.val()) * (self.y.val() - other.y.val()) + (self.z.val() - other.z.val())
                * (self.z.val() - other.z.val()),
        )
    }

    open spec fn distance_squared_spec(self, other: Vector3<T>) -> int {
        (self.x.val() - other.x.val()) * (self.x.val() - other.x.val()) + (self.y.val()
            - other.y.val()) * (self.y.val() - other.y.val()) + (self.z.val() - other.z.val()) * (
        self.z.val() - other.z.val())
    }

    fn distance_squared(self, other: Vector3<T>) -> T {
        let d = self.sub(other);
        d.magnitude_squared()
    }
}

impl<T: BaseNum> LinearInterpolate for Vector3<T> {
    type Scalar = T;

    open spec fn lerp_req(self, other: Self, t: T) -> bool {
        &&& T::fits(1 - t.val())
        &&& T::fits(self.x.val() * (1 - t.val()))
        &&& T::fits(self.y.val() * (1 - t.val()))
        &&& T::fits(self.z.val() * (1 - t.val()))
        &&& T::fits(other.x.val() * t.val())
        &&& T::fits(other.y.val() * t.val())
        &&& T::fits(other.z.val() * t.val())
        &&& T::fits(self.x.val() * (1 - t.val()) + other.x.val() * t.val())
        &&& T::fits(self.y.val() * (1 - t.val()) + other.y.val() * t.val())
        &&& T::fits(self.z.val() * (1 - t.val()) + other.z.val() * t.val())
    }

    open spec fn lerp_post(self, other: Self, t: T, r: Self) -> bool {
        &&& r.x.val() == self.x.val() * (1 - t.val()) + other.x.val() * t.val()
        &&& r.y.val() == self.y.val() * (1 - t.val()) + other.y.val() * t.val()
        &&& r.z.val() == self.z.val() * (1 - t.val()) + other.z.val() * t.val()
    }

    fn lerp(self, other: Self, t: T) -> Self {
        let u = T::one().sub(t);
        self.mul_scalar(u).add(other.mul_scalar(t))
    }
}

impl<T: BaseNum> Vector2<T> {
    /// The component selected by the axis tag `d`.
    pub open spec fn axis_spec(self, d: Dimension2) -> T {
        match d {
            Dimension2::X => self.x,
            Dimension2::Y => self.y,
        }
    }

    /// The component at 0-based position `i`.
    pub open spec fn index_spec(self, i: int) -> T {
        if i == 0 {
            self.x
        } else {
            self.y
        }
    }

    pub fn new(x: T, y: T) -> (r: Vector2<T>)
        ensures
            r == (Vector2 { x, y }),
    {
        Vector2 { x, y }
    }

    /// Both components set to `s`.
    pub fn from_value(s: T) -> (r: Vector2<T>)
        ensures
            r == (Vector2 { x: s, y: s }),
    {
        Vector2::new(s, s)
    }

    pub fn unit_x() -> (r: Vector2<T>)
        ensures
            r.x.val() == 1,
            r.y.val() == 0,
    {
        Vector2::new(T::one(), T::zero())
    }

    pub fn unit_y() -> (r: Vector2<T>)
        ensures
            r.x.val() == 0,
            r.y.val() == 1,
    {
        Vector2::new(T::zero(), T::one())
    }

    /// The all-zero vector.
    pub fn zero() -> (r: Vector2<T>)
        ensures
            r.x.val() == 0,
            r.y.val() == 0,
    {
        Vector2::new(T::zero(), T::zero())
    }

    pub fn is_zero(self) -> (r: bool)
        ensures
            r == (self.x.val() == 0 && self.y.val() == 0),
    {
        let z = T::zero();
        self.x.eq_val(z) && self.y.eq_val(z)
    }

    /// The component at 0-based position `i`; positions 2 and above are a
    /// caller defect and excluded by precondition.
    pub fn index(&self, i: usize) -> (r: T)
        requires
            i < 2,
        ensures
            r == self.index_spec(i as int),
    {
        if i == 0 {
            self.x
        } else {
            self.y
        }
    }

    /// The component selected by the axis tag `d`; tags are exhaustive, so
    /// this cannot fail.
    pub fn axis(&self, d: Dimension2) -> (r: T)
        ensures
            r == self.axis_spec(d),
    {
        match d {
            Dimension2::X => self.x,
            Dimension2::Y => self.y,
        }
    }

    pub fn add(self, other: Vector2<T>) -> (r: Vector2<T>)
        requires
            T::fits(self.x.val() + other.x.val()),
            T::fits(self.y.val() + other.y.val()),
        ensures
            r.x.val() == self.x.val() + other.x.val(),
            r.y.val() == self.y.val() + other.y.val(),
    {
        Vector2::new(self.x.add(other.x), self.y.add(other.y))
    }

    pub fn add_assign(&mut self, other: Vector2<T>)
        requires
            T::fits(old(self).x.val() + other.x.val()),
            T::fits(old(self).y.val() + other.y.val()),
        ensures
            final(self).x.val() == old(self).x.val() + other.x.val(),
            final(self).y.val() == old(self).y.val() + other.y.val(),
    {
        let s = *self;
        *self = s.add(other);
    }

    pub fn sub(self, other: Vector2<T>) -> (r: Vector2<T>)
        requires
            T::fits(self.x.val() - other.x.val()),
            T::fits(self.y.val() - other.y.val()),
        ensures
            r.x.val() == self.x.val() - other.x.val(),
            r.y.val() == self.y.val() - other.y.val(),
    {
        Vector2::new(self.x.sub(other.x), self.y.sub(other.y))
    }

    pub fn sub_assign(&mut self, other: Vector2<T>)
        requires
            T::fits(old(self).x.val() - other.x.val()),
            T::fits(old(self).y.val() - other.y.val()),
        ensures
            final(self).x.val() == old(self).x.val() - other.x.val(),
            final(self).y.val() == old(self).y.val() - other.y.val(),
    {
        let s = *self;
        *self = s.sub(other);
    }

    pub fn mul_scalar(self, scalar: T) -> (r: Vector2<T>)
        requires
            T::fits(self.x.val() * scalar.val()),
            T::fits(self.y.val() * scalar.val()),
        ensures
            r.x.val() == self.x.val() * scalar.val(),
            r.y.val() == self.y.val() * scalar.val(),
    {
        Vector2::new(self.x.mul(scalar), self.y.mul(scalar))
    }

    pub fn div_scalar(self, scalar: T) -> (r: Vector2<T>)
        requires
            scalar.val() != 0,
            T::fits(crate::scalar::trunc_div(self.x.val(), scalar.val())),
            T::fits(crate::scalar::trunc_div(self.y.val(), scalar.val())),
        ensures
            r.x.val() == crate::scalar::trunc_div(self.x.val(), scalar.val()),
            r.y.val() == crate::scalar::trunc_div(self.y.val(), scalar.val()),
    {
        Vector2::new(self.x.div(scalar), self.y.div(scalar))
    }

    /// The sum of the squares of the components: the inner product of the
    /// vector with itself.
    pub fn magnitude_squared(self) -> (r: T)
        requires
            self.dot_req(self),
        ensures
            r.val() == self.dot_spec(self),
    {
        self.dot(self)
    }
}

impl<T: BaseSigned> Vector2<T> {
    pub fn neg(self) -> (r: Vector2<T>)
        requires
            T::fits(-self.x.val()),
            T::fits(-self.y.val()),
        ensures
            r.x.val() == -self.x.val(),
            r.y.val() == -self.y.val(),
    {
        Vector2::new(self.x.neg(), self.y.neg())
    }
}

impl<T: BaseNum> ComponentWise for Vector2<T> {
    type Scalar = T;

    type Dimension = Dimension2;

    open spec fn min_component_spec(self) -> T {
        spec_pmin(self.x, self.y)
    }

    open spec fn max_component_spec(self) -> T {
        spec_pmax(self.x, self.y)
    }

    open spec fn max_dimension_spec(self) -> Dimension2 {
        if self.x.val() > self.y.val() {
            Dimension2::X
        } else {
            Dimension2::Y
        }
    }

    open spec fn component_min_spec(self, other: Self) -> Self {
        Vector2 { x: spec_pmin(self.x, other.x), y: spec_pmin(self.y, other.y) }
    }

    open spec fn component_max_spec(self, other: Self) -> Self {
        Vector2 { x: spec_pmax(self.x, other.x), y: spec_pmax(self.y, other.y) }
    }

    fn min_component(self) -> T {
        crate::scalar::partial_min(self.x, self.y)
    }

    fn max_component(self) -> T {
        crate::scalar::partial_max(self.x, self.y)
    }

    fn max_dimension(self) -> Dimension2 {
        if self.x.gt(self.y) {
            Dimension2::X
        } else {
            Dimension2::Y
        }
    }

    fn min(self, other: Self) -> Self {
        Vector2::new(
            crate::scalar::partial_min(self.x, other.x),
            crate::scalar::partial_min(self.y, other.y),
        )
    }

    fn max(self, other: Self) -> Self {
        Vector2::new(
            crate::scalar::partial_max(self.x, other.x),
            crate::scalar::partial_max(self.y, other.y),
        )
    }
}

impl<T: BaseSigned> ComponentWiseSigned for Vector2<T> {
    open spec fn abs_req(self) -> bool {
        &&& T::fits(abs_int(self.x.val()))
        &&& T::fits(abs_int(self.y.val()))
    }

    open spec fn abs_post(self, r: Self) -> bool {
        &&& r.x.val() == abs_int(self.x.val())
        &&& r.y.val() == abs_int(self.y.val())
    }

    open spec fn neg_req(self) -> bool {
        &&& T::fits(-self.x.val())
        &&& T::fits(-self.y.val())
    }

    open spec fn neg_post(self, r: Self) -> bool {
        &&& r.x.val() == -self.x.val()
        &&& r.y.val() == -self.y.val()
    }

    fn abs(self) -> Self {
        Vector2::new(self.x.abs(), self.y.abs())
    }

    fn neg(self) -> Self {
        Vector2::new(self.x.neg(), self.y.neg())
    }
}

impl<T: BaseNum> InnerProduct<Vector2<T>> for Vector2<T> {
    type Scalar = T;

    open spec fn dot_req(self, other: Vector2<T>) -> bool {
        &&& T::fits(self.x.val() * other.x.val())
        &&& T::fits(self.y.val() * other.y.val())
        &&& T::fits(self.x.val() * other.x.val() + self.y.val() * other.y.val())
    }

    open spec fn dot_spec(self, other: Vector2<T>) -> int {
        self.x.val() * other.x.val() + self.y.val() * other.y.val()
    }

    fn dot(self, other: Vector2<T>) -> T {
        let a = self.x.mul(other.x);
        let b = self.y.mul(other.y);
        a.add(b)
    }
}

impl<T: BaseNum> MetricSpace<Vector2<T>> for Vector2<T> {
    type Scalar = T;

    open spec fn distance_squared_req(self, other: Vector2<T>) -> bool {
        &&& T::fits(self.x.val() - other.x.val())
        &&& T::fits(self.y.val() - other.y.val())
        &&& T::fits((self.x.val() - other.x.val()) * (self.x.val() - other.x.val()))
        &&& T::fits((self.y.val() - other.y.val()) * (self.y.val() - other.y.val()))
        &&& T::fits(
            (self.x.val() - other.x.val()) * (self.x.val() - other.x.val()) + (self.y.val()
                - other.y.val()) * (self.y.val() - other.y.val()),
        )
    }

    open spec fn distance_squared_spec(self, other: Vector2<T>) -> int {
        (self.x.val() - other.x.val()) * (self.x.val() - other.x.val()) + (self.y.val()
            - other.y.val()) * (self.y.val() - other.y.val())
    }

    fn distance_squared(self, other: Vector2<T>) -> T {
        let d = self.sub(other);
        d.magnitude_squared()
    }
}

impl<T: BaseNum> LinearInterpolate for Vector2<T> {
    type Scalar = T;

    open spec fn lerp_req(self, other: Self, t: T) -> bool {
        &&& T::fits(1 - t.val())
        &&& T::fits(self.x.val() * (1 - t.val()))
        &&& T::fits(self.y.val() * (1 - t.val()))
        &&& T::fits(other.x.val() * t.val())
        &&& T::fits(other.y.val() * t.val())
        &&& T::fits(self.x.val() * (1 - t.val()) + other.x.val() * t.val())
        &&& T::fits(self.y.val() * (1 - t.val()) + other.y.val() * t.val())
    }

    open spec fn lerp_post(self, other: Self, t: T, r: Self) -> bool {
        &&& r.x.val() == self.x.val() * (1 - t.val()) + other.x.val() * t.val()
        &&& r.y.val() == self.y.val() * (1 - t.val()) + other.y.val() * t.val()
    }

    fn lerp(self, other: Self, t: T) -> Self {
        let u = T::one().sub(t);
        self.mul_scalar(u).add(other.mul_scalar(t))
    }
}

/// Builds the vector `(x, y)`.
pub fn vec2<T: BaseNum>(x: T, y: T) -> (r: Vector2<T>)
    ensures
        r == (Vector2 { x, y }),
{
    Vector2::new(x, y)
}

/// Builds the vector `(x, y, z)`.
pub fn vec3<T: BaseNum>(x: T, y: T, z: T) -> (r: Vector3<T>)
    ensures
        r == (Vector3 { x, y, z }),
{
    Vector3::new(x, y, z)
}

/// Law: the cross product is orthogonal to both of its operands. Any vector
/// standing in the exact cross-product relation to `v1` and `v2` has inner
/// product zero with each of them.
pub proof fn lemma_cross_orthogonal<T: BaseNum>(v1: Vector3<T>, v2: Vector3<T>, r: Vector3<T>)
    requires
        v1.cross_post(v2, r),
    ensures
        r.dot_spec(v1) == 0,
        r.dot_spec(v2) == 0,
{
    let x1 = v1.x.val();
    let y1 = v1.y.val();
    let z1 = v1.z.val();
    let x2 = v2.x.val();
    let y2 = v2.y.val();
    let z2 = v2.z.val();
    assert((y1 * z2 - z1 * y2) * x1 + (z1 * x2 - x1 * z2) * y1 + (x1 * y2 - y1 * x2) * z1
        == 0) by (nonlinear_arith);
    assert((y1 * z2 - z1 * y2) * x2 + (z1 * x2 - x1 * z2) * y2 + (x1 * y2 - y1 * x2) * z2
        == 0) by (nonlinear_arith);
}

/// Law: the second basis vector chosen by the orthonormal-basis
/// construction is orthogonal to the input. Both branch candidates —
/// `(-z, 0, x)` where the first component dominates and `(0, z, -y)`
/// otherwise — have inner product zero with `(x, y, z)`.
pub proof fn lemma_coordinate_frame_orthogonal<T: BaseNum>(v1: Vector3<T>, v2: Vector3<T>)
    ensures
        (v2.x.val() == -v1.z.val() && v2.y.val() == 0 && v2.z.val() == v1.x.val())
            ==> v1.dot_spec(v2) == 0,
        (v2.x.val() == 0 && v2.y.val() == v1.z.val() && v2.z.val() == -v1.y.val())
            ==> v1.dot_spec(v2) == 0,
{
    let x = v1.x.val();
    let y = v1.y.val();
    let z = v1.z.val();
    assert(x * (-z) + y * 0 + z * x == 0) by (nonlinear_arith);
    assert(x * 0 + y * z + z * (-y) == 0) by (nonlinear_arith);
}

/// Law: linear interpolation hits its endpoints. At parameter zero the
/// result carries the first operand's components, at parameter one the
/// second's.
pub proof fn lemma_lerp_endpoints_vector3<T: BaseNum>(
    a: Vector3<T>,
    b: Vector3<T>,
    t: T,
    r: Vector3<T>,
)
    requires
        a.lerp_post(b, t, r),
    ensures
        t.val() == 0 ==> r.x.val() == a.x.val() && r.y.val() == a.y.val() && r.z.val()
            == a.z.val(),
        t.val() == 1 ==> r.x.val() == b.x.val() && r.y.val() == b.y.val() && r.z.val()
            == b.z.val(),
{
    crate::common::lemma_lerp_formula_endpoints(a.x.val(), b.x.val(), t.val());
    crate::common::lemma_lerp_formula_endpoints(a.y.val(), b.y.val(), t.val());
    crate::common::lemma_lerp_formula_endpoints(a.z.val(), b.z.val(), t.val());
}

/// Law: linear interpolation hits its endpoints. At parameter zero the
/// result carries the first operand's components, at parameter one the
/// second's.
pub proof fn lemma_lerp_endpoints_vector2<T: BaseNum>(
    a: Vector2<T>,
    b: Vector2<T>,
    t: T,
    r: Vector2<T>,
)
    requires
        a.lerp_post(b, t, r),
    ensures
        t.val() == 0 ==> r.x.val() == a.x.val() && r.y.val() == a.y.val(),
        t.val() == 1 ==> r.x.val() == b.x.val() && r.y.val() == b.y.val(),
{
    crate::common::lemma_lerp_formula_endpoints(a.x.val(), b.x.val(), t.val());
    crate::common::lemma_lerp_formula_endpoints(a.y.val(), b.y.val(), t.val());
}

/// Integer-scalar aliases of the concrete vector types.
pub type Vector3i = Vector3<IntScalar>;

pub type Vector2i = Vector2<IntScalar>;

} // verus!
