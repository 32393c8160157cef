//! Surface normals: structurally a triple of scalar components like
//! `Vector3`, but a distinct nominal type so that normal-specific transform
//! rules cannot be applied to positional vectors by accident. Inner and
//! cross products interoperate with `Vector3` in both directions.

use vstd::prelude::*;
use crate::scalar::{BaseNum, BaseSigned, trunc_div};
use crate::common::{InnerProduct, CrossProduct};
use crate::vector::Vector3;

verus! {

/// An ordered triple of scalar components representing a surface normal
/// direction.
#[derive(Clone, Copy, Debug, PartialEq, Eq, Structural)]
pub struct Normal3<T> {
    pub x: T,
    pub y: T,
    pub z: T,
}

impl<T: BaseNum> Normal3<T> {
    pub fn new(x: T, y: T, z: T) -> (r: Normal3<T>)
        ensures
            r == (Normal3 { x, y, z }),
    {
        Normal3 { x, y, z }
    }

    /// The normal with the components of `v`.
    pub fn from_vector(v: Vector3<T>) -> (r: Normal3<T>)
        ensures
            r == (Normal3 { x: v.x, y: v.y, z: v.z }),
    {
        Normal3::new(v.x, v.y, v.z)
    }

    /// The free vector with the components of this normal.
    pub fn to_vector(self) -> (r: Vector3<T>)
        ensures
            r == (Vector3 { x: self.x, y: self.y, z: self.z }),
    {
        Vector3::new(self.x, self.y, self.z)
    }

    /// The all-zero normal.
    pub fn zero() -> (r: Normal3<T>)
        ensures
            r.x.val() == 0,
            r.y.val() == 0,
            r.z.val() == 0,
    {
        Normal3::new(T::zero(), T::zero(), T::zero())
    }

    pub fn is_zero(self) -> (r: bool)
        ensures
            r == (self.x.val() == 0 && self.y.val() == 0 && self.z.val() == 0),
    {
        let z = T::zero();
        self.x.eq_val(z) && self.y.eq_val(z) && self.z.eq_val(z)
    }

    pub fn add(self, other: Normal3<T>) -> (r: Normal3<T>)
        requires
            T::fits(self.x.val() + other.x.val()),
            T::fits(self.y.val() + other.y.val()),
            T::fits(self.z.val() + other.z.val()),
        ensures
            r.x.val() == self.x.val() + other.x.val(),
            r.y.val() == self.y.val() + other.y.val(),
            r.z.val() == self.z.val() + other.z.val(),
    {
        Normal3::new(self.x.add(other.x), self.y.add(other.y), self.z.add(other.z))
    }

    pub fn add_assign(&mut self, other: Normal3<T>)
        requires
            T::fits(old(self).x.val() + other.x.val()),
            T::fits(old(self).y.val() + other.y.val()),
            T::fits(old(self).z.val() + other.z.val()),
        ensures
            final(self).x.val() == old(self).x.val() + other.x.val(),
            final(self).y.val() == old(self).y.val() + other.y.val(),
            final(self).z.val() == old(self).z.val() + other.z.val(),
    {
        let s = *self;
        *self = s.add(other);
    }

    pub fn sub(self, other: Normal3<T>) -> (r: Normal3<T>)
        requires
            T::fits(self.x.val() - other.x.val()),
            T::fits(self.y.val() - other.y.val()),
            T::fits(self.z.val() - other.z.val()),
        ensures
            r.x.val() == self.x.val() - other.x.val(),
            r.y.val() == self.y.val() - other.y.val(),
            r.z.val() == self.z.val() - other.z.val(),
    {
        Normal3::new(self.x.sub(other.x), self.y.sub(other.y), self.z.sub(other.z))
    }

    pub fn sub_assign(&mut self, other: Normal3<T>)
        requires
            T::fits(old(self).x.val() - other.x.val()),
            T::fits(old(self).y.val() - other.y.val()),
            T::fits(old(self).z.val() - other.z.val()),
        ensures
            final(self).x.val() == old(self).x.val() - other.x.val(),
            final(self).y.val() == old(self).y.val() - other.y.val(),
            final(self).z.val() == old(self).z.val() - other.z.val(),
    {
        let s = *self;
        *self = s.sub(other);
    }

    pub fn mul_scalar(self, scalar: T) -> (r: Normal3<T>)
        requires
            T::fits(self.x.val() * scalar.val()),
            T::fits(self.y.val() * scalar.val()),
            T::fits(self.z.val() * scalar.val()),
        ensures
            r.x.val() == self.x.val() * scalar.val(),
            r.y.val() == self.y.val() * scalar.val(),
            r.z.val() == self.z.val() * scalar.val(),
    {
        Normal3::new(self.x.mul(scalar), self.y.mul(scalar), self.z.mul(scalar))
    }

    pub fn div_scalar(self, scalar: T) -> (r: Normal3<T>)
        requires
            scalar.val() != 0,
            T::fits(trunc_div(self.x.val(), scalar.val())),
            T::fits(trunc_div(self.y.val(), scalar.val())),
            T::fits(trunc_div(self.z.val(), scalar.val())),
        ensures
            r.x.val() == trunc_div(self.x.val(), scalar.val()),
            r.y.val() == trunc_div(self.y.val(), scalar.val()),
            r.z.val() == trunc_div(self.z.val(), scalar.val()),
    {
        Normal3::new(self.x.div(scalar), self.y.div(scalar), self.z.div(scalar))
    }

    /// The sum of the squares of the components: the inner product of the
    /// normal with itself.
    pub fn magnitude_squared(self) -> (r: T)
        requires
            self.dot_req(self),
        ensures
            r.val() == self.dot_spec(self),
    {
        self.dot(self)
    }
}

impl<T: BaseSigned> Normal3<T> {
    pub fn neg(self) -> (r: Normal3<T>)
        requires
            T::fits(-self.x.val()),
            T::fits(-self.y.val()),
            T::fits(-self.z.val()),
        ensures
            r.x.val() == -self.x.val(),
            r.y.val() == -self.y.val(),
            r.z.val() == -self.z.val(),
    {
        Normal3::new(self.x.neg(), self.y.neg(), self.z.neg())
    }
}

impl<T: BaseNum> InnerProduct<Normal3<T>> for Normal3<T> {
    type Scalar = T;

    open spec fn dot_req(self, other: Normal3<T>) -> bool {
        &&& T::fits(self.x.val() * other.x.val())
        &&& T::fits(self.y.val() * other.y.val())
        &&& T::fits(self.z.val() * other.z.val())
        &&& T::fits(self.x.val() * other.x.val() + self.y.val() * other.y.val())
        &&& T::fits(
            self.x.val() * other.x.val() + self.y.val() * other.y.val() + self.z.val()
                * other.z.val(),
        )
    }

    open spec fn dot_spec(self, other: Normal3<T>) -> int {
        self.x.val() * other.x.val() + self.y.val() * other.y.val() + self.z.val() * other.z.val()
    }

    fn dot(self, other: Normal3<T>) -> T {
        let a = self.x.mul(other.x);
        let b = self.y.mul(other.y);
        let c = self.z.mul(other.z);
        a.add(b).add(c)
    }
}

impl<T: BaseNum> InnerProduct<Vector3<T>> for Normal3<T> {
    type Scalar = T;

    open spec fn dot_req(self, other: Vector3<T>) -> bool {
        &&& T::fits(self.x.val() * other.x.val())
        &&& T::fits(self.y.val() * other.y.val())
        &&& T::fits(self.z.val() * other.z.val())
        &&& T::fits(self.x.val() * other.x.val() + self.y.val() * other.y.val())
        &&& T::fits(
            self.x.val() * other.x.val() + self.y.val() * other.y.val() + self.z.val()
                * other.z.val(),
        )
    }

    open spec fn dot_spec(self, other: Vector3<T>) -> int {
        self.x.val() * other.x.val() + self.y.val() * other.y.val() + self.z.val() * other.z.val()
    }

    fn dot(self, other: Vector3<T>) -> T {
        let a = self.x.mul(other.x);
        let b = self.y.mul(other.y);
        let c = self.z.mul(other.z);
        a.add(b).add(c)
    }
}

impl<T: BaseNum> InnerProduct<Normal3<T>> for Vector3<T> {
    type Scalar = T;

    open spec fn dot_req(self, other: Normal3<T>) -> bool {
        &&& T::fits(self.x.val() * other.x.val())
        &&& T::fits(self.y.val() * other.y.val())
        &&& T::fits(self.z.val() * other.z.val())
        &&& T::fits(self.x.val() * other.x.val() + self.y.val() * other.y.val())
        &&& T::fits(
            self.x.val() * other.x.val() + self.y.val() * other.y.val() + self.z.val()
                * other.z.val(),
        )
    }

    open spec fn dot_spec(self, other: Normal3<T>) -> int {
        self.x.val() * other.x.val() + self.y.val() * other.y.val() + self.z.val() * other.z.val()
    }

    fn dot(self, other: Normal3<T>) -> T {
        let a = self.x.mul(other.x);
        let b = self.y.mul(other.y);
        let c = self.z.mul(other.z);
        a.add(b).add(c)
    }
}

impl<T: BaseNum> CrossProduct<Vector3<T>> for Normal3<T> {
    type CrossOutput = Vector3<T>;

    open spec fn cross_req(self, other: Vector3<T>) -> bool {
        &&& T::fits(self.y.val() * other.z.val())
        &&& T::fits(self.z.val() * other.y.val())
        &&& T::fits(self.y.val() * other.z.val() - self.z.val() * other.y.val())
        &&& T::fits(self.z.val() * other.x.val())
        &&& T::fits(self.x.val() * other.z.val())
        &&& T::fits(self.z.val() * other.x.val() - self.x.val() * other.z.val())
        &&& T::fits(self.x.val() * other.y.val())
        &&& T::fits(self.y.val() * other.x.val())
        &&& T::fits(self.x.val() * other.y.val() - self.y.val() * other.x.val())
    }

    open spec fn cross_post(self, other: Vector3<T>, r: Vector3<T>) -> bool {
        &&& r.x.val() == self.y.val() * other.z.val() - self.z.val() * other.y.val()
        &&& r.y.val() == self.z.val() * other.x.val() - self.x.val() * other.z.val()
        &&& r.z.val() == self.x.val() * other.y.val() - self.y.val() * other.x.val()
    }

    fn cross(self, other: Vector3<T>) -> Vector3<T> {
        Vector3::new(
            (self.y.mul(other.z)).sub(self.z.mul(other.y)),
            (self.z.mul(other.x)).sub(self.x.mul(other.z)),
            (self.x.mul(other.y)).sub(self.y.mul(other.x)),
        )
    }
}

impl<T: BaseNum> CrossProduct<Normal3<T>> for Vector3<T> {
    type CrossOutput = Vector3<T>;

    open spec fn cross_req(self, other: Normal3<T>) -> bool {
        &&& T::fits(self.y.val() * other.z.val())
        &&& T::fits(self.z.val() * other.y.val())
        &&& T::fits(self.y.val() * other.z.val() - self.z.val() * other.y.val())
        &&& T::fits(self.z.val() * other.x.val())
        &&& T::fits(self.x.val() * other.z.val())
        &&& T::fits(self.z.val() * other.x.val() - self.x.val() * other.z.val())
        &&& T::fits(self.x.val() * other.y.val())
        &&& T::fits(self.y.val() * other.x.val())
        &&& T::fits(self.x.val() * other.y.val() - self.y.val() * other.x.val())
    }

    open spec fn cross_post(self, other: Normal3<T>, r: Vector3<T>) -> bool {
        &&& r.x.val() == self.y.val() * other.z.val() - self.z.val() * other.y.val()
        &&& r.y.val() == self.z.val() * other.x.val() - self.x.val() * other.z.val()
        &&& r.z.val() == self.x.val() * other.y.val() - self.y.val() * other.x.val()
    }

    fn cross(self, other: Normal3<T>) -> Vector3<T> {
        Vector3::new(
            (self.y.mul(other.z)).sub(self.z.mul(other.y)),
            (self.z.mul(other.x)).sub(self.x.mul(other.z)),
            (self.x.mul(other.y)).sub(self.y.mul(other.x)),
        )
    }
}

} // verus!
