//! Shared capability traits of the aggregate types (component-wise folds,
//! inner and cross products, metric and interpolation operations) and the
//! free functions defined over them.
//!
//! Each trait pairs every executable operation with spec functions that pin
//! the result down exactly; implementations define those spec functions as
//! the component formulas, so callers at a concrete type see the full
//! mathematical statement.

use vstd::prelude::*;
use crate::scalar::{BaseNum, BaseSigned, abs_int};

verus! {

/// Axis tags of a two-dimensional aggregate.
#[derive(Clone, Copy, Debug, PartialEq, Eq, Structural)]
pub enum Dimension2 {
    X,
    Y,
}

/// Axis tags of a three-dimensional aggregate.
#[derive(Clone, Copy, Debug, PartialEq, Eq, Structural)]
pub enum Dimension3 {
    X,
    Y,
    Z,
}

/// Component-wise folds and pairings: least/greatest component, axis of the
/// greatest component, and per-component min/max against a second operand.
pub trait ComponentWise: Sized + Copy {
    type Scalar: BaseNum;

    type Dimension;

    /// The component the left-to-right `partial_min` fold picks.
    spec fn min_component_spec(self) -> Self::Scalar;

    /// The component the left-to-right `partial_max` fold picks.
    spec fn max_component_spec(self) -> Self::Scalar;

    /// The axis tag `max_dimension` returns, tie-break included.
    spec fn max_dimension_spec(self) -> Self::Dimension;

    /// The per-component minimum against `other`, each tie resolved to
    /// `other`'s component.
    spec fn component_min_spec(self, other: Self) -> Self;

    /// The per-component maximum against `other`, each tie resolved to
    /// `other`'s component.
    spec fn component_max_spec(self, other: Self) -> Self;

    fn min_component(self) -> (r: Self::Scalar)
        ensures
            r == self.min_component_spec(),
    ;

    fn max_component(self) -> (r: Self::Scalar)
        ensures
            r == self.max_component_spec(),
    ;

    fn max_dimension(self) -> (r: Self::Dimension)
        ensures
            r == self.max_dimension_spec(),
    ;

    fn min(self, other: Self) -> (r: Self)
        ensures
            r == self.component_min_spec(other),
    ;

    fn max(self, other: Self) -> (r: Self)
        ensures
            r == self.component_max_spec(other),
    ;
}

/// Signed component-wise operations: per-component absolute value and
/// negation.
pub trait ComponentWiseSigned: ComponentWise where <Self as ComponentWise>::Scalar: BaseSigned {
    /// Whether each component's absolute value is representable.
    spec fn abs_req(self) -> bool;

    /// Exact relation between `self` and its per-component absolute value.
    spec fn abs_post(self, r: Self) -> bool;

    /// Whether each component's negation is representable.
    spec fn neg_req(self) -> bool;

    /// Exact relation between `self` and its per-component negation.
    spec fn neg_post(self, r: Self) -> bool;

    fn abs(self) -> (r: Self)
        requires
            self.abs_req(),
        ensures
            self.abs_post(r),
    ;

    fn neg(self) -> (r: Self)
        requires
            self.neg_req(),
        ensures
            self.neg_post(r),
    ;
}

/// The inner product: a scalar-valued pairing of two aggregates, the sum of
/// their pairwise component products.
pub trait InnerProduct<RHS>: Sized + Copy {
    type Scalar: BaseNum;

    /// Whether every intermediate of the product sum is representable.
    spec fn dot_req(self, other: RHS) -> bool;

    /// The exact value of the inner product.
    spec fn dot_spec(self, other: RHS) -> int;

    fn dot(self, other: RHS) -> (r: Self::Scalar)
        requires
            self.dot_req(other),
        ensures
            r.val() == self.dot_spec(other),
    ;
}

/// The cross product of three-dimensional aggregates, by the standard
/// determinant-expansion formula.
pub trait CrossProduct<RHS>: Sized + Copy {
    type CrossOutput;

    /// Whether every intermediate of the expansion is representable.
    spec fn cross_req(self, other: RHS) -> bool;

    /// Exact component-level relation between the operands and the result.
    spec fn cross_post(self, other: RHS, r: Self::CrossOutput) -> bool;

    fn cross(self, other: RHS) -> (r: Self::CrossOutput)
        requires
            self.cross_req(other),
        ensures
            self.cross_post(other, r),
    ;
}

/// Squared-distance metric between two aggregates of the same kind.
pub trait MetricSpace<RHS = Self>: Sized + Copy {
    type Scalar: BaseNum;

    /// Whether every intermediate of the squared distance is representable.
    spec fn distance_squared_req(self, other: RHS) -> bool;

    /// The exact squared distance.
    spec fn distance_squared_spec(self, other: RHS) -> int;

    fn distance_squared(self, other: RHS) -> (r: Self::Scalar)
        requires
            self.distance_squared_req(other),
        ensures
            r.val() == self.distance_squared_spec(other),
    ;
}

/// Linear interpolation `a * (1 - t) + b * t`; `t` is not clamped, so
/// extrapolation is permitted.
pub trait LinearInterpolate: Sized + Copy {
    type Scalar: BaseNum;

    /// Whether every intermediate of the interpolation is representable.
    spec fn lerp_req(self, other: Self, t: Self::Scalar) -> bool;

    /// Exact component-level relation between the operands and the result.
    spec fn lerp_post(self, other: Self, t: Self::Scalar, r: Self) -> bool;

    fn lerp(self, other: Self, t: Self::Scalar) -> (r: Self)
        requires
            self.lerp_req(other, t),
        ensures
            self.lerp_post(other, t, r),
    ;
}

/// Law, scalar form: the interpolation formula `a * (1 - t) + b * t` hits
/// its endpoints at `t == 0` and `t == 1`.
pub proof fn lemma_lerp_formula_endpoints(av: int, bv: int, tv: int)
    ensures
        tv == 0 ==> av * (1 - tv) + bv * tv == av,
        tv == 1 ==> av * (1 - tv) + bv * tv == bv,
{
    assert(tv == 0 ==> av * (1 - tv) + bv * tv == av) by (nonlinear_arith);
    assert(tv == 1 ==> av * (1 - tv) + bv * tv == bv) by (nonlinear_arith);
}

/// The inner product of `v1` and `v2`.
pub fn dot<RHS, U: InnerProduct<RHS>>(v1: U, v2: RHS) -> (r: U::Scalar)
    requires
        v1.dot_req(v2),
    ensures
        r.val() == v1.dot_spec(v2),
{
    v1.dot(v2)
}

/// The absolute value of the inner product of `v1` and `v2`.
pub fn abs_dot<RHS, U: InnerProduct<RHS>>(v1: U, v2: RHS) -> (r: U::Scalar) where
    U::Scalar: BaseSigned,

    requires
        v1.dot_req(v2),
        <U::Scalar as BaseNum>::fits(abs_int(v1.dot_spec(v2))),
    ensures
        r.val() == abs_int(v1.dot_spec(v2)),
{
    let d = v1.dot(v2);
    d.abs()
}

/// The cross product of `v1` and `v2`.
pub fn cross<RHS, U: CrossProduct<RHS>>(v1: U, v2: RHS) -> (r: U::CrossOutput)
    requires
        v1.cross_req(v2),
    ensures
        v1.cross_post(v2, r),
{
    v1.cross(v2)
}

/// The least component of `v`.
pub fn min_component<T: ComponentWise>(v: T) -> (r: T::Scalar)
    ensures
        r == v.min_component_spec(),
{
    v.min_component()
}

/// The greatest component of `v`.
pub fn max_component<T: ComponentWise>(v: T) -> (r: T::Scalar)
    ensures
        r == v.max_component_spec(),
{
    v.max_component()
}

/// The squared distance between `v1` and `v2`.
pub fn distance_squared<T: MetricSpace>(v1: T, v2: T) -> (r: T::Scalar)
    requires
        v1.distance_squared_req(v2),
    ensures
        r.val() == v1.distance_squared_spec(v2),
{
    v1.distance_squared(v2)
}

/// The per-component minimum of `v1` and `v2`.
pub fn component_wise_min<T: ComponentWise>(v1: T, v2: T) -> (r: T)
    ensures
        r == v1.component_min_spec(v2),
{
    v1.min(v2)
}

/// The per-component maximum of `v1` and `v2`.
pub fn component_wise_max<T: ComponentWise>(v1: T, v2: T) -> (r: T)
    ensures
        r == v1.component_max_spec(v2),
{
    v1.max(v2)
}

/// `v1` flipped so that it lies in the hemisphere of `v2`: negated when the
/// two have a strictly negative inner product, unchanged otherwise.
pub fn face_forward<RHS, U: InnerProduct<RHS> + ComponentWiseSigned>(v1: U, v2: RHS) -> (r: U) where
    <U as ComponentWise>::Scalar: BaseSigned,

    requires
        v1.dot_req(v2),
        v1.dot_spec(v2) < 0 ==> v1.neg_req(),
    ensures
        v1.dot_spec(v2) < 0 ==> v1.neg_post(r),
        v1.dot_spec(v2) >= 0 ==> r == v1,
{
    let d = v1.dot(v2);
    let z = <U as InnerProduct<RHS>>::Scalar::zero();
    if d.lt(z) {
        v1.neg()
    } else {
        v1
    }
}

} // verus!
