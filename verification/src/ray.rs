//! Rays and ray differentials. A ray is a parametric line: an origin, a
//! direction, a maximum parametric extent `tmax` (defaulting to the largest
//! representable value, the integer stand-in for an unbounded extent), and a
//! time value (defaulting to zero). A ray differential carries four optional
//! auxiliary values for an x-offset and a y-offset sample; it is usable for
//! differential computations only when all four are present.

use vstd::prelude::*;
use crate::scalar::i64_fits;
use crate::vector::Vector3;
use crate::point::Point3;

verus! {

/// `base` moved toward (or past) `aux` by the factor `t`.
pub open spec fn scaled_toward(base: int, aux: int, t: int) -> int {
    base + (aux - base) * t
}

/// Whether every intermediate of scaling the three components of `aux`
/// toward `base` is representable.
pub open spec fn scale_point_req(base: Point3<i64>, aux: Point3<i64>, t: i64) -> bool {
    &&& i64_fits(aux.x - base.x)
    &&& i64_fits(aux.y - base.y)
    &&& i64_fits(aux.z - base.z)
    &&& i64_fits((aux.x - base.x) * t)
    &&& i64_fits((aux.y - base.y) * t)
    &&& i64_fits((aux.z - base.z) * t)
    &&& i64_fits(scaled_toward(base.x as int, aux.x as int, t as int))
    &&& i64_fits(scaled_toward(base.y as int, aux.y as int, t as int))
    &&& i64_fits(scaled_toward(base.z as int, aux.z as int, t as int))
}

/// Exact component relation of a point scaled toward a base point.
pub open spec fn scale_point_post(base: Point3<i64>, aux: Point3<i64>, t: i64, r: Point3<
    i64,
>) -> bool {
    &&& r.x as int == scaled_toward(base.x as int, aux.x as int, t as int)
    &&& r.y as int == scaled_toward(base.y as int, aux.y as int, t as int)
    &&& r.z as int == scaled_toward(base.z as int, aux.z as int, t as int)
}

/// Whether every intermediate of scaling the three components of `aux`
/// toward `base` is representable.
pub open spec fn scale_vector_req(base: Vector3<i64>, aux: Vector3<i64>, t: i64) -> bool {
    &&& i64_fits(aux.x - base.x)
    &&& i64_fits(aux.y - base.y)
    &&& i64_fits(aux.z - base.z)
    &&& i64_fits((aux.x - base.x) * t)
    &&& i64_fits((aux.y - base.y) * t)
    &&& i64_fits((aux.z - base.z) * t)
    &&& i64_fits(scaled_toward(base.x as int, aux.x as int, t as int))
    &&& i64_fits(scaled_toward(base.y as int, aux.y as int, t as int))
    &&& i64_fits(scaled_toward(base.z as int, aux.z as int, t as int))
}

/// Exact component relation of a vector scaled toward a base vector.
pub open spec fn scale_vector_post(base: Vector3<i64>, aux: Vector3<i64>, t: i64, r: Vector3<
    i64,
>) -> bool {
    &&& r.x as int == scaled_toward(base.x as int, aux.x as int, t as int)
    &&& r.y as int == scaled_toward(base.y as int, aux.y as int, t as int)
    &&& r.z as int == scaled_toward(base.z as int, aux.z as int, t as int)
}

/// A parametric line through `origin` along `direction`, bounded by the
/// parametric extent `tmax` and stamped with a `time` value.
#[derive(Clone, Copy, Debug, PartialEq, Eq, Structural)]
pub struct Ray {
    pub origin: Point3<i64>,
    pub direction: Vector3<i64>,
    pub tmax: i64,
    pub time: i64,
}

impl Ray {
    /// A ray with unbounded extent (the largest representable `tmax`) at
    /// time zero.
    pub fn new(origin: Point3<i64>, direction: Vector3<i64>) -> (r: Ray)
        ensures
            r.origin == origin,
            r.direction == direction,
            r.tmax == i64::MAX,
            r.time == 0i64,
    {
        Ray { origin, direction, tmax: i64::MAX, time: 0 }
    }

    /// A copy of this ray with `tmax` replaced; the receiver is unchanged.
    pub fn with_tmax(&self, tmax: i64) -> (r: Ray)
        ensures
            r.origin == self.origin,
            r.direction == self.direction,
            r.tmax == tmax,
            r.time == self.time,
    {
        Ray { origin: self.origin, direction: self.direction, tmax, time: self.time }
    }

    /// A copy of this ray with `time` replaced; the receiver is unchanged.
    pub fn with_time(&self, time: i64) -> (r: Ray)
        ensures
            r.origin == self.origin,
            r.direction == self.direction,
            r.tmax == self.tmax,
            r.time == time,
    {
        Ray { origin: self.origin, direction: self.direction, tmax: self.tmax, time }
    }

    /// The point `origin + direction * t` on the ray.
    pub fn point_at(&self, t: i64) -> (r: Point3<i64>)
        requires
            i64_fits(self.direction.x * t),
            i64_fits(self.direction.y * t),
            i64_fits(self.direction.z * t),
            i64_fits(self.origin.x + self.direction.x * t),
            i64_fits(self.origin.y + self.direction.y * t),
            i64_fits(self.origin.z + self.direction.z * t),
        ensures
            r.x as int == self.origin.x + self.direction.x * t,
            r.y as int == self.origin.y + self.direction.y * t,
            r.z as int == self.origin.z + self.direction.z * t,
    {
        let scaled = self.direction.mul_scalar(t);
        self.origin.add_vector(scaled)
    }
}

/// A primary sampling ray together with optional origins and directions of
/// an x-offset and a y-offset sample.
#[derive(Clone, Copy, Debug, PartialEq, Eq, Structural)]
pub struct RayDifferential {
    pub ray: Ray,
    pub rx_origin: Option<Point3<i64>>,
    pub ry_origin: Option<Point3<i64>>,
    pub rx_direction: Option<Vector3<i64>>,
    pub ry_direction: Option<Vector3<i64>>,
}

impl RayDifferential {
    /// Whether all four auxiliary values are present, the condition under
    /// which differential computations are meaningful.
    pub open spec fn has_differentials_spec(self) -> bool {
        &&& self.rx_origin is Some
        &&& self.ry_origin is Some
        &&& self.rx_direction is Some
        &&& self.ry_direction is Some
    }

    /// A differential around a fresh primary ray; no auxiliary value is
    /// present yet.
    pub fn new(origin: Point3<i64>, direction: Vector3<i64>) -> (r: RayDifferential)
        ensures
            r.ray.origin == origin,
            r.ray.direction == direction,
            r.ray.tmax == i64::MAX,
            r.ray.time == 0i64,
            r.rx_origin is None,
            r.ry_origin is None,
            r.rx_direction is None,
            r.ry_direction is None,
            !r.has_differentials_spec(),
    {
        RayDifferential {
            ray: Ray::new(origin, direction),
            rx_origin: None,
            ry_origin: None,
            rx_direction: None,
            ry_direction: None,
        }
    }

    /// A differential around an existing ray; no auxiliary value is present.
    pub fn from_ray(ray: Ray) -> (r: RayDifferential)
        ensures
            r.ray == ray,
            r.rx_origin is None,
            r.ry_origin is None,
            r.rx_direction is None,
            r.ry_direction is None,
            !r.has_differentials_spec(),
    {
        RayDifferential {
            ray,
            rx_origin: None,
            ry_origin: None,
            rx_direction: None,
            ry_direction: None,
        }
    }

    /// A copy of this differential with all four auxiliary values supplied;
    /// the receiver is unchanged.
    pub fn with_differentials(
        &self,
        rx_origin: Point3<i64>,
        rx_direction: Vector3<i64>,
        ry_origin: Point3<i64>,
        ry_direction: Vector3<i64>,
    ) -> (r: RayDifferential)
        ensures
            r.ray == self.ray,
            r.rx_origin == Some(rx_origin),
            r.ry_origin == Some(ry_origin),
            r.rx_direction == Some(rx_direction),
            r.ry_direction == Some(ry_direction),
            r.has_differentials_spec(),
    {
        RayDifferential {
            ray: self.ray,
            rx_origin: Some(rx_origin),
            ry_origin: Some(ry_origin),
            rx_direction: Some(rx_direction),
            ry_direction: Some(ry_direction),
        }
    }

    pub fn has_differentials(&self) -> (r: bool)
        ensures
            r == self.has_differentials_spec(),
    {
        self.rx_origin.is_some() && self.ry_origin.is_some() && self.rx_direction.is_some()
            && self.ry_direction.is_some()
    }

    /// Each present auxiliary origin and direction rescaled toward the
    /// primary ray by the factor `t`; absent values remain absent, and the
    /// primary ray is kept as it is.
    pub fn scale_differentials(&self, t: i64) -> (r: RayDifferential)
        requires
            self.rx_origin matches Some(o) ==> scale_point_req(self.ray.origin, o, t),
            self.ry_origin matches Some(o) ==> scale_point_req(self.ray.origin, o, t),
            self.rx_direction matches Some(d) ==> scale_vector_req(self.ray.direction, d, t),
            self.ry_direction matches Some(d) ==> scale_vector_req(self.ray.direction, d, t),
        ensures
            r.ray == self.ray,
            (match self.rx_origin {
                Some(o) => r.rx_origin matches Some(p) && scale_point_post(self.ray.origin, o, t, p),
                None => r.rx_origin is None,
            }),
            (match self.ry_origin {
                Some(o) => r.ry_origin matches Some(p) && scale_point_post(self.ray.origin, o, t, p),
                None => r.ry_origin is None,
            }),
            (match self.rx_direction {
                Some(d) => r.rx_direction matches Some(v) && scale_vector_post(
                    self.ray.direction,
                    d,
                    t,
                    v,
                ),
                None => r.rx_direction is None,
            }),
            (match self.ry_direction {
                Some(d) => r.ry_direction matches Some(v) && scale_vector_post(
                    self.ray.direction,
                    d,
                    t,
                    v,
                ),
                None => r.ry_direction is None,
            }),
    {
        let base_o = self.ray.origin;
        let base_d = self.ray.direction;
        let rx_origin = match self.rx_origin {
            Some(o) => Some(
                Point3::new(
                    base_o.x + (o.x - base_o.x) * t,
                    base_o.y + (o.y - base_o.y) * t,
                    base_o.z + (o.z - base_o.z) * t,
                ),
            ),
            None => None,
        };
        let ry_origin = match self.ry_origin {
            Some(o) => Some(
                Point3::new(
                    base_o.x + (o.x - base_o.x) * t,
                    base_o.y + (o.y - base_o.y) * t,
                    base_o.z + (o.z - base_o.z) * t,
                ),
            ),
            None => None,
        };
        let rx_direction = match self.rx_direction {
            Some(d) => Some(
                Vector3::new(
                    base_d.x + (d.x - base_d.x) * t,
                    base_d.y + (d.y - base_d.y) * t,
                    base_d.z + (d.z - base_d.z) * t,
                ),
            ),
            None => None,
        };
        let ry_direction = match self.ry_direction {
            Some(d) => Some(
                Vector3::new(
                    base_d.x + (d.x - base_d.x) * t,
                    base_d.y + (d.y - base_d.y) * t,
                    base_d.z + (d.z - base_d.z) * t,
                ),
            ),
            None => None,
        };
        RayDifferential { ray: self.ray, rx_origin, ry_origin, rx_direction, ry_direction }
    }
}

} // verus!
