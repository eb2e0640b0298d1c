//! Hit or miss, shape by shape.
//!
//! A measure holds the few numbers on which hit or miss of one ray on one
//! shape turns. A probe is a measure with what the rules need of the shape
//! besides: its colour, and for a sphere its radius. The caller computes
//! the numbers; the rules that read them are here.

use vstd::prelude::*;
use crate::color::ColorType;
use crate::intersection::{
    closest,
    closest_hit,
    closest_is_first_minimum,
    first_minimum,
    outcomes_of,
    Intersectable,
    Intersection,
};
use crate::scalar::{Scalar, ONE_BITS};

verus! {

/// The pattern of 1e-6, below which the cosine between a ray and the normal
/// of a plane counts as zero.
pub const PARALLEL_EPSILON_BITS: u32 = 0x3586_37bd;

/// The pattern of the greatest sum that the two barycentric coordinates of
/// a hit may have: one plus 1e-13, which in binary32 rounds to one.
pub const BARYCENTRIC_LIMIT_BITS: u32 = ONE_BITS;

/// The number zero, for contracts.
pub open spec fn zero() -> Scalar {
    Scalar { bits: 0 }
}

/// The number one, for contracts.
pub open spec fn one() -> Scalar {
    Scalar { bits: ONE_BITS }
}

/// The parallel threshold, for contracts.
pub open spec fn parallel_epsilon() -> Scalar {
    Scalar { bits: PARALLEL_EPSILON_BITS }
}

/// The barycentric limit, for contracts.
pub open spec fn barycentric_limit() -> Scalar {
    Scalar { bits: BARYCENTRIC_LIMIT_BITS }
}

/// The smaller of the two ray parameters among those that are zero or more;
/// none when neither is.
pub open spec fn nearest_root(t0: Scalar, t1: Scalar) -> Option<Scalar> {
    if t0.non_negative() && !(t1.non_negative() && t1.below(t0)) {
        Some(t0)
    } else if t1.non_negative() {
        Some(t1)
    } else {
        None
    }
}

/// The hit at a distance, if there is a distance.
pub open spec fn hit_at(distance: Option<Scalar>, color: ColorType) -> Option<Intersection> {
    match distance {
        Some(t) => Some(Intersection { distance: t, color }),
        None => None,
    }
}

/// The hit at a distance, if there is a distance.
pub fn found_at(distance: Option<Scalar>, color: ColorType) -> (found: Option<Intersection>)
    ensures
        found == hit_at(distance, color),
{
    match distance {
        Some(t) => Some(Intersection::new(t, color)),
        None => None,
    }
}

/// What a ray measures of a sphere. With `l` from the ray's origin to the
/// centre and `tca` the length of `l` along the ray: `d2` is `l.l - tca^2`,
/// the squared distance of the centre from the ray's line, `d` its square
/// root, and the ray crosses the surface at `t0 = tca - h` and
/// `t1 = tca + h`, where `h` is the square root of `radius^2 - d^2`.
#[derive(Clone, Copy, Debug, PartialEq, Eq, Structural)]
pub struct SphereMeasure {
    pub d2: Scalar,
    pub d: Scalar,
    pub t0: Scalar,
    pub t1: Scalar,
}

impl SphereMeasure {
    /// The line of the ray passes the sphere by: the squared distance came
    /// out negative, or the distance is no number or exceeds the radius.
    pub open spec fn passes_by(self, radius: Scalar) -> bool {
        self.d2.below(zero()) || self.d.nan() || radius.below(self.d)
    }

    /// The ray parameter of the hit on a sphere of this radius.
    pub open spec fn distance(self, radius: Scalar) -> Option<Scalar> {
        if self.passes_by(radius) {
            None
        } else {
            nearest_root(self.t0, self.t1)
        }
    }

    /// Decides hit or miss on a sphere of this radius.
    pub fn resolve(&self, radius: Scalar) -> (t: Option<Scalar>)
        ensures
            t == self.distance(radius),
    {
        let zero = Scalar::zero();
        if self.d2.lt(&zero) || self.d.is_nan() || radius.lt(&self.d) {
            return None;
        }
        let first = self.t0.is_non_negative();
        let second = self.t1.is_non_negative();
        if first && !(second && self.t1.lt(&self.t0)) {
            Some(self.t0)
        } else if second {
            Some(self.t1)
        } else {
            None
        }
    }
}

/// A ray against a sphere: what it measured, and the sphere's radius and
/// colour.
#[derive(Clone, Copy, Debug, PartialEq, Eq, Structural)]
pub struct SphereProbe {
    pub measured: SphereMeasure,
    pub radius: Scalar,
    pub color: ColorType,
}

impl Intersectable for SphereProbe {
    open spec fn hit(&self) -> Option<Intersection> {
        hit_at(self.measured.distance(self.radius), self.color)
    }

    fn get_intersection(&self) -> (found: Option<Intersection>) {
        found_at(self.measured.resolve(self.radius), self.color)
    }
}

/// What a ray measures of a plane: `denom` is the dot product of the
/// plane's normal and the ray's direction, `t` the ray parameter at which
/// the ray's line meets the plane.
#[derive(Clone, Copy, Debug, PartialEq, Eq, Structural)]
pub struct PlaneMeasure {
    pub denom: Scalar,
    pub t: Scalar,
}

impl PlaneMeasure {
    /// The ray runs along the plane, or so nearly that `t` means nothing.
    pub open spec fn parallel(self) -> bool {
        Scalar { bits: self.denom.magnitude() }.below(parallel_epsilon())
    }

    /// The ray parameter of the hit.
    pub open spec fn distance(self) -> Option<Scalar> {
        if !self.parallel() && self.t.non_negative() {
            Some(self.t)
        } else {
            None
        }
    }

    /// Decides hit or miss.
    pub fn resolve(&self) -> (t: Option<Scalar>)
        ensures
            t == self.distance(),
    {
        let epsilon = Scalar::from_bits(PARALLEL_EPSILON_BITS);
        if self.denom.abs().lt(&epsilon) {
            return None;
        }
        if !self.t.is_non_negative() {
            return None;
        }
        Some(self.t)
    }
}

/// A ray against a plane: what it measured, and the plane's colour.
#[derive(Clone, Copy, Debug, PartialEq, Eq, Structural)]
pub struct PlaneProbe {
    pub measured: PlaneMeasure,
    pub color: ColorType,
}

impl Intersectable for PlaneProbe {
    open spec fn hit(&self) -> Option<Intersection> {
        hit_at(self.measured.distance(), self.color)
    }

    fn get_intersection(&self) -> (found: Option<Intersection>) {
        found_at(self.measured.resolve(), self.color)
    }
}

/// What a ray measures of a triangle: `u` and `v` are the barycentric
/// coordinates of the point where the ray's line meets the triangle's
/// plane, `sum` is `u + v`, and `t` is the ray parameter of that point.
#[derive(Clone, Copy, Debug, PartialEq, Eq, Structural)]
pub struct TriangleMeasure {
    pub u: Scalar,
    pub v: Scalar,
    pub sum: Scalar,
    pub t: Scalar,
}

impl TriangleMeasure {
    /// The point lies in the triangle, its edges included.
    pub open spec fn inside(self) -> bool {
        &&& zero().at_most(self.u)
        &&& self.u.at_most(one())
        &&& zero().at_most(self.v)
        &&& self.sum.at_most(barycentric_limit())
    }

    /// The ray parameter of the hit.
    pub open spec fn distance(self) -> Option<Scalar> {
        if self.inside() && self.t.non_negative() {
            Some(self.t)
        } else {
            None
        }
    }

    /// Decides hit or miss.
    pub fn resolve(&self) -> (t: Option<Scalar>)
        ensures
            t == self.distance(),
    {
        let zero = Scalar::zero();
        let one = Scalar::one();
        if !zero.le(&self.u) || !self.u.le(&one) {
            return None;
        }
        let limit = Scalar::from_bits(BARYCENTRIC_LIMIT_BITS);
        if !zero.le(&self.v) || !self.sum.le(&limit) {
            return None;
        }
        if !self.t.is_non_negative() {
            return None;
        }
        Some(self.t)
    }
}

/// A ray against a triangle: what it measured, and the triangle's colour.
#[derive(Clone, Copy, Debug, PartialEq, Eq, Structural)]
pub struct TriangleProbe {
    pub measured: TriangleMeasure,
    pub color: ColorType,
}

impl Intersectable for TriangleProbe {
    open spec fn hit(&self) -> Option<Intersection> {
        hit_at(self.measured.distance(), self.color)
    }

    fn get_intersection(&self) -> (found: Option<Intersection>) {
        found_at(self.measured.resolve(), self.color)
    }
}

/// A ray against a mesh: one probe for each of its triangles, in the order
/// in which the mesh holds them.
#[derive(Debug)]
pub struct MeshProbe {
    pub triangles: Vec<TriangleProbe>,
}

impl Intersectable for MeshProbe {
    /// The closest of the triangles' hits, the earlier of equals.
    open spec fn hit(&self) -> Option<Intersection> {
        closest(outcomes_of(self.triangles@))
    }

    fn get_intersection(&self) -> (found: Option<Intersection>) {
        closest_hit(&self.triangles)
    }
}

/// A ray against a shape of any kind.
#[derive(Debug)]
pub enum Probe {
    Sphere(SphereProbe),
    Plane(PlaneProbe),
    Triangle(TriangleProbe),
    Mesh(MeshProbe),
}

impl Intersectable for Probe {
    open spec fn hit(&self) -> Option<Intersection> {
        match self {
            Probe::Sphere(p) => p.hit(),
            Probe::Plane(p) => p.hit(),
            Probe::Triangle(p) => p.hit(),
            Probe::Mesh(p) => p.hit(),
        }
    }

    fn get_intersection(&self) -> (found: Option<Intersection>) {
        match self {
            Probe::Sphere(p) => p.get_intersection(),
            Probe::Plane(p) => p.get_intersection(),
            Probe::Triangle(p) => p.get_intersection(),
            Probe::Mesh(p) => p.get_intersection(),
        }
    }
}

/// Whatever the kind of shape, a hit is at a distance of zero or more:
/// never behind the ray's origin, and never at what is not a number.
pub proof fn hit_is_in_front(p: Probe)
    requires
        p.hit() is Some,
    ensures
        p.hit()->Some_0.distance.non_negative(),
{
    match p {
        Probe::Mesh(mesh) => {
            let outcomes = outcomes_of(mesh.triangles@);
            closest_is_first_minimum(outcomes);
            let k = choose|k: int| first_minimum(outcomes, k) && outcomes[k] == closest(outcomes);
            assert(outcomes[k] == mesh.triangles@[k].hit());
        },
        _ => {},
    }
}

/// A sphere is hit exactly when the ray's line does not pass it by and one
/// of the two crossings is at zero or more. The hit is then at one of the
/// crossings, at zero or more, and no crossing at zero or more is nearer.
pub proof fn sphere_reports_nearest_crossing(p: SphereProbe)
    ensures
        p.hit() is Some <==> !p.measured.passes_by(p.radius) && (p.measured.t0.non_negative()
            || p.measured.t1.non_negative()),
        p.hit() is Some ==> {
            let t = p.hit()->Some_0.distance;
            &&& p.hit()->Some_0.color == p.color
            &&& t == p.measured.t0 || t == p.measured.t1
            &&& t.non_negative()
            &&& p.measured.t0.non_negative() ==> t.at_most(p.measured.t0)
            &&& p.measured.t1.non_negative() ==> t.at_most(p.measured.t1)
        },
{
}

/// When the first crossing lies behind the ray's origin and the second in
/// front of it, as they do for a ray that starts inside the sphere, the
/// hit is the second: never a negative distance.
pub proof fn sphere_from_inside_reports_far_crossing(p: SphereProbe)
    requires
        !p.measured.passes_by(p.radius),
        p.measured.t0.below(zero()),
        p.measured.t1.non_negative(),
    ensures
        p.hit() == Some(Intersection { distance: p.measured.t1, color: p.color }),
{
    assert(0u32 & crate::scalar::MAGNITUDE_MASK == 0) by (bit_vector);
    assert(0u32 & crate::scalar::SIGN_BIT == 0) by (bit_vector);
}

/// A ray parallel to a plane hits nothing, whatever else was measured.
pub proof fn parallel_ray_misses_plane(p: PlaneProbe)
    requires
        p.measured.parallel(),
    ensures
        p.hit() is None,
{
}

/// A plane is hit exactly when the ray is not parallel to it and meets it
/// at zero or more; the hit is there.
pub proof fn plane_hit_is_in_front(p: PlaneProbe)
    ensures
        p.hit() is Some <==> !p.measured.parallel() && p.measured.t.non_negative(),
        p.hit() is Some ==> p.hit() == Some(Intersection { distance: p.measured.t, color: p.color }),
{
}

/// A hit on a triangle has both barycentric coordinates at zero or more,
/// their sum at one or less, and a distance of zero or more.
pub proof fn triangle_hit_is_inside(p: TriangleProbe)
    ensures
        p.hit() is Some <==> p.measured.inside() && p.measured.t.non_negative(),
        p.hit() is Some ==> {
            &&& p.hit() == Some(Intersection { distance: p.measured.t, color: p.color })
            &&& zero().at_most(p.measured.u)
            &&& zero().at_most(p.measured.v)
            &&& p.measured.u.at_most(one())
            &&& p.measured.sum.at_most(one())
            &&& p.measured.t.non_negative()
        },
{
}

} // verus!
