//! Points, directions, the camera and the shapes, and how they are put
//! together.
//!
//! Nothing here computes with the coordinates: where a coordinate has to
//! be computed, the caller brings the function that does it.

use vstd::prelude::*;
use crate::color::Color;
use crate::scalar::{Scalar, INFINITY_BITS};

verus! {

/// Three coordinates.
#[derive(Clone, Copy, Debug, PartialEq, Eq, Structural)]
pub struct Vector3 {
    pub x: Scalar,
    pub y: Scalar,
    pub z: Scalar,
}

impl Vector3 {
    /// The origin.
    pub fn zero() -> (v: Vector3)
        ensures
            v.x.bits == 0,
            v.y.bits == 0,
            v.z.bits == 0,
    {
        Vector3 { x: Scalar::zero(), y: Scalar::zero(), z: Scalar::zero() }
    }
}

/// Where the camera stands, how wide it sees and how many pixels it makes.
/// The angles are in degrees; `default_z` is the distance of the image
/// plane from the camera, and `near_plane` and `fal_plane` are the nearest
/// and the farthest distance that the camera is meant to see.
#[derive(Clone, Copy, Debug, PartialEq, Eq, Structural)]
pub struct Camera {
    pub fov_h: Scalar,
    pub fov_v: Scalar,
    pub default_z: Scalar,
    pub width: usize,
    pub height: usize,
    pub near_plane: Scalar,
    pub fal_plane: Scalar,
    pub position: Vector3,
}

/// Where sample `i` of `count` stands on a line whose ends are the first
/// and the last sample, in half steps from the middle: the samples are a
/// whole step apart, and the middle of the line is at zero.
pub open spec fn offset(count: int, i: int) -> int {
    2 * i - (count - 1)
}

/// How many half steps the ends of the line are from its middle; one where
/// a single sample stands in the middle.
pub open spec fn span(count: int) -> int {
    if count > 1 {
        count - 1
    } else {
        1
    }
}

/// The samples lie mirrored about the middle of the line, the first on one
/// end and the last on the other: sample `i` from the start is as far on
/// one side as sample `i` from the end is on the other.
pub proof fn samples_mirror(count: int, i: int)
    requires
        0 <= i < count,
    ensures
        offset(count, count - 1 - i) == -offset(count, i),
        -span(count) <= offset(count, i) <= span(count),
        count > 1 ==> offset(count, 0) == -span(count) && offset(count, count - 1) == span(count),
        count == 1 ==> offset(count, i) == 0,
{
}

/// Sample `i` of `count` as the functions that compute coordinates are given
/// it: where it stands, and how far the ends are.
pub open spec fn sample(count: usize, i: int) -> (i128, usize) {
    (offset(count as int, i) as i128, span(count as int) as usize)
}

/// Where sample `i` of `count` stands, in half steps from the middle.
pub fn sample_offset(count: usize, i: usize) -> (k: i128)
    requires
        i < count,
    ensures
        k == offset(count as int, i as int),
{
    2 * (i as i128) - ((count as i128) - 1)
}

/// How many half steps the ends are from the middle.
pub fn sample_span(count: usize) -> (s: usize)
    ensures
        s == span(count as int),
{
    if count > 1 {
        count - 1
    } else {
        1
    }
}

impl Camera {
    /// Where the rays of the pixels cross the image plane, seen from the
    /// camera: `height` rows of `width` points each, mirrored about the
    /// middle of the plane. `column` and `row` turn half steps into
    /// lengths: given where a sample stands and how far the ends are, they
    /// give the coordinate, which is the half extent of the plane times the
    /// one over the other. The third coordinate is the distance of the
    /// plane.
    pub fn calculate_ray_positions<F: Fn(i128, usize) -> Scalar, G: Fn(i128, usize) -> Scalar>(
        &self,
        column: &F,
        row: &G,
    ) -> (positions: Vec<Vec<Vector3>>)
        requires
            forall|x: int|
                0 <= x < self.width ==> call_requires(
                    *column,
                    #[trigger] sample(self.width, x),
                ),
            forall|y: int|
                0 <= y < self.height ==> call_requires(
                    *row,
                    #[trigger] sample(self.height, y),
                ),
        ensures
            positions@.len() == self.height,
            forall|y: int| 0 <= y < self.height ==> (#[trigger] positions@[y])@.len() == self.width,
            forall|x: int, y: int|
                0 <= x < self.width && 0 <= y < self.height ==> {
                    &&& call_ensures(
                        *column,
                        sample(self.width, x),
                        (#[trigger] positions@[y]@[x]).x,
                    )
                    &&& call_ensures(
                        *row,
                        sample(self.height, y),
                        positions@[y]@[x].y,
                    )
                    &&& positions@[y]@[x].z == self.default_z
                },
    {
        let across_span = sample_span(self.width);
        let down_span = sample_span(self.height);
        let mut across: Vec<Scalar> = Vec::new();
        let mut x: usize = 0;
        while x < self.width
            invariant
                x <= self.width,
                across@.len() == x,
                across_span == span(self.width as int),
                forall|x: int|
                    0 <= x < self.width ==> call_requires(
                        *column,
                        #[trigger] sample(self.width, x),
                    ),
                forall|i: int|
                    0 <= i < x ==> call_ensures(
                        *column,
                        sample(self.width, i),
                        #[trigger] across@[i],
                    ),
            decreases self.width - x,
        {
            let k = sample_offset(self.width, x);
            assert(sample(self.width, x as int) == (k, across_span));
            across.push(column(k, across_span));
            x += 1;
        }
        let mut positions: Vec<Vec<Vector3>> = Vec::new();
        let mut y: usize = 0;
        while y < self.height
            invariant
                y <= self.height,
                positions@.len() == y,
                across@.len() == self.width,
                down_span == span(self.height as int),
                forall|y: int|
                    0 <= y < self.height ==> call_requires(
                        *row,
                        #[trigger] sample(self.height, y),
                    ),
                forall|i: int|
                    0 <= i < self.width ==> call_ensures(
                        *column,
                        sample(self.width, i),
                        #[trigger] across@[i],
                    ),
                forall|j: int| 0 <= j < y ==> (#[trigger] positions@[j])@.len() == self.width,
                forall|i: int, j: int|
                    0 <= i < self.width && 0 <= j < y ==> {
                        &&& call_ensures(
                            *column,
                            sample(self.width, i),
                            (#[trigger] positions@[j]@[i]).x,
                        )
                        &&& call_ensures(
                            *row,
                            sample(self.height, j),
                            positions@[j]@[i].y,
                        )
                        &&& positions@[j]@[i].z == self.default_z
                    },
            decreases self.height - y,
        {
            let k = sample_offset(self.height, y);
            assert(sample(self.height, y as int) == (k, down_span));
            let down = row(k, down_span);
            let mut line: Vec<Vector3> = Vec::new();
            let mut x: usize = 0;
            while x < self.width
                invariant
                    x <= self.width,
                    line@.len() == x,
                    across@.len() == self.width,
                    forall|i: int| 0 <= i < x ==> #[trigger] line@[i] == (Vector3 {
                        x: across@[i],
                        y: down,
                        z: self.default_z,
                    }),
                decreases self.width - x,
            {
                line.push(Vector3 { x: across[x], y: down, z: self.default_z });
                x += 1;
            }
            positions.push(line);
            y += 1;
        }
        positions
    }
}

/// A half-line: where it starts and which way it goes. Whoever makes one
/// gives it a direction of length one.
#[derive(Clone, Copy, Debug, PartialEq, Eq, Structural)]
pub struct Ray {
    pub origin: Vector3,
    pub direction: Vector3,
}

/// Whether a direction of this length can be brought to length one: the
/// length is a number, above zero and below infinity.
pub open spec fn usable_length(length: Scalar) -> bool {
    (Scalar { bits: 0 }).below(length) && length.below(Scalar { bits: INFINITY_BITS })
}

impl Ray {
    /// The ray from `origin` along `unit`, where `unit` is what the caller
    /// got by dividing a direction by its `length`. There is no ray along
    /// a direction of length zero, nor along one whose length is infinite
    /// or no number.
    pub fn new(origin: &Vector3, unit: &Vector3, length: Scalar) -> (ray: Option<Ray>)
        ensures
            usable_length(length) ==> ray == Some(Ray { origin: *origin, direction: *unit }),
            !usable_length(length) ==> ray is None,
    {
        let zero = Scalar::zero();
        let infinity = Scalar::from_bits(INFINITY_BITS);
        if zero.lt(&length) && length.lt(&infinity) {
            Some(Ray { origin: *origin, direction: *unit })
        } else {
            None
        }
    }

    pub fn get_direction(&self) -> (direction: Vector3)
        ensures
            direction == self.direction,
    {
        self.direction
    }
}

/// A light: declared with the scene, not used by the flat shading.
#[derive(Clone, Copy, Debug, PartialEq, Eq, Structural)]
pub struct Light {
    pub direction: Vector3,
    pub color: Color,
    pub intensity: Scalar,
}

/// The sphere of this radius about `position`.
#[derive(Clone, Copy, Debug, PartialEq, Eq, Structural)]
pub struct Sphere {
    pub position: Vector3,
    pub radius: Scalar,
    pub color: Color,
}

impl Sphere {
    pub fn new(position: Vector3, radius: Scalar, color: Color) -> (sphere: Sphere)
        ensures
            sphere == (Sphere { position, radius, color }),
    {
        Sphere { position, radius, color }
    }

    pub fn get_position(&self) -> (position: Vector3)
        ensures
            position == self.position,
    {
        self.position
    }
}

/// The plane through `origin` at right angles to `normal`.
#[derive(Clone, Copy, Debug, PartialEq, Eq, Structural)]
pub struct Plane {
    pub origin: Vector3,
    pub normal: Vector3,
    pub color: Color,
}

impl Plane {
    pub fn new(origin: Vector3, normal: Vector3, color: Color) -> (plane: Plane)
        ensures
            plane == (Plane { origin, normal, color }),
    {
        Plane { origin, normal, color }
    }
}

/// Three corners, in the order that gives the triangle its facing side.
#[derive(Clone, Copy, Debug)]
pub struct Triangle {
    pub vertices: [Vector3; 3],
    pub normals: [Vector3; 3],
    pub color: Color,
}

impl Triangle {
    /// The triangle with these corners; its three normals start at zero.
    pub fn new(v0: Vector3, v1: Vector3, v2: Vector3, color: Color) -> (triangle: Triangle)
        ensures
            is_fresh_triangle(triangle, v0, v1, v2, color),
    {
        let triangle = Triangle {
            vertices: [v0, v1, v2],
            normals: [Vector3::zero(), Vector3::zero(), Vector3::zero()],
            color,
        };
        triangle
    }

    pub fn get_vertices(&self) -> (vertices: [Vector3; 3])
        ensures
            vertices == self.vertices,
    {
        self.vertices
    }

    /// Moves the corners and leaves the rest.
    pub fn set_vertices(&mut self, vertices: [Vector3; 3])
        ensures
            final(self).vertices == vertices,
            final(self).normals == old(self).normals,
            final(self).color == old(self).color,
    {
        self.vertices = vertices;
    }
}

/// A mesh: triangles in world space, in a fixed order, and where the mesh
/// was put.
#[derive(Debug)]
pub struct Model3D {
    pub position: Vector3,
    pub triangles: Vec<Triangle>,
    pub color: Color,
}

/// Whether a triangle has these corners and this colour, and normals of
/// zero.
pub open spec fn is_fresh_triangle(t: Triangle, a: Vector3, b: Vector3, c: Vector3, color: Color) -> bool {
    &&& t.vertices@ == seq![a, b, c]
    &&& t.color == color
    &&& forall|i: int|
        0 <= i < 3 ==> {
            &&& (#[trigger] t.normals@[i]).x.bits == 0
            &&& t.normals@[i].y.bits == 0
            &&& t.normals@[i].z.bits == 0
        }
}

/// Whether `after` is `before` with every corner moved by `moved`, and
/// nothing else changed.
pub open spec fn is_moved<F: Fn(Vector3) -> Vector3>(moved: F, before: Triangle, after: Triangle) -> bool {
    &&& forall|k: int|
        0 <= k < 3 ==> call_ensures(moved, (before.vertices@[k],), #[trigger] after.vertices@[k])
    &&& after.normals == before.normals
    &&& after.color == before.color
}

impl Model3D {
    /// The mesh of these triangles, moved to where the mesh stands. `moved`
    /// says where a corner goes; every corner is moved once, and the
    /// triangles keep their order, their normals and their colours.
    pub fn new<F: Fn(Vector3) -> Vector3>(
        position: Vector3,
        triangles: Vec<Triangle>,
        color: Color,
        moved: &F,
    ) -> (model: Model3D)
        requires
            forall|i: int, k: int|
                0 <= i < triangles@.len() && 0 <= k < 3 ==> call_requires(
                    *moved,
                    (#[trigger] triangles@[i].vertices@[k],),
                ),
        ensures
            model.position == position,
            model.color == color,
            model.triangles@.len() == triangles@.len(),
            forall|i: int|
                0 <= i < triangles@.len() ==> is_moved(*moved, triangles@[i], #[trigger] model.triangles@[i]),
    {
        let mut placed: Vec<Triangle> = Vec::new();
        let mut i: usize = 0;
        while i < triangles.len()
            invariant
                i <= triangles@.len(),
                placed@.len() == i,
                forall|i: int, k: int|
                    0 <= i < triangles@.len() && 0 <= k < 3 ==> call_requires(
                        *moved,
                        (#[trigger] triangles@[i].vertices@[k],),
                    ),
                forall|k: int| 0 <= k < i ==> is_moved(*moved, triangles@[k], #[trigger] placed@[k]),
            decreases triangles@.len() - i,
        {
            let mut triangle = triangles[i];
            let corners = triangle.get_vertices();
            let a = moved(corners[0]);
            let b = moved(corners[1]);
            let c = moved(corners[2]);
            triangle.set_vertices([a, b, c]);
            placed.push(triangle);
            i += 1;
        }
        Model3D { position, triangles: placed, color }
    }

    /// The triangles of a list of corners: one for every three corners in
    /// a row, so that each corner but the last two starts a triangle.
    pub fn triangles_of(corners: &Vec<Vector3>, color: Color) -> (triangles: Vec<Triangle>)
        ensures
            corners@.len() < 3 ==> triangles@.len() == 0,
            corners@.len() >= 3 ==> triangles@.len() == corners@.len() - 2,
            forall|i: int|
                0 <= i < triangles@.len() ==> is_fresh_triangle(
                    #[trigger] triangles@[i],
                    corners@[i],
                    corners@[i + 1],
                    corners@[i + 2],
                    color,
                ),
    {
        let mut triangles: Vec<Triangle> = Vec::new();
        let count: usize = if corners.len() >= 3 {
            corners.len() - 2
        } else {
            0
        };
        let mut i: usize = 0;
        while i < count
            invariant
                triangles@.len() == i,
                i <= count,
                count + 2 <= corners@.len() || count == 0,
                corners@.len() <= usize::MAX,
                forall|k: int|
                    0 <= k < i ==> is_fresh_triangle(
                        #[trigger] triangles@[k],
                        corners@[k],
                        corners@[k + 1],
                        corners@[k + 2],
                        color,
                    ),
            decreases count - i,
        {
            triangles.push(Triangle::new(corners[i], corners[i + 1], corners[i + 2], color));
            i += 1;
        }
        triangles
    }
}

/// A shape of any of the kinds that a scene can hold.
#[derive(Debug)]
pub enum Object3D {
    Sphere(Sphere),
    Plane(Plane),
    Triangle(Triangle),
    Model(Model3D),
}

} // verus!
