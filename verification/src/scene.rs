//! The scene: a camera and the shapes it looks at, and what the camera
//! sees of them.
//!
//! The caller brings four functions that compute: `aim` gives the ray
//! through a pixel, and one function for each kind of shape gives what a
//! ray measures of a shape of that kind. Which shape a ray hits, and what
//! colour a pixel gets, is decided here.

use vstd::prelude::*;
use crate::color::ColorType;
use crate::geometry::{Camera, Object3D, Plane, Ray, Sphere, Triangle};
use crate::intersection::{
    closest,
    closest_is_first_minimum,
    first_minimum,
    keep_nearer,
    outcomes_of,
    Intersectable,
    Intersection,
};
use crate::pixel::PixelBuffer;
use crate::probe::{
    hit_is_in_front,
    MeshProbe,
    PlaneMeasure,
    PlaneProbe,
    Probe,
    SphereMeasure,
    SphereProbe,
    TriangleMeasure,
    TriangleProbe,
};
use crate::render::{painted, pixel_color, render, renders};

verus! {

/// A camera and the shapes it looks at, in the order in which they were
/// added.
#[derive(Debug)]
pub struct Scene {
    pub camera: Camera,
    pub objects: Vec<Object3D>,
}

/// Whether `probe` can be the probe of the ray against the sphere.
pub open spec fn sphere_probe_of<S: Fn(&Sphere, &Ray) -> SphereMeasure>(
    on_sphere: S,
    sphere: Sphere,
    ray: Ray,
    probe: SphereProbe,
) -> bool {
    &&& call_ensures(on_sphere, (&sphere, &ray), probe.measured)
    &&& probe.radius == sphere.radius
    &&& probe.color == sphere.color.channels()
}

/// Whether `probe` can be the probe of the ray against the plane.
pub open spec fn plane_probe_of<P: Fn(&Plane, &Ray) -> PlaneMeasure>(
    on_plane: P,
    plane: Plane,
    ray: Ray,
    probe: PlaneProbe,
) -> bool {
    &&& call_ensures(on_plane, (&plane, &ray), probe.measured)
    &&& probe.color == plane.color.channels()
}

/// Whether `probe` can be the probe of the ray against the triangle.
pub open spec fn triangle_probe_of<T: Fn(&Triangle, &Ray) -> TriangleMeasure>(
    on_triangle: T,
    triangle: Triangle,
    ray: Ray,
    probe: TriangleProbe,
) -> bool {
    &&& call_ensures(on_triangle, (&triangle, &ray), probe.measured)
    &&& probe.color == triangle.color.channels()
}

/// Whether `probes` can be the probes of the ray against the triangles,
/// one by one.
pub open spec fn triangle_probes_of<T: Fn(&Triangle, &Ray) -> TriangleMeasure>(
    on_triangle: T,
    triangles: Seq<Triangle>,
    ray: Ray,
    probes: Seq<TriangleProbe>,
) -> bool {
    &&& probes.len() == triangles.len()
    &&& forall|i: int|
        0 <= i < triangles.len() ==> triangle_probe_of(
            on_triangle,
            triangles[i],
            ray,
            #[trigger] probes[i],
        )
}

/// Whether `probe` can be the probe of the ray against the shape: it is of
/// the shape's kind, with what the ray measures and what the shape is.
pub open spec fn probe_of<
    S: Fn(&Sphere, &Ray) -> SphereMeasure,
    P: Fn(&Plane, &Ray) -> PlaneMeasure,
    T: Fn(&Triangle, &Ray) -> TriangleMeasure,
>(on_sphere: S, on_plane: P, on_triangle: T, object: Object3D, ray: Ray, probe: Probe) -> bool {
    match object {
        Object3D::Sphere(sphere) => probe is Sphere && sphere_probe_of(
            on_sphere,
            sphere,
            ray,
            probe->Sphere_0,
        ),
        Object3D::Plane(plane) => probe is Plane && plane_probe_of(
            on_plane,
            plane,
            ray,
            probe->Plane_0,
        ),
        Object3D::Triangle(triangle) => probe is Triangle && triangle_probe_of(
            on_triangle,
            triangle,
            ray,
            probe->Triangle_0,
        ),
        Object3D::Model(model) => probe is Mesh && triangle_probes_of(
            on_triangle,
            model.triangles@,
            ray,
            probe->Mesh_0.triangles@,
        ),
    }
}

/// Whether `probes` can be the probes of the ray against the shapes, one
/// by one.
pub open spec fn probes_of<
    S: Fn(&Sphere, &Ray) -> SphereMeasure,
    P: Fn(&Plane, &Ray) -> PlaneMeasure,
    T: Fn(&Triangle, &Ray) -> TriangleMeasure,
>(
    on_sphere: S,
    on_plane: P,
    on_triangle: T,
    objects: Seq<Object3D>,
    ray: Ray,
    probes: Seq<Probe>,
) -> bool {
    &&& probes.len() == objects.len()
    &&& forall|i: int|
        0 <= i < objects.len() ==> probe_of(
            on_sphere,
            on_plane,
            on_triangle,
            objects[i],
            ray,
            #[trigger] probes[i],
        )
}

/// Whether the ray can be measured against the shape.
pub open spec fn can_probe<
    S: Fn(&Sphere, &Ray) -> SphereMeasure,
    P: Fn(&Plane, &Ray) -> PlaneMeasure,
    T: Fn(&Triangle, &Ray) -> TriangleMeasure,
>(on_sphere: S, on_plane: P, on_triangle: T, object: Object3D, ray: Ray) -> bool {
    match object {
        Object3D::Sphere(sphere) => call_requires(on_sphere, (&sphere, &ray)),
        Object3D::Plane(plane) => call_requires(on_plane, (&plane, &ray)),
        Object3D::Triangle(triangle) => call_requires(on_triangle, (&triangle, &ray)),
        Object3D::Model(model) => forall|i: int|
            0 <= i < model.triangles@.len() ==> call_requires(
                on_triangle,
                (&#[trigger] model.triangles@[i], &ray),
            ),
    }
}

/// Whether the ray can be measured against every one of the shapes.
pub open spec fn can_probe_all<
    S: Fn(&Sphere, &Ray) -> SphereMeasure,
    P: Fn(&Plane, &Ray) -> PlaneMeasure,
    T: Fn(&Triangle, &Ray) -> TriangleMeasure,
>(on_sphere: S, on_plane: P, on_triangle: T, objects: Seq<Object3D>, ray: Ray) -> bool {
    forall|i: int|
        0 <= i < objects.len() ==> can_probe(
            on_sphere,
            on_plane,
            on_triangle,
            #[trigger] objects[i],
            ray,
        )
}

/// Whether `found` can be what the ray hits among the shapes: the closest
/// of the hits on them, the earlier of equals.
pub open spec fn casts<
    S: Fn(&Sphere, &Ray) -> SphereMeasure,
    P: Fn(&Plane, &Ray) -> PlaneMeasure,
    T: Fn(&Triangle, &Ray) -> TriangleMeasure,
>(
    on_sphere: S,
    on_plane: P,
    on_triangle: T,
    objects: Seq<Object3D>,
    ray: Ray,
    found: Option<Intersection>,
) -> bool {
    exists|probes: Seq<Probe>| #[trigger]
        probes_of(on_sphere, on_plane, on_triangle, objects, ray, probes) && found == closest(
            outcomes_of(probes),
        )
}

/// Whether `found` can be what the pixel `(x, y)` sees of the shapes: what
/// its ray hits, and nothing where there is no ray.
pub open spec fn sees<
    A: Fn(usize, usize) -> Option<Ray>,
    S: Fn(&Sphere, &Ray) -> SphereMeasure,
    P: Fn(&Plane, &Ray) -> PlaneMeasure,
    T: Fn(&Triangle, &Ray) -> TriangleMeasure,
>(
    aim: A,
    on_sphere: S,
    on_plane: P,
    on_triangle: T,
    objects: Seq<Object3D>,
    x: usize,
    y: usize,
    found: Option<Intersection>,
) -> bool {
    exists|ray: Option<Ray>| #[trigger]
        call_ensures(aim, (x, y), ray) && match ray {
            Some(r) => casts(on_sphere, on_plane, on_triangle, objects, r, found),
            None => found is None,
        }
}

/// Whether `c` can be the colour of the pixel `(x, y)`: that of what it
/// sees, or the background where it sees nothing.
pub open spec fn shows<
    A: Fn(usize, usize) -> Option<Ray>,
    S: Fn(&Sphere, &Ray) -> SphereMeasure,
    P: Fn(&Plane, &Ray) -> PlaneMeasure,
    T: Fn(&Triangle, &Ray) -> TriangleMeasure,
>(
    aim: A,
    on_sphere: S,
    on_plane: P,
    on_triangle: T,
    objects: Seq<Object3D>,
    x: usize,
    y: usize,
    c: ColorType,
) -> bool {
    exists|found: Option<Intersection>| #[trigger]
        sees(aim, on_sphere, on_plane, on_triangle, objects, x, y, found) && c == pixel_color(
            found,
        )
}

/// Whether the buffer is a picture of the scene: it has the camera's
/// dimensions, and every pixel a colour that it can have.
pub open spec fn pictures<
    A: Fn(usize, usize) -> Option<Ray>,
    S: Fn(&Sphere, &Ray) -> SphereMeasure,
    P: Fn(&Plane, &Ray) -> PlaneMeasure,
    T: Fn(&Triangle, &Ray) -> TriangleMeasure,
>(aim: A, on_sphere: S, on_plane: P, on_triangle: T, scene: Scene, buffer: PixelBuffer) -> bool {
    &&& buffer.wf()
    &&& buffer.width == scene.camera.width
    &&& buffer.height == scene.camera.height
    &&& forall|x: int, y: int|
        0 <= x < buffer.width && 0 <= y < buffer.height ==> shows(
            aim,
            on_sphere,
            on_plane,
            on_triangle,
            scene.objects@,
            x as usize,
            y as usize,
            #[trigger] buffer@[y][x],
        )
}

/// Measures a ray against a shape of any kind: a mesh triangle by
/// triangle, in order.
pub fn probe<
    S: Fn(&Sphere, &Ray) -> SphereMeasure,
    P: Fn(&Plane, &Ray) -> PlaneMeasure,
    T: Fn(&Triangle, &Ray) -> TriangleMeasure,
>(object: &Object3D, ray: &Ray, on_sphere: &S, on_plane: &P, on_triangle: &T) -> (probe: Probe)
    requires
        can_probe(*on_sphere, *on_plane, *on_triangle, *object, *ray),
    ensures
        probe_of(*on_sphere, *on_plane, *on_triangle, *object, *ray, probe),
{
    match object {
        Object3D::Sphere(sphere) => Probe::Sphere(
            SphereProbe {
                measured: on_sphere(sphere, ray),
                radius: sphere.radius,
                color: sphere.color.rgb(),
            },
        ),
        Object3D::Plane(plane) => Probe::Plane(
            PlaneProbe { measured: on_plane(plane, ray), color: plane.color.rgb() },
        ),
        Object3D::Triangle(triangle) => Probe::Triangle(
            TriangleProbe { measured: on_triangle(triangle, ray), color: triangle.color.rgb() },
        ),
        Object3D::Model(model) => {
            let mut probes: Vec<TriangleProbe> = Vec::new();
            let mut i: usize = 0;
            while i < model.triangles.len()
                invariant
                    i <= model.triangles@.len(),
                    probes@.len() == i,
                    forall|k: int|
                        0 <= k < model.triangles@.len() ==> call_requires(
                            *on_triangle,
                            (&#[trigger] model.triangles@[k], ray),
                        ),
                    forall|k: int|
                        0 <= k < i ==> triangle_probe_of(
                            *on_triangle,
                            model.triangles@[k],
                            *ray,
                            #[trigger] probes@[k],
                        ),
                decreases model.triangles@.len() - i,
            {
                let triangle = &model.triangles[i];
                probes.push(
                    TriangleProbe {
                        measured: on_triangle(triangle, ray),
                        color: triangle.color.rgb(),
                    },
                );
                i += 1;
            }
            Probe::Mesh(MeshProbe { triangles: probes })
        },
    }
}

impl Scene {
    /// A scene with no shapes in it.
    pub fn new(camera: Camera) -> (scene: Scene)
        ensures
            scene.camera == camera,
            scene.objects@.len() == 0,
    {
        Scene { camera, objects: Vec::new() }
    }

    /// Replaces all the shapes.
    pub fn set_objects(&mut self, objects: Vec<Object3D>)
        ensures
            final(self).camera == old(self).camera,
            final(self).objects == objects,
    {
        self.objects = objects;
    }

    /// Adds one shape behind the others.
    pub fn add_object(&mut self, object: Object3D)
        ensures
            final(self).camera == old(self).camera,
            final(self).objects@ == old(self).objects@.push(object),
    {
        self.objects.push(object);
    }

    /// Measures the ray against every shape, in order, and keeps the
    /// closest hit, the earlier of equals.
    pub fn raycast<
        S: Fn(&Sphere, &Ray) -> SphereMeasure,
        P: Fn(&Plane, &Ray) -> PlaneMeasure,
        T: Fn(&Triangle, &Ray) -> TriangleMeasure,
    >(&self, ray: &Ray, on_sphere: &S, on_plane: &P, on_triangle: &T) -> (found: Option<
        Intersection,
    >)
        requires
            can_probe_all(*on_sphere, *on_plane, *on_triangle, self.objects@, *ray),
        ensures
            casts(*on_sphere, *on_plane, *on_triangle, self.objects@, *ray, found),
    {
        let mut best: Option<Intersection> = None;
        let ghost mut probes: Seq<Probe> = Seq::empty();
        let mut i: usize = 0;
        while i < self.objects.len()
            invariant
                i <= self.objects@.len(),
                can_probe_all(*on_sphere, *on_plane, *on_triangle, self.objects@, *ray),
                probes_of(
                    *on_sphere,
                    *on_plane,
                    *on_triangle,
                    self.objects@.take(i as int),
                    *ray,
                    probes,
                ),
                best == closest(outcomes_of(probes)),
            decreases self.objects@.len() - i,
        {
            let next_probe = probe(&self.objects[i], ray, on_sphere, on_plane, on_triangle);
            let next = next_probe.get_intersection();
            proof {
                let longer = probes.push(next_probe);
                assert(outcomes_of(longer).drop_last() =~= outcomes_of(probes));
                assert(probes_of(
                    *on_sphere,
                    *on_plane,
                    *on_triangle,
                    self.objects@.take(i + 1),
                    *ray,
                    longer,
                ));
                probes = longer;
            }
            best = keep_nearer(best, next);
            i += 1;
        }
        proof {
            assert(self.objects@.take(i as int) =~= self.objects@);
        }
        best
    }

    /// What the pixel `(x, y)` sees: what the ray through it hits, and
    /// nothing where no ray goes through it.
    pub fn trace<
        A: Fn(usize, usize) -> Option<Ray>,
        S: Fn(&Sphere, &Ray) -> SphereMeasure,
        P: Fn(&Plane, &Ray) -> PlaneMeasure,
        T: Fn(&Triangle, &Ray) -> TriangleMeasure,
    >(&self, x: usize, y: usize, aim: &A, on_sphere: &S, on_plane: &P, on_triangle: &T) -> (found:
        Option<Intersection>)
        requires
            call_requires(*aim, (x, y)),
            forall|ray: Ray|
                can_probe_all(*on_sphere, *on_plane, *on_triangle, self.objects@, ray),
        ensures
            sees(*aim, *on_sphere, *on_plane, *on_triangle, self.objects@, x, y, found),
    {
        let aimed = aim(x, y);
        match aimed {
            Some(ray) => {
                let found = self.raycast(&ray, on_sphere, on_plane, on_triangle);
                found
            },
            None => {
                None
            },
        }
    }

    /// Renders the image that the camera sees, `camera.width` by
    /// `camera.height` pixels: every pixel gets the colour of what it sees,
    /// or the background. The work goes tile by tile over an `n` by `n`
    /// grid of tiles; the result does not show it.
    pub fn raytrace<
        A: Fn(usize, usize) -> Option<Ray>,
        S: Fn(&Sphere, &Ray) -> SphereMeasure,
        P: Fn(&Plane, &Ray) -> PlaneMeasure,
        T: Fn(&Triangle, &Ray) -> TriangleMeasure,
    >(&self, n: usize, aim: &A, on_sphere: &S, on_plane: &P, on_triangle: &T) -> (buffer:
        PixelBuffer)
        requires
            0 < n,
            n * n <= usize::MAX,
            forall|x: usize, y: usize|
                x < self.camera.width && y < self.camera.height ==> call_requires(*aim, (x, y)),
            forall|ray: Ray|
                can_probe_all(*on_sphere, *on_plane, *on_triangle, self.objects@, ray),
        ensures
            pictures(*aim, *on_sphere, *on_plane, *on_triangle, *self, buffer),
    {
        let width = self.camera.width;
        let height = self.camera.height;
        let pixel = |x: usize, y: usize| -> (found: Option<Intersection>)
            requires
                x < width,
                y < height,
            ensures
                sees(*aim, *on_sphere, *on_plane, *on_triangle, self.objects@, x, y, found),
            { self.trace(x, y, aim, on_sphere, on_plane, on_triangle) };
        let buffer = render(width, height, n, &pixel);
        proof {
            assert forall|x: int, y: int| 0 <= x < buffer.width && 0 <= y < buffer.height implies shows(
                *aim,
                *on_sphere,
                *on_plane,
                *on_triangle,
                self.objects@,
                x as usize,
                y as usize,
                #[trigger] buffer@[y][x],
            ) by {
                assert(painted(pixel, buffer@, x, y));
            }
        }
        buffer
    }
}

/// Whether `aim` can give one ray only for a pixel of the image.
pub open spec fn aim_is_deterministic<A: Fn(usize, usize) -> Option<Ray>>(
    aim: A,
    width: usize,
    height: usize,
) -> bool {
    forall|x: usize, y: usize, a: Option<Ray>, b: Option<Ray>|
        x < width && y < height && #[trigger] call_ensures(aim, (x, y), a) && #[trigger] call_ensures(
            aim,
            (x, y),
            b,
        ) ==> a == b
}

/// Whether each of the three measuring functions can give one measure only
/// for a shape and a ray.
pub open spec fn measuring_is_deterministic<
    S: Fn(&Sphere, &Ray) -> SphereMeasure,
    P: Fn(&Plane, &Ray) -> PlaneMeasure,
    T: Fn(&Triangle, &Ray) -> TriangleMeasure,
>(on_sphere: S, on_plane: P, on_triangle: T) -> bool {
    &&& forall|shape: Sphere, ray: Ray, a: SphereMeasure, b: SphereMeasure|
        #[trigger] call_ensures(on_sphere, (&shape, &ray), a) && #[trigger] call_ensures(
            on_sphere,
            (&shape, &ray),
            b,
        ) ==> a == b
    &&& forall|shape: Plane, ray: Ray, a: PlaneMeasure, b: PlaneMeasure|
        #[trigger] call_ensures(on_plane, (&shape, &ray), a) && #[trigger] call_ensures(
            on_plane,
            (&shape, &ray),
            b,
        ) ==> a == b
    &&& forall|shape: Triangle, ray: Ray, a: TriangleMeasure, b: TriangleMeasure|
        #[trigger] call_ensures(on_triangle, (&shape, &ray), a) && #[trigger] call_ensures(
            on_triangle,
            (&shape, &ray),
            b,
        ) ==> a == b
}

/// Whether a shape has this colour; a mesh, whether one of its triangles
/// has.
pub open spec fn wears(object: Object3D, c: ColorType) -> bool {
    match object {
        Object3D::Sphere(sphere) => c == sphere.color.channels(),
        Object3D::Plane(plane) => c == plane.color.channels(),
        Object3D::Triangle(triangle) => c == triangle.color.channels(),
        Object3D::Model(model) => exists|k: int|
            0 <= k < model.triangles@.len() && c == (#[trigger] model.triangles@[k]).color.channels(),
    }
}

/// With deterministic measuring, two probes of one ray against one shape
/// have the same outcome.
proof fn probes_agree<
    S: Fn(&Sphere, &Ray) -> SphereMeasure,
    P: Fn(&Plane, &Ray) -> PlaneMeasure,
    T: Fn(&Triangle, &Ray) -> TriangleMeasure,
>(on_sphere: S, on_plane: P, on_triangle: T, object: Object3D, ray: Ray, a: Probe, b: Probe)
    requires
        measuring_is_deterministic(on_sphere, on_plane, on_triangle),
        probe_of(on_sphere, on_plane, on_triangle, object, ray, a),
        probe_of(on_sphere, on_plane, on_triangle, object, ray, b),
    ensures
        a.hit() == b.hit(),
{
    if object is Model {
        let first = a->Mesh_0.triangles@;
        let second = b->Mesh_0.triangles@;
        assert forall|k: int| 0 <= k < first.len() implies first[k] == second[k] by {}
        assert(first =~= second);
    }
}

/// With deterministic measuring a ray hits one thing only.
proof fn casts_agree<
    S: Fn(&Sphere, &Ray) -> SphereMeasure,
    P: Fn(&Plane, &Ray) -> PlaneMeasure,
    T: Fn(&Triangle, &Ray) -> TriangleMeasure,
>(
    on_sphere: S,
    on_plane: P,
    on_triangle: T,
    objects: Seq<Object3D>,
    ray: Ray,
    a: Option<Intersection>,
    b: Option<Intersection>,
)
    requires
        measuring_is_deterministic(on_sphere, on_plane, on_triangle),
        casts(on_sphere, on_plane, on_triangle, objects, ray, a),
        casts(on_sphere, on_plane, on_triangle, objects, ray, b),
    ensures
        a == b,
{
    let first = choose|probes: Seq<Probe>| #[trigger]
        probes_of(on_sphere, on_plane, on_triangle, objects, ray, probes) && a == closest(
            outcomes_of(probes),
        );
    let second = choose|probes: Seq<Probe>| #[trigger]
        probes_of(on_sphere, on_plane, on_triangle, objects, ray, probes) && b == closest(
            outcomes_of(probes),
        );
    assert forall|i: int| 0 <= i < objects.len() implies outcomes_of(first)[i] == outcomes_of(
        second,
    )[i] by {
        probes_agree(on_sphere, on_plane, on_triangle, objects[i], ray, first[i], second[i]);
    }
    assert(outcomes_of(first) =~= outcomes_of(second));
}

/// Two pictures of one scene, made with the same deterministic functions,
/// are the same image: rendering twice changes nothing, and neither does
/// rendering with another number of tiles.
pub proof fn pictures_agree<
    A: Fn(usize, usize) -> Option<Ray>,
    S: Fn(&Sphere, &Ray) -> SphereMeasure,
    P: Fn(&Plane, &Ray) -> PlaneMeasure,
    T: Fn(&Triangle, &Ray) -> TriangleMeasure,
>(aim: A, on_sphere: S, on_plane: P, on_triangle: T, scene: Scene, a: PixelBuffer, b: PixelBuffer)
    requires
        aim_is_deterministic(aim, scene.camera.width, scene.camera.height),
        measuring_is_deterministic(on_sphere, on_plane, on_triangle),
        pictures(aim, on_sphere, on_plane, on_triangle, scene, a),
        pictures(aim, on_sphere, on_plane, on_triangle, scene, b),
    ensures
        a@ == b@,
{
    let objects = scene.objects@;
    assert forall|y: int| 0 <= y < a.height implies a@[y] == b@[y] by {
        assert forall|x: int| 0 <= x < a.width implies a@[y][x] == b@[y][x] by {
            let (px, py) = (x as usize, y as usize);
            let first = choose|found: Option<Intersection>| #[trigger]
                sees(aim, on_sphere, on_plane, on_triangle, objects, px, py, found) && a@[y][x]
                    == pixel_color(found);
            let second = choose|found: Option<Intersection>| #[trigger]
                sees(aim, on_sphere, on_plane, on_triangle, objects, px, py, found) && b@[y][x]
                    == pixel_color(found);
            let one = choose|ray: Option<Ray>| #[trigger]
                call_ensures(aim, (px, py), ray) && match ray {
                    Some(r) => casts(on_sphere, on_plane, on_triangle, objects, r, first),
                    None => first is None,
                };
            let other = choose|ray: Option<Ray>| #[trigger]
                call_ensures(aim, (px, py), ray) && match ray {
                    Some(r) => casts(on_sphere, on_plane, on_triangle, objects, r, second),
                    None => second is None,
                };
            assert(one == other);
            if one is Some {
                casts_agree(on_sphere, on_plane, on_triangle, objects, one->Some_0, first, second);
            }
        }
    }
}

/// Whether the ray's hit is on shape `k`: shape `k` is hit there, no shape
/// is hit nearer, and every shape before it that is hit is hit farther.
pub open spec fn hits_shape<
    S: Fn(&Sphere, &Ray) -> SphereMeasure,
    P: Fn(&Plane, &Ray) -> PlaneMeasure,
    T: Fn(&Triangle, &Ray) -> TriangleMeasure,
>(
    on_sphere: S,
    on_plane: P,
    on_triangle: T,
    objects: Seq<Object3D>,
    ray: Ray,
    hit: Intersection,
    k: int,
) -> bool {
    exists|probes: Seq<Probe>| #[trigger]
        probes_of(on_sphere, on_plane, on_triangle, objects, ray, probes) && first_minimum(
            outcomes_of(probes),
            k,
        ) && probes[k].hit() == Some(hit)
}

/// What a ray hits is at a distance of zero or more, and it is the hit on
/// one of the shapes, whose colour it has: on the first shape, in order,
/// than which none is hit nearer.
pub proof fn hit_is_on_the_nearest_shape<
    S: Fn(&Sphere, &Ray) -> SphereMeasure,
    P: Fn(&Plane, &Ray) -> PlaneMeasure,
    T: Fn(&Triangle, &Ray) -> TriangleMeasure,
>(
    on_sphere: S,
    on_plane: P,
    on_triangle: T,
    objects: Seq<Object3D>,
    ray: Ray,
    found: Option<Intersection>,
)
    requires
        casts(on_sphere, on_plane, on_triangle, objects, ray, found),
        found is Some,
    ensures
        found->Some_0.distance.non_negative(),
        exists|k: int|
            0 <= k < objects.len() && #[trigger] hits_shape(
                on_sphere,
                on_plane,
                on_triangle,
                objects,
                ray,
                found->Some_0,
                k,
            ) && wears(objects[k], found->Some_0.color),
{
    let probes = choose|probes: Seq<Probe>| #[trigger]
        probes_of(on_sphere, on_plane, on_triangle, objects, ray, probes) && found == closest(
            outcomes_of(probes),
        );
    let outcomes = outcomes_of(probes);
    closest_is_first_minimum(outcomes);
    let k = choose|k: int| first_minimum(outcomes, k) && outcomes[k] == closest(outcomes);
    hit_is_in_front(probes[k]);
    match objects[k] {
        Object3D::Model(model) => {
            let inner = outcomes_of(probes[k]->Mesh_0.triangles@);
            closest_is_first_minimum(inner);
            let j = choose|j: int| first_minimum(inner, j) && inner[j] == closest(inner);
            assert(triangle_probe_of(
                on_triangle,
                model.triangles@[j],
                ray,
                probes[k]->Mesh_0.triangles@[j],
            ));
        },
        _ => {},
    }
    assert(hits_shape(on_sphere, on_plane, on_triangle, objects, ray, found->Some_0, k));
}

} // verus!
