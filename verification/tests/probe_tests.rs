use raytracer::color::{Color, ColorType};
use raytracer::intersection::{closest_hit, keep_nearer, Intersectable, Intersection};
use raytracer::probe::{
    MeshProbe, PlaneMeasure, PlaneProbe, Probe, SphereMeasure, SphereProbe, TriangleMeasure,
    TriangleProbe,
};
use raytracer::scalar::Scalar;

fn scalar(v: f32) -> Scalar {
    Scalar::from_bits(v.to_bits())
}

fn red() -> ColorType {
    Color::Red.rgb()
}

/// The measurements of a ray from `origin` along the unit vector `dir`
/// against the sphere at `center`.
fn sphere(origin: [f32; 3], dir: [f32; 3], center: [f32; 3], radius: f32) -> SphereProbe {
    let l = [center[0] - origin[0], center[1] - origin[1], center[2] - origin[2]];
    let tca = l[0] * dir[0] + l[1] * dir[1] + l[2] * dir[2];
    let l2 = l[0] * l[0] + l[1] * l[1] + l[2] * l[2];
    let d2 = l2 - tca * tca;
    let d = d2.sqrt();
    let h = (radius * radius - d * d).sqrt();
    sphere_probe(d2, d, radius, tca - h, tca + h)
}

fn sphere_probe(d2: f32, d: f32, radius: f32, t0: f32, t1: f32) -> SphereProbe {
    SphereProbe {
        measured: SphereMeasure { d2: scalar(d2), d: scalar(d), t0: scalar(t0), t1: scalar(t1) },
        radius: scalar(radius),
        color: red(),
    }
}

fn plane_probe(denom: f32, t: f32, color: ColorType) -> PlaneProbe {
    PlaneProbe { measured: PlaneMeasure { denom: scalar(denom), t: scalar(t) }, color }
}

fn triangle_probe(u: f32, v: f32, t: f32, color: ColorType) -> TriangleProbe {
    TriangleProbe {
        measured: TriangleMeasure { u: scalar(u), v: scalar(v), sum: scalar(u + v), t: scalar(t) },
        color,
    }
}

fn plane(origin: [f32; 3], dir: [f32; 3], point: [f32; 3], normal: [f32; 3]) -> PlaneProbe {
    let denom = normal[0] * dir[0] + normal[1] * dir[1] + normal[2] * dir[2];
    let w = [point[0] - origin[0], point[1] - origin[1], point[2] - origin[2]];
    let t = (w[0] * normal[0] + w[1] * normal[1] + w[2] * normal[2]) / denom;
    plane_probe(denom, t, Color::DarkGray.rgb())
}

fn cross(a: [f32; 3], b: [f32; 3]) -> [f32; 3] {
    [a[1] * b[2] - a[2] * b[1], a[2] * b[0] - a[0] * b[2], a[0] * b[1] - a[1] * b[0]]
}

fn dot(a: [f32; 3], b: [f32; 3]) -> f32 {
    a[0] * b[0] + a[1] * b[1] + a[2] * b[2]
}

fn minus(a: [f32; 3], b: [f32; 3]) -> [f32; 3] {
    [a[0] - b[0], a[1] - b[1], a[2] - b[2]]
}

fn triangle(origin: [f32; 3], dir: [f32; 3], v: [[f32; 3]; 3], color: ColorType) -> TriangleProbe {
    let v2v0 = minus(v[2], v[0]);
    let v1v0 = minus(v[1], v[0]);
    let p = cross(dir, v1v0);
    let inv_det = 1.0 / dot(v2v0, p);
    let t_vec = minus(origin, v[0]);
    let u = inv_det * dot(t_vec, p);
    let q = cross(t_vec, v2v0);
    let w = inv_det * dot(dir, q);
    let t = inv_det * dot(q, v1v0);
    triangle_probe(u, w, t, color)
}

#[test]
fn ray_through_the_centre_reports_the_near_crossing() {
    let p = sphere([0.0, 0.0, -4.0], [0.0, 0.0, 1.0], [0.0, 0.0, 10.0], 5.0);
    assert_eq!(p.measured.t0.to_bits(), 9.0f32.to_bits());
    assert_eq!(p.measured.t1.to_bits(), 19.0f32.to_bits());
    let hit = p.get_intersection().unwrap();
    assert_eq!(hit.distance.to_bits(), 9.0f32.to_bits());
    assert_eq!(hit.color, red());
}

#[test]
fn ray_from_inside_the_sphere_reports_the_far_crossing() {
    let p = sphere([0.0, 0.0, 8.0], [0.0, 0.0, 1.0], [0.0, 0.0, 10.0], 5.0);
    assert_eq!(p.measured.t0.to_bits(), (-3.0f32).to_bits());
    let hit = p.get_intersection().unwrap();
    assert_eq!(hit.distance.to_bits(), 7.0f32.to_bits());
}

#[test]
fn sphere_behind_the_origin_is_missed() {
    let p = sphere([0.0, 0.0, 20.0], [0.0, 0.0, 1.0], [0.0, 0.0, 10.0], 5.0);
    assert_eq!(p.get_intersection(), None);
}

#[test]
fn ray_past_the_sphere_is_a_miss() {
    let p = sphere([6.0, 0.0, -4.0], [0.0, 0.0, 1.0], [0.0, 0.0, 10.0], 5.0);
    assert_eq!(p.get_intersection(), None);
}

#[test]
fn grazing_ray_touches_the_sphere_once() {
    let p = sphere([5.0, 0.0, -4.0], [0.0, 0.0, 1.0], [0.0, 0.0, 10.0], 5.0);
    let hit = p.get_intersection().unwrap();
    assert_eq!(hit.distance.to_bits(), 14.0f32.to_bits());
}

#[test]
fn sphere_with_a_negative_squared_distance_is_missed() {
    let p = sphere_probe(-1e-3, f32::NAN, 5.0, 1.0, 2.0);
    assert_eq!(p.get_intersection(), None);
}

#[test]
fn sphere_whose_distance_is_no_number_is_missed() {
    let p = sphere_probe(f32::NAN, f32::NAN, 5.0, 1.0, 2.0);
    assert_eq!(p.get_intersection(), None);
}

#[test]
fn sphere_crossings_that_are_no_numbers_are_no_hit() {
    let p = sphere_probe(0.0, 0.0, 5.0, f32::NAN, f32::NAN);
    assert_eq!(p.get_intersection(), None);
    let q = sphere_probe(0.0, 0.0, 5.0, f32::NAN, 4.0);
    assert_eq!(q.get_intersection().unwrap().distance.to_bits(), 4.0f32.to_bits());
}

#[test]
fn sphere_takes_the_smaller_crossing_whatever_their_order() {
    let p = sphere_probe(0.0, 0.0, 5.0, 8.0, 2.0);
    assert_eq!(p.get_intersection().unwrap().distance.to_bits(), 2.0f32.to_bits());
}

#[test]
fn parallel_ray_misses_the_plane_from_any_origin() {
    for origin in [[0.0, 0.0, 0.0], [0.0, 4.0, 0.0], [3.0, -7.0, 2.0], [0.0, 5.0, -4.0]] {
        let p = plane(origin, [1.0, 0.0, 0.0], [0.0, 5.0, -4.0], [0.0, 1.0, 0.0]);
        assert_eq!(p.get_intersection(), None);
    }
    let nearly = plane_probe(-9e-7, 3.0, red());
    assert_eq!(nearly.get_intersection(), None);
    let barely_not = plane_probe(1e-6, 3.0, red());
    assert_eq!(barely_not.get_intersection().unwrap().distance.to_bits(), 3.0f32.to_bits());
}

#[test]
fn plane_in_front_is_hit_at_its_distance() {
    let p = plane([0.0, 0.0, -4.0], [0.0, 0.0, 1.0], [0.0, 0.0, 10.0], [0.0, 0.0, -1.0]);
    let hit = p.get_intersection().unwrap();
    assert_eq!(hit.distance.to_bits(), 14.0f32.to_bits());
    assert_eq!(hit.color, Color::DarkGray.rgb());
}

#[test]
fn plane_behind_the_origin_is_missed() {
    let p = plane([0.0, 0.0, 12.0], [0.0, 0.0, 1.0], [0.0, 0.0, 10.0], [0.0, 0.0, -1.0]);
    assert_eq!(p.get_intersection(), None);
    let no_number = plane_probe(1.0, f32::NAN, red());
    assert_eq!(no_number.get_intersection(), None);
}

#[test]
fn triangle_hit_in_the_interior_has_coordinates_in_range() {
    let corners = [[0.0, 0.0, 5.0], [4.0, 0.0, 5.0], [0.0, 4.0, 5.0]];
    let p = triangle([1.0, 1.0, 0.0], [0.0, 0.0, 1.0], corners, red());
    let hit = p.get_intersection().unwrap();
    assert_eq!(hit.distance.to_bits(), 5.0f32.to_bits());
    let (u, v) = (f32::from_bits(p.measured.u.to_bits()), f32::from_bits(p.measured.v.to_bits()));
    assert!(u >= 0.0 && v >= 0.0 && u + v <= 1.0);
    assert_eq!(u, 0.25);
    assert_eq!(v, 0.25);
}

#[test]
fn triangle_is_missed_outside_its_edges() {
    let corners = [[0.0, 0.0, 5.0], [4.0, 0.0, 5.0], [0.0, 4.0, 5.0]];
    assert_eq!(triangle([3.0, 3.0, 0.0], [0.0, 0.0, 1.0], corners, red()).get_intersection(), None);
    assert_eq!(triangle([-1.0, 1.0, 0.0], [0.0, 0.0, 1.0], corners, red()).get_intersection(), None);
    assert_eq!(triangle([1.0, -1.0, 0.0], [0.0, 0.0, 1.0], corners, red()).get_intersection(), None);
    assert_eq!(triangle([1.0, 1.0, 9.0], [0.0, 0.0, 1.0], corners, red()).get_intersection(), None);
}

#[test]
fn triangle_in_the_plane_of_the_ray_is_missed() {
    let corners = [[0.0, 0.0, 5.0], [4.0, 0.0, 5.0], [0.0, 4.0, 5.0]];
    let p = triangle([1.0, 1.0, 0.0], [1.0, 0.0, 0.0], corners, red());
    assert_eq!(p.get_intersection(), None);
}

#[test]
fn shared_edge_of_two_triangles_leaves_no_gap() {
    let left = [[0.0, 0.0, 5.0], [4.0, 0.0, 5.0], [0.0, 4.0, 5.0]];
    let right = [[4.0, 4.0, 5.0], [0.0, 4.0, 5.0], [4.0, 0.0, 5.0]];
    for k in 0..=8 {
        let x = 0.5 * k as f32;
        let origin = [x, 4.0 - x, 0.0];
        let a = triangle(origin, [0.0, 0.0, 1.0], left, red());
        let b = triangle(origin, [0.0, 0.0, 1.0], right, Color::Blue.rgb());
        let mesh = MeshProbe { triangles: vec![a, b] };
        let hit = mesh.get_intersection();
        assert!(hit.is_some(), "gap at {}", x);
        assert_eq!(hit.unwrap().distance.to_bits(), 5.0f32.to_bits());
    }
}

#[test]
fn mesh_reports_its_nearest_triangle() {
    let far = triangle_probe(0.2, 0.2, 9.0, red());
    let near = triangle_probe(0.2, 0.2, 2.5, Color::Green.rgb());
    let missed = triangle_probe(1.5, 0.2, 1.0, red());
    let mesh = MeshProbe { triangles: vec![far, missed, near] };
    let hit = mesh.get_intersection().unwrap();
    assert_eq!(hit.distance.to_bits(), 2.5f32.to_bits());
    assert_eq!(hit.color, Color::Green.rgb());
    assert_eq!(MeshProbe { triangles: vec![] }.get_intersection(), None);
    assert_eq!(MeshProbe { triangles: vec![missed] }.get_intersection(), None);
}

#[test]
fn any_kind_of_probe_answers_as_its_kind_does() {
    let s = sphere([0.0, 0.0, -4.0], [0.0, 0.0, 1.0], [0.0, 0.0, 10.0], 5.0);
    let p = plane([0.0, 0.0, -4.0], [0.0, 0.0, 1.0], [0.0, 0.0, 10.0], [0.0, 0.0, -1.0]);
    let t = triangle(
        [1.0, 1.0, 0.0],
        [0.0, 0.0, 1.0],
        [[0.0, 0.0, 5.0], [4.0, 0.0, 5.0], [0.0, 4.0, 5.0]],
        red(),
    );
    assert_eq!(Probe::Sphere(s).get_intersection(), s.get_intersection());
    assert_eq!(Probe::Plane(p).get_intersection(), p.get_intersection());
    assert_eq!(Probe::Triangle(t).get_intersection(), t.get_intersection());
    let mesh = Probe::Mesh(MeshProbe { triangles: vec![t] });
    assert_eq!(mesh.get_intersection(), t.get_intersection());
}

#[test]
fn closest_of_three_along_one_ray_is_the_one_at_three() {
    let at = |t: f32, color: Color| {
        Probe::Plane(plane_probe(1.0, t, color.rgb()))
    };
    for order in [[3.0, 5.0, 10.0], [10.0, 5.0, 3.0], [5.0, 3.0, 10.0], [5.0, 10.0, 3.0]] {
        let colour_of = |t: f32| {
            if t == 3.0 {
                Color::Red
            } else if t == 5.0 {
                Color::Green
            } else {
                Color::Blue
            }
        };
        let probes: Vec<Probe> = order.iter().map(|t| at(*t, colour_of(*t))).collect();
        let hit = closest_hit(&probes).unwrap();
        assert_eq!(hit.distance.to_bits(), 3.0f32.to_bits());
        assert_eq!(hit.color, Color::Red.rgb());
    }
}

#[test]
fn of_equal_distances_the_earlier_wins() {
    let first = plane_probe(1.0, 4.0, Color::Yellow.rgb());
    let second = plane_probe(1.0, 4.0, Color::Cyan.rgb());
    let hit = closest_hit(&vec![first, second]).unwrap();
    assert_eq!(hit.color, Color::Yellow.rgb());
    let hit = closest_hit(&vec![second, first]).unwrap();
    assert_eq!(hit.color, Color::Cyan.rgb());
}

#[test]
fn nothing_hit_gives_nothing() {
    let empty: Vec<Probe> = Vec::new();
    assert_eq!(closest_hit(&empty), None);
    let missed = plane_probe(0.0, 4.0, red());
    assert_eq!(closest_hit(&vec![missed, missed]), None);
}

#[test]
fn a_distance_that_is_no_number_never_enters_the_choice() {
    let good = Intersection::new(scalar(7.0), red());
    let bad = Intersection::new(scalar(f32::NAN), Color::Blue.rgb());
    assert_eq!(keep_nearer(None, Some(bad)), None);
    assert_eq!(keep_nearer(Some(good), Some(bad)), Some(good));
    assert_eq!(keep_nearer(None, Some(good)), Some(good));
    assert_eq!(keep_nearer(Some(good), None), Some(good));
    let nearer = Intersection::new(scalar(6.5), Color::Green.rgb());
    assert_eq!(keep_nearer(Some(good), Some(nearer)), Some(nearer));
    assert_eq!(keep_nearer(Some(nearer), Some(good)), Some(nearer));
}

#[test]
fn intersection_new_keeps_its_parts() {
    let hit = Intersection::new(scalar(2.0), red());
    assert_eq!(hit.distance.to_bits(), 2.0f32.to_bits());
    assert_eq!(hit.color, ColorType { r: 255, g: 0, b: 0 });
}

#[test]
fn measures_resolve_to_the_distance_alone() {
    let m = SphereMeasure { d2: scalar(0.0), d: scalar(0.0), t0: scalar(9.0), t1: scalar(19.0) };
    assert_eq!(m.resolve(scalar(5.0)).map(|t| t.to_bits()), Some(9.0f32.to_bits()));
    let beside = SphereMeasure { d2: scalar(36.0), d: scalar(6.0), ..m };
    assert_eq!(beside.resolve(scalar(5.0)), None);
    assert_eq!(beside.resolve(scalar(6.0)).map(|t| t.to_bits()), Some(9.0f32.to_bits()));
    let p = PlaneMeasure { denom: scalar(-1.0), t: scalar(14.0) };
    assert_eq!(p.resolve().map(|t| t.to_bits()), Some(14.0f32.to_bits()));
    let t = TriangleMeasure { u: scalar(0.5), v: scalar(0.5), sum: scalar(1.0), t: scalar(2.0) };
    assert_eq!(t.resolve().map(|t| t.to_bits()), Some(2.0f32.to_bits()));
    let over = TriangleMeasure { sum: scalar(1.0 + f32::EPSILON), ..t };
    assert_eq!(over.resolve(), None);
    let zero_distance = TriangleMeasure { t: scalar(-0.0), ..t };
    assert_eq!(zero_distance.resolve().map(|t| t.to_bits()), Some((-0.0f32).to_bits()));
}
