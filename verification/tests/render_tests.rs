use raytracer::color::{Color, ColorType};
use raytracer::geometry::{Camera, Object3D, Plane, Ray, Sphere, Triangle, Vector3};
use raytracer::intersection::Intersection;
use raytracer::pixel::PixelBuffer;
use raytracer::probe::{PlaneMeasure, SphereMeasure, TriangleMeasure};
use raytracer::render::{assemble, render, render_tile, shade, trace_tile};
use raytracer::scalar::Scalar;
use raytracer::scene::Scene;
use raytracer::tile::{partition, tile_edge, Tile};

fn scalar(v: f32) -> Scalar {
    Scalar::from_bits(v.to_bits())
}

fn number(s: Scalar) -> f32 {
    f32::from_bits(s.to_bits())
}

fn vector(x: f32, y: f32, z: f32) -> Vector3 {
    Vector3 { x: scalar(x), y: scalar(y), z: scalar(z) }
}

fn coords(v: &Vector3) -> [f32; 3] {
    [number(v.x), number(v.y), number(v.z)]
}

fn minus(a: [f32; 3], b: [f32; 3]) -> [f32; 3] {
    [a[0] - b[0], a[1] - b[1], a[2] - b[2]]
}

fn dot(a: [f32; 3], b: [f32; 3]) -> f32 {
    a[0] * b[0] + a[1] * b[1] + a[2] * b[2]
}

fn cross(a: [f32; 3], b: [f32; 3]) -> [f32; 3] {
    [a[1] * b[2] - a[2] * b[1], a[2] * b[0] - a[0] * b[2], a[0] * b[1] - a[1] * b[0]]
}

/// The ray from `origin` towards `toward`, if that is a direction.
fn ray(origin: Vector3, toward: [f32; 3]) -> Option<Ray> {
    let length = dot(toward, toward).sqrt();
    let unit = vector(toward[0] / length, toward[1] / length, toward[2] / length);
    Ray::new(&origin, &unit, scalar(length))
}

fn on_sphere(sphere: &Sphere, ray: &Ray) -> SphereMeasure {
    let l = minus(coords(&sphere.position), coords(&ray.origin));
    let tca = dot(l, coords(&ray.direction));
    let d2 = dot(l, l) - tca * tca;
    let d = d2.sqrt();
    let radius = number(sphere.radius);
    let h = (radius * radius - d * d).sqrt();
    SphereMeasure { d2: scalar(d2), d: scalar(d), t0: scalar(tca - h), t1: scalar(tca + h) }
}

fn on_plane(plane: &Plane, ray: &Ray) -> PlaneMeasure {
    let normal = coords(&plane.normal);
    let denom = dot(normal, coords(&ray.direction));
    let t = dot(minus(coords(&plane.origin), coords(&ray.origin)), normal) / denom;
    PlaneMeasure { denom: scalar(denom), t: scalar(t) }
}

fn on_triangle(triangle: &Triangle, ray: &Ray) -> TriangleMeasure {
    let v = triangle.get_vertices();
    let dir = coords(&ray.direction);
    let v2v0 = minus(coords(&v[2]), coords(&v[0]));
    let v1v0 = minus(coords(&v[1]), coords(&v[0]));
    let p = cross(dir, v1v0);
    let inv_det = 1.0 / dot(v2v0, p);
    let t_vec = minus(coords(&ray.origin), coords(&v[0]));
    let u = inv_det * dot(t_vec, p);
    let q = cross(t_vec, v2v0);
    let w = inv_det * dot(dir, q);
    let t = inv_det * dot(q, v1v0);
    TriangleMeasure { u: scalar(u), v: scalar(w), sum: scalar(u + w), t: scalar(t) }
}

fn camera(width: usize, height: usize) -> Camera {
    Camera {
        fov_h: scalar(60.0),
        fov_v: scalar(60.0),
        default_z: scalar(15.0),
        width,
        height,
        near_plane: scalar(0.6),
        fal_plane: scalar(50.0),
        position: vector(0.0, 0.0, -4.0),
    }
}

const BLACK: ColorType = ColorType { r: 0, g: 0, b: 0 };

/// A trace that depends on the pixel alone.
fn pattern(x: usize, y: usize) -> Option<Intersection> {
    if (x + 2 * y) % 3 == 0 {
        None
    } else {
        let c = ColorType { r: x as u8, g: y as u8, b: (x * y) as u8 };
        Some(Intersection::new(scalar(1.0 + x as f32), c))
    }
}

fn red_sphere_scene(size: usize) -> Scene {
    let mut scene = Scene::new(camera(size, size));
    scene.add_object(Object3D::Sphere(Sphere::new(vector(0.0, 0.0, 10.0), scalar(5.0), Color::Red)));
    scene
}

/// Where the rays cross the image plane, which spans `-default_z` to
/// `default_z` both ways.
fn positions(camera: &Camera) -> Vec<Vec<Vector3>> {
    let z = number(camera.default_z);
    camera.calculate_ray_positions(
        &|offset: i128, span: usize| scalar(z * (offset as f32 / span as f32)),
        &|offset: i128, span: usize| scalar(z * (offset as f32 / span as f32)),
    )
}

/// The ray through a pixel: from the camera towards the pixel's point of
/// the image plane, moved by the camera's position.
fn aim(camera: &Camera, grid: &[Vec<Vector3>], x: usize, y: usize) -> Option<Ray> {
    let eye = coords(&camera.position);
    let p = coords(&grid[y][x]);
    ray(camera.position, [p[0] + eye[0], p[1] + eye[1], p[2] + eye[2]])
}

fn picture(scene: &Scene, n: usize) -> PixelBuffer {
    let grid = positions(&scene.camera);
    scene.raytrace(
        n,
        &|x: usize, y: usize| aim(&scene.camera, &grid, x, y),
        &on_sphere,
        &on_plane,
        &on_triangle,
    )
}

#[test]
fn edges_cut_a_length_into_nearly_equal_parts() {
    let edges: Vec<usize> = (0..=4).map(|i| tile_edge(10, 4, i)).collect();
    assert_eq!(edges, vec![0, 3, 6, 8, 10]);
    let edges: Vec<usize> = (0..=3).map(|i| tile_edge(2, 3, i)).collect();
    assert_eq!(edges, vec![0, 1, 2, 2]);
    assert_eq!(tile_edge(400, 1, 0), 0);
    assert_eq!(tile_edge(400, 1, 1), 400);
    assert_eq!(tile_edge(0, 5, 5), 0);
    assert_eq!(tile_edge(usize::MAX, 2, 2), usize::MAX);
}

#[test]
fn partition_lists_the_tiles_row_by_row() {
    let tiles = partition(5, 4, 2);
    assert_eq!(
        tiles,
        vec![
            Tile { x0: 0, y0: 0, x1: 3, y1: 2 },
            Tile { x0: 3, y0: 0, x1: 5, y1: 2 },
            Tile { x0: 0, y0: 2, x1: 3, y1: 4 },
            Tile { x0: 3, y0: 2, x1: 5, y1: 4 },
        ]
    );
    assert_eq!(partition(7, 9, 1), vec![Tile { x0: 0, y0: 0, x1: 7, y1: 9 }]);
}

#[test]
fn every_pixel_lies_in_exactly_one_tile() {
    for (width, height, n) in [(7, 5, 3), (4, 4, 4), (2, 3, 5), (10, 1, 2), (1, 1, 1)] {
        let tiles = partition(width, height, n);
        assert_eq!(tiles.len(), n * n);
        for y in 0..height {
            for x in 0..width {
                let holders = tiles
                    .iter()
                    .filter(|t| t.x0 <= x && x < t.x1 && t.y0 <= y && y < t.y1)
                    .count();
                assert_eq!(holders, 1, "pixel ({}, {}) of {}x{} in {} parts", x, y, width, height, n);
            }
        }
    }
}

#[test]
fn new_buffer_is_black_and_has_the_asked_size() {
    let buffer = PixelBuffer::new(3, 2);
    assert_eq!(buffer.width, 3);
    assert_eq!(buffer.height, 2);
    assert_eq!(buffer.rows, vec![vec![BLACK; 3]; 2]);
    let empty = PixelBuffer::new(0, 0);
    assert_eq!(empty.rows.len(), 0);
}

#[test]
fn set_changes_one_pixel_only() {
    let mut buffer = PixelBuffer::new(3, 2);
    let c = ColorType { r: 9, g: 8, b: 7 };
    buffer.set(2, 1, c);
    assert_eq!(buffer.get(2, 1), c);
    assert_eq!(buffer.rows, vec![vec![BLACK; 3], vec![BLACK, BLACK, c]]);
}

#[test]
fn shade_is_the_hit_colour_or_black() {
    let c = ColorType { r: 1, g: 2, b: 3 };
    assert_eq!(shade(Some(Intersection::new(scalar(4.0), c))), c);
    assert_eq!(shade(None), BLACK);
}

#[test]
fn render_tile_paints_its_pixels_and_no_others() {
    let mut buffer = PixelBuffer::new(4, 4);
    let tile = Tile { x0: 1, y0: 2, x1: 3, y1: 4 };
    let white = ColorType { r: 255, g: 255, b: 255 };
    render_tile(&mut buffer, tile, &|_x: usize, _y: usize| {
        Some(Intersection::new(scalar(1.0), white))
    });
    for y in 0..4 {
        for x in 0..4 {
            let inside = 1 <= x && x < 3 && 2 <= y;
            assert_eq!(buffer.get(x, y), if inside { white } else { BLACK });
        }
    }
}

#[test]
fn trace_tile_lists_the_colours_of_the_tile_row_by_row() {
    let tile = Tile { x0: 2, y0: 1, x1: 5, y1: 3 };
    let part = trace_tile(tile, &pattern);
    assert_eq!(part.len(), 2);
    for (j, row) in part.iter().enumerate() {
        assert_eq!(row.len(), 3);
        for (i, c) in row.iter().enumerate() {
            assert_eq!(*c, shade(pattern(2 + i, 1 + j)));
        }
    }
    assert_eq!(part[0][0], ColorType { r: 2, g: 1, b: 2 });
    assert_eq!(part[1][0], BLACK);
    assert_eq!(part[1][2], ColorType { r: 4, g: 2, b: 8 });
    assert_eq!(trace_tile(Tile { x0: 3, y0: 3, x1: 3, y1: 6 }, &pattern), vec![vec![]; 3]);
    assert_eq!(trace_tile(Tile { x0: 3, y0: 3, x1: 6, y1: 3 }, &pattern).len(), 0);
}

#[test]
fn paste_writes_a_tile_and_leaves_the_rest() {
    let mut buffer = PixelBuffer::new(4, 3);
    let (a, b) = (ColorType { r: 1, g: 1, b: 1 }, ColorType { r: 2, g: 2, b: 2 });
    buffer.paste(Tile { x0: 1, y0: 1, x1: 3, y1: 3 }, &vec![vec![a, b], vec![b, a]]);
    assert_eq!(
        buffer.rows,
        vec![
            vec![BLACK, BLACK, BLACK, BLACK],
            vec![BLACK, a, b, BLACK],
            vec![BLACK, b, a, BLACK],
        ]
    );
}

#[test]
fn tiles_traced_apart_and_pasted_give_the_rendered_image() {
    let whole = render(9, 6, 1, &pattern);
    for n in [1, 2, 3, 7] {
        let tiles = partition(9, 6, n);
        let parts: Vec<Vec<Vec<ColorType>>> =
            tiles.iter().rev().map(|t| trace_tile(*t, &pattern)).collect();
        let mut buffer = PixelBuffer::new(9, 6);
        for (tile, part) in tiles.iter().rev().zip(parts.iter()) {
            buffer.paste(*tile, part);
        }
        assert_eq!(buffer.rows, whole.rows);
    }
}

#[test]
fn assemble_puts_every_part_on_its_tile() {
    let whole = render(9, 6, 1, &pattern);
    for n in [1, 2, 3, 7] {
        let tiles = partition(9, 6, n);
        let mut parts: Vec<Vec<Vec<ColorType>>> =
            tiles.iter().rev().map(|t| trace_tile(*t, &pattern)).collect();
        parts.reverse();
        assert_eq!(assemble(9, 6, n, &parts).rows, whole.rows);
    }
    let (a, b) = (ColorType { r: 1, g: 1, b: 1 }, ColorType { r: 2, g: 2, b: 2 });
    let parts = vec![vec![vec![a, a]], vec![vec![b]], vec![vec![b, b]], vec![vec![a]]];
    let buffer = assemble(3, 2, 2, &parts);
    assert_eq!(buffer.rows, vec![vec![a, a, b], vec![b, b, a]]);
    assert_eq!((buffer.width, buffer.height), (3, 2));
}

#[test]
fn render_gives_every_pixel_what_its_trace_gives() {
    let buffer = render(7, 5, 3, &pattern);
    assert_eq!(buffer.width, 7);
    assert_eq!(buffer.height, 5);
    assert_eq!(buffer.rows.len(), 5);
    for y in 0..5 {
        assert_eq!(buffer.rows[y].len(), 7);
        for x in 0..7 {
            assert_eq!(buffer.get(x, y), shade(pattern(x, y)));
        }
    }
    assert_eq!(buffer.get(0, 0), BLACK);
    assert_eq!(buffer.get(2, 1), ColorType { r: 2, g: 1, b: 2 });
}

#[test]
fn rendering_twice_gives_the_same_image() {
    let scene = red_sphere_scene(24);
    assert_eq!(picture(&scene, 2).rows, picture(&scene, 2).rows);
}

#[test]
fn the_number_of_tiles_does_not_show_in_the_image() {
    let mut scene = red_sphere_scene(24);
    scene.add_object(Object3D::Plane(Plane::new(
        vector(0.0, 5.0, -4.0),
        vector(0.0, 1.0, 0.0),
        Color::DarkGray,
    )));
    let whole = picture(&scene, 1);
    for n in [2, 3, 4, 5, 24, 30] {
        assert_eq!(whole.rows, picture(&scene, n).rows, "{} by {} tiles", n, n);
    }
    let plain = render(9, 6, 1, &pattern);
    for n in [2, 4, 7, 10] {
        assert_eq!(plain.rows, render(9, 6, n, &pattern).rows);
    }
}

#[test]
fn picture_has_the_dimensions_of_the_camera() {
    let mut scene = red_sphere_scene(8);
    scene.camera.width = 5;
    scene.camera.height = 3;
    let image = picture(&scene, 2);
    assert_eq!((image.width, image.height), (5, 3));
    assert_eq!(image.rows.len(), 3);
    assert!(image.rows.iter().all(|row| row.len() == 5));
}

#[test]
fn red_sphere_renders_as_a_centred_red_disc_on_black() {
    let size = 40;
    let scene = red_sphere_scene(size);
    let image = picture(&scene, 4);
    assert_eq!(image.width, size);
    assert_eq!(image.height, size);
    let red = ColorType { r: 255, g: 0, b: 0 };
    for (x, y) in [(19, 19), (20, 19), (19, 20), (20, 20)] {
        assert_eq!(image.get(x, y), red);
    }
    for (x, y) in [(0, 0), (39, 0), (0, 39), (39, 39), (20, 0), (0, 20)] {
        assert_eq!(image.get(x, y), BLACK);
    }
    // The image plane is 15 in front of the eye, and the ray through a
    // point of it is aimed at that point moved by the eye's position: 11
    // ahead. Seen from 14 away, a sphere of radius 5 ends where a ray
    // leaves the centre line by 5 in sqrt(14^2 - 5^2). At 11 ahead that is
    // 4.206. The 40 pixels of a row stand 30/39 apart, and the middle of
    // the image is between pixels 19 and 20: the disc is 5.47 pixels wide
    // from there.
    let edge = 11.0 * 5.0 / (14.0f32 * 14.0 - 25.0).sqrt() / (30.0 / 39.0);
    for y in 0..size {
        for x in 0..size {
            let (dx, dy) = (x as f32 - 19.5, y as f32 - 19.5);
            let r = (dx * dx + dy * dy).sqrt();
            if r < edge - 0.01 {
                assert_eq!(image.get(x, y), red, "({}, {})", x, y);
            } else if r > edge + 0.01 {
                assert_eq!(image.get(x, y), BLACK, "({}, {})", x, y);
            }
        }
    }
    let across = (0..size).filter(|x| image.get(*x, 20) == red).count();
    assert_eq!(across, 10);
    for y in 0..size {
        for x in 0..size {
            assert_eq!(image.get(x, y), image.get(size - 1 - x, size - 1 - y));
            assert_eq!(image.get(x, y), image.get(y, x));
        }
    }
}
