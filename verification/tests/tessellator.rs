use marching_cubes::{create_mesh, tessellate_corners, tessellate_field};
use marching_cubes::{Corner, Field, Mesh, Triangle, Vertex};

fn cube_positions(x: usize, y: usize, z: usize) -> [Corner; 8] {
    [
        (x, y, z),
        (x + 1, y, z),
        (x + 1, y, z + 1),
        (x, y, z + 1),
        (x, y + 1, z),
        (x + 1, y + 1, z),
        (x + 1, y + 1, z + 1),
        (x, y + 1, z + 1),
    ]
}

fn cube_signs(field: &Field, x: usize, y: usize, z: usize) -> [bool; 8] {
    let p = cube_positions(x, y, z);
    let mut f = [false; 8];
    for c in 0..8 {
        f[c] = field.f(p[c].0, p[c].1, p[c].2);
    }
    f
}

/// The coordinate of corner `i` of `n` cubes that span `min..max`.
fn coordinate(i: usize, n: usize, min: f32, max: f32) -> f32 {
    min + (i as f32) * (max - min) / (n as f32)
}

/// The zero of the linear interpolant along the vertex's edge, for samples
/// `-1` inside and `1` outside, on a lattice of two cubes between -1 and 1.
fn locate(v: &Vertex, field: &Field) -> (f32, f32, f32) {
    let at = |c: Corner| {
        (
            coordinate(c.0, 2, -1.0, 1.0),
            coordinate(c.1, 2, -1.0, 1.0),
            coordinate(c.2, 2, -1.0, 1.0),
        )
    };
    let sample = |c: Corner| if field.f(c.0, c.1, c.2) { -1.0f32 } else { 1.0f32 };
    let (p0, p1) = (at(v.near), at(v.far));
    let (f0, f1) = (sample(v.near), sample(v.far));
    if (f0 - f1).abs() < 0.000001 {
        p0
    } else {
        (
            p0.0 - f0 * (p1.0 - p0.0) / (f1 - f0),
            p0.1 - f0 * (p1.1 - p0.1) / (f1 - f0),
            p0.2 - f0 * (p1.2 - p0.2) / (f1 - f0),
        )
    }
}

fn checkerboard(x: usize, y: usize, z: usize) -> bool {
    (x * 7 + y * 5 + z * 3) % 4 < 2
}

#[test]
fn a_single_inside_point_gives_an_octahedron() {
    // negative only at the middle point of a lattice of 2 x 2 x 2 cubes
    let field = Field::from_closure(|x, y, z| (x, y, z) == (1, 1, 1), &(2, 2, 2));
    let m = tessellate_field(&field);
    assert_eq!(m.1.len(), 8);
    assert_eq!(m.0.len(), 24);
    let mut least = (f32::MAX, f32::MAX, f32::MAX);
    let mut most = (f32::MIN, f32::MIN, f32::MIN);
    for v in &m.0 {
        assert!(v.near == (1, 1, 1) || v.far == (1, 1, 1));
        let p = locate(v, &field);
        least = (least.0.min(p.0), least.1.min(p.1), least.2.min(p.2));
        most = (most.0.max(p.0), most.1.max(p.1), most.2.max(p.2));
    }
    assert_eq!(least, (-0.5, -0.5, -0.5));
    assert_eq!(most, (0.5, 0.5, 0.5));
}

#[test]
fn the_octahedron_faces_outwards() {
    let field = Field::from_closure(|x, y, z| (x, y, z) == (1, 1, 1), &(2, 2, 2));
    let m = tessellate_field(&field);
    for t in &m.1 {
        let a = locate(&m.0[t.0], &field);
        let b = locate(&m.0[t.1], &field);
        let c = locate(&m.0[t.2], &field);
        let e0 = (b.0 - a.0, b.1 - a.1, b.2 - a.2);
        let e1 = (c.0 - a.0, c.1 - a.1, c.2 - a.2);
        let n = (
            e0.1 * e1.2 - e0.2 * e1.1,
            e0.2 * e1.0 - e0.0 * e1.2,
            e0.0 * e1.1 - e0.1 * e1.0,
        );
        // the inside point is the origin: the normal points away from it
        assert!(n.0 * a.0 + n.1 * a.1 + n.2 * a.2 > 0.0);
    }
}

#[test]
fn the_grid_is_the_cubes_in_order_along_x_then_y_then_z() {
    let field = Field::from_closure(checkerboard, &(3, 2, 2));
    let m = tessellate_field(&field);
    let mut verts: Vec<Vertex> = Vec::new();
    let mut tris: Vec<Triangle> = Vec::new();
    for z in 0..2 {
        for y in 0..2 {
            for x in 0..3 {
                let cube =
                    tessellate_corners(&cube_positions(x, y, z), &cube_signs(&field, x, y, z));
                let base = verts.len();
                verts.extend(cube.0.iter().cloned());
                tris.extend(cube.1.iter().map(|t| Triangle(t.0 + base, t.1 + base, t.2 + base)));
            }
        }
    }
    assert!(!tris.is_empty());
    assert_eq!(m.0, verts);
    assert_eq!(m.1, tris);
}

#[test]
fn triangles_refer_to_vertices_of_their_own_cube() {
    let field = Field::from_closure(checkerboard, &(3, 3, 2));
    let m = tessellate_field(&field);
    assert!(!m.1.is_empty());
    assert_eq!(m.0.len(), 3 * m.1.len());
    for (t, tri) in m.1.iter().enumerate() {
        assert!(tri.0 < m.0.len() && tri.1 < m.0.len() && tri.2 < m.0.len());
        assert_eq!(*tri, Triangle(3 * t, 3 * t + 1, 3 * t + 2));
        // the three vertices lie on edges of one and the same cube
        let ends = [
            m.0[tri.0].near,
            m.0[tri.0].far,
            m.0[tri.1].near,
            m.0[tri.1].far,
            m.0[tri.2].near,
            m.0[tri.2].far,
        ];
        let least = (
            ends.iter().map(|c| c.0).min().unwrap(),
            ends.iter().map(|c| c.1).min().unwrap(),
            ends.iter().map(|c| c.2).min().unwrap(),
        );
        for c in ends {
            assert!(c.0 <= least.0 + 1 && c.1 <= least.1 + 1 && c.2 <= least.2 + 1);
        }
    }
}

#[test]
fn vertices_are_not_shared_between_cubes() {
    // a plane that cuts the upper of two layers of cubes
    let field = Field::from_closure(|_x, y, _z| y < 2, &(2, 2, 1));
    let m = tessellate_field(&field);
    assert_eq!(m.1.len(), 4);
    assert_eq!(m.0.len(), 12);
    // the two cubes of the upper layer both cut the lattice edge between them
    let shared = Vertex { near: (1, 1, 0), far: (1, 2, 0) };
    let twin = Vertex { near: (1, 2, 0), far: (1, 1, 0) };
    let copies = m.0.iter().filter(|v| **v == shared || **v == twin).count();
    assert!(copies >= 2);
}

#[test]
fn no_cubes_along_an_axis_give_the_empty_mesh() {
    for count in [(0, 2, 2), (2, 0, 2), (2, 2, 0), (0, 0, 0)] {
        let m = create_mesh(|_x, _y, _z| true, &count);
        assert!(m.0.is_empty());
        assert!(m.1.is_empty());
        let m = create_mesh(|x, y, z| (x + y + z) % 2 == 0, &count);
        assert!(m.0.is_empty());
        assert!(m.1.is_empty());
    }
}

#[test]
fn uniform_fields_give_the_empty_mesh() {
    let m = create_mesh(|_x, _y, _z| true, &(3, 2, 4));
    assert!(m.0.is_empty() && m.1.is_empty());
    let m = create_mesh(|_x, _y, _z| false, &(3, 2, 4));
    assert!(m.0.is_empty() && m.1.is_empty());
}

#[test]
fn create_mesh_samples_and_tessellates() {
    let direct: Mesh = create_mesh(checkerboard, &(2, 3, 2));
    let field = Field::from_closure(checkerboard, &(2, 3, 2));
    let stepwise = tessellate_field(&field);
    assert!(!direct.1.is_empty());
    assert_eq!(direct.0, stepwise.0);
    assert_eq!(direct.1, stepwise.1);
}

#[test]
fn a_single_cube_field_is_one_cube() {
    let field = Field::from_vecs(vec![
        vec![vec![true, false], vec![false, false]],
        vec![vec![false, false], vec![false, false]],
    ]);
    let m = tessellate_field(&field);
    let cube = tessellate_corners(
        &cube_positions(0, 0, 0),
        &[true, false, false, false, false, false, false, false],
    );
    assert_eq!(m.0, cube.0);
    assert_eq!(m.1, cube.1);
    assert_eq!(m.1, vec![Triangle(0, 1, 2)]);
}

#[test]
fn a_plane_through_a_row_of_cubes_gives_a_strip() {
    // inside below z = 1, in a row of four cubes along x and two along z
    let field = Field::from_closure(|_x, _y, z| z == 0, &(4, 1, 2));
    let m = tessellate_field(&field);
    // only the lower layer of cubes is cut, each by a quad
    assert_eq!(m.1.len(), 8);
    for v in &m.0 {
        assert_eq!((v.near.0, v.near.1), (v.far.0, v.far.1));
        assert_eq!(v.near.2.min(v.far.2), 0);
        assert_eq!(v.near.2.max(v.far.2), 1);
    }
}

#[test]
fn every_vertex_lies_on_a_lattice_edge_whose_ends_differ_in_sign() {
    let field = Field::from_closure(checkerboard, &(4, 3, 3));
    let (cx, cy, cz) = field.corner_count();
    let m = tessellate_field(&field);
    assert!(!m.0.is_empty());
    for v in &m.0 {
        for c in [v.near, v.far] {
            assert!(c.0 < cx && c.1 < cy && c.2 < cz);
        }
        let step = v.near.0.abs_diff(v.far.0) + v.near.1.abs_diff(v.far.1)
            + v.near.2.abs_diff(v.far.2);
        assert_eq!(step, 1);
        assert_ne!(
            field.f(v.near.0, v.near.1, v.near.2),
            field.f(v.far.0, v.far.1, v.far.2)
        );
    }
}

#[test]
fn every_cut_lattice_edge_carries_a_vertex_of_each_cube_round_it() {
    let field = Field::from_closure(checkerboard, &(3, 3, 3));
    let m = tessellate_field(&field);
    let count = |a: Corner, b: Corner| {
        m.0.iter().filter(|v| (v.near == a && v.far == b) || (v.near == b && v.far == a)).count()
    };
    // the edge from (0, 1, 1) to (1, 1, 1) lies in four cubes and is cut
    assert_ne!(field.f(0, 1, 1), field.f(1, 1, 1));
    assert!(count((0, 1, 1), (1, 1, 1)) >= 4);
    // the edge from (1, 1, 1) to (2, 1, 1) is not cut
    assert_eq!(field.f(1, 1, 1), field.f(2, 1, 1));
    assert_eq!(count((1, 1, 1), (2, 1, 1)), 0);
}
