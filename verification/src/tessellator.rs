//! Tessellation of a whole lattice, cube by cube.

use crate::cube::{
    crossing, cube_mesh, lemma_cube_mesh_shape, lemma_cube_vertices_cut, tessellate_corners,
};
use crate::field::{corners_of, cubes_of, is_grid, sampled_from, Field};
use crate::mesh::{
    lemma_append_well_formed, shifted, within, Corner, Mesh, MeshView, Triangle, Vertex,
};
use crate::tables::{CORNERS, EDGES};
use vstd::arithmetic::div_mod::{
    lemma_div_pos_is_pos, lemma_fundamental_div_mod_converse, lemma_mod_bound,
    lemma_multiply_divide_lt,
};
use vstd::prelude::*;

verus! {

/// The eight corners of the cube whose least corner is `(x, y, z)`, in the
/// order of the corner table.
pub open spec fn cube_corners(x: int, y: int, z: int) -> Seq<Corner> {
    Seq::new(
        8,
        |c: int|
            (
                (x + CORNERS[c].0) as usize,
                (y + CORNERS[c].1) as usize,
                (z + CORNERS[c].2) as usize,
            ),
    )
}

/// The signs that `g` holds at the eight corners of that cube.
pub open spec fn cube_signs(g: Seq<Seq<Seq<bool>>>, x: int, y: int, z: int) -> Seq<bool> {
    Seq::new(8, |c: int| g[z + CORNERS[c].2][y + CORNERS[c].1][x + CORNERS[c].0])
}

/// The mesh of the cube whose least corner is `(x, y, z)`.
pub open spec fn cube_at(g: Seq<Seq<Seq<bool>>>, x: int, y: int, z: int) -> MeshView {
    cube_mesh(cube_corners(x, y, z), cube_signs(g, x, y, z))
}

/// The number of cubes of `g`.
pub open spec fn cube_total(g: Seq<Seq<Seq<bool>>>) -> int {
    cubes_of(g).0 * cubes_of(g).1 * cubes_of(g).2
}

/// The place of the cube `(x, y, z)` in the order in which the cubes are
/// visited: along `x` first, then along `y`, then along `z`.
pub open spec fn cube_index(g: Seq<Seq<Seq<bool>>>, x: int, y: int, z: int) -> int {
    x + cubes_of(g).0 * (y + cubes_of(g).1 * z)
}

/// The least corner of the cube that is visited after `n` others.
pub open spec fn nth_place(g: Seq<Seq<Seq<bool>>>, n: int) -> (int, int, int) {
    let nx = cubes_of(g).0;
    let ny = cubes_of(g).1;
    (n % nx, (n / nx) % ny, (n / nx) / ny)
}

/// The mesh of the cube that is visited after `n` others.
pub open spec fn nth_cube(g: Seq<Seq<Seq<bool>>>, n: int) -> MeshView {
    cube_at(g, nth_place(g, n).0, nth_place(g, n).1, nth_place(g, n).2)
}

/// The meshes of the first `n` cubes, one appended to the other.
pub open spec fn grid_prefix(g: Seq<Seq<Seq<bool>>>, n: nat) -> MeshView
    decreases n,
{
    if n == 0 {
        MeshView::empty()
    } else {
        grid_prefix(g, (n - 1) as nat).append(nth_cube(g, n - 1))
    }
}

/// The mesh of a whole box of signs: the meshes of all its cubes, one
/// appended to the other in the order in which the cubes are visited.
pub open spec fn grid_mesh(g: Seq<Seq<Seq<bool>>>) -> MeshView {
    grid_prefix(g, cube_total(g) as nat)
}

/// The corner counts of `g` can be held in machine words.
pub open spec fn fits(g: Seq<Seq<Seq<bool>>>) -> bool {
    corners_of(g).0 <= usize::MAX && corners_of(g).1 <= usize::MAX && corners_of(g).2 <= usize::MAX
}

/// The sign that `g` holds at the corner `c`.
pub open spec fn sign_at(g: Seq<Seq<Seq<bool>>>, c: Corner) -> bool {
    g[c.2 as int][c.1 as int][c.0 as int]
}

/// `c` is a corner of `g`.
pub open spec fn in_grid(g: Seq<Seq<Seq<bool>>>, c: Corner) -> bool {
    c.0 < corners_of(g).0 && c.1 < corners_of(g).1 && c.2 < corners_of(g).2
}

/// The two corners are the ends of one lattice edge: they differ by one
/// along one axis and not at all along the other two.
pub open spec fn adjacent(a: Corner, b: Corner) -> bool {
    ||| (a.0 + 1 == b.0 || b.0 + 1 == a.0) && a.1 == b.1 && a.2 == b.2
    ||| a.0 == b.0 && (a.1 + 1 == b.1 || b.1 + 1 == a.1) && a.2 == b.2
    ||| a.0 == b.0 && a.1 == b.1 && (a.2 + 1 == b.2 || b.2 + 1 == a.2)
}

/// `v` lies on a lattice edge of `g` whose two ends differ in sign.
pub open spec fn is_cut_edge(g: Seq<Seq<Seq<bool>>>, v: Vertex) -> bool {
    &&& in_grid(g, v.near)
    &&& in_grid(g, v.far)
    &&& adjacent(v.near, v.far)
    &&& sign_at(g, v.near) != sign_at(g, v.far)
}

/// The cube `(x, y, z)` is the one that is visited at its index.
pub proof fn lemma_cube_index_finds_cube(g: Seq<Seq<Seq<bool>>>, x: int, y: int, z: int)
    requires
        0 <= x < cubes_of(g).0,
        0 <= y < cubes_of(g).1,
        0 <= z < cubes_of(g).2,
    ensures
        0 <= cube_index(g, x, y, z) < cube_total(g),
        nth_place(g, cube_index(g, x, y, z)) == (x, y, z),
        nth_cube(g, cube_index(g, x, y, z)) == cube_at(g, x, y, z),
{
    let nx = cubes_of(g).0;
    let ny = cubes_of(g).1;
    let nz = cubes_of(g).2;
    let row = y + ny * z;
    let n = cube_index(g, x, y, z);
    assert(0 <= ny * z && ny * z + ny <= ny * nz) by (nonlinear_arith)
        requires
            0 <= z < nz,
            0 < ny,
    ;
    assert(0 <= nx * row && nx * row + nx <= nx * (ny * nz)) by (nonlinear_arith)
        requires
            0 <= row,
            row + 1 <= ny * nz,
            0 < nx,
    ;
    assert(nx * (ny * nz) == nx * ny * nz) by (nonlinear_arith);
    assert(n == row * nx + x) by (nonlinear_arith)
        requires
            n == x + nx * row,
    ;
    lemma_fundamental_div_mod_converse(n, nx, row, x);
    assert(row == z * ny + y) by (nonlinear_arith)
        requires
            row == y + ny * z,
    ;
    lemma_fundamental_div_mod_converse(row, ny, z, y);
}

/// Each of the cubes that are visited lies in the box.
pub proof fn lemma_nth_place_is_a_cube(g: Seq<Seq<Seq<bool>>>, n: int)
    requires
        0 <= cubes_of(g).0,
        0 <= cubes_of(g).1,
        0 <= cubes_of(g).2,
        0 <= n < cube_total(g),
    ensures
        0 <= nth_place(g, n).0 < cubes_of(g).0,
        0 <= nth_place(g, n).1 < cubes_of(g).1,
        0 <= nth_place(g, n).2 < cubes_of(g).2,
{
    let nx = cubes_of(g).0;
    let ny = cubes_of(g).1;
    let nz = cubes_of(g).2;
    assert(nx > 0 && ny > 0 && nz > 0 && nx * ny * nz == nx * (ny * nz)) by (nonlinear_arith)
        requires
            0 <= nx,
            0 <= ny,
            0 <= nz,
            0 < nx * ny * nz,
    ;
    lemma_mod_bound(n, nx);
    lemma_div_pos_is_pos(n, nx);
    lemma_multiply_divide_lt(n, nx, ny * nz);
    lemma_mod_bound(n / nx, ny);
    lemma_div_pos_is_pos(n / nx, ny);
    lemma_multiply_divide_lt(n / nx, ny, nz);
}

fn cube_positions(x: usize, y: usize, z: usize) -> (p: [Corner; 8])
    requires
        x < usize::MAX,
        y < usize::MAX,
        z < usize::MAX,
    ensures
        p@ == cube_corners(x as int, y as int, z as int),
{
    let p: [Corner; 8] = [
        (x, y, z),
        (x + 1, y, z),
        (x + 1, y, z + 1),
        (x, y, z + 1),
        (x, y + 1, z),
        (x + 1, y + 1, z),
        (x + 1, y + 1, z + 1),
        (x, y + 1, z + 1),
    ];
    assert(p@ =~= cube_corners(x as int, y as int, z as int));
    p
}

fn cube_samples(field: &Field, x: usize, y: usize, z: usize) -> (f: [bool; 8])
    requires
        field.well_formed(),
        x < cubes_of(field@).0,
        y < cubes_of(field@).1,
        z < cubes_of(field@).2,
    ensures
        f@ == cube_signs(field@, x as int, y as int, z as int),
{
    proof {
        field.lemma_corner_counts_fit();
    }
    let f: [bool; 8] = [
        field.f(x, y, z),
        field.f(x + 1, y, z),
        field.f(x + 1, y, z + 1),
        field.f(x, y, z + 1),
        field.f(x, y + 1, z),
        field.f(x + 1, y + 1, z),
        field.f(x + 1, y + 1, z + 1),
        field.f(x, y + 1, z + 1),
    ];
    assert(f@ =~= cube_signs(field@, x as int, y as int, z as int));
    f
}

/// Tessellates every cube of the field, along `x` first, then along `y`,
/// then along `z`, and appends the meshes of the cubes to one another.
///
/// A field without a cube along some axis gives the empty mesh. Every
/// triangle owns three vertices, and every vertex lies on a lattice edge of
/// the field whose two ends differ in sign.
pub fn tessellate_field(field: &Field) -> (mesh: Mesh)
    requires
        field.well_formed(),
    ensures
        mesh@ == grid_mesh(field@),
        mesh@.well_formed(),
        mesh.0.len() == 3 * mesh.1.len(),
        forall|t: int|
            0 <= t < mesh.1.len() ==> #[trigger] mesh.1@[t] == Triangle(
                (3 * t) as usize,
                (3 * t + 1) as usize,
                (3 * t + 2) as usize,
            ),
        forall|i: int| 0 <= i < mesh.0.len() ==> is_cut_edge(field@, #[trigger] mesh.0@[i]),
        cubes_of(field@).0 == 0 || cubes_of(field@).1 == 0 || cubes_of(field@).2 == 0
            ==> mesh.0.len() == 0 && mesh.1.len() == 0,
{
    let (nx, ny, nz) = field.cube_count();
    let ghost g = field@;
    let ghost slab = nx * ny;
    let mut mesh = Mesh::empty();
    let mut z: usize = 0;
    while z < nz
        invariant
            z <= nz,
            field.well_formed(),
            g == field@,
            (nx as int, ny as int, nz as int) == cubes_of(g),
            slab == nx * ny,
            slab * z >= 0,
            mesh@ == grid_prefix(g, (slab * z) as nat),
            mesh@.well_formed(),
        decreases nz - z,
    {
        let mut y: usize = 0;
        while y < ny
            invariant
                y <= ny,
                z < nz,
                field.well_formed(),
                g == field@,
                (nx as int, ny as int, nz as int) == cubes_of(g),
                slab == nx * ny,
                slab * z + nx * y >= 0,
                mesh@ == grid_prefix(g, (slab * z + nx * y) as nat),
                mesh@.well_formed(),
            decreases ny - y,
        {
            let mut x: usize = 0;
            while x < nx
                invariant
                    x <= nx,
                    y < ny,
                    z < nz,
                    field.well_formed(),
                    g == field@,
                    (nx as int, ny as int, nz as int) == cubes_of(g),
                    slab == nx * ny,
                    slab * z + nx * y >= 0,
                    mesh@ == grid_prefix(g, (slab * z + nx * y + x) as nat),
                    mesh@.well_formed(),
                decreases nx - x,
            {
                let p = cube_positions(x, y, z);
                let f = cube_samples(field, x, y, z);
                let cube = tessellate_corners(&p, &f);
                proof {
                    let n = slab * z + nx * y + x;
                    assert(n == cube_index(g, x as int, y as int, z as int)) by (nonlinear_arith)
                        requires
                            n == slab * z + nx * y + x,
                            slab == nx * ny,
                            nx == cubes_of(g).0,
                            ny == cubes_of(g).1,
                    ;
                    lemma_cube_index_finds_cube(g, x as int, y as int, z as int);
                    lemma_append_well_formed(mesh@, cube@);
                }
                mesh.append(&cube);
                x += 1;
            }
            proof {
                assert(slab * z + nx * y + nx == slab * z + nx * (y + 1)) by (nonlinear_arith);
            }
            y += 1;
        }
        proof {
            assert(slab * z + nx * ny == slab * (z + 1)) by (nonlinear_arith)
                requires
                    slab == nx * ny,
            ;
        }
        z += 1;
    }
    proof {
        assert(slab * nz == cube_total(g)) by (nonlinear_arith)
            requires
                slab == nx * ny,
                cube_total(g) == nx * ny * nz,
        ;
        lemma_grid_prefix_shape(g, cube_total(g) as nat);
        assert forall|t: int| 0 <= t < mesh.1.len() implies #[trigger] mesh.1@[t] == Triangle(
            (3 * t) as usize,
            (3 * t + 1) as usize,
            (3 * t + 2) as usize,
        ) by {
            assert(mesh@.triangles[t] == mesh.1@[t].indices());
        }
        field.lemma_corner_counts_fit();
        assert forall|i: int| 0 <= i < mesh.0.len() implies is_cut_edge(
            g,
            #[trigger] mesh.0@[i],
        ) by {
            lemma_grid_vertices_are_cut_edges(g, i);
        }
        if nx == 0 || ny == 0 || nz == 0 {
            lemma_no_cubes_no_mesh(g);
        }
    }
    mesh
}

/// Samples `field` at every corner of a lattice of `cube_count` cubes and
/// tessellates the signs that it gives.
pub fn create_mesh<F>(field: F, cube_count: &(usize, usize, usize)) -> (mesh: Mesh) where
    F: Fn(usize, usize, usize) -> bool,

    requires
        cube_count.0 < usize::MAX,
        cube_count.1 < usize::MAX,
        cube_count.2 < usize::MAX,
        forall|x: usize, y: usize, z: usize|
            x <= cube_count.0 && y <= cube_count.1 && z <= cube_count.2 ==> field.requires(
                (x, y, z),
            ),
    ensures
        exists|g: Seq<Seq<Seq<bool>>>|
            {
                &&& #[trigger] sampled_from(g, field, *cube_count)
                &&& mesh@ == grid_mesh(g)
                &&& forall|i: int| 0 <= i < mesh.0.len() ==> is_cut_edge(g, #[trigger] mesh.0@[i])
            },
        mesh@.well_formed(),
        mesh.0.len() == 3 * mesh.1.len(),
        forall|t: int|
            0 <= t < mesh.1.len() ==> #[trigger] mesh.1@[t] == Triangle(
                (3 * t) as usize,
                (3 * t + 1) as usize,
                (3 * t + 2) as usize,
            ),
        cube_count.0 == 0 || cube_count.1 == 0 || cube_count.2 == 0 ==> mesh.0.len() == 0
            && mesh.1.len() == 0,
{
    let grid = Field::from_closure(field, cube_count);
    let mesh = tessellate_field(&grid);
    proof {
        assert(sampled_from(grid@, field, *cube_count));
    }
    mesh
}

/// In the mesh of the first `n` cubes, triangle `t` is made of the vertices
/// `3 t`, `3 t + 1` and `3 t + 2`, and these are all the vertices there are.
pub proof fn lemma_grid_prefix_shape(g: Seq<Seq<Seq<bool>>>, n: nat)
    ensures
        grid_prefix(g, n).vertices.len() == 3 * grid_prefix(g, n).triangles.len(),
        forall|t: int|
            0 <= t < grid_prefix(g, n).triangles.len() ==> #[trigger] grid_prefix(
                g,
                n,
            ).triangles[t] == (3 * t, 3 * t + 1, 3 * t + 2),
        grid_prefix(g, n).well_formed(),
    decreases n,
{
    if n > 0 {
        let before = grid_prefix(g, (n - 1) as nat);
        let cube = nth_cube(g, n - 1);
        let place = nth_place(g, n - 1);
        lemma_grid_prefix_shape(g, (n - 1) as nat);
        lemma_cube_mesh_shape(
            cube_corners(place.0, place.1, place.2),
            cube_signs(g, place.0, place.1, place.2),
        );
        let now = grid_prefix(g, n);
        assert forall|t: int| 0 <= t < now.triangles.len() implies #[trigger] now.triangles[t] == (
            3 * t,
            3 * t + 1,
            3 * t + 2,
        ) by {
            if t >= before.triangles.len() {
                let j = t - before.triangles.len();
                assert(cube.triangles[j] == (3 * j, 3 * j + 1, 3 * j + 2));
            }
        }
    }
}

/// The mesh of the first `n` cubes stays as it is, at the front, when more
/// cubes are appended.
pub proof fn lemma_grid_prefix_grows(g: Seq<Seq<Seq<bool>>>, n: nat, m: nat)
    requires
        n <= m,
    ensures
        grid_prefix(g, n).vertices.len() <= grid_prefix(g, m).vertices.len(),
        grid_prefix(g, n).triangles.len() <= grid_prefix(g, m).triangles.len(),
        grid_prefix(g, m).vertices.take(grid_prefix(g, n).vertices.len() as int) == grid_prefix(
            g,
            n,
        ).vertices,
        grid_prefix(g, m).triangles.take(grid_prefix(g, n).triangles.len() as int) == grid_prefix(
            g,
            n,
        ).triangles,
    decreases m - n,
{
    let small = grid_prefix(g, n);
    if n < m {
        let before = grid_prefix(g, (m - 1) as nat);
        lemma_grid_prefix_grows(g, n, (m - 1) as nat);
        let big = grid_prefix(g, m);
        assert(big.vertices.take(small.vertices.len() as int) =~= before.vertices.take(
            small.vertices.len() as int,
        ));
        assert(big.triangles.take(small.triangles.len() as int) =~= before.triangles.take(
            small.triangles.len() as int,
        ));
    } else {
        assert(small.vertices.take(small.vertices.len() as int) =~= small.vertices);
        assert(small.triangles.take(small.triangles.len() as int) =~= small.triangles);
    }
}

/// The mesh of a whole box holds the mesh of each of its cubes: the
/// vertices of the cube unchanged, after those of the cubes before it, and
/// its triangles moved up by the number of those earlier vertices.
pub proof fn lemma_grid_holds_each_cube(g: Seq<Seq<Seq<bool>>>, x: int, y: int, z: int)
    requires
        0 <= x < cubes_of(g).0,
        0 <= y < cubes_of(g).1,
        0 <= z < cubes_of(g).2,
    ensures
        ({
            let before = grid_prefix(g, cube_index(g, x, y, z) as nat);
            let cube = cube_at(g, x, y, z);
            let whole = grid_mesh(g);
            &&& before.vertices.len() + cube.vertices.len() <= whole.vertices.len()
            &&& before.triangles.len() + cube.triangles.len() <= whole.triangles.len()
            &&& forall|i: int|
                0 <= i < cube.vertices.len() ==> #[trigger] whole.vertices[before.vertices.len()
                    + i] == cube.vertices[i]
            &&& forall|j: int|
                0 <= j < cube.triangles.len() ==> #[trigger] whole.triangles[before.triangles.len()
                    + j] == shifted(cube.triangles[j], before.vertices.len() as int)
        }),
{
    lemma_cube_index_finds_cube(g, x, y, z);
    let n = cube_index(g, x, y, z) as nat;
    let before = grid_prefix(g, n);
    let after = grid_prefix(g, n + 1);
    let cube = cube_at(g, x, y, z);
    let whole = grid_mesh(g);
    assert(after == before.append(cube));
    lemma_grid_prefix_grows(g, n + 1, cube_total(g) as nat);
    assert forall|i: int| 0 <= i < cube.vertices.len() implies #[trigger] whole.vertices[before.vertices.len()
        + i] == cube.vertices[i] by {
        let at = before.vertices.len() + i;
        assert(whole.vertices.take(after.vertices.len() as int)[at] == after.vertices[at]);
    }
    assert forall|j: int| 0 <= j < cube.triangles.len() implies #[trigger] whole.triangles[before.triangles.len()
        + j] == shifted(cube.triangles[j], before.vertices.len() as int) by {
        let at = before.triangles.len() + j;
        assert(whole.triangles.take(after.triangles.len() as int)[at] == after.triangles[at]);
    }
}

/// Every triangle of the mesh of a whole box refers to vertices of that
/// mesh: its three indices lie below the number of vertices.
pub proof fn lemma_grid_mesh_well_formed(g: Seq<Seq<Seq<bool>>>)
    ensures
        grid_mesh(g).well_formed(),
        grid_mesh(g).vertices.len() == 3 * grid_mesh(g).triangles.len(),
{
    lemma_grid_prefix_shape(g, cube_total(g) as nat);
}

/// A triangle that the cube `(x, y, z)` has added to the mesh of a whole box
/// refers to three vertices that the same cube has added, and to none of
/// another cube.
pub proof fn lemma_triangles_stay_in_their_cube(
    g: Seq<Seq<Seq<bool>>>,
    x: int,
    y: int,
    z: int,
    t: int,
)
    requires
        0 <= x < cubes_of(g).0,
        0 <= y < cubes_of(g).1,
        0 <= z < cubes_of(g).2,
        grid_prefix(g, cube_index(g, x, y, z) as nat).triangles.len() <= t < grid_prefix(
            g,
            (cube_index(g, x, y, z) + 1) as nat,
        ).triangles.len(),
    ensures
        t < grid_mesh(g).triangles.len(),
        grid_prefix(g, (cube_index(g, x, y, z) + 1) as nat).vertices.len() <= grid_mesh(
            g,
        ).vertices.len(),
        within(
            grid_mesh(g).triangles[t],
            grid_prefix(g, cube_index(g, x, y, z) as nat).vertices.len() as int,
            grid_prefix(g, (cube_index(g, x, y, z) + 1) as nat).vertices.len() as int,
        ),
{
    lemma_cube_index_finds_cube(g, x, y, z);
    let n = cube_index(g, x, y, z) as nat;
    let whole = grid_mesh(g);
    lemma_grid_prefix_shape(g, n);
    lemma_grid_prefix_shape(g, n + 1);
    lemma_grid_prefix_shape(g, cube_total(g) as nat);
    lemma_grid_prefix_grows(g, n, n + 1);
    lemma_grid_prefix_grows(g, n + 1, cube_total(g) as nat);
    assert(whole.triangles[t] == (3 * t, 3 * t + 1, 3 * t + 2));
}

/// A box without a cube along some axis has the empty mesh.
pub proof fn lemma_no_cubes_no_mesh(g: Seq<Seq<Seq<bool>>>)
    requires
        cubes_of(g).0 == 0 || cubes_of(g).1 == 0 || cubes_of(g).2 == 0,
    ensures
        grid_mesh(g) == MeshView::empty(),
{
    assert(cube_total(g) == 0) by (nonlinear_arith)
        requires
            cube_total(g) == cubes_of(g).0 * cubes_of(g).1 * cubes_of(g).2,
            cubes_of(g).0 == 0 || cubes_of(g).1 == 0 || cubes_of(g).2 == 0,
    ;
}

/// Every vertex of the mesh of a cube of the box lies on a lattice edge of
/// that cube, and the signs at the two ends of the edge differ.
pub proof fn lemma_cube_vertices_are_cut_edges(
    g: Seq<Seq<Seq<bool>>>,
    x: int,
    y: int,
    z: int,
    i: int,
)
    requires
        is_grid(g),
        fits(g),
        0 <= x < cubes_of(g).0,
        0 <= y < cubes_of(g).1,
        0 <= z < cubes_of(g).2,
        0 <= i < cube_at(g, x, y, z).vertices.len(),
    ensures
        is_cut_edge(g, cube_at(g, x, y, z).vertices[i]),
        x <= cube_at(g, x, y, z).vertices[i].near.0 <= x + 1,
        y <= cube_at(g, x, y, z).vertices[i].near.1 <= y + 1,
        z <= cube_at(g, x, y, z).vertices[i].near.2 <= z + 1,
        x <= cube_at(g, x, y, z).vertices[i].far.0 <= x + 1,
        y <= cube_at(g, x, y, z).vertices[i].far.1 <= y + 1,
        z <= cube_at(g, x, y, z).vertices[i].far.2 <= z + 1,
{
    let p = cube_corners(x, y, z);
    let f = cube_signs(g, x, y, z);
    let v = cube_at(g, x, y, z).vertices[i];
    lemma_cube_vertices_cut(p, f, i);
    let e = choose|e: int|
        0 <= e < 12 && f[EDGES[e].0 as int] != f[EDGES[e].1 as int] && v == #[trigger] crossing(
            p,
            e,
        );
    let a = EDGES[e].0 as int;
    let b = EDGES[e].1 as int;
    assert(0 <= a < 8 && 0 <= b < 8);
    assert(v.near == p[a] && v.far == p[b]);
    assert(sign_at(g, p[a]) == f[a] && sign_at(g, p[b]) == f[b]);
    assert(adjacent(p[a], p[b]));
}

proof fn lemma_grid_prefix_vertices_are_cut_edges(g: Seq<Seq<Seq<bool>>>, n: nat, i: int)
    requires
        is_grid(g),
        fits(g),
        n <= cube_total(g),
        0 <= i < grid_prefix(g, n).vertices.len(),
    ensures
        is_cut_edge(g, grid_prefix(g, n).vertices[i]),
    decreases n,
{
    let before = grid_prefix(g, (n - 1) as nat);
    if i < before.vertices.len() {
        lemma_grid_prefix_vertices_are_cut_edges(g, (n - 1) as nat, i);
    } else {
        let place = nth_place(g, n - 1);
        lemma_nth_place_is_a_cube(g, n - 1);
        lemma_cube_vertices_are_cut_edges(
            g,
            place.0,
            place.1,
            place.2,
            i - before.vertices.len(),
        );
    }
}

/// Every vertex of the mesh of a whole box lies on a lattice edge of the
/// box, and the signs at the two ends of the edge differ.
pub proof fn lemma_grid_vertices_are_cut_edges(g: Seq<Seq<Seq<bool>>>, i: int)
    requires
        is_grid(g),
        fits(g),
        0 <= i < grid_mesh(g).vertices.len(),
    ensures
        is_cut_edge(g, grid_mesh(g).vertices[i]),
{
    if cube_total(g) > 0 {
        lemma_grid_prefix_vertices_are_cut_edges(g, cube_total(g) as nat, i);
    }
}

} // verus!
