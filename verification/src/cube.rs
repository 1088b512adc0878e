//! Tessellation of a single cube.

use crate::mesh::{indices_of, Corner, Mesh, MeshView, Triangle, Vertex};
use crate::tables::edges::{
    corner_mask_to_edge_mask, edge_is_marked, edge_mask,
    lemma_edge_mask_is_zero_where_nothing_is_crossed, lemma_uniform_masks_cross_nothing,
};
use crate::tables::triangles::{
    corner_mask_to_triangle, lemma_crossed_edges_are_drawn, lemma_single_corner_template,
    lemma_template_edges_are_crossed, lemma_template_edges_are_marked, slot_uses, template,
};
use crate::tables::{bit, crossed, lemma_bits_of_sum, two_to, CORNERS, EDGES};
use vstd::prelude::*;

verus! {

/// `2^c` where corner `c` is inside, else zero.
pub open spec fn inside_weight(f: Seq<bool>, c: int) -> int {
    if f[c] {
        two_to(c)
    } else {
        0
    }
}

/// The corner mask of eight signs: bit `c` is set where `f[c]` holds.
pub open spec fn corner_mask(f: Seq<bool>) -> int {
    inside_weight(f, 0) + inside_weight(f, 1) + inside_weight(f, 2) + inside_weight(f, 3)
        + inside_weight(f, 4) + inside_weight(f, 5) + inside_weight(f, 6) + inside_weight(f, 7)
}

/// All eight signs are the same.
pub open spec fn uniform(f: Seq<bool>) -> bool {
    forall|c: int| 0 <= c < 8 ==> #[trigger] f[c] == f[0]
}

/// The vertex on edge `e` of the cube whose corners are `p`.
pub open spec fn crossing(p: Seq<Corner>, e: int) -> Vertex {
    Vertex { near: p[EDGES[e].0 as int], far: p[EDGES[e].1 as int] }
}

/// The mesh drawn by the first `k` slots of the template of a corner mask:
/// each triangle that a slot holds owns three fresh vertices, which lie on
/// the three edges that the slot names.
pub open spec fn template_mesh(p: Seq<Corner>, mask: int, k: nat) -> MeshView
    decreases k,
{
    if k == 0 {
        MeshView::empty()
    } else {
        let before = template_mesh(p, mask, (k - 1) as nat);
        match template(mask, k - 1) {
            Some(t) => before.push_triangle(crossing(p, t.0), crossing(p, t.1), crossing(p, t.2)),
            None => before,
        }
    }
}

/// The mesh of one cube with corners `p` and signs `f`.
pub open spec fn cube_mesh(p: Seq<Corner>, f: Seq<bool>) -> MeshView {
    let mask = corner_mask(f);
    if edge_mask(mask) == 0 {
        MeshView::empty()
    } else {
        template_mesh(p, mask, 5)
    }
}

/// The eight corners of the box between `min` and `max`, in the order of
/// the corner table.
pub open spec fn box_corners(min: Corner, max: Corner) -> Seq<Corner> {
    Seq::new(
        8,
        |c: int|
            (
                if CORNERS[c].0 == 0 {
                    min.0
                } else {
                    max.0
                },
                if CORNERS[c].1 == 0 {
                    min.1
                } else {
                    max.1
                },
                if CORNERS[c].2 == 0 {
                    min.2
                } else {
                    max.2
                },
            ),
    )
}

/// `f` holds, for each of the points `p`, a sign that `field` may give there.
pub open spec fn signs_at<F: Fn(usize, usize, usize) -> bool>(
    field: F,
    p: Seq<Corner>,
    f: Seq<bool>,
) -> bool {
    &&& f.len() == p.len()
    &&& forall|c: int| 0 <= c < p.len() ==> field.ensures(p[c], #[trigger] f[c])
}

/// `v` is the vertex on an edge of the cube `p` whose two ends differ in sign.
pub open spec fn cuts(p: Seq<Corner>, f: Seq<bool>, v: Vertex) -> bool {
    exists|e: int|
        0 <= e < 12 && f[EDGES[e].0 as int] != f[EDGES[e].1 as int] && v == #[trigger] crossing(
            p,
            e,
        )
}

/// `v` is among the vertices of `mesh`.
pub open spec fn has_vertex(mesh: MeshView, v: Vertex) -> bool {
    exists|i: int| 0 <= i < mesh.vertices.len() && #[trigger] mesh.vertices[i] == v
}

spec fn mask_below(f: Seq<bool>, c: nat) -> int
    decreases c,
{
    if c == 0 {
        0
    } else {
        mask_below(f, (c - 1) as nat) + inside_weight(f, c - 1)
    }
}

proof fn lemma_mask_below_is_small(f: Seq<bool>, c: nat)
    requires
        c <= 8,
    ensures
        0 <= mask_below(f, c) < two_to(c as int) || (c == 8 && 0 <= mask_below(f, c) < 256),
    decreases c,
{
    if c > 0 {
        lemma_mask_below_is_small(f, (c - 1) as nat);
    }
}

proof fn lemma_set_fresh_bit(mask: u8, c: u8)
    requires
        c < 8,
        mask < two_to(c as int),
    ensures
        mask | (1u8 << c) == mask + two_to(c as int),
{
    if c == 0 {
        assert(mask < 1 ==> mask | (1u8 << 0u8) == mask + 1) by (bit_vector);
    } else if c == 1 {
        assert(mask < 2 ==> mask | (1u8 << 1u8) == mask + 2) by (bit_vector);
    } else if c == 2 {
        assert(mask < 4 ==> mask | (1u8 << 2u8) == mask + 4) by (bit_vector);
    } else if c == 3 {
        assert(mask < 8 ==> mask | (1u8 << 3u8) == mask + 8) by (bit_vector);
    } else if c == 4 {
        assert(mask < 16 ==> mask | (1u8 << 4u8) == mask + 16) by (bit_vector);
    } else if c == 5 {
        assert(mask < 32 ==> mask | (1u8 << 5u8) == mask + 32) by (bit_vector);
    } else if c == 6 {
        assert(mask < 64 ==> mask | (1u8 << 6u8) == mask + 64) by (bit_vector);
    } else {
        assert(mask < 128 ==> mask | (1u8 << 7u8) == mask + 128) by (bit_vector);
    }
}

/// Classifies a cube by the signs of its eight samples.
pub fn corners_inside(f: &[bool; 8]) -> (mask: u8)
    ensures
        mask == corner_mask(f@),
{
    let mut mask: u8 = 0;
    let mut c: u8 = 0;
    while c < 8
        invariant
            c <= 8,
            mask == mask_below(f@, c as nat),
        decreases 8 - c,
    {
        proof {
            lemma_mask_below_is_small(f@, c as nat);
        }
        if f[c as usize] {
            proof {
                lemma_set_fresh_bit(mask, c);
            }
            mask = mask | (1u8 << c);
        }
        c += 1;
    }
    proof {
        reveal_with_fuel(mask_below, 9);
    }
    mask
}

/// The vertex on edge `i`, provided that `edges` marks the edge as crossed.
pub fn edge_intersection(edges: u16, i: usize, p: &[Corner; 8]) -> (vertex: Option<Vertex>)
    requires
        i < 12,
    ensures
        vertex == if bit(edges as int, i as int) {
            Some(crossing(p@, i as int))
        } else {
            None
        },
{
    if !edge_is_marked(edges, i) {
        None
    } else {
        let (v0, v1) = EDGES[i];
        Some(Vertex { near: p[v0], far: p[v1] })
    }
}

fn edge_intersection_unwrap(edges: u16, i: usize, p: &[Corner; 8]) -> (vertex: Vertex)
    requires
        i < 12,
        bit(edges as int, i as int),
    ensures
        vertex == crossing(p@, i as int),
{
    match edge_intersection(edges, i, p) {
        Some(vertex) => vertex,
        None => vstd::pervasive::unreached(),
    }
}

/// Tessellates one cube from the lattice positions `p` of its eight corners
/// and the signs `f` of its eight samples (`true` for a negative sample).
///
/// A cube all of whose corners are on one side gives the empty mesh. Any
/// other cube gives one to five triangles, each with three vertices of its
/// own.
pub fn tessellate_corners(p: &[Corner; 8], f: &[bool; 8]) -> (mesh: Mesh)
    ensures
        mesh@ == cube_mesh(p@, f@),
        mesh@.well_formed(),
        mesh.1.len() <= 5,
        mesh.1.len() == 0 <==> uniform(f@),
        mesh.0.len() == 3 * mesh.1.len(),
        forall|t: int|
            0 <= t < mesh.1.len() ==> #[trigger] mesh.1@[t] == Triangle(
                (3 * t) as usize,
                (3 * t + 1) as usize,
                (3 * t + 2) as usize,
            ),
        forall|i: int| 0 <= i < mesh.0.len() ==> cuts(p@, f@, #[trigger] mesh.0@[i]),
{
    proof {
        if uniform(f@) {
            lemma_uniform_cube_has_empty_mesh(p@, f@);
        } else {
            lemma_mixed_cube_has_a_triangle(p@, f@);
        }
        assert forall|i: int| 0 <= i < cube_mesh(p@, f@).vertices.len() implies cuts(
            p@,
            f@,
            #[trigger] cube_mesh(p@, f@).vertices[i],
        ) by {
            lemma_cube_vertices_cut(p@, f@, i);
        }
    }
    let corners_in = corners_inside(f);
    let edges = corner_mask_to_edge_mask(corners_in);
    if edges == 0 {
        return Mesh::empty();
    }
    let mut verts: Vec<Vertex> = Vec::new();
    let mut tris: Vec<Triangle> = Vec::new();
    let mut k: usize = 0;
    assert(indices_of(tris@) =~= Seq::empty());
    while k < 5
        invariant
            k <= 5,
            edges == edge_mask(corners_in as int),
            tris.len() <= k,
            verts.len() == 3 * tris.len(),
            forall|t: int|
                0 <= t < tris.len() ==> #[trigger] tris@[t] == Triangle(
                    (3 * t) as usize,
                    (3 * t + 1) as usize,
                    (3 * t + 2) as usize,
                ),
            (MeshView { vertices: verts@, triangles: indices_of(tris@) }) == template_mesh(
                p@,
                corners_in as int,
                k as nat,
            ),
        decreases 5 - k,
    {
        if let Some(t) = corner_mask_to_triangle(corners_in, k) {
            proof {
                lemma_template_edges_are_marked(corners_in as int, k as int);
            }
            let n: usize = verts.len();
            let ghost drawn = tris@;
            verts.push(edge_intersection_unwrap(edges, t.0, p));
            verts.push(edge_intersection_unwrap(edges, t.1, p));
            verts.push(edge_intersection_unwrap(edges, t.2, p));
            tris.push(Triangle(n, n + 1, n + 2));
            assert(indices_of(tris@) =~= indices_of(drawn).push((n as int, n + 1, n + 2)));
        }
        k += 1;
    }
    proof {
        lemma_cube_mesh_shape(p@, f@);
    }
    Mesh::new(verts, tris)
}

/// Tessellates the box between the lattice points `min` and `max`, asking
/// `field` for the sign at each of its eight corners.
pub fn tessellate_cube<F: Fn(usize, usize, usize) -> bool>(
    min: &Corner,
    max: &Corner,
    field: F,
) -> (mesh: Mesh)
    requires
        forall|c: int| 0 <= c < 8 ==> field.requires(#[trigger] (box_corners(*min, *max)[c])),
    ensures
        exists|f: Seq<bool>|
            #[trigger] signs_at(field, box_corners(*min, *max), f) && mesh@ == cube_mesh(
                box_corners(*min, *max),
                f,
            ),
        mesh@.well_formed(),
        mesh.1.len() <= 5,
        mesh.0.len() == 3 * mesh.1.len(),
{
    let p: [Corner; 8] = [
        (min.0, min.1, min.2),
        (max.0, min.1, min.2),
        (max.0, min.1, max.2),
        (min.0, min.1, max.2),
        (min.0, max.1, min.2),
        (max.0, max.1, min.2),
        (max.0, max.1, max.2),
        (min.0, max.1, max.2),
    ];
    assert(p@ =~= box_corners(*min, *max));
    assert(forall|c: int| 0 <= c < 8 ==> field.requires(#[trigger] (p@[c])));
    let f: [bool; 8] = [
        field(p[0].0, p[0].1, p[0].2),
        field(p[1].0, p[1].1, p[1].2),
        field(p[2].0, p[2].1, p[2].2),
        field(p[3].0, p[3].1, p[3].2),
        field(p[4].0, p[4].1, p[4].2),
        field(p[5].0, p[5].1, p[5].2),
        field(p[6].0, p[6].1, p[6].2),
        field(p[7].0, p[7].1, p[7].2),
    ];
    let mesh = tessellate_corners(&p, &f);
    proof {
        let signs = f@;
        assert forall|c: int| 0 <= c < 8 implies field.ensures(p@[c], #[trigger] signs[c]) by {
            assert(p@[c] == (p@[c].0, p@[c].1, p@[c].2));
        }
        assert(signs_at(field, p@, signs));
    }
    mesh
}

/// The corner mask of a cube lies below 256.
pub proof fn lemma_corner_mask_range(f: Seq<bool>)
    ensures
        0 <= corner_mask(f) < 256,
{
}

/// Bit `c` of the corner mask is set exactly where corner `c` is inside.
pub proof fn lemma_corner_mask_bits(f: Seq<bool>, c: int)
    requires
        0 <= c < 8,
    ensures
        bit(corner_mask(f), c) <==> f[c],
{
    reveal(bit);
    lemma_bits_of_sum(
        inside_weight(f, 0) as u16,
        inside_weight(f, 1) as u16,
        inside_weight(f, 2) as u16,
        inside_weight(f, 3) as u16,
        inside_weight(f, 4) as u16,
        inside_weight(f, 5) as u16,
        inside_weight(f, 6) as u16,
        inside_weight(f, 7) as u16,
        0,
        0,
        0,
        0,
        corner_mask(f) as u16,
    );
}

/// The surface crosses an edge of a cube exactly where the signs at the two
/// ends of the edge differ.
pub proof fn lemma_crossed_where_signs_differ(f: Seq<bool>, e: int)
    requires
        0 <= e < 12,
    ensures
        crossed(corner_mask(f), e) <==> f[EDGES[e].0 as int] != f[EDGES[e].1 as int],
{
    lemma_corner_mask_bits(f, EDGES[e].0 as int);
    lemma_corner_mask_bits(f, EDGES[e].1 as int);
}

/// The mesh of a template holds at most one triangle for each slot, every
/// triangle owns the three vertices that were added with it, and no vertex
/// is left over.
pub proof fn lemma_template_mesh_shape(p: Seq<Corner>, mask: int, k: nat)
    ensures
        template_mesh(p, mask, k).triangles.len() <= k,
        template_mesh(p, mask, k).vertices.len() == 3 * template_mesh(p, mask, k).triangles.len(),
        forall|t: int|
            0 <= t < template_mesh(p, mask, k).triangles.len() ==> #[trigger] template_mesh(
                p,
                mask,
                k,
            ).triangles[t] == (3 * t, 3 * t + 1, 3 * t + 2),
    decreases k,
{
    if k > 0 {
        lemma_template_mesh_shape(p, mask, (k - 1) as nat);
    }
}

/// The mesh of a cube holds at most five triangles, triangle `t` is made of
/// the vertices `3 t`, `3 t + 1` and `3 t + 2`, and these are all the
/// vertices there are.
pub proof fn lemma_cube_mesh_shape(p: Seq<Corner>, f: Seq<bool>)
    ensures
        cube_mesh(p, f).triangles.len() <= 5,
        cube_mesh(p, f).vertices.len() == 3 * cube_mesh(p, f).triangles.len(),
        forall|t: int|
            0 <= t < cube_mesh(p, f).triangles.len() ==> #[trigger] cube_mesh(p, f).triangles[t]
                == (3 * t, 3 * t + 1, 3 * t + 2),
        cube_mesh(p, f).well_formed(),
{
    lemma_template_mesh_shape(p, corner_mask(f), 5);
}

proof fn lemma_template_vertices_cut(p: Seq<Corner>, f: Seq<bool>, k: nat)
    requires
        k <= 5,
    ensures
        forall|i: int|
            0 <= i < template_mesh(p, corner_mask(f), k).vertices.len() ==> cuts(
                p,
                f,
                #[trigger] template_mesh(p, corner_mask(f), k).vertices[i],
            ),
    decreases k,
{
    if k > 0 {
        let mask = corner_mask(f);
        let before = template_mesh(p, mask, (k - 1) as nat);
        let now = template_mesh(p, mask, k);
        lemma_template_vertices_cut(p, f, (k - 1) as nat);
        lemma_template_edges_are_crossed(mask, k - 1);
        assert forall|i: int| 0 <= i < now.vertices.len() implies cuts(
            p,
            f,
            #[trigger] now.vertices[i],
        ) by {
            if i < before.vertices.len() {
                assert(now.vertices[i] == before.vertices[i]);
            } else {
                let t = template(mask, k - 1)->0;
                let n = before.vertices.len() as int;
                lemma_crossed_where_signs_differ(f, t.0);
                lemma_crossed_where_signs_differ(f, t.1);
                lemma_crossed_where_signs_differ(f, t.2);
                assert(now.vertices[n] == crossing(p, t.0));
                assert(now.vertices[n + 1] == crossing(p, t.1));
                assert(now.vertices[n + 2] == crossing(p, t.2));
            }
        }
    }
}

/// Every vertex of the mesh of a cube lies on an edge of the cube whose two
/// ends differ in sign, and runs from the near end of that edge to its far
/// end.
pub proof fn lemma_cube_vertices_cut(p: Seq<Corner>, f: Seq<bool>, i: int)
    requires
        0 <= i < cube_mesh(p, f).vertices.len(),
    ensures
        cuts(p, f, cube_mesh(p, f).vertices[i]),
{
    lemma_template_vertices_cut(p, f, 5);
}

proof fn lemma_template_mesh_keeps_vertices(p: Seq<Corner>, mask: int, j: nat, k: nat, v: Vertex)
    requires
        j <= k,
        has_vertex(template_mesh(p, mask, j), v),
    ensures
        has_vertex(template_mesh(p, mask, k), v),
    decreases k - j,
{
    if j < k {
        lemma_template_mesh_keeps_vertices(p, mask, j, (k - 1) as nat, v);
        let before = template_mesh(p, mask, (k - 1) as nat);
        let i = choose|i: int| 0 <= i < before.vertices.len() && before.vertices[i] == v;
        assert(template_mesh(p, mask, k).vertices[i] == v);
    }
}

proof fn lemma_slot_draws_on_its_edges(p: Seq<Corner>, mask: int, k: int, e: int)
    requires
        0 <= k < 5,
        slot_uses(mask, k, e),
    ensures
        has_vertex(template_mesh(p, mask, 5), crossing(p, e)),
{
    let before = template_mesh(p, mask, k as nat);
    let now = template_mesh(p, mask, (k + 1) as nat);
    let t = template(mask, k)->0;
    let n = before.vertices.len() as int;
    assert(now.vertices[n] == crossing(p, t.0));
    assert(now.vertices[n + 1] == crossing(p, t.1));
    assert(now.vertices[n + 2] == crossing(p, t.2));
    assert(has_vertex(now, crossing(p, e)));
    lemma_template_mesh_keeps_vertices(p, mask, (k + 1) as nat, 5, crossing(p, e));
}

/// Every edge of a cube whose two ends differ in sign carries a vertex of
/// the mesh of the cube.
pub proof fn lemma_cut_edges_carry_vertices(p: Seq<Corner>, f: Seq<bool>, e: int)
    requires
        0 <= e < 12,
        f[EDGES[e].0 as int] != f[EDGES[e].1 as int],
    ensures
        has_vertex(cube_mesh(p, f), crossing(p, e)),
{
    let mask = corner_mask(f);
    lemma_crossed_where_signs_differ(f, e);
    lemma_edge_mask_is_zero_where_nothing_is_crossed(mask);
    lemma_crossed_edges_are_drawn(mask, e);
    if slot_uses(mask, 0, e) {
        lemma_slot_draws_on_its_edges(p, mask, 0, e);
    } else if slot_uses(mask, 1, e) {
        lemma_slot_draws_on_its_edges(p, mask, 1, e);
    } else if slot_uses(mask, 2, e) {
        lemma_slot_draws_on_its_edges(p, mask, 2, e);
    } else if slot_uses(mask, 3, e) {
        lemma_slot_draws_on_its_edges(p, mask, 3, e);
    } else {
        lemma_slot_draws_on_its_edges(p, mask, 4, e);
    }
}

/// A cube whose corners are all inside, or all outside, has the empty mesh.
pub proof fn lemma_uniform_cube_has_empty_mesh(p: Seq<Corner>, f: Seq<bool>)
    requires
        uniform(f),
    ensures
        cube_mesh(p, f) == MeshView::empty(),
{
    lemma_uniform_masks_cross_nothing();
    assert(f[1] == f[0] && f[2] == f[0] && f[3] == f[0] && f[4] == f[0]);
    assert(f[5] == f[0] && f[6] == f[0] && f[7] == f[0]);
    if f[0] {
        assert(corner_mask(f) == 255);
    } else {
        assert(corner_mask(f) == 0);
    }
}

/// A cube with corners on both sides has a mesh of at least one triangle.
pub proof fn lemma_mixed_cube_has_a_triangle(p: Seq<Corner>, f: Seq<bool>)
    requires
        !uniform(f),
    ensures
        cube_mesh(p, f).triangles.len() >= 1,
{
    // from corner 0 every corner is reached along edges of the cube
    let e: int = if f[0] != f[1] {
        0
    } else if f[1] != f[2] {
        1
    } else if f[2] != f[3] {
        2
    } else if f[0] != f[4] {
        8
    } else if f[4] != f[5] {
        4
    } else if f[5] != f[6] {
        5
    } else {
        6
    };
    assert(f[EDGES[e].0 as int] != f[EDGES[e].1 as int]);
    lemma_cut_edges_carry_vertices(p, f, e);
    lemma_cube_mesh_shape(p, f);
}

/// A cube with exactly one corner inside has a mesh of exactly one triangle.
pub proof fn lemma_single_inside_corner_gives_one_triangle(p: Seq<Corner>, f: Seq<bool>, c: int)
    requires
        0 <= c < 8,
        forall|i: int| 0 <= i < 8 ==> (f[i] <==> i == c),
    ensures
        cube_mesh(p, f).triangles.len() == 1,
        cube_mesh(p, f).vertices.len() == 3,
{
    assert(f[0] == (c == 0) && f[1] == (c == 1) && f[2] == (c == 2) && f[3] == (c == 3));
    assert(f[4] == (c == 4) && f[5] == (c == 5) && f[6] == (c == 6) && f[7] == (c == 7));
    assert(corner_mask(f) == two_to(c));
    lemma_single_corner_template(c);
    reveal_with_fuel(template_mesh, 6);
}

} // verus!
