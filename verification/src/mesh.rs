//! The mesh that a tessellation produces.

use vstd::prelude::*;

verus! {

/// A point of the sampling lattice, by its integer coordinates `(x, y, z)`.
pub type Corner = (usize, usize, usize);

/// A mesh vertex: the point at which the surface crosses one lattice edge.
///
/// The vertex is named by the two ends of that edge, in the direction in which
/// the crossing is interpolated: from `near` to `far`.
#[derive(Clone, Copy, PartialEq, Eq, Debug)]
pub struct Vertex {
    pub near: Corner,
    pub far: Corner,
}

/// Three indices into the vertex sequence of the mesh that holds the triangle.
#[derive(Clone, Copy, PartialEq, Eq, Debug)]
pub struct Triangle(pub usize, pub usize, pub usize);

/// An ordered sequence of vertices and an ordered sequence of triangles over them.
pub struct Mesh(pub Vec<Vertex>, pub Vec<Triangle>);

/// The mathematical content of a [`Mesh`]: its vertices, and its triangles
/// as triples of unbounded indices.
pub struct MeshView {
    pub vertices: Seq<Vertex>,
    pub triangles: Seq<(int, int, int)>,
}

/// All three indices of the triangle `t` lie in `lo..hi`.
pub open spec fn within(t: (int, int, int), lo: int, hi: int) -> bool {
    lo <= t.0 < hi && lo <= t.1 < hi && lo <= t.2 < hi
}

/// The triangle `t` with every index moved up by `by`.
pub open spec fn shifted(t: (int, int, int), by: int) -> (int, int, int) {
    (t.0 + by, t.1 + by, t.2 + by)
}

impl Triangle {
    /// The three indices of the triangle.
    pub open spec fn indices(self) -> (int, int, int) {
        (self.0 as int, self.1 as int, self.2 as int)
    }
}

/// The indices of each triangle of a sequence.
pub open spec fn indices_of(triangles: Seq<Triangle>) -> Seq<(int, int, int)> {
    Seq::new(triangles.len(), |t: int| triangles[t].indices())
}

impl MeshView {
    pub open spec fn empty() -> MeshView {
        MeshView { vertices: Seq::empty(), triangles: Seq::empty() }
    }

    /// Every triangle refers to vertices of this mesh.
    pub open spec fn well_formed(self) -> bool {
        forall|t: int|
            0 <= t < self.triangles.len() ==> within(
                #[trigger] self.triangles[t],
                0,
                self.vertices.len() as int,
            )
    }

    /// This mesh followed by one more triangle that owns three fresh vertices.
    pub open spec fn push_triangle(self, a: Vertex, b: Vertex, c: Vertex) -> MeshView {
        let n = self.vertices.len() as int;
        MeshView {
            vertices: self.vertices.push(a).push(b).push(c),
            triangles: self.triangles.push((n, n + 1, n + 2)),
        }
    }

    /// This mesh followed by `other`, whose triangles are renumbered to keep
    /// referring to their own vertices.
    pub open spec fn append(self, other: MeshView) -> MeshView {
        let n = self.vertices.len() as int;
        MeshView {
            vertices: self.vertices + other.vertices,
            triangles: self.triangles + Seq::new(
                other.triangles.len(),
                |t: int| shifted(other.triangles[t], n),
            ),
        }
    }
}

impl View for Mesh {
    type V = MeshView;

    open spec fn view(&self) -> MeshView {
        MeshView { vertices: self.0@, triangles: indices_of(self.1@) }
    }
}

impl Mesh {
    pub fn new(verts: Vec<Vertex>, tris: Vec<Triangle>) -> (mesh: Mesh)
        ensures
            mesh.0 == verts,
            mesh.1 == tris,
    {
        Mesh(verts, tris)
    }

    pub fn empty() -> (mesh: Mesh)
        ensures
            mesh@ == MeshView::empty(),
            mesh.0.len() == 0,
            mesh.1.len() == 0,
    {
        let mesh = Mesh(Vec::new(), Vec::new());
        assert(mesh@.triangles =~= Seq::empty());
        mesh
    }

    /// Appends the vertices and triangles of `other`, moving each of its
    /// triangle indices up by the number of vertices already here.
    pub fn append(&mut self, other: &Mesh)
        requires
            other@.well_formed(),
        ensures
            final(self)@ == old(self)@.append(other@),
    {
        let base: usize = self.0.len();
        let mut i: usize = 0;
        while i < other.0.len()
            invariant
                i <= other.0.len(),
                self.0@ == old(self).0@ + other.0@.take(i as int),
                self.1@ == old(self).1@,
                base == old(self).0@.len(),
            decreases other.0.len() - i,
        {
            self.0.push(other.0[i]);
            i += 1;
        }
        assert(other.0@.take(other.0@.len() as int) == other.0@);
        let total: usize = self.0.len();
        let mut j: usize = 0;
        while j < other.1.len()
            invariant
                j <= other.1.len(),
                other@.well_formed(),
                self.0@ == old(self).0@ + other.0@,
                self.1.len() == old(self).1.len() + j,
                forall|t: int| 0 <= t < old(self).1.len() ==> self.1@[t] == old(self).1@[t],
                forall|t: int|
                    0 <= t < j ==> (#[trigger] self.1@[old(self).1.len() + t]).indices() == shifted(
                        other.1@[t].indices(),
                        base as int,
                    ),
                base == old(self).0@.len(),
                total == base + other.0@.len(),
            decreases other.1.len() - j,
        {
            let t = other.1[j];
            assert(within(other@.triangles[j as int], 0, other@.vertices.len() as int));
            self.1.push(Triangle(base + t.0, base + t.1, base + t.2));
            j += 1;
        }
        proof {
            let joined = old(self)@.append(other@).triangles;
            let kept = old(self).1.len() as int;
            assert(self@.triangles.len() == joined.len());
            assert forall|t: int| 0 <= t < joined.len() implies self@.triangles[t] == joined[t] by {
                if t >= kept {
                    assert(self.1@[kept + (t - kept)].indices() == shifted(
                        other.1@[t - kept].indices(),
                        base as int,
                    ));
                }
            }
            assert(self@.triangles =~= joined);
        }
    }
}

/// Appending well-formed meshes gives a well-formed mesh.
pub proof fn lemma_append_well_formed(a: MeshView, b: MeshView)
    requires
        a.well_formed(),
        b.well_formed(),
    ensures
        a.append(b).well_formed(),
{
    let m = a.append(b);
    assert forall|t: int| 0 <= t < m.triangles.len() implies within(
        #[trigger] m.triangles[t],
        0,
        m.vertices.len() as int,
    ) by {
        if t < a.triangles.len() {
            assert(within(a.triangles[t], 0, a.vertices.len() as int));
        } else {
            assert(within(b.triangles[t - a.triangles.len()], 0, b.vertices.len() as int));
        }
    }
}

} // verus!
