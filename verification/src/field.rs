//! The signs of a scalar field at the corners of a regular lattice.

use vstd::prelude::*;

verus! {

/// The sign of a scalar field at every corner of a lattice: `true` where the
/// sample is negative, that is, inside the volume.
///
/// The signs are stored slab by slab: the sign at the corner `(x, y, z)` is
/// entry `x` of row `y` of slab `z`.
pub struct Field(Vec<Vec<Vec<bool>>>);

/// `g` is a box of signs: it has at least one corner along each axis, and
/// all its slabs and rows have the same lengths.
pub open spec fn is_grid(g: Seq<Seq<Seq<bool>>>) -> bool {
    &&& g.len() >= 1
    &&& g[0].len() >= 1
    &&& g[0][0].len() >= 1
    &&& forall|z: int| 0 <= z < g.len() ==> (#[trigger] g[z]).len() == g[0].len()
    &&& forall|z: int, y: int|
        0 <= z < g.len() && 0 <= y < g[0].len() ==> (#[trigger] g[z][y]).len() == g[0][0].len()
}

/// The number of corners of a box of signs along `x`, `y` and `z`.
pub open spec fn corners_of(g: Seq<Seq<Seq<bool>>>) -> (int, int, int) {
    (g[0][0].len() as int, g[0].len() as int, g.len() as int)
}

/// The number of cubes of a box of signs along `x`, `y` and `z`: one less
/// than the number of corners.
pub open spec fn cubes_of(g: Seq<Seq<Seq<bool>>>) -> (int, int, int) {
    (g[0][0].len() - 1, g[0].len() - 1, g.len() - 1)
}

/// `g` holds, for each corner of a lattice of `cube_count` cubes, a sign that
/// `field` may give there.
pub open spec fn sampled_from<F: Fn(usize, usize, usize) -> bool>(
    g: Seq<Seq<Seq<bool>>>,
    field: F,
    cube_count: (usize, usize, usize),
) -> bool {
    &&& is_grid(g)
    &&& corners_of(g) == (cube_count.0 + 1, cube_count.1 + 1, cube_count.2 + 1)
    &&& forall|x: usize, y: usize, z: usize|
        x <= cube_count.0 && y <= cube_count.1 && z <= cube_count.2 ==> field.ensures(
            (x, y, z),
            #[trigger] g[z as int][y as int][x as int],
        )
}

impl View for Field {
    type V = Seq<Seq<Seq<bool>>>;

    closed spec fn view(&self) -> Seq<Seq<Seq<bool>>> {
        self.0.deep_view()
    }
}

impl Field {
    /// The field is a box of signs.
    pub open spec fn well_formed(&self) -> bool {
        is_grid(self@)
    }

    /// The corner counts of a field fit in a machine word.
    pub proof fn lemma_corner_counts_fit(&self)
        requires
            self.well_formed(),
        ensures
            corners_of(self@).0 <= usize::MAX,
            corners_of(self@).1 <= usize::MAX,
            corners_of(self@).2 <= usize::MAX,
    {
        assert(self@.len() == self.0.len());
        assert(self@[0].len() == self.0@[0].len());
        assert(self@[0][0].len() == self.0@[0]@[0].len());
    }

    /// Takes the signs as they are, slab by slab and row by row.
    pub fn from_vecs(vecs: Vec<Vec<Vec<bool>>>) -> (field: Field)
        ensures
            field@ == vecs.deep_view(),
    {
        Field(vecs)
    }

    /// Samples `field` at every corner of a lattice of `cube_count` cubes:
    /// at `(x, y, z)` for `x` up to `cube_count.0`, `y` up to `cube_count.1`
    /// and `z` up to `cube_count.2`. Rows are filled along `x`, slabs along
    /// `y`, and the field along `z`.
    pub fn from_closure<F>(field: F, cube_count: &(usize, usize, usize)) -> (grid: Field) where
        F: Fn(usize, usize, usize) -> bool,

        requires
            cube_count.0 < usize::MAX,
            cube_count.1 < usize::MAX,
            cube_count.2 < usize::MAX,
            forall|x: usize, y: usize, z: usize|
                x <= cube_count.0 && y <= cube_count.1 && z <= cube_count.2 ==> field.requires(
                    (x, y, z),
                ),
        ensures
            sampled_from(grid@, field, *cube_count),
    {
        let corner_counts = (cube_count.0 + 1, cube_count.1 + 1, cube_count.2 + 1);
        let mut field_table: Vec<Vec<Vec<bool>>> = Vec::with_capacity(corner_counts.2);
        let mut z: usize = 0;
        while z < corner_counts.2
            invariant
                z <= corner_counts.2,
                corner_counts.0 == cube_count.0 + 1,
                corner_counts.1 == cube_count.1 + 1,
                corner_counts.2 == cube_count.2 + 1,
                forall|x: usize, y: usize, z: usize|
                    x <= cube_count.0 && y <= cube_count.1 && z <= cube_count.2
                        ==> field.requires((x, y, z)),
                field_table.len() == z,
                forall|k: int|
                    0 <= k < z ==> (#[trigger] field_table@[k]).len() == corner_counts.1,
                forall|k: int, j: int|
                    0 <= k < z && 0 <= j < corner_counts.1 ==> (
                    #[trigger] field_table@[k]@[j]).len() == corner_counts.0,
                forall|i: usize, j: usize, k: usize|
                    i < corner_counts.0 && j < corner_counts.1 && k < z ==> field.ensures(
                        (i, j, k),
                        #[trigger] field_table@[k as int]@[j as int]@[i as int],
                    ),
            decreases corner_counts.2 - z,
        {
            let mut slice: Vec<Vec<bool>> = Vec::with_capacity(corner_counts.1);
            let mut y: usize = 0;
            while y < corner_counts.1
                invariant
                    y <= corner_counts.1,
                    z < corner_counts.2,
                    corner_counts.0 == cube_count.0 + 1,
                    corner_counts.1 == cube_count.1 + 1,
                    corner_counts.2 == cube_count.2 + 1,
                    forall|x: usize, y: usize, z: usize|
                        x <= cube_count.0 && y <= cube_count.1 && z <= cube_count.2
                            ==> field.requires((x, y, z)),
                    slice.len() == y,
                    forall|j: int| 0 <= j < y ==> (#[trigger] slice@[j]).len() == corner_counts.0,
                    forall|i: usize, j: usize|
                        i < corner_counts.0 && j < y ==> field.ensures(
                            (i, j, z),
                            #[trigger] slice@[j as int]@[i as int],
                        ),
                decreases corner_counts.1 - y,
            {
                let mut row: Vec<bool> = Vec::with_capacity(corner_counts.0);
                let mut x: usize = 0;
                while x < corner_counts.0
                    invariant
                        x <= corner_counts.0,
                        y < corner_counts.1,
                        z < corner_counts.2,
                        corner_counts.0 == cube_count.0 + 1,
                        corner_counts.1 == cube_count.1 + 1,
                        corner_counts.2 == cube_count.2 + 1,
                        forall|x: usize, y: usize, z: usize|
                            x <= cube_count.0 && y <= cube_count.1 && z <= cube_count.2
                                ==> field.requires((x, y, z)),
                        row.len() == x,
                        forall|i: usize|
                            i < x ==> field.ensures((i, y, z), #[trigger] row@[i as int]),
                    decreases corner_counts.0 - x,
                {
                    row.push(field(x, y, z));
                    x += 1;
                }
                slice.push(row);
                y += 1;
            }
            field_table.push(slice);
            z += 1;
        }
        let grid = Field(field_table);
        proof {
            let g = grid@;
            assert(g.len() == corner_counts.2);
            assert forall|k: int| 0 <= k < g.len() implies (#[trigger] g[k]).len()
                == corner_counts.1 by {
                assert(grid.0@[k].len() == corner_counts.1);
            }
            assert forall|k: int, j: int| 0 <= k < g.len() && 0 <= j < corner_counts.1 implies (
            #[trigger] g[k][j]).len() == corner_counts.0 by {
                assert(grid.0@[k]@[j].len() == corner_counts.0);
            }
            assert forall|x: usize, y: usize, z: usize|
                x <= cube_count.0 && y <= cube_count.1 && z <= cube_count.2 implies field.ensures(
                (x, y, z),
                #[trigger] g[z as int][y as int][x as int],
            ) by {
                assert(g[z as int][y as int][x as int] == grid.0@[z as int]@[y as int]@[x as int]);
            }
        }
        grid
    }

    /// Whether the field is a box of signs.
    pub fn is_grid(&self) -> (ok: bool)
        ensures
            ok == self.well_formed(),
    {
        if self.0.len() == 0 || self.0[0].len() == 0 || self.0[0][0].len() == 0 {
            return false;
        }
        let rows: usize = self.0[0].len();
        let entries: usize = self.0[0][0].len();
        let mut z: usize = 0;
        while z < self.0.len()
            invariant
                z <= self.0.len(),
                self.0.len() >= 1,
                rows == self.0@[0].len(),
                entries == self.0@[0]@[0].len(),
                rows >= 1,
                entries >= 1,
                forall|k: int| 0 <= k < z ==> (#[trigger] self.0@[k]).len() == rows,
                forall|k: int, j: int|
                    0 <= k < z && 0 <= j < rows ==> (#[trigger] self.0@[k]@[j]).len() == entries,
            decreases self.0.len() - z,
        {
            if self.0[z].len() != rows {
                proof {
                    assert(self@[z as int].len() == self.0@[z as int].len());
                    assert(self@[0].len() == self.0@[0].len());
                }
                return false;
            }
            let mut y: usize = 0;
            while y < rows
                invariant
                    y <= rows,
                    z < self.0.len(),
                    self.0.len() >= 1,
                    rows == self.0@[0].len(),
                    entries == self.0@[0]@[0].len(),
                    rows >= 1,
                    entries >= 1,
                    self.0@[z as int].len() == rows,
                    forall|j: int|
                        0 <= j < y ==> (#[trigger] self.0@[z as int]@[j]).len() == entries,
                decreases rows - y,
            {
                if self.0[z][y].len() != entries {
                    proof {
                        assert(self@[z as int][y as int].len() == self.0@[z as int]@[y as int].len());
                        assert(self@[0][0].len() == self.0@[0]@[0].len());
                        assert(self@[0].len() == self.0@[0].len());
                    }
                    return false;
                }
                y += 1;
            }
            z += 1;
        }
        proof {
            let g = self@;
            assert(g[0].len() == self.0@[0].len());
            assert(g[0][0].len() == self.0@[0]@[0].len());
            assert forall|k: int| 0 <= k < g.len() implies (#[trigger] g[k]).len()
                == g[0].len() by {
                assert(self.0@[k].len() == rows);
            }
            assert forall|k: int, j: int| 0 <= k < g.len() && 0 <= j < g[0].len() implies (
            #[trigger] g[k][j]).len() == g[0][0].len() by {
                assert(self.0@[k]@[j].len() == entries);
            }
        }
        true
    }

    /// The number of cubes along `x`, `y` and `z`.
    pub fn cube_count(&self) -> (count: (usize, usize, usize))
        requires
            self.well_formed(),
        ensures
            (count.0 as int, count.1 as int, count.2 as int) == cubes_of(self@),
    {
        proof {
            assert(self@[0].len() == self.0@[0].len());
            assert(self@[0][0].len() == self.0@[0]@[0].len());
        }
        (self.0[0][0].len() - 1, self.0[0].len() - 1, self.0.len() - 1)
    }

    /// The number of corners along `x`, `y` and `z`.
    pub fn corner_count(&self) -> (count: (usize, usize, usize))
        requires
            self.well_formed(),
        ensures
            (count.0 as int, count.1 as int, count.2 as int) == corners_of(self@),
    {
        proof {
            assert(self@[0].len() == self.0@[0].len());
            assert(self@[0][0].len() == self.0@[0]@[0].len());
        }
        (self.0[0][0].len(), self.0[0].len(), self.0.len())
    }

    /// The sign at the corner `(x, y, z)`.
    pub fn f(&self, x: usize, y: usize, z: usize) -> (sign: bool)
        requires
            self.well_formed(),
            x < corners_of(self@).0,
            y < corners_of(self@).1,
            z < corners_of(self@).2,
        ensures
            sign == self@[z as int][y as int][x as int],
    {
        proof {
            assert(self@[z as int].len() == self.0@[z as int].len());
            assert(self@[z as int][y as int].len() == self.0@[z as int]@[y as int].len());
            assert(self@[z as int][y as int][x as int] == self.0@[z as int]@[y as int]@[x as int]);
        }
        self.0[z][y][x]
    }
}

} // verus!
