//! The second topology table: from a corner mask to the triangles that
//! approximate the surface inside the cube.

use crate::tables::edges::{
    edge_mask, lemma_edge_mask_is_zero_where_nothing_is_crossed,
    lemma_edge_mask_marks_crossed_edges,
};
use crate::tables::{bit, crossed, two_to};
use vstd::prelude::*;

verus! {

/// Fills an unused slot of [`CORNER_MASK_TO_TRIANGLES`].
pub const NA: (usize, usize, usize) = (12, 12, 12);

/// For each corner mask, five slots that hold up to five triangles, each
/// triangle as three edge indices. The slots of mask `m` are the entries
/// `5 * m` to `5 * m + 4`.
///
/// Where two diagonally opposite corners of a face are inside and the other
/// two are outside, the surface separates the two inside corners on that
/// face. The choice depends on the face alone, so the two cubes that share
/// the face cut it along the same segments.
pub const CORNER_MASK_TO_TRIANGLES: [(usize, usize, usize); 1280] = [
    NA, NA, NA, NA, NA,
    (0, 8, 3), NA, NA, NA, NA,
    (0, 1, 9), NA, NA, NA, NA,
    (1, 9, 8), (1, 8, 3), NA, NA, NA,
    (1, 2, 10), NA, NA, NA, NA,
    (0, 8, 3), (1, 2, 10), NA, NA, NA,
    (0, 2, 10), (0, 10, 9), NA, NA, NA,
    (2, 10, 9), (2, 9, 8), (2, 8, 3), NA, NA,
    (2, 3, 11), NA, NA, NA, NA,
    (0, 8, 11), (0, 11, 2), NA, NA, NA,
    (0, 1, 9), (2, 3, 11), NA, NA, NA,
    (1, 9, 8), (1, 8, 11), (1, 11, 2), NA, NA,
    (1, 3, 11), (1, 11, 10), NA, NA, NA,
    (0, 8, 11), (0, 11, 10), (0, 10, 1), NA, NA,
    (0, 3, 11), (0, 11, 10), (0, 10, 9), NA, NA,
    (8, 11, 10), (8, 10, 9), NA, NA, NA,
    (4, 7, 8), NA, NA, NA, NA,
    (0, 4, 7), (0, 7, 3), NA, NA, NA,
    (0, 1, 9), (4, 7, 8), NA, NA, NA,
    (1, 9, 4), (1, 4, 7), (1, 7, 3), NA, NA,
    (1, 2, 10), (4, 7, 8), NA, NA, NA,
    (0, 4, 7), (0, 7, 3), (1, 2, 10), NA, NA,
    (0, 2, 10), (0, 10, 9), (4, 7, 8), NA, NA,
    (2, 10, 9), (2, 9, 4), (2, 4, 7), (2, 7, 3), NA,
    (2, 3, 11), (4, 7, 8), NA, NA, NA,
    (0, 4, 7), (0, 7, 11), (0, 11, 2), NA, NA,
    (0, 1, 9), (2, 3, 11), (4, 7, 8), NA, NA,
    (1, 9, 4), (1, 4, 7), (1, 7, 11), (1, 11, 2), NA,
    (1, 3, 11), (1, 11, 10), (4, 7, 8), NA, NA,
    (0, 4, 7), (0, 7, 11), (0, 11, 10), (0, 10, 1), NA,
    (0, 3, 11), (0, 11, 10), (0, 10, 9), (4, 7, 8), NA,
    (4, 7, 11), (4, 11, 10), (4, 10, 9), NA, NA,
    (4, 9, 5), NA, NA, NA, NA,
    (0, 8, 3), (4, 9, 5), NA, NA, NA,
    (0, 1, 5), (0, 5, 4), NA, NA, NA,
    (1, 5, 4), (1, 4, 8), (1, 8, 3), NA, NA,
    (1, 2, 10), (4, 9, 5), NA, NA, NA,
    (0, 8, 3), (1, 2, 10), (4, 9, 5), NA, NA,
    (0, 2, 10), (0, 10, 5), (0, 5, 4), NA, NA,
    (2, 10, 5), (2, 5, 4), (2, 4, 8), (2, 8, 3), NA,
    (2, 3, 11), (4, 9, 5), NA, NA, NA,
    (0, 8, 11), (0, 11, 2), (4, 9, 5), NA, NA,
    (0, 1, 5), (0, 5, 4), (2, 3, 11), NA, NA,
    (1, 5, 4), (1, 4, 8), (1, 8, 11), (1, 11, 2), NA,
    (1, 3, 11), (1, 11, 10), (4, 9, 5), NA, NA,
    (0, 8, 11), (0, 11, 10), (0, 10, 1), (4, 9, 5), NA,
    (0, 3, 11), (0, 11, 10), (0, 10, 5), (0, 5, 4), NA,
    (4, 8, 11), (4, 11, 10), (4, 10, 5), NA, NA,
    (5, 7, 8), (5, 8, 9), NA, NA, NA,
    (0, 9, 5), (0, 5, 7), (0, 7, 3), NA, NA,
    (0, 1, 5), (0, 5, 7), (0, 7, 8), NA, NA,
    (1, 5, 7), (1, 7, 3), NA, NA, NA,
    (1, 2, 10), (5, 7, 8), (5, 8, 9), NA, NA,
    (0, 9, 5), (0, 5, 7), (0, 7, 3), (1, 2, 10), NA,
    (0, 2, 10), (0, 10, 5), (0, 5, 7), (0, 7, 8), NA,
    (2, 10, 5), (2, 5, 7), (2, 7, 3), NA, NA,
    (2, 3, 11), (5, 7, 8), (5, 8, 9), NA, NA,
    (0, 9, 5), (0, 5, 7), (0, 7, 11), (0, 11, 2), NA,
    (0, 1, 5), (0, 5, 7), (0, 7, 8), (2, 3, 11), NA,
    (1, 5, 7), (1, 7, 11), (1, 11, 2), NA, NA,
    (1, 3, 11), (1, 11, 10), (5, 7, 8), (5, 8, 9), NA,
    (0, 9, 5), (0, 5, 7), (0, 7, 11), (0, 11, 10), (0, 10, 1),
    (0, 3, 11), (0, 11, 10), (0, 10, 5), (0, 5, 7), (0, 7, 8),
    (5, 7, 11), (5, 11, 10), NA, NA, NA,
    (5, 10, 6), NA, NA, NA, NA,
    (0, 8, 3), (5, 10, 6), NA, NA, NA,
    (0, 1, 9), (5, 10, 6), NA, NA, NA,
    (1, 9, 8), (1, 8, 3), (5, 10, 6), NA, NA,
    (1, 2, 6), (1, 6, 5), NA, NA, NA,
    (0, 8, 3), (1, 2, 6), (1, 6, 5), NA, NA,
    (0, 2, 6), (0, 6, 5), (0, 5, 9), NA, NA,
    (2, 6, 5), (2, 5, 9), (2, 9, 8), (2, 8, 3), NA,
    (2, 3, 11), (5, 10, 6), NA, NA, NA,
    (0, 8, 11), (0, 11, 2), (5, 10, 6), NA, NA,
    (0, 1, 9), (2, 3, 11), (5, 10, 6), NA, NA,
    (1, 9, 8), (1, 8, 11), (1, 11, 2), (5, 10, 6), NA,
    (1, 3, 11), (1, 11, 6), (1, 6, 5), NA, NA,
    (0, 8, 11), (0, 11, 6), (0, 6, 5), (0, 5, 1), NA,
    (0, 3, 11), (0, 11, 6), (0, 6, 5), (0, 5, 9), NA,
    (5, 9, 8), (5, 8, 11), (5, 11, 6), NA, NA,
    (4, 7, 8), (5, 10, 6), NA, NA, NA,
    (0, 4, 7), (0, 7, 3), (5, 10, 6), NA, NA,
    (0, 1, 9), (4, 7, 8), (5, 10, 6), NA, NA,
    (1, 9, 4), (1, 4, 7), (1, 7, 3), (5, 10, 6), NA,
    (1, 2, 6), (1, 6, 5), (4, 7, 8), NA, NA,
    (0, 4, 7), (0, 7, 3), (1, 2, 6), (1, 6, 5), NA,
    (0, 2, 6), (0, 6, 5), (0, 5, 9), (4, 7, 8), NA,
    (2, 6, 5), (2, 5, 9), (2, 9, 4), (2, 4, 7), (2, 7, 3),
    (2, 3, 11), (4, 7, 8), (5, 10, 6), NA, NA,
    (0, 4, 7), (0, 7, 11), (0, 11, 2), (5, 10, 6), NA,
    (0, 1, 9), (2, 3, 11), (4, 7, 8), (5, 10, 6), NA,
    (1, 9, 4), (1, 4, 7), (1, 7, 11), (1, 11, 2), (5, 10, 6),
    (1, 3, 11), (1, 11, 6), (1, 6, 5), (4, 7, 8), NA,
    (0, 4, 7), (0, 7, 11), (0, 11, 6), (0, 6, 5), (0, 5, 1),
    (0, 3, 11), (0, 11, 6), (0, 6, 5), (0, 5, 9), (4, 7, 8),
    (11, 6, 5), (11, 5, 9), (11, 9, 4), (11, 4, 7), NA,
    (4, 9, 10), (4, 10, 6), NA, NA, NA,
    (0, 8, 3), (4, 9, 10), (4, 10, 6), NA, NA,
    (0, 1, 10), (0, 10, 6), (0, 6, 4), NA, NA,
    (1, 10, 6), (1, 6, 4), (1, 4, 8), (1, 8, 3), NA,
    (1, 2, 6), (1, 6, 4), (1, 4, 9), NA, NA,
    (0, 8, 3), (1, 2, 6), (1, 6, 4), (1, 4, 9), NA,
    (0, 2, 6), (0, 6, 4), NA, NA, NA,
    (2, 6, 4), (2, 4, 8), (2, 8, 3), NA, NA,
    (2, 3, 11), (4, 9, 10), (4, 10, 6), NA, NA,
    (0, 8, 11), (0, 11, 2), (4, 9, 10), (4, 10, 6), NA,
    (0, 1, 10), (0, 10, 6), (0, 6, 4), (2, 3, 11), NA,
    (1, 10, 6), (1, 6, 4), (1, 4, 8), (1, 8, 11), (1, 11, 2),
    (1, 3, 11), (1, 11, 6), (1, 6, 4), (1, 4, 9), NA,
    (11, 6, 4), (11, 4, 9), (11, 9, 1), (11, 1, 0), (11, 0, 8),
    (0, 3, 11), (0, 11, 6), (0, 6, 4), NA, NA,
    (4, 8, 11), (4, 11, 6), NA, NA, NA,
    (6, 7, 8), (6, 8, 9), (6, 9, 10), NA, NA,
    (0, 9, 10), (0, 10, 6), (0, 6, 7), (0, 7, 3), NA,
    (0, 1, 10), (0, 10, 6), (0, 6, 7), (0, 7, 8), NA,
    (1, 10, 6), (1, 6, 7), (1, 7, 3), NA, NA,
    (1, 2, 6), (1, 6, 7), (1, 7, 8), (1, 8, 9), NA,
    (9, 1, 2), (9, 2, 6), (9, 6, 7), (9, 7, 3), (9, 3, 0),
    (0, 2, 6), (0, 6, 7), (0, 7, 8), NA, NA,
    (2, 6, 7), (2, 7, 3), NA, NA, NA,
    (2, 3, 11), (6, 7, 8), (6, 8, 9), (6, 9, 10), NA,
    (0, 9, 10), (0, 10, 6), (0, 6, 7), (0, 7, 11), (0, 11, 2),
    (0, 1, 10), (0, 10, 6), (0, 6, 7), (0, 7, 8), (2, 3, 11),
    (1, 10, 6), (1, 6, 7), (1, 7, 11), (1, 11, 2), NA,
    (1, 3, 11), (1, 11, 6), (1, 6, 7), (1, 7, 8), (1, 8, 9),
    (0, 9, 1), (6, 7, 11), NA, NA, NA,
    (0, 3, 11), (0, 11, 6), (0, 6, 7), (0, 7, 8), NA,
    (6, 7, 11), NA, NA, NA, NA,
    (6, 11, 7), NA, NA, NA, NA,
    (0, 8, 3), (6, 11, 7), NA, NA, NA,
    (0, 1, 9), (6, 11, 7), NA, NA, NA,
    (1, 9, 8), (1, 8, 3), (6, 11, 7), NA, NA,
    (1, 2, 10), (6, 11, 7), NA, NA, NA,
    (0, 8, 3), (1, 2, 10), (6, 11, 7), NA, NA,
    (0, 2, 10), (0, 10, 9), (6, 11, 7), NA, NA,
    (2, 10, 9), (2, 9, 8), (2, 8, 3), (6, 11, 7), NA,
    (2, 3, 7), (2, 7, 6), NA, NA, NA,
    (0, 8, 7), (0, 7, 6), (0, 6, 2), NA, NA,
    (0, 1, 9), (2, 3, 7), (2, 7, 6), NA, NA,
    (1, 9, 8), (1, 8, 7), (1, 7, 6), (1, 6, 2), NA,
    (1, 3, 7), (1, 7, 6), (1, 6, 10), NA, NA,
    (0, 8, 7), (0, 7, 6), (0, 6, 10), (0, 10, 1), NA,
    (0, 3, 7), (0, 7, 6), (0, 6, 10), (0, 10, 9), NA,
    (6, 10, 9), (6, 9, 8), (6, 8, 7), NA, NA,
    (4, 6, 11), (4, 11, 8), NA, NA, NA,
    (0, 4, 6), (0, 6, 11), (0, 11, 3), NA, NA,
    (0, 1, 9), (4, 6, 11), (4, 11, 8), NA, NA,
    (1, 9, 4), (1, 4, 6), (1, 6, 11), (1, 11, 3), NA,
    (1, 2, 10), (4, 6, 11), (4, 11, 8), NA, NA,
    (0, 4, 6), (0, 6, 11), (0, 11, 3), (1, 2, 10), NA,
    (0, 2, 10), (0, 10, 9), (4, 6, 11), (4, 11, 8), NA,
    (9, 4, 6), (9, 6, 11), (9, 11, 3), (9, 3, 2), (9, 2, 10),
    (2, 3, 8), (2, 8, 4), (2, 4, 6), NA, NA,
    (0, 4, 6), (0, 6, 2), NA, NA, NA,
    (0, 1, 9), (2, 3, 8), (2, 8, 4), (2, 4, 6), NA,
    (1, 9, 4), (1, 4, 6), (1, 6, 2), NA, NA,
    (1, 3, 8), (1, 8, 4), (1, 4, 6), (1, 6, 10), NA,
    (0, 4, 6), (0, 6, 10), (0, 10, 1), NA, NA,
    (3, 8, 4), (3, 4, 6), (3, 6, 10), (3, 10, 9), (3, 9, 0),
    (4, 6, 10), (4, 10, 9), NA, NA, NA,
    (4, 9, 5), (6, 11, 7), NA, NA, NA,
    (0, 8, 3), (4, 9, 5), (6, 11, 7), NA, NA,
    (0, 1, 5), (0, 5, 4), (6, 11, 7), NA, NA,
    (1, 5, 4), (1, 4, 8), (1, 8, 3), (6, 11, 7), NA,
    (1, 2, 10), (4, 9, 5), (6, 11, 7), NA, NA,
    (0, 8, 3), (1, 2, 10), (4, 9, 5), (6, 11, 7), NA,
    (0, 2, 10), (0, 10, 5), (0, 5, 4), (6, 11, 7), NA,
    (2, 10, 5), (2, 5, 4), (2, 4, 8), (2, 8, 3), (6, 11, 7),
    (2, 3, 7), (2, 7, 6), (4, 9, 5), NA, NA,
    (0, 8, 7), (0, 7, 6), (0, 6, 2), (4, 9, 5), NA,
    (0, 1, 5), (0, 5, 4), (2, 3, 7), (2, 7, 6), NA,
    (1, 5, 4), (1, 4, 8), (1, 8, 7), (1, 7, 6), (1, 6, 2),
    (1, 3, 7), (1, 7, 6), (1, 6, 10), (4, 9, 5), NA,
    (0, 8, 7), (0, 7, 6), (0, 6, 10), (0, 10, 1), (4, 9, 5),
    (0, 3, 7), (0, 7, 6), (0, 6, 10), (0, 10, 5), (0, 5, 4),
    (8, 7, 6), (8, 6, 10), (8, 10, 5), (8, 5, 4), NA,
    (5, 6, 11), (5, 11, 8), (5, 8, 9), NA, NA,
    (0, 9, 5), (0, 5, 6), (0, 6, 11), (0, 11, 3), NA,
    (0, 1, 5), (0, 5, 6), (0, 6, 11), (0, 11, 8), NA,
    (1, 5, 6), (1, 6, 11), (1, 11, 3), NA, NA,
    (1, 2, 10), (5, 6, 11), (5, 11, 8), (5, 8, 9), NA,
    (0, 9, 5), (0, 5, 6), (0, 6, 11), (0, 11, 3), (1, 2, 10),
    (0, 2, 10), (0, 10, 5), (0, 5, 6), (0, 6, 11), (0, 11, 8),
    (5, 6, 11), (5, 11, 3), (5, 3, 2), (5, 2, 10), NA,
    (2, 3, 8), (2, 8, 9), (2, 9, 5), (2, 5, 6), NA,
    (0, 9, 5), (0, 5, 6), (0, 6, 2), NA, NA,
    (5, 6, 2), (5, 2, 3), (5, 3, 8), (5, 8, 0), (5, 0, 1),
    (1, 5, 6), (1, 6, 2), NA, NA, NA,
    (3, 8, 9), (3, 9, 5), (3, 5, 6), (3, 6, 10), (3, 10, 1),
    (0, 9, 5), (0, 5, 6), (0, 6, 10), (0, 10, 1), NA,
    (0, 3, 8), (5, 6, 10), NA, NA, NA,
    (5, 6, 10), NA, NA, NA, NA,
    (5, 10, 11), (5, 11, 7), NA, NA, NA,
    (0, 8, 3), (5, 10, 11), (5, 11, 7), NA, NA,
    (0, 1, 9), (5, 10, 11), (5, 11, 7), NA, NA,
    (1, 9, 8), (1, 8, 3), (5, 10, 11), (5, 11, 7), NA,
    (1, 2, 11), (1, 11, 7), (1, 7, 5), NA, NA,
    (0, 8, 3), (1, 2, 11), (1, 11, 7), (1, 7, 5), NA,
    (0, 2, 11), (0, 11, 7), (0, 7, 5), (0, 5, 9), NA,
    (2, 11, 7), (2, 7, 5), (2, 5, 9), (2, 9, 8), (2, 8, 3),
    (2, 3, 7), (2, 7, 5), (2, 5, 10), NA, NA,
    (0, 8, 7), (0, 7, 5), (0, 5, 10), (0, 10, 2), NA,
    (0, 1, 9), (2, 3, 7), (2, 7, 5), (2, 5, 10), NA,
    (8, 7, 5), (8, 5, 10), (8, 10, 2), (8, 2, 1), (8, 1, 9),
    (1, 3, 7), (1, 7, 5), NA, NA, NA,
    (0, 8, 7), (0, 7, 5), (0, 5, 1), NA, NA,
    (0, 3, 7), (0, 7, 5), (0, 5, 9), NA, NA,
    (5, 9, 8), (5, 8, 7), NA, NA, NA,
    (4, 5, 10), (4, 10, 11), (4, 11, 8), NA, NA,
    (0, 4, 5), (0, 5, 10), (0, 10, 11), (0, 11, 3), NA,
    (0, 1, 9), (4, 5, 10), (4, 10, 11), (4, 11, 8), NA,
    (4, 5, 10), (4, 10, 11), (4, 11, 3), (4, 3, 1), (4, 1, 9),
    (1, 2, 11), (1, 11, 8), (1, 8, 4), (1, 4, 5), NA,
    (4, 5, 1), (4, 1, 2), (4, 2, 11), (4, 11, 3), (4, 3, 0),
    (2, 11, 8), (2, 8, 4), (2, 4, 5), (2, 5, 9), (2, 9, 0),
    (2, 11, 3), (4, 5, 9), NA, NA, NA,
    (2, 3, 8), (2, 8, 4), (2, 4, 5), (2, 5, 10), NA,
    (0, 4, 5), (0, 5, 10), (0, 10, 2), NA, NA,
    (0, 1, 9), (2, 3, 8), (2, 8, 4), (2, 4, 5), (2, 5, 10),
    (4, 5, 10), (4, 10, 2), (4, 2, 1), (4, 1, 9), NA,
    (1, 3, 8), (1, 8, 4), (1, 4, 5), NA, NA,
    (0, 4, 5), (0, 5, 1), NA, NA, NA,
    (3, 8, 4), (3, 4, 5), (3, 5, 9), (3, 9, 0), NA,
    (4, 5, 9), NA, NA, NA, NA,
    (4, 9, 10), (4, 10, 11), (4, 11, 7), NA, NA,
    (0, 8, 3), (4, 9, 10), (4, 10, 11), (4, 11, 7), NA,
    (0, 1, 10), (0, 10, 11), (0, 11, 7), (0, 7, 4), NA,
    (1, 10, 11), (1, 11, 7), (1, 7, 4), (1, 4, 8), (1, 8, 3),
    (1, 2, 11), (1, 11, 7), (1, 7, 4), (1, 4, 9), NA,
    (0, 8, 3), (1, 2, 11), (1, 11, 7), (1, 7, 4), (1, 4, 9),
    (0, 2, 11), (0, 11, 7), (0, 7, 4), NA, NA,
    (2, 11, 7), (2, 7, 4), (2, 4, 8), (2, 8, 3), NA,
    (2, 3, 7), (2, 7, 4), (2, 4, 9), (2, 9, 10), NA,
    (7, 4, 9), (7, 9, 10), (7, 10, 2), (7, 2, 0), (7, 0, 8),
    (10, 2, 3), (10, 3, 7), (10, 7, 4), (10, 4, 0), (10, 0, 1),
    (1, 10, 2), (4, 8, 7), NA, NA, NA,
    (1, 3, 7), (1, 7, 4), (1, 4, 9), NA, NA,
    (7, 4, 9), (7, 9, 1), (7, 1, 0), (7, 0, 8), NA,
    (0, 3, 7), (0, 7, 4), NA, NA, NA,
    (4, 8, 7), NA, NA, NA, NA,
    (8, 9, 10), (8, 10, 11), NA, NA, NA,
    (0, 9, 10), (0, 10, 11), (0, 11, 3), NA, NA,
    (0, 1, 10), (0, 10, 11), (0, 11, 8), NA, NA,
    (1, 10, 11), (1, 11, 3), NA, NA, NA,
    (1, 2, 11), (1, 11, 8), (1, 8, 9), NA, NA,
    (9, 1, 2), (9, 2, 11), (9, 11, 3), (9, 3, 0), NA,
    (0, 2, 11), (0, 11, 8), NA, NA, NA,
    (2, 11, 3), NA, NA, NA, NA,
    (2, 3, 8), (2, 8, 9), (2, 9, 10), NA, NA,
    (0, 9, 10), (0, 10, 2), NA, NA, NA,
    (10, 2, 3), (10, 3, 8), (10, 8, 0), (10, 0, 1), NA,
    (1, 10, 2), NA, NA, NA, NA,
    (1, 3, 8), (1, 8, 9), NA, NA, NA,
    (0, 9, 1), NA, NA, NA, NA,
    (0, 3, 8), NA, NA, NA, NA,
    NA, NA, NA, NA, NA,
];

/// Slot `k` of the triangle template of a corner mask: the three edges of
/// the triangle, or `None` for an unused slot.
pub closed spec fn template(mask: int, k: int) -> Option<(int, int, int)> {
    let t = CORNER_MASK_TO_TRIANGLES[5 * mask + k];
    if t.0 == NA.0 {
        None
    } else {
        Some((t.0 as int, t.1 as int, t.2 as int))
    }
}

/// Looks up slot `k` of the triangle template of a corner mask.
pub fn corner_mask_to_triangle(mask: u8, k: usize) -> (slot: Option<(usize, usize, usize)>)
    requires
        k < 5,
    ensures
        slot is Some <==> template(mask as int, k as int) is Some,
        slot matches Some(t) ==> template(mask as int, k as int) == Some(
            (t.0 as int, t.1 as int, t.2 as int),
        ),
{
    let t = CORNER_MASK_TO_TRIANGLES[5 * (mask as usize) + k];
    if t.0 == NA.0 {
        None
    } else {
        Some(t)
    }
}

/// What [`template`] stands for: the entry of the table at slot `k` of the
/// corner mask, read as a triangle unless it starts with the filler.
pub proof fn lemma_template_is_table_entry(mask: int, k: int)
    ensures
        template(mask, k) == {
            let t = CORNER_MASK_TO_TRIANGLES[5 * mask + k];
            if t.0 == NA.0 {
                None
            } else {
                Some((t.0 as int, t.1 as int, t.2 as int))
            }
        },
{
}

/// Slot `k` of the template of a corner mask holds a triangle that runs over
/// edge `e`.
pub open spec fn slot_uses(mask: int, k: int, e: int) -> bool {
    template(mask, k) matches Some(t) && (t.0 == e || t.1 == e || t.2 == e)
}

/// Some triangle of the template of a corner mask runs over edge `e`.
pub open spec fn template_uses(mask: int, e: int) -> bool {
    slot_uses(mask, 0, e) || slot_uses(mask, 1, e) || slot_uses(mask, 2, e) || slot_uses(mask, 3, e)
        || slot_uses(mask, 4, e)
}

#[verifier::opaque]
spec fn slot_is_valid(mask: int, k: int) -> bool {
    &&& match template(mask, k) {
        Some(t) => crossed(mask, t.0) && crossed(mask, t.1) && crossed(mask, t.2),
        None => true,
    }
    &&& k > 0 && template(mask, k) is Some ==> template(mask, k - 1) is Some
}

#[verifier::opaque]
spec fn edge_is_drawn(mask: int, e: int) -> bool {
    crossed(mask, e) ==> template_uses(mask, e)
}

spec fn row_is_valid(mask: int) -> bool {
    &&& slot_is_valid(mask, 0)
    &&& slot_is_valid(mask, 1)
    &&& slot_is_valid(mask, 2)
    &&& slot_is_valid(mask, 3)
    &&& slot_is_valid(mask, 4)
    &&& edge_is_drawn(mask, 0)
    &&& edge_is_drawn(mask, 1)
    &&& edge_is_drawn(mask, 2)
    &&& edge_is_drawn(mask, 3)
    &&& edge_is_drawn(mask, 4)
    &&& edge_is_drawn(mask, 5)
    &&& edge_is_drawn(mask, 6)
    &&& edge_is_drawn(mask, 7)
    &&& edge_is_drawn(mask, 8)
    &&& edge_is_drawn(mask, 9)
    &&& edge_is_drawn(mask, 10)
    &&& edge_is_drawn(mask, 11)
}

spec fn rows_are_valid(lo: int, hi: int) -> bool
    decreases hi - lo,
{
    if lo >= hi {
        true
    } else {
        row_is_valid(lo) && rows_are_valid(lo + 1, hi)
    }
}

proof fn lemma_rows_0()
    ensures
        rows_are_valid(0, 32),
{
    reveal(bit);
    reveal(slot_is_valid);
    reveal(edge_is_drawn);
    reveal_with_fuel(rows_are_valid, 33);
}

proof fn lemma_rows_1()
    ensures
        rows_are_valid(32, 64),
{
    reveal(bit);
    reveal(slot_is_valid);
    reveal(edge_is_drawn);
    reveal_with_fuel(rows_are_valid, 33);
}

proof fn lemma_rows_2()
    ensures
        rows_are_valid(64, 96),
{
    reveal(bit);
    reveal(slot_is_valid);
    reveal(edge_is_drawn);
    reveal_with_fuel(rows_are_valid, 33);
}

proof fn lemma_rows_3()
    ensures
        rows_are_valid(96, 128),
{
    reveal(bit);
    reveal(slot_is_valid);
    reveal(edge_is_drawn);
    reveal_with_fuel(rows_are_valid, 33);
}

proof fn lemma_rows_4()
    ensures
        rows_are_valid(128, 160),
{
    reveal(bit);
    reveal(slot_is_valid);
    reveal(edge_is_drawn);
    reveal_with_fuel(rows_are_valid, 33);
}

proof fn lemma_rows_5()
    ensures
        rows_are_valid(160, 192),
{
    reveal(bit);
    reveal(slot_is_valid);
    reveal(edge_is_drawn);
    reveal_with_fuel(rows_are_valid, 33);
}

proof fn lemma_rows_6()
    ensures
        rows_are_valid(192, 224),
{
    reveal(bit);
    reveal(slot_is_valid);
    reveal(edge_is_drawn);
    reveal_with_fuel(rows_are_valid, 33);
}

proof fn lemma_rows_7()
    ensures
        rows_are_valid(224, 256),
{
    reveal(bit);
    reveal(slot_is_valid);
    reveal(edge_is_drawn);
    reveal_with_fuel(rows_are_valid, 33);
}

proof fn lemma_row_among(lo: int, hi: int, mask: int)
    requires
        rows_are_valid(lo, hi),
        lo <= mask < hi,
    ensures
        row_is_valid(mask),
    decreases hi - lo,
{
    if lo < mask {
        lemma_row_among(lo + 1, hi, mask);
    }
}

proof fn lemma_row_is_valid(mask: int)
    requires
        0 <= mask < 256,
    ensures
        row_is_valid(mask),
{
    if mask < 32 {
        lemma_rows_0();
        lemma_row_among(0, 32, mask);
    } else if mask < 64 {
        lemma_rows_1();
        lemma_row_among(32, 64, mask);
    } else if mask < 96 {
        lemma_rows_2();
        lemma_row_among(64, 96, mask);
    } else if mask < 128 {
        lemma_rows_3();
        lemma_row_among(96, 128, mask);
    } else if mask < 160 {
        lemma_rows_4();
        lemma_row_among(128, 160, mask);
    } else if mask < 192 {
        lemma_rows_5();
        lemma_row_among(160, 192, mask);
    } else if mask < 224 {
        lemma_rows_6();
        lemma_row_among(192, 224, mask);
    } else {
        lemma_rows_7();
        lemma_row_among(224, 256, mask);
    }
}

/// Every triangle of every template runs over three edges that the surface
/// crosses under the template's corner mask.
pub proof fn lemma_template_edges_are_crossed(mask: int, k: int)
    requires
        0 <= mask < 256,
        0 <= k < 5,
    ensures
        template(mask, k) matches Some(t) ==> crossed(mask, t.0) && crossed(mask, t.1) && crossed(
            mask,
            t.2,
        ),
{
    lemma_row_is_valid(mask);
    assert(slot_is_valid(mask, k));
    reveal(slot_is_valid);
}

/// The triangles of a template fill its slots from the first on: a slot
/// that holds a triangle follows only slots that hold one.
pub proof fn lemma_template_slots_fill_in_order(mask: int, j: int, k: int)
    requires
        0 <= mask < 256,
        0 <= j <= k < 5,
        template(mask, k) is Some,
    ensures
        template(mask, j) is Some,
    decreases k - j,
{
    if j < k {
        lemma_row_is_valid(mask);
        assert(slot_is_valid(mask, k));
        reveal(slot_is_valid);
        lemma_template_slots_fill_in_order(mask, j, k - 1);
    }
}

/// Every edge that the surface crosses under a corner mask carries a
/// corner of some triangle of the mask's template.
pub proof fn lemma_crossed_edges_are_drawn(mask: int, e: int)
    requires
        0 <= mask < 256,
        crossed(mask, e),
    ensures
        template_uses(mask, e),
{
    lemma_row_is_valid(mask);
    assert(edge_is_drawn(mask, e));
    reveal(edge_is_drawn);
}

/// Every triangle of every template runs over three edges whose bits are
/// set in the edge mask of the same corner mask.
pub proof fn lemma_template_edges_are_marked(mask: int, k: int)
    requires
        0 <= mask < 256,
        0 <= k < 5,
    ensures
        template(mask, k) matches Some(t) ==> {
            &&& 0 <= t.0 < 12 && bit(edge_mask(mask), t.0)
            &&& 0 <= t.1 < 12 && bit(edge_mask(mask), t.1)
            &&& 0 <= t.2 < 12 && bit(edge_mask(mask), t.2)
        },
{
    lemma_template_edges_are_crossed(mask, k);
    if let Some(t) = template(mask, k) {
        lemma_edge_mask_marks_crossed_edges(mask, t.0);
        lemma_edge_mask_marks_crossed_edges(mask, t.1);
        lemma_edge_mask_marks_crossed_edges(mask, t.2);
    }
}

/// A corner mask under which no edge is crossed has an empty template.
pub proof fn lemma_nothing_crossed_nothing_drawn(mask: int, k: int)
    requires
        0 <= mask < 256,
        0 <= k < 5,
        edge_mask(mask) == 0,
    ensures
        template(mask, k) is None,
{
    lemma_template_edges_are_crossed(mask, k);
    lemma_edge_mask_is_zero_where_nothing_is_crossed(mask);
}

/// With exactly one corner inside, some edge is crossed and the template
/// holds one triangle, in its first slot.
pub proof fn lemma_single_corner_template(c: int)
    requires
        0 <= c < 8,
    ensures
        edge_mask(two_to(c)) != 0,
        template(two_to(c), 0) is Some,
        template(two_to(c), 1) is None,
        template(two_to(c), 2) is None,
        template(two_to(c), 3) is None,
        template(two_to(c), 4) is None,
{
    lemma_template_edges_are_crossed(two_to(c), 0);
    lemma_edge_mask_is_zero_where_nothing_is_crossed(two_to(c));
}

} // verus!
