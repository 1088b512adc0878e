//! The cube's corners and edges, and the two topology tables that are keyed
//! by the corner mask.
//!
//! A corner mask is a number below 256 in which bit `c` is set where corner
//! `c` is inside the volume.

pub mod edges;
pub mod triangles;

use vstd::prelude::*;

verus! {

/// The eight corners of the unit cube, by their offsets from the cube's
/// least corner. Corners 0 to 3 run round the face `y = 0`, corners 4 to 7
/// round the face `y = 1`, in the same sense.
pub const CORNERS: [(usize, usize, usize); 8] = [
    (0, 0, 0), (1, 0, 0), (1, 0, 1), (0, 0, 1),
    (0, 1, 0), (1, 1, 0), (1, 1, 1), (0, 1, 1),
];

/// The twelve edges of the cube, each as its `(near, far)` pair of corners.
/// Edges 0 to 3 lie in the face `y = 0`, edges 4 to 7 in the face `y = 1`,
/// and edges 8 to 11 join the two faces.
pub const EDGES: [(usize, usize); 12] = [
    (0, 1), (1, 2), (2, 3), (3, 0),
    (4, 5), (5, 6), (6, 7), (7, 4),
    (0, 4), (1, 5), (2, 6), (3, 7),
];

/// `2^i`, for `i` below twelve.
pub open spec fn two_to(i: int) -> int {
    if i == 0 {
        1
    } else if i == 1 {
        2
    } else if i == 2 {
        4
    } else if i == 3 {
        8
    } else if i == 4 {
        16
    } else if i == 5 {
        32
    } else if i == 6 {
        64
    } else if i == 7 {
        128
    } else if i == 8 {
        256
    } else if i == 9 {
        512
    } else if i == 10 {
        1024
    } else {
        2048
    }
}

/// Whether bit `i` of `v` is set, for `i` below twelve.
#[verifier::opaque]
pub open spec fn bit(v: int, i: int) -> bool {
    if i == 0 {
        v % 2 == 1
    } else if i == 1 {
        (v / 2) % 2 == 1
    } else if i == 2 {
        (v / 4) % 2 == 1
    } else if i == 3 {
        (v / 8) % 2 == 1
    } else if i == 4 {
        (v / 16) % 2 == 1
    } else if i == 5 {
        (v / 32) % 2 == 1
    } else if i == 6 {
        (v / 64) % 2 == 1
    } else if i == 7 {
        (v / 128) % 2 == 1
    } else if i == 8 {
        (v / 256) % 2 == 1
    } else if i == 9 {
        (v / 512) % 2 == 1
    } else if i == 10 {
        (v / 1024) % 2 == 1
    } else {
        (v / 2048) % 2 == 1
    }
}

/// The surface crosses edge `e` of a cube with this corner mask: one end of
/// the edge is inside and the other is not.
pub open spec fn crossed(mask: int, e: int) -> bool {
    0 <= e < 12 && bit(mask, EDGES[e].0 as int) != bit(mask, EDGES[e].1 as int)
}

/// A sum of distinct powers of two has exactly the bits of its terms.
pub(crate) proof fn lemma_bits_of_sum(
    w0: u16,
    w1: u16,
    w2: u16,
    w3: u16,
    w4: u16,
    w5: u16,
    w6: u16,
    w7: u16,
    w8: u16,
    w9: u16,
    w10: u16,
    w11: u16,
    s: u16,
)
    by (bit_vector)
    requires
        w0 == 0 || w0 == 1,
        w1 == 0 || w1 == 2,
        w2 == 0 || w2 == 4,
        w3 == 0 || w3 == 8,
        w4 == 0 || w4 == 16,
        w5 == 0 || w5 == 32,
        w6 == 0 || w6 == 64,
        w7 == 0 || w7 == 128,
        w8 == 0 || w8 == 256,
        w9 == 0 || w9 == 512,
        w10 == 0 || w10 == 1024,
        w11 == 0 || w11 == 2048,
        s == w0 + w1 + w2 + w3 + w4 + w5 + w6 + w7 + w8 + w9 + w10 + w11,
    ensures
        s % 2 == 1 <==> w0 != 0,
        (s / 2) % 2 == 1 <==> w1 != 0,
        (s / 4) % 2 == 1 <==> w2 != 0,
        (s / 8) % 2 == 1 <==> w3 != 0,
        (s / 16) % 2 == 1 <==> w4 != 0,
        (s / 32) % 2 == 1 <==> w5 != 0,
        (s / 64) % 2 == 1 <==> w6 != 0,
        (s / 128) % 2 == 1 <==> w7 != 0,
        (s / 256) % 2 == 1 <==> w8 != 0,
        (s / 512) % 2 == 1 <==> w9 != 0,
        (s / 1024) % 2 == 1 <==> w10 != 0,
        (s / 2048) % 2 == 1 <==> w11 != 0,
{
}

} // verus!
