//! The first topology table: from a corner mask to the edges that the
//! surface crosses.

use crate::tables::{bit, crossed, lemma_bits_of_sum};
use vstd::prelude::*;

verus! {

/// For each corner mask, the set of edges that the surface crosses, as a
/// mask of twelve bits.
pub const CORNER_MASK_TO_EDGE_MASK: [u16; 256] = [
    0x000, 0x109, 0x203, 0x30a, 0x406, 0x50f, 0x605, 0x70c,
    0x80c, 0x905, 0xa0f, 0xb06, 0xc0a, 0xd03, 0xe09, 0xf00,
    0x190, 0x099, 0x393, 0x29a, 0x596, 0x49f, 0x795, 0x69c,
    0x99c, 0x895, 0xb9f, 0xa96, 0xd9a, 0xc93, 0xf99, 0xe90,
    0x230, 0x339, 0x033, 0x13a, 0x636, 0x73f, 0x435, 0x53c,
    0xa3c, 0xb35, 0x83f, 0x936, 0xe3a, 0xf33, 0xc39, 0xd30,
    0x3a0, 0x2a9, 0x1a3, 0x0aa, 0x7a6, 0x6af, 0x5a5, 0x4ac,
    0xbac, 0xaa5, 0x9af, 0x8a6, 0xfaa, 0xea3, 0xda9, 0xca0,
    0x460, 0x569, 0x663, 0x76a, 0x066, 0x16f, 0x265, 0x36c,
    0xc6c, 0xd65, 0xe6f, 0xf66, 0x86a, 0x963, 0xa69, 0xb60,
    0x5f0, 0x4f9, 0x7f3, 0x6fa, 0x1f6, 0x0ff, 0x3f5, 0x2fc,
    0xdfc, 0xcf5, 0xfff, 0xef6, 0x9fa, 0x8f3, 0xbf9, 0xaf0,
    0x650, 0x759, 0x453, 0x55a, 0x256, 0x35f, 0x055, 0x15c,
    0xe5c, 0xf55, 0xc5f, 0xd56, 0xa5a, 0xb53, 0x859, 0x950,
    0x7c0, 0x6c9, 0x5c3, 0x4ca, 0x3c6, 0x2cf, 0x1c5, 0x0cc,
    0xfcc, 0xec5, 0xdcf, 0xcc6, 0xbca, 0xac3, 0x9c9, 0x8c0,
    0x8c0, 0x9c9, 0xac3, 0xbca, 0xcc6, 0xdcf, 0xec5, 0xfcc,
    0x0cc, 0x1c5, 0x2cf, 0x3c6, 0x4ca, 0x5c3, 0x6c9, 0x7c0,
    0x950, 0x859, 0xb53, 0xa5a, 0xd56, 0xc5f, 0xf55, 0xe5c,
    0x15c, 0x055, 0x35f, 0x256, 0x55a, 0x453, 0x759, 0x650,
    0xaf0, 0xbf9, 0x8f3, 0x9fa, 0xef6, 0xfff, 0xcf5, 0xdfc,
    0x2fc, 0x3f5, 0x0ff, 0x1f6, 0x6fa, 0x7f3, 0x4f9, 0x5f0,
    0xb60, 0xa69, 0x963, 0x86a, 0xf66, 0xe6f, 0xd65, 0xc6c,
    0x36c, 0x265, 0x16f, 0x066, 0x76a, 0x663, 0x569, 0x460,
    0xca0, 0xda9, 0xea3, 0xfaa, 0x8a6, 0x9af, 0xaa5, 0xbac,
    0x4ac, 0x5a5, 0x6af, 0x7a6, 0x0aa, 0x1a3, 0x2a9, 0x3a0,
    0xd30, 0xc39, 0xf33, 0xe3a, 0x936, 0x83f, 0xb35, 0xa3c,
    0x53c, 0x435, 0x73f, 0x636, 0x13a, 0x033, 0x339, 0x230,
    0xe90, 0xf99, 0xc93, 0xd9a, 0xa96, 0xb9f, 0x895, 0x99c,
    0x69c, 0x795, 0x49f, 0x596, 0x29a, 0x393, 0x099, 0x190,
    0xf00, 0xe09, 0xd03, 0xc0a, 0xb06, 0xa0f, 0x905, 0x80c,
    0x70c, 0x605, 0x50f, 0x406, 0x30a, 0x203, 0x109, 0x000,
];

/// The edge mask that the table holds for a corner mask.
pub closed spec fn edge_mask(mask: int) -> int {
    CORNER_MASK_TO_EDGE_MASK[mask] as int
}

/// `w` where edge `e` is crossed under this corner mask, else zero.
pub open spec fn weight(mask: int, e: int, w: int) -> int {
    if crossed(mask, e) {
        w
    } else {
        0
    }
}

/// The edge mask worked out from the corner mask alone: the sum of `2^e`
/// over the crossed edges `e`.
pub open spec fn crossed_edges(mask: int) -> int {
    weight(mask, 0, 1) + weight(mask, 1, 2) + weight(mask, 2, 4) + weight(mask, 3, 8) + weight(
        mask,
        4,
        16,
    ) + weight(mask, 5, 32) + weight(mask, 6, 64) + weight(mask, 7, 128) + weight(mask, 8, 256)
        + weight(mask, 9, 512) + weight(mask, 10, 1024) + weight(mask, 11, 2048)
}

/// Looks up the edge mask of a corner mask.
pub fn corner_mask_to_edge_mask(mask: u8) -> (edges: u16)
    ensures
        edges == edge_mask(mask as int),
{
    CORNER_MASK_TO_EDGE_MASK[mask as usize]
}

/// Tests bit `i` of an edge mask.
pub fn edge_is_marked(edges: u16, i: usize) -> (marked: bool)
    requires
        i < 12,
    ensures
        marked == bit(edges as int, i as int),
{
    let shift: u16 = i as u16;
    proof {
        lemma_shift_is_division(edges, shift);
    }
    (edges >> shift) & 1 == 1
}

proof fn lemma_shift_is_division(v: u16, i: u16)
    requires
        i < 12,
    ensures
        ((v >> i) & 1 == 1) <==> bit(v as int, i as int),
{
    reveal(bit);
    if i == 0 {
        assert(((v >> 0u16) & 1 == 1) <==> v % 2 == 1) by (bit_vector);
    } else if i == 1 {
        assert(((v >> 1u16) & 1 == 1) <==> (v / 2) % 2 == 1) by (bit_vector);
    } else if i == 2 {
        assert(((v >> 2u16) & 1 == 1) <==> (v / 4) % 2 == 1) by (bit_vector);
    } else if i == 3 {
        assert(((v >> 3u16) & 1 == 1) <==> (v / 8) % 2 == 1) by (bit_vector);
    } else if i == 4 {
        assert(((v >> 4u16) & 1 == 1) <==> (v / 16) % 2 == 1) by (bit_vector);
    } else if i == 5 {
        assert(((v >> 5u16) & 1 == 1) <==> (v / 32) % 2 == 1) by (bit_vector);
    } else if i == 6 {
        assert(((v >> 6u16) & 1 == 1) <==> (v / 64) % 2 == 1) by (bit_vector);
    } else if i == 7 {
        assert(((v >> 7u16) & 1 == 1) <==> (v / 128) % 2 == 1) by (bit_vector);
    } else if i == 8 {
        assert(((v >> 8u16) & 1 == 1) <==> (v / 256) % 2 == 1) by (bit_vector);
    } else if i == 9 {
        assert(((v >> 9u16) & 1 == 1) <==> (v / 512) % 2 == 1) by (bit_vector);
    } else if i == 10 {
        assert(((v >> 10u16) & 1 == 1) <==> (v / 1024) % 2 == 1) by (bit_vector);
    } else {
        assert(((v >> 11u16) & 1 == 1) <==> (v / 2048) % 2 == 1) by (bit_vector);
    }
}

/// What [`edge_mask`] stands for: the entry of the table at the corner mask.
pub proof fn lemma_edge_mask_is_table_entry(mask: int)
    ensures
        edge_mask(mask) == CORNER_MASK_TO_EDGE_MASK[mask],
{
}

spec fn rows_agree(lo: int, hi: int) -> bool
    decreases hi - lo,
{
    if lo >= hi {
        true
    } else {
        edge_mask(lo) == crossed_edges(lo) && rows_agree(lo + 1, hi)
    }
}

proof fn lemma_rows_0()
    ensures
        rows_agree(0, 64),
{
    reveal(bit);
    reveal_with_fuel(rows_agree, 65);
}

proof fn lemma_rows_1()
    ensures
        rows_agree(64, 128),
{
    reveal(bit);
    reveal_with_fuel(rows_agree, 65);
}

proof fn lemma_rows_2()
    ensures
        rows_agree(128, 192),
{
    reveal(bit);
    reveal_with_fuel(rows_agree, 65);
}

proof fn lemma_rows_3()
    ensures
        rows_agree(192, 256),
{
    reveal(bit);
    reveal_with_fuel(rows_agree, 65);
}

proof fn lemma_row_among(lo: int, hi: int, mask: int)
    requires
        rows_agree(lo, hi),
        lo <= mask < hi,
    ensures
        edge_mask(mask) == crossed_edges(mask),
    decreases hi - lo,
{
    if lo < mask {
        lemma_row_among(lo + 1, hi, mask);
    }
}

/// Every entry of the edge table is the sum of `2^e` over the edges `e`
/// whose two ends differ in the corner mask.
pub proof fn lemma_edge_mask_is_crossed_edges(mask: int)
    requires
        0 <= mask < 256,
    ensures
        edge_mask(mask) == crossed_edges(mask),
{
    if mask < 64 {
        lemma_rows_0();
        lemma_row_among(0, 64, mask);
    } else if mask < 128 {
        lemma_rows_1();
        lemma_row_among(64, 128, mask);
    } else if mask < 192 {
        lemma_rows_2();
        lemma_row_among(128, 192, mask);
    } else {
        lemma_rows_3();
        lemma_row_among(192, 256, mask);
    }
}

proof fn lemma_bits_of_crossed_edges(mask: int, e: int)
    requires
        0 <= e < 12,
    ensures
        bit(crossed_edges(mask), e) <==> crossed(mask, e),
{
    reveal(bit);
    lemma_bits_of_sum(
        weight(mask, 0, 1) as u16,
        weight(mask, 1, 2) as u16,
        weight(mask, 2, 4) as u16,
        weight(mask, 3, 8) as u16,
        weight(mask, 4, 16) as u16,
        weight(mask, 5, 32) as u16,
        weight(mask, 6, 64) as u16,
        weight(mask, 7, 128) as u16,
        weight(mask, 8, 256) as u16,
        weight(mask, 9, 512) as u16,
        weight(mask, 10, 1024) as u16,
        weight(mask, 11, 2048) as u16,
        crossed_edges(mask) as u16,
    );
}

/// For every corner mask, bit `e` of its edge mask is set if and only if the
/// two end corners of edge `e` differ in the corner mask.
pub proof fn lemma_edge_mask_marks_crossed_edges(mask: int, e: int)
    requires
        0 <= mask < 256,
        0 <= e < 12,
    ensures
        bit(edge_mask(mask), e) <==> crossed(mask, e),
{
    lemma_edge_mask_is_crossed_edges(mask);
    lemma_bits_of_crossed_edges(mask, e);
}

/// An edge mask of the table is zero if and only if no edge is crossed.
pub proof fn lemma_edge_mask_is_zero_where_nothing_is_crossed(mask: int)
    requires
        0 <= mask < 256,
    ensures
        edge_mask(mask) == 0 <==> forall|e: int| 0 <= e < 12 ==> !crossed(mask, e),
{
    lemma_edge_mask_is_crossed_edges(mask);
    if edge_mask(mask) != 0 {
        if forall|e: int| 0 <= e < 12 ==> !crossed(mask, e) {
            assert(!crossed(mask, 0) && !crossed(mask, 1) && !crossed(mask, 2) && !crossed(
                mask,
                3,
            ));
            assert(!crossed(mask, 4) && !crossed(mask, 5) && !crossed(mask, 6) && !crossed(
                mask,
                7,
            ));
            assert(!crossed(mask, 8) && !crossed(mask, 9) && !crossed(mask, 10) && !crossed(
                mask,
                11,
            ));
        }
    }
}

/// With no corner inside, and with every corner inside, no edge is crossed:
/// both edge masks are zero.
pub proof fn lemma_uniform_masks_cross_nothing()
    ensures
        edge_mask(0) == 0,
        edge_mask(255) == 0,
{
}

} // verus!
