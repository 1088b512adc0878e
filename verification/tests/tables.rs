use marching_cubes::tables::edges::{
    corner_mask_to_edge_mask, edge_is_marked, CORNER_MASK_TO_EDGE_MASK,
};
use marching_cubes::tables::triangles::{corner_mask_to_triangle, CORNER_MASK_TO_TRIANGLES, NA};
use marching_cubes::tables::{CORNERS, EDGES};

fn inside(mask: u8, corner: usize) -> bool {
    (mask >> corner) & 1 == 1
}

fn triangles(mask: u8) -> Vec<(usize, usize, usize)> {
    (0..5).filter_map(|k| corner_mask_to_triangle(mask, k)).collect()
}

/// The directed sides of the triangles of a mask that no other triangle of
/// the mask walks in the opposite direction: the rim of the mask's surface.
fn rim(mask: u8) -> Vec<(usize, usize)> {
    let mut sides = Vec::new();
    for (a, b, c) in triangles(mask) {
        sides.push((a, b));
        sides.push((b, c));
        sides.push((c, a));
    }
    sides
        .iter()
        .filter(|(a, b)| !sides.contains(&(*b, *a)))
        .cloned()
        .collect()
}

/// The edge of the cube whose ends are the corners at `a` and `b`.
fn edge_between(a: (usize, usize, usize), b: (usize, usize, usize)) -> usize {
    for e in 0..12 {
        let (p, q) = (CORNERS[EDGES[e].0], CORNERS[EDGES[e].1]);
        if (p == a && q == b) || (p == b && q == a) {
            return e;
        }
    }
    panic!("no such edge")
}

fn coordinate(c: (usize, usize, usize), axis: usize) -> usize {
    [c.0, c.1, c.2][axis]
}

fn moved(c: (usize, usize, usize), axis: usize, to: usize) -> (usize, usize, usize) {
    let mut v = [c.0, c.1, c.2];
    v[axis] = to;
    (v[0], v[1], v[2])
}

#[test]
fn corners_and_edges_follow_the_convention() {
    assert_eq!(CORNERS[0], (0, 0, 0));
    assert_eq!(CORNERS[1], (1, 0, 0));
    assert_eq!(CORNERS[2], (1, 0, 1));
    assert_eq!(CORNERS[3], (0, 0, 1));
    assert_eq!(CORNERS[4], (0, 1, 0));
    assert_eq!(CORNERS[5], (1, 1, 0));
    assert_eq!(CORNERS[6], (1, 1, 1));
    assert_eq!(CORNERS[7], (0, 1, 1));
    for e in 0..12 {
        // the two ends of an edge differ along exactly one axis
        let (a, b) = (CORNERS[EDGES[e].0], CORNERS[EDGES[e].1]);
        let differing = (0..3).filter(|ax| coordinate(a, *ax) != coordinate(b, *ax)).count();
        assert_eq!(differing, 1);
        for other in 0..e {
            assert_ne!(edge_between(a, b), other);
        }
    }
}

#[test]
fn edge_mask_has_a_bit_exactly_where_the_ends_differ() {
    for mask in 0..=255u8 {
        let edges = corner_mask_to_edge_mask(mask);
        assert_eq!(edges, CORNER_MASK_TO_EDGE_MASK[mask as usize]);
        assert_eq!(edges >> 12, 0);
        for e in 0..12 {
            let differ = inside(mask, EDGES[e].0) != inside(mask, EDGES[e].1);
            assert_eq!(edge_is_marked(edges, e), differ, "mask {} edge {}", mask, e);
            assert_eq!((edges >> e) & 1 == 1, differ);
        }
    }
}

#[test]
fn edge_mask_values() {
    assert_eq!(corner_mask_to_edge_mask(0), 0);
    assert_eq!(corner_mask_to_edge_mask(255), 0);
    assert_eq!(corner_mask_to_edge_mask(1), 0x109);
    assert_eq!(corner_mask_to_edge_mask(2), 0x203);
    assert_eq!(corner_mask_to_edge_mask(3), 0x30a);
    assert_eq!(corner_mask_to_edge_mask(0x99), 0x055);
    assert_eq!(corner_mask_to_edge_mask(254), 0x109);
}

#[test]
fn edge_mask_is_the_same_for_a_mask_and_its_complement() {
    for mask in 0..=255u8 {
        assert_eq!(corner_mask_to_edge_mask(mask), corner_mask_to_edge_mask(!mask));
    }
}

#[test]
fn edge_is_marked_reads_single_bits() {
    for e in 0..12 {
        assert!(edge_is_marked(1 << e, e));
        assert!(!edge_is_marked(!(1u16 << e), e));
    }
    assert!(!edge_is_marked(0, 3));
    assert!(edge_is_marked(0xffff, 11));
}

#[test]
fn template_slots_mirror_the_table() {
    for mask in 0..=255u8 {
        for k in 0..5 {
            let entry = CORNER_MASK_TO_TRIANGLES[5 * mask as usize + k];
            let slot = corner_mask_to_triangle(mask, k);
            if entry == NA {
                assert_eq!(slot, None);
            } else {
                assert_eq!(slot, Some(entry));
            }
        }
    }
    assert_eq!(corner_mask_to_triangle(1, 0), Some((0, 8, 3)));
    assert_eq!(corner_mask_to_triangle(1, 1), None);
    assert_eq!(corner_mask_to_triangle(0, 0), None);
    assert_eq!(corner_mask_to_triangle(255, 4), None);
}

#[test]
fn templates_use_exactly_the_crossed_edges() {
    for mask in 0..=255u8 {
        let edges = corner_mask_to_edge_mask(mask);
        let tris = triangles(mask);
        let mut used = 0u16;
        for (a, b, c) in &tris {
            for e in [*a, *b, *c] {
                assert!(e < 12);
                assert!(edge_is_marked(edges, e), "mask {} edge {}", mask, e);
                used |= 1 << e;
            }
            assert!(a != b && b != c && a != c);
        }
        assert_eq!(used, edges, "mask {}", mask);
        // used slots come first
        for k in 0..5 {
            assert_eq!(corner_mask_to_triangle(mask, k).is_some(), k < tris.len());
        }
    }
}

#[test]
fn templates_have_one_triangle_for_a_single_corner() {
    for c in 0..8 {
        assert_eq!(triangles(1u8 << c).len(), 1);
        assert_eq!(triangles(!(1u8 << c)).len(), 1);
    }
    assert_eq!(triangles(0x99).len(), 2);
    assert!((0..=255u8).all(|m| triangles(m).len() <= 5));
    assert!((0..=255u8).any(|m| triangles(m).len() == 5));
}

#[test]
fn surfaces_are_closed_inside_a_cube() {
    // Every side of a triangle is either walked once in each direction by two
    // triangles of the same cube, or lies in a face of the cube.
    for mask in 0..=255u8 {
        let mut sides = Vec::new();
        for (a, b, c) in triangles(mask) {
            sides.push((a, b));
            sides.push((b, c));
            sides.push((c, a));
        }
        for (i, s) in sides.iter().enumerate() {
            assert!(!sides[..i].contains(s), "mask {} walks a side twice", mask);
        }
        for (a, b) in rim(mask) {
            let ends = [EDGES[a].0, EDGES[a].1, EDGES[b].0, EDGES[b].1];
            let in_one_face = (0..3).any(|axis| {
                let first = coordinate(CORNERS[ends[0]], axis);
                ends.iter().all(|c| coordinate(CORNERS[*c], axis) == first)
            });
            assert!(in_one_face, "mask {} side {}-{}", mask, a, b);
        }
    }
}

#[test]
fn neighbouring_cubes_cut_their_common_face_alike() {
    // Two cubes that share a face agree on the signs of its four corners.
    // The rims of their surfaces must then meet: each segment that one cube
    // draws in the face is drawn by the other, in the opposite direction.
    for axis in 0..3 {
        for low in 0..=255u8 {
            for high in 0..=255u8 {
                // `low` is the cube on the lesser side: its face at 1 is the
                // face at 0 of `high`
                let agree = (0..8).filter(|c| coordinate(CORNERS[*c], axis) == 1).all(|c| {
                    let twin = (0..8)
                        .find(|d| CORNERS[*d] == moved(CORNERS[c], axis, 0))
                        .unwrap();
                    inside(low, c) == inside(high, twin)
                });
                if !agree {
                    continue;
                }
                let on_face = |e: usize, at: usize| {
                    coordinate(CORNERS[EDGES[e].0], axis) == at
                        && coordinate(CORNERS[EDGES[e].1], axis) == at
                };
                let twin_edge = |e: usize| {
                    edge_between(
                        moved(CORNERS[EDGES[e].0], axis, 0),
                        moved(CORNERS[EDGES[e].1], axis, 0),
                    )
                };
                let mut from_low: Vec<(usize, usize)> = rim(low)
                    .into_iter()
                    .filter(|(a, b)| on_face(*a, 1) && on_face(*b, 1))
                    .map(|(a, b)| (twin_edge(b), twin_edge(a)))
                    .collect();
                let mut from_high: Vec<(usize, usize)> = rim(high)
                    .into_iter()
                    .filter(|(a, b)| on_face(*a, 0) && on_face(*b, 0))
                    .collect();
                from_low.sort();
                from_high.sort();
                assert_eq!(from_low, from_high, "axis {} masks {} {}", axis, low, high);
            }
        }
    }
}
