use marching_cubes::Field;

fn slab(rows: usize, entries: usize, value: bool) -> Vec<Vec<bool>> {
    vec![vec![value; entries]; rows]
}

#[test]
fn from_vecs_counts_corners_and_cubes() {
    // 4 corners along x, 3 along y, 2 along z
    let field = Field::from_vecs(vec![slab(3, 4, false), slab(3, 4, true)]);
    assert!(field.is_grid());
    assert_eq!(field.corner_count(), (4, 3, 2));
    assert_eq!(field.cube_count(), (3, 2, 1));
}

#[test]
fn from_vecs_reads_entry_x_of_row_y_of_slab_z() {
    let mut vecs = vec![slab(2, 3, false), slab(2, 3, false)];
    vecs[1][0][2] = true;
    let field = Field::from_vecs(vecs);
    for z in 0..2 {
        for y in 0..2 {
            for x in 0..3 {
                assert_eq!(field.f(x, y, z), (x, y, z) == (2, 0, 1));
            }
        }
    }
}

#[test]
fn a_single_corner_is_a_field_without_cubes() {
    let field = Field::from_vecs(vec![vec![vec![true]]]);
    assert!(field.is_grid());
    assert_eq!(field.corner_count(), (1, 1, 1));
    assert_eq!(field.cube_count(), (0, 0, 0));
    assert!(field.f(0, 0, 0));
}

#[test]
fn is_grid_refuses_what_is_no_box() {
    assert!(!Field::from_vecs(vec![]).is_grid());
    assert!(!Field::from_vecs(vec![vec![]]).is_grid());
    assert!(!Field::from_vecs(vec![vec![vec![]]]).is_grid());
    // a slab with a row too few
    assert!(!Field::from_vecs(vec![slab(2, 2, false), slab(1, 2, false)]).is_grid());
    // a row with an entry too many
    let mut ragged = vec![slab(2, 2, false), slab(2, 2, false)];
    ragged[1][1].push(true);
    assert!(!Field::from_vecs(ragged).is_grid());
    // an empty later slab
    assert!(!Field::from_vecs(vec![slab(2, 2, false), vec![]]).is_grid());
    assert!(Field::from_vecs(vec![slab(2, 2, false), slab(2, 2, true)]).is_grid());
}

#[test]
fn from_closure_samples_every_corner_once_more_than_cubes() {
    let field = Field::from_closure(|x, y, z| (x + 2 * y + 3 * z) % 4 == 0, &(3, 2, 1));
    assert!(field.is_grid());
    assert_eq!(field.cube_count(), (3, 2, 1));
    assert_eq!(field.corner_count(), (4, 3, 2));
    for z in 0..2 {
        for y in 0..3 {
            for x in 0..4 {
                assert_eq!(field.f(x, y, z), (x + 2 * y + 3 * z) % 4 == 0);
            }
        }
    }
}

#[test]
fn from_closure_without_cubes_still_has_corners() {
    let field = Field::from_closure(|x, _y, _z| x == 0, &(0, 2, 0));
    assert!(field.is_grid());
    assert_eq!(field.corner_count(), (1, 3, 1));
    assert_eq!(field.cube_count(), (0, 2, 0));
    assert!(field.f(0, 2, 0));
}
