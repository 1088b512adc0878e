use marching_cubes::{Mesh, Triangle, Vertex};

fn vertex(n: usize) -> Vertex {
    Vertex { near: (n, 0, 0), far: (n + 1, 0, 0) }
}

#[test]
fn empty_mesh_has_nothing() {
    let m = Mesh::empty();
    assert!(m.0.is_empty());
    assert!(m.1.is_empty());
}

#[test]
fn new_keeps_what_it_is_given() {
    let verts = vec![vertex(0), vertex(1), vertex(2)];
    let tris = vec![Triangle(2, 1, 0)];
    let m = Mesh::new(verts.clone(), tris.clone());
    assert_eq!(m.0, verts);
    assert_eq!(m.1, tris);
}

#[test]
fn append_moves_the_indices_of_the_appended_triangles() {
    let mut m = Mesh::new(
        vec![vertex(0), vertex(1), vertex(2), vertex(3)],
        vec![Triangle(0, 1, 2), Triangle(1, 2, 3)],
    );
    let other = Mesh::new(
        vec![vertex(10), vertex(11), vertex(12)],
        vec![Triangle(0, 1, 2), Triangle(2, 0, 1)],
    );
    m.append(&other);
    assert_eq!(
        m.0,
        vec![vertex(0), vertex(1), vertex(2), vertex(3), vertex(10), vertex(11), vertex(12)]
    );
    assert_eq!(
        m.1,
        vec![Triangle(0, 1, 2), Triangle(1, 2, 3), Triangle(4, 5, 6), Triangle(6, 4, 5)]
    );
    // the appended mesh is left as it was
    assert_eq!(other.1, vec![Triangle(0, 1, 2), Triangle(2, 0, 1)]);
}

#[test]
fn append_to_the_empty_mesh_copies() {
    let mut m = Mesh::empty();
    let other = Mesh::new(vec![vertex(4), vertex(5), vertex(6)], vec![Triangle(0, 1, 2)]);
    m.append(&other);
    assert_eq!(m.0, other.0);
    assert_eq!(m.1, other.1);
    m.append(&Mesh::empty());
    assert_eq!(m.0, other.0);
    assert_eq!(m.1, other.1);
}

#[test]
fn append_twice_moves_by_the_running_vertex_count() {
    let piece = Mesh::new(vec![vertex(0), vertex(1), vertex(2)], vec![Triangle(0, 1, 2)]);
    let mut m = Mesh::empty();
    m.append(&piece);
    m.append(&piece);
    m.append(&piece);
    assert_eq!(m.0.len(), 9);
    assert_eq!(m.1, vec![Triangle(0, 1, 2), Triangle(3, 4, 5), Triangle(6, 7, 8)]);
}
