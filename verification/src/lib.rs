//! The combinatorial core of a marching-cubes mesher.
//!
//! A scalar field is sampled at the corners of a regular lattice. Every unit
//! cube of the lattice is classified by which of its eight corners lie inside
//! the volume, and two fixed topology tables turn that classification into
//! triangles whose vertices lie on the cube's edges.
//!
//! Everything in this crate is exact. A sample enters only as its sign
//! (`true` where the sample is negative, that is, inside the volume) and a
//! vertex leaves as the lattice edge on which it lies, named by the edge's two
//! end corners. Turning such a vertex into coordinates is a linear
//! interpolation between the two corners and is left to the caller, who owns
//! the sample values.

pub mod cube;
pub mod field;
pub mod mesh;
pub mod tables;
pub mod tessellator;

pub use cube::{edge_intersection, tessellate_corners, tessellate_cube};
pub use field::Field;
pub use mesh::{Corner, Mesh, Triangle, Vertex};
pub use tessellator::{create_mesh, tessellate_field};
