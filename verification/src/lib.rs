//! Compact coordinate types for pointy-top hexagonal grids.
//!
//! [`HexCoord`] uses axial coordinates (`q`, `r`); the cube axis `s` is
//! `-(q + r)`. Hex edges and vertices are stored in compact canonical forms,
//! [`HexEdge`] and [`HexVert`], each assigned to exactly one owning hex.
//! The module `geometry` gives every handle a point on an integer lattice, and
//! `laws` proves that each physical edge and vertex has exactly one handle.

pub mod coord;
pub mod edge;
pub mod vert;

pub use coord::HexCoord;
pub use edge::{HexEdge, HexEdgeDiscriminator, HexEdgeImpl};
pub use vert::{HexVert, HexVertDiscriminator, HexVertImpl};
pub mod geometry;
pub mod laws;
