//! A lattice model of the grid: where hexes, edges and vertices lie.
//!
//! Hex centres are the integer points `(q, r)`. An edge's midpoint is the
//! average of the two hex centres it separates, and a vertex is the average of
//! the three hex centres that meet there; scaled by 2 and 3 respectively, both
//! are again integer points.
use vstd::prelude::*;

use crate::coord::HexCoord;
use crate::edge::{edge_hexes, HexEdge, HexEdgeDiscriminator};
use crate::vert::{HexVert, HexVertDiscriminator};

verus! {

/// `(dq, dr)` is one of the six steps between adjacent hexes.
pub open spec fn is_unit_step(dq: int, dr: int) -> bool {
    ||| (dq == 1 && dr == 0)
    ||| (dq == -1 && dr == 0)
    ||| (dq == 0 && dr == 1)
    ||| (dq == 0 && dr == -1)
    ||| (dq == 1 && dr == -1)
    ||| (dq == -1 && dr == 1)
}

/// Two hexes share an edge.
pub open spec fn adjacent(a: HexCoord, b: HexCoord) -> bool {
    is_unit_step(b.q - a.q, b.r - a.r)
}

/// Twice the midpoint of an edge: the sum of the centres of the two hexes it separates.
pub open spec fn edge_point(e: HexEdge) -> (int, int) {
    let o = e.0;
    match e.1 {
        HexEdgeDiscriminator::TopLeft => (2 * o.q, 2 * o.r + 1),
        HexEdgeDiscriminator::TopRight => (2 * o.q - 1, 2 * o.r + 1),
        HexEdgeDiscriminator::Right => (2 * o.q - 1, 2 * o.r as int),
    }
}

/// Three times a vertex's position: the sum of the centres of the three hexes meeting there.
pub open spec fn vert_point(v: HexVert) -> (int, int) {
    let o = v.0;
    match v.1 {
        HexVertDiscriminator::Top => (3 * o.q - 1, 3 * o.r + 2),
        HexVertDiscriminator::TopRight => (3 * o.q - 2, 3 * o.r + 1),
    }
}

/// Hex `h` lies on one side of edge `e`.
pub open spec fn borders(e: HexEdge, h: HexCoord) -> bool {
    is_unit_step(edge_point(e).0 - 2 * h.q, edge_point(e).1 - 2 * h.r)
}

/// `(dq, dr)` is, scaled by 3, the offset from a hex centre to one of its six corners.
pub open spec fn is_corner_step(dq: int, dr: int) -> bool {
    ||| (dq == -1 && dr == 2)
    ||| (dq == -2 && dr == 1)
    ||| (dq == -1 && dr == -1)
    ||| (dq == 1 && dr == -2)
    ||| (dq == 2 && dr == -1)
    ||| (dq == 1 && dr == 1)
}

/// Vertex `v` is one of the six corners of hex `h`.
pub open spec fn touches(v: HexVert, h: HexCoord) -> bool {
    is_corner_step(vert_point(v).0 - 3 * h.q, vert_point(v).1 - 3 * h.r)
}

/// Vertex `v` is an end of edge `e`: both hexes that `e` separates have `v` as a corner.
pub open spec fn is_endpoint(v: HexVert, e: HexEdge) -> bool {
    touches(v, edge_hexes(e)[0]) && touches(v, edge_hexes(e)[1])
}

/// Edge `e` moved by `(dq, dr)`.
pub open spec fn shift_edge(e: HexEdge, dq: int, dr: int) -> HexEdge {
    (e.0.offset(dq, dr), e.1)
}

/// Vertex `v` moved by `(dq, dr)`.
pub open spec fn shift_vert(v: HexVert, dq: int, dr: int) -> HexVert {
    (v.0.offset(dq, dr), v.1)
}

/// The neighbourhood of `c` and of `c` moved by `(dq, dr)` are both representable.
pub open spec fn shift_fits(c: HexCoord, dq: int, dr: int) -> bool {
    &&& c.neighbors_fit()
    &&& c.fits(dq, dr)
    &&& c.offset(dq, dr).neighbors_fit()
}

} // verus!
