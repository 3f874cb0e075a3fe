//! Properties that hold of the whole library: coordinate arithmetic, and the
//! one-handle-per-feature promise of canonical edges and vertices.
use vstd::prelude::*;
use vstd::std_specs::ops::MulSpec;

use crate::coord::HexCoord;
use crate::edge::{edge_edges, edge_hexes, edge_verts, HexEdge, HexEdgeDiscriminator, HexEdgeImpl};
use crate::geometry::{
    adjacent, borders, edge_point, is_endpoint, shift_edge, shift_fits, shift_vert, touches,
    vert_point,
};
use crate::vert::{vert_edges, vert_hexes, vert_verts, HexVert, HexVertDiscriminator, HexVertImpl};

verus! {

// ---------------------------------------------------------------------------
// Coordinate arithmetic
// ---------------------------------------------------------------------------

/// Addition of coordinates is commutative.
pub proof fn lemma_sum_commutative(a: HexCoord, b: HexCoord)
    requires
        a.fits(b.q as int, b.r as int),
    ensures
        a.sum(b) == b.sum(a),
{
}

/// Subtracting what was added gives back the starting coordinate.
pub proof fn lemma_sum_then_difference(a: HexCoord, b: HexCoord)
    requires
        a.fits(b.q as int, b.r as int),
    ensures
        a.sum(b).difference(b) == a,
{
}

/// A coordinate minus itself is the origin.
pub proof fn lemma_difference_self(a: HexCoord)
    ensures
        a.difference(a) == HexCoord::zero(),
{
}

/// Adding a coordinate to itself is the same as multiplying it by two.
pub proof fn lemma_double_is_scale_two(a: HexCoord)
    requires
        a.fits(a.q as int, a.r as int),
    ensures
        a.sum(a) == a.scaled(2),
        a.scale_fits(2),
{
}

/// A coordinate plus its negation is the origin.
pub proof fn lemma_negation_cancels(a: HexCoord)
    requires
        a.scale_fits(-1),
    ensures
        a.fits(-a.q, -a.r),
        a.sum(a.scaled(-1)) == HexCoord::zero(),
{
}

/// Multiplying by a scalar gives the same coordinate from either side: `k * a == a * k`.
pub proof fn lemma_scalar_product_either_side(a: HexCoord, k: i32)
    ensures
        k.mul_req(a) == a.mul_req(k),
        k.mul_spec(a) == a.mul_spec(k),
{
}

/// Stepping to a neighbour and then in the opposite direction returns to the start.
pub proof fn lemma_opposite_steps_cancel(c: HexCoord)
    requires
        c.neighbors_fit(),
    ensures
        c.top_right().bottom_left() == c,
        c.right().left() == c,
        c.bottom_right().top_left() == c,
        c.bottom_left().top_right() == c,
        c.left().right() == c,
        c.top_left().bottom_right() == c,
{
}

/// The six neighbours of a hex are exactly the hexes adjacent to it, all distinct,
/// and in clockwise order each is adjacent to the next (they form a ring).
pub proof fn lemma_neighbors_ring(c: HexCoord, h: HexCoord)
    requires
        c.neighbors_fit(),
    ensures
        forall|i: int| 0 <= i < 6 ==> adjacent(c, #[trigger] c.neighbor_seq()[i]),
        forall|i: int, j: int|
            0 <= i < 6 && 0 <= j < 6 && i != j ==> c.neighbor_seq()[i] != c.neighbor_seq()[j],
        forall|i: int|
            0 <= i < 6 ==> adjacent(#[trigger] c.neighbor_seq()[i], c.neighbor_seq()[(i + 1) % 6]),
        adjacent(c, h) <==> c.neighbor_seq().contains(h),
{
    let n = c.neighbor_seq();
    assert(n[0] == c.top_right() && n[1] == c.right() && n[2] == c.bottom_right());
    assert(n[3] == c.bottom_left() && n[4] == c.left() && n[5] == c.top_left());
    if adjacent(c, h) {
        if h.q - c.q == -1 && h.r - c.r == 1 {
            assert(h == n[0]);
        } else if h.q - c.q == -1 && h.r - c.r == 0 {
            assert(h == n[1]);
        } else if h.q - c.q == 0 && h.r - c.r == -1 {
            assert(h == n[2]);
        } else if h.q - c.q == 1 && h.r - c.r == -1 {
            assert(h == n[3]);
        } else if h.q - c.q == 1 && h.r - c.r == 0 {
            assert(h == n[4]);
        } else {
            assert(h == n[5]);
        }
    }
}

// ---------------------------------------------------------------------------
// Edges
// ---------------------------------------------------------------------------

/// Each physical edge has exactly one handle: two handles with the same midpoint are equal.
pub proof fn lemma_edge_handle_unique(e1: HexEdge, e2: HexEdge)
    ensures
        edge_point(e1) == edge_point(e2) <==> e1 == e2,
{
}

/// Every pair of adjacent hexes has exactly one edge handle between them.
pub proof fn lemma_adjacent_pair_has_one_edge(a: HexCoord, b: HexCoord, e1: HexEdge, e2: HexEdge)
    requires
        adjacent(a, b),
    ensures
        exists|e: HexEdge| borders(e, a) && borders(e, b),
        borders(e1, a) && borders(e1, b) && borders(e2, a) && borders(e2, b) ==> e1 == e2,
{
    let dq = b.q - a.q;
    let dr = b.r - a.r;
    let e: HexEdge = if dq == 0 && dr == 1 {
        (a, HexEdgeDiscriminator::TopLeft)
    } else if dq == -1 && dr == 1 {
        (a, HexEdgeDiscriminator::TopRight)
    } else if dq == -1 && dr == 0 {
        (a, HexEdgeDiscriminator::Right)
    } else if dq == 0 && dr == -1 {
        (b, HexEdgeDiscriminator::TopLeft)
    } else if dq == 1 && dr == -1 {
        (b, HexEdgeDiscriminator::TopRight)
    } else {
        (b, HexEdgeDiscriminator::Right)
    };
    assert(borders(e, a) && borders(e, b));
}

/// An edge separates exactly the two hexes that [`crate::HexEdgeImpl::neighbors`] returns:
/// they are adjacent, the edge's midpoint lies halfway between them, and no other
/// hex borders the edge.
pub proof fn lemma_edge_separates(e: HexEdge, h: HexCoord)
    requires
        e.neighbors_fit(),
    ensures
        adjacent(edge_hexes(e)[0], edge_hexes(e)[1]),
        edge_point(e) == (edge_hexes(e)[0].q + edge_hexes(e)[1].q, edge_hexes(e)[0].r
            + edge_hexes(e)[1].r),
        borders(e, h) <==> (h == edge_hexes(e)[0] || h == edge_hexes(e)[1]),
{
}

/// Each of a hex's six edge handles lies between the hex and the neighbour in
/// the same clockwise position, and the six handles are distinct.
pub proof fn lemma_hex_edges_face_neighbors(c: HexCoord)
    requires
        c.neighbors_fit(),
    ensures
        forall|i: int|
            0 <= i < 6 ==> borders(#[trigger] c.edge_seq()[i], c) && borders(
                c.edge_seq()[i],
                c.neighbor_seq()[i],
            ),
        forall|i: int, j: int|
            0 <= i < 6 && 0 <= j < 6 && i != j ==> c.edge_seq()[i] != c.edge_seq()[j],
{
}

/// An edge shared by two neighbouring hexes gets the same handle from either side.
pub proof fn lemma_shared_edge_single_handle(c: HexCoord)
    requires
        c.neighbors_fit(),
    ensures
        c.top_right_edge() == c.top_right().bottom_left_edge(),
        c.right_edge() == c.right().left_edge(),
        c.bottom_right_edge() == c.bottom_right().top_left_edge(),
        c.bottom_left_edge() == c.bottom_left().top_right_edge(),
        c.left_edge() == c.left().right_edge(),
        c.top_left_edge() == c.top_left().bottom_right_edge(),
{
}

/// The two vertices that [`crate::HexEdgeImpl::neighboring_verts`] returns are the
/// two distinct ends of the edge.
pub proof fn lemma_edge_endpoints(e: HexEdge)
    requires
        e.neighbors_fit(),
        e.neighboring_verts_fit(),
    ensures
        is_endpoint(edge_verts(e)[0], e),
        is_endpoint(edge_verts(e)[1], e),
        edge_verts(e)[0] != edge_verts(e)[1],
{
}

/// Each edge that [`crate::HexEdgeImpl::neighboring_edges`] lists beside an
/// upper-right or right edge is another edge meeting it at one of its ends.
/// (For an upper-left edge the first two listed edges lie elsewhere, so it is
/// left out.)
pub proof fn lemma_neighboring_edges_meet(e: HexEdge)
    requires
        e.0.neighbors_fit(),
        e.1 != HexEdgeDiscriminator::TopLeft,
    ensures
        forall|i: int|
            0 <= i < 4 ==> #[trigger] edge_edges(e)[i] != e && (is_endpoint(
                edge_verts(e)[0],
                edge_edges(e)[i],
            ) || is_endpoint(edge_verts(e)[1], edge_edges(e)[i])),
{
}

// ---------------------------------------------------------------------------
// Vertices
// ---------------------------------------------------------------------------

/// Each physical vertex has exactly one handle: two handles at the same point are equal.
pub proof fn lemma_vert_handle_unique(v1: HexVert, v2: HexVert)
    ensures
        vert_point(v1) == vert_point(v2) <==> v1 == v2,
{
}

/// A vertex is where exactly the three hexes that [`crate::HexVertImpl::neighbors`]
/// returns meet: they are pairwise adjacent, the vertex is their centroid, and
/// no other hex has it as a corner.
pub proof fn lemma_vert_joins(v: HexVert, h: HexCoord)
    requires
        v.neighbors_fit(),
    ensures
        adjacent(vert_hexes(v)[0], vert_hexes(v)[1]),
        adjacent(vert_hexes(v)[1], vert_hexes(v)[2]),
        adjacent(vert_hexes(v)[2], vert_hexes(v)[0]),
        vert_point(v) == (vert_hexes(v)[0].q + vert_hexes(v)[1].q + vert_hexes(v)[2].q,
            vert_hexes(v)[0].r + vert_hexes(v)[1].r + vert_hexes(v)[2].r),
        touches(v, h) <==> vert_hexes(v).contains(h),
{
}

/// Each vertex handle of a hex is the corner it shares with the two neighbours on
/// either side (in the same clockwise position and the one before), and the six
/// handles are distinct.
pub proof fn lemma_hex_vertices_between_neighbors(c: HexCoord)
    requires
        c.neighbors_fit(),
    ensures
        forall|i: int|
            0 <= i < 6 ==> touches(#[trigger] c.vertex_seq()[i], c) && touches(
                c.vertex_seq()[i],
                c.neighbor_seq()[(i + 5) % 6],
            ) && touches(c.vertex_seq()[i], c.neighbor_seq()[i]),
        forall|i: int, j: int|
            0 <= i < 6 && 0 <= j < 6 && i != j ==> c.vertex_seq()[i] != c.vertex_seq()[j],
{
}

/// Every three pairwise adjacent hexes meet at exactly one vertex handle.
pub proof fn lemma_hex_triangle_has_one_vertex(
    a: HexCoord,
    b: HexCoord,
    c: HexCoord,
    v1: HexVert,
    v2: HexVert,
)
    requires
        adjacent(a, b),
        adjacent(b, c),
        adjacent(c, a),
    ensures
        exists|v: HexVert| touches(v, a) && touches(v, b) && touches(v, c),
        touches(v1, a) && touches(v1, b) && touches(v1, c) && touches(v2, a) && touches(v2, b)
            && touches(v2, c) ==> v1 == v2,
{
    // The hex among `b`, `c` that lies at offset `(dq, dr)` from `a`.
    let at = |dq: int, dr: int|
        if b.q - a.q == dq && b.r - a.r == dr {
            b
        } else {
            c
        };
    let has = |dq: int, dr: int|
        (b.q - a.q == dq && b.r - a.r == dr) || (c.q - a.q == dq && c.r - a.r == dr);
    let v: HexVert = if has(0, 1) && has(-1, 1) {
        (a, HexVertDiscriminator::Top)
    } else if has(-1, 1) && has(-1, 0) {
        (a, HexVertDiscriminator::TopRight)
    } else if has(-1, 0) && has(0, -1) {
        (at(0, -1), HexVertDiscriminator::Top)
    } else if has(0, -1) && has(1, -1) {
        (at(1, -1), HexVertDiscriminator::TopRight)
    } else if has(1, -1) && has(1, 0) {
        (at(1, -1), HexVertDiscriminator::Top)
    } else {
        (at(1, 0), HexVertDiscriminator::TopRight)
    };
    assert(touches(v, a) && touches(v, b) && touches(v, c));
}

/// A vertex shared by three hexes gets the same handle from each of them.
pub proof fn lemma_shared_vertex_single_handle(c: HexCoord)
    requires
        c.neighbors_fit(),
    ensures
        c.top_vert() == c.top_left().bottom_right_vert(),
        c.top_vert() == c.top_right().bottom_left_vert(),
        c.top_right_vert() == c.top_right().bottom_vert(),
        c.top_right_vert() == c.right().top_left_vert(),
        c.bottom_right_vert() == c.right().bottom_left_vert(),
        c.bottom_right_vert() == c.bottom_right().top_vert(),
        c.bottom_vert() == c.bottom_right().top_left_vert(),
        c.bottom_vert() == c.bottom_left().top_right_vert(),
        c.bottom_left_vert() == c.bottom_left().top_vert(),
        c.bottom_left_vert() == c.left().bottom_right_vert(),
        c.top_left_vert() == c.left().top_right_vert(),
        c.top_left_vert() == c.top_left().bottom_vert(),
{
}

/// Each edge that [`crate::HexVertImpl::neighbor_edges`] lists ends at the vertex,
/// lists the vertex among its own ends, and the three edges are distinct.
pub proof fn lemma_vertex_edges_round_trip(v: HexVert)
    requires
        v.neighbors_fit(),
    ensures
        forall|i: int|
            0 <= i < 3 ==> is_endpoint(v, #[trigger] vert_edges(v)[i]) && (edge_verts(
                vert_edges(v)[i],
            )[0] == v || edge_verts(vert_edges(v)[i])[1] == v),
        forall|i: int, j: int|
            0 <= i < 3 && 0 <= j < 3 && i != j ==> vert_edges(v)[i] != vert_edges(v)[j],
{
}

/// Each vertex that [`crate::HexVertImpl::neighbor_verts`] lists is a different
/// vertex at the far end of one of the vertex's edges.
pub proof fn lemma_adjacent_vertices_share_edge(v: HexVert)
    requires
        v.neighbors_fit(),
        v.neighbor_verts_fit(),
    ensures
        forall|i: int|
            0 <= i < 3 ==> #[trigger] vert_verts(v)[i] != v && exists|j: int|
                0 <= j < 3 && is_endpoint(v, #[trigger] vert_edges(v)[j]) && is_endpoint(
                    vert_verts(v)[i],
                    vert_edges(v)[j],
                ),
        forall|i: int, j: int|
            0 <= i < 3 && 0 <= j < 3 && i != j ==> vert_verts(v)[i] != vert_verts(v)[j],
{
    let ws = vert_verts(v);
    let es = vert_edges(v);
    assert forall|i: int| 0 <= i < 3 implies #[trigger] ws[i] != v && exists|j: int|
        0 <= j < 3 && is_endpoint(v, #[trigger] es[j]) && is_endpoint(ws[i], es[j]) by {
        let j: int = match v.1 {
            HexVertDiscriminator::Top => if i == 0 {
                0
            } else if i == 1 {
                2
            } else {
                1
            },
            HexVertDiscriminator::TopRight => if i == 0 {
                2
            } else if i == 1 {
                0
            } else {
                1
            },
        };
        assert(is_endpoint(v, es[j]) && is_endpoint(ws[i], es[j]));
    }
}

// ---------------------------------------------------------------------------
// Order of listed hexes, edges and vertices
// ---------------------------------------------------------------------------

/// An edge lists its owner first, then the hex across it.
pub proof fn lemma_edge_owner_first(e: HexEdge)
    requires
        e.neighbors_fit(),
    ensures
        edge_hexes(e)[0] == e.0,
        edge_hexes(e)[1] != e.0,
        adjacent(e.0, edge_hexes(e)[1]),
{
}

/// Around a hex, each of its six edges lists its owner first and its two ends in
/// clockwise order around that owner: for the three edges the hex owns (upper-right,
/// right, upper-left) that is the hex, then the neighbour, and the hex's vertices
/// `i`, `i + 1`; for the other three the neighbour comes first and the hex's
/// vertices come in the reverse order.
pub proof fn lemma_hex_edges_list_in_order(c: HexCoord)
    requires
        c.neighbors_fit(),
    ensures
        forall|i: int|
            0 <= i < 6 ==> {
                let e = #[trigger] c.edge_seq()[i];
                let n = c.neighbor_seq()[i];
                let v0 = c.vertex_seq()[i];
                let v1 = c.vertex_seq()[(i + 1) % 6];
                if i == 0 || i == 1 || i == 5 {
                    &&& e.0 == c
                    &&& edge_hexes(e) == seq![c, n]
                    &&& edge_verts(e) == seq![v0, v1]
                } else {
                    &&& e.0 == n
                    &&& edge_hexes(e) == seq![n, c]
                    &&& edge_verts(e) == seq![v1, v0]
                }
            },
{
    assert forall|i: int| 0 <= i < 6 implies {
        let e = #[trigger] c.edge_seq()[i];
        let n = c.neighbor_seq()[i];
        let v0 = c.vertex_seq()[i];
        let v1 = c.vertex_seq()[(i + 1) % 6];
        if i == 0 || i == 1 || i == 5 {
            &&& e.0 == c
            &&& edge_hexes(e) == seq![c, n]
            &&& edge_verts(e) == seq![v0, v1]
        } else {
            &&& e.0 == n
            &&& edge_hexes(e) == seq![n, c]
            &&& edge_verts(e) == seq![v1, v0]
        }
    } by {
        if i == 0 {
        } else if i == 1 {
        } else if i == 2 {
        } else if i == 3 {
        } else if i == 4 {
        } else {
        }
    }
}

/// Around a hex, each of its six vertices lists the three hexes meeting there in a
/// fixed arrangement of the hex `c` and its neighbours `n[k]` (clockwise from the
/// upper-right): top `[n5, n0, c]`, upper-right `[n0, c, n1]`, lower-right
/// `[c, n1, n2]`, bottom `[c, n3, n2]`, lower-left `[n4, c, n3]`, upper-left `[n5, n4, c]`.
pub proof fn lemma_hex_vertices_list_hexes_in_order(c: HexCoord)
    requires
        c.neighbors_fit(),
    ensures
        ({
            let n = c.neighbor_seq();
            let vs = c.vertex_seq();
            &&& vert_hexes(vs[0]) == seq![n[5], n[0], c]
            &&& vert_hexes(vs[1]) == seq![n[0], c, n[1]]
            &&& vert_hexes(vs[2]) == seq![c, n[1], n[2]]
            &&& vert_hexes(vs[3]) == seq![c, n[3], n[2]]
            &&& vert_hexes(vs[4]) == seq![n[4], c, n[3]]
            &&& vert_hexes(vs[5]) == seq![n[5], n[4], c]
        }),
{
}

/// The upper-left edge `(o, TopLeft)` lists, as its third and fourth neighbouring
/// edges, two other edges that meet it at one of its ends: the right edge of the
/// upper-left neighbour and the owner's upper-right edge.
pub proof fn lemma_top_left_neighboring_edges_meet(o: HexCoord)
    requires
        o.neighbors_fit(),
    ensures
        ({
            let e: HexEdge = (o, HexEdgeDiscriminator::TopLeft);
            forall|i: int|
                2 <= i < 4 ==> #[trigger] edge_edges(e)[i] != e && (is_endpoint(
                    edge_verts(e)[0],
                    edge_edges(e)[i],
                ) || is_endpoint(edge_verts(e)[1], edge_edges(e)[i]))
        }),
        edge_edges((o, HexEdgeDiscriminator::TopLeft))[2] == (
            o.top_left(),
            HexEdgeDiscriminator::Right,
        ),
        edge_edges((o, HexEdgeDiscriminator::TopLeft))[3] == (o, HexEdgeDiscriminator::TopRight),
{
}

/// What an edge lists moves with the edge: shifting an edge by `(dq, dr)` shifts
/// each of its hexes, neighbouring edges and ends by `(dq, dr)`, in place.
pub proof fn lemma_edge_lists_shift(e: HexEdge, dq: int, dr: int)
    requires
        shift_fits(e.0, dq, dr),
    ensures
        forall|i: int|
            0 <= i < 2 ==> #[trigger] edge_hexes(shift_edge(e, dq, dr))[i] == edge_hexes(
                e,
            )[i].offset(dq, dr),
        forall|i: int|
            0 <= i < 4 ==> #[trigger] edge_edges(shift_edge(e, dq, dr))[i] == shift_edge(
                edge_edges(e)[i],
                dq,
                dr,
            ),
        forall|i: int|
            0 <= i < 2 ==> #[trigger] edge_verts(shift_edge(e, dq, dr))[i] == shift_vert(
                edge_verts(e)[i],
                dq,
                dr,
            ),
{
    assert forall|i: int| 0 <= i < 4 implies #[trigger] edge_edges(shift_edge(e, dq, dr))[i]
        == shift_edge(edge_edges(e)[i], dq, dr) by {
        if i == 0 {
        } else if i == 1 {
        } else if i == 2 {
        } else {
        }
    }
}

/// What a vertex lists moves with the vertex: shifting a vertex by `(dq, dr)` shifts
/// each of its hexes, edges and neighbouring vertices by `(dq, dr)`, in place.
pub proof fn lemma_vert_lists_shift(v: HexVert, dq: int, dr: int)
    requires
        shift_fits(v.0, dq, dr),
    ensures
        forall|i: int|
            0 <= i < 3 ==> #[trigger] vert_hexes(shift_vert(v, dq, dr))[i] == vert_hexes(
                v,
            )[i].offset(dq, dr),
        forall|i: int|
            0 <= i < 3 ==> #[trigger] vert_edges(shift_vert(v, dq, dr))[i] == shift_edge(
                vert_edges(v)[i],
                dq,
                dr,
            ),
        forall|i: int|
            0 <= i < 3 ==> #[trigger] vert_verts(shift_vert(v, dq, dr))[i] == shift_vert(
                vert_verts(v)[i],
                dq,
                dr,
            ),
{
}

} // verus!
