//! Canonical edge handles and the topology around an edge.
use vstd::prelude::*;

use crate::coord::HexCoord;
use crate::vert::HexVert;

verus! {

/// Which of its three owned edges a hex refers to.
#[derive(Clone, Copy, Debug, PartialEq, Eq, Hash, Structural)]
pub enum HexEdgeDiscriminator {
    /// In a pointy-top configuration, the upper-left edge.
    TopLeft,
    /// In a pointy-top configuration, the upper-right edge.
    TopRight,
    /// In a pointy-top configuration, the rightmost edge.
    Right,
}

/// Canonical representation of a shared edge on the grid.
///
/// Some intuitive edges, such as [`HexCoord::bottom_left_edge`], are owned by a
/// neighbouring hex instead of the receiver. That canonicalization gives
/// every physical edge a single stable identifier.
pub type HexEdge = (HexCoord, HexEdgeDiscriminator);

/// The two hexes separated by an edge: its owner first, then the hex across it.
pub open spec fn edge_hexes(e: HexEdge) -> Seq<HexCoord> {
    let o = e.0;
    match e.1 {
        HexEdgeDiscriminator::TopLeft => seq![o, o.top_left()],
        HexEdgeDiscriminator::TopRight => seq![o, o.top_right()],
        HexEdgeDiscriminator::Right => seq![o, o.right()],
    }
}

/// The four edges that [`HexEdgeImpl::neighboring_edges`] lists for an edge.
pub open spec fn edge_edges(e: HexEdge) -> Seq<HexEdge> {
    let o = e.0;
    match e.1 {
        HexEdgeDiscriminator::TopLeft => seq![
            o.right().top_right_edge(),
            o.right().right_edge(),
            o.top_left().right_edge(),
            o.top_right_edge(),
        ],
        HexEdgeDiscriminator::TopRight => seq![
            o.top_left().right_edge(),
            o.top_left_edge(),
            o.right().top_left_edge(),
            o.right_edge(),
        ],
        HexEdgeDiscriminator::Right => seq![
            o.top_right_edge(),
            o.right().top_left_edge(),
            o.bottom_right().top_left_edge(),
            o.bottom_right().top_right_edge(),
        ],
    }
}

/// The two endpoints of an edge, in clockwise order around its owner.
pub open spec fn edge_verts(e: HexEdge) -> Seq<HexVert> {
    let o = e.0;
    match e.1 {
        HexEdgeDiscriminator::TopLeft => seq![o.top_left_vert(), o.top_vert()],
        HexEdgeDiscriminator::TopRight => seq![o.top_vert(), o.top_right_vert()],
        HexEdgeDiscriminator::Right => seq![o.top_right_vert(), o.bottom_right_vert()],
    }
}

/// Operations implemented for canonical edge handles.
///
/// This trait is implemented for [`HexEdge`] rather than a dedicated struct so
/// edges remain a compact tuple in storage while still exposing semantic
/// helpers.
pub trait HexEdgeImpl {
    /// The hexes that [`Self::neighbors`] computes are representable.
    spec fn neighbors_fit(&self) -> bool;

    /// The hexes that [`Self::neighboring_edges`] computes are representable.
    spec fn neighboring_edges_fit(&self) -> bool;

    /// The hexes that [`Self::neighboring_verts`] computes are representable.
    spec fn neighboring_verts_fit(&self) -> bool;

    fn origin(&self) -> HexCoord;

    fn edge(&self) -> HexEdgeDiscriminator;

    fn neighbors(&self) -> [HexCoord; 2]
        requires
            self.neighbors_fit(),
    ;

    fn neighboring_edges(&self) -> [HexEdge; 4]
        requires
            self.neighboring_edges_fit(),
    ;

    fn neighboring_verts(&self) -> [HexVert; 2]
        requires
            self.neighboring_verts_fit(),
    ;
}

impl HexEdgeImpl for HexEdge {
    open spec fn neighbors_fit(&self) -> bool {
        match self.1 {
            HexEdgeDiscriminator::TopLeft => self.0.fits(0, 1),
            HexEdgeDiscriminator::TopRight => self.0.fits(-1, 1),
            HexEdgeDiscriminator::Right => self.0.fits(-1, 0),
        }
    }

    open spec fn neighboring_edges_fit(&self) -> bool {
        match self.1 {
            HexEdgeDiscriminator::TopLeft => self.0.fits(-1, 0) && self.0.fits(0, 1),
            HexEdgeDiscriminator::TopRight => self.0.fits(0, 1) && self.0.fits(-1, 0),
            HexEdgeDiscriminator::Right => self.0.fits(-1, 0) && self.0.fits(0, -1),
        }
    }

    open spec fn neighboring_verts_fit(&self) -> bool {
        match self.1 {
            HexEdgeDiscriminator::TopLeft => self.0.fits(1, 0),
            HexEdgeDiscriminator::TopRight => true,
            HexEdgeDiscriminator::Right => self.0.fits(0, -1),
        }
    }

    /// The hex that owns this edge.
    fn origin(&self) -> (res: HexCoord)
        ensures
            res == self.0,
    {
        self.0
    }

    /// Which of its owner's edges this is.
    fn edge(&self) -> (res: HexEdgeDiscriminator)
        ensures
            res == self.1,
    {
        self.1
    }

    /// The two hexes this edge separates: the owner, then the hex across the edge.
    fn neighbors(&self) -> (res: [HexCoord; 2])
        ensures
            res@ == edge_hexes(*self),
    {
        [
            self.origin(),
            match self.edge() {
                HexEdgeDiscriminator::TopLeft => self.origin().top_left(),
                HexEdgeDiscriminator::TopRight => self.origin().top_right(),
                HexEdgeDiscriminator::Right => self.origin().right(),
            },
        ]
    }

    /// Four edges listed for this edge (see [`edge_edges`]).
    fn neighboring_edges(&self) -> (res: [HexEdge; 4])
        ensures
            res@ == edge_edges(*self),
    {
        match self.edge() {
            HexEdgeDiscriminator::TopLeft => {
                let right = self.origin().right();
                [
                    right.top_right_edge(),
                    right.right_edge(),
                    self.origin().top_left().right_edge(),
                    self.origin().top_right_edge(),
                ]
            },
            HexEdgeDiscriminator::TopRight => [
                self.origin().top_left().right_edge(),
                self.origin().top_left_edge(),
                self.origin().right().top_left_edge(),
                self.origin().right_edge(),
            ],
            HexEdgeDiscriminator::Right => {
                let bottom_right = self.origin().bottom_right();
                [
                    self.origin().top_right_edge(),
                    self.origin().right().top_left_edge(),
                    bottom_right.top_left_edge(),
                    bottom_right.top_right_edge(),
                ]
            },
        }
    }

    /// The two endpoints of this edge.
    fn neighboring_verts(&self) -> (res: [HexVert; 2])
        ensures
            res@ == edge_verts(*self),
    {
        match self.edge() {
            HexEdgeDiscriminator::TopLeft => [
                self.origin().top_left_vert(),
                self.origin().top_vert(),
            ],
            HexEdgeDiscriminator::TopRight => [
                self.origin().top_vert(),
                self.origin().top_right_vert(),
            ],
            HexEdgeDiscriminator::Right => [
                self.origin().top_right_vert(),
                self.origin().bottom_right_vert(),
            ],
        }
    }
}

} // verus!
