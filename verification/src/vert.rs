//! Canonical vertex handles and the topology around a vertex.
use vstd::prelude::*;

use crate::coord::HexCoord;
use crate::edge::HexEdge;

verus! {

/// Which of its two owned vertices a hex refers to.
#[derive(Clone, Copy, Debug, PartialEq, Eq, Hash, Structural)]
pub enum HexVertDiscriminator {
    /// In a pointy-top configuration, the top vertex.
    Top,
    /// In a pointy-top configuration, the upper-right vertex.
    TopRight,
}

/// Canonical representation of a shared vertex on the grid.
///
/// As with [`HexEdge`], some apparent "local" vertices are represented by a
/// neighbouring hex so that each physical vertex has exactly one identifier.
pub type HexVert = (HexCoord, HexVertDiscriminator);

/// The three hexes that meet at a vertex, in the order [`HexVertImpl::neighbors`] lists them.
pub open spec fn vert_hexes(v: HexVert) -> Seq<HexCoord> {
    let o = v.0;
    match v.1 {
        HexVertDiscriminator::Top => seq![o.top_left(), o.top_right(), o],
        HexVertDiscriminator::TopRight => seq![o.top_right(), o, o.right()],
    }
}

/// The three edges that end at a vertex, in the order [`HexVertImpl::neighbor_edges`] lists them.
pub open spec fn vert_edges(v: HexVert) -> Seq<HexEdge> {
    let o = v.0;
    match v.1 {
        HexVertDiscriminator::Top => seq![
            o.top_left().right_edge(),
            o.top_left_edge(),
            o.top_right_edge(),
        ],
        HexVertDiscriminator::TopRight => seq![
            o.right().top_left_edge(),
            o.right_edge(),
            o.top_right_edge(),
        ],
    }
}

/// The three vertices one edge away from a vertex, in the order
/// [`HexVertImpl::neighbor_verts`] lists them.
pub open spec fn vert_verts(v: HexVert) -> Seq<HexVert> {
    let o = v.0;
    match v.1 {
        HexVertDiscriminator::Top => seq![
            o.top_left().top_right_vert(),
            o.top_right_vert(),
            o.top_left_vert(),
        ],
        HexVertDiscriminator::TopRight => seq![
            o.top_vert(),
            o.right().top_vert(),
            o.bottom_right_vert(),
        ],
    }
}

/// Operations implemented for canonical vertex handles.
///
/// As with [`crate::HexEdgeImpl`], this preserves the compact tuple representation
/// while still exposing grid-topology helpers.
pub trait HexVertImpl {
    /// The hexes that [`Self::neighbors`] computes are representable.
    spec fn neighbors_fit(&self) -> bool;

    /// The hexes that [`Self::neighbor_edges`] computes are representable.
    spec fn neighbor_edges_fit(&self) -> bool;

    /// The hexes that [`Self::neighbor_verts`] computes are representable.
    spec fn neighbor_verts_fit(&self) -> bool;

    fn origin(&self) -> HexCoord;

    fn vert(&self) -> HexVertDiscriminator;

    fn neighbors(&self) -> [HexCoord; 3]
        requires
            self.neighbors_fit(),
    ;

    fn neighbor_edges(&self) -> [HexEdge; 3]
        requires
            self.neighbor_edges_fit(),
    ;

    fn neighbor_verts(&self) -> [HexVert; 3]
        requires
            self.neighbor_verts_fit(),
    ;
}

impl HexVertImpl for HexVert {
    open spec fn neighbors_fit(&self) -> bool {
        match self.1 {
            HexVertDiscriminator::Top => self.0.fits(0, 1) && self.0.fits(-1, 1),
            HexVertDiscriminator::TopRight => self.0.fits(-1, 1) && self.0.fits(-1, 0),
        }
    }

    open spec fn neighbor_edges_fit(&self) -> bool {
        match self.1 {
            HexVertDiscriminator::Top => self.0.fits(0, 1),
            HexVertDiscriminator::TopRight => self.0.fits(-1, 0),
        }
    }

    open spec fn neighbor_verts_fit(&self) -> bool {
        match self.1 {
            HexVertDiscriminator::Top => self.0.fits(0, 1) && self.0.fits(1, 0),
            HexVertDiscriminator::TopRight => self.0.fits(-1, 0) && self.0.fits(0, -1),
        }
    }

    /// The hex that owns this vertex.
    fn origin(&self) -> (res: HexCoord)
        ensures
            res == self.0,
    {
        self.0
    }

    /// Which of its owner's vertices this is.
    fn vert(&self) -> (res: HexVertDiscriminator)
        ensures
            res == self.1,
    {
        self.1
    }

    /// The three hexes that meet at this vertex.
    fn neighbors(&self) -> (res: [HexCoord; 3])
        ensures
            res@ == vert_hexes(*self),
    {
        match self.vert() {
            HexVertDiscriminator::Top => [
                self.origin().top_left(),
                self.origin().top_right(),
                self.origin(),
            ],
            HexVertDiscriminator::TopRight => [
                self.origin().top_right(),
                self.origin(),
                self.origin().right(),
            ],
        }
    }

    /// The three edges that end at this vertex.
    fn neighbor_edges(&self) -> (res: [HexEdge; 3])
        ensures
            res@ == vert_edges(*self),
    {
        match self.vert() {
            HexVertDiscriminator::Top => [
                self.origin().top_left().right_edge(),
                self.origin().top_left_edge(),
                self.origin().top_right_edge(),
            ],
            HexVertDiscriminator::TopRight => [
                self.origin().right().top_left_edge(),
                self.origin().right_edge(),
                self.origin().top_right_edge(),
            ],
        }
    }

    /// The three vertices joined to this one by an edge.
    fn neighbor_verts(&self) -> (res: [HexVert; 3])
        ensures
            res@ == vert_verts(*self),
    {
        match self.vert() {
            HexVertDiscriminator::Top => [
                self.origin().top_left().top_right_vert(),
                self.origin().top_right_vert(),
                self.origin().top_left_vert(),
            ],
            HexVertDiscriminator::TopRight => [
                self.origin().top_vert(),
                self.origin().right().top_vert(),
                self.origin().bottom_right_vert(),
            ],
        }
    }
}

} // verus!
