//! Axial hex coordinates, their arithmetic, and the six grid directions.
use vstd::prelude::*;
use vstd::std_specs::ops::AddSpecImpl;
use vstd::std_specs::ops::MulSpecImpl;
use vstd::std_specs::ops::NegSpecImpl;
use vstd::std_specs::ops::SubSpecImpl;

use crate::edge::{HexEdge, HexEdgeDiscriminator};
use crate::vert::{HexVert, HexVertDiscriminator};

verus! {

/// Axial coordinates for referencing hex tiles on a pointy-top grid.
///
/// This stores the `q` and `r` axes and omits the redundant cube axis `s`,
/// which can always be recovered as `-(q + r)` (see [`HexCoord::s`]).
#[derive(Clone, Copy, Debug, PartialEq, Eq, Hash, Structural)]
pub struct HexCoord {
    /// Axial `q` component.
    pub q: i32,
    /// Axial `r` component.
    pub r: i32,
}

impl HexCoord {
    /// The third cube axis, which is not stored: `q + r + s == 0`.
    pub open spec fn s(self) -> int {
        -(self.q + self.r)
    }

    /// Moving by `(dq, dr)` from this hex stays within the `i32` range of both axes.
    pub open spec fn fits(self, dq: int, dr: int) -> bool {
        &&& i32::MIN <= self.q + dq <= i32::MAX
        &&& i32::MIN <= self.r + dr <= i32::MAX
    }

    /// The hex reached by moving `(dq, dr)` from this one (meaningful when [`Self::fits`]).
    pub open spec fn offset(self, dq: int, dr: int) -> HexCoord {
        HexCoord { q: (self.q + dq) as i32, r: (self.r + dr) as i32 }
    }

    /// Component-wise sum of two coordinates.
    pub open spec fn sum(self, rhs: HexCoord) -> HexCoord {
        self.offset(rhs.q as int, rhs.r as int)
    }

    /// Component-wise difference of two coordinates.
    pub open spec fn difference(self, rhs: HexCoord) -> HexCoord {
        self.offset(-rhs.q, -rhs.r)
    }

    /// Both components multiplied by `k` stay within the `i32` range.
    pub open spec fn scale_fits(self, k: int) -> bool {
        &&& i32::MIN <= self.q * k <= i32::MAX
        &&& i32::MIN <= self.r * k <= i32::MAX
    }

    /// Both components multiplied by `k`.
    pub open spec fn scaled(self, k: int) -> HexCoord {
        HexCoord { q: (self.q * k) as i32, r: (self.r * k) as i32 }
    }

    /// All six adjacent hexes are representable.
    pub open spec fn neighbors_fit(self) -> bool {
        &&& self.fits(-1, 1)
        &&& self.fits(-1, 0)
        &&& self.fits(0, -1)
        &&& self.fits(1, -1)
        &&& self.fits(1, 0)
        &&& self.fits(0, 1)
    }

    /// The three neighbours that own some of this hex's edges and vertices
    /// (lower-right, lower-left and left) are representable.
    pub open spec fn shared_owners_fit(self) -> bool {
        &&& self.fits(0, -1)
        &&& self.fits(1, -1)
        &&& self.fits(1, 0)
    }

    /// The six adjacent hexes in clockwise order starting at the top-right.
    pub open spec fn neighbor_seq(self) -> Seq<HexCoord> {
        seq![
            self.top_right(),
            self.right(),
            self.bottom_right(),
            self.bottom_left(),
            self.left(),
            self.top_left(),
        ]
    }

    /// The six boundary edges in clockwise order starting at the top-right.
    pub open spec fn edge_seq(self) -> Seq<HexEdge> {
        seq![
            self.top_right_edge(),
            self.right_edge(),
            self.bottom_right_edge(),
            self.bottom_left_edge(),
            self.left_edge(),
            self.top_left_edge(),
        ]
    }

    /// The six boundary vertices in clockwise order starting at the top.
    pub open spec fn vertex_seq(self) -> Seq<HexVert> {
        seq![
            self.top_vert(),
            self.top_right_vert(),
            self.bottom_right_vert(),
            self.bottom_vert(),
            self.bottom_left_vert(),
            self.top_left_vert(),
        ]
    }

    #[verifier::allow_in_spec]
    pub fn new(q: i32, r: i32) -> Self
        returns
            (HexCoord { q, r }),
    {
        HexCoord { q, r }
    }

    /// The origin `(0, 0)`.
    #[verifier::allow_in_spec]
    pub fn zero() -> Self
        returns
            (HexCoord { q: 0, r: 0 }),
    {
        HexCoord::new(0, 0)
    }

    /// The coordinate `(1, 1)`.
    #[verifier::allow_in_spec]
    pub fn one() -> Self
        returns
            (HexCoord { q: 1, r: 1 }),
    {
        HexCoord::new(1, 1)
    }

    /// The step towards the left neighbour.
    #[verifier::allow_in_spec]
    pub fn dir_left() -> Self
        returns
            (HexCoord { q: 1, r: 0 }),
    {
        HexCoord::new(1, 0)
    }

    /// The step towards the right neighbour.
    #[verifier::allow_in_spec]
    pub fn dir_right() -> Self
        returns
            (HexCoord { q: -1i32, r: 0 }),
    {
        HexCoord::new(-1, 0)
    }

    /// The step towards the upper-left neighbour.
    #[verifier::allow_in_spec]
    pub fn dir_up_left() -> Self
        returns
            (HexCoord { q: 0, r: 1 }),
    {
        HexCoord::new(0, 1)
    }

    /// The step towards the upper-right neighbour.
    #[verifier::allow_in_spec]
    pub fn dir_up_right() -> Self
        returns
            (HexCoord { q: -1i32, r: 1 }),
    {
        HexCoord::new(-1, 1)
    }

    /// The step towards the lower-left neighbour.
    #[verifier::allow_in_spec]
    pub fn dir_down_left() -> Self
        returns
            (HexCoord { q: 1, r: -1i32 }),
    {
        HexCoord::new(1, -1)
    }

    /// The step towards the lower-right neighbour.
    #[verifier::allow_in_spec]
    pub fn dir_down_right() -> Self
        returns
            (HexCoord { q: 0, r: -1i32 }),
    {
        HexCoord::new(0, -1)
    }

    fn plus(&self, rhs: Self) -> (res: Self)
        requires
            self.fits(rhs.q as int, rhs.r as int),
        ensures
            res == self.sum(rhs),
    {
        Self::new(self.q + rhs.q, self.r + rhs.r)
    }

    fn minus(&self, rhs: Self) -> (res: Self)
        requires
            self.fits(-rhs.q, -rhs.r),
        ensures
            res == self.difference(rhs),
    {
        Self::new(self.q - rhs.q, self.r - rhs.r)
    }

    fn times(&self, rhs: i32) -> (res: Self)
        requires
            self.scale_fits(rhs as int),
        ensures
            res == self.scaled(rhs as int),
    {
        Self::new(self.q * rhs, self.r * rhs)
    }

    fn negated(&self) -> (res: Self)
        requires
            self.scale_fits(-1),
        ensures
            res == self.scaled(-1),
    {
        self.times(-1)
    }

    /// The upper-right neighbour.
    #[verifier::allow_in_spec]
    pub fn top_right(&self) -> Self
        requires
            self.fits(-1, 1),
        returns
            self.offset(-1, 1),
    {
        self.plus(Self::dir_up_right())
    }

    /// The right neighbour.
    #[verifier::allow_in_spec]
    pub fn right(&self) -> Self
        requires
            self.fits(-1, 0),
        returns
            self.offset(-1, 0),
    {
        self.plus(Self::dir_right())
    }

    /// The lower-right neighbour.
    #[verifier::allow_in_spec]
    pub fn bottom_right(&self) -> Self
        requires
            self.fits(0, -1),
        returns
            self.offset(0, -1),
    {
        self.plus(Self::dir_down_right())
    }

    /// The lower-left neighbour.
    #[verifier::allow_in_spec]
    pub fn bottom_left(&self) -> Self
        requires
            self.fits(1, -1),
        returns
            self.offset(1, -1),
    {
        self.plus(Self::dir_down_left())
    }

    /// The left neighbour.
    #[verifier::allow_in_spec]
    pub fn left(&self) -> Self
        requires
            self.fits(1, 0),
        returns
            self.offset(1, 0),
    {
        self.plus(Self::dir_left())
    }

    /// The upper-left neighbour.
    #[verifier::allow_in_spec]
    pub fn top_left(&self) -> Self
        requires
            self.fits(0, 1),
        returns
            self.offset(0, 1),
    {
        self.plus(Self::dir_up_left())
    }

    /// Returns all six adjacent hexes in clockwise order starting at top-right.
    pub fn neighbors(&self) -> (res: [Self; 6])
        requires
            self.neighbors_fit(),
        ensures
            res@ == self.neighbor_seq(),
    {
        [
            self.top_right(),
            self.right(),
            self.bottom_right(),
            self.bottom_left(),
            self.left(),
            self.top_left(),
        ]
    }

    /// Returns the canonical handle for the upper-right edge of this hex.
    #[verifier::allow_in_spec]
    pub fn top_right_edge(&self) -> HexEdge
        returns
            (*self, HexEdgeDiscriminator::TopRight),
    {
        (*self, HexEdgeDiscriminator::TopRight)
    }

    /// Returns the canonical handle for the right edge of this hex.
    #[verifier::allow_in_spec]
    pub fn right_edge(&self) -> HexEdge
        returns
            (*self, HexEdgeDiscriminator::Right),
    {
        (*self, HexEdgeDiscriminator::Right)
    }

    /// Returns the canonical handle for the lower-right edge of this hex.
    ///
    /// This edge is owned by the lower-right neighbour as that neighbour's
    /// top-left edge.
    #[verifier::allow_in_spec]
    pub fn bottom_right_edge(&self) -> HexEdge
        requires
            self.fits(0, -1),
        returns
            (self.bottom_right(), HexEdgeDiscriminator::TopLeft),
    {
        (self.bottom_right(), HexEdgeDiscriminator::TopLeft)
    }

    /// Returns the canonical handle for the lower-left edge of this hex.
    ///
    /// This edge is owned by the lower-left neighbour as that neighbour's
    /// top-right edge.
    #[verifier::allow_in_spec]
    pub fn bottom_left_edge(&self) -> HexEdge
        requires
            self.fits(1, -1),
        returns
            (self.bottom_left(), HexEdgeDiscriminator::TopRight),
    {
        (self.bottom_left(), HexEdgeDiscriminator::TopRight)
    }

    /// Returns the canonical handle for the left edge of this hex.
    ///
    /// This edge is owned by the left neighbour as that neighbour's right edge.
    #[verifier::allow_in_spec]
    pub fn left_edge(&self) -> HexEdge
        requires
            self.fits(1, 0),
        returns
            (self.left(), HexEdgeDiscriminator::Right),
    {
        (self.left(), HexEdgeDiscriminator::Right)
    }

    /// Returns the canonical handle for the upper-left edge of this hex.
    #[verifier::allow_in_spec]
    pub fn top_left_edge(&self) -> HexEdge
        returns
            (*self, HexEdgeDiscriminator::TopLeft),
    {
        (*self, HexEdgeDiscriminator::TopLeft)
    }

    /// Returns all six boundary edges in clockwise order starting at top-right.
    pub fn edges(&self) -> (res: [HexEdge; 6])
        requires
            self.shared_owners_fit(),
        ensures
            res@ == self.edge_seq(),
    {
        [
            self.top_right_edge(),
            self.right_edge(),
            self.bottom_right_edge(),
            self.bottom_left_edge(),
            self.left_edge(),
            self.top_left_edge(),
        ]
    }

    /// Returns the canonical handle for the top vertex of this hex.
    #[verifier::allow_in_spec]
    pub fn top_vert(&self) -> HexVert
        returns
            (*self, HexVertDiscriminator::Top),
    {
        (*self, HexVertDiscriminator::Top)
    }

    /// Returns the canonical handle for the upper-right vertex of this hex.
    #[verifier::allow_in_spec]
    pub fn top_right_vert(&self) -> HexVert
        returns
            (*self, HexVertDiscriminator::TopRight),
    {
        (*self, HexVertDiscriminator::TopRight)
    }

    /// Returns the canonical handle for the lower-right vertex of this hex.
    ///
    /// This vertex is owned by the lower-right neighbour as that hex's top vertex.
    #[verifier::allow_in_spec]
    pub fn bottom_right_vert(&self) -> HexVert
        requires
            self.fits(0, -1),
        returns
            (self.bottom_right(), HexVertDiscriminator::Top),
    {
        (self.bottom_right(), HexVertDiscriminator::Top)
    }

    /// Returns the canonical handle for the bottom vertex of this hex.
    ///
    /// This vertex is owned by the lower-left neighbour as that hex's
    /// upper-right vertex.
    #[verifier::allow_in_spec]
    pub fn bottom_vert(&self) -> HexVert
        requires
            self.fits(1, -1),
        returns
            (self.bottom_left(), HexVertDiscriminator::TopRight),
    {
        (self.bottom_left(), HexVertDiscriminator::TopRight)
    }

    /// Returns the canonical handle for the lower-left vertex of this hex.
    ///
    /// This vertex is owned by the lower-left neighbour as that hex's top vertex.
    #[verifier::allow_in_spec]
    pub fn bottom_left_vert(&self) -> HexVert
        requires
            self.fits(1, -1),
        returns
            (self.bottom_left(), HexVertDiscriminator::Top),
    {
        (self.bottom_left(), HexVertDiscriminator::Top)
    }

    /// Returns the canonical handle for the upper-left vertex of this hex.
    ///
    /// This vertex is owned by the left neighbour as that hex's upper-right vertex.
    #[verifier::allow_in_spec]
    pub fn top_left_vert(&self) -> HexVert
        requires
            self.fits(1, 0),
        returns
            (self.left(), HexVertDiscriminator::TopRight),
    {
        (self.left(), HexVertDiscriminator::TopRight)
    }

    /// Returns all six boundary vertices in clockwise order starting at top.
    pub fn vertices(&self) -> (res: [HexVert; 6])
        requires
            self.shared_owners_fit(),
        ensures
            res@ == self.vertex_seq(),
    {
        [
            self.top_vert(),
            self.top_right_vert(),
            self.bottom_right_vert(),
            self.bottom_vert(),
            self.bottom_left_vert(),
            self.top_left_vert(),
        ]
    }
}

impl Default for HexCoord {
    fn default() -> (res: Self)
        ensures
            res == HexCoord::zero(),
    {
        HexCoord::zero()
    }
}

impl std::ops::Add for HexCoord {
    type Output = Self;

    fn add(self, rhs: Self) -> (res: Self) {
        self.plus(rhs)
    }
}

impl AddSpecImpl for HexCoord {
    open spec fn obeys_add_spec() -> bool {
        true
    }

    open spec fn add_req(self, rhs: Self) -> bool {
        self.fits(rhs.q as int, rhs.r as int)
    }

    open spec fn add_spec(self, rhs: Self) -> Self {
        self.sum(rhs)
    }
}

impl std::ops::Sub for HexCoord {
    type Output = Self;

    fn sub(self, rhs: Self) -> (res: Self) {
        self.minus(rhs)
    }
}

impl SubSpecImpl for HexCoord {
    open spec fn obeys_sub_spec() -> bool {
        true
    }

    open spec fn sub_req(self, rhs: Self) -> bool {
        self.fits(-rhs.q, -rhs.r)
    }

    open spec fn sub_spec(self, rhs: Self) -> Self {
        self.difference(rhs)
    }
}

impl std::ops::Mul<i32> for HexCoord {
    type Output = Self;

    fn mul(self, rhs: i32) -> (res: Self) {
        self.times(rhs)
    }
}

impl MulSpecImpl<i32> for HexCoord {
    open spec fn obeys_mul_spec() -> bool {
        true
    }

    open spec fn mul_req(self, rhs: i32) -> bool {
        self.scale_fits(rhs as int)
    }

    open spec fn mul_spec(self, rhs: i32) -> Self {
        self.scaled(rhs as int)
    }
}

impl std::ops::Mul<HexCoord> for i32 {
    type Output = HexCoord;

    fn mul(self, rhs: HexCoord) -> (res: HexCoord) {
        rhs.times(self)
    }
}

impl MulSpecImpl<HexCoord> for i32 {
    open spec fn obeys_mul_spec() -> bool {
        true
    }

    open spec fn mul_req(self, rhs: HexCoord) -> bool {
        rhs.scale_fits(self as int)
    }

    open spec fn mul_spec(self, rhs: HexCoord) -> HexCoord {
        rhs.scaled(self as int)
    }
}

impl std::ops::Neg for HexCoord {
    type Output = Self;

    fn neg(self) -> (res: Self) {
        self.negated()
    }
}

impl NegSpecImpl for HexCoord {
    open spec fn obeys_neg_spec() -> bool {
        true
    }

    open spec fn neg_req(self) -> bool {
        self.scale_fits(-1)
    }

    open spec fn neg_spec(self) -> Self {
        self.scaled(-1)
    }
}

} // verus!
