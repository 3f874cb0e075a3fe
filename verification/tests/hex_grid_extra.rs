use bevy_hex_coords::{
    HexCoord, HexEdge, HexEdgeDiscriminator, HexEdgeImpl, HexVert, HexVertDiscriminator,
    HexVertImpl,
};

fn hc(q: i32, r: i32) -> HexCoord {
    HexCoord::new(q, r)
}

#[test]
fn constructor_and_constants() {
    let c = HexCoord::new(7, -4);
    assert_eq!(c.q, 7);
    assert_eq!(c.r, -4);
    assert_eq!(HexCoord::zero(), hc(0, 0));
    assert_eq!(HexCoord::one(), hc(1, 1));
    assert_eq!(HexCoord::dir_left(), hc(1, 0));
    assert_eq!(HexCoord::dir_right(), hc(-1, 0));
    assert_eq!(HexCoord::dir_up_left(), hc(0, 1));
    assert_eq!(HexCoord::dir_up_right(), hc(-1, 1));
    assert_eq!(HexCoord::dir_down_left(), hc(1, -1));
    assert_eq!(HexCoord::dir_down_right(), hc(0, -1));
    assert_eq!(HexCoord::default(), hc(0, 0));
}

#[test]
fn arithmetic_exact_values() {
    assert_eq!(hc(3, -2) + hc(-5, 7), hc(-2, 5));
    assert_eq!(hc(3, -2) - hc(-5, 7), hc(8, -9));
    assert_eq!(hc(3, -2) * 4, hc(12, -8));
    assert_eq!(-3 * hc(3, -2), hc(-9, 6));
    assert_eq!(-hc(3, -2), hc(-3, 2));
}

#[test]
fn arithmetic_laws_on_values() {
    let a = hc(11, -6);
    let b = hc(-4, 9);
    assert_eq!(a + b, b + a);
    assert_eq!((a + b) - b, a);
    assert_eq!(a - a, HexCoord::zero());
    assert_eq!(a + a, a * 2);
    assert_eq!(a + (-a), HexCoord::zero());
    assert_eq!(5 * a, a * 5);
}

#[test]
fn directional_steps_exact() {
    let c = hc(5, -2);
    assert_eq!(c.top_right(), hc(4, -1));
    assert_eq!(c.right(), hc(4, -2));
    assert_eq!(c.bottom_right(), hc(5, -3));
    assert_eq!(c.bottom_left(), hc(6, -3));
    assert_eq!(c.left(), hc(6, -2));
    assert_eq!(c.top_left(), hc(5, -1));
}

#[test]
fn opposite_steps_cancel_on_values() {
    let c = hc(-8, 13);
    assert_eq!(c.top_right().bottom_left(), c);
    assert_eq!(c.right().left(), c);
    assert_eq!(c.bottom_right().top_left(), c);
    assert_eq!(c.bottom_left().top_right(), c);
    assert_eq!(c.left().right(), c);
    assert_eq!(c.top_left().bottom_right(), c);
}

#[test]
fn neighbors_at_range_edge() {
    let c = hc(i32::MAX - 1, i32::MIN + 1);
    let n = c.neighbors();
    assert_eq!(n[0], hc(i32::MAX - 2, i32::MIN + 2));
    assert_eq!(n[4], hc(i32::MAX, i32::MIN + 1));
    assert_eq!(n[2], hc(i32::MAX - 1, i32::MIN));
}

#[test]
fn edges_exact() {
    let c = hc(2, 3);
    assert_eq!(
        c.edges(),
        [
            (hc(2, 3), HexEdgeDiscriminator::TopRight),
            (hc(2, 3), HexEdgeDiscriminator::Right),
            (hc(2, 2), HexEdgeDiscriminator::TopLeft),
            (hc(3, 2), HexEdgeDiscriminator::TopRight),
            (hc(3, 3), HexEdgeDiscriminator::Right),
            (hc(2, 3), HexEdgeDiscriminator::TopLeft),
        ]
    );
}

#[test]
fn vertices_exact() {
    let c = hc(2, 3);
    assert_eq!(
        c.vertices(),
        [
            (hc(2, 3), HexVertDiscriminator::Top),
            (hc(2, 3), HexVertDiscriminator::TopRight),
            (hc(2, 2), HexVertDiscriminator::Top),
            (hc(3, 2), HexVertDiscriminator::TopRight),
            (hc(3, 2), HexVertDiscriminator::Top),
            (hc(3, 3), HexVertDiscriminator::TopRight),
        ]
    );
}

#[test]
fn shared_edges_have_one_handle() {
    let c = hc(-3, 4);
    assert_eq!(c.top_right_edge(), c.top_right().bottom_left_edge());
    assert_eq!(c.right_edge(), c.right().left_edge());
    assert_eq!(c.bottom_right_edge(), c.bottom_right().top_left_edge());
    assert_eq!(c.bottom_left_edge(), c.bottom_left().top_right_edge());
    assert_eq!(c.left_edge(), c.left().right_edge());
    assert_eq!(c.top_left_edge(), c.top_left().bottom_right_edge());
}

#[test]
fn shared_vertices_have_one_handle() {
    let c = hc(4, -1);
    assert_eq!(c.top_vert(), c.top_left().bottom_right_vert());
    assert_eq!(c.top_vert(), c.top_right().bottom_left_vert());
    assert_eq!(c.top_right_vert(), c.top_right().bottom_vert());
    assert_eq!(c.top_right_vert(), c.right().top_left_vert());
    assert_eq!(c.bottom_right_vert(), c.right().bottom_left_vert());
    assert_eq!(c.bottom_right_vert(), c.bottom_right().top_vert());
    assert_eq!(c.bottom_vert(), c.bottom_right().top_left_vert());
    assert_eq!(c.bottom_vert(), c.bottom_left().top_right_vert());
    assert_eq!(c.bottom_left_vert(), c.bottom_left().top_vert());
    assert_eq!(c.bottom_left_vert(), c.left().bottom_right_vert());
    assert_eq!(c.top_left_vert(), c.left().top_right_vert());
    assert_eq!(c.top_left_vert(), c.top_left().bottom_vert());
}

#[test]
fn edge_accessors() {
    let e: HexEdge = (hc(1, 2), HexEdgeDiscriminator::Right);
    assert_eq!(e.origin(), hc(1, 2));
    assert_eq!(e.edge(), HexEdgeDiscriminator::Right);
    let v: HexVert = (hc(-1, 5), HexVertDiscriminator::TopRight);
    assert_eq!(v.origin(), hc(-1, 5));
    assert_eq!(v.vert(), HexVertDiscriminator::TopRight);
}

#[test]
fn neighboring_edges_exact() {
    let c = hc(0, 0);
    assert_eq!(
        c.top_right_edge().neighboring_edges(),
        [
            (hc(0, 1), HexEdgeDiscriminator::Right),
            (hc(0, 0), HexEdgeDiscriminator::TopLeft),
            (hc(-1, 0), HexEdgeDiscriminator::TopLeft),
            (hc(0, 0), HexEdgeDiscriminator::Right),
        ]
    );
    assert_eq!(
        c.right_edge().neighboring_edges(),
        [
            (hc(0, 0), HexEdgeDiscriminator::TopRight),
            (hc(-1, 0), HexEdgeDiscriminator::TopLeft),
            (hc(0, -1), HexEdgeDiscriminator::TopLeft),
            (hc(0, -1), HexEdgeDiscriminator::TopRight),
        ]
    );
    // The upper-left case lists the right neighbour's upper-right and right edges.
    assert_eq!(
        c.top_left_edge().neighboring_edges(),
        [
            (hc(-1, 0), HexEdgeDiscriminator::TopRight),
            (hc(-1, 0), HexEdgeDiscriminator::Right),
            (hc(0, 1), HexEdgeDiscriminator::Right),
            (hc(0, 0), HexEdgeDiscriminator::TopRight),
        ]
    );
}

#[test]
fn vertex_neighbor_verts_exact() {
    let c = hc(0, 0);
    assert_eq!(
        c.top_vert().neighbor_verts(),
        [
            (hc(0, 1), HexVertDiscriminator::TopRight),
            (hc(0, 0), HexVertDiscriminator::TopRight),
            (hc(1, 0), HexVertDiscriminator::TopRight),
        ]
    );
    assert_eq!(
        c.top_right_vert().neighbor_verts(),
        [
            (hc(0, 0), HexVertDiscriminator::Top),
            (hc(-1, 0), HexVertDiscriminator::Top),
            (hc(0, -1), HexVertDiscriminator::Top),
        ]
    );
}

#[test]
fn vertex_edges_list_the_vertex_as_endpoint() {
    let c = hc(3, -5);
    for v in [c.top_vert(), c.top_right_vert()] {
        for e in v.neighbor_edges() {
            assert!(e.neighboring_verts().contains(&v));
        }
    }
}

#[test]
fn rhombus_grid_counts_each_shared_feature_once() {
    // A 7 x 7 rhombus of hexes has 3n^2 + 4n - 1 edges and 2n^2 + 4n vertices.
    let mut edges = std::collections::HashSet::new();
    let mut verts = std::collections::HashSet::new();
    for q in -3..=3 {
        for r in -3..=3 {
            let c = hc(q, r);
            edges.extend(c.edges());
            verts.extend(c.vertices());
        }
    }
    assert_eq!(edges.len(), 174);
    assert_eq!(verts.len(), 126);
}
