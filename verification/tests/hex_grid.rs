use bevy_hex_coords::{HexCoord, HexEdgeImpl, HexVertImpl};

#[test]
fn identities() {
    // Directional balance
    assert_eq!(HexCoord::zero(), HexCoord::dir_left() + HexCoord::dir_right());
    assert_eq!(HexCoord::zero(), HexCoord::dir_up_left() + HexCoord::dir_down_right());
    assert_eq!(HexCoord::zero(), HexCoord::dir_down_left() + HexCoord::dir_up_right());

    // Negation/subtraction
    assert_eq!(HexCoord::zero(), HexCoord::dir_left() - HexCoord::dir_left());
    assert_eq!(HexCoord::zero(), HexCoord::dir_up_left() - HexCoord::dir_up_left());
    assert_eq!(HexCoord::zero(), HexCoord::dir_down_left() - HexCoord::dir_down_left());
    assert_eq!(HexCoord::zero(), HexCoord::dir_right() - HexCoord::dir_right());
    assert_eq!(HexCoord::zero(), HexCoord::dir_up_right() - HexCoord::dir_up_right());
    assert_eq!(HexCoord::zero(), HexCoord::dir_down_right() - HexCoord::dir_down_right());

    // Multiplication
    assert_eq!(HexCoord::one() + HexCoord::one(), HexCoord::one() * 2);
    assert_eq!(HexCoord::one() + HexCoord::one(), 2 * HexCoord::one());
}

#[test]
fn neighbors_match_directions() {
    let origin = HexCoord::zero();
    assert_eq!(
        origin.neighbors(),
        [
            HexCoord::dir_up_right(),
            HexCoord::dir_right(),
            HexCoord::dir_down_right(),
            HexCoord::dir_down_left(),
            HexCoord::dir_left(),
            HexCoord::dir_up_left(),
        ]
    );

    let shifted = HexCoord::new(2, -3);
    assert_eq!(
        shifted.neighbors(),
        [
            shifted.top_right(),
            shifted.right(),
            shifted.bottom_right(),
            shifted.bottom_left(),
            shifted.left(),
            shifted.top_left(),
        ]
    );
}

#[test]
fn edges_are_neighboring_hexes() {
    let origin = HexCoord::zero();

    assert_eq!(origin.top_left_edge().neighbors(), [origin, origin.top_left()]);
    assert_eq!(origin.top_right_edge().neighbors(), [origin, origin.top_right()]);
    assert_eq!(origin.right_edge().neighbors(), [origin, origin.right()]);
    assert_eq!(origin.bottom_left_edge().neighbors(), [origin.bottom_left(), origin]);
    assert_eq!(origin.bottom_right_edge().neighbors(), [origin.bottom_right(), origin]);
}

#[test]
fn edge_neighboring_verts_match_vertices() {
    let origin = HexCoord::zero();

    assert_eq!(
        origin.top_left_edge().neighboring_verts(),
        [origin.top_left_vert(), origin.top_vert()]
    );
    assert_eq!(
        origin.top_right_edge().neighboring_verts(),
        [origin.top_vert(), origin.top_right_vert()]
    );
    assert_eq!(
        origin.right_edge().neighboring_verts(),
        [origin.top_right_vert(), origin.bottom_right_vert()]
    );
    assert_eq!(
        origin.bottom_left_edge().neighboring_verts(),
        [origin.bottom_left_vert(), origin.bottom_vert()]
    );
    assert_eq!(
        origin.bottom_right_edge().neighboring_verts(),
        [origin.bottom_vert(), origin.bottom_right_vert()]
    );
}

#[test]
fn vertex_neighbors_are_adjacent_hexes() {
    let origin = HexCoord::zero();

    assert_eq!(
        origin.top_vert().neighbors(),
        [origin.top_left(), origin.top_right(), origin]
    );
    assert_eq!(
        origin.top_right_vert().neighbors(),
        [origin.top_right(), origin, origin.right()]
    );
    assert_eq!(
        origin.bottom_vert().neighbors(),
        [origin, origin.bottom_left(), origin.bottom_right()]
    );
}

#[test]
fn vertex_edges_round_trip() {
    let origin = HexCoord::zero();

    assert_eq!(
        origin.top_vert().neighbor_edges(),
        [
            origin.top_left().right_edge(),
            origin.top_left_edge(),
            origin.top_right_edge(),
        ]
    );
    assert_eq!(
        origin.top_right_vert().neighbor_edges(),
        [
            origin.right().top_left_edge(),
            origin.right_edge(),
            origin.top_right_edge(),
        ]
    );
    assert_eq!(
        origin.bottom_vert().neighbor_edges(),
        [
            origin.bottom_right().top_left_edge(),
            origin.bottom_left().right_edge(),
            origin.bottom_left().top_right_edge(),
        ]
    );
}
