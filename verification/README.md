# bevy_hex_coords

Compact coordinate types for pointy-top hexagonal grids, verified with Verus.

- `src/coord.rs` — `HexCoord` (axial `q`, `r`), its arithmetic and operators,
  the six neighbour steps, and the canonical edge and vertex handles of a hex.
- `src/edge.rs`, `src/vert.rs` — canonical `HexEdge` / `HexVert` handles and
  the topology around them (`HexEdgeImpl`, `HexVertImpl`).
- `src/geometry.rs` — a lattice model: hex centres, edge midpoints and vertex
  positions as integer points.
- `src/laws.rs` — proofs that each physical edge and vertex has exactly one
  handle, that shared features get the same handle from every incident hex,
  and the arithmetic identities of coordinates.
- `app/lib.rs` — the Bevy side: components, worldspace transforms (floating
  point) and the plugin that attaches them.
