# mesh_tools

Building glTF 2.0 documents and packing them into GLB files, with the logic verified by Verus.

- `src/` — the verified library: the glTF document model and builder (scenes, nodes, meshes,
  accessors, buffer views, materials, textures, samplers, animations), the binary buffer
  layout, GLB framing, texture generation, primitive-shape index generation, the vertex/
  triangle mesh and its modifiers (flip, weld, unused-vertex and degenerate-triangle removal,
  subdivision and extrusion bookkeeping), and the standalone mesh/scene exporters. Floating-point
  values are carried as IEEE-754 bit patterns; the library never computes with them.
- `tests/` — tests of the library on concrete values.
- `app/` — what stays outside the verifier: serde copies of the document types, error types with
  `Display`, the floating-point geometry (shape vertices, transformations, normals, closeness and
  area tests, midpoints and extrusion offsets), `image::DynamicImage` conversions and file output.
