use mesh_tools::vertex_mesh::{Vertex, Face, VertexMesh, MeshError};
use mesh_tools::modifiers::{
    flip_normals, remove_unused_vertices, remove_degenerate_triangles, weld_vertices, plan_subdivision, plan_extrusion,
};
use mesh_tools::primitives::{plane_indices, sphere_indices, torus_indices, cylinder_indices, cone_indices, icosahedron_indices};

const ONE: u32 = 0x3F80_0000;

fn vertex(x: u32) -> Vertex {
    Vertex::new([x, 0, 0])
}

fn mesh(n: usize, faces: &[[usize; 3]]) -> VertexMesh {
    let mut m = VertexMesh::new();
    for i in 0..n {
        m.add_vertex(vertex(i as u32));
    }
    for f in faces {
        m.triangles.push(Face { indices: *f });
    }
    m
}

fn indices(m: &VertexMesh) -> Vec<[usize; 3]> {
    m.triangles.iter().map(|f| f.indices).collect()
}

#[test]
fn add_triangle_checks_indices() {
    let mut m = mesh(3, &[]);
    assert_eq!(m.add_triangle(0, 1, 2).unwrap(), 0);
    assert!(matches!(m.add_triangle(0, 5, 9), Err(MeshError::InvalidIndex(5))));
    assert_eq!(m.triangles.len(), 1);
    assert!(!m.has_normals());
    m.vertices[1].normal = Some([0, ONE, 0]);
    assert!(m.has_normals());
}

#[test]
fn flip_normals_twice_restores_the_mesh() {
    let mut m = mesh(3, &[[0, 1, 2]]);
    m.vertices[0].normal = Some([0, ONE, 0]);
    flip_normals(&mut m);
    assert_eq!(m.vertices[0].normal, Some([0x8000_0000, 0xBF80_0000, 0x8000_0000]));
    assert_eq!(indices(&m), vec![[2, 1, 0]]);
    flip_normals(&mut m);
    assert_eq!(m.vertices[0].normal, Some([0, ONE, 0]));
    assert_eq!(indices(&m), vec![[0, 1, 2]]);
}

#[test]
fn remove_unused_vertices_renumbers() {
    let mut m = mesh(5, &[[0, 2, 4]]);
    assert_eq!(remove_unused_vertices(&mut m), 2);
    assert_eq!(m.vertices.len(), 3);
    assert_eq!(indices(&m), vec![[0, 1, 2]]);
    assert_eq!(m.vertices[1].position, [2, 0, 0]);
    assert_eq!(m.vertices[2].position, [4, 0, 0]);
    assert_eq!(remove_unused_vertices(&mut m), 0);
}

#[test]
fn remove_degenerate_triangles_keeps_order() {
    let mut m = mesh(4, &[[0, 1, 2], [0, 1, 1], [1, 2, 3], [0, 2, 3]]);
    let removed = remove_degenerate_triangles(&mut m, &[true, true, false, true]);
    assert_eq!(removed, 2);
    assert_eq!(indices(&m), vec![[0, 1, 2], [0, 2, 3]]);
}

#[test]
fn weld_vertices_merges_close_vertices() {
    let mut m = mesh(4, &[[0, 1, 2], [1, 2, 3]]);
    let close = vec![vec![], vec![true], vec![false, false], vec![false, false, true]];
    assert_eq!(weld_vertices(&mut m, &close).unwrap(), 2);
    assert_eq!(m.vertices.len(), 2);
    assert_eq!(m.vertices[1].position, [2, 0, 0]);
    assert_eq!(indices(&m), vec![[0, 0, 1], [0, 1, 1]]);
}

#[test]
fn weld_vertices_reports_bad_index() {
    let mut m = mesh(2, &[[0, 1, 7]]);
    let close = vec![vec![], vec![false]];
    assert!(matches!(weld_vertices(&mut m, &close), Err(MeshError::InvalidIndex(7))));
    assert_eq!(m.vertices.len(), 2);
    assert_eq!(indices(&m), vec![[0, 1, 7]]);
}

#[test]
fn subdivision_shares_midpoints() {
    let faces = [Face { indices: [0, 1, 2] }, Face { indices: [2, 1, 3] }];
    let (out, edges, err) = plan_subdivision(&faces, 4);
    assert_eq!(err, None);
    assert_eq!(edges, vec![(0, 1), (1, 2), (0, 2), (1, 3), (2, 3)]);
    let got: Vec<[usize; 3]> = out.iter().map(|f| f.indices).collect();
    assert_eq!(
        got,
        vec![[0, 4, 6], [4, 1, 5], [6, 5, 2], [4, 5, 6], [2, 5, 8], [5, 1, 7], [8, 7, 3], [5, 7, 8]]
    );
}

#[test]
fn subdivision_stops_at_bad_index() {
    let faces = [Face { indices: [0, 1, 9] }];
    let (out, edges, err) = plan_subdivision(&faces, 3);
    assert_eq!(err, Some(9));
    assert!(out.is_empty());
    assert_eq!(edges, vec![(0, 1)]);
}

#[test]
fn extrusion_copies_corners_once() {
    let tris = [Face { indices: [0, 1, 2] }, Face { indices: [0, 2, 3] }];
    let (extruded, added) = plan_extrusion(&tris, 4, &[0, 1]).unwrap();
    assert_eq!(extruded, vec![0, 1, 2, 3]);
    assert_eq!(added.len(), 14);
    assert_eq!(added[0].indices, [4, 6, 5]);
    assert_eq!(added[1].indices, [0, 1, 5]);
    assert!(matches!(plan_extrusion(&tris, 4, &[0, 5]), Err(MeshError::InvalidIndex(5))));
}

#[test]
fn primitive_indices() {
    assert_eq!(plane_indices(1, 1), vec![0, 1, 2, 1, 3, 2]);
    let plane = plane_indices(2, 3);
    assert_eq!(plane.len(), 2 * 3 * 6);
    assert!(plane.iter().all(|&i| i < 12));
    let sphere = sphere_indices(3, 2);
    assert_eq!(sphere.len(), 3 * 2 * 3);
    assert!(sphere.iter().all(|&i| i < 12));
    let torus = torus_indices(2, 3);
    assert_eq!(torus.len(), 2 * 3 * 6);
    assert_eq!(icosahedron_indices().len(), 60);
    assert!(icosahedron_indices().iter().all(|&i| i < 12));
    let cyl = cylinder_indices(3, 1, true);
    assert_eq!(cyl.len(), 3 * 6);
    let closed = cylinder_indices(3, 1, false);
    assert_eq!(closed.len(), 3 * 6 + 2 * 3 * 3);
    assert_eq!(cone_indices(3, 1, false), closed);
}
