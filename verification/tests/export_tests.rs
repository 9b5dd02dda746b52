use mesh_tools::vertex_mesh::{Vertex, Face, VertexMesh};
use mesh_tools::gltf::{GltfRoot, GlbExportOptions as StandaloneOptions, Material as StandaloneMaterial};
use mesh_tools::export::{
    export_to_glb, export_scene_to_glb_with_options, ExportError, GlbExportOptions, Material, MeshScene, SceneMesh,
};

const ONE: u32 = 0x3F80_0000;

fn triangle_mesh() -> VertexMesh {
    let mut m = VertexMesh::new();
    let mut v0 = Vertex::new([0, 0, 0]);
    v0.normal = Some([0, 0, ONE]);
    v0.uv = Some([0, 0]);
    m.add_vertex(v0);
    m.add_vertex(Vertex::new([ONE, 0, 0]));
    m.add_vertex(Vertex::new([0, ONE, 0]));
    m.add_triangle(0, 1, 2).unwrap();
    m
}

fn bounds() -> ([u32; 3], [u32; 3]) {
    ([0, 0, 0], [ONE, ONE, 0])
}

#[test]
fn from_mesh_lays_out_requested_attributes() {
    let mesh = triangle_mesh();
    let options = StandaloneOptions::default();
    let (doc, data) = GltfRoot::from_mesh_with_data(&mesh, &options, bounds());
    assert_eq!(doc.asset.version, "2.0");
    assert_eq!(doc.asset.generator.as_deref(), Some("mesh-tools"));
    let views = doc.buffer_views.as_ref().unwrap();
    let names: Vec<&str> = views.iter().map(|v| v.name.as_deref().unwrap()).collect();
    assert_eq!(names, vec!["positions", "normals", "texcoords", "indices"]);
    let offsets: Vec<Option<usize>> = views.iter().map(|v| v.byte_offset).collect();
    assert_eq!(offsets, vec![Some(0), Some(36), Some(72), Some(96)]);
    assert_eq!(views[3].byte_length, 6);
    assert_eq!(data.len(), 102);
    assert_eq!(doc.buffers.as_ref().unwrap()[0].byte_length, 102);
    let accessors = doc.accessors.as_ref().unwrap();
    assert_eq!(accessors[3].component_type, 5123);
    assert_eq!(accessors[3].count, 3);
    assert_eq!(accessors[0].max, Some(vec![ONE, ONE, 0]));
    let prim = &doc.meshes.as_ref().unwrap()[0].primitives[0];
    assert_eq!(prim.indices, Some(3));
    assert_eq!(prim.mode, Some(4));
    assert_eq!(prim.material, None);
    assert_eq!(&data[96..102], &[0, 0, 1, 0, 2, 0]);
    assert_eq!(&data[36..48], &[0, 0, 0, 0, 0, 0, 0, 0, 0, 0, 0x80, 0x3F]);
    assert_eq!(&data[48..60], &[0, 0, 0, 0, 0, 0, 0x80, 0x3F, 0, 0, 0, 0]);
}

#[test]
fn from_mesh_without_normals_skips_them() {
    let mut mesh = triangle_mesh();
    mesh.vertices[0].normal = None;
    let options = StandaloneOptions {
        include_normals: true,
        include_uvs: false,
        include_tangents: false,
        include_colors: false,
        material: Some(StandaloneMaterial {
            name: Some("m".to_string()),
            pbr_metallic_roughness: None,
            normal_texture: None,
            occlusion_texture: None,
            emissive_texture: None,
            emissive_factor: None,
            alpha_mode: None,
            alpha_cutoff: None,
            double_sided: None,
        }),
    };
    let doc = GltfRoot::from_mesh(&mesh, &options, bounds());
    assert_eq!(doc.accessors.as_ref().unwrap().len(), 2);
    let prim = &doc.meshes.as_ref().unwrap()[0].primitives[0];
    assert_eq!(prim.material, Some(0));
    assert_eq!(doc.materials.as_ref().unwrap()[0].name.as_deref(), Some("m"));
}

#[test]
fn export_to_glb_reports_missing_attributes() {
    let mut mesh = triangle_mesh();
    mesh.vertices[0].uv = None;
    match export_to_glb(&mesh, &GlbExportOptions::default(), bounds()) {
        Err(ExportError::MissingAttributes(m)) => assert_eq!(m, "Mesh doesn't have UVs but export_uvs is true"),
        _ => panic!("expected missing attributes"),
    }
    let mut opts = GlbExportOptions::default();
    opts.export_uvs = false;
    opts.export_colors = true;
    match export_to_glb(&mesh, &opts, bounds()) {
        Err(ExportError::MissingAttributes(m)) => assert_eq!(m, "Mesh doesn't have colors but export_colors is true"),
        _ => panic!("expected missing attributes"),
    }
}

#[test]
fn export_to_glb_lays_out_and_pads() {
    let mesh = triangle_mesh();
    let opts = GlbExportOptions::default();
    let (doc, bin) = export_to_glb(&mesh, &opts, bounds()).unwrap();
    assert_eq!(bin.len(), 104);
    assert_eq!(&bin[102..104], &[0, 0]);
    let views = doc.buffer_views.as_ref().unwrap();
    assert_eq!(views.len(), 4);
    assert_eq!(views[3].byte_offset, 96);
    assert_eq!(views[3].target, Some(34963));
    let prim = &doc.meshes.as_ref().unwrap()[0].primitives[0];
    let names: Vec<&str> = prim.attributes.iter().map(|(n, _)| n.as_str()).collect();
    assert_eq!(names, vec!["POSITION", "NORMAL", "TEXCOORD_0"]);
    assert_eq!(prim.material, Some(0));
    let mat = &doc.materials.as_ref().unwrap()[0];
    assert_eq!(mat.name.as_deref(), Some("Default Material"));
    assert_eq!(
        mat.pbr_metallic_roughness.as_ref().unwrap().base_color_factor,
        Some([0x3F33_3333, 0x3F33_3333, 0x3F33_3333, ONE])
    );
    assert_eq!(mat.double_sided, Some(true));
    assert_eq!(doc.nodes.as_ref().unwrap()[0].name.as_deref(), Some("mesh"));
    assert_eq!(doc.asset.generator.as_deref(), Some("mesh-tools GLB exporter"));
    assert_eq!(&bin[36..48], &[0, 0, 0, 0, 0, 0, 0, 0, 0, 0, 0x80, 0x3F]);
    assert_eq!(&bin[48..60], &[0, 0, 0, 0, 0, 0, 0, 0, 0, 0, 0x80, 0x3F]);
}

fn quad_mesh() -> VertexMesh {
    let mut m = VertexMesh::new();
    m.add_vertex(Vertex::new([0, 0, 0]));
    m.add_vertex(Vertex::new([ONE, 0, 0]));
    m.add_vertex(Vertex::new([ONE, ONE, 0]));
    m.add_vertex(Vertex::new([0, ONE, 0]));
    m.add_triangle(0, 1, 2).unwrap();
    m.add_triangle(0, 2, 3).unwrap();
    m
}

#[test]
fn scene_export_gives_each_mesh_its_own_accessors() {
    let red = Material { name: "red".to_string(), base_color: [ONE, 0, 0], metallic: 0, roughness: ONE, emissive: [0, 0, 0] };
    let scene = MeshScene {
        name: "s".to_string(),
        meshes: vec![
            SceneMesh { mesh: triangle_mesh(), material: Some(red) },
            SceneMesh { mesh: quad_mesh(), material: None },
        ],
    };
    let mut opts = GlbExportOptions::default();
    opts.export_uvs = false;
    let (doc, bin) = export_scene_to_glb_with_options(&scene, &opts, &[bounds(), bounds()]);
    assert_eq!(bin.len(), (36 + 36 + 12) + (48 + 48 + 24));
    let views = doc.buffer_views.as_ref().unwrap();
    assert_eq!(views.len(), 6);
    assert_eq!(views[3].byte_offset, 84);
    assert_eq!(views[5].byte_offset, 84 + 96);
    let accessors = doc.accessors.as_ref().unwrap();
    assert_eq!(accessors[2].component_type, 5125);
    assert_eq!(accessors[0].count, 3);
    assert_eq!(accessors[3].buffer_view, 3);
    assert_eq!(accessors[3].count, 4);
    assert_eq!(accessors[5].buffer_view, 5);
    assert_eq!(accessors[5].count, 6);
    let nodes = doc.nodes.as_ref().unwrap();
    assert_eq!(nodes[1].name.as_deref(), Some("Mesh_1"));
    assert_eq!(nodes[1].mesh, Some(1));
    assert_eq!(doc.scenes.as_ref().unwrap()[0].nodes, Some(vec![0, 1]));
    let mats = doc.materials.as_ref().unwrap();
    assert_eq!(mats[0].name.as_deref(), Some("red"));
    assert_eq!(mats[1].name.as_deref(), Some("Default Material"));
    let meshes = doc.meshes.as_ref().unwrap();
    let first = &meshes[0].primitives[0];
    assert_eq!(first.attributes, vec![("POSITION".to_string(), 0), ("NORMAL".to_string(), 1)]);
    assert_eq!(first.indices, Some(2));
    let second = &meshes[1].primitives[0];
    assert_eq!(second.material, Some(1));
    assert_eq!(second.attributes, vec![("POSITION".to_string(), 3), ("NORMAL".to_string(), 4)]);
    assert_eq!(second.indices, Some(5));
    assert_eq!(&bin[72..84], &[0, 0, 0, 0, 1, 0, 0, 0, 2, 0, 0, 0]);
    assert_eq!(&bin[84 + 12..84 + 24], &[0, 0, 0x80, 0x3F, 0, 0, 0, 0, 0, 0, 0, 0]);
}

#[test]
fn export_defaults() {
    let o = GlbExportOptions::default();
    assert!(o.export_normals && o.export_uvs && !o.export_tangents && !o.export_colors);
    assert_eq!(o.name, "mesh");
    assert_eq!(o.material.roughness, 0x3F66_6666);
    let s = StandaloneOptions::default();
    assert!(s.include_normals && s.include_uvs && !s.include_tangents && !s.include_colors);
    assert!(s.material.is_none());
}
