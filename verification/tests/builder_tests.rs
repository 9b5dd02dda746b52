use mesh_tools::builder::GltfBuilder;
use mesh_tools::error::GltfError;
use mesh_tools::animation::{AnimationPath, InterpolationType};
use mesh_tools::builder_primitives::{Triangle, triangles_from_indices, cube_face_triangles};
use mesh_tools::mesh::{create_attribute_mapping, texcoord_attribute_name, MeshBuilder};
use mesh_tools::material::{MaterialBuilder, create_basic_material, create_metallic_material};

const ONE: u32 = 0x3F80_0000;

#[test]
fn new_builder_is_empty_with_asset() {
    let b = GltfBuilder::new();
    assert_eq!(b.gltf.asset.version, "2.0");
    assert_eq!(b.gltf.asset.generator.as_deref(), Some("Rust glTF Export Library"));
    assert_eq!(b.gltf.nodes.as_ref().map(|n| n.len()), Some(0));
    assert!(b.buffer_data.is_empty());
}

#[test]
fn scenes_and_nodes_get_consecutive_indices() {
    let mut b = GltfBuilder::new();
    let n0 = b.add_node(Some("a".to_string()), None, Some([0, ONE, 0]), None, None);
    let n1 = b.add_node(Some("b".to_string()), None, None, None, None);
    assert_eq!((n0, n1), (0, 1));
    let s = b.add_scene(Some("scene".to_string()), Some(vec![n0, n1]));
    assert_eq!(s, 0);
    let nodes = b.gltf.nodes.as_ref().unwrap();
    assert_eq!(nodes[0].translation, Some([0, ONE, 0]));
    assert_eq!(nodes[1].name.as_deref(), Some("b"));
}

#[test]
fn add_child_to_node_adds_once_and_rejects_bad_indices() {
    let mut b = GltfBuilder::new();
    let parent = b.add_node(None, None, None, None, None);
    let child = b.add_node(None, None, None, None, None);
    assert!(b.add_child_to_node(parent, child).is_ok());
    assert!(b.add_child_to_node(parent, child).is_ok());
    assert_eq!(b.gltf.nodes.as_ref().unwrap()[parent].children, Some(vec![child]));
    assert!(matches!(b.add_child_to_node(parent, 7), Err(GltfError::InvalidIndex)));
    let mut empty = GltfBuilder::new();
    empty.gltf.nodes = None;
    match empty.add_child_to_node(0, 0) {
        Err(GltfError::InvalidData(m)) => assert_eq!(m, "No nodes in document"),
        other => panic!("unexpected {:?}", other),
    }
}

#[test]
fn node_hierarchy_lists_children() {
    let mut b = GltfBuilder::new();
    let c0 = b.add_node(None, None, None, None, None);
    let c1 = b.add_node(None, None, None, None, None);
    let p = b.create_node_hierarchy(Some("root".to_string()), None, None, None, vec![c0, c1]);
    assert_eq!(p, 2);
    let nodes = b.gltf.nodes.as_ref().unwrap();
    assert_eq!(nodes[p].children, Some(vec![c0, c1]));
    assert_eq!(nodes[p].mesh, None);
}

#[test]
fn buffer_data_is_aligned_to_four_bytes() {
    let mut b = GltfBuilder::new();
    assert_eq!(b.add_buffer_data(&[1, 2, 3]), (0, 3));
    assert_eq!(b.add_buffer_data(&[4, 5]), (4, 2));
    assert_eq!(b.buffer_data, vec![1, 2, 3, 0, 4, 5]);
    assert_eq!(b.gltf.buffers.as_ref().unwrap()[0].byte_length, 6);
}

#[test]
fn export_glb_bytes_holds_buffer() {
    let mut b = GltfBuilder::new();
    b.add_buffer_data(&[1, 2, 3, 4]);
    let out = b.export_glb_bytes(b"{}");
    assert_eq!(out.len(), 12 + 8 + 4 + 8 + 4);
    assert_eq!(&out[32..36], &[1, 2, 3, 4]);
}

#[test]
fn animation_names() {
    assert_eq!(AnimationPath::Translation.to_string(), "translation");
    assert_eq!(AnimationPath::Rotation.to_string(), "rotation");
    assert_eq!(AnimationPath::Scale.to_string(), "scale");
    assert_eq!(AnimationPath::Weights.to_string(), "weights");
    assert_eq!(InterpolationType::Linear.to_string(), "LINEAR");
    assert_eq!(InterpolationType::Step.to_string(), "STEP");
    assert_eq!(InterpolationType::CubicSpline.to_string(), "CUBICSPLINE");
}

#[test]
fn translation_animation_stores_times_and_values() {
    let mut b = GltfBuilder::new();
    let node = b.add_node(None, None, None, None, None);
    let anim = b.add_animation(Some("move".to_string()));
    let (channel, sampler) = b.create_translation_animation(
        anim,
        node,
        vec![0, ONE],
        vec![[0, 0, 0], [ONE, 0, 0]],
        InterpolationType::Linear,
    );
    assert_eq!((channel, sampler), (0, 0));
    assert_eq!(b.buffer_data.len(), 8 + 24);
    let accessors = b.gltf.accessors.as_ref().unwrap();
    assert_eq!(accessors.len(), 2);
    assert_eq!(accessors[0].type_, "SCALAR");
    assert_eq!(accessors[1].type_, "VEC3");
    assert_eq!(accessors[1].count, 2);
    let a = &b.gltf.animations.as_ref().unwrap()[anim];
    let ch = &a.channels.as_ref().unwrap()[0];
    assert_eq!(ch.target.path, "translation");
    assert_eq!(ch.target.node, node);
    assert_eq!(a.samplers.as_ref().unwrap()[0].interpolation.as_deref(), Some("LINEAR"));
}

#[test]
fn triangle_new_and_index_conversion() {
    let t = Triangle::new(1, 2, 3);
    assert_eq!(t, Triangle { a: 1, b: 2, c: 3 });
    let ts = triangles_from_indices(&[0, 1, 2, 2, 3, 0, 9]);
    assert_eq!(ts, vec![Triangle::new(0, 1, 2), Triangle::new(2, 3, 0)]);
    assert_eq!(cube_face_triangles().len(), 12);
    assert_eq!(cube_face_triangles()[11], Triangle::new(20, 22, 23));
}

#[test]
fn create_box_has_a_normal_per_face() {
    let mut b = GltfBuilder::new();
    let half = 0x3F00_0000u32;
    let neg = 0xBF00_0000u32;
    let mesh = b.create_box(half, ([neg, neg, neg], [half, half, half]));
    assert_eq!(mesh, 0);
    let m = &b.gltf.meshes.as_ref().unwrap()[0];
    let p = &m.primitives[0];
    assert_eq!(p.indices, Some(1));
    let names: Vec<&str> = p.attributes.iter().map(|(n, _)| n.as_str()).collect();
    assert_eq!(names, vec!["POSITION", "NORMAL", "TEXCOORD_0"]);
    let accessors = b.gltf.accessors.as_ref().unwrap();
    assert_eq!(accessors[0].count, 24);
    assert_eq!(accessors[0].min, Some(vec![neg, neg, neg]));
    assert_eq!(accessors[1].count, 36);
    assert_eq!(p.material, None);
    assert_eq!(&b.buffer_data[0..12], &[0, 0, 0, 0xBF, 0, 0, 0, 0xBF, 0, 0, 0, 0x3F]);
    // The normals: vertex 8 starts the top face (0, 1, 0), vertex 20 the left face (-1, 0, 0).
    let normal_accessor = p.attributes.iter().find(|(n, _)| n == "NORMAL").unwrap().1;
    assert_eq!(accessors[normal_accessor].count, 24);
    let view = &b.gltf.buffer_views.as_ref().unwrap()[accessors[normal_accessor].buffer_view];
    let at = |v: usize| view.byte_offset + 12 * v;
    assert_eq!(&b.buffer_data[at(0)..at(0) + 12], &[0, 0, 0, 0, 0, 0, 0, 0, 0, 0, 0x80, 0x3F]);
    assert_eq!(&b.buffer_data[at(8)..at(8) + 12], &[0, 0, 0, 0, 0, 0, 0x80, 0x3F, 0, 0, 0, 0]);
    assert_eq!(&b.buffer_data[at(20)..at(20) + 12], &[0, 0, 0x80, 0xBF, 0, 0, 0, 0, 0, 0, 0, 0]);
}

#[test]
fn create_box_with_material_has_face_normals() {
    let mut b = GltfBuilder::new();
    let half = ONE;
    let neg = 0xBF80_0000u32;
    let mesh = b.create_box_with_material(half, ([neg, neg, neg], [half, half, half]), Some(3));
    let p = &b.gltf.meshes.as_ref().unwrap()[mesh].primitives[0];
    assert_eq!(p.material, Some(3));
    let accessors = b.gltf.accessors.as_ref().unwrap();
    assert_eq!(accessors[0].count, 24);
    assert_eq!(accessors[2].count, 24);
}

#[test]
fn attribute_mapping_names() {
    let attrs = create_attribute_mapping(0, Some(1), Some(vec![2, 3, 4]));
    assert_eq!(
        attrs,
        vec![
            ("POSITION".to_string(), 0),
            ("NORMAL".to_string(), 1),
            ("TEXCOORD_0".to_string(), 2),
            ("TEXCOORD_1".to_string(), 3),
            ("TEXCOORD_2".to_string(), 4),
        ]
    );
    assert_eq!(texcoord_attribute_name(12), "TEXCOORD_12");
    assert_eq!(create_attribute_mapping(5, None, None), vec![("POSITION".to_string(), 5)]);
}

#[test]
fn mesh_builder_keeps_name_and_material() {
    let m = MeshBuilder::new(Some("m".to_string())).with_positions(vec![0, 0, 0]).with_material(2).build();
    assert_eq!(m.name.as_deref(), Some("m"));
    assert_eq!(m.primitives.len(), 1);
    assert_eq!(m.primitives[0].material, Some(2));
    assert!(m.primitives[0].attributes.is_empty());
}

#[test]
fn material_builders() {
    let m = MaterialBuilder::new(Some("red".to_string()))
        .with_base_color([ONE, 0, 0, ONE])
        .with_metallic_factor(0)
        .with_double_sided(true)
        .build();
    assert_eq!(m.name.as_deref(), Some("red"));
    let pbr = m.pbr_metallic_roughness.as_ref().unwrap();
    assert_eq!(pbr.base_color_factor, Some([ONE, 0, 0, ONE]));
    assert_eq!(pbr.metallic_factor, Some(0));
    assert_eq!(m.double_sided, Some(true));
    let basic = create_basic_material(None, [0, ONE, 0, ONE]);
    assert_eq!(basic.pbr_metallic_roughness.as_ref().unwrap().base_color_factor, Some([0, ONE, 0, ONE]));
    let metal = create_metallic_material(None, [0, 0, 0, ONE], ONE, 0x3F00_0000);
    let p = metal.pbr_metallic_roughness.as_ref().unwrap();
    assert_eq!((p.metallic_factor, p.roughness_factor), (Some(ONE), Some(0x3F00_0000)));
}

#[test]
fn builder_materials_get_indices() {
    let mut b = GltfBuilder::new();
    let m0 = b.create_basic_material(Some("a".to_string()), [ONE, ONE, ONE, ONE]);
    let m1 = b.create_metallic_material(Some("b".to_string()), [ONE, 0, 0, ONE], ONE, 0);
    assert_eq!((m0, m1), (0, 1));
    let spec = b.create_specular_material(Some("s".to_string()), [ONE, ONE, ONE, ONE], [ONE, ONE, ONE], ONE);
    assert_eq!(spec, 2);
    let used = b.gltf.extensions_used.as_ref().unwrap();
    assert_eq!(used, &vec!["KHR_materials_pbrSpecularGlossiness".to_string()]);
}
