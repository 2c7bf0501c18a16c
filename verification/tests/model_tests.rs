use trs_24::asset::Document;
use trs_24::commands::{DrawMode, RenderCommand, TexFormat};
use trs_24::mesh::Mesh;
use trs_24::model::Model;
use trs_24::texture::Texture;
use trs_24::GltfError;

/// A square mesh: 4 vertices, 6 indices forming 2 triangles, with the
/// nodes section supplied by the caller.
fn square_gltf(nodes_json: &str) -> String {
    format!(
        r#"{{
        "accessors": [
            {{"bufferView": 0, "count": 4, "type": "VEC3"}},
            {{"bufferView": 1, "count": 4, "type": "VEC3"}},
            {{"bufferView": 2, "count": 4, "type": "VEC2"}},
            {{"bufferView": 3, "count": 6, "componentType": 5123}}
        ],
        "bufferViews": [
            {{"byteOffset": 0}},
            {{"byteOffset": 48}},
            {{"byteOffset": 96}},
            {{"byteOffset": 128}}
        ],
        "meshes": [
            {{"primitives": [{{"attributes": {{"POSITION": 0, "NORMAL": 1, "TEXCOORD_0": 2}}, "indices": 3}}]}}
        ],
        "nodes": {}
    }}"#,
        nodes_json
    )
}

fn square_bin() -> Vec<u8> {
    let positions: [f32; 12] = [0.0, 0.0, 0.0, 1.0, 0.0, 0.0, 1.0, 1.0, 0.0, 0.0, 1.0, 0.0];
    let normals: [f32; 12] = [0.0, 0.0, 1.0, 0.0, 0.0, 1.0, 0.0, 0.0, 1.0, 0.0, 0.0, 1.0];
    let uvs: [f32; 8] = [0.0, 0.0, 1.0, 0.0, 1.0, 1.0, 0.0, 1.0];
    let indices: [u16; 6] = [0, 1, 2, 0, 2, 3];
    let mut bin = Vec::new();
    for v in positions.iter().chain(normals.iter()).chain(uvs.iter()) {
        bin.extend_from_slice(&v.to_le_bytes());
    }
    for i in indices.iter() {
        bin.extend_from_slice(&i.to_le_bytes());
    }
    bin
}

#[test]
fn square_model_decodes_geometry() {
    let gltf = square_gltf(r#"[{"mesh": 0}]"#);
    let model = Model::new(gltf.as_bytes(), &square_bin()).unwrap();
    assert_eq!(model.placements.len(), 1);
    assert_eq!(model.placements[0].mesh, 0);
    assert_eq!(model.mesh_data.len(), 1);
    // 4 vertices of 11 words each
    assert_eq!(model.mesh_data[0].vertices.len(), 44);
    // 16-bit indices widened to 32 bits
    assert_eq!(model.mesh_data[0].indices, vec![0, 1, 2, 0, 2, 3]);
    // first vertex: position, normal, fixed white color, texture coords
    let one = 1.0f32.to_bits();
    assert_eq!(
        &model.mesh_data[0].vertices[0..11],
        &[0, 0, 0, 0, 0, one, one, one, one, 0, 0]
    );
}

#[test]
fn node_without_transform_keeps_parent_world() {
    // the only node has no transform fields: its world transform is the
    // identity the traversal starts with, bit for bit
    let gltf = square_gltf(r#"[{"mesh": 0}]"#);
    let model = Model::new(gltf.as_bytes(), &square_bin()).unwrap();
    let world = model.placements[0].world;
    let one = 1.0f32.to_bits();
    let expected: [u32; 16] = [
        one, 0, 0, 0, //
        0, one, 0, 0, //
        0, 0, one, 0, //
        0, 0, 0, one,
    ];
    assert_eq!(world, expected);
}

#[test]
fn translation_chain_accumulates_parent_first() {
    // root translates by (1,0,0), its child by (0,1,0); the grandchild
    // carries the mesh, so its world transform translates by (1,1,0)
    let nodes = r#"[
        {"translation": [1.0, 0.0, 0.0], "children": [1]},
        {"translation": [0.0, 1.0, 0.0], "children": [2]},
        {"mesh": 0}
    ]"#;
    let gltf = square_gltf(nodes);
    let model = Model::new(gltf.as_bytes(), &square_bin()).unwrap();
    assert_eq!(model.placements.len(), 1);
    let w: Vec<f32> = model.placements[0].world.iter().map(|b| f32::from_bits(*b)).collect();
    // column-major: the translation column holds (1, 1, 0)
    assert_eq!(&w[12..15], &[1.0, 1.0, 0.0]);
    // the linear part stays the identity
    assert_eq!(w[0], 1.0);
    assert_eq!(w[5], 1.0);
    assert_eq!(w[10], 1.0);
    assert_eq!(w[15], 1.0);
    assert_eq!(w[1], 0.0);
    assert_eq!(w[4], 0.0);
    // the per-node decomposed translation is the grandchild's own (none)
    assert_eq!(model.placements[0].translation, [0, 0, 0]);
}

#[test]
fn scaled_node_world_matches_reference_arithmetic() {
    let nodes = r#"[
        {"translation": [2.0, 0.0, 0.0], "children": [1]},
        {"scale": [3.0, 3.0, 3.0], "mesh": 0}
    ]"#;
    let gltf = square_gltf(nodes);
    let model = Model::new(gltf.as_bytes(), &square_bin()).unwrap();
    let expected = nalgebra_glm::translate(
        &nalgebra_glm::Mat4::identity(),
        &nalgebra_glm::vec3(2.0f32, 0.0, 0.0),
    ) * nalgebra_glm::scale(
        &nalgebra_glm::Mat4::identity(),
        &nalgebra_glm::vec3(3.0f32, 3.0, 3.0),
    );
    let got: Vec<f32> = model.placements[0].world.iter().map(|b| f32::from_bits(*b)).collect();
    assert_eq!(got, expected.as_slice().to_vec());
    assert_eq!(
        model.placements[0].scale,
        [3.0f32.to_bits(), 3.0f32.to_bits(), 3.0f32.to_bits()]
    );
    // a node without a rotation records the engine's default quaternion
    assert_eq!(model.placements[0].rotation, [1.0f32.to_bits(), 0, 0, 0]);
}

#[test]
fn square_model_draw_issues_one_draw_call_of_six_indices() {
    let gltf = square_gltf(r#"[{"mesh": 0}]"#);
    let mut model = Model::new(gltf.as_bytes(), &square_bin()).unwrap();
    let (texture, _setup) = Texture::new(7, 1, 1, 4, vec![0, 0, 0, 255]);
    let vertices = model.mesh_data[0].vertices.clone();
    let indices = model.mesh_data[0].indices.clone();
    let (mesh, _upload) = Mesh::new(1, 2, vertices, indices, texture);
    model.attach_mesh(mesh);
    let cmds = model.draw(9);
    let draws: Vec<&RenderCommand> = cmds
        .iter()
        .filter(|c| {
            matches!(c, RenderCommand::DrawElements { .. })
                || matches!(c, RenderCommand::DrawArrays { .. })
        })
        .collect();
    assert_eq!(draws.len(), 1);
    assert_eq!(
        draws[0],
        &RenderCommand::DrawElements { mode: DrawMode::Triangles, count: 6 }
    );
}

#[test]
fn model_construction_failures() {
    // invalid JSON
    assert!(matches!(
        Model::new(b"not json", &[]),
        Err(GltfError::Parse)
    ));
    // not UTF-8
    assert!(matches!(
        Model::new(&[0xFF, 0xFE], &[]),
        Err(GltfError::Utf8)
    ));
    // a referenced mesh without a POSITION attribute
    let gltf = r#"{
        "meshes": [{"primitives": [{"attributes": {}, "indices": 0}]}],
        "nodes": [{"mesh": 0}]
    }"#;
    assert!(matches!(
        Model::new(gltf.as_bytes(), &[]),
        Err(GltfError::MissingField)
    ));
    // a self-referencing node never ends: rejected, not followed forever
    let gltf = square_gltf(r#"[{"children": [0]}]"#);
    assert!(matches!(
        Model::new(gltf.as_bytes(), &square_bin()),
        Err(GltfError::DepthExceeded)
    ));
    // an index range outside the blob
    let gltf = square_gltf(r#"[{"mesh": 0}]"#);
    let short_bin = square_bin()[..100].to_vec();
    assert!(matches!(
        Model::new(gltf.as_bytes(), &short_bin),
        Err(GltfError::OutOfBounds)
    ));
    // a normal attribute covering fewer vertices than the positions
    let gltf = r#"{
        "accessors": [
            {"bufferView": 0, "count": 4, "type": "VEC3"},
            {"bufferView": 1, "count": 2, "type": "VEC3"},
            {"bufferView": 2, "count": 4, "type": "VEC2"},
            {"bufferView": 3, "count": 6, "componentType": 5123}
        ],
        "bufferViews": [
            {"byteOffset": 0}, {"byteOffset": 48}, {"byteOffset": 96}, {"byteOffset": 128}
        ],
        "meshes": [
            {"primitives": [{"attributes": {"POSITION": 0, "NORMAL": 1, "TEXCOORD_0": 2}, "indices": 3}]}
        ],
        "nodes": [{"mesh": 0}]
    }"#;
    assert!(matches!(
        Model::new(gltf.as_bytes(), &square_bin()),
        Err(GltfError::AttributeMismatch)
    ));
}

#[test]
fn unreferenced_malformed_mesh_does_not_fail_construction() {
    // the node hierarchy references no mesh, so the malformed mesh entry
    // is never loaded
    let gltf = r#"{
        "meshes": [{"primitives": [{"attributes": {}, "indices": 99}]}],
        "nodes": [{}]
    }"#;
    let model = Model::new(gltf.as_bytes(), &[]).unwrap();
    assert_eq!(model.placements.len(), 0);
    assert_eq!(model.mesh_data.len(), 0);
}

#[test]
fn model_setters_replace_placement() {
    let gltf = square_gltf(r#"[{"mesh": 0}]"#);
    let mut model = Model::new(gltf.as_bytes(), &square_bin()).unwrap();
    // construction defaults
    assert_eq!(model.position, [0, 0, 0]);
    assert_eq!(model.scale, [0, 0, 0]);
    assert_eq!(model.rotation, [0, 0, 0, 1.0f32.to_bits()]);
    model.set_position([1, 2, 3]);
    model.set_scale([4, 5, 6]);
    model.set_rotation([7, 8, 9, 10]);
    assert_eq!(model.position, [1, 2, 3]);
    assert_eq!(model.scale, [4, 5, 6]);
    assert_eq!(model.rotation, [7, 8, 9, 10]);
}

#[test]
fn mesh_upload_and_texture_formats() {
    let (texture, cmds) = Texture::new(5, 2, 2, 4, vec![1; 16]);
    assert_eq!(texture.texture, 5);
    assert!(cmds.iter().any(|c| matches!(
        c,
        RenderCommand::TexImage2d { width: 2, height: 2, format: TexFormat::Rgba, .. }
    )));
    // three source channels still upload as RGBA (the decoder expands)
    let (_t, cmds) = Texture::new(5, 2, 2, 3, vec![1; 16]);
    assert!(cmds.iter().any(|c| matches!(
        c,
        RenderCommand::TexImage2d { format: TexFormat::Rgba, .. }
    )));
    // one source channel uploads as single-channel luminance
    let (_t, cmds) = Texture::new(5, 2, 2, 1, vec![1; 4]);
    assert!(cmds.iter().any(|c| matches!(
        c,
        RenderCommand::TexImage2d { format: TexFormat::Luminance, .. }
    )));
    // any other channel count uploads nothing
    let (_t, cmds) = Texture::new(5, 2, 2, 2, vec![1; 8]);
    assert!(!cmds.iter().any(|c| matches!(c, RenderCommand::TexImage2d { .. })));

    let (mesh, cmds) = Mesh::new(1, 2, vec![10, 11], vec![0, 1, 2], Texture { texture: 5 });
    assert_eq!(mesh.indices, vec![0, 1, 2]);
    assert_eq!(
        cmds,
        vec![
            RenderCommand::BindArrayBuffer(1),
            RenderCommand::ArrayBufferData(vec![10, 11]),
            RenderCommand::BindElementBuffer(2),
            RenderCommand::ElementBufferData(vec![0, 1, 2]),
            RenderCommand::BindArrayBuffer(0),
            RenderCommand::BindElementBuffer(0),
        ]
    );
}

#[test]
fn rotated_node_world_matches_reference_arithmetic() {
    // rotation stored XYZW in the file and consumed as [w, x, y, z]
    let nodes = r#"[{"rotation": [0.0, 0.7, 0.0, 0.7], "mesh": 0}]"#;
    let gltf = square_gltf(nodes);
    let model = Model::new(gltf.as_bytes(), &square_bin()).unwrap();
    // the recorded decomposed rotation is the reordered file value; the
    // world transform is its rotation matrix (under the identity parent)
    let r = model.placements[0].rotation;
    let coords: Vec<f32> = r.iter().map(|b| f32::from_bits(*b)).collect();
    let q = nalgebra_glm::make_quat(&coords);
    let expected = nalgebra_glm::quat_cast(&q);
    let got: Vec<f32> = model.placements[0].world.iter().map(|b| f32::from_bits(*b)).collect();
    assert_eq!(got, expected.as_slice().to_vec());
    // w comes from index 3 of the file array, x from index 0
    assert_eq!(coords[0], 0.7f32);
    assert_eq!(coords[1], 0.0f32);
}

#[test]
fn draw_uploads_placement_model_matrix() {
    let gltf = square_gltf(r#"[{"mesh": 0}]"#);
    let mut model = Model::new(gltf.as_bytes(), &square_bin()).unwrap();
    let (texture, _setup) = Texture::new(7, 1, 1, 4, vec![0, 0, 0, 255]);
    let vertices = model.mesh_data[0].vertices.clone();
    let indices = model.mesh_data[0].indices.clone();
    let (mesh, _upload) = Mesh::new(1, 2, vertices, indices, texture);
    model.attach_mesh(mesh);
    model.set_position([0.5f32.to_bits(), (-0.5f32).to_bits(), 0]);
    model.set_scale([2.0f32.to_bits(), 2.0f32.to_bits(), 2.0f32.to_bits()]);
    let q = nalgebra_glm::quat_angle_axis(0.7f32, &nalgebra_glm::vec3(0.0f32, 1.0, 0.0));
    let q_bits: Vec<u32> = q.coords.as_slice().iter().map(|x| x.to_bits()).collect();
    model.set_rotation([q_bits[0], q_bits[1], q_bits[2], q_bits[3]]);
    let cmds = model.draw(9);
    let expected = nalgebra_glm::translate(
        &nalgebra_glm::Mat4::identity(),
        &nalgebra_glm::vec3(0.5f32, -0.5, 0.0),
    ) * nalgebra_glm::quat_to_mat4(&q)
        * nalgebra_glm::scale(
            &nalgebra_glm::Mat4::identity(),
            &nalgebra_glm::vec3(2.0f32, 2.0, 2.0),
        );
    let expected_bits: Vec<u32> = expected.as_slice().iter().map(|x| x.to_bits()).collect();
    let uploaded = cmds
        .iter()
        .find_map(|c| match c {
            RenderCommand::SetModelMatrix { program: 9, matrix } => Some(matrix.to_vec()),
            _ => None,
        })
        .unwrap();
    assert_eq!(uploaded, expected_bits);
}

#[test]
fn from_document_succeeds_exactly_when_everything_loads() {
    // a parsed document whose referenced mesh decodes builds a model
    let gltf = square_gltf(r#"[{"mesh": 0}]"#);
    let doc = Document::parse(gltf.as_bytes()).unwrap();
    let model = Model::from_document(doc, &square_bin()).unwrap();
    assert_eq!(model.mesh_data.len(), 1);
    // the same document over a truncated blob fails with the load error
    let doc = Document::parse(gltf.as_bytes()).unwrap();
    let short_bin = square_bin()[..100].to_vec();
    assert_eq!(
        Model::from_document(doc, &short_bin).err(),
        Some(GltfError::OutOfBounds)
    );
    // a document whose node references a mesh that is not there fails
    let gltf = r#"{"nodes": [{"mesh": 3}]}"#;
    let doc = Document::parse(gltf.as_bytes()).unwrap();
    assert_eq!(
        Model::from_document(doc, &[]).err(),
        Some(GltfError::MissingField)
    );
}
