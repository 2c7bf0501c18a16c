use trs_24::asset::{Accessor, BufferView, Document, Field, Primitive};
use trs_24::model::{assemble_vertices, group_floats_vec2, group_floats_vec3, group_floats_vec4,
    interpret_type, Model};
use trs_24::GltfError;

fn empty_doc() -> Document {
    Document { accessors: vec![], buffer_views: vec![], nodes: vec![], meshes: vec![] }
}

fn model_with(doc: Document, data: Vec<u8>) -> Model {
    Model {
        doc,
        data,
        placements: vec![],
        mesh_data: vec![],
        meshes: vec![],
        position: [0, 0, 0],
        scale: [0, 0, 0],
        rotation: [0, 0, 0, 0x3F80_0000],
    }
}

fn index_accessor(buffer_view: Field<usize>, count: usize, component_type: u32) -> Accessor {
    Accessor {
        buffer_view,
        byte_offset: Field::Absent,
        count: Some(count),
        component_type: Some(component_type),
        element_type: None,
    }
}

#[test]
fn interpret_type_maps_known_tags() {
    assert_eq!(interpret_type("SCALAR"), Ok(1));
    assert_eq!(interpret_type("VEC2"), Ok(2));
    assert_eq!(interpret_type("VEC3"), Ok(3));
    assert_eq!(interpret_type("VEC4"), Ok(4));
}

#[test]
fn interpret_type_rejects_unknown_tags() {
    assert_eq!(
        interpret_type("MAT4"),
        Err("Type is invalid (not SCALAR, VEC2, VEC3, or VEC4)")
    );
    assert!(interpret_type("scalar").is_err());
    assert!(interpret_type("").is_err());
}

#[test]
fn indices_unsigned_32_little_endian() {
    let mut doc = empty_doc();
    doc.buffer_views.push(BufferView { byte_offset: Some(0) });
    let data = vec![
        0x01, 0x00, 0x00, 0x00, // 1
        0x04, 0x03, 0x02, 0x01, // 0x01020304
        0xFF, 0xFF, 0xFF, 0xFF, // u32::MAX
    ];
    let model = model_with(doc, data);
    let acc = index_accessor(Field::Val(0), 3, 5125);
    let decoded = model.get_indices(&acc).unwrap();
    assert_eq!(decoded, vec![1, 0x0102_0304, 0xFFFF_FFFF]);
}

#[test]
fn indices_unsigned_16_widen_with_zeros() {
    let mut doc = empty_doc();
    doc.buffer_views.push(BufferView { byte_offset: Some(0) });
    let data = vec![0x34, 0x12, 0xFF, 0xFF];
    let model = model_with(doc, data);
    let acc = index_accessor(Field::Val(0), 2, 5123);
    let decoded = model.get_indices(&acc).unwrap();
    assert_eq!(decoded, vec![0x1234, 0xFFFF]);
}

#[test]
fn indices_signed_16_sign_extend() {
    let mut doc = empty_doc();
    doc.buffer_views.push(BufferView { byte_offset: Some(0) });
    // -1, i16::MIN, i16::MAX, 5
    let data = vec![0xFF, 0xFF, 0x00, 0x80, 0xFF, 0x7F, 0x05, 0x00];
    let model = model_with(doc, data);
    let acc = index_accessor(Field::Val(0), 4, 5122);
    let decoded = model.get_indices(&acc).unwrap();
    assert_eq!(decoded, vec![0xFFFF_FFFF, 0xFFFF_8000, 0x7FFF, 5]);
}

#[test]
fn indices_default_buffer_view_is_zero() {
    let mut doc = empty_doc();
    doc.buffer_views.push(BufferView { byte_offset: Some(0) });
    doc.buffer_views.push(BufferView { byte_offset: Some(2) });
    let data = vec![0x0A, 0x00, 0x0B, 0x00];
    let model = model_with(doc, data);
    let acc = index_accessor(Field::Absent, 1, 5123);
    // an absent bufferView selects view 0 on the index path
    assert_eq!(model.get_indices(&acc).unwrap(), vec![0x0A]);
}

#[test]
fn floats_default_buffer_view_is_one() {
    let mut doc = empty_doc();
    doc.buffer_views.push(BufferView { byte_offset: Some(0) });
    doc.buffer_views.push(BufferView { byte_offset: Some(4) });
    let mut data = Vec::new();
    data.extend_from_slice(&2.5f32.to_le_bytes());
    data.extend_from_slice(&7.25f32.to_le_bytes());
    let model = model_with(doc, data);
    let acc = Accessor {
        buffer_view: Field::Absent,
        byte_offset: Field::Absent,
        count: Some(1),
        component_type: None,
        element_type: Some("SCALAR".to_string()),
    };
    // an absent bufferView selects view 1 on the float path
    assert_eq!(model.get_floats(&acc).unwrap(), vec![7.25f32.to_bits()]);
}

#[test]
fn floats_decode_vec3_bit_patterns() {
    let mut doc = empty_doc();
    doc.buffer_views.push(BufferView { byte_offset: Some(0) });
    let values = [1.0f32, -2.5, 0.125, 3.0, -0.0, 42.0];
    let mut data = Vec::new();
    for v in values.iter() {
        data.extend_from_slice(&v.to_le_bytes());
    }
    let model = model_with(doc, data);
    let acc = Accessor {
        buffer_view: Field::Val(0),
        byte_offset: Field::Absent,
        count: Some(2),
        component_type: None,
        element_type: Some("VEC3".to_string()),
    };
    let decoded = model.get_floats(&acc).unwrap();
    let expected: Vec<u32> = values.iter().map(|v| v.to_bits()).collect();
    assert_eq!(decoded, expected);
}

#[test]
fn floats_respect_byte_offsets() {
    let mut doc = empty_doc();
    doc.buffer_views.push(BufferView { byte_offset: Some(4) });
    let mut data = vec![0xAA, 0xBB, 0xCC, 0xDD];
    data.extend_from_slice(&1.5f32.to_le_bytes());
    data.extend_from_slice(&2.5f32.to_le_bytes());
    let model = model_with(doc, data);
    let acc = Accessor {
        buffer_view: Field::Val(0),
        byte_offset: Field::Val(4),
        count: Some(1),
        component_type: None,
        element_type: Some("SCALAR".to_string()),
    };
    assert_eq!(model.get_floats(&acc).unwrap(), vec![2.5f32.to_bits()]);
}

#[test]
fn decode_errors() {
    let mut doc = empty_doc();
    doc.buffer_views.push(BufferView { byte_offset: Some(0) });
    let model = model_with(doc, vec![0; 8]);
    // missing count
    let acc = Accessor {
        buffer_view: Field::Val(0),
        byte_offset: Field::Absent,
        count: None,
        component_type: Some(5125),
        element_type: Some("SCALAR".to_string()),
    };
    assert_eq!(model.get_indices(&acc), Err(GltfError::MissingField));
    assert_eq!(model.get_floats(&acc), Err(GltfError::MissingField));
    // unsupported component type for indices
    let acc = index_accessor(Field::Val(0), 2, 5126);
    assert_eq!(model.get_indices(&acc), Err(GltfError::BadComponentType));
    // unknown element shape for floats
    let acc = Accessor {
        buffer_view: Field::Val(0),
        byte_offset: Field::Absent,
        count: Some(1),
        component_type: None,
        element_type: Some("MAT4".to_string()),
    };
    assert_eq!(model.get_floats(&acc), Err(GltfError::BadAccessorType));
    // range outside the blob
    let acc = index_accessor(Field::Val(0), 3, 5125);
    assert_eq!(model.get_indices(&acc), Err(GltfError::OutOfBounds));
    // buffer view index outside the list
    let acc = index_accessor(Field::Val(7), 1, 5125);
    assert_eq!(model.get_indices(&acc), Err(GltfError::MissingField));
    // malformed bufferView member
    let acc = index_accessor(Field::Bad, 1, 5125);
    assert_eq!(model.get_indices(&acc), Err(GltfError::MissingField));
}

#[test]
fn group_vec3_discards_trailing_floats() {
    let words: Vec<u32> = (1..=7u32).collect();
    let grouped = group_floats_vec3(words);
    assert_eq!(grouped.len(), 2);
    assert_eq!(grouped[0], [1, 2, 3]);
    assert_eq!(grouped[1], [4, 5, 6]);
}

#[test]
fn group_vec2_and_vec4() {
    let grouped = group_floats_vec2(vec![1, 2, 3, 4, 5]);
    assert_eq!(grouped, vec![[1, 2], [3, 4]]);
    let grouped = group_floats_vec4(vec![1, 2, 3, 4, 5, 6, 7, 8, 9]);
    assert_eq!(grouped, vec![[1, 2, 3, 4], [5, 6, 7, 8]]);
}

#[test]
fn group_vec3_round_trip() {
    let original = vec![[1u32, 2, 3], [4, 5, 6], [7, 8, 9], [10, 11, 12]];
    let mut flat: Vec<u32> = Vec::new();
    for g in original.iter() {
        flat.extend_from_slice(g);
    }
    let regrouped = group_floats_vec3(flat);
    assert_eq!(regrouped, original);
}

#[test]
fn assemble_vertices_injects_white_color() {
    let one = 1.0f32.to_bits();
    let vertices = assemble_vertices(
        vec![[10, 11, 12], [20, 21, 22]],
        vec![[13, 14, 15], [23, 24, 25]],
        vec![[16, 17], [26, 27]],
    );
    assert_eq!(
        vertices,
        vec![
            10, 11, 12, 13, 14, 15, one, one, one, 16, 17, //
            20, 21, 22, 23, 24, 25, one, one, one, 26, 27,
        ]
    );
}

#[test]
fn document_parse_tolerates_missing_sections() {
    let doc = Document::parse(b"{}").unwrap();
    assert_eq!(doc.accessors.len(), 0);
    assert_eq!(doc.buffer_views.len(), 0);
    assert_eq!(doc.nodes.len(), 0);
    assert_eq!(doc.meshes.len(), 0);
}

#[test]
fn document_parse_extracts_structure() {
    let text = r#"{
        "accessors": [
            {"bufferView": 2, "byteOffset": 8, "count": 5, "componentType": 5123, "type": "VEC2"},
            {"count": 1}
        ],
        "bufferViews": [{"byteOffset": 16}, {}],
        "nodes": [
            {"translation": [1, 2], "mesh": 4, "children": [1, 2]},
            {"rotation": [0.5, 0.5, 0.5, 1.0], "matrix": [2.0]}
        ],
        "meshes": [
            {"primitives": [{"attributes": {"POSITION": 0, "NORMAL": 1, "TEXCOORD_0": 2}, "indices": 3}]}
        ]
    }"#;
    let doc = Document::parse(text.as_bytes()).unwrap();
    assert_eq!(doc.accessors.len(), 2);
    assert_eq!(doc.accessors[0].buffer_view, Field::Val(2));
    assert_eq!(doc.accessors[0].byte_offset, Field::Val(8));
    assert_eq!(doc.accessors[0].count, Some(5));
    assert_eq!(doc.accessors[0].component_type, Some(5123));
    assert_eq!(doc.accessors[0].element_type, Some("VEC2".to_string()));
    assert_eq!(doc.accessors[1].buffer_view, Field::Absent);
    assert_eq!(doc.accessors[1].component_type, None);
    assert_eq!(doc.buffer_views[0].byte_offset, Some(16));
    assert_eq!(doc.buffer_views[1].byte_offset, None);
    // a short translation array fills the rest with zeros
    assert_eq!(
        match doc.nodes[0].translation {
            Field::Val(t) => t,
            _ => panic!("translation"),
        },
        [1.0f32.to_bits(), 2.0f32.to_bits(), 0]
    );
    assert_eq!(doc.nodes[0].mesh, Field::Val(4));
    assert_eq!(
        match &doc.nodes[0].children {
            Field::Val(c) => c.clone(),
            _ => panic!("children"),
        },
        vec![1, 2]
    );
    // rotation is stored XYZW in the file and consumed as [w, x, y, z]
    assert_eq!(
        match doc.nodes[1].rotation {
            Field::Val(q) => q,
            _ => panic!("rotation"),
        },
        [
            1.0f32.to_bits(),
            0.5f32.to_bits(),
            0.5f32.to_bits(),
            0.5f32.to_bits(),
        ]
    );
    // a short matrix array fills the rest with zeros
    let m = match doc.nodes[1].matrix {
        Field::Val(m) => m,
        _ => panic!("matrix"),
    };
    assert_eq!(m[0], 2.0f32.to_bits());
    assert_eq!(m[1], 0);
    let p = doc.meshes[0].primitive;
    assert_eq!(
        p,
        Primitive { position: Some(0), normal: Some(1), texcoord: Some(2), indices: Some(3) }
    );
}

#[test]
fn document_parse_marks_malformed_fields() {
    let text = r#"{
        "nodes": [
            {"translation": [1, 2, 3, 4]},
            {"translation": [1, "x"]},
            {"rotation": [0.0, 0.0, 0.0]},
            {"children": [1, "x"]}
        ]
    }"#;
    let doc = Document::parse(text.as_bytes()).unwrap();
    assert_eq!(doc.nodes[0].translation, Field::<[u32; 3]>::Bad);
    assert_eq!(doc.nodes[1].translation, Field::<[u32; 3]>::Bad);
    assert_eq!(doc.nodes[2].rotation, Field::<[u32; 4]>::Bad);
    assert!(matches!(doc.nodes[3].children, Field::Bad));
}

#[test]
fn document_parse_rejects_bad_input() {
    assert!(matches!(Document::parse(&[0xFF, 0xFE]), Err(GltfError::Utf8)));
    assert!(matches!(Document::parse(b"not json"), Err(GltfError::Parse)));
}
