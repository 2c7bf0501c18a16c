//! The in-memory model of a parsed glTF scene description: accessors,
//! buffer views, nodes and meshes, extracted once from the JSON tree into
//! plain values. Extraction is tolerant: a field that is absent, or
//! present but unusable, is recorded as such, and the error surfaces only
//! when (and if) the loader actually consumes the field — exactly where
//! the engine treats a malformed asset as fatal.

use vstd::prelude::*;
use crate::glmath::{Mat4Bits, QuatBits, Vec3Bits};
use crate::jsonio;
use crate::types::F32_ZERO;

verus! {

/// A field of the scene description that may be absent, present with a
/// usable value, or present but malformed.
#[derive(Clone, Copy, PartialEq, Eq, Debug)]
pub enum Field<T> {
    /// The member is not in the JSON object (or is JSON null).
    Absent,
    /// The member is there but cannot be read as the expected value.
    Bad,
    /// The member's value.
    Val(T),
}

/// How to interpret a byte range as a typed numeric array.
#[derive(Debug)]
pub struct Accessor {
    /// Index into the buffer-view list; the decoder supplies a default
    /// when absent.
    pub buffer_view: Field<usize>,
    /// Extra byte offset inside the buffer view; defaults to zero.
    pub byte_offset: Field<usize>,
    /// Number of elements.
    pub count: Option<usize>,
    /// Component type code (float, or one of the index widths).
    pub component_type: Option<u32>,
    /// Element shape tag: SCALAR, VEC2, VEC3 or VEC4.
    pub element_type: Option<String>,
}

/// A contiguous byte range within the binary blob.
#[derive(Clone, Copy, PartialEq, Eq, Debug)]
pub struct BufferView {
    /// Byte offset of the range's start; the decoder demands it.
    pub byte_offset: Option<usize>,
}

/// One entry of the scene hierarchy: an optional local transform, an
/// optional mesh reference, and child indices.
#[derive(Debug)]
pub struct NodeDesc {
    /// Translation, three floats by bit pattern.
    pub translation: Field<Vec3Bits>,
    /// Rotation quaternion; the file stores XYZW and the engine consumes
    /// the components reordered as `[w, x, y, z]`.
    pub rotation: Field<QuatBits>,
    /// Scale, three floats by bit pattern.
    pub scale: Field<Vec3Bits>,
    /// Full 4x4 matrix override, column-major.
    pub matrix: Field<Mat4Bits>,
    /// Mesh index, when this node references a mesh.
    pub mesh: Field<usize>,
    /// Indices of child nodes.
    pub children: Field<Vec<usize>>,
}

/// The attribute and index accessors of a mesh's first primitive.
#[derive(Clone, Copy, PartialEq, Eq, Debug)]
pub struct Primitive {
    pub position: Option<usize>,
    pub normal: Option<usize>,
    pub texcoord: Option<usize>,
    pub indices: Option<usize>,
}

/// A mesh of the scene description; only its first primitive is consumed.
#[derive(Clone, Copy, PartialEq, Eq, Debug)]
pub struct MeshDesc {
    pub primitive: Primitive,
}

/// A parsed scene description.
#[derive(Debug)]
pub struct Document {
    pub accessors: Vec<Accessor>,
    pub buffer_views: Vec<BufferView>,
    pub nodes: Vec<NodeDesc>,
    pub meshes: Vec<MeshDesc>,
}

/// Reads an optional non-negative integer member, recording whether it is
/// absent, usable, or malformed. The `as usize` cast mirrors how the
/// engine consumes these indices.
fn extract_index_field(v: &json::JsonValue, key: &str) -> Field<usize> {
    let m = jsonio::json_member(v, key);
    if jsonio::json_is_null(m) {
        Field::Absent
    } else {
        match jsonio::json_as_u64(m) {
            Some(x) => Field::Val(x as usize),
            None => Field::Bad,
        }
    }
}

/// Reads a required non-negative integer member.
fn extract_index(v: &json::JsonValue, key: &str) -> Option<usize> {
    match jsonio::json_as_u64(jsonio::json_member(v, key)) {
        Some(x) => Some(x as usize),
        None => None,
    }
}

/// Reads an accessor description. Every field is kept optional; the
/// decoder raises errors for the fields it needs.
fn extract_accessor(v: &json::JsonValue) -> Accessor {
    let component_type = match jsonio::json_as_u64(jsonio::json_member(v, "componentType")) {
        Some(x) => Some(x as u32),
        None => None,
    };
    Accessor {
        buffer_view: extract_index_field(v, "bufferView"),
        byte_offset: extract_index_field(v, "byteOffset"),
        count: extract_index(v, "count"),
        component_type,
        element_type: jsonio::json_as_string(jsonio::json_member(v, "type")),
    }
}

/// Reads a buffer-view description.
fn extract_buffer_view(v: &json::JsonValue) -> BufferView {
    BufferView { byte_offset: extract_index(v, "byteOffset") }
}

/// Reads an array member of up to three floats into a vector, leaving
/// unwritten components zero. More than three entries, or an entry that
/// is not a number, makes the field malformed.
fn extract_vec3_field(v: &json::JsonValue, key: &str) -> Field<Vec3Bits> {
    let m = jsonio::json_member(v, key);
    if jsonio::json_is_null(m) {
        return Field::Absent;
    }
    let n = jsonio::json_len(m);
    if n > 3 {
        return Field::Bad;
    }
    let mut out: Vec3Bits = [F32_ZERO, F32_ZERO, F32_ZERO];
    let mut i: usize = 0;
    while i < n
        invariant
            n <= 3,
        decreases n - i,
    {
        match jsonio::json_as_float_bits(jsonio::json_at(m, i)) {
            Some(b) => {
                out[i] = b;
            },
            None => {
                return Field::Bad;
            },
        }
        i = i + 1;
    }
    Field::Val(out)
}

/// Reads a rotation member: four floats stored XYZW in the file and
/// consumed as `[w, x, y, z]`. Any missing or non-numeric component makes
/// the field malformed.
fn extract_rotation_field(v: &json::JsonValue) -> Field<QuatBits> {
    let m = jsonio::json_member(v, "rotation");
    if jsonio::json_is_null(m) {
        return Field::Absent;
    }
    let w = jsonio::json_as_float_bits(jsonio::json_at(m, 3));
    let x = jsonio::json_as_float_bits(jsonio::json_at(m, 0));
    let y = jsonio::json_as_float_bits(jsonio::json_at(m, 1));
    let z = jsonio::json_as_float_bits(jsonio::json_at(m, 2));
    match (w, x, y, z) {
        (Some(wb), Some(xb), Some(yb), Some(zb)) => Field::Val([wb, xb, yb, zb]),
        _ => Field::Bad,
    }
}

/// Reads a matrix member of up to sixteen floats, column-major, leaving
/// unwritten entries zero.
fn extract_matrix_field(v: &json::JsonValue) -> Field<Mat4Bits> {
    let m = jsonio::json_member(v, "matrix");
    if jsonio::json_is_null(m) {
        return Field::Absent;
    }
    let n = jsonio::json_len(m);
    if n > 16 {
        return Field::Bad;
    }
    let mut out: Mat4Bits = [F32_ZERO;16];
    let mut i: usize = 0;
    while i < n
        invariant
            n <= 16,
        decreases n - i,
    {
        match jsonio::json_as_float_bits(jsonio::json_at(m, i)) {
            Some(b) => {
                out[i] = b;
            },
            None => {
                return Field::Bad;
            },
        }
        i = i + 1;
    }
    Field::Val(out)
}

/// Reads the child list of a node. A child entry that is not a
/// non-negative integer makes the field malformed; a member that is not
/// an array reads as an empty list.
fn extract_children_field(v: &json::JsonValue) -> Field<Vec<usize>> {
    let m = jsonio::json_member(v, "children");
    if jsonio::json_is_null(m) {
        return Field::Absent;
    }
    let n = jsonio::json_len(m);
    let mut out: Vec<usize> = Vec::new();
    let mut i: usize = 0;
    while i < n
        decreases n - i,
    {
        match jsonio::json_as_u64(jsonio::json_at(m, i)) {
            Some(c) => {
                out.push(c as usize);
            },
            None => {
                return Field::Bad;
            },
        }
        i = i + 1;
    }
    Field::Val(out)
}

/// Reads one node of the scene hierarchy.
fn extract_node(v: &json::JsonValue) -> NodeDesc {
    NodeDesc {
        translation: extract_vec3_field(v, "translation"),
        rotation: extract_rotation_field(v),
        scale: extract_vec3_field(v, "scale"),
        matrix: extract_matrix_field(v),
        mesh: extract_index_field(v, "mesh"),
        children: extract_children_field(v),
    }
}

/// Reads the accessor indices of a mesh's first primitive.
fn extract_mesh(v: &json::JsonValue) -> MeshDesc {
    let p = jsonio::json_at(jsonio::json_member(v, "primitives"), 0);
    let attributes = jsonio::json_member(p, "attributes");
    MeshDesc {
        primitive: Primitive {
            position: extract_index(attributes, "POSITION"),
            normal: extract_index(attributes, "NORMAL"),
            texcoord: extract_index(attributes, "TEXCOORD_0"),
            indices: extract_index(p, "indices"),
        },
    }
}

impl Document {
    /// Parses a scene description from its raw text bytes. Fails exactly
    /// when the bytes are not UTF-8 or the text is not JSON; everything
    /// structural past that is extracted tolerantly and judged at use.
    pub fn parse(gltf: &[u8]) -> (r: Result<Document, crate::GltfError>)
        ensures
            r is Ok <==> (jsonio::spec_utf8_decode(gltf@) is Some && jsonio::spec_json_parses(
                jsonio::spec_utf8_decode(gltf@)->0,
            )),
            r == Err::<Document, crate::GltfError>(crate::GltfError::Utf8) <==> jsonio::spec_utf8_decode(
                gltf@,
            ) is None,
            r == Err::<Document, crate::GltfError>(crate::GltfError::Parse) <==> (
            jsonio::spec_utf8_decode(gltf@) is Some && !jsonio::spec_json_parses(
                jsonio::spec_utf8_decode(gltf@)->0,
            )),
    {
        let text = match jsonio::utf8_str(gltf) {
            Some(t) => t,
            None => {
                return Err(crate::GltfError::Utf8);
            },
        };
        let root = match jsonio::json_parse(text) {
            Some(v) => v,
            None => {
                return Err(crate::GltfError::Parse);
            },
        };
        let accessors_json = jsonio::json_member(&root, "accessors");
        let mut accessors: Vec<Accessor> = Vec::new();
        let n_accessors = jsonio::json_len(accessors_json);
        let mut i: usize = 0;
        while i < n_accessors
            decreases n_accessors - i,
        {
            accessors.push(extract_accessor(jsonio::json_at(accessors_json, i)));
            i = i + 1;
        }
        let views_json = jsonio::json_member(&root, "bufferViews");
        let mut buffer_views: Vec<BufferView> = Vec::new();
        let n_views = jsonio::json_len(views_json);
        let mut i: usize = 0;
        while i < n_views
            decreases n_views - i,
        {
            buffer_views.push(extract_buffer_view(jsonio::json_at(views_json, i)));
            i = i + 1;
        }
        let nodes_json = jsonio::json_member(&root, "nodes");
        let mut nodes: Vec<NodeDesc> = Vec::new();
        let n_nodes = jsonio::json_len(nodes_json);
        let mut i: usize = 0;
        while i < n_nodes
            decreases n_nodes - i,
        {
            nodes.push(extract_node(jsonio::json_at(nodes_json, i)));
            i = i + 1;
        }
        let meshes_json = jsonio::json_member(&root, "meshes");
        let mut meshes: Vec<MeshDesc> = Vec::new();
        let n_meshes = jsonio::json_len(meshes_json);
        let mut i: usize = 0;
        while i < n_meshes
            decreases n_meshes - i,
        {
            meshes.push(extract_mesh(jsonio::json_at(meshes_json, i)));
            i = i + 1;
        }
        Ok(Document { accessors, buffer_views, nodes, meshes })
    }
}

} // verus!
