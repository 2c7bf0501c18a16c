//! Model loading: the binary-buffer decoder, the scene-graph traverser and
//! the mesh assembler. A `Model` owns the parsed scene description and its
//! binary blob, decodes every referenced mesh into an interleaved vertex
//! buffer and an index list, and — once the application has attached GPU
//! buffers — draws all of its meshes at the caller-chosen placement.

use vstd::prelude::*;
use crate::asset::{Accessor, Document, Field};
use crate::glmath::{Mat4Bits, QuatBits, Vec3Bits};
use crate::mesh::Mesh;
use crate::GltfError;
use crate::types::F32_ONE;

verus! {

/// The little-endian 32-bit word of four bytes.
pub open spec fn spec_le_word(b0: u8, b1: u8, b2: u8, b3: u8) -> u32 {
    (b0 + b1 * 0x100 + b2 * 0x10000 + b3 * 0x1000000) as u32
}

/// The little-endian 16-bit word of two bytes, widened with zeros.
pub open spec fn spec_u16_word(b0: u8, b1: u8) -> u32 {
    (b0 + b1 * 0x100) as u32
}

/// The little-endian 16-bit word of two bytes, sign-extended to 32 bits
/// and reinterpreted as unsigned: a negative source value maps to a large
/// unsigned magnitude.
pub open spec fn spec_i16_word(b0: u8, b1: u8) -> u32 {
    if b1 >= 0x80 {
        (b0 + b1 * 0x100 + 0xFFFF_0000) as u32
    } else {
        (b0 + b1 * 0x100) as u32
    }
}

/// `count` little-endian 32-bit words read from `data` starting at `start`.
pub open spec fn spec_words_32(data: Seq<u8>, start: int, count: int) -> Seq<u32> {
    Seq::new(
        count as nat,
        |i: int|
            spec_le_word(
                data[start + 4 * i],
                data[start + 4 * i + 1],
                data[start + 4 * i + 2],
                data[start + 4 * i + 3],
            ),
    )
}

/// `count` zero-extended 16-bit words read from `data` starting at `start`.
pub open spec fn spec_words_u16(data: Seq<u8>, start: int, count: int) -> Seq<u32> {
    Seq::new(count as nat, |i: int| spec_u16_word(data[start + 2 * i], data[start + 2 * i + 1]))
}

/// `count` sign-extended 16-bit words read from `data` starting at `start`.
pub open spec fn spec_words_i16(data: Seq<u8>, start: int, count: int) -> Seq<u32> {
    Seq::new(count as nat, |i: int| spec_i16_word(data[start + 2 * i], data[start + 2 * i + 1]))
}

/// Assembles four bytes into their little-endian 32-bit word.
fn le_word(b0: u8, b1: u8, b2: u8, b3: u8) -> (r: u32)
    ensures
        r == spec_le_word(b0, b1, b2, b3),
{
    b0 as u32 + b1 as u32 * 0x100 + b2 as u32 * 0x10000 + b3 as u32 * 0x1000000
}

/// The number of scalar components of an accessor's element shape tag.
pub open spec fn spec_components_per_element(s: Seq<char>) -> Option<usize> {
    if s =~= "SCALAR"@ {
        Some(1usize)
    } else if s =~= "VEC2"@ {
        Some(2usize)
    } else if s =~= "VEC3"@ {
        Some(3usize)
    } else if s =~= "VEC4"@ {
        Some(4usize)
    } else {
        None
    }
}

/// Maps an accessor's element shape tag to its component count: SCALAR,
/// VEC2, VEC3 and VEC4 have 1 to 4 components; any other tag is a format
/// error.
pub fn interpret_type(type_str: &str) -> (r: Result<usize, &'static str>)
    ensures
        r is Ok <==> spec_components_per_element(type_str@) is Some,
        r is Ok ==> r.unwrap() == spec_components_per_element(type_str@).unwrap(),
{
    let t = type_str.to_owned();
    if t == "SCALAR".to_owned() {
        Ok(1)
    } else if t == "VEC2".to_owned() {
        Ok(2)
    } else if t == "VEC3".to_owned() {
        Ok(3)
    } else if t == "VEC4".to_owned() {
        Ok(4)
    } else {
        Err("Type is invalid (not SCALAR, VEC2, VEC3, or VEC4)")
    }
}

/// The words grouped into consecutive pairs; a trailing incomplete pair
/// is discarded.
pub open spec fn spec_group2(s: Seq<u32>) -> Seq<Seq<u32>> {
    Seq::new((s.len() / 2) as nat, |i: int| s.subrange(2 * i, 2 * i + 2))
}

/// The words grouped into consecutive triples; a trailing incomplete
/// triple is discarded.
pub open spec fn spec_group3(s: Seq<u32>) -> Seq<Seq<u32>> {
    Seq::new((s.len() / 3) as nat, |i: int| s.subrange(3 * i, 3 * i + 3))
}

/// The words grouped into consecutive quadruples; a trailing incomplete
/// quadruple is discarded.
pub open spec fn spec_group4(s: Seq<u32>) -> Seq<Seq<u32>> {
    Seq::new((s.len() / 4) as nat, |i: int| s.subrange(4 * i, 4 * i + 4))
}

/// Packs a flat float sequence into 2-wide vectors, discarding a trailing
/// incomplete group.
pub fn group_floats_vec2(float_vec: Vec<u32>) -> (r: Vec<[u32; 2]>)
    ensures
        r@.len() == float_vec@.len() / 2,
        forall|i: int| 0 <= i < r@.len() ==> #[trigger] r@[i]@ == spec_group2(float_vec@)[i],
{
    let n = float_vec.len() / 2;
    let mut r: Vec<[u32; 2]> = Vec::new();
    let mut i: usize = 0;
    while i < n
        invariant
            i <= n,
            n == float_vec@.len() / 2,
            float_vec@.len() <= usize::MAX,
            r@.len() == i,
            forall|j: int| 0 <= j < i ==> #[trigger] r@[j]@ == spec_group2(float_vec@)[j],
        decreases n - i,
    {
        let g: [u32; 2] = [float_vec[2 * i], float_vec[2 * i + 1]];
        assert(g@ =~= spec_group2(float_vec@)[i as int]);
        r.push(g);
        i = i + 1;
    }
    r
}

/// Packs a flat float sequence into 3-wide vectors, discarding a trailing
/// incomplete group.
pub fn group_floats_vec3(float_vec: Vec<u32>) -> (r: Vec<[u32; 3]>)
    ensures
        r@.len() == float_vec@.len() / 3,
        forall|i: int| 0 <= i < r@.len() ==> #[trigger] r@[i]@ == spec_group3(float_vec@)[i],
{
    let n = float_vec.len() / 3;
    let mut r: Vec<[u32; 3]> = Vec::new();
    let mut i: usize = 0;
    while i < n
        invariant
            i <= n,
            n == float_vec@.len() / 3,
            float_vec@.len() <= usize::MAX,
            r@.len() == i,
            forall|j: int| 0 <= j < i ==> #[trigger] r@[j]@ == spec_group3(float_vec@)[j],
        decreases n - i,
    {
        let g: [u32; 3] = [float_vec[3 * i], float_vec[3 * i + 1], float_vec[3 * i + 2]];
        assert(g@ =~= spec_group3(float_vec@)[i as int]);
        r.push(g);
        i = i + 1;
    }
    r
}

/// Packs a flat float sequence into 4-wide vectors, discarding a trailing
/// incomplete group.
pub fn group_floats_vec4(float_vec: Vec<u32>) -> (r: Vec<[u32; 4]>)
    ensures
        r@.len() == float_vec@.len() / 4,
        forall|i: int| 0 <= i < r@.len() ==> #[trigger] r@[i]@ == spec_group4(float_vec@)[i],
{
    let n = float_vec.len() / 4;
    let mut r: Vec<[u32; 4]> = Vec::new();
    let mut i: usize = 0;
    while i < n
        invariant
            i <= n,
            n == float_vec@.len() / 4,
            float_vec@.len() <= usize::MAX,
            r@.len() == i,
            forall|j: int| 0 <= j < i ==> #[trigger] r@[j]@ == spec_group4(float_vec@)[j],
        decreases n - i,
    {
        let g: [u32; 4] = [
            float_vec[4 * i],
            float_vec[4 * i + 1],
            float_vec[4 * i + 2],
            float_vec[4 * i + 3],
        ];
        assert(g@ =~= spec_group4(float_vec@)[i as int]);
        r.push(g);
        i = i + 1;
    }
    r
}

/// The interleaved vertex words of the first `k` vertices: for each
/// vertex, position (3), normal (3), a fixed white color (3), and texture
/// coordinates (2) — 11 words in all.
pub open spec fn spec_assembled(
    positions: Seq<Seq<u32>>,
    normals: Seq<Seq<u32>>,
    tex_uvs: Seq<Seq<u32>>,
    k: int,
) -> Seq<u32>
    decreases k,
{
    if k <= 0 {
        Seq::empty()
    } else {
        spec_assembled(positions, normals, tex_uvs, k - 1) + positions[k - 1] + normals[k - 1]
            + seq![F32_ONE, F32_ONE, F32_ONE] + tex_uvs[k - 1]
    }
}

/// Interleaves grouped attributes into the 11-float vertex layout, with
/// the fixed color white injected for every vertex.
pub fn assemble_vertices(
    positions: Vec<[u32; 3]>,
    normals: Vec<[u32; 3]>,
    tex_uvs: Vec<[u32; 2]>,
) -> (r: Vec<u32>)
    requires
        normals@.len() >= positions@.len(),
        tex_uvs@.len() >= positions@.len(),
    ensures
        r@ == spec_assembled(
            positions.deep_view(),
            normals.deep_view(),
            tex_uvs.deep_view(),
            positions@.len() as int,
        ),
        r@.len() == 11 * positions@.len(),
{
    let mut r: Vec<u32> = Vec::new();
    let mut i: usize = 0;
    while i < positions.len()
        invariant
            i <= positions@.len(),
            normals@.len() >= positions@.len(),
            tex_uvs@.len() >= positions@.len(),
            r@ == spec_assembled(
                positions.deep_view(),
                normals.deep_view(),
                tex_uvs.deep_view(),
                i as int,
            ),
            r@.len() == 11 * i,
        decreases positions@.len() - i,
    {
        let position = positions[i];
        let normal = normals[i];
        let tex_uv = tex_uvs[i];
        r.push(position[0]);
        r.push(position[1]);
        r.push(position[2]);
        r.push(normal[0]);
        r.push(normal[1]);
        r.push(normal[2]);
        r.push(F32_ONE);
        r.push(F32_ONE);
        r.push(F32_ONE);
        r.push(tex_uv[0]);
        r.push(tex_uv[1]);
        assert(r@ =~= spec_assembled(
            positions.deep_view(),
            normals.deep_view(),
            tex_uvs.deep_view(),
            i + 1,
        )) by {
            assert(positions.deep_view()[i as int] =~= seq![position[0], position[1], position[2]]);
            assert(normals.deep_view()[i as int] =~= seq![normal[0], normal[1], normal[2]]);
            assert(tex_uvs.deep_view()[i as int] =~= seq![tex_uv[0], tex_uv[1]]);
        }
        i = i + 1;
    }
    r
}

/// Assembles two bytes into their zero-extended little-endian word.
fn u16_word(b0: u8, b1: u8) -> (r: u32)
    ensures
        r == spec_u16_word(b0, b1),
{
    b0 as u32 + b1 as u32 * 0x100
}

/// Assembles two bytes into their sign-extended little-endian word.
fn i16_word(b0: u8, b1: u8) -> (r: u32)
    ensures
        r == spec_i16_word(b0, b1),
{
    let lo = b0 as u32 + b1 as u32 * 0x100;
    if b1 >= 0x80 {
        lo + 0xFFFF_0000
    } else {
        lo
    }
}

/// The decoded geometry of one traversed mesh, CPU-side.
pub struct MeshData {
    /// Interleaved 11-float vertex words.
    pub vertices: Vec<u32>,
    /// Triangle indices, widened to 32 bits.
    pub indices: Vec<u32>,
}

/// The decomposed transform the traverser records for a mesh-bearing
/// node, together with the node's resolved world transform.
pub struct MeshPlacement {
    pub translation: Vec3Bits,
    pub rotation: QuatBits,
    pub scale: Vec3Bits,
    pub world: Mat4Bits,
    pub mesh: usize,
}

/// A loaded model: the parsed scene description and blob it came from,
/// the traversal's output, the decoded geometry of every referenced mesh,
/// the GPU meshes once attached, and the caller-chosen placement.
pub struct Model {
    pub doc: Document,
    pub data: Vec<u8>,
    pub placements: Vec<MeshPlacement>,
    pub mesh_data: Vec<MeshData>,
    pub meshes: Vec<Mesh>,
    pub position: Vec3Bits,
    pub scale: Vec3Bits,
    pub rotation: QuatBits,
}

/// The buffer view an accessor selects on the float path: view 1 when
/// the member is absent. The index path defaults to view 0 instead; the
/// two paths have always diverged here, and both defaults are kept
/// deliberately.
pub open spec fn spec_float_buffer_view(a: Accessor) -> int {
    if a.buffer_view is Absent {
        1int
    } else {
        a.buffer_view->Val_0 as int
    }
}

/// The buffer view an accessor selects on the index path: view 0 when
/// the member is absent.
pub open spec fn spec_index_buffer_view(a: Accessor) -> int {
    if a.buffer_view is Absent {
        0int
    } else {
        a.buffer_view->Val_0 as int
    }
}

/// An accessor's own extra byte offset; zero when absent.
pub open spec fn spec_accessor_offset(a: Accessor) -> int {
    if a.byte_offset is Absent {
        0int
    } else {
        a.byte_offset->Val_0 as int
    }
}

/// Where an accessor's data starts in the blob: the selected buffer
/// view's offset plus the accessor's own.
pub open spec fn spec_data_start(doc: Document, a: Accessor, bv: int) -> int {
    doc.buffer_views@[bv].byte_offset->0 + spec_accessor_offset(a)
}

/// What decoding a float attribute accessor yields: the accessor and the
/// buffer view it selects (index 1 when absent) must carry usable fields,
/// the element shape must be one of the four known tags, and the byte
/// range `count * components * 4` from the combined offset must lie
/// inside the blob; then the result is that range read as little-endian
/// 32-bit words.
pub open spec fn spec_get_floats(doc: Document, data: Seq<u8>, a: Accessor) -> Result<
    Seq<u32>,
    GltfError,
> {
    if a.buffer_view is Bad || a.count is None || a.byte_offset is Bad || a.element_type is None {
        Err(GltfError::MissingField)
    } else {
        let bv = spec_float_buffer_view(a);
        if bv >= doc.buffer_views@.len() || doc.buffer_views@[bv].byte_offset is None {
            Err(GltfError::MissingField)
        } else {
            match spec_components_per_element(a.element_type->0@) {
                None => Err(GltfError::BadAccessorType),
                Some(npv) => {
                    let start = spec_data_start(doc, a, bv);
                    let total = a.count->0 * npv;
                    if start + 4 * total <= data.len() {
                        Ok(spec_words_32(data, start, total as int))
                    } else {
                        Err(GltfError::OutOfBounds)
                    }
                },
            }
        }
    }
}

/// What decoding an index accessor yields: as for floats, but the buffer
/// view defaults to index 0, and the component type selects the width and
/// signedness — 5125 reads 32-bit words, 5123 zero-extends 16-bit words,
/// 5122 sign-extends 16-bit words; any other code is a format error.
pub open spec fn spec_get_indices(doc: Document, data: Seq<u8>, a: Accessor) -> Result<
    Seq<u32>,
    GltfError,
> {
    if a.buffer_view is Bad || a.count is None || a.byte_offset is Bad || a.component_type
        is None {
        Err(GltfError::MissingField)
    } else {
        let bv = spec_index_buffer_view(a);
        if bv >= doc.buffer_views@.len() || doc.buffer_views@[bv].byte_offset is None {
            Err(GltfError::MissingField)
        } else {
            let start = spec_data_start(doc, a, bv);
            let count = a.count->0 as int;
            let code = a.component_type->0;
            if code == 5125 {
                if start + 4 * count <= data.len() {
                    Ok(spec_words_32(data, start, count))
                } else {
                    Err(GltfError::OutOfBounds)
                }
            } else if code == 5123 {
                if start + 2 * count <= data.len() {
                    Ok(spec_words_u16(data, start, count))
                } else {
                    Err(GltfError::OutOfBounds)
                }
            } else if code == 5122 {
                if start + 2 * count <= data.len() {
                    Ok(spec_words_i16(data, start, count))
                } else {
                    Err(GltfError::OutOfBounds)
                }
            } else {
                Err(GltfError::BadComponentType)
            }
        }
    }
}

impl Model {
    /// Decodes a float attribute accessor from the binary blob: exactly
    /// the words [`spec_get_floats`] describes, or its error.
    pub fn get_floats(&self, accessor: &Accessor) -> (r: Result<Vec<u32>, GltfError>)
        ensures
            (match r {
                Ok(v) => spec_get_floats(self.doc, self.data@, *accessor) == Ok::<
                    Seq<u32>,
                    GltfError,
                >(v@),
                Err(e) => spec_get_floats(self.doc, self.data@, *accessor) == Err::<
                    Seq<u32>,
                    GltfError,
                >(e),
            }),
    {
        let bv_ix: usize = match accessor.buffer_view {
            Field::Absent => 1,
            Field::Val(v) => v,
            Field::Bad => {
                return Err(GltfError::MissingField);
            },
        };
        let count: usize = match accessor.count {
            Some(c) => c,
            None => {
                return Err(GltfError::MissingField);
            },
        };
        let acc_byte_offset: usize = match accessor.byte_offset {
            Field::Absent => 0,
            Field::Val(v) => v,
            Field::Bad => {
                return Err(GltfError::MissingField);
            },
        };
        let element_type: &String = match &accessor.element_type {
            Some(t) => t,
            None => {
                return Err(GltfError::MissingField);
            },
        };
        if bv_ix >= self.doc.buffer_views.len() {
            return Err(GltfError::MissingField);
        }
        let byte_offset: usize = match self.doc.buffer_views[bv_ix].byte_offset {
            Some(b) => b,
            None => {
                return Err(GltfError::MissingField);
            },
        };
        let num_per_vert: usize = match interpret_type(element_type.as_str()) {
            Ok(n) => n,
            Err(_) => {
                return Err(GltfError::BadAccessorType);
            },
        };
        let start_wide = byte_offset as u128 + acc_byte_offset as u128;
        assert(num_per_vert <= 4);
        assert(count as u128 * num_per_vert as u128 <= 4 * 0xFFFF_FFFF_FFFF_FFFFu128)
            by (nonlinear_arith)
            requires
                num_per_vert as u128 <= 4,
                count as u128 <= 0xFFFF_FFFF_FFFF_FFFFu128,
        ;
        let total_wide = count as u128 * num_per_vert as u128;
        if start_wide + 4 * total_wide > self.data.len() as u128 {
            return Err(GltfError::OutOfBounds);
        }
        let beginning_of_data: usize = byte_offset + acc_byte_offset;
        let total: usize = count * num_per_vert;
        let mut float_vec: Vec<u32> = Vec::new();
        let mut i: usize = 0;
        while i < total
            invariant
                i <= total,
                beginning_of_data + 4 * total <= self.data@.len(),
                self.data@.len() <= usize::MAX,
                float_vec@ == spec_words_32(self.data@, beginning_of_data as int, i as int),
            decreases total - i,
        {
            let base = beginning_of_data + 4 * i;
            let w = le_word(
                self.data[base],
                self.data[base + 1],
                self.data[base + 2],
                self.data[base + 3],
            );
            float_vec.push(w);
            assert(float_vec@ =~= spec_words_32(
                self.data@,
                beginning_of_data as int,
                i as int + 1,
            ));
            i = i + 1;
        }
        Ok(float_vec)
    }

    /// Decodes an index accessor from the binary blob: exactly the words
    /// [`spec_get_indices`] describes, or its error.
    pub fn get_indices(&self, accessor: &Accessor) -> (r: Result<Vec<u32>, GltfError>)
        ensures
            (match r {
                Ok(v) => spec_get_indices(self.doc, self.data@, *accessor) == Ok::<
                    Seq<u32>,
                    GltfError,
                >(v@),
                Err(e) => spec_get_indices(self.doc, self.data@, *accessor) == Err::<
                    Seq<u32>,
                    GltfError,
                >(e),
            }),
    {
        let bv_ix: usize = match accessor.buffer_view {
            Field::Absent => 0,
            Field::Val(v) => v,
            Field::Bad => {
                return Err(GltfError::MissingField);
            },
        };
        let count: usize = match accessor.count {
            Some(c) => c,
            None => {
                return Err(GltfError::MissingField);
            },
        };
        let acc_byte_offset: usize = match accessor.byte_offset {
            Field::Absent => 0,
            Field::Val(v) => v,
            Field::Bad => {
                return Err(GltfError::MissingField);
            },
        };
        let component_type: u32 = match accessor.component_type {
            Some(c) => c,
            None => {
                return Err(GltfError::MissingField);
            },
        };
        if bv_ix >= self.doc.buffer_views.len() {
            return Err(GltfError::MissingField);
        }
        let byte_offset: usize = match self.doc.buffer_views[bv_ix].byte_offset {
            Some(b) => b,
            None => {
                return Err(GltfError::MissingField);
            },
        };
        let start_wide = byte_offset as u128 + acc_byte_offset as u128;
        let mut indices: Vec<u32> = Vec::new();
        if component_type == 5125 {
            if start_wide + 4 * (count as u128) > self.data.len() as u128 {
                return Err(GltfError::OutOfBounds);
            }
            let beginning_of_data: usize = byte_offset + acc_byte_offset;
            let mut i: usize = 0;
            while i < count
                invariant
                    i <= count,
                    beginning_of_data + 4 * count <= self.data@.len(),
                    self.data@.len() <= usize::MAX,
                    indices@ == spec_words_32(self.data@, beginning_of_data as int, i as int),
                decreases count - i,
            {
                let base = beginning_of_data + 4 * i;
                let w = le_word(
                    self.data[base],
                    self.data[base + 1],
                    self.data[base + 2],
                    self.data[base + 3],
                );
                indices.push(w);
                assert(indices@ =~= spec_words_32(
                    self.data@,
                    beginning_of_data as int,
                    i as int + 1,
                ));
                i = i + 1;
            }
        } else if component_type == 5123 {
            if start_wide + 2 * (count as u128) > self.data.len() as u128 {
                return Err(GltfError::OutOfBounds);
            }
            let beginning_of_data: usize = byte_offset + acc_byte_offset;
            let mut i: usize = 0;
            while i < count
                invariant
                    i <= count,
                    beginning_of_data + 2 * count <= self.data@.len(),
                    self.data@.len() <= usize::MAX,
                    indices@ == spec_words_u16(self.data@, beginning_of_data as int, i as int),
                decreases count - i,
            {
                let base = beginning_of_data + 2 * i;
                let w = u16_word(self.data[base], self.data[base + 1]);
                indices.push(w);
                assert(indices@ =~= spec_words_u16(
                    self.data@,
                    beginning_of_data as int,
                    i as int + 1,
                ));
                i = i + 1;
            }
        } else if component_type == 5122 {
            if start_wide + 2 * (count as u128) > self.data.len() as u128 {
                return Err(GltfError::OutOfBounds);
            }
            let beginning_of_data: usize = byte_offset + acc_byte_offset;
            let mut i: usize = 0;
            while i < count
                invariant
                    i <= count,
                    beginning_of_data + 2 * count <= self.data@.len(),
                    self.data@.len() <= usize::MAX,
                    indices@ == spec_words_i16(self.data@, beginning_of_data as int, i as int),
                decreases count - i,
            {
                let base = beginning_of_data + 2 * i;
                let w = i16_word(self.data[base], self.data[base + 1]);
                indices.push(w);
                assert(indices@ =~= spec_words_i16(
                    self.data@,
                    beginning_of_data as int,
                    i as int + 1,
                ));
                i = i + 1;
            }
        } else {
            return Err(GltfError::BadComponentType);
        }
        Ok(indices)
    }
}

/// The mathematical value of a recorded placement.
pub ghost struct SpecPlacement {
    pub translation: Seq<u32>,
    pub rotation: Seq<u32>,
    pub scale: Seq<u32>,
    pub world: Seq<u32>,
    pub mesh: usize,
}

impl View for MeshPlacement {
    type V = SpecPlacement;

    open spec fn view(&self) -> SpecPlacement {
        SpecPlacement {
            translation: self.translation@,
            rotation: self.rotation@,
            scale: self.scale@,
            world: self.world@,
            mesh: self.mesh,
        }
    }
}

/// The mathematical value of a placement list.
pub open spec fn placement_views(s: Seq<MeshPlacement>) -> Seq<SpecPlacement> {
    s.map_values(|p: MeshPlacement| p@)
}

/// A node's world transform given its parent's: the present transform
/// factors — matrix override, then translation, rotation, scale — are
/// multiplied onto the accumulator from the left, in that order; a node
/// with no transform fields leaves the accumulator unchanged.
pub open spec fn spec_node_world(node: crate::asset::NodeDesc, acc: Seq<u32>) -> Seq<u32> {
    let w0 = if node.matrix is Val {
        crate::glmath::spec_mat4_mul(acc, node.matrix->Val_0@)
    } else {
        acc
    };
    let w1 = if node.translation is Val {
        crate::glmath::spec_mat4_mul(
            w0,
            crate::glmath::spec_translation_mat(node.translation->Val_0@),
        )
    } else {
        w0
    };
    let w2 = if node.rotation is Val {
        crate::glmath::spec_mat4_mul(w1, crate::glmath::spec_quat_cast_mat(node.rotation->Val_0@))
    } else {
        w1
    };
    if node.scale is Val {
        crate::glmath::spec_mat4_mul(w2, crate::glmath::spec_scale_mat(node.scale->Val_0@))
    } else {
        w2
    }
}

/// Whether a node carries no transform field at all.
pub open spec fn spec_node_has_no_transform(node: crate::asset::NodeDesc) -> bool {
    &&& node.matrix is Absent
    &&& node.translation is Absent
    &&& node.rotation is Absent
    &&& node.scale is Absent
}

/// Identity composition: a node with no transform fields set has its
/// parent's world transform, unchanged.
pub proof fn lemma_identity_composition(node: crate::asset::NodeDesc, acc: Seq<u32>)
    requires
        spec_node_has_no_transform(node),
    ensures
        spec_node_world(node, acc) == acc,
{
}

/// Identity composition in the traversal itself: a visitable node with no
/// transform fields records any placement at the accumulated transform it
/// received, unchanged, and hands every child recursion that same
/// transform.
pub proof fn lemma_traverse_identity_composition(
    doc: Document,
    ix: int,
    acc: Seq<u32>,
    fuel: nat,
)
    requires
        fuel > 0,
        0 <= ix < doc.nodes@.len(),
        spec_node_has_no_transform(doc.nodes@[ix]),
        !(doc.nodes@[ix].mesh is Bad),
        !(doc.nodes@[ix].children is Bad),
    ensures
        ({
            let node = doc.nodes@[ix];
            let own: Seq<SpecPlacement> = if node.mesh is Val {
                seq![spec_node_placement(node, acc)]
            } else {
                Seq::empty()
            };
            let children: Seq<usize> = if node.children is Val {
                node.children->Val_0@
            } else {
                Seq::empty()
            };
            spec_traverse(doc, ix, acc, fuel) == (match spec_traverse_children(
                doc,
                children,
                children.len() as int,
                acc,
                (fuel - 1) as nat,
            ) {
                Err(e) => Err::<Seq<SpecPlacement>, GltfError>(e),
                Ok(rest) => Ok::<Seq<SpecPlacement>, GltfError>(own + rest),
            })
        }),
{
    lemma_identity_composition(doc.nodes@[ix], acc);
}

/// The default translation recorded for a node without one.
pub open spec fn spec_default_translation() -> Seq<u32> {
    seq![crate::types::F32_ZERO, crate::types::F32_ZERO, crate::types::F32_ZERO]
}

/// The default rotation recorded for a node without one: the quaternion
/// the engine builds from `(1, 0, 0, 0)`.
pub open spec fn spec_default_rotation() -> Seq<u32> {
    seq![F32_ONE, crate::types::F32_ZERO, crate::types::F32_ZERO, crate::types::F32_ZERO]
}

/// The default scale recorded for a node without one.
pub open spec fn spec_default_scale() -> Seq<u32> {
    seq![F32_ONE, F32_ONE, F32_ONE]
}

/// The placement the traverser records when it visits a mesh-bearing node.
pub open spec fn spec_node_placement(node: crate::asset::NodeDesc, world: Seq<u32>) -> SpecPlacement {
    SpecPlacement {
        translation: if node.translation is Val {
            node.translation->Val_0@
        } else {
            spec_default_translation()
        },
        rotation: if node.rotation is Val {
            node.rotation->Val_0@
        } else {
            spec_default_rotation()
        },
        scale: if node.scale is Val {
            node.scale->Val_0@
        } else {
            spec_default_scale()
        },
        world: world,
        mesh: node.mesh->Val_0,
    }
}

/// The placements a depth-first walk from node `ix` with accumulated
/// transform `acc` records, or the error it stops on. Each recursion step
/// consumes one unit of fuel; a hierarchy deeper than the fuel (which the
/// loader sets above the node count, enough for any tree) is rejected
/// rather than followed forever. A node index outside the hierarchy
/// records nothing.
pub open spec fn spec_traverse(doc: Document, ix: int, acc: Seq<u32>, fuel: nat) -> Result<
    Seq<SpecPlacement>,
    GltfError,
>
    decreases fuel, 0int, 0int,
{
    if fuel == 0 {
        Err(GltfError::DepthExceeded)
    } else if ix < 0 || ix >= doc.nodes@.len() {
        Ok(Seq::empty())
    } else {
        let node = doc.nodes@[ix];
        if node.matrix is Bad || node.translation is Bad || node.rotation is Bad || node.scale
            is Bad || node.mesh is Bad || node.children is Bad {
            Err(GltfError::MissingField)
        } else {
            let world = spec_node_world(node, acc);
            let own: Seq<SpecPlacement> = if node.mesh is Val {
                seq![spec_node_placement(node, world)]
            } else {
                Seq::empty()
            };
            let children: Seq<usize> = if node.children is Val {
                node.children->Val_0@
            } else {
                Seq::empty()
            };
            match spec_traverse_children(doc, children, children.len() as int, world, (fuel
                - 1) as nat) {
                Err(e) => Err(e),
                Ok(rest) => Ok(own + rest),
            }
        }
    }
}

/// The placements the first `k` children of a node record under the
/// node's world transform, in order, or the first error among them.
pub open spec fn spec_traverse_children(
    doc: Document,
    children: Seq<usize>,
    k: int,
    world: Seq<u32>,
    fuel: nat,
) -> Result<Seq<SpecPlacement>, GltfError>
    decreases fuel, 1int, k,
{
    if k <= 0 {
        Ok(Seq::empty())
    } else {
        match spec_traverse_children(doc, children, k - 1, world, fuel) {
            Err(e) => Err(e),
            Ok(s1) => match spec_traverse(doc, children[k - 1] as int, world, fuel) {
                Err(e) => Err(e),
                Ok(s2) => Ok(s1 + s2),
            },
        }
    }
}

/// Walks the hierarchy depth-first from `next_node`, appending a
/// placement for every mesh-bearing node reached, exactly as
/// [`spec_traverse`] describes.
#[verifier::rlimit(100)]
#[verifier::spinoff_prover]
#[verifier::loop_isolation(false)]
fn traverse_node(
    doc: &Document,
    state: &mut Vec<MeshPlacement>,
    next_node: usize,
    matrix: &Mat4Bits,
    fuel: usize,
) -> (r: Result<(), GltfError>)
    ensures
        r is Ok <==> spec_traverse(*doc, next_node as int, matrix@, fuel as nat) is Ok,
        r matches Ok(()) ==> placement_views(final(state)@) == placement_views(old(state)@)
            + spec_traverse(*doc, next_node as int, matrix@, fuel as nat)->Ok_0,
        r matches Err(e) ==> spec_traverse(*doc, next_node as int, matrix@, fuel as nat) == Err::<
            Seq<SpecPlacement>,
            GltfError,
        >(e),
    decreases fuel,
{
    if fuel == 0 {
        return Err(GltfError::DepthExceeded);
    }
    if next_node >= doc.nodes.len() {
        assert(placement_views(state@) =~= placement_views(state@) + Seq::<SpecPlacement>::empty());
        return Ok(());
    }
    let node = &doc.nodes[next_node];
    if matches!(node.matrix, Field::Bad) || matches!(node.translation, Field::Bad) || matches!(
        node.rotation,
        Field::Bad,
    ) || matches!(node.scale, Field::Bad) || matches!(node.mesh, Field::Bad) || matches!(
        node.children,
        Field::Bad,
    ) {
        return Err(GltfError::MissingField);
    }
    let mut world: Mat4Bits = *matrix;
    match &node.matrix {
        Field::Val(m) => {
            world = crate::glmath::mat4_mul(&world, m);
        },
        _ => {},
    }
    match &node.translation {
        Field::Val(t) => {
            let tm = crate::glmath::translation_matrix(t);
            world = crate::glmath::mat4_mul(&world, &tm);
        },
        _ => {},
    }
    match &node.rotation {
        Field::Val(q) => {
            let rm = crate::glmath::quat_cast_matrix(q);
            world = crate::glmath::mat4_mul(&world, &rm);
        },
        _ => {},
    }
    match &node.scale {
        Field::Val(s) => {
            let sm = crate::glmath::scale_matrix(s);
            world = crate::glmath::mat4_mul(&world, &sm);
        },
        _ => {},
    }
    assert(world@ == spec_node_world(*node, matrix@));
    match &node.mesh {
        Field::Val(m) => {
            let translation: Vec3Bits = match &node.translation {
                Field::Val(t) => *t,
                _ => [crate::types::F32_ZERO, crate::types::F32_ZERO, crate::types::F32_ZERO],
            };
            let rotation: QuatBits = match &node.rotation {
                Field::Val(q) => *q,
                _ => [
                    F32_ONE,
                    crate::types::F32_ZERO,
                    crate::types::F32_ZERO,
                    crate::types::F32_ZERO,
                ],
            };
            let scale: Vec3Bits = match &node.scale {
                Field::Val(s) => *s,
                _ => [F32_ONE, F32_ONE, F32_ONE],
            };
            let placement = MeshPlacement { translation, rotation, scale, world, mesh: *m };
            assert(placement@ == spec_node_placement(*node, world@)) by {
                assert(placement.translation@ =~= spec_node_placement(*node, world@).translation);
                assert(placement.rotation@ =~= spec_node_placement(*node, world@).rotation);
                assert(placement.scale@ =~= spec_node_placement(*node, world@).scale);
            }
            state.push(placement);
        },
        _ => {},
    }
    let ghost own_done = placement_views(state@);
    let ghost spec_own: Seq<SpecPlacement> = if node.mesh is Val {
        seq![spec_node_placement(*node, world@)]
    } else {
        Seq::empty()
    };
    assert(own_done =~= placement_views(old(state)@) + spec_own);
    match &node.children {
        Field::Val(children) => {
            let ghost subfuel = (fuel - 1) as nat;
            let mut i: usize = 0;
            while i < children.len()
                invariant
                    i <= children@.len(),
                    fuel >= 1,
                    subfuel == (fuel - 1) as nat,
                    spec_traverse_children(*doc, children@, i as int, world@, subfuel) is Ok,
                    placement_views(state@) == own_done + spec_traverse_children(
                        *doc,
                        children@,
                        i as int,
                        world@,
                        subfuel,
                    )->Ok_0,
                decreases children@.len() - i,
            {
                let child = children[i];
                let res = traverse_node(doc, state, child, &world, fuel - 1);
                match res {
                    Ok(()) => {
                        proof {
                            let prev = spec_traverse_children(*doc, children@, i as int, world@, subfuel);
                            let cres = spec_traverse(*doc, children@[i as int] as int, world@, subfuel);
                            assert(spec_traverse_children(*doc, children@, i as int + 1, world@, subfuel)
                                == Ok::<Seq<SpecPlacement>, GltfError>(prev->Ok_0 + cres->Ok_0));
                            assert(placement_views(state@) =~= own_done + (prev->Ok_0 + cres->Ok_0));
                        }
                    },
                    Err(e) => {
                        proof {
                            assert(spec_traverse_children(*doc, children@, i as int + 1, world@, subfuel)
                                == Err::<Seq<SpecPlacement>, GltfError>(e));
                            lemma_children_error_persists(
                                *doc,
                                children@,
                                i as int + 1,
                                children@.len() as int,
                                world@,
                                subfuel,
                            );
                            assert(spec_traverse(*doc, next_node as int, matrix@, fuel as nat)
                                == Err::<Seq<SpecPlacement>, GltfError>(e));
                        }
                        return Err(e);
                    },
                }
                i = i + 1;
            }
            assert(placement_views(state@) == placement_views(old(state)@) + spec_traverse(
                *doc,
                next_node as int,
                matrix@,
                fuel as nat,
            )->Ok_0) by {
                assert(spec_traverse(*doc, next_node as int, matrix@, fuel as nat)->Ok_0 =~= spec_own
                    + spec_traverse_children(
                    *doc,
                    children@,
                    children@.len() as int,
                    world@,
                    subfuel,
                )->Ok_0);
            }
            Ok(())
        },
        _ => {
            assert(spec_traverse(*doc, next_node as int, matrix@, fuel as nat)->Ok_0 =~= spec_own);
            assert(placement_views(state@) =~= placement_views(old(state)@) + spec_traverse(
                *doc,
                next_node as int,
                matrix@,
                fuel as nat,
            )->Ok_0);
            Ok(())
        },
    }
}

/// Once the walk over the first `k` children fails, walking any more
/// children fails with the same error.
proof fn lemma_children_error_persists(
    doc: Document,
    children: Seq<usize>,
    k: int,
    j: int,
    world: Seq<u32>,
    fuel: nat,
)
    requires
        0 <= k <= j,
        spec_traverse_children(doc, children, k, world, fuel) is Err,
    ensures
        spec_traverse_children(doc, children, j, world, fuel) == spec_traverse_children(
            doc,
            children,
            k,
            world,
            fuel,
        ),
    decreases j - k,
{
    if j > k {
        lemma_children_error_persists(doc, children, k, j - 1, world, fuel);
    }
}

/// The mathematical value of one mesh's decoded geometry.
pub ghost struct SpecMeshData {
    pub vertices: Seq<u32>,
    pub indices: Seq<u32>,
}

impl View for MeshData {
    type V = SpecMeshData;

    open spec fn view(&self) -> SpecMeshData {
        SpecMeshData { vertices: self.vertices@, indices: self.indices@ }
    }
}

/// The mathematical value of a decoded geometry list.
pub open spec fn mesh_data_views(s: Seq<MeshData>) -> Seq<SpecMeshData> {
    s.map_values(|d: MeshData| d@)
}

/// Float decoding through an accessor index: an index outside the
/// accessor list behaves like an accessor with every field missing.
pub open spec fn spec_acc_floats(doc: Document, data: Seq<u8>, ix: int) -> Result<
    Seq<u32>,
    GltfError,
> {
    if 0 <= ix < doc.accessors@.len() {
        spec_get_floats(doc, data, doc.accessors@[ix])
    } else {
        Err(GltfError::MissingField)
    }
}

/// Index decoding through an accessor index; see [`spec_acc_floats`].
pub open spec fn spec_acc_indices(doc: Document, data: Seq<u8>, ix: int) -> Result<
    Seq<u32>,
    GltfError,
> {
    if 0 <= ix < doc.accessors@.len() {
        spec_get_indices(doc, data, doc.accessors@[ix])
    } else {
        Err(GltfError::MissingField)
    }
}

/// What loading one mesh yields: the four accessor indices of the first
/// primitive must be present; the three attributes decode as floats and
/// are grouped; the normal and texture-coordinate lists must cover every
/// position; the indices decode by component type; the vertices are the
/// interleaved 11-float layout.
pub open spec fn spec_load_mesh(doc: Document, data: Seq<u8>, ind: int) -> Result<
    SpecMeshData,
    GltfError,
> {
    if ind < 0 || ind >= doc.meshes@.len() {
        Err(GltfError::MissingField)
    } else {
        let p = doc.meshes@[ind].primitive;
        if p.position is None || p.normal is None || p.texcoord is None || p.indices is None {
            Err(GltfError::MissingField)
        } else {
            match spec_acc_floats(doc, data, p.position->0 as int) {
                Err(e) => Err(e),
                Ok(pos_words) => match spec_acc_floats(doc, data, p.normal->0 as int) {
                    Err(e) => Err(e),
                    Ok(norm_words) => match spec_acc_floats(doc, data, p.texcoord->0 as int) {
                        Err(e) => Err(e),
                        Ok(tex_words) => {
                            let positions = spec_group3(pos_words);
                            let normals = spec_group3(norm_words);
                            let tex_uvs = spec_group2(tex_words);
                            if normals.len() < positions.len() || tex_uvs.len() < positions.len() {
                                Err(GltfError::AttributeMismatch)
                            } else {
                                match spec_acc_indices(doc, data, p.indices->0 as int) {
                                    Err(e) => Err(e),
                                    Ok(idx) => Ok(
                                        SpecMeshData {
                                            vertices: spec_assembled(
                                                positions,
                                                normals,
                                                tex_uvs,
                                                positions.len() as int,
                                            ),
                                            indices: idx,
                                        },
                                    ),
                                }
                            }
                        },
                    },
                },
            }
        }
    }
}

/// The fuel the loader hands the traverser: one more than the node count,
/// enough to reach every node of any tree-shaped hierarchy.
pub open spec fn spec_root_fuel(doc: Document) -> nat {
    if doc.nodes@.len() + 1 <= usize::MAX {
        (doc.nodes@.len() + 1) as nat
    } else {
        usize::MAX as nat
    }
}

/// Whether a parsed scene description and its blob load completely: the
/// hierarchy traversal from node 0 succeeds, and the geometry of every
/// recorded placement decodes.
pub open spec fn spec_model_loads(doc: Document, data: Seq<u8>) -> bool {
    let tr = spec_traverse(doc, 0, crate::glmath::spec_mat4_identity(), spec_root_fuel(doc));
    &&& tr is Ok
    &&& forall|i: int|
        0 <= i < tr->Ok_0.len() ==> spec_load_mesh(
            doc,
            data,
            (#[trigger] tr->Ok_0[i]).mesh as int,
        ) is Ok
}

/// The first error among the loads of the first `k` placements, if any.
pub open spec fn spec_first_load_error(
    doc: Document,
    data: Seq<u8>,
    ps: Seq<SpecPlacement>,
    k: int,
) -> Option<GltfError>
    decreases k,
{
    if k <= 0 {
        None
    } else {
        match spec_first_load_error(doc, data, ps, k - 1) {
            Some(e) => Some(e),
            None => match spec_load_mesh(doc, data, ps[k - 1].mesh as int) {
                Err(e) => Some(e),
                Ok(_) => None,
            },
        }
    }
}

/// Once a load error is found among the first `k` placements, scanning
/// further placements finds the same one.
proof fn lemma_first_load_error_persists(
    doc: Document,
    data: Seq<u8>,
    ps: Seq<SpecPlacement>,
    k: int,
    j: int,
)
    requires
        0 <= k <= j,
        spec_first_load_error(doc, data, ps, k) is Some,
    ensures
        spec_first_load_error(doc, data, ps, j) == spec_first_load_error(doc, data, ps, k),
    decreases j - k,
{
    if j > k {
        lemma_first_load_error_persists(doc, data, ps, k, j - 1);
    }
}

/// A scan over the first `k` placements that finds no error means every
/// one of those loads succeeds.
proof fn lemma_first_load_error_none(doc: Document, data: Seq<u8>, ps: Seq<SpecPlacement>, k: int)
    requires
        spec_first_load_error(doc, data, ps, k) is None,
    ensures
        forall|j: int| 0 <= j < k ==> spec_load_mesh(doc, data, (#[trigger] ps[j]).mesh as int)
            is Ok,
    decreases k,
{
    if k > 0 {
        lemma_first_load_error_none(doc, data, ps, k - 1);
    }
}

/// A traversal error is a depth or missing-field error, never one of the
/// text-level parse errors.
proof fn lemma_traverse_error_kinds(doc: Document, ix: int, acc: Seq<u32>, fuel: nat)
    ensures
        spec_traverse(doc, ix, acc, fuel) matches Err(e) ==> (e == GltfError::DepthExceeded || e
            == GltfError::MissingField),
    decreases fuel, 0int, 0int,
{
    if fuel > 0 && 0 <= ix < doc.nodes@.len() {
        let node = doc.nodes@[ix];
        if !(node.matrix is Bad || node.translation is Bad || node.rotation is Bad || node.scale
            is Bad || node.mesh is Bad || node.children is Bad) {
            let world = spec_node_world(node, acc);
            let children: Seq<usize> = if node.children is Val {
                node.children->Val_0@
            } else {
                Seq::empty()
            };
            lemma_traverse_children_error_kinds(
                doc,
                children,
                children.len() as int,
                world,
                (fuel - 1) as nat,
            );
        }
    }
}

/// See [`lemma_traverse_error_kinds`], for the walk over a child list.
proof fn lemma_traverse_children_error_kinds(
    doc: Document,
    children: Seq<usize>,
    k: int,
    world: Seq<u32>,
    fuel: nat,
)
    ensures
        spec_traverse_children(doc, children, k, world, fuel) matches Err(e) ==> (e
            == GltfError::DepthExceeded || e == GltfError::MissingField),
    decreases fuel, 1int, k,
{
    if k > 0 {
        lemma_traverse_children_error_kinds(doc, children, k - 1, world, fuel);
        lemma_traverse_error_kinds(doc, children[k - 1] as int, world, fuel);
    }
}

/// A mesh-load error is one of the structural decode errors, never one of
/// the text-level parse errors.
proof fn lemma_load_error_kinds(doc: Document, data: Seq<u8>, ind: int)
    ensures
        spec_load_mesh(doc, data, ind) matches Err(e) ==> (e != GltfError::Utf8 && e
            != GltfError::Parse && e != GltfError::DepthExceeded),
{
}

/// See [`lemma_load_error_kinds`], for the scan over a placement list.
proof fn lemma_first_load_error_kinds(doc: Document, data: Seq<u8>, ps: Seq<SpecPlacement>, k: int)
    ensures
        spec_first_load_error(doc, data, ps, k) matches Some(e) ==> (e != GltfError::Utf8 && e
            != GltfError::Parse && e != GltfError::DepthExceeded),
    decreases k,
{
    if k > 0 {
        lemma_first_load_error_kinds(doc, data, ps, k - 1);
        lemma_load_error_kinds(doc, data, ps[k - 1].mesh as int);
    }
}

impl Model {
    /// Decodes a float attribute accessor by its index.
    fn acc_floats(&self, ix: usize) -> (r: Result<Vec<u32>, GltfError>)
        ensures
            (match r {
                Ok(v) => spec_acc_floats(self.doc, self.data@, ix as int) == Ok::<
                    Seq<u32>,
                    GltfError,
                >(v@),
                Err(e) => spec_acc_floats(self.doc, self.data@, ix as int) == Err::<
                    Seq<u32>,
                    GltfError,
                >(e),
            }),
    {
        if ix >= self.doc.accessors.len() {
            return Err(GltfError::MissingField);
        }
        self.get_floats(&self.doc.accessors[ix])
    }

    /// Decodes an index accessor by its index.
    fn acc_indices(&self, ix: usize) -> (r: Result<Vec<u32>, GltfError>)
        ensures
            (match r {
                Ok(v) => spec_acc_indices(self.doc, self.data@, ix as int) == Ok::<
                    Seq<u32>,
                    GltfError,
                >(v@),
                Err(e) => spec_acc_indices(self.doc, self.data@, ix as int) == Err::<
                    Seq<u32>,
                    GltfError,
                >(e),
            }),
    {
        if ix >= self.doc.accessors.len() {
            return Err(GltfError::MissingField);
        }
        self.get_indices(&self.doc.accessors[ix])
    }

    /// Decodes the geometry of one referenced mesh and appends it, exactly
    /// as [`spec_load_mesh`] describes; on an error nothing changes.
    fn load_mesh(&mut self, ind_mesh: usize) -> (r: Result<(), GltfError>)
        ensures
            final(self).doc == old(self).doc,
            final(self).data == old(self).data,
            final(self).placements == old(self).placements,
            final(self).meshes == old(self).meshes,
            final(self).position == old(self).position,
            final(self).scale == old(self).scale,
            final(self).rotation == old(self).rotation,
            (match r {
                Ok(_) => spec_load_mesh(old(self).doc, old(self).data@, ind_mesh as int) is Ok
                    && mesh_data_views(final(self).mesh_data@) == mesh_data_views(
                    old(self).mesh_data@,
                ).push(spec_load_mesh(old(self).doc, old(self).data@, ind_mesh as int)->Ok_0),
                Err(e) => spec_load_mesh(old(self).doc, old(self).data@, ind_mesh as int) == Err::<
                    SpecMeshData,
                    GltfError,
                >(e) && final(self).mesh_data == old(self).mesh_data,
            }),
    {
        if ind_mesh >= self.doc.meshes.len() {
            return Err(GltfError::MissingField);
        }
        let p = self.doc.meshes[ind_mesh].primitive;
        let pos_acc_ind: usize = match p.position {
            Some(v) => v,
            None => {
                return Err(GltfError::MissingField);
            },
        };
        let normal_acc_ind: usize = match p.normal {
            Some(v) => v,
            None => {
                return Err(GltfError::MissingField);
            },
        };
        let tex_acc_ind: usize = match p.texcoord {
            Some(v) => v,
            None => {
                return Err(GltfError::MissingField);
            },
        };
        let ind_acc_ind: usize = match p.indices {
            Some(v) => v,
            None => {
                return Err(GltfError::MissingField);
            },
        };
        let pos_vec = match self.acc_floats(pos_acc_ind) {
            Ok(v) => v,
            Err(e) => {
                return Err(e);
            },
        };
        let positions = group_floats_vec3(pos_vec);
        let normal_vec = match self.acc_floats(normal_acc_ind) {
            Ok(v) => v,
            Err(e) => {
                return Err(e);
            },
        };
        let normals = group_floats_vec3(normal_vec);
        let tex_vec = match self.acc_floats(tex_acc_ind) {
            Ok(v) => v,
            Err(e) => {
                return Err(e);
            },
        };
        let tex_uvs = group_floats_vec2(tex_vec);
        if normals.len() < positions.len() || tex_uvs.len() < positions.len() {
            return Err(GltfError::AttributeMismatch);
        }
        let ghost spec_positions = spec_group3(pos_vec@);
        let ghost spec_normals = spec_group3(normal_vec@);
        let ghost spec_tex = spec_group2(tex_vec@);
        assert(positions.deep_view() =~~= spec_positions);
        assert(normals.deep_view() =~~= spec_normals);
        assert(tex_uvs.deep_view() =~~= spec_tex);
        let vertices = assemble_vertices(positions, normals, tex_uvs);
        let indices = match self.acc_indices(ind_acc_ind) {
            Ok(v) => v,
            Err(e) => {
                return Err(e);
            },
        };
        let data = MeshData { vertices, indices };
        self.mesh_data.push(data);
        proof {
            let s = spec_load_mesh(self.doc, self.data@, ind_mesh as int);
            assert(mesh_data_views(self.mesh_data@) =~= mesh_data_views(old(self).mesh_data@).push(
                s->Ok_0,
            ));
        }
        Ok(())
    }

    /// Appends one GPU-attached mesh; everything else is unchanged.
    pub fn attach_mesh(&mut self, mesh: Mesh)
        ensures
            final(self).meshes@ == old(self).meshes@.push(mesh),
            final(self).doc == old(self).doc,
            final(self).data == old(self).data,
            final(self).placements == old(self).placements,
            final(self).mesh_data == old(self).mesh_data,
            final(self).position == old(self).position,
            final(self).scale == old(self).scale,
            final(self).rotation == old(self).rotation,
    {
        self.meshes.push(mesh);
    }

    /// Sets the caller-chosen position of this model.
    pub fn set_position(&mut self, position: Vec3Bits)
        ensures
            *final(self) == (Model { position, ..*old(self) }),
    {
        self.position = position;
    }

    /// Sets the caller-chosen scale of this model.
    pub fn set_scale(&mut self, scale: Vec3Bits)
        ensures
            *final(self) == (Model { scale, ..*old(self) }),
    {
        self.scale = scale;
    }

    /// Sets the caller-chosen rotation quaternion of this model.
    pub fn set_rotation(&mut self, rotation: QuatBits)
        ensures
            *final(self) == (Model { rotation, ..*old(self) }),
    {
        self.rotation = rotation;
    }

    /// Builds a model from an already-parsed scene description: traverses
    /// the hierarchy from node 0 under the identity transform and decodes
    /// the geometry of every referenced mesh. Succeeds exactly when the
    /// traversal and every recorded placement's load succeed; the first
    /// failure aborts construction with its error, and no partial model
    /// is returned.
    #[verifier::rlimit(100)]
    #[verifier::spinoff_prover]
    #[verifier::loop_isolation(false)]
    pub fn from_document(doc: Document, bin_file: &[u8]) -> (r: Result<Model, GltfError>)
        ensures
            r is Ok <==> spec_model_loads(doc, bin_file@),
            (spec_traverse(doc, 0, crate::glmath::spec_mat4_identity(), spec_root_fuel(doc))
                matches Err(e) ==> r == Err::<Model, GltfError>(e)),
            ({
                let tr = spec_traverse(
                    doc,
                    0,
                    crate::glmath::spec_mat4_identity(),
                    spec_root_fuel(doc),
                );
                tr matches Ok(ps) ==> (spec_first_load_error(doc, bin_file@, ps, ps.len() as int)
                    matches Some(e) ==> r == Err::<Model, GltfError>(e))
            }),
            (r matches Ok(m) ==> {
                &&& m.doc == doc
                &&& spec_traverse(
                    doc,
                    0,
                    crate::glmath::spec_mat4_identity(),
                    spec_root_fuel(doc),
                ) == Ok::<Seq<SpecPlacement>, GltfError>(placement_views(m.placements@))
                &&& m.data@ == bin_file@
                &&& m.mesh_data@.len() == m.placements@.len()
                &&& forall|i: int|
                    0 <= i < m.placements@.len() ==> spec_load_mesh(
                        doc,
                        m.data@,
                        m.placements@[i].mesh as int,
                    ) == Ok::<SpecMeshData, GltfError>(#[trigger] m.mesh_data@[i]@)
                &&& m.meshes@.len() == 0
                &&& m.position@ == spec_default_translation()
                &&& m.scale@ == spec_default_translation()
                &&& m.rotation@ == seq![
                    crate::types::F32_ZERO,
                    crate::types::F32_ZERO,
                    crate::types::F32_ZERO,
                    F32_ONE,
                ]
            }),
    {
        let identity = crate::glmath::mat4_identity();
        let mut placements: Vec<MeshPlacement> = Vec::new();
        let fuel: usize = if doc.nodes.len() < usize::MAX {
            doc.nodes.len() + 1
        } else {
            usize::MAX
        };
        assert(fuel as nat == spec_root_fuel(doc));
        let ghost tr = spec_traverse(
            doc,
            0,
            crate::glmath::spec_mat4_identity(),
            spec_root_fuel(doc),
        );
        match traverse_node(&doc, &mut placements, 0, &identity, fuel) {
            Ok(_) => {},
            Err(e) => {
                return Err(e);
            },
        }
        proof {
            assert(placement_views(placements@) =~= tr->Ok_0);
        }
        let ghost tr_ps = tr->Ok_0;
        let mut model = Model {
            doc,
            data: vstd::slice::slice_to_vec(bin_file),
            placements,
            mesh_data: Vec::new(),
            meshes: Vec::new(),
            position: [crate::types::F32_ZERO, crate::types::F32_ZERO, crate::types::F32_ZERO],
            scale: [crate::types::F32_ZERO, crate::types::F32_ZERO, crate::types::F32_ZERO],
            rotation: [
                crate::types::F32_ZERO,
                crate::types::F32_ZERO,
                crate::types::F32_ZERO,
                F32_ONE,
            ],
        };
        let n = model.placements.len();
        let ghost doc_snap = model.doc;
        let mut i: usize = 0;
        while i < n
            invariant
                i <= n,
                n == tr_ps.len(),
                model.mesh_data@.len() == i,
                forall|j: int|
                    0 <= j < i ==> spec_load_mesh(
                        model.doc,
                        model.data@,
                        model.placements@[j].mesh as int,
                    ) == Ok::<SpecMeshData, GltfError>(#[trigger] model.mesh_data@[j]@),
                spec_first_load_error(doc_snap, bin_file@, tr_ps, i as int) is None,
                model.doc == doc_snap,
                placement_views(model.placements@) == tr_ps,
                model.data@ == bin_file@,
                model.meshes@.len() == 0,
                model.position@ == spec_default_translation(),
                model.scale@ == spec_default_translation(),
                model.rotation@ == seq![
                    crate::types::F32_ZERO,
                    crate::types::F32_ZERO,
                    crate::types::F32_ZERO,
                    F32_ONE,
                ],
            decreases n - i,
        {
            let mesh_index = model.placements[i].mesh;
            proof {
                assert(placement_views(model.placements@)[i as int]
                    == model.placements@[i as int]@);
                assert(tr_ps[i as int].mesh == mesh_index);
            }
            let ghost md_old = model.mesh_data@;
            match model.load_mesh(mesh_index) {
                Ok(_) => {
                    proof {
                        let s = spec_load_mesh(model.doc, model.data@, mesh_index as int);
                        assert(mesh_data_views(model.mesh_data@) == mesh_data_views(md_old).push(
                            s->Ok_0,
                        ));
                        assert(mesh_data_views(model.mesh_data@).len() == model.mesh_data@.len());
                        assert(mesh_data_views(md_old).len() == md_old.len());
                        assert forall|j: int| 0 <= j < i + 1 implies spec_load_mesh(
                            model.doc,
                            model.data@,
                            model.placements@[j].mesh as int,
                        ) == Ok::<SpecMeshData, GltfError>(#[trigger] model.mesh_data@[j]@) by {
                            assert(mesh_data_views(model.mesh_data@)[j] == model.mesh_data@[j]@);
                            if j < i {
                                assert(mesh_data_views(md_old)[j] == md_old[j]@);
                            }
                        }
                        assert(spec_first_load_error(doc_snap, bin_file@, tr_ps, i as int + 1)
                            is None);
                    }
                },
                Err(e) => {
                    proof {
                        assert(spec_load_mesh(doc_snap, bin_file@, tr_ps[i as int].mesh as int)
                            == Err::<SpecMeshData, GltfError>(e));
                        assert(spec_first_load_error(doc_snap, bin_file@, tr_ps, i as int + 1)
                            == Some(e));
                        lemma_first_load_error_persists(
                            doc_snap,
                            bin_file@,
                            tr_ps,
                            i as int + 1,
                            tr_ps.len() as int,
                        );
                        assert(!spec_model_loads(doc_snap, bin_file@));
                    }
                    return Err(e);
                },
            }
            i = i + 1;
        }
        proof {
            assert forall|j: int| 0 <= j < tr_ps.len() implies spec_load_mesh(
                doc_snap,
                bin_file@,
                (#[trigger] tr_ps[j]).mesh as int,
            ) is Ok by {
                assert(placement_views(model.placements@)[j] == model.placements@[j]@);
                assert(tr_ps[j].mesh == model.placements@[j].mesh);
                assert(spec_load_mesh(model.doc, model.data@, model.placements@[j].mesh as int)
                    == Ok::<SpecMeshData, GltfError>(model.mesh_data@[j]@));
            }
            assert(spec_model_loads(doc_snap, bin_file@));
        }
        Ok(model)
    }

    /// Parses a scene description and builds the model from it; see
    /// [`Model::from_document`]. A scene whose bytes are not UTF-8 or not
    /// JSON is rejected with exactly that error; any later format error
    /// aborts construction the same way. No partial model is returned.
    pub fn new(gltf_file: &[u8], bin_file: &[u8]) -> (r: Result<Model, GltfError>)
        ensures
            r == Err::<Model, GltfError>(GltfError::Utf8) <==> crate::jsonio::spec_utf8_decode(
                gltf_file@,
            ) is None,
            r == Err::<Model, GltfError>(GltfError::Parse) <==> (crate::jsonio::spec_utf8_decode(
                gltf_file@,
            ) is Some && !crate::jsonio::spec_json_parses(
                crate::jsonio::spec_utf8_decode(gltf_file@)->0,
            )),
            (r matches Ok(m) ==> {
                &&& spec_model_loads(m.doc, bin_file@)
                &&& spec_traverse(
                    m.doc,
                    0,
                    crate::glmath::spec_mat4_identity(),
                    spec_root_fuel(m.doc),
                ) == Ok::<Seq<SpecPlacement>, GltfError>(placement_views(m.placements@))
                &&& m.data@ == bin_file@
                &&& m.mesh_data@.len() == m.placements@.len()
                &&& forall|i: int|
                    0 <= i < m.placements@.len() ==> spec_load_mesh(
                        m.doc,
                        m.data@,
                        m.placements@[i].mesh as int,
                    ) == Ok::<SpecMeshData, GltfError>(#[trigger] m.mesh_data@[i]@)
                &&& m.meshes@.len() == 0
                &&& m.position@ == spec_default_translation()
                &&& m.scale@ == spec_default_translation()
                &&& m.rotation@ == seq![
                    crate::types::F32_ZERO,
                    crate::types::F32_ZERO,
                    crate::types::F32_ZERO,
                    F32_ONE,
                ]
            }),
    {
        let doc = match crate::asset::Document::parse(gltf_file) {
            Ok(d) => d,
            Err(e) => {
                return Err(e);
            },
        };
        let r = Self::from_document(doc, bin_file);
        proof {
            let tr = spec_traverse(
                doc,
                0,
                crate::glmath::spec_mat4_identity(),
                spec_root_fuel(doc),
            );
            lemma_traverse_error_kinds(
                doc,
                0,
                crate::glmath::spec_mat4_identity(),
                spec_root_fuel(doc),
            );
            if tr is Ok {
                lemma_first_load_error_kinds(
                    doc,
                    bin_file@,
                    tr->Ok_0,
                    tr->Ok_0.len() as int,
                );
                if r is Err && spec_first_load_error(
                    doc,
                    bin_file@,
                    tr->Ok_0,
                    tr->Ok_0.len() as int,
                ) is None {
                    lemma_first_load_error_none(
                        doc,
                        bin_file@,
                        tr->Ok_0,
                        tr->Ok_0.len() as int,
                    );
                    assert(spec_model_loads(doc, bin_file@));
                    assert(false);
                }
            }
        }
        r
    }

    /// The command sequence that draws every mesh of this model, in
    /// order, at the model's placement.
    pub fn draw(&self, program: u32) -> (r: Vec<crate::commands::RenderCommand>)
        ensures
            crate::commands::cmd_views(r@) == spec_model_draw_cmds(
                self.meshes@,
                program,
                self.position@,
                self.scale@,
                self.rotation@,
                self.meshes@.len() as int,
            ),
    {
        let mut r: Vec<crate::commands::RenderCommand> = Vec::new();
        let mut i: usize = 0;
        while i < self.meshes.len()
            invariant
                i <= self.meshes@.len(),
                crate::commands::cmd_views(r@) == spec_model_draw_cmds(
                    self.meshes@,
                    program,
                    self.position@,
                    self.scale@,
                    self.rotation@,
                    i as int,
                ),
            decreases self.meshes@.len() - i,
        {
            let mut cmds = self.meshes[i].draw(program, self.position, self.scale, self.rotation);
            r.append(&mut cmds);
            assert(crate::commands::cmd_views(r@) =~= spec_model_draw_cmds(
                self.meshes@,
                program,
                self.position@,
                self.scale@,
                self.rotation@,
                i as int + 1,
            ));
            i = i + 1;
        }
        r
    }
}

/// The concatenated draw commands of the first `k` meshes of a model.
pub open spec fn spec_model_draw_cmds(
    meshes: Seq<Mesh>,
    program: u32,
    position: Seq<u32>,
    scale: Seq<u32>,
    rotation: Seq<u32>,
    k: int,
) -> Seq<crate::commands::SpecCommand>
    decreases k,
{
    if k <= 0 {
        Seq::empty()
    } else {
        spec_model_draw_cmds(meshes, program, position, scale, rotation, k - 1)
            + crate::mesh::spec_mesh_draw_cmds(
            meshes[k - 1].vbo,
            meshes[k - 1].ebo,
            meshes[k - 1].texture.texture,
            meshes[k - 1].indices@.len() as usize,
            program,
            position,
            scale,
            rotation,
        )
    }
}

/// The flat word sequence of a list of groups, in order.
pub open spec fn spec_flatten_groups(groups: Seq<Seq<u32>>) -> Seq<u32>
    decreases groups.len(),
{
    if groups.len() == 0 {
        Seq::empty()
    } else {
        groups[0] + spec_flatten_groups(groups.drop_first())
    }
}

/// The flat sequence of `k`-wide groups has `k` words per group.
proof fn lemma_flatten_groups_len(groups: Seq<Seq<u32>>, k: int)
    requires
        forall|i: int| 0 <= i < groups.len() ==> (#[trigger] groups[i]).len() == k,
        k >= 0,
    ensures
        spec_flatten_groups(groups).len() == k * groups.len(),
    decreases groups.len(),
{
    if groups.len() > 0 {
        let rest = groups.drop_first();
        assert(forall|i: int| 0 <= i < rest.len() ==> (#[trigger] rest[i]).len() == k);
        lemma_flatten_groups_len(rest, k);
        assert(k * groups.len() == k + k * rest.len()) by (nonlinear_arith)
            requires
                rest.len() == groups.len() - 1,
                groups.len() >= 1,
        ;
    }
}

/// Grouping is the inverse of flattening: regrouping the flattening of
/// correctly-sized 3-wide vectors reproduces the original vectors, with
/// nothing discarded.
pub proof fn lemma_group3_flatten_roundtrip(groups: Seq<Seq<u32>>)
    requires
        forall|i: int| 0 <= i < groups.len() ==> (#[trigger] groups[i]).len() == 3,
    ensures
        spec_group3(spec_flatten_groups(groups)) == groups,
    decreases groups.len(),
{
    lemma_flatten_groups_len(groups, 3);
    let flat = spec_flatten_groups(groups);
    if groups.len() == 0 {
        assert(spec_group3(flat) =~~= groups);
    } else {
        let rest = groups.drop_first();
        assert(forall|i: int| 0 <= i < rest.len() ==> (#[trigger] rest[i]).len() == 3);
        lemma_group3_flatten_roundtrip(rest);
        lemma_flatten_groups_len(rest, 3);
        let rest_flat = spec_flatten_groups(rest);
        assert(spec_group3(flat) =~~= groups) by {
            assert(flat.len() == 3 * groups.len());
            assert forall|i: int| 0 <= i < groups.len() implies #[trigger] spec_group3(flat)[i]
                =~= groups[i] by {
                if i == 0 {
                    assert(flat.subrange(0, 3) =~= groups[0]);
                } else {
                    assert(flat.subrange(3 * i, 3 * i + 3) =~= rest_flat.subrange(
                        3 * (i - 1),
                        3 * (i - 1) + 3,
                    ));
                    assert(spec_group3(rest_flat)[i - 1] == rest[i - 1]);
                    assert(rest[i - 1] == groups[i]);
                }
            }
        }
    }
}

/// Unsigned 32-bit index decoding: a successful decode yields exactly the
/// accessor's count of values, and each value is the little-endian
/// reinterpretation of its four source bytes.
pub proof fn lemma_index_decode_u32(doc: Document, data: Seq<u8>, a: Accessor, v: Seq<u32>)
    requires
        a.component_type == Some(5125u32),
        spec_get_indices(doc, data, a) == Ok::<Seq<u32>, GltfError>(v),
    ensures
        a.count is Some,
        v.len() == a.count->0,
        forall|i: int|
            0 <= i < v.len() ==> #[trigger] v[i] == spec_le_word(
                data[spec_data_start(doc, a, spec_index_buffer_view(a)) + 4 * i],
                data[spec_data_start(doc, a, spec_index_buffer_view(a)) + 4 * i + 1],
                data[spec_data_start(doc, a, spec_index_buffer_view(a)) + 4 * i + 2],
                data[spec_data_start(doc, a, spec_index_buffer_view(a)) + 4 * i + 3],
            ),
{
}

/// Signed 16-bit index decoding: a successful decode yields exactly the
/// accessor's count of values, each the sign-extended 16-bit source value
/// reinterpreted as unsigned — a negative source maps to a large unsigned
/// magnitude (the source -1, bytes 0xFF 0xFF, decodes to 0xFFFFFFFF).
pub proof fn lemma_index_decode_i16(doc: Document, data: Seq<u8>, a: Accessor, v: Seq<u32>)
    requires
        a.component_type == Some(5122u32),
        spec_get_indices(doc, data, a) == Ok::<Seq<u32>, GltfError>(v),
    ensures
        a.count is Some,
        v.len() == a.count->0,
        forall|i: int|
            0 <= i < v.len() ==> #[trigger] v[i] == spec_i16_word(
                data[spec_data_start(doc, a, spec_index_buffer_view(a)) + 2 * i],
                data[spec_data_start(doc, a, spec_index_buffer_view(a)) + 2 * i + 1],
            ),
{
    assert(spec_i16_word(0xFF, 0xFF) == 0xFFFF_FFFFu32);
}

/// Drawing a model issues exactly one draw call for each of its meshes:
/// a model with a single two-triangle mesh draws with exactly one indexed
/// triangle call.
pub proof fn lemma_model_draw_call_count(
    meshes: Seq<Mesh>,
    program: u32,
    position: Seq<u32>,
    scale: Seq<u32>,
    rotation: Seq<u32>,
    k: int,
)
    requires
        0 <= k <= meshes.len(),
    ensures
        crate::commands::spec_draw_call_count(
            spec_model_draw_cmds(meshes, program, position, scale, rotation, k),
        ) == k,
    decreases k,
{
    if k == 0 {
        reveal_with_fuel(crate::commands::spec_draw_call_count, 1);
    } else {
        lemma_model_draw_call_count(meshes, program, position, scale, rotation, k - 1);
        crate::commands::lemma_draw_call_count_concat(
            spec_model_draw_cmds(meshes, program, position, scale, rotation, k - 1),
            crate::mesh::spec_mesh_draw_cmds(
                meshes[k - 1].vbo,
                meshes[k - 1].ebo,
                meshes[k - 1].texture.texture,
                meshes[k - 1].indices@.len() as usize,
                program,
                position,
                scale,
                rotation,
            ),
        );
        crate::mesh::lemma_mesh_draw_call_count(
            meshes[k - 1].vbo,
            meshes[k - 1].ebo,
            meshes[k - 1].texture.texture,
            meshes[k - 1].indices@.len() as usize,
            program,
            position,
            scale,
            rotation,
        );
    }
}

} // verus!
