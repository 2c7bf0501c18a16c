//! A drawable mesh: GPU vertex and index buffers, an owned texture, and a
//! draw operation parameterized by a placement. Geometry is uploaded once
//! (static data) and never changes afterwards; each draw binds the
//! buffers, uploads the model matrix, describes the 11-float vertex
//! layout and issues one indexed triangle draw.

use vstd::prelude::*;
use crate::commands::{cmd_views, Attrib, DrawMode, RenderCommand, SpecCommand};
use crate::glmath;
use crate::glmath::{QuatBits, Vec3Bits};
use crate::texture::Texture;

verus! {

/// A GPU-ready mesh: buffer handles, the index list, and its texture.
pub struct Mesh {
    pub vbo: u32,
    pub ebo: u32,
    pub indices: Vec<u32>,
    pub texture: Texture,
}

/// The one-time upload of a mesh's geometry into its two buffers.
pub open spec fn spec_mesh_upload_cmds(
    vbo: u32,
    ebo: u32,
    vertices: Seq<u32>,
    indices: Seq<u32>,
) -> Seq<SpecCommand> {
    seq![
        SpecCommand::BindArrayBuffer(vbo),
        SpecCommand::ArrayBufferData(vertices),
        SpecCommand::BindElementBuffer(ebo),
        SpecCommand::ElementBufferData(indices),
        SpecCommand::BindArrayBuffer(0),
        SpecCommand::BindElementBuffer(0),
    ]
}

/// The model matrix of a placement: translation times rotation times
/// scale, exactly as the floating-point pipeline multiplies them.
pub open spec fn spec_model_matrix(
    position: Seq<u32>,
    rotation: Seq<u32>,
    scale: Seq<u32>,
) -> Seq<u32> {
    glmath::spec_mat4_mul(
        glmath::spec_mat4_mul(
            glmath::spec_translation_mat(position),
            glmath::spec_quat_to_mat4(rotation),
        ),
        glmath::spec_scale_mat(scale),
    )
}

/// One draw of a mesh: program, buffers, model matrix, the four
/// attributes of the interleaved 11-float vertex layout, sampler and
/// texture, and a single indexed triangle draw.
pub open spec fn spec_mesh_draw_cmds(
    vbo: u32,
    ebo: u32,
    texture: u32,
    index_count: usize,
    program: u32,
    position: Seq<u32>,
    scale: Seq<u32>,
    rotation: Seq<u32>,
) -> Seq<SpecCommand> {
    seq![
        SpecCommand::UseProgram(program),
        SpecCommand::BindArrayBuffer(vbo),
        SpecCommand::BindElementBuffer(ebo),
        SpecCommand::SetModelMatrix {
            program,
            matrix: spec_model_matrix(position, rotation, scale),
        },
        SpecCommand::VertexAttribPointer {
            program,
            attrib: Attrib::Position,
            components: 3,
            stride_words: 11,
            offset_words: 0,
        },
        SpecCommand::VertexAttribPointer {
            program,
            attrib: Attrib::Normal,
            components: 3,
            stride_words: 11,
            offset_words: 3,
        },
        SpecCommand::VertexAttribPointer {
            program,
            attrib: Attrib::Color,
            components: 3,
            stride_words: 11,
            offset_words: 6,
        },
        SpecCommand::VertexAttribPointer {
            program,
            attrib: Attrib::Tex,
            components: 2,
            stride_words: 11,
            offset_words: 9,
        },
        SpecCommand::SetTextureUnit { program },
        SpecCommand::ActiveTextureUnit0,
        SpecCommand::BindTexture(texture),
        SpecCommand::DrawElements { mode: DrawMode::Triangles, count: index_count },
        SpecCommand::BindTexture(0),
    ]
}

impl Mesh {
    /// Takes ownership of two allocated buffer handles and a texture, and
    /// produces the upload commands that make the geometry resident.
    pub fn new(vbo: u32, ebo: u32, vertices: Vec<u32>, indices: Vec<u32>, texture: Texture) -> (r:
        (Mesh, Vec<RenderCommand>))
        ensures
            r.0.vbo == vbo,
            r.0.ebo == ebo,
            r.0.indices@ == indices@,
            r.0.texture == texture,
            cmd_views(r.1@) == spec_mesh_upload_cmds(vbo, ebo, vertices@, indices@),
    {
        let ghost vs = vertices@;
        let ghost is = indices@;
        let index_upload = clone_indices(&indices);
        let cmds = vec![
            RenderCommand::BindArrayBuffer(vbo),
            RenderCommand::ArrayBufferData(vertices),
            RenderCommand::BindElementBuffer(ebo),
            RenderCommand::ElementBufferData(index_upload),
            RenderCommand::BindArrayBuffer(0),
            RenderCommand::BindElementBuffer(0),
        ];
        assert(cmd_views(cmds@) =~= spec_mesh_upload_cmds(vbo, ebo, vs, is));
        (Mesh { vbo, ebo, indices, texture }, cmds)
    }

    /// The command sequence of one draw of this mesh at a placement.
    pub fn draw(&self, program: u32, position: Vec3Bits, scale: Vec3Bits, rotation: QuatBits) -> (r:
        Vec<RenderCommand>)
        ensures
            cmd_views(r@) == spec_mesh_draw_cmds(
                self.vbo,
                self.ebo,
                self.texture.texture,
                self.indices.len(),
                program,
                position@,
                scale@,
                rotation@,
            ),
    {
        let translation_matrix = glmath::translation_matrix(&position);
        let rotation_matrix = glmath::quat_to_mat4_matrix(&rotation);
        let scale_matrix = glmath::scale_matrix(&scale);
        let model_matrix = glmath::mat4_mul(&glmath::mat4_mul(&translation_matrix, &rotation_matrix), &scale_matrix);
        let cmds = vec![
            RenderCommand::UseProgram(program),
            RenderCommand::BindArrayBuffer(self.vbo),
            RenderCommand::BindElementBuffer(self.ebo),
            RenderCommand::SetModelMatrix { program, matrix: model_matrix },
            RenderCommand::VertexAttribPointer {
                program,
                attrib: Attrib::Position,
                components: 3,
                stride_words: 11,
                offset_words: 0,
            },
            RenderCommand::VertexAttribPointer {
                program,
                attrib: Attrib::Normal,
                components: 3,
                stride_words: 11,
                offset_words: 3,
            },
            RenderCommand::VertexAttribPointer {
                program,
                attrib: Attrib::Color,
                components: 3,
                stride_words: 11,
                offset_words: 6,
            },
            RenderCommand::VertexAttribPointer {
                program,
                attrib: Attrib::Tex,
                components: 2,
                stride_words: 11,
                offset_words: 9,
            },
            RenderCommand::SetTextureUnit { program },
            RenderCommand::ActiveTextureUnit0,
            RenderCommand::BindTexture(self.texture.texture),
            RenderCommand::DrawElements { mode: DrawMode::Triangles, count: self.indices.len() },
            RenderCommand::BindTexture(0),
        ];
        assert(cmd_views(cmds@) =~= spec_mesh_draw_cmds(
            self.vbo,
            self.ebo,
            self.texture.texture,
            self.indices.len() as usize,
            program,
            position@,
            scale@,
            rotation@,
        ));
        cmds
    }
}

/// Copies an index list for upload; the mesh keeps the original.
fn clone_indices(indices: &Vec<u32>) -> (r: Vec<u32>)
    ensures
        r@ == indices@,
{
    let mut r: Vec<u32> = Vec::new();
    let mut i: usize = 0;
    while i < indices.len()
        invariant
            i <= indices.len(),
            r@ == indices@.subrange(0, i as int),
        decreases indices.len() - i,
    {
        r.push(indices[i]);
        assert(r@ =~= indices@.subrange(0, i + 1));
        i = i + 1;
    }
    assert(r@ =~= indices@);
    r
}

/// One draw of a mesh issues exactly one draw call: the indexed triangle
/// draw of the mesh's full index count, and no other command of the
/// sequence draws anything.
pub proof fn lemma_mesh_draw_single_draw_call(
    vbo: u32,
    ebo: u32,
    texture: u32,
    index_count: usize,
    program: u32,
    position: Seq<u32>,
    scale: Seq<u32>,
    rotation: Seq<u32>,
)
    ensures
        ({
            let cmds = spec_mesh_draw_cmds(
                vbo,
                ebo,
                texture,
                index_count,
                program,
                position,
                scale,
                rotation,
            );
            &&& cmds.len() == 13
            &&& cmds[11] == (SpecCommand::DrawElements {
                mode: DrawMode::Triangles,
                count: index_count,
            })
            &&& forall|i: int|
                0 <= i < cmds.len() && i != 11 ==> !((#[trigger] cmds[i]) is DrawElements) && !(
                cmds[i] is DrawArrays)
        }),
{
}

/// One draw of a mesh contains exactly one draw call.
pub proof fn lemma_mesh_draw_call_count(
    vbo: u32,
    ebo: u32,
    texture: u32,
    index_count: usize,
    program: u32,
    position: Seq<u32>,
    scale: Seq<u32>,
    rotation: Seq<u32>,
)
    ensures
        crate::commands::spec_draw_call_count(
            spec_mesh_draw_cmds(vbo, ebo, texture, index_count, program, position, scale, rotation),
        ) == 1,
{
    reveal_with_fuel(crate::commands::spec_draw_call_count, 15);
}

} // verus!
