//! Flat UI shapes: a unit square or triangle with a per-vertex color and
//! texture coordinates, drawn through the 8-float UI vertex layout
//! (position 2, color 4, texture 2) over a 1x1 white luminance texture.

use vstd::prelude::*;
use crate::commands::{cmd_views, Attrib, DrawMode, MagFilter, MinFilter, RenderCommand,
    SpecCommand, TexFormat};
use crate::glmath;
use crate::glmath::{QuatBits, Vec3Bits};
use crate::mesh::spec_model_matrix;
use crate::types::{Shape, RGBA, F32_HALF, F32_NEG_HALF, F32_ONE, F32_ZERO};

verus! {

/// A shape element: its kind, HUD flag, geometry handles and placement.
/// Built in two steps: `new` makes a bare descriptor the scene feeds to
/// the renderer, `new_instance` makes the GPU-ready element.
pub struct ShapeBuilder {
    pub shape: Shape,
    pub is_hud: bool,
    pub indices: Vec<u32>,
    pub position: Vec3Bits,
    pub scale: Vec3Bits,
    pub rotation: QuatBits,
    pub vbo: u32,
    pub ebo: u32,
    pub texture: u32,
}

/// The 8-float vertices of the unit square in a color: four corners, each
/// position (2), color (4), texture coordinates (2).
pub open spec fn spec_square_vertices(c: RGBA) -> Seq<u32> {
    seq![
        F32_NEG_HALF, F32_NEG_HALF, c.r, c.g, c.b, c.a, F32_ZERO, F32_ZERO,
        F32_NEG_HALF, F32_HALF, c.r, c.g, c.b, c.a, F32_ZERO, F32_ONE,
        F32_HALF, F32_HALF, c.r, c.g, c.b, c.a, F32_ONE, F32_ONE,
        F32_HALF, F32_NEG_HALF, c.r, c.g, c.b, c.a, F32_ONE, F32_ZERO,
    ]
}

/// The 8-float vertices of the unit triangle in a color.
pub open spec fn spec_triangle_vertices(c: RGBA) -> Seq<u32> {
    seq![
        F32_ZERO, F32_HALF, c.r, c.g, c.b, c.a, F32_HALF, F32_ONE,
        F32_NEG_HALF, F32_NEG_HALF, c.r, c.g, c.b, c.a, F32_ZERO, F32_ZERO,
        F32_HALF, F32_NEG_HALF, c.r, c.g, c.b, c.a, F32_ONE, F32_ZERO,
    ]
}

/// The vertices of a shape kind in a color.
pub open spec fn spec_shape_vertices(shape: Shape, c: RGBA) -> Seq<u32> {
    match shape {
        Shape::Square => spec_square_vertices(c),
        Shape::Triangle => spec_triangle_vertices(c),
    }
}

/// The triangle indices of a shape kind: two triangles for the square,
/// one for the triangle.
pub open spec fn spec_shape_indices(shape: Shape) -> Seq<u32> {
    match shape {
        Shape::Square => seq![0u32, 2u32, 1u32, 0u32, 3u32, 2u32],
        Shape::Triangle => seq![0u32, 1u32, 2u32],
    }
}

/// The upload of a shape instance: geometry into its two buffers, then
/// the 1x1 white luminance texture.
pub open spec fn spec_shape_setup_cmds(
    shape: Shape,
    c: RGBA,
    vbo: u32,
    ebo: u32,
    texture: u32,
) -> Seq<SpecCommand> {
    seq![
        SpecCommand::BindArrayBuffer(vbo),
        SpecCommand::ArrayBufferData(spec_shape_vertices(shape, c)),
        SpecCommand::BindElementBuffer(ebo),
        SpecCommand::ElementBufferData(spec_shape_indices(shape)),
        SpecCommand::BindTexture(texture),
        SpecCommand::TexImage2d {
            width: 1,
            height: 1,
            format: TexFormat::Luminance,
            pixels: seq![255u8],
        },
        SpecCommand::SetTexFilters { min_filter: MinFilter::Linear, mag_filter: MagFilter::Linear },
        SpecCommand::BindTexture(0),
        SpecCommand::BindArrayBuffer(0),
        SpecCommand::BindElementBuffer(0),
    ]
}

/// One draw of a shape instance through the 8-float UI vertex layout.
pub open spec fn spec_shape_draw_cmds(sb: ShapeBuilder, program: u32) -> Seq<SpecCommand> {
    seq![
        SpecCommand::UseProgram(program),
        SpecCommand::BindArrayBuffer(sb.vbo),
        SpecCommand::BindElementBuffer(sb.ebo),
        SpecCommand::ActiveTextureUnit0,
        SpecCommand::BindTexture(sb.texture),
        SpecCommand::SetModelMatrix {
            program,
            matrix: spec_model_matrix(sb.position@, sb.rotation@, sb.scale@),
        },
        SpecCommand::VertexAttribPointer {
            program,
            attrib: Attrib::Position,
            components: 2,
            stride_words: 8,
            offset_words: 0,
        },
        SpecCommand::VertexAttribPointer {
            program,
            attrib: Attrib::Color,
            components: 4,
            stride_words: 8,
            offset_words: 2,
        },
        SpecCommand::VertexAttribPointer {
            program,
            attrib: Attrib::Tex,
            components: 2,
            stride_words: 8,
            offset_words: 6,
        },
        SpecCommand::DrawElements { mode: DrawMode::Triangles, count: sb.indices@.len() as usize },
        SpecCommand::BindTexture(0),
    ]
}

impl ShapeBuilder {
    /// A bare shape descriptor: no GPU objects yet, default placement.
    pub fn new(shape: Shape) -> (r: ShapeBuilder)
        ensures
            r.shape == shape,
            r.is_hud == false,
            r.indices@ == Seq::<u32>::empty(),
            r.position@ == seq![F32_ZERO, F32_ZERO, F32_ZERO],
            r.scale@ == seq![F32_ONE, F32_ONE, F32_ONE],
            r.rotation@ == seq![F32_ZERO, F32_ZERO, F32_ZERO, F32_ONE],
            r.vbo == 0 && r.ebo == 0 && r.texture == 0,
    {
        let r = ShapeBuilder {
            shape,
            is_hud: false,
            indices: Vec::new(),
            position: [F32_ZERO, F32_ZERO, F32_ZERO],
            scale: [F32_ONE, F32_ONE, F32_ONE],
            rotation: [F32_ZERO, F32_ZERO, F32_ZERO, F32_ONE],
            vbo: 0,
            ebo: 0,
            texture: 0,
        };
        assert(r.position@ =~= seq![F32_ZERO, F32_ZERO, F32_ZERO]);
        assert(r.scale@ =~= seq![F32_ONE, F32_ONE, F32_ONE]);
        assert(r.rotation@ =~= seq![F32_ZERO, F32_ZERO, F32_ZERO, F32_ONE]);
        r
    }

    /// Builds the GPU-ready element for a descriptor: its vertices in the
    /// element's color, its indices, and the 1x1 white texture, uploaded
    /// into the three handles the application allocated.
    pub fn new_instance(
        shape_builder: &ShapeBuilder,
        is_hud: bool,
        rgba: &RGBA,
        position: Vec3Bits,
        scale: Vec3Bits,
        rotation: QuatBits,
        vbo: u32,
        ebo: u32,
        texture: u32,
    ) -> (r: (ShapeBuilder, Vec<RenderCommand>))
        ensures
            r.0.shape == shape_builder.shape,
            r.0.is_hud == is_hud,
            r.0.indices@ == spec_shape_indices(shape_builder.shape),
            r.0.position == position,
            r.0.scale == scale,
            r.0.rotation == rotation,
            r.0.vbo == vbo && r.0.ebo == ebo && r.0.texture == texture,
            cmd_views(r.1@) == spec_shape_setup_cmds(shape_builder.shape, *rgba, vbo, ebo, texture),
    {
        let shape = match &shape_builder.shape {
            Shape::Square => Shape::Square,
            Shape::Triangle => Shape::Triangle,
        };
        let mut vertices: Vec<u32> = Vec::new();
        let mut indices: Vec<u32> = Vec::new();
        let mut index_upload: Vec<u32> = Vec::new();
        match &shape {
            Shape::Square => {
                push_square_vertices(&mut vertices, rgba);
                indices.push(0);
                indices.push(2);
                indices.push(1);
                indices.push(0);
                indices.push(3);
                indices.push(2);
                index_upload.push(0);
                index_upload.push(2);
                index_upload.push(1);
                index_upload.push(0);
                index_upload.push(3);
                index_upload.push(2);
                assert(vertices@ =~= spec_shape_vertices(shape_builder.shape, *rgba));
                assert(indices@ =~= spec_shape_indices(shape_builder.shape));
                assert(index_upload@ =~= spec_shape_indices(shape_builder.shape));
            },
            Shape::Triangle => {
                push_triangle_vertices(&mut vertices, rgba);
                indices.push(0);
                indices.push(1);
                indices.push(2);
                index_upload.push(0);
                index_upload.push(1);
                index_upload.push(2);
                assert(vertices@ =~= spec_shape_vertices(shape_builder.shape, *rgba));
                assert(indices@ =~= spec_shape_indices(shape_builder.shape));
                assert(index_upload@ =~= spec_shape_indices(shape_builder.shape));
            },
        }
        let mut pixels: Vec<u8> = Vec::new();
        pixels.push(255);
        assert(pixels@ =~= seq![255u8]);
        let cmds = vec![
            RenderCommand::BindArrayBuffer(vbo),
            RenderCommand::ArrayBufferData(vertices),
            RenderCommand::BindElementBuffer(ebo),
            RenderCommand::ElementBufferData(index_upload),
            RenderCommand::BindTexture(texture),
            RenderCommand::TexImage2d { width: 1, height: 1, format: TexFormat::Luminance, pixels },
            RenderCommand::SetTexFilters {
                min_filter: MinFilter::Linear,
                mag_filter: MagFilter::Linear,
            },
            RenderCommand::BindTexture(0),
            RenderCommand::BindArrayBuffer(0),
            RenderCommand::BindElementBuffer(0),
        ];
        assert(cmd_views(cmds@) =~= spec_shape_setup_cmds(
            shape_builder.shape,
            *rgba,
            vbo,
            ebo,
            texture,
        ));
        (
            ShapeBuilder {
                shape,
                is_hud,
                indices,
                position,
                scale,
                rotation,
                vbo,
                ebo,
                texture,
            },
            cmds,
        )
    }

    /// The command sequence of one draw of this element.
    pub fn draw(&self, program: u32) -> (r: Vec<RenderCommand>)
        ensures
            cmd_views(r@) == spec_shape_draw_cmds(*self, program),
    {
        let translation_matrix = glmath::translation_matrix(&self.position);
        let rotation_matrix = glmath::quat_to_mat4_matrix(&self.rotation);
        let scale_matrix = glmath::scale_matrix(&self.scale);
        let model_matrix = glmath::mat4_mul(
            &glmath::mat4_mul(&translation_matrix, &rotation_matrix),
            &scale_matrix,
        );
        let cmds = vec![
            RenderCommand::UseProgram(program),
            RenderCommand::BindArrayBuffer(self.vbo),
            RenderCommand::BindElementBuffer(self.ebo),
            RenderCommand::ActiveTextureUnit0,
            RenderCommand::BindTexture(self.texture),
            RenderCommand::SetModelMatrix { program, matrix: model_matrix },
            RenderCommand::VertexAttribPointer {
                program,
                attrib: Attrib::Position,
                components: 2,
                stride_words: 8,
                offset_words: 0,
            },
            RenderCommand::VertexAttribPointer {
                program,
                attrib: Attrib::Color,
                components: 4,
                stride_words: 8,
                offset_words: 2,
            },
            RenderCommand::VertexAttribPointer {
                program,
                attrib: Attrib::Tex,
                components: 2,
                stride_words: 8,
                offset_words: 6,
            },
            RenderCommand::DrawElements { mode: DrawMode::Triangles, count: self.indices.len() },
            RenderCommand::BindTexture(0),
        ];
        assert(cmd_views(cmds@) =~= spec_shape_draw_cmds(*self, program));
        cmds
    }
}

/// Pushes the square's 32 vertex words in a color.
fn push_square_vertices(vertices: &mut Vec<u32>, c: &RGBA)
    requires
        old(vertices)@.len() == 0,
    ensures
        final(vertices)@ == spec_square_vertices(*c),
{
    vertices.push(F32_NEG_HALF);
    vertices.push(F32_NEG_HALF);
    vertices.push(c.r);
    vertices.push(c.g);
    vertices.push(c.b);
    vertices.push(c.a);
    vertices.push(F32_ZERO);
    vertices.push(F32_ZERO);
    vertices.push(F32_NEG_HALF);
    vertices.push(F32_HALF);
    vertices.push(c.r);
    vertices.push(c.g);
    vertices.push(c.b);
    vertices.push(c.a);
    vertices.push(F32_ZERO);
    vertices.push(F32_ONE);
    vertices.push(F32_HALF);
    vertices.push(F32_HALF);
    vertices.push(c.r);
    vertices.push(c.g);
    vertices.push(c.b);
    vertices.push(c.a);
    vertices.push(F32_ONE);
    vertices.push(F32_ONE);
    vertices.push(F32_HALF);
    vertices.push(F32_NEG_HALF);
    vertices.push(c.r);
    vertices.push(c.g);
    vertices.push(c.b);
    vertices.push(c.a);
    vertices.push(F32_ONE);
    vertices.push(F32_ZERO);
    assert(vertices@ =~= spec_square_vertices(*c));
}

/// Pushes the triangle's 24 vertex words in a color.
fn push_triangle_vertices(vertices: &mut Vec<u32>, c: &RGBA)
    requires
        old(vertices)@.len() == 0,
    ensures
        final(vertices)@ == spec_triangle_vertices(*c),
{
    vertices.push(F32_ZERO);
    vertices.push(F32_HALF);
    vertices.push(c.r);
    vertices.push(c.g);
    vertices.push(c.b);
    vertices.push(c.a);
    vertices.push(F32_HALF);
    vertices.push(F32_ONE);
    vertices.push(F32_NEG_HALF);
    vertices.push(F32_NEG_HALF);
    vertices.push(c.r);
    vertices.push(c.g);
    vertices.push(c.b);
    vertices.push(c.a);
    vertices.push(F32_ZERO);
    vertices.push(F32_ZERO);
    vertices.push(F32_HALF);
    vertices.push(F32_NEG_HALF);
    vertices.push(c.r);
    vertices.push(c.g);
    vertices.push(c.b);
    vertices.push(c.a);
    vertices.push(F32_ONE);
    vertices.push(F32_ZERO);
    assert(vertices@ =~= spec_triangle_vertices(*c));
}

} // verus!
