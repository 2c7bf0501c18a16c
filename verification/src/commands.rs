//! The render-command vocabulary. Every GPU effect of the engine is
//! expressed as a value of [`RenderCommand`]; the library computes command
//! lists with exact contracts, and the embedding application plays them
//! against the real graphics context in order. A handle (`u32`) names a
//! GPU object the application has allocated: a program, buffer or texture.

use vstd::prelude::*;
use crate::glmath::Mat4Bits;
use crate::types::RGBA;

verus! {

/// A vertex attribute of the shader interface.
#[derive(Clone, Copy, PartialEq, Eq, Debug)]
pub enum Attrib {
    Position,
    Normal,
    Color,
    Tex,
}

/// The primitive mode of a draw call.
#[derive(Clone, Copy, PartialEq, Eq, Debug)]
pub enum DrawMode {
    Triangles,
}

/// The pixel format of a texture upload.
#[derive(Clone, Copy, PartialEq, Eq, Debug)]
pub enum TexFormat {
    Rgba,
    Luminance,
}

/// Texture minification filters the engine selects.
#[derive(Clone, Copy, PartialEq, Eq, Debug)]
pub enum MinFilter {
    NearestMipmapLinear,
    Linear,
}

/// Texture magnification filters the engine selects.
#[derive(Clone, Copy, PartialEq, Eq, Debug)]
pub enum MagFilter {
    Nearest,
    Linear,
}

/// Texture coordinate wrapping modes the engine selects.
#[derive(Clone, Copy, PartialEq, Eq, Debug)]
pub enum WrapMode {
    Repeat,
    ClampToEdge,
}

/// One GPU state change or draw, as plain data.
#[derive(PartialEq, Eq, Debug)]
pub enum RenderCommand {
    /// Set the clear color.
    ClearColor(RGBA),
    /// Clear the selected buffers.
    Clear { color: bool, depth: bool },
    /// Enable or disable depth testing.
    SetDepthTest(bool),
    /// Enable alpha blending with source-alpha / one-minus-source-alpha.
    EnableBlend,
    /// Select a shader program.
    UseProgram(u32),
    /// Bind a vertex buffer (zero unbinds).
    BindArrayBuffer(u32),
    /// Bind an index buffer (zero unbinds).
    BindElementBuffer(u32),
    /// Fill the bound vertex buffer with static float words.
    ArrayBufferData(Vec<u32>),
    /// Fill the bound index buffer with static 32-bit indices.
    ElementBufferData(Vec<u32>),
    /// Allocate the bound vertex buffer for dynamic use, this many words,
    /// without data.
    AllocDynamicArrayBuffer(usize),
    /// Overwrite the start of the bound vertex buffer with float words.
    ArrayBufferSubData(Vec<u32>),
    /// Upload the per-draw model matrix uniform of a program.
    SetModelMatrix { program: u32, matrix: Mat4Bits },
    /// Upload the combined view-projection matrix uniform of a program.
    SetCamMatrix { program: u32, matrix: Mat4Bits },
    /// Describe and enable one vertex attribute of the bound buffer;
    /// stride and offset count float words.
    VertexAttribPointer { program: u32, attrib: Attrib, components: u32, stride_words: u32, offset_words: u32 },
    /// Point the sampler uniform of a program at texture unit zero.
    SetTextureUnit { program: u32 },
    /// Make texture unit zero active.
    ActiveTextureUnit0,
    /// Bind a 2D texture (zero unbinds).
    BindTexture(u32),
    /// Upload pixel data to the bound texture.
    TexImage2d { width: i32, height: i32, format: TexFormat, pixels: Vec<u8> },
    /// Set the filters of the bound texture.
    SetTexFilters { min_filter: MinFilter, mag_filter: MagFilter },
    /// Set the wrap modes of the bound texture.
    SetTexWrap { wrap_s: WrapMode, wrap_t: WrapMode },
    /// Build mipmaps for the bound texture.
    GenerateMipmap,
    /// Draw indexed primitives from the bound buffers.
    DrawElements { mode: DrawMode, count: usize },
    /// Draw primitives from the bound vertex buffer.
    DrawArrays { mode: DrawMode, first: u32, count: usize },
    /// Resize the viewport.
    Viewport { x: i32, y: i32, width: i32, height: i32 },
}

/// The mathematical value of a render command: the same shape as
/// [`RenderCommand`], with buffer contents as sequences. Contracts and
/// frame specs are stated over this type.
pub ghost enum SpecCommand {
    ClearColor(RGBA),
    Clear { color: bool, depth: bool },
    SetDepthTest(bool),
    EnableBlend,
    UseProgram(u32),
    BindArrayBuffer(u32),
    BindElementBuffer(u32),
    ArrayBufferData(Seq<u32>),
    ElementBufferData(Seq<u32>),
    AllocDynamicArrayBuffer(usize),
    ArrayBufferSubData(Seq<u32>),
    SetModelMatrix { program: u32, matrix: Seq<u32> },
    SetCamMatrix { program: u32, matrix: Seq<u32> },
    VertexAttribPointer { program: u32, attrib: Attrib, components: u32, stride_words: u32, offset_words: u32 },
    SetTextureUnit { program: u32 },
    ActiveTextureUnit0,
    BindTexture(u32),
    TexImage2d { width: i32, height: i32, format: TexFormat, pixels: Seq<u8> },
    SetTexFilters { min_filter: MinFilter, mag_filter: MagFilter },
    SetTexWrap { wrap_s: WrapMode, wrap_t: WrapMode },
    GenerateMipmap,
    DrawElements { mode: DrawMode, count: usize },
    DrawArrays { mode: DrawMode, first: u32, count: usize },
    Viewport { x: i32, y: i32, width: i32, height: i32 },
}

impl View for RenderCommand {
    type V = SpecCommand;

    open spec fn view(&self) -> SpecCommand {
        match self {
            RenderCommand::ClearColor(c) => SpecCommand::ClearColor(*c),
            RenderCommand::Clear { color, depth } => SpecCommand::Clear { color: *color, depth: *depth },
            RenderCommand::SetDepthTest(on) => SpecCommand::SetDepthTest(*on),
            RenderCommand::EnableBlend => SpecCommand::EnableBlend,
            RenderCommand::UseProgram(p) => SpecCommand::UseProgram(*p),
            RenderCommand::BindArrayBuffer(b) => SpecCommand::BindArrayBuffer(*b),
            RenderCommand::BindElementBuffer(b) => SpecCommand::BindElementBuffer(*b),
            RenderCommand::ArrayBufferData(v) => SpecCommand::ArrayBufferData(v@),
            RenderCommand::ElementBufferData(v) => SpecCommand::ElementBufferData(v@),
            RenderCommand::AllocDynamicArrayBuffer(n) => SpecCommand::AllocDynamicArrayBuffer(*n),
            RenderCommand::ArrayBufferSubData(v) => SpecCommand::ArrayBufferSubData(v@),
            RenderCommand::SetModelMatrix { program, matrix } => SpecCommand::SetModelMatrix {
                program: *program,
                matrix: matrix@,
            },
            RenderCommand::SetCamMatrix { program, matrix } => SpecCommand::SetCamMatrix {
                program: *program,
                matrix: matrix@,
            },
            RenderCommand::VertexAttribPointer { program, attrib, components, stride_words, offset_words } => SpecCommand::VertexAttribPointer {
                program: *program,
                attrib: *attrib,
                components: *components,
                stride_words: *stride_words,
                offset_words: *offset_words,
            },
            RenderCommand::SetTextureUnit { program } => SpecCommand::SetTextureUnit { program: *program },
            RenderCommand::ActiveTextureUnit0 => SpecCommand::ActiveTextureUnit0,
            RenderCommand::BindTexture(t) => SpecCommand::BindTexture(*t),
            RenderCommand::TexImage2d { width, height, format, pixels } => SpecCommand::TexImage2d {
                width: *width,
                height: *height,
                format: *format,
                pixels: pixels@,
            },
            RenderCommand::SetTexFilters { min_filter, mag_filter } => SpecCommand::SetTexFilters {
                min_filter: *min_filter,
                mag_filter: *mag_filter,
            },
            RenderCommand::SetTexWrap { wrap_s, wrap_t } => SpecCommand::SetTexWrap {
                wrap_s: *wrap_s,
                wrap_t: *wrap_t,
            },
            RenderCommand::GenerateMipmap => SpecCommand::GenerateMipmap,
            RenderCommand::DrawElements { mode, count } => SpecCommand::DrawElements {
                mode: *mode,
                count: *count,
            },
            RenderCommand::DrawArrays { mode, first, count } => SpecCommand::DrawArrays {
                mode: *mode,
                first: *first,
                count: *count,
            },
            RenderCommand::Viewport { x, y, width, height } => SpecCommand::Viewport {
                x: *x,
                y: *y,
                width: *width,
                height: *height,
            },
        }
    }
}

/// The mathematical value of a command list.
pub open spec fn cmd_views(s: Seq<RenderCommand>) -> Seq<SpecCommand> {
    s.map_values(|c: RenderCommand| c@)
}

/// Whether a command is a draw call.
pub open spec fn spec_is_draw_call(c: SpecCommand) -> bool {
    c is DrawElements || c is DrawArrays
}

/// How many commands of a list are draw calls.
pub open spec fn spec_draw_call_count(cmds: Seq<SpecCommand>) -> int
    decreases cmds.len(),
{
    if cmds.len() == 0 {
        0int
    } else {
        spec_draw_call_count(cmds.drop_last()) + if spec_is_draw_call(cmds.last()) {
            1int
        } else {
            0int
        }
    }
}

/// Draw calls count across concatenation.
pub proof fn lemma_draw_call_count_concat(a: Seq<SpecCommand>, b: Seq<SpecCommand>)
    ensures
        spec_draw_call_count(a + b) == spec_draw_call_count(a) + spec_draw_call_count(b),
    decreases b.len(),
{
    if b.len() == 0 {
        assert(a + b =~= a);
    } else {
        lemma_draw_call_count_concat(a, b.drop_last());
        assert((a + b).drop_last() =~= a + b.drop_last());
        assert((a + b).last() == b.last());
    }
}

} // verus!
