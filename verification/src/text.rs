//! Bitmap text elements. The external font renderer (driven by the
//! embedding application) rasterizes the ASCII glyphs of a face into one
//! GPU texture per code point and reports each glyph's metrics; the
//! application lays the text out as one 48-word quad per character (six
//! 8-float vertices). This module owns the glyph table and the quads and
//! produces the draw sequence: for every character in order, bind its
//! glyph texture, stream its quad into the shared dynamic buffer, and
//! draw two triangles.

use vstd::prelude::*;
use crate::commands::{cmd_views, Attrib, DrawMode, RenderCommand, SpecCommand};
use crate::glmath;
use crate::glmath::{QuatBits, Vec3Bits};
use crate::mesh::spec_model_matrix;
use crate::types::{RGBA, F32_ONE, F32_TENTH, F32_ZERO};

verus! {

broadcast use vstd::string::is_ascii_spec_bytes, vstd::utf8::is_ascii_chars_nat_bound;

/// One rasterized glyph: its GPU texture and metrics in pixels.
#[derive(Clone, Copy, PartialEq, Eq, Debug)]
pub struct Character {
    /// Handle of the glyph's luminance texture.
    pub texture: u32,
    /// Bitmap width and height.
    pub size: (i32, i32),
    /// Offsets from the pen position to the bitmap's left and top.
    pub bearing: (i32, i32),
    /// Horizontal advance to the next pen position, in 1/64 pixels.
    pub advance: i32,
}

/// A text element: the text and font it was built from, its placement
/// and color, the glyph table for code points 0 to 127, the precomputed
/// quad of every character, and the shared dynamic vertex buffer. Built
/// in two steps like a shape: `new` makes the descriptor, `new_instance`
/// the GPU-ready element.
pub struct TextBuilder {
    pub text: String,
    pub font: Vec<u8>,
    pub size: u32,
    pub is_hud: bool,
    pub position: Vec3Bits,
    pub scale: Vec3Bits,
    pub rotation: QuatBits,
    pub rgba: RGBA,
    pub characters: Vec<Character>,
    pub quads: Vec<Vec<u32>>,
    pub vbo: u32,
}

/// A GPU-ready text element: ASCII text, a full glyph table, and one
/// 48-word quad per character.
pub open spec fn spec_text_wf(tb: TextBuilder) -> bool {
    &&& vstd::utf8::is_ascii_chars(tb.text@)
    &&& tb.characters@.len() == 128
    &&& tb.quads@.len() == tb.text@.len()
    &&& forall|i: int| 0 <= i < tb.quads@.len() ==> #[trigger] tb.quads@[i]@.len() == 48
}

/// The fixed head of a text draw: program, buffer, texture unit, model
/// matrix and the 8-float UI vertex layout.
pub open spec fn spec_text_prefix_cmds(tb: TextBuilder, program: u32) -> Seq<SpecCommand> {
    seq![
        SpecCommand::UseProgram(program),
        SpecCommand::BindArrayBuffer(tb.vbo),
        SpecCommand::ActiveTextureUnit0,
        SpecCommand::SetModelMatrix {
            program,
            matrix: spec_model_matrix(tb.position@, tb.rotation@, tb.scale@),
        },
        SpecCommand::VertexAttribPointer {
            program,
            attrib: Attrib::Position,
            components: 2,
            stride_words: 8,
            offset_words: 0,
        },
        SpecCommand::VertexAttribPointer {
            program,
            attrib: Attrib::Color,
            components: 4,
            stride_words: 8,
            offset_words: 2,
        },
        SpecCommand::VertexAttribPointer {
            program,
            attrib: Attrib::Tex,
            components: 2,
            stride_words: 8,
            offset_words: 6,
        },
        SpecCommand::BindArrayBuffer(0),
    ]
}

/// The glyph draws of the first `k` characters: bind the character's
/// glyph texture, stream its quad, draw six vertices.
pub open spec fn spec_text_glyph_cmds(tb: TextBuilder, k: int) -> Seq<SpecCommand>
    decreases k,
{
    if k <= 0 {
        Seq::empty()
    } else {
        spec_text_glyph_cmds(tb, k - 1) + seq![
            SpecCommand::BindTexture(tb.characters@[tb.text@[k - 1] as int].texture),
            SpecCommand::BindArrayBuffer(tb.vbo),
            SpecCommand::ArrayBufferSubData(tb.quads@[k - 1]@),
            SpecCommand::BindArrayBuffer(0),
            SpecCommand::DrawArrays { mode: DrawMode::Triangles, first: 0, count: 6 },
        ]
    }
}

/// One whole draw of a text element.
pub open spec fn spec_text_draw_cmds(tb: TextBuilder, program: u32) -> Seq<SpecCommand> {
    spec_text_prefix_cmds(tb, program) + spec_text_glyph_cmds(tb, tb.quads@.len() as int) + seq![
        SpecCommand::BindTexture(0),
    ]
}

impl TextBuilder {
    /// A bare text descriptor: the text, its font bytes and pixel size,
    /// no GPU objects yet, default placement and a dark default color.
    pub fn new(text: String, font_data: &[u8], size: u32) -> (r: TextBuilder)
        ensures
            r.text@ == text@,
            r.font@ == font_data@,
            r.size == size,
            r.is_hud == false,
            r.position@ == seq![F32_ZERO, F32_ZERO, F32_ZERO],
            r.scale@ == seq![F32_ONE, F32_ONE, F32_ONE],
            r.rotation@ == seq![F32_ZERO, F32_ZERO, F32_ZERO, F32_ONE],
            r.rgba == (RGBA { r: F32_TENTH, g: F32_TENTH, b: F32_TENTH, a: F32_ONE }),
            r.characters@.len() == 0,
            r.quads@.len() == 0,
            r.vbo == 0,
    {
        let r = TextBuilder {
            text,
            font: vstd::slice::slice_to_vec(font_data),
            size,
            is_hud: false,
            position: [F32_ZERO, F32_ZERO, F32_ZERO],
            scale: [F32_ONE, F32_ONE, F32_ONE],
            rotation: [F32_ZERO, F32_ZERO, F32_ZERO, F32_ONE],
            rgba: RGBA { r: F32_TENTH, g: F32_TENTH, b: F32_TENTH, a: F32_ONE },
            characters: Vec::new(),
            quads: Vec::new(),
            vbo: 0,
        };
        assert(r.position@ =~= seq![F32_ZERO, F32_ZERO, F32_ZERO]);
        assert(r.scale@ =~= seq![F32_ONE, F32_ONE, F32_ONE]);
        assert(r.rotation@ =~= seq![F32_ZERO, F32_ZERO, F32_ZERO, F32_ONE]);
        r
    }

    /// Builds the GPU-ready element for a descriptor, from the glyph
    /// table and per-character quads the application rasterized and laid
    /// out, and the allocated dynamic buffer handle. The commands size
    /// the buffer for one 48-word quad.
    pub fn new_instance(
        text_builder: &TextBuilder,
        is_hud: bool,
        rgba: RGBA,
        position: Vec3Bits,
        scale: Vec3Bits,
        rotation: QuatBits,
        characters: Vec<Character>,
        quads: Vec<Vec<u32>>,
        vbo: u32,
    ) -> (r: (TextBuilder, Vec<RenderCommand>))
        requires
            vstd::utf8::is_ascii_chars(text_builder.text@),
            characters@.len() == 128,
            quads@.len() == text_builder.text@.len(),
            forall|i: int| 0 <= i < quads@.len() ==> #[trigger] quads@[i]@.len() == 48,
        ensures
            spec_text_wf(r.0),
            r.0.text@ == text_builder.text@,
            r.0.font@ == text_builder.font@,
            r.0.size == text_builder.size,
            r.0.is_hud == is_hud,
            r.0.position == position,
            r.0.scale == scale,
            r.0.rotation == rotation,
            r.0.rgba == rgba,
            r.0.characters@ == characters@,
            r.0.quads@ == quads@,
            r.0.vbo == vbo,
            cmd_views(r.1@) == seq![
                SpecCommand::BindArrayBuffer(vbo),
                SpecCommand::AllocDynamicArrayBuffer(48usize),
                SpecCommand::BindTexture(0u32),
                SpecCommand::BindArrayBuffer(0u32),
            ],
    {
        let text = clone_string(&text_builder.text);
        let font = clone_bytes(&text_builder.font);
        let cmds = vec![
            RenderCommand::BindArrayBuffer(vbo),
            RenderCommand::AllocDynamicArrayBuffer(48),
            RenderCommand::BindTexture(0),
            RenderCommand::BindArrayBuffer(0),
        ];
        assert(cmd_views(cmds@) =~= seq![
            SpecCommand::BindArrayBuffer(vbo),
            SpecCommand::AllocDynamicArrayBuffer(48usize),
            SpecCommand::BindTexture(0u32),
            SpecCommand::BindArrayBuffer(0u32),
        ]);
        (
            TextBuilder {
                text,
                font,
                size: text_builder.size,
                is_hud,
                position,
                scale,
                rotation,
                rgba,
                characters,
                quads,
                vbo,
            },
            cmds,
        )
    }

    /// The command sequence of one draw of this element.
    pub fn draw(&self, program: u32) -> (r: Vec<RenderCommand>)
        requires
            spec_text_wf(*self),
        ensures
            cmd_views(r@) == spec_text_draw_cmds(*self, program),
    {
        let translation_matrix = glmath::translation_matrix(&self.position);
        let rotation_matrix = glmath::quat_to_mat4_matrix(&self.rotation);
        let scale_matrix = glmath::scale_matrix(&self.scale);
        let model_matrix = glmath::mat4_mul(
            &glmath::mat4_mul(&translation_matrix, &rotation_matrix),
            &scale_matrix,
        );
        let mut r = vec![
            RenderCommand::UseProgram(program),
            RenderCommand::BindArrayBuffer(self.vbo),
            RenderCommand::ActiveTextureUnit0,
            RenderCommand::SetModelMatrix { program, matrix: model_matrix },
            RenderCommand::VertexAttribPointer {
                program,
                attrib: Attrib::Position,
                components: 2,
                stride_words: 8,
                offset_words: 0,
            },
            RenderCommand::VertexAttribPointer {
                program,
                attrib: Attrib::Color,
                components: 4,
                stride_words: 8,
                offset_words: 2,
            },
            RenderCommand::VertexAttribPointer {
                program,
                attrib: Attrib::Tex,
                components: 2,
                stride_words: 8,
                offset_words: 6,
            },
            RenderCommand::BindArrayBuffer(0),
        ];
        assert(cmd_views(r@) =~= spec_text_prefix_cmds(*self, program));
        let text_str = self.text.as_str();
        let bytes = text_str.as_bytes();
        proof {
            assert(vstd::string::is_ascii(text_str));
        }
        let mut i: usize = 0;
        while i < self.quads.len()
            invariant
                spec_text_wf(*self),
                i <= self.quads@.len(),
                bytes@.len() == self.text@.len(),
                forall|j: int| 0 <= j < bytes@.len() ==> bytes@[j] == self.text@[j] as u8,
                cmd_views(r@) == spec_text_prefix_cmds(*self, program) + spec_text_glyph_cmds(
                    *self,
                    i as int,
                ),
            decreases self.quads@.len() - i,
        {
            let code = bytes[i] as usize;
            proof {
                assert((self.text@[i as int] as nat) < 128);
                assert(code == self.text@[i as int] as int);
            }
            let ch = &self.characters[code];
            let quad_words = clone_words(&self.quads[i]);
            r.push(RenderCommand::BindTexture(ch.texture));
            r.push(RenderCommand::BindArrayBuffer(self.vbo));
            r.push(RenderCommand::ArrayBufferSubData(quad_words));
            r.push(RenderCommand::BindArrayBuffer(0));
            r.push(RenderCommand::DrawArrays { mode: DrawMode::Triangles, first: 0, count: 6 });
            proof {
                let five = seq![
                    SpecCommand::BindTexture(
                        self.characters@[self.text@[i as int] as int].texture,
                    ),
                    SpecCommand::BindArrayBuffer(self.vbo),
                    SpecCommand::ArrayBufferSubData(self.quads@[i as int]@),
                    SpecCommand::BindArrayBuffer(0u32),
                    SpecCommand::DrawArrays { mode: DrawMode::Triangles, first: 0u32, count: 6usize },
                ];
                assert(spec_text_glyph_cmds(*self, i as int + 1) == spec_text_glyph_cmds(
                    *self,
                    i as int,
                ) + five);
                assert(cmd_views(r@) =~= (spec_text_prefix_cmds(*self, program)
                    + spec_text_glyph_cmds(*self, i as int)) + five);
                assert(cmd_views(r@) =~= spec_text_prefix_cmds(*self, program)
                    + spec_text_glyph_cmds(*self, i as int + 1));
            }
            i = i + 1;
        }
        r.push(RenderCommand::BindTexture(0));
        assert(cmd_views(r@) =~= spec_text_draw_cmds(*self, program));
        r
    }
}

/// Copies a word list for a streamed quad.
fn clone_words(words: &Vec<u32>) -> (r: Vec<u32>)
    ensures
        r@ == words@,
{
    let mut r: Vec<u32> = Vec::new();
    let mut i: usize = 0;
    while i < words.len()
        invariant
            i <= words@.len(),
            r@ == words@.subrange(0, i as int),
        decreases words@.len() - i,
    {
        r.push(words[i]);
        assert(r@ =~= words@.subrange(0, i + 1));
        i = i + 1;
    }
    assert(r@ =~= words@);
    r
}

/// Copies a byte list.
fn clone_bytes(bytes: &Vec<u8>) -> (r: Vec<u8>)
    ensures
        r@ == bytes@,
{
    let mut r: Vec<u8> = Vec::new();
    let mut i: usize = 0;
    while i < bytes.len()
        invariant
            i <= bytes@.len(),
            r@ == bytes@.subrange(0, i as int),
        decreases bytes@.len() - i,
    {
        r.push(bytes[i]);
        assert(r@ =~= bytes@.subrange(0, i + 1));
        i = i + 1;
    }
    assert(r@ =~= bytes@);
    r
}

/// Copies a string.
fn clone_string(s: &String) -> (r: String)
    ensures
        r@ == s@,
{
    s.clone()
}

} // verus!
