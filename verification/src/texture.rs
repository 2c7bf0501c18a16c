//! A GPU-resident 2D texture. The embedding application decodes the image
//! file (an external collaborator's job) and allocates the texture handle;
//! this module decides the upload: filter and wrap state, and the pixel
//! format for the decoded channel count.

use vstd::prelude::*;
use crate::commands::{cmd_views, MagFilter, MinFilter, RenderCommand, SpecCommand, TexFormat, WrapMode};

verus! {

/// A handle to a GPU texture object.
pub struct Texture {
    pub texture: u32,
}

/// The upload sequence for a decoded image: bind, filters, wraps, pixel
/// upload (RGBA for four- or three-channel sources, single-channel
/// luminance for one-channel sources, nothing for any other channel
/// count), mipmaps, unbind.
pub open spec fn spec_texture_setup_cmds(
    texture: u32,
    width: i32,
    height: i32,
    channels: i32,
    pixels: Seq<u8>,
) -> Seq<SpecCommand> {
    seq![
        SpecCommand::ActiveTextureUnit0,
        SpecCommand::BindTexture(texture),
        SpecCommand::SetTexFilters {
            min_filter: MinFilter::NearestMipmapLinear,
            mag_filter: MagFilter::Nearest,
        },
        SpecCommand::SetTexWrap { wrap_s: WrapMode::Repeat, wrap_t: WrapMode::Repeat },
    ] + (if channels == 4 || channels == 3 {
        seq![SpecCommand::TexImage2d { width, height, format: TexFormat::Rgba, pixels }]
    } else if channels == 1 {
        seq![SpecCommand::TexImage2d { width, height, format: TexFormat::Luminance, pixels }]
    } else {
        Seq::<SpecCommand>::empty()
    }) + seq![SpecCommand::GenerateMipmap, SpecCommand::BindTexture(0)]
}

impl Texture {
    /// Wraps an allocated texture handle and produces the upload commands
    /// for an image the application has decoded to `channels` color
    /// channels of `width` by `height` pixels. The pixel buffer must cover
    /// the upload its channel count selects — four bytes per pixel for the
    /// RGBA paths, one for the luminance path — so that the upload never
    /// reads past it.
    pub fn new(texture: u32, width: i32, height: i32, channels: i32, pixels: Vec<u8>) -> (r: (
        Texture,
        Vec<RenderCommand>,
    ))
        requires
            width >= 0,
            height >= 0,
            (channels == 4 || channels == 3) ==> pixels@.len() == width * height * 4,
            channels == 1 ==> pixels@.len() == width * height,
        ensures
            r.0.texture == texture,
            cmd_views(r.1@) == spec_texture_setup_cmds(texture, width, height, channels, pixels@),
    {
        let ghost pix = pixels@;
        let mut cmds: Vec<RenderCommand> = Vec::new();
        cmds.push(RenderCommand::ActiveTextureUnit0);
        cmds.push(RenderCommand::BindTexture(texture));
        cmds.push(
            RenderCommand::SetTexFilters {
                min_filter: MinFilter::NearestMipmapLinear,
                mag_filter: MagFilter::Nearest,
            },
        );
        cmds.push(RenderCommand::SetTexWrap { wrap_s: WrapMode::Repeat, wrap_t: WrapMode::Repeat });
        if channels == 4 || channels == 3 {
            cmds.push(
                RenderCommand::TexImage2d { width, height, format: TexFormat::Rgba, pixels },
            );
        } else if channels == 1 {
            cmds.push(
                RenderCommand::TexImage2d { width, height, format: TexFormat::Luminance, pixels },
            );
        }
        cmds.push(RenderCommand::GenerateMipmap);
        cmds.push(RenderCommand::BindTexture(0));
        assert(cmd_views(cmds@) =~= spec_texture_setup_cmds(texture, width, height, channels, pix));
        (Texture { texture }, cmds)
    }

    /// The commands that make this texture current on unit zero.
    pub fn bind(&self) -> (r: Vec<RenderCommand>)
        ensures
            cmd_views(r@) == seq![
                SpecCommand::ActiveTextureUnit0,
                SpecCommand::BindTexture(self.texture),
            ],
    {
        let r = vec![RenderCommand::ActiveTextureUnit0, RenderCommand::BindTexture(self.texture)];
        assert(cmd_views(r@) =~= seq![
            SpecCommand::ActiveTextureUnit0,
            SpecCommand::BindTexture(self.texture),
        ]);
        r
    }

    /// The command that unbinds any texture from unit zero.
    pub fn unbind(&self) -> (r: Vec<RenderCommand>)
        ensures
            cmd_views(r@) == seq![SpecCommand::BindTexture(0u32)],
    {
        let r = vec![RenderCommand::BindTexture(0)];
        assert(cmd_views(r@) =~= seq![SpecCommand::BindTexture(0u32)]);
        r
    }
}

} // verus!
