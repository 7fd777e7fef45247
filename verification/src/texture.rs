//! GPU texture setup and binding.
//!
//! Decoding image files is an external collaborator's job: the library
//! only takes an already-decoded pixel block's dimensions and fixes the
//! exact upload and bind command sequences.

use vstd::prelude::*;
use crate::command::GlCommand;

verus! {

/// Texture parameter tag: wrap mode along the first axis.
pub const GL_TEXTURE_WRAP_S: u32 = 0x2802;

/// Texture parameter tag: wrap mode along the second axis.
pub const GL_TEXTURE_WRAP_T: u32 = 0x2803;

/// Texture parameter tag: minification filter.
pub const GL_TEXTURE_MIN_FILTER: u32 = 0x2801;

/// Texture parameter tag: magnification filter.
pub const GL_TEXTURE_MAG_FILTER: u32 = 0x2800;

/// Wrap-mode value: repeat.
pub const GL_REPEAT: i32 = 0x2901;

/// Filter value: linear.
pub const GL_LINEAR: i32 = 0x2601;

/// A 2D texture handle.
#[derive(Debug, PartialEq, Eq, Structural)]
pub struct Texture {
    pub id: u32,
}

impl Texture {
    /// Wrap a freshly generated texture id.
    pub fn new(id: u32) -> (r: Texture)
        ensures
            r.id == id,
    {
        Texture { id }
    }

    /// The setup sequence for an already-decoded `width` x `height` pixel
    /// block: bind, repeat-wrap both axes, linear filters, upload, build
    /// mipmaps.
    pub fn setup_commands(&self, width: u32, height: u32) -> (r: Vec<GlCommand>)
        ensures
            r@ == seq![
                (GlCommand::BindTexture { id: self.id }),
                (GlCommand::TexParameter { name: GL_TEXTURE_WRAP_S, value: GL_REPEAT }),
                (GlCommand::TexParameter { name: GL_TEXTURE_WRAP_T, value: GL_REPEAT }),
                (GlCommand::TexParameter { name: GL_TEXTURE_MIN_FILTER, value: GL_LINEAR }),
                (GlCommand::TexParameter { name: GL_TEXTURE_MAG_FILTER, value: GL_LINEAR }),
                (GlCommand::UploadTexImage { width, height }),
                GlCommand::GenerateMipmap,
            ],
    {
        let mut commands: Vec<GlCommand> = Vec::new();
        commands.push(GlCommand::BindTexture { id: self.id });
        commands.push(GlCommand::TexParameter { name: GL_TEXTURE_WRAP_S, value: GL_REPEAT });
        commands.push(GlCommand::TexParameter { name: GL_TEXTURE_WRAP_T, value: GL_REPEAT });
        commands.push(GlCommand::TexParameter { name: GL_TEXTURE_MIN_FILTER, value: GL_LINEAR });
        commands.push(GlCommand::TexParameter { name: GL_TEXTURE_MAG_FILTER, value: GL_LINEAR });
        commands.push(GlCommand::UploadTexImage { width, height });
        commands.push(GlCommand::GenerateMipmap);
        commands
    }

    /// Bind this texture on the first texture unit for drawing.
    pub fn bind(&self) -> (r: Vec<GlCommand>)
        ensures
            r@ == seq![
                (GlCommand::ActiveTexture { unit: 0 }),
                (GlCommand::BindTexture { id: self.id }),
            ],
    {
        let mut commands: Vec<GlCommand> = Vec::new();
        commands.push(GlCommand::ActiveTexture { unit: 0 });
        commands.push(GlCommand::BindTexture { id: self.id });
        commands
    }
}

} // verus!
