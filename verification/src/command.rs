//! Graphics-API commands.
//!
//! Every GPU-side effect the library decides on is described by a
//! [`GlCommand`] value. The verified code fixes which commands are issued,
//! with which arguments and in which order; the unverified shell executes
//! them against the real graphics API, in list order.

use vstd::prelude::*;

verus! {

/// One call into the graphics API, with all its arguments as plain values.
#[derive(Debug, Clone, PartialEq, Eq)]
pub enum GlCommand {
    /// Bind the vertex-array object `vao`.
    BindVertexArray { vao: u32 },
    /// Bind `vbo` as the array buffer.
    BindArrayBuffer { vbo: u32 },
    /// Bind `ebo` as the element array buffer.
    BindElementArrayBuffer { ebo: u32 },
    /// Upload `byte_len` bytes of the caller's staged data into the bound
    /// array buffer, with a dynamic usage hint.
    UploadArrayData { byte_len: usize },
    /// Upload `byte_len` bytes of the caller's staged data into the bound
    /// element array buffer, with a dynamic usage hint.
    UploadElementData { byte_len: usize },
    /// Describe one floating-point vertex attribute of the bound buffer.
    VertexAttribPointer {
        location: u32,
        components: u8,
        element_type: u32,
        normalized: bool,
        stride: usize,
        offset: usize,
    },
    /// Describe one integer vertex attribute of the bound buffer.
    /// Integer attributes use a distinct call: the API performs no
    /// implicit conversion for them.
    VertexAttribIPointer {
        location: u32,
        components: u8,
        element_type: u32,
        stride: usize,
        offset: usize,
    },
    /// Enable the vertex attribute slot `location`.
    EnableVertexAttribArray { location: u32 },
    /// Release the vertex-array object `vao`.
    DeleteVertexArray { vao: u32 },
    /// Release the buffer object `id`.
    DeleteBuffer { id: u32 },
    /// Select program `id` for subsequent draw operations.
    UseProgram { id: u32 },
    /// Attach compiled stage `shader` to `program` before linking.
    AttachShader { program: u32, shader: u32 },
    /// Link the attached stages of `program`.
    LinkProgram { program: u32 },
    /// Release the compiled stage object `id`.
    DeleteShader { id: u32 },
    /// Release the linked program `id`.
    DeleteProgram { id: u32 },
    /// Set the named integer uniform of `program`; an unresolved name is a
    /// no-op target on the API side, never an error.
    SetUniformI32 { program: u32, name: String, value: i32 },
    /// Set the named unsigned uniform of `program`.
    SetUniformU32 { program: u32, name: String, value: u32 },
    /// Select texture unit `unit` as the active one.
    ActiveTexture { unit: u32 },
    /// Bind the 2D texture `id`.
    BindTexture { id: u32 },
    /// Set one integer parameter of the bound 2D texture.
    TexParameter { name: u32, value: i32 },
    /// Upload the caller's staged `width` x `height` pixel block into the
    /// bound 2D texture.
    UploadTexImage { width: u32, height: u32 },
    /// Generate mipmap levels for the bound 2D texture.
    GenerateMipmap,
}

} // verus!
