//! Interactive viewer core for a parametrically generated 3D surface.
//!
//! The crate models the three subsystems that carry the engineering risk of
//! such a viewer: the window/context lifecycle state machine with its event
//! dispatcher, the GPU resource lifecycle (vertex arrays, shader programs,
//! textures) expressed as a stream of graphics-API commands, and the
//! interactive camera that turns pointer and scroll input into clamped
//! orbit angles and zoom.
//!
//! All geometry and camera state is kept in exact integer units so that every
//! rule — clamping, wrapping, one-time construction, exactly-once release —
//! is stated and proved here. A thin unverified shell owns the actual
//! windowing and graphics-API calls and executes the command lists this
//! library hands it.

use vstd::prelude::*;

pub mod array;
pub mod camera;
pub mod command;
pub mod error;
pub mod lifecycle;
pub mod mesh;
pub mod shader_program;
pub mod texture;

verus! {

/// The compilation unit kinds a shader program is assembled from.
#[derive(Clone, Copy, Debug, PartialEq, Eq, Structural)]
pub enum ShaderKind {
    Vertex,
    Geometry,
    Fragment,
}

impl ShaderKind {
    /// The lower-case name of the stage, as used in diagnostics.
    pub open spec fn label_spec(self) -> Seq<char> {
        match self {
            ShaderKind::Vertex => "vertex"@,
            ShaderKind::Geometry => "geometry"@,
            ShaderKind::Fragment => "fragment"@,
        }
    }

    /// The lower-case name of the stage, as used in diagnostics.
    pub fn label(&self) -> (r: &'static str)
        ensures
            r@ == self.label_spec(),
    {
        match self {
            ShaderKind::Vertex => "vertex",
            ShaderKind::Geometry => "geometry",
            ShaderKind::Fragment => "fragment",
        }
    }
}

} // verus!
