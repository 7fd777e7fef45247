//! Structured errors surfaced by shader program assembly.

use vstd::prelude::*;
use crate::ShaderKind;

verus! {

/// An error raised while assembling a shader program.
///
/// Both variants are terminal for the construction attempt: no partially
/// valid program is ever observable.
#[derive(Debug, Clone, PartialEq, Eq)]
pub enum GlError {
    /// One stage failed to compile; `shader_kind` names the stage and
    /// `gl_log` carries the verbatim compiler diagnostic.
    ShaderCompileError { shader_kind: ShaderKind, gl_log: String },
    /// The compiled stages failed to link into a program.
    ProgramLinkingError { gl_log: String },
}

} // verus!
