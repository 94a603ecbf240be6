use vstd::prelude::*;

use crate::shaders::ShaderSource;

verus! {

/// The binding point a buffer is attached to.
#[derive(Clone, Copy, Debug, PartialEq, Eq, Structural)]
pub enum BufferTarget {
    /// Vertex attribute data.
    Array,
    /// Vertex indices.
    ElementArray,
}

/// One call the library asks the driver to make.
///
/// Every buffer upload uses the static-draw usage hint, and every vertex
/// attribute is made of tightly packed, unnormalised floats starting at
/// offset zero.
#[derive(Debug, PartialEq, Eq)]
pub enum GlCommand {
    /// Make `buffer` the active buffer of `target` (0 unbinds).
    BindBuffer { target: BufferTarget, buffer: u32 },
    /// Upload `size` bytes of the caller's data into the buffer bound to `target`.
    BufferData { target: BufferTarget, size: isize },
    /// Declare attribute `index` as `components` floats per vertex, `stride` bytes apart.
    VertexAttribPointer { index: u32, components: i32, stride: i32 },
    /// Enable attribute `index`.
    EnableVertexAttribArray { index: u32 },
    /// Release `buffer`.
    DeleteBuffer { buffer: u32 },
    /// Hand `source` to `shader` and compile it.
    CompileShader { shader: u32, source: ShaderSource },
    /// Attach `shader` to `program`.
    AttachShader { program: u32, shader: u32 },
    /// Link `program`.
    LinkProgram { program: u32 },
    /// Validate `program`.
    ValidateProgram { program: u32 },
    /// Release `shader`.
    DeleteShader { shader: u32 },
    /// Make `program` the active program.
    UseProgram { program: u32 },
    /// Release `program`.
    DeleteProgram { program: u32 },
}

} // verus!
