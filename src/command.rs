//! The graphics commands that one mesh draw consists of, and the fixed names
//! through which a shader exposes its inputs.
use vstd::prelude::*;
use crate::transform::{MeshRenderOpts, CameraMatrices};

verus! {

/// A per-vertex input of the mesh shader.
#[derive(Debug, Clone, Copy, PartialEq, Eq)]
pub enum AttribName {
    Position,
    Normal,
}

/// A per-draw constant of the mesh shader.
#[derive(Debug, Clone, Copy, PartialEq, Eq)]
pub enum UniformName {
    Model,
    View,
    Perspective,
    ClipPlane,
}

/// The name under which the shader declares an attribute.
pub open spec fn attrib_name_spec(a: AttribName) -> Seq<char> {
    match a {
        AttribName::Position => "position"@,
        AttribName::Normal => "normal"@,
    }
}

/// The name under which the shader declares a uniform.
pub open spec fn uniform_name_spec(u: UniformName) -> Seq<char> {
    match u {
        UniformName::Model => "model"@,
        UniformName::View => "view"@,
        UniformName::Perspective => "perspective"@,
        UniformName::ClipPlane => "clipPlane"@,
    }
}

impl AttribName {
    /// The shader-side name of this attribute.
    pub fn as_str(&self) -> (r: &'static str)
        ensures
            r@ == attrib_name_spec(*self),
    {
        match self {
            AttribName::Position => "position",
            AttribName::Normal => "normal",
        }
    }
}

impl UniformName {
    /// The shader-side name of this uniform.
    pub fn as_str(&self) -> (r: &'static str)
        ensures
            r@ == uniform_name_spec(*self),
    {
        match self {
            UniformName::Model => "model",
            UniformName::View => "view",
            UniformName::Perspective => "perspective",
            UniformName::ClipPlane => "clipPlane",
        }
    }
}

/// Which of the mesh's vertex arrays a buffer upload streams.
#[derive(Debug, Clone, Copy, PartialEq, Eq)]
pub enum VertexStream {
    Positions,
    Normals,
}

/// Attribute locations as the shader program reports them: a negative value
/// means that the program has no such attribute.
#[derive(Debug, Clone, Copy, PartialEq, Eq)]
pub struct AttribLocations {
    pub position: i32,
    pub normal: i32,
}

/// One operation on the graphics context. Floats are bit patterns; matrices
/// are column-major.
#[derive(Debug, Clone, Copy, PartialEq, Eq)]
pub enum GlCommand {
    /// Enable the vertex attribute array at `index`.
    EnableVertexAttribArray { index: u32 },
    /// Upload a 4x4 matrix, not transposed, to a uniform.
    UniformMatrix4 { uniform: UniformName, columns: [u32; 16] },
    /// Upload a 4-component vector to a uniform.
    Uniform4 { uniform: UniformName, values: [u32; 4] },
    /// Upload one of the mesh's float arrays into a fresh vertex buffer and
    /// point the attribute at `index` to it: `components` floats per vertex,
    /// `stride` bytes between vertices (0: tightly packed), offset 0.
    BufferVertexData { index: u32, stream: VertexStream, components: u32, stride: u32 },
    /// Upload the mesh's indices, as unsigned 16-bit values, into a fresh
    /// index buffer.
    BufferIndices,
    /// Draw `count` indices of the bound index buffer as a triangle list,
    /// starting at offset 0.
    DrawTriangles { count: i32 },
}

/// The attribute index that a reported location names: the location's 32
/// bits read as unsigned, so an absent attribute gives an index that the
/// graphics layer ignores.
pub open spec fn attrib_index_spec(loc: i32) -> u32 {
    if loc >= 0 {
        loc as u32
    } else {
        (loc + 0x1_0000_0000) as u32
    }
}

/// Reads a reported attribute location as an attribute index.
pub fn attrib_index(loc: i32) -> (r: u32)
    ensures
        r == attrib_index_spec(loc),
{
    if loc >= 0 {
        loc as u32
    } else {
        (loc as i64 + 0x1_0000_0000i64) as u32
    }
}

/// The commands of one draw of a mesh with `index_count` indices, in order:
/// attribute enabling, uniform uploads, vertex and index uploads, then the
/// draw call.
pub open spec fn render_plan(
    index_count: nat,
    opts: MeshRenderOpts,
    attribs: AttribLocations,
    camera: CameraMatrices,
) -> Seq<GlCommand> {
    let p = attrib_index_spec(attribs.position);
    let n = attrib_index_spec(attribs.normal);
    seq![
        GlCommand::EnableVertexAttribArray { index: p },
        GlCommand::EnableVertexAttribArray { index: n },
        GlCommand::UniformMatrix4 { uniform: UniformName::Model, columns: crate::transform::model_matrix_spec(opts.pos) },
        GlCommand::UniformMatrix4 { uniform: UniformName::View, columns: camera.view },
        GlCommand::UniformMatrix4 { uniform: UniformName::Perspective, columns: camera.projection },
        GlCommand::Uniform4 { uniform: UniformName::ClipPlane, values: opts.clip_plane },
        GlCommand::BufferVertexData { index: p, stream: VertexStream::Positions, components: 3, stride: 0 },
        GlCommand::BufferVertexData { index: n, stream: VertexStream::Normals, components: 3, stride: 0 },
        GlCommand::BufferIndices,
        GlCommand::DrawTriangles { count: index_count as i32 },
    ]
}

} // verus!
