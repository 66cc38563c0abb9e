//! The mesh renderer: one mesh instance, borrowed for the duration of a draw,
//! turned into the ordered commands of exactly one indexed draw call.
use vstd::prelude::*;
use crate::command::{
    attrib_index, attrib_index_spec, render_plan, AttribLocations, GlCommand, UniformName, VertexStream,
};
use crate::geometry::MeshGeometry;
use crate::transform::{model_matrix, model_matrix_spec, CameraMatrices, MeshRenderOpts};

verus! {

/// A mesh instance ready to be drawn: geometry and options are borrowed, never copied.
pub struct RenderableMesh<'a> {
    pub mesh: &'a MeshGeometry,
    pub opts: &'a MeshRenderOpts,
}

/// The contents of a vertex stream of `mesh`.
pub open spec fn stream_contents(mesh: MeshGeometry, stream: VertexStream) -> Seq<u32> {
    match stream {
        VertexStream::Positions => mesh.vertex_positions@,
        VertexStream::Normals => mesh.vertex_normals@,
    }
}

impl<'a> RenderableMesh<'a> {
    /// The commands of one draw of this instance, seen through `camera`, with
    /// the shader's attributes at `attribs`. Uniforms are addressed by name;
    /// the graphics layer ignores an upload to a uniform that the shader
    /// lacks.
    pub fn render(&self, attribs: AttribLocations, camera: &CameraMatrices) -> (r: Vec<GlCommand>)
        requires
            self.mesh.wf(),
        ensures
            r@ == render_plan(self.mesh.vertex_position_indices@.len(), *self.opts, attribs, *camera),
    {
        let opts = self.opts;
        let pos_attrib = attrib_index(attribs.position);
        let normal_attrib = attrib_index(attribs.normal);
        let count = self.mesh.vertex_position_indices.len() as i32;

        let mut cmds: Vec<GlCommand> = Vec::new();
        cmds.push(GlCommand::EnableVertexAttribArray { index: pos_attrib });
        cmds.push(GlCommand::EnableVertexAttribArray { index: normal_attrib });
        cmds.push(GlCommand::UniformMatrix4 { uniform: UniformName::Model, columns: model_matrix(opts.pos) });
        cmds.push(GlCommand::UniformMatrix4 { uniform: UniformName::View, columns: camera.view });
        cmds.push(GlCommand::UniformMatrix4 { uniform: UniformName::Perspective, columns: camera.projection });
        cmds.push(GlCommand::Uniform4 { uniform: UniformName::ClipPlane, values: opts.clip_plane });
        cmds.push(GlCommand::BufferVertexData {
            index: pos_attrib,
            stream: VertexStream::Positions,
            components: 3,
            stride: 0,
        });
        cmds.push(GlCommand::BufferVertexData {
            index: normal_attrib,
            stream: VertexStream::Normals,
            components: 3,
            stride: 0,
        });
        cmds.push(GlCommand::BufferIndices);
        cmds.push(GlCommand::DrawTriangles { count });
        assert(cmds@ =~= render_plan(self.mesh.vertex_position_indices@.len(), *self.opts, attribs, *camera));
        cmds
    }

    /// The floats that a `BufferVertexData` command of this instance uploads.
    pub fn stream_data(&self, stream: VertexStream) -> (r: &'a [u32])
        ensures
            r@ == stream_contents(*self.mesh, stream),
    {
        match stream {
            VertexStream::Positions => self.mesh.vertex_positions.as_slice(),
            VertexStream::Normals => self.mesh.vertex_normals.as_slice(),
        }
    }

    /// The indices that the `BufferIndices` command of this instance uploads.
    pub fn index_data(&self) -> (r: &'a [u16])
        ensures
            r@ == self.mesh.vertex_position_indices@,
    {
        self.mesh.vertex_position_indices.as_slice()
    }
}

/// The command issues a draw call.
pub open spec fn is_draw(c: GlCommand) -> bool {
    c is DrawTriangles
}

/// The command enables a vertex attribute array.
pub open spec fn is_enable(c: GlCommand) -> bool {
    c is EnableVertexAttribArray
}

/// The command uploads a uniform value.
pub open spec fn is_uniform_upload(c: GlCommand) -> bool {
    c is UniformMatrix4 || c is Uniform4
}

/// The command enables the vertex attribute array at `index`.
pub open spec fn enables(c: GlCommand, index: u32) -> bool {
    c == GlCommand::EnableVertexAttribArray { index }
}

/// The command uploads a value to uniform `u`.
pub open spec fn sets_uniform(c: GlCommand, u: UniformName) -> bool {
    match c {
        GlCommand::UniformMatrix4 { uniform, .. } => uniform == u,
        GlCommand::Uniform4 { uniform, .. } => uniform == u,
        _ => false,
    }
}

/// Some command before the last one of `plan` uploads a value to uniform `u`.
pub open spec fn uploaded_before_last(plan: Seq<GlCommand>, u: UniformName) -> bool {
    exists|i: int| 0 <= i < plan.len() - 1 && #[trigger] sets_uniform(plan[i], u)
}

/// A draw of a valid mesh issues exactly one draw call, as the last command,
/// and it covers every index of the mesh: a whole number of triangles.
pub proof fn lemma_draw_covers_all_indices(
    mesh: MeshGeometry,
    opts: MeshRenderOpts,
    attribs: AttribLocations,
    camera: CameraMatrices,
)
    requires
        mesh.wf(),
    ensures
        ({
            let len = mesh.vertex_position_indices@.len();
            let plan = render_plan(len, opts, attribs, camera);
            &&& plan.last() == (GlCommand::DrawTriangles { count: len as i32 })
            &&& (len as i32) as int == len
            &&& len % 3 == 0
            &&& forall|i: int| 0 <= i < plan.len() - 1 ==> !is_draw(#[trigger] plan[i])
        }),
{
    let len = mesh.vertex_position_indices@.len();
    let plan = render_plan(len, opts, attribs, camera);
    assert forall|i: int| 0 <= i < plan.len() - 1 implies !is_draw(#[trigger] plan[i]) by {
        assert(0 <= i < 9);
    }
}

/// In every draw, all attribute arrays are enabled before any uniform is
/// uploaded, every uniform is uploaded, and both attributes are enabled,
/// before the draw call, and nothing follows the draw call.
pub proof fn lemma_commands_ordered(
    index_count: nat,
    opts: MeshRenderOpts,
    attribs: AttribLocations,
    camera: CameraMatrices,
)
    ensures
        ({
            let plan = render_plan(index_count, opts, attribs, camera);
            &&& is_draw(plan.last())
            &&& forall|i: int| 0 <= i < plan.len() && is_draw(#[trigger] plan[i]) ==> i == plan.len() - 1
            &&& forall|i: int, j: int|
                0 <= i < plan.len() && 0 <= j < plan.len() && is_enable(#[trigger] plan[i])
                    && is_uniform_upload(#[trigger] plan[j]) ==> i < j
            &&& forall|u: UniformName| #[trigger] uploaded_before_last(plan, u)
            &&& exists|i: int| 0 <= i < plan.len() - 1 && enables(plan[i], attrib_index_spec(attribs.position))
            &&& exists|i: int| 0 <= i < plan.len() - 1 && enables(plan[i], attrib_index_spec(attribs.normal))
        }),
{
    let plan = render_plan(index_count, opts, attribs, camera);
    assert forall|i: int| 0 <= i < plan.len() && is_draw(#[trigger] plan[i]) implies i == plan.len() - 1 by {
        assert(0 <= i < 10);
    }
    assert forall|i: int, j: int|
        0 <= i < plan.len() && 0 <= j < plan.len() && is_enable(#[trigger] plan[i])
            && is_uniform_upload(#[trigger] plan[j]) implies i < j by {
        assert(0 <= i < 10 && 0 <= j < 10);
    }
    assert forall|u: UniformName| #[trigger] uploaded_before_last(plan, u) by {
        match u {
            UniformName::Model => assert(sets_uniform(plan[2], u)),
            UniformName::View => assert(sets_uniform(plan[3], u)),
            UniformName::Perspective => assert(sets_uniform(plan[4], u)),
            UniformName::ClipPlane => assert(sets_uniform(plan[5], u)),
        }
    }
    assert(enables(plan[0], attrib_index_spec(attribs.position)));
    assert(enables(plan[1], attrib_index_spec(attribs.normal)));
}

/// A valid mesh has one normal per position, and each vertex array is
/// streamed tightly packed, three floats per vertex, to its own attribute.
pub proof fn lemma_vertex_streams_tight(
    mesh: MeshGeometry,
    opts: MeshRenderOpts,
    attribs: AttribLocations,
    camera: CameraMatrices,
)
    requires
        mesh.wf(),
    ensures
        ({
            let plan = render_plan(mesh.vertex_position_indices@.len(), opts, attribs, camera);
            &&& mesh.vertex_positions@.len() == mesh.vertex_normals@.len()
            &&& forall|i: int| 0 <= i < plan.len() ==> match #[trigger] plan[i] {
                GlCommand::BufferVertexData { index, stream, components, stride } => {
                    &&& components == 3
                    &&& stride == 0
                    &&& stream is Positions ==> index == attrib_index_spec(attribs.position)
                    &&& stream is Normals ==> index == attrib_index_spec(attribs.normal)
                },
                _ => true,
            }
            &&& exists|i: int| 0 <= i < plan.len() && (#[trigger] plan[i] matches GlCommand::BufferVertexData { stream: VertexStream::Positions, .. })
            &&& exists|i: int| 0 <= i < plan.len() && (#[trigger] plan[i] matches GlCommand::BufferVertexData { stream: VertexStream::Normals, .. })
        }),
{
    let plan = render_plan(mesh.vertex_position_indices@.len(), opts, attribs, camera);
    assert forall|i: int| 0 <= i < plan.len() implies match #[trigger] plan[i] {
        GlCommand::BufferVertexData { index, stream, components, stride } => {
            &&& components == 3
            &&& stride == 0
            &&& stream is Positions ==> index == attrib_index_spec(attribs.position)
            &&& stream is Normals ==> index == attrib_index_spec(attribs.normal)
        },
        _ => true,
    } by {
        assert(0 <= i < 10);
    }
    assert(plan[6] matches GlCommand::BufferVertexData { stream: VertexStream::Positions, .. });
    assert(plan[7] matches GlCommand::BufferVertexData { stream: VertexStream::Normals, .. });
}

/// Two draws from identical mesh contents, options, camera and attribute
/// locations issue identical commands, which upload identical vertex and
/// index data.
pub proof fn lemma_render_deterministic(
    m1: MeshGeometry,
    m2: MeshGeometry,
    opts: MeshRenderOpts,
    attribs: AttribLocations,
    camera: CameraMatrices,
)
    requires
        m1.vertex_positions@ == m2.vertex_positions@,
        m1.vertex_normals@ == m2.vertex_normals@,
        m1.vertex_position_indices@ == m2.vertex_position_indices@,
    ensures
        render_plan(m1.vertex_position_indices@.len(), opts, attribs, camera)
            == render_plan(m2.vertex_position_indices@.len(), opts, attribs, camera),
        forall|s: VertexStream| #[trigger] stream_contents(m1, s) == stream_contents(m2, s),
{
}

/// The model matrix that a draw uploads is the translation to the instance's
/// position.
pub proof fn lemma_model_uniform_is_translation(
    index_count: nat,
    opts: MeshRenderOpts,
    attribs: AttribLocations,
    camera: CameraMatrices,
)
    ensures
        exists|i: int| 0 <= i < render_plan(index_count, opts, attribs, camera).len()
            && #[trigger] render_plan(index_count, opts, attribs, camera)[i]
                == (GlCommand::UniformMatrix4 { uniform: UniformName::Model, columns: model_matrix_spec(opts.pos) }),
{
    assert(render_plan(index_count, opts, attribs, camera)[2]
        == (GlCommand::UniformMatrix4 { uniform: UniformName::Model, columns: model_matrix_spec(opts.pos) }));
}

} // verus!
