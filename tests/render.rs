use mesh_render::command::{
    attrib_index, AttribLocations, AttribName, GlCommand, UniformName, VertexStream,
};
use mesh_render::geometry::{first_out_of_range, MeshError, MeshGeometry};
use mesh_render::render::RenderableMesh;
use mesh_render::transform::{model_matrix, CameraMatrices, MeshRenderOpts, F32_ONE_BITS, F32_ZERO_BITS};

fn bits(v: &[f32]) -> Vec<u32> {
    v.iter().map(|f| f.to_bits()).collect()
}

fn identity() -> [u32; 16] {
    let mut m = [0u32; 16];
    for i in 0..4 {
        m[i * 4 + i] = 1.0f32.to_bits();
    }
    m
}

fn triangle_mesh() -> MeshGeometry {
    MeshGeometry::new(
        bits(&[0.0, 0.0, 0.0, 1.0, 0.0, 0.0, 0.0, 1.0, 0.0]),
        bits(&[0.0, 0.0, 1.0, 0.0, 0.0, 1.0, 0.0, 0.0, 1.0]),
        vec![0, 1, 2],
    )
    .unwrap()
}

fn camera() -> CameraMatrices {
    CameraMatrices { view: identity(), projection: identity() }
}

fn expected_model(x: f32, y: f32, z: f32) -> [u32; 16] {
    let mut m = identity();
    m[12] = x.to_bits();
    m[13] = y.to_bits();
    m[14] = z.to_bits();
    m
}

#[test]
fn float_bit_constants() {
    assert_eq!(F32_ZERO_BITS, 0.0f32.to_bits());
    assert_eq!(F32_ONE_BITS, 1.0f32.to_bits());
}

#[test]
fn model_matrix_is_translation() {
    let m = model_matrix((2.0f32.to_bits(), (-3.5f32).to_bits(), 0.25f32.to_bits()));
    assert_eq!(m, expected_model(2.0, -3.5, 0.25));
    assert_eq!(m[12], 2.0f32.to_bits());
    assert_eq!(m[13], (-3.5f32).to_bits());
    assert_eq!(m[14], 0.25f32.to_bits());
    assert_eq!(m[15], 1.0f32.to_bits());
}

#[test]
fn single_triangle_draw() {
    let mesh = triangle_mesh();
    let opts = MeshRenderOpts { pos: (2.0f32.to_bits(), 0.0f32.to_bits(), 0.0f32.to_bits()), clip_plane: [0; 4] };
    let renderable = RenderableMesh { mesh: &mesh, opts: &opts };
    let cmds = renderable.render(AttribLocations { position: 0, normal: 1 }, &camera());
    let expected = vec![
        GlCommand::EnableVertexAttribArray { index: 0 },
        GlCommand::EnableVertexAttribArray { index: 1 },
        GlCommand::UniformMatrix4 { uniform: UniformName::Model, columns: expected_model(2.0, 0.0, 0.0) },
        GlCommand::UniformMatrix4 { uniform: UniformName::View, columns: identity() },
        GlCommand::UniformMatrix4 { uniform: UniformName::Perspective, columns: identity() },
        GlCommand::Uniform4 { uniform: UniformName::ClipPlane, values: [0; 4] },
        GlCommand::BufferVertexData { index: 0, stream: VertexStream::Positions, components: 3, stride: 0 },
        GlCommand::BufferVertexData { index: 1, stream: VertexStream::Normals, components: 3, stride: 0 },
        GlCommand::BufferIndices,
        GlCommand::DrawTriangles { count: 3 },
    ];
    assert_eq!(cmds, expected);
    let draws: Vec<&GlCommand> = cmds.iter().filter(|c| matches!(c, GlCommand::DrawTriangles { .. })).collect();
    assert_eq!(draws.len(), 1);
    assert_eq!(renderable.index_data().len() / 3, 1);
}

#[test]
fn empty_index_list_still_draws() {
    let empty = MeshGeometry::new(bits(&[0.0, 0.0, 0.0]), bits(&[0.0, 0.0, 1.0]), vec![]).unwrap();
    let full = triangle_mesh();
    let opts = MeshRenderOpts { pos: (1.0f32.to_bits(), 2.0f32.to_bits(), 3.0f32.to_bits()), clip_plane: bits(&[0.0, 1.0, 0.0, -4.0]).try_into().unwrap() };
    let attribs = AttribLocations { position: 3, normal: 5 };
    let a = RenderableMesh { mesh: &empty, opts: &opts }.render(attribs, &camera());
    let b = RenderableMesh { mesh: &full, opts: &opts }.render(attribs, &camera());
    assert_eq!(a.len(), 10);
    assert_eq!(a[9], GlCommand::DrawTriangles { count: 0 });
    assert_eq!(a[..9], b[..9]);
}

#[test]
fn render_twice_is_identical() {
    let mesh = triangle_mesh();
    let opts = MeshRenderOpts { pos: (0.5f32.to_bits(), 0, 7.0f32.to_bits()), clip_plane: [1, 2, 3, 4] };
    let r = RenderableMesh { mesh: &mesh, opts: &opts };
    let cam = CameraMatrices { view: identity(), projection: expected_model(9.0, 8.0, 7.0) };
    let attribs = AttribLocations { position: 2, normal: 0 };
    assert_eq!(r.render(attribs, &cam), r.render(attribs, &cam));
    assert_eq!(r.stream_data(VertexStream::Positions), r.stream_data(VertexStream::Positions));
}

#[test]
fn uploads_precede_draw() {
    let mesh = triangle_mesh();
    let opts = MeshRenderOpts { pos: (0, 0, 0), clip_plane: [0; 4] };
    let cmds = RenderableMesh { mesh: &mesh, opts: &opts }.render(AttribLocations { position: 0, normal: 1 }, &camera());
    let last_enable = cmds.iter().rposition(|c| matches!(c, GlCommand::EnableVertexAttribArray { .. })).unwrap();
    let first_uniform = cmds
        .iter()
        .position(|c| matches!(c, GlCommand::UniformMatrix4 { .. } | GlCommand::Uniform4 { .. }))
        .unwrap();
    assert!(last_enable < first_uniform);
    assert!(matches!(cmds.last(), Some(GlCommand::DrawTriangles { count: 3 })));
    for u in [UniformName::Model, UniformName::View, UniformName::Perspective, UniformName::ClipPlane] {
        assert!(cmds.iter().any(|c| matches!(c,
            GlCommand::UniformMatrix4 { uniform, .. } | GlCommand::Uniform4 { uniform, .. } if *uniform == u)));
    }
}

#[test]
fn streams_are_tight_and_parallel() {
    let mesh = triangle_mesh();
    let opts = MeshRenderOpts { pos: (0, 0, 0), clip_plane: [0; 4] };
    let r = RenderableMesh { mesh: &mesh, opts: &opts };
    let positions = r.stream_data(VertexStream::Positions);
    let normals = r.stream_data(VertexStream::Normals);
    assert_eq!(positions.len(), normals.len());
    assert_eq!(positions, &bits(&[0.0, 0.0, 0.0, 1.0, 0.0, 0.0, 0.0, 1.0, 0.0])[..]);
    assert_eq!(normals, &bits(&[0.0, 0.0, 1.0, 0.0, 0.0, 1.0, 0.0, 0.0, 1.0])[..]);
    assert_eq!(r.index_data(), &[0u16, 1, 2][..]);
    for c in r.render(AttribLocations { position: 4, normal: 6 }, &camera()) {
        if let GlCommand::BufferVertexData { index, stream, components, stride } = c {
            assert_eq!((components, stride), (3, 0));
            match stream {
                VertexStream::Positions => assert_eq!(index, 4),
                VertexStream::Normals => assert_eq!(index, 6),
            }
        }
    }
}

#[test]
fn missing_attribute_location_wraps() {
    assert_eq!(attrib_index(-1), u32::MAX);
    assert_eq!(attrib_index(-2), u32::MAX - 1);
    assert_eq!(attrib_index(7), 7);
    assert_eq!(attrib_index(i32::MIN), 0x8000_0000);
    let mesh = triangle_mesh();
    let opts = MeshRenderOpts { pos: (0, 0, 0), clip_plane: [0; 4] };
    let cmds = RenderableMesh { mesh: &mesh, opts: &opts }.render(AttribLocations { position: -1, normal: 2 }, &camera());
    assert_eq!(cmds[0], GlCommand::EnableVertexAttribArray { index: u32::MAX });
    assert_eq!(cmds[9], GlCommand::DrawTriangles { count: 3 });
}

#[test]
fn shader_names() {
    assert_eq!(AttribName::Position.as_str(), "position");
    assert_eq!(AttribName::Normal.as_str(), "normal");
    assert_eq!(UniformName::Model.as_str(), "model");
    assert_eq!(UniformName::View.as_str(), "view");
    assert_eq!(UniformName::Perspective.as_str(), "perspective");
    assert_eq!(UniformName::ClipPlane.as_str(), "clipPlane");
}

#[test]
fn mesh_validation_errors() {
    let p = bits(&[0.0; 6]);
    assert_eq!(MeshGeometry::new(vec![0; 4], vec![0; 4], vec![]).err(), Some(MeshError::PositionsNotTriples));
    assert_eq!(MeshGeometry::new(p.clone(), vec![0; 3], vec![]).err(), Some(MeshError::NormalCountMismatch));
    assert_eq!(MeshGeometry::new(p.clone(), p.clone(), vec![0, 1]).err(), Some(MeshError::IndicesNotTriangles));
    assert_eq!(MeshGeometry::new(p.clone(), p.clone(), vec![0, 1, 2]).err(), Some(MeshError::IndexOutOfRange(2)));
    assert_eq!(MeshGeometry::new(p.clone(), p.clone(), vec![0, 1, 1, 0, 5, 9]).err(), Some(MeshError::IndexOutOfRange(4)));
    let ok = MeshGeometry::new(p.clone(), p.clone(), vec![0, 1, 1]).unwrap();
    assert_eq!(ok.vertex_position_indices, vec![0, 1, 1]);
    assert_eq!(ok.vertex_positions, p);
}

#[test]
fn first_out_of_range_finds_first() {
    assert_eq!(first_out_of_range(&vec![], 0), None);
    assert_eq!(first_out_of_range(&vec![0, 1, 2], 3), None);
    assert_eq!(first_out_of_range(&vec![0, 3, 4], 3), Some(1));
    assert_eq!(first_out_of_range(&vec![0], 0), Some(0));
}

#[test]
fn validity_check_matches_rules() {
    let mut mesh = triangle_mesh();
    assert!(mesh.is_valid());
    mesh.vertex_position_indices = vec![0, 1, 3];
    assert!(!mesh.is_valid());
    mesh.vertex_position_indices = vec![];
    assert!(mesh.is_valid());
    mesh.vertex_normals.pop();
    assert!(!mesh.is_valid());
}
