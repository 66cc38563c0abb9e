//! Mesh geometry: positions, normals and triangle indices, with the
//! validity rules that the renderer relies on.
use vstd::prelude::*;

verus! {

/// The largest index count that one draw call can cover (the graphics API
/// takes the count as a signed 32-bit integer).
pub const MAX_INDEX_COUNT: usize = 2147483647;

/// Why a set of arrays does not form a valid mesh.
#[derive(Debug, Clone, Copy, PartialEq, Eq)]
pub enum MeshError {
    /// The position array does not hold whole 3-component vectors.
    PositionsNotTriples,
    /// The normal array does not have exactly one normal per position.
    NormalCountMismatch,
    /// The index array does not hold whole triangles.
    IndicesNotTriangles,
    /// More indices than one draw call can cover.
    TooManyIndices,
    /// The index at this position names a vertex that does not exist.
    IndexOutOfRange(usize),
}

/// Number of vertices described by a tightly packed array of 3-component positions.
pub open spec fn vertex_count(positions: Seq<u32>) -> nat {
    positions.len() / 3
}

/// Every index names an existing vertex.
pub open spec fn indices_in_range(indices: Seq<u16>, vertices: nat) -> bool {
    forall|i: int| 0 <= i < indices.len() ==> (#[trigger] indices[i] as nat) < vertices
}

/// Immutable triangle-mesh geometry. Floats are stored as their bit patterns.
///
/// `vertex_positions` and `vertex_normals` are index-parallel arrays of
/// 3-component vectors; every three entries of `vertex_position_indices`
/// form one triangle.
pub struct MeshGeometry {
    pub vertex_positions: Vec<u32>,
    pub vertex_normals: Vec<u32>,
    pub vertex_position_indices: Vec<u16>,
}

/// The arrays form a valid mesh.
pub open spec fn valid_arrays(positions: Seq<u32>, normals: Seq<u32>, indices: Seq<u16>) -> bool {
    &&& positions.len() % 3 == 0
    &&& normals.len() == positions.len()
    &&& indices.len() % 3 == 0
    &&& indices.len() <= MAX_INDEX_COUNT
    &&& indices_in_range(indices, vertex_count(positions))
}

impl MeshGeometry {
    /// The mesh satisfies every validity rule.
    pub open spec fn wf(&self) -> bool {
        valid_arrays(self.vertex_positions@, self.vertex_normals@, self.vertex_position_indices@)
    }

    /// Number of vertices of the mesh.
    pub open spec fn num_vertices(&self) -> nat {
        vertex_count(self.vertex_positions@)
    }

    /// Whether the mesh satisfies every validity rule.
    pub fn is_valid(&self) -> (r: bool)
        ensures
            r == self.wf(),
    {
        self.vertex_positions.len() % 3 == 0
            && self.vertex_normals.len() == self.vertex_positions.len()
            && self.vertex_position_indices.len() % 3 == 0
            && self.vertex_position_indices.len() <= MAX_INDEX_COUNT
            && first_out_of_range(&self.vertex_position_indices, self.vertex_positions.len() / 3).is_none()
    }

    /// Builds a mesh from its three arrays, checking the validity rules in
    /// order: positions, normals, index count, index limit, index range.
    pub fn new(vertex_positions: Vec<u32>, vertex_normals: Vec<u32>, vertex_position_indices: Vec<u16>) -> (r: Result<MeshGeometry, MeshError>)
        ensures
            r is Ok <==> valid_arrays(vertex_positions@, vertex_normals@, vertex_position_indices@),
            r matches Ok(m) ==> {
                &&& m.vertex_positions@ == vertex_positions@
                &&& m.vertex_normals@ == vertex_normals@
                &&& m.vertex_position_indices@ == vertex_position_indices@
                &&& m.wf()
            },
            vertex_positions@.len() % 3 != 0 ==> r == Err::<MeshGeometry, MeshError>(MeshError::PositionsNotTriples),
            vertex_positions@.len() % 3 == 0 && vertex_normals@.len() != vertex_positions@.len()
                ==> r == Err::<MeshGeometry, MeshError>(MeshError::NormalCountMismatch),
            vertex_positions@.len() % 3 == 0 && vertex_normals@.len() == vertex_positions@.len()
                && vertex_position_indices@.len() % 3 != 0
                ==> r == Err::<MeshGeometry, MeshError>(MeshError::IndicesNotTriangles),
            vertex_positions@.len() % 3 == 0 && vertex_normals@.len() == vertex_positions@.len()
                && vertex_position_indices@.len() % 3 == 0 && vertex_position_indices@.len() > MAX_INDEX_COUNT
                ==> r == Err::<MeshGeometry, MeshError>(MeshError::TooManyIndices),
            r matches Err(MeshError::IndexOutOfRange(k)) ==> {
                &&& k < vertex_position_indices@.len()
                &&& vertex_position_indices@[k as int] as nat >= vertex_count(vertex_positions@)
                &&& indices_in_range(vertex_position_indices@.take(k as int), vertex_count(vertex_positions@))
            },
    {
        if vertex_positions.len() % 3 != 0 {
            return Err(MeshError::PositionsNotTriples);
        }
        if vertex_normals.len() != vertex_positions.len() {
            return Err(MeshError::NormalCountMismatch);
        }
        if vertex_position_indices.len() % 3 != 0 {
            return Err(MeshError::IndicesNotTriangles);
        }
        if vertex_position_indices.len() > MAX_INDEX_COUNT {
            return Err(MeshError::TooManyIndices);
        }
        match first_out_of_range(&vertex_position_indices, vertex_positions.len() / 3) {
            Some(k) => Err(MeshError::IndexOutOfRange(k)),
            None => Ok(MeshGeometry { vertex_positions, vertex_normals, vertex_position_indices }),
        }
    }
}

/// Position of the first index that is not below `vertices`, if any.
pub fn first_out_of_range(indices: &Vec<u16>, vertices: usize) -> (r: Option<usize>)
    ensures
        r is None <==> indices_in_range(indices@, vertices as nat),
        r matches Some(k) ==> {
            &&& k < indices@.len()
            &&& indices@[k as int] as nat >= vertices
            &&& indices_in_range(indices@.take(k as int), vertices as nat)
        },
{
    let mut i: usize = 0;
    while i < indices.len()
        invariant
            i <= indices@.len(),
            indices_in_range(indices@.take(i as int), vertices as nat),
        decreases indices@.len() - i,
    {
        if indices[i] as usize >= vertices {
            return Some(i);
        }
        assert(indices@.take(i as int + 1) =~= indices@.take(i as int).push(indices@[i as int]));
        i = i + 1;
    }
    assert(indices@.take(i as int) =~= indices@);
    None
}

} // verus!
