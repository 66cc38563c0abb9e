//! Per-draw transforms: the options of one mesh instance, the camera's
//! matrices for the current frame, and the model matrix built from the
//! instance's position.
//!
//! Every float is held as its IEEE-754 single-precision bit pattern, and every
//! 4x4 matrix as sixteen such values in column-major order, the layout in
//! which the graphics API takes it.
use vstd::prelude::*;

verus! {

/// Bit pattern of the single-precision float `0.0`.
pub const F32_ZERO_BITS: u32 = 0x0000_0000;

/// Bit pattern of the single-precision float `1.0`.
pub const F32_ONE_BITS: u32 = 0x3f80_0000;

/// Options of one mesh instance, copied per draw.
#[derive(Debug, Clone, Copy, PartialEq, Eq)]
pub struct MeshRenderOpts {
    /// World-space translation `(x, y, z)`, as float bit patterns.
    pub pos: (u32, u32, u32),
    /// Clip-plane coefficients `(a, b, c, d)` of `ax + by + cz + d = 0`, in
    /// world space, as float bit patterns.
    pub clip_plane: [u32; 4],
}

/// The camera's matrices for the current frame, column-major float bit patterns.
#[derive(Debug, Clone, Copy, PartialEq, Eq)]
pub struct CameraMatrices {
    /// World to camera space.
    pub view: [u32; 16],
    /// Camera to clip space.
    pub projection: [u32; 16],
}

/// The model matrix of an instance at `pos`: a translation by `pos` with an
/// identity rotation and no scale, column-major.
pub open spec fn model_matrix_spec(pos: (u32, u32, u32)) -> [u32; 16] {
    [
        F32_ONE_BITS, F32_ZERO_BITS, F32_ZERO_BITS, F32_ZERO_BITS,
        F32_ZERO_BITS, F32_ONE_BITS, F32_ZERO_BITS, F32_ZERO_BITS,
        F32_ZERO_BITS, F32_ZERO_BITS, F32_ONE_BITS, F32_ZERO_BITS,
        pos.0, pos.1, pos.2, F32_ONE_BITS,
    ]
}

/// Entry at `row`, `col` of a column-major 4x4 matrix.
pub open spec fn entry(m: [u32; 16], row: int, col: int) -> u32 {
    m@[col * 4 + row]
}

/// Builds the model matrix of an instance at `pos`.
pub fn model_matrix(pos: (u32, u32, u32)) -> (r: [u32; 16])
    ensures
        r == model_matrix_spec(pos),
{
    [
        F32_ONE_BITS, F32_ZERO_BITS, F32_ZERO_BITS, F32_ZERO_BITS,
        F32_ZERO_BITS, F32_ONE_BITS, F32_ZERO_BITS, F32_ZERO_BITS,
        F32_ZERO_BITS, F32_ZERO_BITS, F32_ONE_BITS, F32_ZERO_BITS,
        pos.0, pos.1, pos.2, F32_ONE_BITS,
    ]
}

/// The model matrix's translation column is `(x, y, z, 1)` and its upper-left
/// 3x3 block is the identity.
pub proof fn lemma_model_matrix_is_translation(pos: (u32, u32, u32))
    ensures
        entry(model_matrix_spec(pos), 0, 3) == pos.0,
        entry(model_matrix_spec(pos), 1, 3) == pos.1,
        entry(model_matrix_spec(pos), 2, 3) == pos.2,
        entry(model_matrix_spec(pos), 3, 3) == F32_ONE_BITS,
        forall|row: int, col: int| 0 <= row < 3 && 0 <= col < 3 ==>
            #[trigger] entry(model_matrix_spec(pos), row, col)
                == if row == col { F32_ONE_BITS } else { F32_ZERO_BITS },
{
    let m = model_matrix_spec(pos);
    assert forall|row: int, col: int| 0 <= row < 3 && 0 <= col < 3 implies
        #[trigger] entry(m, row, col) == if row == col { F32_ONE_BITS } else { F32_ZERO_BITS } by {
        assert(0 <= row < 3 && 0 <= col < 3);
        if col == 0 {
            assert(entry(m, row, col) == m@[row]);
        } else if col == 1 {
            assert(entry(m, row, col) == m@[4 + row]);
        } else {
            assert(entry(m, row, col) == m@[8 + row]);
        }
    }
}

} // verus!
