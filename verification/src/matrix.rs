//! Transform matrices as the library carries them.
//!
//! The library never computes with a matrix: it only decides which matrix
//! goes to which uniform. A matrix is therefore held as the sixteen bit
//! patterns of its 32-bit cells, in column-major order, which is the order
//! the graphics API takes them in.

use vstd::prelude::*;
use crate::names::UniformSlot;

verus! {

/// The bit pattern of the 32-bit number one.
pub const ONE_BITS: u32 = 0x3F80_0000;

/// A 4×4 matrix: the bit patterns of its cells, column after column.
#[derive(Clone, Copy, Debug, PartialEq, Eq)]
pub struct Mat4 {
    pub cells: [u32; 16],
}

impl View for Mat4 {
    type V = Seq<u32>;

    open spec fn view(&self) -> Seq<u32> {
        self.cells@
    }
}

/// The cells of the identity matrix: one on the diagonal, zero elsewhere.
pub open spec fn identity_cells() -> Seq<u32> {
    Seq::new(16, |i: int| if i % 5 == 0 { ONE_BITS } else { 0u32 })
}

impl Mat4 {
    /// The matrix with the given cells.
    pub fn from_bits(cells: [u32; 16]) -> (m: Mat4)
        ensures
            m@ == cells@,
    {
        Mat4 { cells }
    }

    /// The cells of the matrix.
    pub fn to_bits(&self) -> (cells: [u32; 16])
        ensures
            cells@ == self@,
    {
        self.cells
    }

    /// The identity matrix.
    pub fn identity() -> (m: Mat4)
        ensures
            m@ == identity_cells(),
    {
        let m = Mat4 {
            cells: [
                ONE_BITS, 0, 0, 0,
                0, ONE_BITS, 0, 0,
                0, 0, ONE_BITS, 0,
                0, 0, 0, ONE_BITS,
            ],
        };
        assert(m@ =~= identity_cells());
        m
    }
}

/// The renderer's transforms for the object that is drawn next.
#[derive(Clone, Copy, Debug, PartialEq, Eq)]
pub struct RendererState {
    /// From the object's own space to world space.
    pub model_transform: Mat4,
    /// From world space to the camera's space.
    pub camera_inverse: Mat4,
    /// From the camera's space to clip space.
    pub camera_projection: Mat4,
}

impl RendererState {
    /// The transform that the uniform of the given slot takes: the model
    /// transform for the world matrix, the camera's inverse for the
    /// camera-inverse matrix, the camera's projection for the projection
    /// matrix.
    pub open spec fn spec_transform(self, slot: UniformSlot) -> Mat4 {
        match slot {
            UniformSlot::World => self.model_transform,
            UniformSlot::CameraInverse => self.camera_inverse,
            UniformSlot::Projection => self.camera_projection,
        }
    }

    /// The transform that the uniform of the given slot takes.
    pub fn transform(&self, slot: UniformSlot) -> (matrix: Mat4)
        ensures
            matrix == self.spec_transform(slot),
    {
        match slot {
            UniformSlot::World => self.model_transform,
            UniformSlot::CameraInverse => self.camera_inverse,
            UniformSlot::Projection => self.camera_projection,
        }
    }
}

} // verus!
