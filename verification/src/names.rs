//! The names that the shader text and this library agree on.

use vstd::prelude::*;

verus! {

/// The one vertex attribute of the shading.
pub const POSITION: &'static str = "position";

/// The uniform that takes the camera's projection transform.
pub const PROJECTION_MATRIX: &'static str = "projection_matrix";

/// The uniform that takes the object's world (model) transform.
pub const WORLD_MATRIX: &'static str = "world_matrix";

/// The uniform that takes the inverse of the camera's transform.
pub const CAMERA_INVERSE_MATRIX: &'static str = "camera_inverse_matrix";

/// One of the three transform uniforms of the shading.
#[derive(Clone, Copy, Debug, PartialEq, Eq, Structural)]
pub enum UniformSlot {
    Projection,
    World,
    CameraInverse,
}

impl UniformSlot {
    /// The name under which the shader text declares this uniform.
    pub open spec fn spec_name(self) -> Seq<char> {
        match self {
            UniformSlot::Projection => PROJECTION_MATRIX@,
            UniformSlot::World => WORLD_MATRIX@,
            UniformSlot::CameraInverse => CAMERA_INVERSE_MATRIX@,
        }
    }

    /// The name under which the shader text declares this uniform.
    pub fn name(self) -> (text: &'static str)
        ensures
            text@ == self.spec_name(),
    {
        match self {
            UniformSlot::Projection => PROJECTION_MATRIX,
            UniformSlot::World => WORLD_MATRIX,
            UniformSlot::CameraInverse => CAMERA_INVERSE_MATRIX,
        }
    }
}

/// Whether `name` is one of the four names that a program is asked for.
pub open spec fn is_expected_name(name: Seq<char>) -> bool {
    name == POSITION@ || name == PROJECTION_MATRIX@ || name == WORLD_MATRIX@ || name
        == CAMERA_INVERSE_MATRIX@
}

/// The four expected names differ from one another, so an error that names
/// one of them names no other.
pub proof fn expected_names_differ()
    ensures
        POSITION@ != PROJECTION_MATRIX@,
        POSITION@ != WORLD_MATRIX@,
        POSITION@ != CAMERA_INVERSE_MATRIX@,
        PROJECTION_MATRIX@ != WORLD_MATRIX@,
        PROJECTION_MATRIX@ != CAMERA_INVERSE_MATRIX@,
        WORLD_MATRIX@ != CAMERA_INVERSE_MATRIX@,
{
    reveal_strlit("position");
    reveal_strlit("projection_matrix");
    reveal_strlit("world_matrix");
    reveal_strlit("camera_inverse_matrix");
    assert(POSITION@.len() == 8);
    assert(PROJECTION_MATRIX@.len() == 17);
    assert(WORLD_MATRIX@.len() == 12);
    assert(CAMERA_INVERSE_MATRIX@.len() == 21);
}

} // verus!
