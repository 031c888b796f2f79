//! The compiled program of the shading and what it uploads before a draw.

use vstd::prelude::*;
use vstd::string::StringExecFns;
use core::hash::BuildHasherDefault;
use fnv::FnvHasher;
use std::collections::HashMap;
use web_sys::{WebGlProgram, WebGlUniformLocation};
use crate::attributes::{attribute_slots, empty_table, fnv_hashers, no_slots, record_slot, slot_of};
use crate::error::{ShadingError, ShadingErrorView};
use crate::matrix::{Mat4, RendererState};
use crate::names::{
    UniformSlot,
    CAMERA_INVERSE_MATRIX,
    POSITION,
    PROJECTION_MATRIX,
    WORLD_MATRIX,
};

verus! {

/// A linked GPU program with the locations that were resolved in it.
///
/// The handles belong to the graphics context; the program only refers to
/// them.
pub struct PureColorProgram {
    program: WebGlProgram,
    projection_matrix: WebGlUniformLocation,
    world_matrix: WebGlUniformLocation,
    camera_inverse_matrix: WebGlUniformLocation,
    /// The slot of each vertex attribute, by the attribute's name.
    pub attributes: HashMap<String, i32, BuildHasherDefault<FnvHasher>>,
}

/// One matrix to write into one uniform of the bound program.
#[derive(Clone, Copy, Debug)]
pub struct UniformWrite<'a> {
    /// The uniform that is written.
    pub slot: UniformSlot,
    /// Where the graphics context keeps that uniform.
    pub location: &'a WebGlUniformLocation,
    /// The matrix that is written there.
    pub matrix: Mat4,
}

/// The name that a lookup fails on first, if any: the lookups are judged in
/// the order position, projection, world, camera-inverse. An attribute is
/// absent where the context answered with a negative slot.
pub open spec fn first_missing(
    position: i32,
    projection: bool,
    world: bool,
    camera_inverse: bool,
) -> Option<Seq<char>> {
    if position < 0 {
        Some(POSITION@)
    } else if !projection {
        Some(PROJECTION_MATRIX@)
    } else if !world {
        Some(WORLD_MATRIX@)
    } else if !camera_inverse {
        Some(CAMERA_INVERSE_MATRIX@)
    } else {
        None
    }
}

/// The order in which the three uniforms are written.
pub open spec fn upload_order() -> Seq<UniformSlot> {
    seq![UniformSlot::World, UniformSlot::CameraInverse, UniformSlot::Projection]
}

impl PureColorProgram {
    /// The handle of the GPU program.
    pub closed spec fn handle(&self) -> WebGlProgram {
        self.program
    }

    /// The location that was resolved for the uniform of the given slot.
    pub closed spec fn location(&self, slot: UniformSlot) -> WebGlUniformLocation {
        match slot {
            UniformSlot::Projection => self.projection_matrix,
            UniformSlot::World => self.world_matrix,
            UniformSlot::CameraInverse => self.camera_inverse_matrix,
        }
    }

    /// The attribute table as a map from names to slots.
    pub closed spec fn slots(&self) -> Map<Seq<char>, i32> {
        attribute_slots(self.attributes)
    }

    /// The table holds the position attribute, at a slot that exists, and
    /// nothing else.
    pub open spec fn wf(&self) -> bool {
        &&& self.slots().dom() =~= set![POSITION@]
        &&& self.slots()[POSITION@] >= 0
    }

    /// Whether `writes` is what this program uploads for `renderer`: one
    /// write for each of the three uniforms, in the upload order, each to
    /// the location resolved for its uniform and with the renderer's
    /// transform for it.
    pub open spec fn is_upload(&self, renderer: RendererState, writes: Seq<UniformWrite>) -> bool {
        &&& writes.len() == 3
        &&& forall|i: int|
            0 <= i < 3 ==> {
                &&& (#[trigger] writes[i]).slot == upload_order()[i]
                &&& *writes[i].location == self.location(upload_order()[i])
                &&& writes[i].matrix == renderer.spec_transform(upload_order()[i])
            }
    }

    /// Whether `made` is what the four answers of the graphics context give.
    ///
    /// Where every lookup found its name, it is a program that holds the
    /// handle, the three locations, and a table with the position's slot
    /// alone. Else it is the error that names the first name not found.
    pub open spec fn made_from(
        made: Result<PureColorProgram, ShadingError>,
        program: WebGlProgram,
        position: i32,
        projection: Option<WebGlUniformLocation>,
        world: Option<WebGlUniformLocation>,
        camera_inverse: Option<WebGlUniformLocation>,
    ) -> bool {
        let missing = first_missing(
            position,
            projection is Some,
            world is Some,
            camera_inverse is Some,
        );
        match made {
            Ok(p) => {
                &&& missing is None
                &&& p.wf()
                &&& p.handle() == program
                &&& p.location(UniformSlot::Projection) == projection->Some_0
                &&& p.location(UniformSlot::World) == world->Some_0
                &&& p.location(UniformSlot::CameraInverse) == camera_inverse->Some_0
                &&& p.slots() == no_slots().insert(POSITION@, position)
            },
            Err(e) => missing is Some && e@ == ShadingErrorView::MissingLocation(missing->Some_0),
        }
    }

    /// Makes the program from what the graphics context answered to the
    /// four lookups in a linked program.
    ///
    /// Where every lookup found its name, the program holds the handle, the
    /// three locations, and a table with the position's slot alone. Else the
    /// error names the first name that was not found.
    pub fn from_lookups(
        program: WebGlProgram,
        position: i32,
        projection: Option<WebGlUniformLocation>,
        world: Option<WebGlUniformLocation>,
        camera_inverse: Option<WebGlUniformLocation>,
    ) -> (made: Result<PureColorProgram, ShadingError>)
        ensures
            Self::made_from(made, program, position, projection, world, camera_inverse),
    {
        if position < 0 {
            return Err(ShadingError::MissingLocation(String::from_str(POSITION)));
        }
        match (projection, world, camera_inverse) {
            (None, _, _) => Err(ShadingError::MissingLocation(String::from_str(PROJECTION_MATRIX))),
            (Some(_), None, _) => Err(ShadingError::MissingLocation(String::from_str(WORLD_MATRIX))),
            (Some(_), Some(_), None) => Err(
                ShadingError::MissingLocation(String::from_str(CAMERA_INVERSE_MATRIX)),
            ),
            (Some(projection_matrix), Some(world_matrix), Some(camera_inverse_matrix)) => {
                let mut attributes = empty_table(fnv_hashers());
                record_slot(&mut attributes, String::from_str(POSITION), position);
                Ok(
                    PureColorProgram {
                        program,
                        projection_matrix,
                        world_matrix,
                        camera_inverse_matrix,
                        attributes,
                    },
                )
            },
        }
    }

    /// The handle of the GPU program, for the caller to bind before a draw.
    pub fn get_program(&self) -> (handle: &WebGlProgram)
        ensures
            *handle == self.handle(),
    {
        &self.program
    }

    /// The location of the uniform of the given slot.
    pub fn uniform_location(&self, slot: UniformSlot) -> (location: &WebGlUniformLocation)
        ensures
            *location == self.location(slot),
    {
        match slot {
            UniformSlot::Projection => &self.projection_matrix,
            UniformSlot::World => &self.world_matrix,
            UniformSlot::CameraInverse => &self.camera_inverse_matrix,
        }
    }

    /// The table from attribute names to slots, for the caller to wire its
    /// vertex buffers by.
    pub fn get_attributes(&self) -> (table: &HashMap<String, i32, BuildHasherDefault<FnvHasher>>)
        ensures
            attribute_slots(*table) == self.slots(),
    {
        &self.attributes
    }

    /// The slot of the attribute of the given name, if the table holds it.
    pub fn attribute_slot(&self, name: &str) -> (slot: Option<i32>)
        ensures
            slot == (if self.slots().contains_key(name@) {
                Some(self.slots()[name@])
            } else {
                None
            }),
            self.wf() ==> (slot is Some <==> name@ == POSITION@),
            self.wf() && slot is Some ==> slot->Some_0 >= 0,
    {
        match slot_of(&self.attributes, name) {
            Some(slot) => Some(*slot),
            None => None,
        }
    }

    /// The writes that bring the renderer's transforms into the program's
    /// uniforms: the model transform to the world matrix, the camera's
    /// inverse to the camera-inverse matrix, the camera's projection to the
    /// projection matrix. All three are written on every call.
    ///
    /// The program must be the bound one when the writes are performed.
    pub fn upload_uniforms<'a>(&'a self, renderer: &RendererState) -> (writes: Vec<UniformWrite<'a>>)
        ensures
            self.is_upload(*renderer, writes@),
    {
        let mut writes: Vec<UniformWrite<'a>> = Vec::new();
        writes.push(
            UniformWrite {
                slot: UniformSlot::World,
                location: &self.world_matrix,
                matrix: renderer.model_transform,
            },
        );
        writes.push(
            UniformWrite {
                slot: UniformSlot::CameraInverse,
                location: &self.camera_inverse_matrix,
                matrix: renderer.camera_inverse,
            },
        );
        writes.push(
            UniformWrite {
                slot: UniformSlot::Projection,
                location: &self.projection_matrix,
                matrix: renderer.camera_projection,
            },
        );
        writes
    }
}

} // verus!
