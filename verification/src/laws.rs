//! What holds of the library as a whole.
//!
//! The uniforms of the bound program are modelled as a map from a uniform's
//! name to the cells of the matrix it holds. Performing a write puts the
//! write's matrix under the name of its slot and leaves the rest alone.

use vstd::prelude::*;
use crate::matrix::{identity_cells, RendererState};
use crate::names::{
    expected_names_differ,
    UniformSlot,
    CAMERA_INVERSE_MATRIX,
    POSITION,
    PROJECTION_MATRIX,
    WORLD_MATRIX,
};
use crate::error::ShadingError;
use crate::program::{first_missing, PureColorProgram, UniformWrite};
use web_sys::{WebGlProgram, WebGlUniformLocation};

verus! {

/// The uniforms of the bound program after the writes were performed, one
/// after the other, on `before`.
pub open spec fn uniforms_after(
    before: Map<Seq<char>, Seq<u32>>,
    writes: Seq<UniformWrite>,
) -> Map<Seq<char>, Seq<u32>>
    decreases writes.len(),
{
    if writes.len() == 0 {
        before
    } else {
        uniforms_after(before, writes.drop_last()).insert(
            writes.last().slot.spec_name(),
            writes.last().matrix@,
        )
    }
}

/// Whether `name` is the name of one of the three transform uniforms.
pub open spec fn is_uniform_name(name: Seq<char>) -> bool {
    name == PROJECTION_MATRIX@ || name == WORLD_MATRIX@ || name == CAMERA_INVERSE_MATRIX@
}

/// An upload amounts to three insertions, one under each uniform's name.
proof fn upload_unfolds(
    program: PureColorProgram,
    renderer: RendererState,
    writes: Seq<UniformWrite>,
    before: Map<Seq<char>, Seq<u32>>,
)
    requires
        program.is_upload(renderer, writes),
    ensures
        uniforms_after(before, writes) == before.insert(
            WORLD_MATRIX@,
            renderer.model_transform@,
        ).insert(CAMERA_INVERSE_MATRIX@, renderer.camera_inverse@).insert(
            PROJECTION_MATRIX@,
            renderer.camera_projection@,
        ),
{
    let two = writes.drop_last();
    let one = two.drop_last();
    let none = one.drop_last();
    assert(none.len() == 0);
    assert(two.last() == writes[1]);
    assert(one.last() == writes[0]);
    assert(writes.last() == writes[2]);
    assert(uniforms_after(before, none) == before);
    assert(uniforms_after(before, one) == before.insert(
        WORLD_MATRIX@,
        renderer.model_transform@,
    ));
    assert(uniforms_after(before, two) == uniforms_after(before, one).insert(
        CAMERA_INVERSE_MATRIX@,
        renderer.camera_inverse@,
    ));
}

/// After an upload each of the three uniforms holds the renderer's
/// transform for it, and every other uniform is as it was: three slots are
/// written and no others.
pub proof fn upload_writes_exactly_three_slots(
    program: PureColorProgram,
    renderer: RendererState,
    writes: Seq<UniformWrite>,
    before: Map<Seq<char>, Seq<u32>>,
)
    requires
        program.is_upload(renderer, writes),
    ensures
        forall|slot: UniformSlot|
            #![trigger slot.spec_name()]
            uniforms_after(before, writes).contains_key(slot.spec_name()) && uniforms_after(
                before,
                writes,
            )[slot.spec_name()] == renderer.spec_transform(slot)@,
        forall|name: Seq<char>|
            !is_uniform_name(name) ==> {
                &&& #[trigger] uniforms_after(before, writes).contains_key(name)
                    == before.contains_key(name)
                &&& before.contains_key(name) ==> uniforms_after(before, writes)[name]
                    == before[name]
            },
{
    upload_unfolds(program, renderer, writes, before);
    expected_names_differ();
}

/// Where the renderer's three transforms are the identity, an upload leaves
/// the identity in each of the three uniforms.
pub proof fn upload_of_identity(
    program: PureColorProgram,
    renderer: RendererState,
    writes: Seq<UniformWrite>,
    before: Map<Seq<char>, Seq<u32>>,
)
    requires
        program.is_upload(renderer, writes),
        renderer.model_transform@ == identity_cells(),
        renderer.camera_inverse@ == identity_cells(),
        renderer.camera_projection@ == identity_cells(),
    ensures
        uniforms_after(before, writes)[WORLD_MATRIX@] == identity_cells(),
        uniforms_after(before, writes)[CAMERA_INVERSE_MATRIX@] == identity_cells(),
        uniforms_after(before, writes)[PROJECTION_MATRIX@] == identity_cells(),
{
    upload_unfolds(program, renderer, writes, before);
    expected_names_differ();
}

/// A second upload overwrites all that the first one wrote: the uniforms
/// are then as if the first upload had never happened.
pub proof fn second_upload_overwrites_first(
    program: PureColorProgram,
    first: RendererState,
    first_writes: Seq<UniformWrite>,
    second: RendererState,
    second_writes: Seq<UniformWrite>,
    before: Map<Seq<char>, Seq<u32>>,
)
    requires
        program.is_upload(first, first_writes),
        program.is_upload(second, second_writes),
    ensures
        uniforms_after(uniforms_after(before, first_writes), second_writes) == uniforms_after(
            before,
            second_writes,
        ),
{
    let between = uniforms_after(before, first_writes);
    upload_unfolds(program, first, first_writes, before);
    upload_unfolds(program, second, second_writes, between);
    upload_unfolds(program, second, second_writes, before);
    expected_names_differ();
    assert(uniforms_after(between, second_writes) =~= uniforms_after(before, second_writes));
}

/// Making a program twice from the same answers gives the same outcome:
/// both times a program, with the same handle, locations and slots, or both
/// times the same error. Nothing but the answers goes into a program.
pub proof fn same_answers_same_outcome(
    one: Result<PureColorProgram, ShadingError>,
    other: Result<PureColorProgram, ShadingError>,
    program: WebGlProgram,
    position: i32,
    projection: Option<WebGlUniformLocation>,
    world: Option<WebGlUniformLocation>,
    camera_inverse: Option<WebGlUniformLocation>,
)
    requires
        PureColorProgram::made_from(one, program, position, projection, world, camera_inverse),
        PureColorProgram::made_from(other, program, position, projection, world, camera_inverse),
    ensures
        one is Ok <==> other is Ok,
        one is Ok ==> {
            &&& one->Ok_0.handle() == other->Ok_0.handle()
            &&& one->Ok_0.slots() == other->Ok_0.slots()
            &&& forall|slot: UniformSlot|
                #![trigger one->Ok_0.location(slot)]
                one->Ok_0.location(slot) == other->Ok_0.location(slot)
        },
        one is Err ==> one->Err_0@ == other->Err_0@,
{
}

/// Where all four names are found no name is missing, and conversely.
pub proof fn nothing_missing_when_all_found(
    position: i32,
    projection: bool,
    world: bool,
    camera_inverse: bool,
)
    ensures
        first_missing(position, projection, world, camera_inverse) is None <==> (position >= 0
            && projection && world && camera_inverse),
{
}

/// Where exactly one of the four names is not found, it is the name that is
/// reported missing.
pub proof fn the_one_missing_name_is_reported(
    position: i32,
    projection: bool,
    world: bool,
    camera_inverse: bool,
)
    ensures
        position < 0 && projection && world && camera_inverse ==> first_missing(
            position,
            projection,
            world,
            camera_inverse,
        ) == Some(POSITION@),
        position >= 0 && !projection && world && camera_inverse ==> first_missing(
            position,
            projection,
            world,
            camera_inverse,
        ) == Some(PROJECTION_MATRIX@),
        position >= 0 && projection && !world && camera_inverse ==> first_missing(
            position,
            projection,
            world,
            camera_inverse,
        ) == Some(WORLD_MATRIX@),
        position >= 0 && projection && world && !camera_inverse ==> first_missing(
            position,
            projection,
            world,
            camera_inverse,
        ) == Some(CAMERA_INVERSE_MATRIX@),
{
}

} // verus!
