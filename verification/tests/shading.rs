use std::collections::HashMap;

use wasm_bindgen::convert::IntoWasmAbi;
use wasm_bindgen::{JsCast, JsValue};
use wasm_scene::error::{LINK_FAILURE_PREFIX, MISSING_LOCATION_PREFIX};
use wasm_scene::gl::{COMPILE_STATUS, FRAGMENT_SHADER, LINK_STATUS, VERTEX_SHADER};
use wasm_scene::linking::{
    diagnostic, stage_passed, NO_PROGRAM_OBJECT, NO_SHADER_OBJECT, SILENT_COMPILE_FAILURE,
    SILENT_LINK_FAILURE,
};
use wasm_scene::matrix::ONE_BITS;
use wasm_scene::names::{CAMERA_INVERSE_MATRIX, POSITION, PROJECTION_MATRIX, WORLD_MATRIX};
use wasm_scene::{
    Mat4, PureColorProgram, PureColorShading, RendererState, ShadingError, UniformSlot,
};
use web_sys::{WebGlProgram, WebGlRenderingContext, WebGlUniformLocation};

// Handles that stand for the context's own: each wraps one of the values
// that need no JavaScript engine, and is told from the others by its index.

fn program_handle() -> WebGlProgram {
    JsValue::NULL.unchecked_into()
}

fn projection_handle() -> WebGlUniformLocation {
    JsValue::TRUE.unchecked_into()
}

fn world_handle() -> WebGlUniformLocation {
    JsValue::FALSE.unchecked_into()
}

fn camera_inverse_handle() -> WebGlUniformLocation {
    JsValue::UNDEFINED.unchecked_into()
}

fn index_of(value: &JsValue) -> u32 {
    value.into_abi()
}

fn complete_program(position: i32) -> PureColorProgram {
    PureColorProgram::from_lookups(
        program_handle(),
        position,
        Some(projection_handle()),
        Some(world_handle()),
        Some(camera_inverse_handle()),
    )
    .unwrap()
}

fn missing(name: &str) -> ShadingError {
    ShadingError::MissingLocation(name.to_string())
}

fn numbered(start: u32) -> Mat4 {
    let mut cells = [0u32; 16];
    for (i, cell) in cells.iter_mut().enumerate() {
        *cell = start + i as u32;
    }
    Mat4::from_bits(cells)
}

fn perform(uniforms: &mut HashMap<String, [u32; 16]>, program: &PureColorProgram, state: &RendererState) -> usize {
    let writes = program.upload_uniforms(state);
    for write in writes.iter() {
        uniforms.insert(write.slot.name().to_string(), write.matrix.to_bits());
    }
    writes.len()
}

#[test]
fn all_four_names_found_gives_a_program() {
    let made = PureColorProgram::from_lookups(
        program_handle(),
        0,
        Some(projection_handle()),
        Some(world_handle()),
        Some(camera_inverse_handle()),
    );
    assert!(made.is_ok());
    let program = made.unwrap();
    assert_eq!(program.attribute_slot("position"), Some(0));
    assert_eq!(program.get_attributes().len(), 1);
    assert_eq!(program.get_attributes().get("position"), Some(&0));
}

#[test]
fn program_keeps_the_handles_it_was_given() {
    let program = complete_program(2);
    assert_eq!(index_of(program.get_program().as_ref()), index_of(&JsValue::NULL));
    assert_eq!(
        index_of(program.uniform_location(UniformSlot::Projection).as_ref()),
        index_of(&JsValue::TRUE)
    );
    assert_eq!(
        index_of(program.uniform_location(UniformSlot::World).as_ref()),
        index_of(&JsValue::FALSE)
    );
    assert_eq!(
        index_of(program.uniform_location(UniformSlot::CameraInverse).as_ref()),
        index_of(&JsValue::UNDEFINED)
    );
}

#[test]
fn attribute_table_holds_the_slot_under_position_only() {
    let program = complete_program(7);
    assert_eq!(program.attribute_slot(POSITION), Some(7));
    assert_eq!(program.attribute_slot("normal"), None);
    assert_eq!(program.attribute_slot("world_matrix"), None);
    assert_eq!(program.attribute_slot(""), None);
    assert_eq!(program.attributes.get("position"), Some(&7));
    let names: Vec<&String> = program.get_attributes().keys().collect();
    assert_eq!(names, vec!["position"]);
}

#[test]
fn largest_slot_is_recorded_as_it_is() {
    let program = complete_program(i32::MAX);
    assert_eq!(program.attribute_slot("position"), Some(i32::MAX));
}

#[test]
fn missing_position_is_named() {
    let made = PureColorProgram::from_lookups(
        program_handle(),
        -1,
        Some(projection_handle()),
        Some(world_handle()),
        Some(camera_inverse_handle()),
    );
    assert_eq!(made.err(), Some(missing("position")));
}

#[test]
fn any_negative_slot_counts_as_missing() {
    let made = PureColorProgram::from_lookups(
        program_handle(),
        i32::MIN,
        Some(projection_handle()),
        Some(world_handle()),
        Some(camera_inverse_handle()),
    );
    assert_eq!(made.err(), Some(missing("position")));
}

#[test]
fn missing_projection_matrix_is_named() {
    let made = PureColorProgram::from_lookups(
        program_handle(),
        0,
        None,
        Some(world_handle()),
        Some(camera_inverse_handle()),
    );
    assert_eq!(made.err(), Some(missing("projection_matrix")));
}

#[test]
fn missing_world_matrix_is_named() {
    let made = PureColorProgram::from_lookups(
        program_handle(),
        0,
        Some(projection_handle()),
        None,
        Some(camera_inverse_handle()),
    );
    assert_eq!(made.err(), Some(missing("world_matrix")));
}

#[test]
fn missing_camera_inverse_matrix_is_named() {
    let made = PureColorProgram::from_lookups(
        program_handle(),
        0,
        Some(projection_handle()),
        Some(world_handle()),
        None,
    );
    assert_eq!(made.err(), Some(missing("camera_inverse_matrix")));
}

#[test]
fn first_missing_name_wins() {
    let all = PureColorProgram::from_lookups(program_handle(), -1, None, None, None);
    assert_eq!(all.err(), Some(missing("position")));
    let uniforms = PureColorProgram::from_lookups(program_handle(), 4, None, None, None);
    assert_eq!(uniforms.err(), Some(missing("projection_matrix")));
    let last_two =
        PureColorProgram::from_lookups(program_handle(), 4, Some(projection_handle()), None, None);
    assert_eq!(last_two.err(), Some(missing("world_matrix")));
}

#[test]
fn error_texts() {
    let link = ShadingError::LinkFailure("ERROR: 0:3: syntax error".to_string());
    assert!(link.is_link_failure());
    assert_eq!(link.detail(), "ERROR: 0:3: syntax error");
    assert_eq!(link.message(), "link failure: ERROR: 0:3: syntax error");
    let gone = missing("world_matrix");
    assert!(!gone.is_link_failure());
    assert_eq!(gone.detail(), "world_matrix");
    assert_eq!(gone.message(), "missing location: world_matrix");
    assert_eq!(LINK_FAILURE_PREFIX, "link failure: ");
    assert_eq!(MISSING_LOCATION_PREFIX, "missing location: ");
}

#[test]
fn diagnostic_is_the_report_or_the_fallback() {
    assert_eq!(
        diagnostic(Some("ERROR: 0:1: 'x' : undeclared identifier".to_string()), "fallback"),
        "ERROR: 0:1: 'x' : undeclared identifier"
    );
    assert_eq!(diagnostic(Some(String::new()), "fallback"), "fallback");
    assert_eq!(diagnostic(None, "fallback"), "fallback");
    assert_eq!(diagnostic(Some(" ".to_string()), "fallback"), " ");
}

#[test]
fn fallback_diagnostics_are_not_empty() {
    for text in [NO_SHADER_OBJECT, NO_PROGRAM_OBJECT, SILENT_COMPILE_FAILURE, SILENT_LINK_FAILURE] {
        assert!(!text.is_empty());
        assert!(!diagnostic(None, text).is_empty());
        assert!(!diagnostic(Some(String::new()), text).is_empty());
    }
}

#[test]
fn only_a_plain_true_passes_a_stage() {
    assert!(stage_passed(Some(true)));
    assert!(!stage_passed(Some(false)));
    assert!(!stage_passed(None));
}

#[test]
fn context_constants_are_those_of_the_bindings() {
    assert_eq!(VERTEX_SHADER, WebGlRenderingContext::VERTEX_SHADER);
    assert_eq!(FRAGMENT_SHADER, WebGlRenderingContext::FRAGMENT_SHADER);
    assert_eq!(COMPILE_STATUS, WebGlRenderingContext::COMPILE_STATUS);
    assert_eq!(LINK_STATUS, WebGlRenderingContext::LINK_STATUS);
}

#[test]
fn expected_names() {
    assert_eq!(POSITION, "position");
    assert_eq!(PROJECTION_MATRIX, "projection_matrix");
    assert_eq!(WORLD_MATRIX, "world_matrix");
    assert_eq!(CAMERA_INVERSE_MATRIX, "camera_inverse_matrix");
    assert_eq!(UniformSlot::Projection.name(), "projection_matrix");
    assert_eq!(UniformSlot::World.name(), "world_matrix");
    assert_eq!(UniformSlot::CameraInverse.name(), "camera_inverse_matrix");
}

#[test]
fn identity_matrix_cells() {
    let one = 1.0f32.to_bits();
    assert_eq!(ONE_BITS, one);
    assert_eq!(
        Mat4::identity().to_bits(),
        [one, 0, 0, 0, 0, one, 0, 0, 0, 0, one, 0, 0, 0, 0, one]
    );
    let floats: Vec<f32> = Mat4::identity().to_bits().iter().map(|b| f32::from_bits(*b)).collect();
    assert_eq!(
        floats,
        vec![1.0, 0.0, 0.0, 0.0, 0.0, 1.0, 0.0, 0.0, 0.0, 0.0, 1.0, 0.0, 0.0, 0.0, 0.0, 1.0]
    );
}

#[test]
fn matrix_keeps_its_cells() {
    let cells = [1u32, 2, 3, 4, 5, 6, 7, 8, 9, 10, 11, 12, 13, 14, 15, u32::MAX];
    assert_eq!(Mat4::from_bits(cells).to_bits(), cells);
    assert_eq!(Mat4::from_bits(cells), Mat4 { cells });
}

#[test]
fn renderer_state_gives_each_slot_its_transform() {
    let state = RendererState {
        model_transform: numbered(100),
        camera_inverse: numbered(200),
        camera_projection: numbered(300),
    };
    assert_eq!(state.transform(UniformSlot::World), numbered(100));
    assert_eq!(state.transform(UniformSlot::CameraInverse), numbered(200));
    assert_eq!(state.transform(UniformSlot::Projection), numbered(300));
}

#[test]
fn upload_of_identity_writes_three_slots_and_no_others() {
    let program = complete_program(0);
    let state = RendererState {
        model_transform: Mat4::identity(),
        camera_inverse: Mat4::identity(),
        camera_projection: Mat4::identity(),
    };
    let writes = program.upload_uniforms(&state);
    assert_eq!(writes.len(), 3);
    let slots: Vec<UniformSlot> = writes.iter().map(|w| w.slot).collect();
    assert_eq!(
        slots,
        vec![UniformSlot::World, UniformSlot::CameraInverse, UniformSlot::Projection]
    );
    for write in writes.iter() {
        assert_eq!(write.matrix, Mat4::identity());
    }

    let mut uniforms: HashMap<String, [u32; 16]> = HashMap::new();
    uniforms.insert("color".to_string(), [9; 16]);
    assert_eq!(perform(&mut uniforms, &program, &state), 3);
    assert_eq!(uniforms.len(), 4);
    assert_eq!(uniforms["world_matrix"], Mat4::identity().to_bits());
    assert_eq!(uniforms["camera_inverse_matrix"], Mat4::identity().to_bits());
    assert_eq!(uniforms["projection_matrix"], Mat4::identity().to_bits());
    assert_eq!(uniforms["color"], [9; 16]);
}

#[test]
fn upload_sends_each_transform_to_its_own_location() {
    let program = complete_program(0);
    let state = RendererState {
        model_transform: numbered(100),
        camera_inverse: numbered(200),
        camera_projection: numbered(300),
    };
    let writes = program.upload_uniforms(&state);
    assert_eq!(writes.len(), 3);
    assert_eq!(writes[0].slot, UniformSlot::World);
    assert_eq!(writes[0].matrix, numbered(100));
    assert_eq!(index_of(writes[0].location.as_ref()), index_of(&JsValue::FALSE));
    assert_eq!(writes[1].slot, UniformSlot::CameraInverse);
    assert_eq!(writes[1].matrix, numbered(200));
    assert_eq!(index_of(writes[1].location.as_ref()), index_of(&JsValue::UNDEFINED));
    assert_eq!(writes[2].slot, UniformSlot::Projection);
    assert_eq!(writes[2].matrix, numbered(300));
    assert_eq!(index_of(writes[2].location.as_ref()), index_of(&JsValue::TRUE));
}

#[test]
fn second_upload_overwrites_all_three_slots() {
    let program = complete_program(0);
    let first = RendererState {
        model_transform: numbered(100),
        camera_inverse: numbered(200),
        camera_projection: numbered(300),
    };
    let second = RendererState {
        model_transform: numbered(1000),
        camera_inverse: numbered(2000),
        camera_projection: numbered(3000),
    };
    let mut uniforms: HashMap<String, [u32; 16]> = HashMap::new();
    perform(&mut uniforms, &program, &first);
    assert_eq!(uniforms["world_matrix"], numbered(100).to_bits());
    perform(&mut uniforms, &program, &second);
    assert_eq!(uniforms.len(), 3);
    assert_eq!(uniforms["world_matrix"], numbered(1000).to_bits());
    assert_eq!(uniforms["camera_inverse_matrix"], numbered(2000).to_bits());
    assert_eq!(uniforms["projection_matrix"], numbered(3000).to_bits());

    let mut fresh: HashMap<String, [u32; 16]> = HashMap::new();
    perform(&mut fresh, &program, &second);
    assert_eq!(uniforms, fresh);
}

#[test]
fn unchanged_state_is_still_written_in_full() {
    let program = complete_program(0);
    let state = RendererState {
        model_transform: numbered(1),
        camera_inverse: numbered(1),
        camera_projection: numbered(1),
    };
    assert_eq!(program.upload_uniforms(&state).len(), 3);
    assert_eq!(program.upload_uniforms(&state).len(), 3);
}

#[test]
fn two_programs_share_no_table() {
    let mut first = complete_program(1);
    let second = complete_program(5);
    first.attributes.insert("color".to_string(), 9);
    first.attributes.insert("position".to_string(), 3);
    assert_eq!(first.attribute_slot("position"), Some(3));
    assert_eq!(first.attribute_slot("color"), Some(9));
    assert_eq!(second.attribute_slot("position"), Some(5));
    assert_eq!(second.attribute_slot("color"), None);
    assert_eq!(second.get_attributes().len(), 1);
}

#[test]
fn shading_gives_back_what_it_was_made_with() {
    let vertex = "attribute vec3 position; void main() { gl_Position = vec4(position, 1.0); }";
    let fragment = "void main() { gl_FragColor = vec4(1.0); }";
    let shading = PureColorShading::new(3, vertex.to_string(), fragment.to_string());
    assert_eq!(shading.get_index(), 3);
    assert_eq!(shading.get_vertex_str(), vertex);
    assert_eq!(shading.get_fragment_str(), fragment);
    let again = shading.clone();
    assert_eq!(again, shading);
    assert_eq!(shading.get_index(), 3);
}

#[test]
fn shading_edge_values() {
    let shading = PureColorShading::new(usize::MAX, String::new(), String::new());
    assert_eq!(shading.get_index(), usize::MAX);
    assert_eq!(shading.get_vertex_str(), "");
    assert_eq!(shading.get_fragment_str(), "");
    let zero = PureColorShading::new(0, "v".to_string(), "f".to_string());
    assert_eq!(zero.get_index(), 0);
    assert_eq!(zero.get_vertex_str(), "v");
    assert_eq!(zero.get_fragment_str(), "f");
}

#[test]
fn same_answers_give_the_same_outcome_twice() {
    let one = complete_program(6);
    let other = complete_program(6);
    assert_eq!(one.get_attributes(), other.get_attributes());
    assert_eq!(
        index_of(one.get_program().as_ref()),
        index_of(other.get_program().as_ref())
    );
    for slot in [UniformSlot::Projection, UniformSlot::World, UniformSlot::CameraInverse] {
        assert_eq!(
            index_of(one.uniform_location(slot).as_ref()),
            index_of(other.uniform_location(slot).as_ref())
        );
    }
    let failed = PureColorProgram::from_lookups(program_handle(), 6, None, None, None);
    let again = PureColorProgram::from_lookups(program_handle(), 6, None, None, None);
    assert_eq!(failed.err(), again.err());
}
