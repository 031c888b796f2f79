//! Compiling two shaders and linking them into a program.

use vstd::prelude::*;
use vstd::string::StringExecFns;
use web_sys::{WebGlProgram, WebGlRenderingContext, WebGlShader};
use crate::gl;

verus! {

/// The diagnostic where the context could not make a shader object.
pub const NO_SHADER_OBJECT: &'static str = "unable to create shader object";

/// The diagnostic where the context could not make a program object.
pub const NO_PROGRAM_OBJECT: &'static str = "unable to create program object";

/// The diagnostic where a shader did not compile and the compiler said nothing.
pub const SILENT_COMPILE_FAILURE: &'static str = "unknown error compiling shader";

/// The diagnostic where a program did not link and the linker said nothing.
pub const SILENT_LINK_FAILURE: &'static str = "unknown error linking program";

/// The text that a failure carries: what the context reported, or
/// `fallback` where it reported nothing or an empty text.
pub open spec fn spec_diagnostic(log: Option<Seq<char>>, fallback: Seq<char>) -> Seq<char> {
    match log {
        Some(text) if text.len() > 0 => text,
        _ => fallback,
    }
}

/// Whether a status read from the context says that the stage succeeded:
/// only a plain `true` does.
pub open spec fn spec_stage_passed(status: Option<bool>) -> bool {
    status == Some(true)
}

/// Whether a compile or link status says that the stage succeeded.
pub fn stage_passed(status: Option<bool>) -> (passed: bool)
    ensures
        passed == spec_stage_passed(status),
{
    match status {
        Some(flag) => flag,
        None => false,
    }
}

/// The text of a failure, from what the context reported of it.
pub fn diagnostic(log: Option<String>, fallback: &str) -> (text: String)
    ensures
        text@ == spec_diagnostic(
            match log {
                Some(s) => Some(s@),
                None => None,
            },
            fallback@,
        ),
        fallback@.len() > 0 ==> text@.len() > 0,
{
    match log {
        Some(reported) => {
            if reported.as_str().is_empty() {
                String::from_str(fallback)
            } else {
                reported
            }
        },
        None => String::from_str(fallback),
    }
}

/// Makes a shader of the given kind from its text and compiles it.
///
/// The outcome is the context's to decide. Whatever it answers, a failure
/// carries a diagnostic that is not empty. Which status counts as success
/// is stated by `stage_passed`, and which text a failure carries for each
/// report of the compiler by `diagnostic`.
pub fn compile_shader(gl: &WebGlRenderingContext, kind: u32, source: &str) -> (outcome: Result<
    WebGlShader,
    String,
>)
    ensures
        outcome matches Err(text) ==> text@.len() > 0,
{
    proof {
        reveal_strlit("unable to create shader object");
        reveal_strlit("unknown error compiling shader");
    }
    match gl::create_shader(gl, kind) {
        None => Err(String::from_str(NO_SHADER_OBJECT)),
        Some(shader) => {
            gl::shader_source(gl, &shader, source);
            gl::compile_shader(gl, &shader);
            let status = gl::shader_parameter(gl, &shader, gl::COMPILE_STATUS);
            if stage_passed(gl::as_boolean(&status)) {
                Ok(shader)
            } else {
                Err(diagnostic(gl::shader_info_log(gl, &shader), SILENT_COMPILE_FAILURE))
            }
        },
    }
}

/// Links two compiled shaders into a program.
///
/// The outcome is the context's to decide. Whatever it answers, a failure
/// carries a diagnostic that is not empty. Which status counts as success
/// is stated by `stage_passed`, and which text a failure carries for each
/// report of the linker by `diagnostic`.
pub fn link_shaders(gl: &WebGlRenderingContext, vertex: &WebGlShader, fragment: &WebGlShader) -> (outcome:
    Result<WebGlProgram, String>)
    ensures
        outcome matches Err(text) ==> text@.len() > 0,
{
    proof {
        reveal_strlit("unable to create program object");
        reveal_strlit("unknown error linking program");
    }
    match gl::create_program(gl) {
        None => Err(String::from_str(NO_PROGRAM_OBJECT)),
        Some(program) => {
            gl::attach_shader(gl, &program, vertex);
            gl::attach_shader(gl, &program, fragment);
            gl::link_program(gl, &program);
            let status = gl::program_parameter(gl, &program, gl::LINK_STATUS);
            if stage_passed(gl::as_boolean(&status)) {
                Ok(program)
            } else {
                Err(diagnostic(gl::program_info_log(gl, &program), SILENT_LINK_FAILURE))
            }
        },
    }
}

/// Compiles the vertex and the fragment shader and links them.
///
/// The vertex shader is compiled first; where it fails the fragment shader
/// is not touched. The outcome is the context's to decide: it is that of
/// the first stage that fails, or the linked program. Whatever the context
/// answers, a failure carries a diagnostic that is not empty.
pub fn make_webgl_program(gl: &WebGlRenderingContext, vertex: &str, fragment: &str) -> (outcome:
    Result<WebGlProgram, String>)
    ensures
        outcome matches Err(text) ==> text@.len() > 0,
{
    match compile_shader(gl, gl::VERTEX_SHADER, vertex) {
        Err(text) => Err(text),
        Ok(vertex_shader) => match compile_shader(gl, gl::FRAGMENT_SHADER, fragment) {
            Err(text) => Err(text),
            Ok(fragment_shader) => link_shaders(gl, &vertex_shader, &fragment_shader),
        },
    }
}

} // verus!
