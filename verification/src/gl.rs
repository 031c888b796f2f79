//! The calls into the graphics context.
//!
//! Every function here hands one call to `web_sys` and is believed, not
//! proved. What a call returns depends on the context and on the GPU driver
//! behind it, so none of them promises anything about its result: the code
//! that calls them is verified for every answer the context can give.
//!
//! The bindings reach a JavaScript engine on the wasm32 target only. On any
//! other target each of these calls panics, so a program is only ever made
//! in a browser.

use vstd::prelude::*;
use wasm_bindgen::JsValue;
use web_sys::{WebGlProgram, WebGlRenderingContext, WebGlShader, WebGlUniformLocation};

verus! {

/// `web_sys::WebGlRenderingContext`: a live WebGL context. Opaque here.
#[verifier::external_type_specification]
#[verifier::external_body]
pub struct ExWebGlRenderingContext(web_sys::WebGlRenderingContext);

/// `web_sys::WebGlProgram`: the context's handle of a GPU program. Opaque here.
#[verifier::external_type_specification]
#[verifier::external_body]
pub struct ExWebGlProgram(web_sys::WebGlProgram);

/// `web_sys::WebGlShader`: the context's handle of one shader. Opaque here.
#[verifier::external_type_specification]
#[verifier::external_body]
pub struct ExWebGlShader(web_sys::WebGlShader);

/// `web_sys::WebGlUniformLocation`: the context's handle of a uniform of a
/// linked program. Opaque here.
#[verifier::external_type_specification]
#[verifier::external_body]
pub struct ExWebGlUniformLocation(web_sys::WebGlUniformLocation);

/// `wasm_bindgen::JsValue`: any value of the JavaScript side. Opaque here.
#[verifier::external_type_specification]
#[verifier::external_body]
pub struct ExJsValue(wasm_bindgen::JsValue);

/// The kind of a vertex shader, as `createShader` takes it.
pub const VERTEX_SHADER: u32 = 0x8B31;

/// The kind of a fragment shader, as `createShader` takes it.
pub const FRAGMENT_SHADER: u32 = 0x8B30;

/// The parameter of a shader that says whether it compiled.
pub const COMPILE_STATUS: u32 = 0x8B81;

/// The parameter of a program that says whether it linked.
pub const LINK_STATUS: u32 = 0x8B82;

/// `WebGlRenderingContext::create_shader`: a new shader object of the given
/// kind, or nothing where the context makes none. Nothing is claimed of it.
#[verifier::external_body]
pub(crate) fn create_shader(gl: &WebGlRenderingContext, kind: u32) -> Option<WebGlShader> {
    gl.create_shader(kind)
}

/// `WebGlRenderingContext::shader_source`: hands the shader its text.
#[verifier::external_body]
pub(crate) fn shader_source(gl: &WebGlRenderingContext, shader: &WebGlShader, source: &str) {
    gl.shader_source(shader, source)
}

/// `WebGlRenderingContext::compile_shader`: compiles the shader's text.
#[verifier::external_body]
pub(crate) fn compile_shader(gl: &WebGlRenderingContext, shader: &WebGlShader) {
    gl.compile_shader(shader)
}

/// `WebGlRenderingContext::get_shader_parameter`: what the context answers
/// when asked for a parameter of the shader.
#[verifier::external_body]
pub(crate) fn shader_parameter(
    gl: &WebGlRenderingContext,
    shader: &WebGlShader,
    parameter: u32,
) -> JsValue {
    gl.get_shader_parameter(shader, parameter)
}

/// `JsValue::as_bool`: the value as a boolean, or nothing where it is
/// something else than a boolean.
#[verifier::external_body]
pub(crate) fn as_boolean(value: &JsValue) -> Option<bool> {
    value.as_bool()
}

/// `WebGlRenderingContext::get_shader_info_log`: what the shader compiler
/// reported of the shader, if anything.
#[verifier::external_body]
pub(crate) fn shader_info_log(gl: &WebGlRenderingContext, shader: &WebGlShader) -> Option<
    String,
> {
    gl.get_shader_info_log(shader)
}

/// `WebGlRenderingContext::create_program`: a new, empty program object, or
/// nothing where the context makes none.
#[verifier::external_body]
pub(crate) fn create_program(gl: &WebGlRenderingContext) -> Option<WebGlProgram> {
    gl.create_program()
}

/// `WebGlRenderingContext::attach_shader`: adds the shader to the program.
#[verifier::external_body]
pub(crate) fn attach_shader(
    gl: &WebGlRenderingContext,
    program: &WebGlProgram,
    shader: &WebGlShader,
) {
    gl.attach_shader(program, shader)
}

/// `WebGlRenderingContext::link_program`: links the attached shaders.
#[verifier::external_body]
pub(crate) fn link_program(gl: &WebGlRenderingContext, program: &WebGlProgram) {
    gl.link_program(program)
}

/// `WebGlRenderingContext::get_program_parameter`: what the context answers
/// when asked for a parameter of the program.
#[verifier::external_body]
pub(crate) fn program_parameter(
    gl: &WebGlRenderingContext,
    program: &WebGlProgram,
    parameter: u32,
) -> JsValue {
    gl.get_program_parameter(program, parameter)
}

/// `WebGlRenderingContext::get_program_info_log`: what the linker reported
/// of the program, if anything.
#[verifier::external_body]
pub(crate) fn program_info_log(gl: &WebGlRenderingContext, program: &WebGlProgram) -> Option<
    String,
> {
    gl.get_program_info_log(program)
}

/// `WebGlRenderingContext::get_attrib_location`: the slot of the attribute
/// of that name in the program. The context answers with a negative number
/// where the program has no such attribute; nothing is claimed of the
/// number here.
#[verifier::external_body]
pub(crate) fn attrib_location(
    gl: &WebGlRenderingContext,
    program: &WebGlProgram,
    name: &str,
) -> i32 {
    gl.get_attrib_location(program, name)
}

/// `WebGlRenderingContext::get_uniform_location`: the location of the
/// uniform of that name in the program, or nothing where the program has no
/// such uniform.
#[verifier::external_body]
pub(crate) fn uniform_location(
    gl: &WebGlRenderingContext,
    program: &WebGlProgram,
    name: &str,
) -> Option<WebGlUniformLocation> {
    gl.get_uniform_location(program, name)
}

} // verus!
