//! The shading itself: two shader texts and a place in the registry.

use vstd::prelude::*;
use web_sys::WebGlRenderingContext;
use crate::error::{ShadingError, ShadingErrorView};
use crate::gl::{attrib_location, uniform_location};
use crate::linking::make_webgl_program;
use crate::names::{
    is_expected_name,
    CAMERA_INVERSE_MATRIX,
    POSITION,
    PROJECTION_MATRIX,
    WORLD_MATRIX,
};
use crate::program::PureColorProgram;

verus! {

/// The flat-colour shading: its place in the registry of shadings and the
/// text of its two shaders. Nothing changes it once it is made.
#[derive(Clone, Debug, PartialEq, Eq)]
pub struct PureColorShading {
    index: usize,
    vertex: String,
    frag: String,
}

/// A shading as plain values.
pub struct PureColorShadingView {
    pub index: usize,
    pub vertex: Seq<char>,
    pub fragment: Seq<char>,
}

impl View for PureColorShading {
    type V = PureColorShadingView;

    closed spec fn view(&self) -> PureColorShadingView {
        PureColorShadingView { index: self.index, vertex: self.vertex@, fragment: self.frag@ }
    }
}

impl PureColorShading {
    /// A shading at the given place in the registry, with the given texts.
    pub fn new(index: usize, vertex: String, frag: String) -> (shading: PureColorShading)
        ensures
            shading@.index == index,
            shading@.vertex == vertex@,
            shading@.fragment == frag@,
    {
        PureColorShading { index, vertex, frag }
    }

    /// The shading's place in the registry.
    pub fn get_index(&self) -> (index: usize)
        ensures
            index == self@.index,
    {
        self.index
    }

    /// The text of the vertex shader.
    pub fn get_vertex_str(&self) -> (text: &str)
        ensures
            text@ == self@.vertex,
    {
        self.vertex.as_str()
    }

    /// The text of the fragment shader.
    pub fn get_fragment_str(&self) -> (text: &str)
        ensures
            text@ == self@.fragment,
    {
        self.frag.as_str()
    }

    /// Compiles and links the two shaders in the given context and resolves
    /// the position attribute and the three transform uniforms in the
    /// linked program.
    ///
    /// What comes back depends on the context. Whatever it answers: a
    /// program that is returned holds the position's slot and nothing else
    /// in its table; a link failure carries a diagnostic that is not empty;
    /// a missing location names one of the four expected names. Which of
    /// these it is, for each answer of the context, is stated by
    /// `PureColorProgram::from_lookups`.
    pub fn make_program(&self, gl: &WebGlRenderingContext) -> (made: Result<
        PureColorProgram,
        ShadingError,
    >)
        ensures
            match made {
                Ok(p) => p.wf(),
                Err(e) => match e@ {
                    ShadingErrorView::LinkFailure(diagnostic) => diagnostic.len() > 0,
                    ShadingErrorView::MissingLocation(name) => is_expected_name(name),
                },
            },
    {
        match make_webgl_program(gl, self.vertex.as_str(), self.frag.as_str()) {
            Err(diagnostic) => Err(ShadingError::LinkFailure(diagnostic)),
            Ok(program) => {
                let position = attrib_location(gl, &program, POSITION);
                let projection = uniform_location(gl, &program, PROJECTION_MATRIX);
                let world = uniform_location(gl, &program, WORLD_MATRIX);
                let camera_inverse = uniform_location(gl, &program, CAMERA_INVERSE_MATRIX);
                PureColorProgram::from_lookups(program, position, projection, world, camera_inverse)
            },
        }
    }
}

} // verus!
