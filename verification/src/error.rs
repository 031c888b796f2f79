//! What can go wrong while a program is made.

use vstd::prelude::*;
use vstd::string::StringExecFns;

verus! {

/// What the message of a link failure begins with.
pub const LINK_FAILURE_PREFIX: &'static str = "link failure: ";

/// What the message of a missing location begins with.
pub const MISSING_LOCATION_PREFIX: &'static str = "missing location: ";

/// Why no program could be made from a shading.
#[derive(Clone, Debug, PartialEq, Eq)]
pub enum ShadingError {
    /// The graphics context refused the shader pair; the text is what its
    /// shader compiler or linker reported.
    LinkFailure(String),
    /// The linked program has no attribute or uniform of this name.
    MissingLocation(String),
}

/// A `ShadingError` with its texts as sequences of characters.
pub enum ShadingErrorView {
    LinkFailure(Seq<char>),
    MissingLocation(Seq<char>),
}

impl View for ShadingError {
    type V = ShadingErrorView;

    open spec fn view(&self) -> ShadingErrorView {
        match self {
            ShadingError::LinkFailure(diagnostic) => ShadingErrorView::LinkFailure(diagnostic@),
            ShadingError::MissingLocation(name) => ShadingErrorView::MissingLocation(name@),
        }
    }
}

impl ShadingError {
    /// The text that the error carries: the diagnostic of a link failure, or
    /// the name that was not found.
    pub fn detail(&self) -> (text: &str)
        ensures
            text@ == match self@ {
                ShadingErrorView::LinkFailure(diagnostic) => diagnostic,
                ShadingErrorView::MissingLocation(name) => name,
            },
    {
        match self {
            ShadingError::LinkFailure(diagnostic) => diagnostic.as_str(),
            ShadingError::MissingLocation(name) => name.as_str(),
        }
    }

    /// The error in words: the kind of the error, then the text it carries.
    pub fn message(&self) -> (text: String)
        ensures
            text@ == match self@ {
                ShadingErrorView::LinkFailure(diagnostic) => LINK_FAILURE_PREFIX@ + diagnostic,
                ShadingErrorView::MissingLocation(name) => MISSING_LOCATION_PREFIX@ + name,
            },
    {
        match self {
            ShadingError::LinkFailure(diagnostic) => String::from_str(LINK_FAILURE_PREFIX).concat(
                diagnostic.as_str(),
            ),
            ShadingError::MissingLocation(name) => String::from_str(
                MISSING_LOCATION_PREFIX,
            ).concat(name.as_str()),
        }
    }

    /// Whether the graphics context refused the shader pair.
    pub fn is_link_failure(&self) -> (yes: bool)
        ensures
            yes == (self@ is LinkFailure),
    {
        match self {
            ShadingError::LinkFailure(_) => true,
            ShadingError::MissingLocation(_) => false,
        }
    }
}

} // verus!
