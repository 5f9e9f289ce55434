//! Errors reported while post-processing the build output.

use vstd::prelude::*;
use vstd::string::*;

verus! {

/// What went wrong while reading the generated JavaScript or `package.json`.
#[derive(Debug, PartialEq, Eq)]
pub enum BuildError {
    /// A Workflow build marker names a class that is not a JavaScript identifier.
    InvalidWorkflowEntrypointName(String),
    /// Two Workflow build markers name the same class.
    DuplicateWorkflowEntrypoint(String),
    /// A Workflow build marker has no class export of the same name.
    MissingWorkflowClass(String),
    /// `package.json` is not valid JSON; the parser's message is kept.
    InvalidPackageJson(String),
}

/// The abstract value of a `BuildError`: its kind and the text it carries.
pub enum BuildErrorView {
    InvalidWorkflowEntrypointName(Seq<char>),
    DuplicateWorkflowEntrypoint(Seq<char>),
    MissingWorkflowClass(Seq<char>),
    InvalidPackageJson(Seq<char>),
}

impl View for BuildError {
    type V = BuildErrorView;

    open spec fn view(&self) -> BuildErrorView {
        match self {
            BuildError::InvalidWorkflowEntrypointName(s) => BuildErrorView::InvalidWorkflowEntrypointName(s@),
            BuildError::DuplicateWorkflowEntrypoint(s) => BuildErrorView::DuplicateWorkflowEntrypoint(s@),
            BuildError::MissingWorkflowClass(s) => BuildErrorView::MissingWorkflowClass(s@),
            BuildError::InvalidPackageJson(s) => BuildErrorView::InvalidPackageJson(s@),
        }
    }
}

/// The message that describes an error, as the build tool prints it.
pub open spec fn error_message(e: BuildErrorView) -> Seq<char> {
    match e {
        BuildErrorView::InvalidWorkflowEntrypointName(name) => "invalid Workflow entrypoint class name in build marker: "@ + name,
        BuildErrorView::DuplicateWorkflowEntrypoint(name) => "duplicate Workflow entrypoint build marker for "@ + name,
        BuildErrorView::MissingWorkflowClass(name) => "Workflow entrypoint "@ + name + " does not have a matching class export"@,
        BuildErrorView::InvalidPackageJson(message) => message,
    }
}

impl BuildError {
    /// The message that describes this error.
    pub fn to_string(&self) -> (r: String)
        ensures
            r@ == error_message(self@),
    {
        match self {
            BuildError::InvalidWorkflowEntrypointName(name) => {
                let mut r = String::from_str("invalid Workflow entrypoint class name in build marker: ");
                r.append(name.as_str());
                r
            },
            BuildError::DuplicateWorkflowEntrypoint(name) => {
                let mut r = String::from_str("duplicate Workflow entrypoint build marker for ");
                r.append(name.as_str());
                r
            },
            BuildError::MissingWorkflowClass(name) => {
                let mut r = String::from_str("Workflow entrypoint ");
                r.append(name.as_str());
                r.append(" does not have a matching class export");
                r
            },
            BuildError::InvalidPackageJson(message) => message.clone(),
        }
    }
}

} // verus!
