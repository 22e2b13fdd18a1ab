//! The ways in which a request can fail, and the texts that say so.

use vstd::prelude::*;
use vstd::string::StringExecFns;

verus! {

/// Who is to blame for an error.
#[derive(Debug, Clone, Copy, PartialEq, Eq, Structural)]
pub enum ErrorType {
    /// The request asks for something that cannot be.
    InvalidArgument,
    /// Something else went wrong.
    Unknown,
}

/// An error that is reported to the caller.
#[derive(Debug)]
pub struct DynamoError {
    /// The kind of the error.
    pub error_type: ErrorType,
    /// What went wrong.
    pub message: String,
}

impl View for DynamoError {
    type V = (ErrorType, Seq<char>);

    open spec fn view(&self) -> (ErrorType, Seq<char>) {
        (self.error_type, self.message@)
    }
}

/// An error that blames the request.
pub fn invalid_argument(message: String) -> (error: DynamoError)
    ensures
        error@ == (ErrorType::InvalidArgument, message@),
        error.error_type == ErrorType::InvalidArgument,
        error.message@ == message@,
{
    DynamoError { error_type: ErrorType::InvalidArgument, message }
}

/// Why no tool-call format can be built for a request.
#[derive(Debug)]
pub enum BuildError {
    /// A tool call is required and there are no tools.
    RequiredWithoutTools,
    /// The tool choice names a tool that is not among the tools.
    NamedToolMissing(String),
}

/// The mathematical content of a [`BuildError`].
pub enum BuildErrorModel {
    /// A tool call is required and there are no tools.
    RequiredWithoutTools,
    /// No tool has this name.
    NamedToolMissing(Seq<char>),
}

impl View for BuildError {
    type V = BuildErrorModel;

    open spec fn view(&self) -> BuildErrorModel {
        match *self {
            BuildError::RequiredWithoutTools => BuildErrorModel::RequiredWithoutTools,
            BuildError::NamedToolMissing(name) => BuildErrorModel::NamedToolMissing(name@),
        }
    }
}

impl BuildErrorModel {
    /// The text that reports the error.
    pub open spec fn text(self) -> Seq<char> {
        match self {
            BuildErrorModel::RequiredWithoutTools =>
                "tool_choice is \"required\" but tools is empty"@,
            BuildErrorModel::NamedToolMissing(name) =>
                "tool named \""@ + name + "\" in tool_choice is not present in tools"@,
        }
    }
}

impl BuildError {
    /// The text that reports the error.
    pub fn message(&self) -> (text: String)
        ensures
            text@ == self@.text(),
            text@ == match *self {
                BuildError::RequiredWithoutTools =>
                    "tool_choice is \"required\" but tools is empty"@,
                BuildError::NamedToolMissing(name) =>
                    "tool named \""@ + name@ + "\" in tool_choice is not present in tools"@,
            },
    {
        match self {
            BuildError::RequiredWithoutTools => {
                "tool_choice is \"required\" but tools is empty".to_owned()
            },
            BuildError::NamedToolMissing(name) => {
                let mut text = "tool named \"".to_owned();
                text.append(name.as_str());
                text.append("\" in tool_choice is not present in tools");
                text
            },
        }
    }
}

} // verus!
