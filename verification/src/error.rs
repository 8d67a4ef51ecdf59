//! What can go wrong with a request or a reply, and how it is classed.

use vstd::prelude::*;

verus! {

/// The three classes of failure. A caller handles each in its own way: it
/// corrects its input, refreshes its list of prompts, or gives up the
/// operation.
#[derive(Clone, Copy, Debug, PartialEq, Eq, Structural)]
pub enum ErrorClass {
    /// The input is malformed; the same call will fail again.
    InputValidation,
    /// The prompt is gone: answered, dropped, or never there.
    NotFound,
    /// The engine's own records contradict the call.
    Internal,
}

/// Why a request or a reply was turned down.
#[derive(Clone, Copy, Debug, PartialEq, Eq, Structural)]
pub enum PromptError {
    /// The requested path does not lie under the home directory.
    PathOutsideHome,
    /// No permission was named.
    EmptyPermissions,
    /// A permission was named that is not among the available ones.
    PermissionNotAvailable,
    /// A permission to preselect is not among the available ones.
    InitialPermissionNotAvailable,
    /// The chosen pattern is not one that the prompt offers.
    InvalidPatternChoice,
    /// The reply carries no answer.
    MissingReply,
    /// The number given for the action stands for none.
    UnknownAction,
    /// The number given for the lifespan stands for none.
    UnknownLifespan,
    /// No pending prompt has the identifier.
    PromptNotFound,
    /// A pending prompt already has the identifier.
    DuplicatePromptId,
}

impl PromptError {
    /// The class of the failure.
    pub open spec fn class_of(self) -> ErrorClass {
        match self {
            PromptError::PromptNotFound => ErrorClass::NotFound,
            PromptError::DuplicatePromptId => ErrorClass::Internal,
            _ => ErrorClass::InputValidation,
        }
    }

    /// The text that describes the failure.
    pub open spec fn text(self) -> Seq<char> {
        match self {
            PromptError::PathOutsideHome => "requested path is not inside the home directory"@,
            PromptError::EmptyPermissions => "no permission was named"@,
            PromptError::PermissionNotAvailable => "a permission is not among the available ones"@,
            PromptError::InitialPermissionNotAvailable => "an initial permission is not among the available ones"@,
            PromptError::InvalidPatternChoice => "the chosen pattern is not among the offered ones"@,
            PromptError::MissingReply => "the reply carries no answer"@,
            PromptError::UnknownAction => "unknown action"@,
            PromptError::UnknownLifespan => "unknown lifespan"@,
            PromptError::PromptNotFound => "no such prompt"@,
            PromptError::DuplicatePromptId => "a prompt with this identifier is already pending"@,
        }
    }

    /// The class of the failure.
    pub fn class(&self) -> (class: ErrorClass)
        ensures
            class == self.class_of(),
    {
        match self {
            PromptError::PromptNotFound => ErrorClass::NotFound,
            PromptError::DuplicatePromptId => ErrorClass::Internal,
            _ => ErrorClass::InputValidation,
        }
    }

    /// A sentence that describes the failure.
    pub fn message(&self) -> (message: &'static str)
        ensures
            message@ == self.text(),
    {
        match self {
            PromptError::PathOutsideHome => "requested path is not inside the home directory",
            PromptError::EmptyPermissions => "no permission was named",
            PromptError::PermissionNotAvailable => "a permission is not among the available ones",
            PromptError::InitialPermissionNotAvailable => "an initial permission is not among the available ones",
            PromptError::InvalidPatternChoice => "the chosen pattern is not among the offered ones",
            PromptError::MissingReply => "the reply carries no answer",
            PromptError::UnknownAction => "unknown action",
            PromptError::UnknownLifespan => "unknown lifespan",
            PromptError::PromptNotFound => "no such prompt",
            PromptError::DuplicatePromptId => "a prompt with this identifier is already pending",
        }
    }
}

} // verus!
