//! The four remote calls of an enrolment run.

use vstd::prelude::*;

verus! {

/// One of the remote calls, in the order in which a run makes them.
#[derive(Clone, Copy, Debug, PartialEq, Eq, Structural)]
pub enum Step {
    /// Ask for an enrolment token for the new user.
    CreateToken,
    /// Upload the photo under that token.
    EnrolImage,
    /// Exchange the OAuth credentials for an access token.
    GenerateAccessToken,
    /// Delete the user that was just enrolled.
    DeleteUser,
}

/// The label under which a step appears in the log.
pub open spec fn label_of(step: Step) -> Seq<char> {
    match step {
        Step::CreateToken => "create token"@,
        Step::EnrolImage => "enrol image"@,
        Step::GenerateAccessToken => "generate access token"@,
        Step::DeleteUser => "delete user"@,
    }
}

/// The string member that a step reads out of a successful response, for the
/// steps that read one.
pub open spec fn awaited_field_of(step: Step) -> Option<Seq<char>> {
    match step {
        Step::CreateToken => Some("token"@),
        Step::GenerateAccessToken => Some("access_token"@),
        _ => None,
    }
}

impl Step {
    /// The label of this step in the log.
    pub fn label(&self) -> (text: &'static str)
        ensures
            text@ == label_of(*self),
    {
        match self {
            Step::CreateToken => "create token",
            Step::EnrolImage => "enrol image",
            Step::GenerateAccessToken => "generate access token",
            Step::DeleteUser => "delete user",
        }
    }

    /// The string member that this step reads out of a successful response.
    pub fn awaited_field(&self) -> (name: Option<&'static str>)
        ensures
            name.deep_view() == awaited_field_of(*self),
    {
        match self {
            Step::CreateToken => Some("token"),
            Step::GenerateAccessToken => Some("access_token"),
            _ => None,
        }
    }
}

} // verus!
