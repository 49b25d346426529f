//! Everything that ends a run early. No error is recovered from: each one
//! is logged once and the process leaves with a non-zero code.

use vstd::prelude::*;
use crate::config::{name_of, Variable};
use crate::status::{class_of, render_status, status_line, StatusClass, StatusCode};
use crate::step::{awaited_field_of, label_of, Step};

verus! {

/// The reasons for which a run fails.
#[derive(Clone, Debug, PartialEq, Eq)]
pub enum EnrolError {
    /// A required setting is absent from the environment.
    MissingVariable { variable: Variable },
    /// The request never got an answer.
    Transport { step: Step, detail: String },
    /// The service answered with a status other than success; `body` is the
    /// compact rendering of the JSON it sent along.
    Http { step: Step, status: StatusCode, reason: Option<String>, body: String },
    /// The service answered with a status other than success and a body that
    /// is not JSON.
    UndecodableBody { step: Step, status: StatusCode, reason: Option<String> },
    /// The service answered with success, but the body lacks the string member
    /// the step reads.
    MissingField { step: Step },
    /// The photo could not be read.
    UnreadableImage { path: String, detail: String },
    /// The access token cannot stand in an HTTP header.
    InvalidBearer,
    /// The program reported something the run was not waiting for.
    OutOfTurn,
}

/// An error as a mathematical value.
pub enum EnrolErrorView {
    MissingVariable { variable: Variable },
    Transport { step: Step, detail: Seq<char> },
    Http { step: Step, status: u16, reason: Option<Seq<char>>, body: Seq<char> },
    UndecodableBody { step: Step, status: u16, reason: Option<Seq<char>> },
    MissingField { step: Step },
    UnreadableImage { path: Seq<char>, detail: Seq<char> },
    InvalidBearer,
    OutOfTurn,
}

impl View for EnrolError {
    type V = EnrolErrorView;

    open spec fn view(&self) -> EnrolErrorView {
        match *self {
            EnrolError::MissingVariable { variable } => EnrolErrorView::MissingVariable {
                variable,
            },
            EnrolError::Transport { step, detail } => EnrolErrorView::Transport {
                step,
                detail: detail@,
            },
            EnrolError::Http { step, status, reason, body } => EnrolErrorView::Http {
                step,
                status: status@,
                reason: reason.deep_view(),
                body: body@,
            },
            EnrolError::UndecodableBody { step, status, reason } => {
                EnrolErrorView::UndecodableBody {
                    step,
                    status: status@,
                    reason: reason.deep_view(),
                }
            },
            EnrolError::MissingField { step } => EnrolErrorView::MissingField { step },
            EnrolError::UnreadableImage { path, detail } => EnrolErrorView::UnreadableImage {
                path: path@,
                detail: detail@,
            },
            EnrolError::InvalidBearer => EnrolErrorView::InvalidBearer,
            EnrolError::OutOfTurn => EnrolErrorView::OutOfTurn,
        }
    }
}

/// A text between double quotes.
pub open spec fn quoted(text: Seq<char>) -> Seq<char> {
    "\""@ + text + "\""@
}

/// How a failing status is called in the log: 4xx is the client's error,
/// 5xx the server's, and every other one is unknown.
pub open spec fn failure_title(status: u16) -> Seq<char> {
    match class_of(status) {
        StatusClass::ClientError => "Client Error"@,
        StatusClass::ServerError => "Server Error"@,
        _ => "Unknown Error"@,
    }
}

/// The one line that is logged for an error.
pub open spec fn message_of(error: EnrolErrorView) -> Seq<char> {
    match error {
        EnrolErrorView::MissingVariable { variable } => "Missing Variable "@ + name_of(variable),
        EnrolErrorView::Transport { step, detail } => "Transport Error during "@ + quoted(
            label_of(step),
        ) + ": <"@ + detail + ">"@,
        EnrolErrorView::Http { step, status, reason, body } => failure_title(status) + " during "@
            + quoted(label_of(step)) + ": <"@ + status_line(status, reason) + ", "@ + body + ">"@,
        EnrolErrorView::UndecodableBody { step, status, reason } => failure_title(status)
            + " during "@ + quoted(label_of(step)) + ": <"@ + status_line(status, reason)
            + ", body is not JSON>"@,
        EnrolErrorView::MissingField { step } => "Payload Error during "@ + quoted(label_of(step))
            + ": <no string field "@ + quoted(
            match awaited_field_of(step) {
                Some(name) => name,
                None => Seq::empty(),
            },
        ) + ">"@,
        EnrolErrorView::UnreadableImage { path, detail } => "Unreadable Image "@ + quoted(path)
            + ": <"@ + detail + ">"@,
        EnrolErrorView::InvalidBearer => "Invalid Access Token: <not a header value>"@,
        EnrolErrorView::OutOfTurn => "Unexpected Event"@,
    }
}

/// The code with which the process leaves after an error.
pub open spec fn exit_code_of(error: EnrolErrorView) -> i32 {
    1
}

fn quote(text: &str) -> (out: String)
    ensures
        out@ == quoted(text@),
{
    let mut out = String::from_str("\"");
    out.append(text);
    out.append("\"");
    out
}

fn title(status: StatusCode) -> (text: &'static str)
    ensures
        text@ == failure_title(status@),
{
    match status.class() {
        StatusClass::ClientError => "Client Error",
        StatusClass::ServerError => "Server Error",
        _ => "Unknown Error",
    }
}

impl EnrolError {
    /// The line to log for this error.
    pub fn message(&self) -> (text: String)
        ensures
            text@ == message_of(self@),
    {
        match self {
            EnrolError::MissingVariable { variable } => {
                let mut text = String::from_str("Missing Variable ");
                text.append(variable.name());
                text
            },
            EnrolError::Transport { step, detail } => {
                let mut text = String::from_str("Transport Error during ");
                text.append(quote(step.label()).as_str());
                text.append(": <");
                text.append(detail.as_str());
                text.append(">");
                text
            },
            EnrolError::Http { step, status, reason, body } => {
                let mut text = String::from_str(title(*status));
                text.append(" during ");
                text.append(quote(step.label()).as_str());
                text.append(": <");
                text.append(render_status(*status, reason).as_str());
                text.append(", ");
                text.append(body.as_str());
                text.append(">");
                text
            },
            EnrolError::UndecodableBody { step, status, reason } => {
                let mut text = String::from_str(title(*status));
                text.append(" during ");
                text.append(quote(step.label()).as_str());
                text.append(": <");
                text.append(render_status(*status, reason).as_str());
                text.append(", body is not JSON>");
                text
            },
            EnrolError::MissingField { step } => {
                let mut text = String::from_str("Payload Error during ");
                text.append(quote(step.label()).as_str());
                text.append(": <no string field ");
                let field = match step.awaited_field() {
                    Some(name) => quote(name),
                    None => {
                        proof {
                            reveal_strlit("");
                        }
                        quote("")
                    },
                };
                text.append(field.as_str());
                text.append(">");
                text
            },
            EnrolError::UnreadableImage { path, detail } => {
                let mut text = String::from_str("Unreadable Image ");
                text.append(quote(path.as_str()).as_str());
                text.append(": <");
                text.append(detail.as_str());
                text.append(">");
                text
            },
            EnrolError::InvalidBearer => String::from_str(
                "Invalid Access Token: <not a header value>",
            ),
            EnrolError::OutOfTurn => String::from_str("Unexpected Event"),
        }
    }

    /// The code with which the process leaves: never zero.
    pub fn exit_code(&self) -> (code: i32)
        ensures
            code == exit_code_of(self@),
            code != 0,
    {
        1
    }
}

} // verus!
