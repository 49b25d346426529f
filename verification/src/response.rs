//! The single place where the answer to a remote call is judged.

use vstd::prelude::*;
use crate::error::{EnrolError, EnrolErrorView};
use crate::journal::{line, Level, LogLine, LogLineView};
use crate::status::{class_of, StatusClass, StatusCode};
use crate::step::{label_of, Step};

verus! {

/// An answer of the service, with what was read out of it.
#[derive(Clone, Debug, PartialEq, Eq)]
pub struct Reply {
    /// The status of the response.
    pub status: StatusCode,
    /// The canonical reason phrase of the status, where it has one.
    pub reason: Option<String>,
    /// The compact rendering of the body, where it is JSON. Read only where
    /// the status is not a success.
    pub error_body: Option<String>,
    /// The string member that the step awaits, where the body has it. Read
    /// only where the status is a success.
    pub field: Option<String>,
}

/// A reply as a mathematical value.
pub struct ReplyView {
    pub status: u16,
    pub reason: Option<Seq<char>>,
    pub error_body: Option<Seq<char>>,
    pub field: Option<Seq<char>>,
}

impl View for Reply {
    type V = ReplyView;

    open spec fn view(&self) -> ReplyView {
        ReplyView {
            status: self.status@,
            reason: self.reason.deep_view(),
            error_body: self.error_body.deep_view(),
            field: self.field.deep_view(),
        }
    }
}

/// The judgement on a reply. A status from 200 to 299 passes, with a line
/// that says so. Every other status fails, redirects and informational codes
/// too: as an HTTP error that carries the body where the body is JSON, as an
/// undecodable body where it is not.
pub open spec fn verdict_of(step: Step, reply: ReplyView) -> Result<LogLineView, EnrolErrorView> {
    if class_of(reply.status) == StatusClass::Success {
        Ok(line(Level::Info, label_of(step) + " succeeded"@))
    } else {
        match reply.error_body {
            Some(body) => Err(
                EnrolErrorView::Http { step, status: reply.status, reason: reply.reason, body },
            ),
            None => Err(
                EnrolErrorView::UndecodableBody {
                    step,
                    status: reply.status,
                    reason: reply.reason,
                },
            ),
        }
    }
}

/// Judges the reply to `step`: the line that records its success, or the
/// error that ends the run.
pub fn request_log(step: Step, reply: &Reply) -> (verdict: Result<LogLine, EnrolError>)
    ensures
        verdict matches Ok(passed) ==> verdict_of(step, reply@) == Ok::<
            LogLineView,
            EnrolErrorView,
        >(passed@),
        verdict matches Err(error) ==> verdict_of(step, reply@) == Err::<
            LogLineView,
            EnrolErrorView,
        >(error@),
{
    if reply.status.is_success() {
        let mut text = String::from_str(step.label());
        text.append(" succeeded");
        Ok(LogLine { level: Level::Info, text })
    } else {
        match &reply.error_body {
            Some(body) => Err(
                EnrolError::Http {
                    step,
                    status: reply.status,
                    reason: reply.reason.clone(),
                    body: body.clone(),
                },
            ),
            None => Err(
                EnrolError::UndecodableBody {
                    step,
                    status: reply.status,
                    reason: reply.reason.clone(),
                },
            ),
        }
    }
}

} // verus!
