//! The run itself: a state machine that is told what happened and answers
//! with what to log and what to do next. It makes the remote calls in one
//! fixed order and stops for good at the first failure.

use vstd::prelude::*;
use crate::config::{Args, Settings, SettingsView};
use crate::error::{exit_code_of, message_of, EnrolError, EnrolErrorView};
use crate::journal::{line, lines_view, note, Level, LogLine, LogLineView};
use crate::json::{json_rendering, json_string_member, rendering, string_member};
use crate::request::{
    access_token_request, bearer_header, create_access_token, create_token, delete_request,
    delete_user, header_text, image_url, photo_request, send_photo, token_request, token_url,
    Request, RequestView,
};
use crate::response::{request_log, verdict_of, Reply, ReplyView};
use crate::status::{canonical_reason_of, class_of, StatusClass, StatusCode};
use crate::step::{awaited_field_of, Step};
use crate::username::{made_of, new_username, readable_name};

verus! {

/// What the run is waiting for.
#[derive(Clone, Debug, PartialEq, Eq)]
pub enum Phase {
    /// The answer to the request of a step.
    Awaiting { step: Step },
    /// The bytes of the photo, to be enrolled under `token`.
    ReadingImage { token: String },
    /// Nothing: every call was made and succeeded.
    Finished,
    /// Nothing: the run failed.
    Failed { error: EnrolError },
}

/// What the program is to do next.
#[derive(Clone, Debug, PartialEq, Eq)]
pub enum Action {
    /// Send the request of this step and report the response, or that none
    /// came.
    Send { step: Step, request: Request },
    /// Read the file and report its bytes, or that it cannot be read.
    ReadImage { path: String },
    /// Leave with this code.
    Exit { code: i32 },
}

/// What one move of the run gives: lines for the log, in order, and then
/// the next thing to do.
#[derive(Clone, Debug, PartialEq, Eq)]
pub struct Outcome {
    pub lines: Vec<LogLine>,
    pub action: Action,
}

/// What the program reports back.
#[derive(Clone, Debug, PartialEq, Eq)]
pub enum Event {
    /// The service answered.
    Response { status: StatusCode, body: Vec<u8> },
    /// The request got no answer.
    TransportFailure { detail: String },
    /// The photo was read.
    Image { content: Vec<u8> },
    /// The photo could not be read.
    ImageUnreadable { detail: String },
}

/// An event after the body of a response was read for what the run needs
/// of it.
#[derive(Clone, Debug, PartialEq, Eq)]
pub enum Digest {
    Reply { reply: Reply },
    TransportFailure { detail: String },
    Image { content: Vec<u8> },
    ImageUnreadable { detail: String },
}

/// One enrolment run.
#[derive(Clone, Debug, PartialEq, Eq)]
pub struct Session {
    pub config: Settings,
    /// Whether the user is deleted again after enrolment.
    pub delete_user: bool,
    /// The user of this run.
    pub username: String,
    pub phase: Phase,
}

pub enum PhaseView {
    Awaiting { step: Step },
    ReadingImage { token: Seq<char> },
    Finished,
    Failed { error: EnrolErrorView },
}

pub enum ActionView {
    Send { step: Step, request: RequestView },
    ReadImage { path: Seq<char> },
    Exit { code: i32 },
}

pub struct OutcomeView {
    pub lines: Seq<LogLineView>,
    pub action: ActionView,
}

pub enum EventView {
    Response { status: u16, body: Seq<u8> },
    TransportFailure { detail: Seq<char> },
    Image { content: Seq<u8> },
    ImageUnreadable { detail: Seq<char> },
}

pub enum DigestView {
    Reply { reply: ReplyView },
    TransportFailure { detail: Seq<char> },
    Image { content: Seq<u8> },
    ImageUnreadable { detail: Seq<char> },
}

/// A run as a mathematical value.
pub struct SessionView {
    pub config: SettingsView,
    pub delete_user: bool,
    pub username: Seq<char>,
    pub phase: PhaseView,
}

impl View for Phase {
    type V = PhaseView;

    open spec fn view(&self) -> PhaseView {
        match *self {
            Phase::Awaiting { step } => PhaseView::Awaiting { step },
            Phase::ReadingImage { token } => PhaseView::ReadingImage { token: token@ },
            Phase::Finished => PhaseView::Finished,
            Phase::Failed { error } => PhaseView::Failed { error: error@ },
        }
    }
}

impl View for Action {
    type V = ActionView;

    open spec fn view(&self) -> ActionView {
        match *self {
            Action::Send { step, request } => ActionView::Send { step, request: request@ },
            Action::ReadImage { path } => ActionView::ReadImage { path: path@ },
            Action::Exit { code } => ActionView::Exit { code },
        }
    }
}

impl View for Outcome {
    type V = OutcomeView;

    open spec fn view(&self) -> OutcomeView {
        OutcomeView { lines: lines_view(self.lines@), action: self.action@ }
    }
}

impl View for Event {
    type V = EventView;

    open spec fn view(&self) -> EventView {
        match *self {
            Event::Response { status, body } => EventView::Response {
                status: status@,
                body: body@,
            },
            Event::TransportFailure { detail } => EventView::TransportFailure { detail: detail@ },
            Event::Image { content } => EventView::Image { content: content@ },
            Event::ImageUnreadable { detail } => EventView::ImageUnreadable { detail: detail@ },
        }
    }
}

impl View for Digest {
    type V = DigestView;

    open spec fn view(&self) -> DigestView {
        match *self {
            Digest::Reply { reply } => DigestView::Reply { reply: reply@ },
            Digest::TransportFailure { detail } => DigestView::TransportFailure {
                detail: detail@,
            },
            Digest::Image { content } => DigestView::Image { content: content@ },
            Digest::ImageUnreadable { detail } => DigestView::ImageUnreadable { detail: detail@ },
        }
    }
}

impl View for Session {
    type V = SessionView;

    open spec fn view(&self) -> SessionView {
        SessionView {
            config: self.config@,
            delete_user: self.delete_user,
            username: self.username@,
            phase: self.phase@,
        }
    }
}

/// The line that records an enrolment.
pub open spec fn enrolled_line(username: Seq<char>) -> LogLineView {
    line(Level::Info, "user '"@ + username + "' enrolled"@)
}

/// The line that records a deletion.
pub open spec fn deleted_line(username: Seq<char>) -> LogLineView {
    line(Level::Info, "user '"@ + username + "' deleted"@)
}

/// How a run begins: with the request for an enrolment token.
pub open spec fn start(config: SettingsView, delete_user: bool, username: Seq<char>) -> (
    SessionView,
    OutcomeView,
) {
    (
        SessionView {
            config,
            delete_user,
            username,
            phase: PhaseView::Awaiting { step: Step::CreateToken },
        },
        OutcomeView {
            lines: seq![
                line(Level::Debug, "getting enrol token, url="@ + token_url(config.region)),
            ],
            action: ActionView::Send {
                step: Step::CreateToken,
                request: token_request(config, username),
            },
        },
    )
}

/// The run fails: the error is logged after `lines`, and the process is
/// told to leave.
pub open spec fn fail(s: SessionView, lines: Seq<LogLineView>, error: EnrolErrorView) -> (
    SessionView,
    OutcomeView,
) {
    (
        SessionView { phase: PhaseView::Failed { error }, ..s },
        OutcomeView {
            lines: lines.push(line(Level::Error, message_of(error))),
            action: ActionView::Exit { code: exit_code_of(error) },
        },
    )
}

/// What follows a step that succeeded, after the line `passed` that records
/// its success. `field` is the string member that the step awaits.
pub open spec fn proceed(
    s: SessionView,
    step: Step,
    field: Option<Seq<char>>,
    passed: LogLineView,
) -> (SessionView, OutcomeView) {
    match step {
        Step::CreateToken => match field {
            Some(token) => (
                SessionView { phase: PhaseView::ReadingImage { token }, ..s },
                OutcomeView {
                    lines: seq![passed],
                    action: ActionView::ReadImage { path: s.config.img_path },
                },
            ),
            None => fail(s, seq![passed], EnrolErrorView::MissingField { step }),
        },
        Step::EnrolImage => if s.delete_user {
            (
                SessionView {
                    phase: PhaseView::Awaiting { step: Step::GenerateAccessToken },
                    ..s
                },
                OutcomeView {
                    lines: seq![
                        passed,
                        enrolled_line(s.username),
                        line(Level::Debug, "getting oauth access token"@),
                    ],
                    action: ActionView::Send {
                        step: Step::GenerateAccessToken,
                        request: access_token_request(s.config),
                    },
                },
            )
        } else {
            (
                SessionView { phase: PhaseView::Finished, ..s },
                OutcomeView {
                    lines: seq![passed, enrolled_line(s.username)],
                    action: ActionView::Exit { code: 0 },
                },
            )
        },
        Step::GenerateAccessToken => match field {
            Some(access_token) => if header_text(bearer_header(access_token)) {
                (
                    SessionView { phase: PhaseView::Awaiting { step: Step::DeleteUser }, ..s },
                    OutcomeView {
                        lines: seq![passed, line(Level::Debug, "deleting user"@)],
                        action: ActionView::Send {
                            step: Step::DeleteUser,
                            request: delete_request(s.config, access_token, s.username),
                        },
                    },
                )
            } else {
                fail(
                    s,
                    seq![passed, line(Level::Debug, "deleting user"@)],
                    EnrolErrorView::InvalidBearer,
                )
            },
            None => fail(s, seq![passed], EnrolErrorView::MissingField { step }),
        },
        Step::DeleteUser => (
            SessionView { phase: PhaseView::Finished, ..s },
            OutcomeView {
                lines: seq![passed, deleted_line(s.username)],
                action: ActionView::Exit { code: 0 },
            },
        ),
    }
}

/// One move of the run. A run that is over stays as it is and repeats its
/// exit code. A run that waits for an answer judges the reply and goes on
/// or fails; one that waits for the photo sends it or fails. Whatever comes
/// out of turn fails the run.
pub open spec fn transition(s: SessionView, digest: DigestView) -> (SessionView, OutcomeView) {
    match s.phase {
        PhaseView::Finished => (
            s,
            OutcomeView { lines: Seq::empty(), action: ActionView::Exit { code: 0 } },
        ),
        PhaseView::Failed { error } => (
            s,
            OutcomeView {
                lines: Seq::empty(),
                action: ActionView::Exit { code: exit_code_of(error) },
            },
        ),
        PhaseView::Awaiting { step } => match digest {
            DigestView::Reply { reply } => match verdict_of(step, reply) {
                Ok(passed) => proceed(s, step, reply.field, passed),
                Err(error) => fail(s, Seq::empty(), error),
            },
            DigestView::TransportFailure { detail } => fail(
                s,
                Seq::empty(),
                EnrolErrorView::Transport { step, detail },
            ),
            _ => fail(s, Seq::empty(), EnrolErrorView::OutOfTurn),
        },
        PhaseView::ReadingImage { token } => match digest {
            DigestView::Image { content } => (
                SessionView { phase: PhaseView::Awaiting { step: Step::EnrolImage }, ..s },
                OutcomeView {
                    lines: seq![
                        line(
                            Level::Debug,
                            "sending image for enrolment, url="@ + image_url(s.config.region),
                        ),
                    ],
                    action: ActionView::Send {
                        step: Step::EnrolImage,
                        request: photo_request(s.config, token, content),
                    },
                },
            ),
            DigestView::ImageUnreadable { detail } => fail(
                s,
                Seq::empty(),
                EnrolErrorView::UnreadableImage { path: s.config.img_path, detail },
            ),
            _ => fail(s, Seq::empty(), EnrolErrorView::OutOfTurn),
        },
    }
}

/// What is read out of a response in a given phase. Of a success, the
/// string member that the awaited step reads, if it reads one; of anything
/// else, the reason phrase of the status and the rendering of the body. The
/// body is not looked at for more than that.
pub open spec fn reply_of(phase: PhaseView, status: u16, body: Seq<u8>) -> ReplyView {
    if class_of(status) == StatusClass::Success {
        ReplyView {
            status,
            reason: None,
            error_body: None,
            field: match phase {
                PhaseView::Awaiting { step } => match awaited_field_of(step) {
                    Some(name) => json_string_member(body, name),
                    None => None,
                },
                _ => None,
            },
        }
    } else {
        ReplyView {
            status,
            reason: canonical_reason_of(status),
            error_body: json_rendering(body),
            field: None,
        }
    }
}

/// An event as the run takes it in.
pub open spec fn digest_of(phase: PhaseView, event: EventView) -> DigestView {
    match event {
        EventView::Response { status, body } => DigestView::Reply {
            reply: reply_of(phase, status, body),
        },
        EventView::TransportFailure { detail } => DigestView::TransportFailure { detail },
        EventView::Image { content } => DigestView::Image { content },
        EventView::ImageUnreadable { detail } => DigestView::ImageUnreadable { detail },
    }
}

/// One move of the run on an event as the program reports it.
pub open spec fn step_on(s: SessionView, event: EventView) -> (SessionView, OutcomeView) {
    transition(s, digest_of(s.phase, event))
}

/// Starts a run for a user with a new random name: five words that
/// underscores join. The run keeps that name to its end.
pub fn photo_enrol(args: &Args, config: Settings) -> (started: (Session, Outcome))
    ensures
        made_of(started.0@.username, 5, "_"@),
        readable_name(started.0@.username),
        (started.0@, started.1@) == start(config@, args.delete_user, started.0@.username),
{
    Session::begin(config, args.delete_user, new_username())
}

impl Session {
    /// Starts a run for `username`: the first thing to do is to ask for an
    /// enrolment token.
    pub fn begin(config: Settings, delete_user: bool, username: String) -> (started: (
        Session,
        Outcome,
    ))
        ensures
            (started.0@, started.1@) == start(config@, delete_user, username@),
    {
        let request = create_token(&config, username.as_str());
        let mut text = String::from_str("getting enrol token, url=");
        text.append(request.url.as_str());
        let mut lines: Vec<LogLine> = Vec::new();
        note(&mut lines, Level::Debug, text);
        assert(lines_view(lines@) =~= start(config@, delete_user, username@).1.lines);
        (
            Session {
                config,
                delete_user,
                username,
                phase: Phase::Awaiting { step: Step::CreateToken },
            },
            Outcome { lines, action: Action::Send { step: Step::CreateToken, request } },
        )
    }

    /// Whether the run is over, in success or in failure.
    pub fn is_over(&self) -> (over: bool)
        ensures
            over == (self@.phase is Finished || self@.phase is Failed),
    {
        match &self.phase {
            Phase::Finished => true,
            Phase::Failed { .. } => true,
            _ => false,
        }
    }

    fn fail(&mut self, lines: Vec<LogLine>, error: EnrolError) -> (outcome: Outcome)
        ensures
            (final(self)@, outcome@) == fail(old(self)@, lines_view(lines@), error@),
    {
        let mut lines = lines;
        note(&mut lines, Level::Error, error.message());
        let code = error.exit_code();
        self.phase = Phase::Failed { error };
        Outcome { lines, action: Action::Exit { code } }
    }

    fn proceed(&mut self, step: Step, field: Option<String>, passed: LogLine) -> (outcome: Outcome)
        ensures
            (final(self)@, outcome@) == proceed(old(self)@, step, field.deep_view(), passed@),
    {
        let mut lines: Vec<LogLine> = Vec::new();
        lines.push(passed);
        assert(lines_view(lines@) =~= seq![passed@]);
        match step {
            Step::CreateToken => match field {
                Some(token) => {
                    self.phase = Phase::ReadingImage { token };
                    let path = self.config.img_path.clone();
                    Outcome { lines, action: Action::ReadImage { path } }
                },
                None => self.fail(lines, EnrolError::MissingField { step }),
            },
            Step::EnrolImage => {
                let mut text = String::from_str("user '");
                text.append(self.username.as_str());
                text.append("' enrolled");
                note(&mut lines, Level::Info, text);
                if self.delete_user {
                    note(&mut lines, Level::Debug, String::from_str("getting oauth access token"));
                    let request = create_access_token(&self.config);
                    self.phase = Phase::Awaiting { step: Step::GenerateAccessToken };
                    assert(lines_view(lines@) =~= proceed(
                        old(self)@,
                        step,
                        field.deep_view(),
                        passed@,
                    ).1.lines);
                    Outcome {
                        lines,
                        action: Action::Send { step: Step::GenerateAccessToken, request },
                    }
                } else {
                    self.phase = Phase::Finished;
                    assert(lines_view(lines@) =~= proceed(
                        old(self)@,
                        step,
                        field.deep_view(),
                        passed@,
                    ).1.lines);
                    Outcome { lines, action: Action::Exit { code: 0 } }
                }
            },
            Step::GenerateAccessToken => match field {
                Some(access_token) => {
                    note(&mut lines, Level::Debug, String::from_str("deleting user"));
                    assert(lines_view(lines@) =~= seq![
                        passed@,
                        line(Level::Debug, "deleting user"@),
                    ]);
                    match delete_user(&self.config, access_token.as_str(), self.username.as_str()) {
                        Ok(request) => {
                            self.phase = Phase::Awaiting { step: Step::DeleteUser };
                            Outcome {
                                lines,
                                action: Action::Send { step: Step::DeleteUser, request },
                            }
                        },
                        Err(error) => self.fail(lines, error),
                    }
                },
                None => self.fail(lines, EnrolError::MissingField { step }),
            },
            Step::DeleteUser => {
                let mut text = String::from_str("user '");
                text.append(self.username.as_str());
                text.append("' deleted");
                note(&mut lines, Level::Info, text);
                self.phase = Phase::Finished;
                assert(lines_view(lines@) =~= seq![passed@, deleted_line(old(self)@.username)]);
                Outcome { lines, action: Action::Exit { code: 0 } }
            },
        }
    }

    /// Makes one move on an event whose response, if it is one, was already
    /// read: see [`transition`].
    pub fn apply(&mut self, digest: Digest) -> (outcome: Outcome)
        ensures
            (final(self)@, outcome@) == transition(old(self)@, digest@),
    {
        let lines: Vec<LogLine> = Vec::new();
        assert(lines_view(lines@) =~= Seq::empty());
        match &self.phase {
            Phase::Finished => Outcome { lines, action: Action::Exit { code: 0 } },
            Phase::Failed { error } => {
                let code = error.exit_code();
                Outcome { lines, action: Action::Exit { code } }
            },
            Phase::Awaiting { step } => {
                let step = *step;
                match digest {
                    Digest::Reply { reply } => match request_log(step, &reply) {
                        Ok(passed) => self.proceed(step, reply.field, passed),
                        Err(error) => self.fail(lines, error),
                    },
                    Digest::TransportFailure { detail } => self.fail(
                        lines,
                        EnrolError::Transport { step, detail },
                    ),
                    _ => self.fail(lines, EnrolError::OutOfTurn),
                }
            },
            Phase::ReadingImage { token } => match digest {
                Digest::Image { content } => {
                    let request = send_photo(&self.config, token.as_str(), content);
                    let mut text = String::from_str("sending image for enrolment, url=");
                    text.append(request.url.as_str());
                    let mut lines = lines;
                    note(&mut lines, Level::Debug, text);
                    self.phase = Phase::Awaiting { step: Step::EnrolImage };
                    Outcome { lines, action: Action::Send { step: Step::EnrolImage, request } }
                },
                Digest::ImageUnreadable { detail } => {
                    let path = self.config.img_path.clone();
                    self.fail(lines, EnrolError::UnreadableImage { path, detail })
                },
                _ => self.fail(lines, EnrolError::OutOfTurn),
            },
        }
    }

    /// Reads out of a response what the run needs of it in its present
    /// phase, and hands every other event on as it is: see [`digest_of`].
    pub fn digest(&self, event: Event) -> (digest: Digest)
        ensures
            digest@ == digest_of(self@.phase, event@),
    {
        match event {
            Event::Response { status, body } => {
                if status.is_success() {
                    let field = match &self.phase {
                        Phase::Awaiting { step } => match step.awaited_field() {
                            Some(name) => string_member(body.as_slice(), name),
                            None => None,
                        },
                        _ => None,
                    };
                    Digest::Reply { reply: Reply { status, reason: None, error_body: None, field } }
                } else {
                    let reason = status.reason();
                    let error_body = rendering(body.as_slice());
                    Digest::Reply { reply: Reply { status, reason, error_body, field: None } }
                }
            },
            Event::TransportFailure { detail } => Digest::TransportFailure { detail },
            Event::Image { content } => Digest::Image { content },
            Event::ImageUnreadable { detail } => Digest::ImageUnreadable { detail },
        }
    }

    /// Makes one move on what the program reports: see [`step_on`].
    pub fn advance(&mut self, event: Event) -> (outcome: Outcome)
        ensures
            (final(self)@, outcome@) == step_on(old(self)@, event@),
    {
        let digest = self.digest(event);
        self.apply(digest)
    }
}

} // verus!
