//! What holds of every run, whatever the service answers.

use vstd::prelude::*;
use crate::config::SettingsView;
use crate::error::EnrolErrorView;
use crate::json::json_string_member;
use crate::request::{bearer_header, header_text};
use crate::error::message_of;
use crate::journal::{line, Level};
use crate::session::{
    digest_of, start, step_on, transition, ActionView, DigestView, EventView, OutcomeView,
    PhaseView, SessionView,
};
use crate::step::{awaited_field_of, Step};

verus! {

/// The calls of a complete run, in order: the deletion flag adds the last
/// two.
pub open spec fn plan(delete_user: bool) -> Seq<Step> {
    if delete_user {
        seq![Step::CreateToken, Step::EnrolImage, Step::GenerateAccessToken, Step::DeleteUser]
    } else {
        seq![Step::CreateToken, Step::EnrolImage]
    }
}

/// The call that an outcome asks for, if it asks for one.
pub open spec fn calls_of(outcome: OutcomeView) -> Seq<Step> {
    match outcome.action {
        ActionView::Send { step, request } => seq![step],
        _ => Seq::empty(),
    }
}

/// Takes a run through a sequence of events: where it stands after them,
/// and the calls it asked for on the way.
pub open spec fn run(s: SessionView, events: Seq<EventView>) -> (SessionView, Seq<Step>)
    decreases events.len(),
{
    if events.len() == 0 {
        (s, Seq::empty())
    } else {
        let (before, calls) = run(s, events.drop_last());
        let (after, outcome) = step_on(before, events.last());
        (after, calls + calls_of(outcome))
    }
}

/// A whole run from its start: where it stands after the events, and every
/// call it asked for, the first one included.
pub open spec fn enrolment(
    config: SettingsView,
    delete_user: bool,
    username: Seq<char>,
    events: Seq<EventView>,
) -> (SessionView, Seq<Step>) {
    let (first, outcome) = start(config, delete_user, username);
    let (last, calls) = run(first, events);
    (last, calls_of(outcome) + calls)
}

/// `calls` are the first calls of the plan, in its order.
pub open spec fn begins_plan(calls: Seq<Step>, delete_user: bool) -> bool {
    &&& calls.len() <= plan(delete_user).len()
    &&& calls == plan(delete_user).take(calls.len() as int)
}

/// The calls made so far are those that the phase of the run accounts for.
spec fn on_plan(s: SessionView, calls: Seq<Step>) -> bool {
    match s.phase {
        PhaseView::Awaiting { step } => match step {
            Step::CreateToken => calls == seq![Step::CreateToken],
            Step::EnrolImage => calls == seq![Step::CreateToken, Step::EnrolImage],
            Step::GenerateAccessToken => s.delete_user && calls == seq![
                Step::CreateToken,
                Step::EnrolImage,
                Step::GenerateAccessToken,
            ],
            Step::DeleteUser => s.delete_user && calls == plan(true),
        },
        PhaseView::ReadingImage { token } => calls == seq![Step::CreateToken],
        PhaseView::Finished => calls == plan(s.delete_user),
        PhaseView::Failed { error } => begins_plan(calls, s.delete_user),
    }
}

proof fn on_plan_begins_plan(s: SessionView, calls: Seq<Step>)
    requires
        on_plan(s, calls),
    ensures
        begins_plan(calls, s.delete_user),
{
    assert(calls =~= plan(s.delete_user).take(calls.len() as int));
}

proof fn step_keeps_plan(s: SessionView, calls: Seq<Step>, event: EventView)
    requires
        on_plan(s, calls),
    ensures
        on_plan(step_on(s, event).0, calls + calls_of(step_on(s, event).1)),
        step_on(s, event).0.delete_user == s.delete_user,
{
    let (after, outcome) = step_on(s, event);
    let grown = calls + calls_of(outcome);
    on_plan_begins_plan(s, calls);
    match after.phase {
        PhaseView::Awaiting { step: Step::EnrolImage } => {
            assert(grown =~= seq![Step::CreateToken, Step::EnrolImage]);
        },
        PhaseView::Awaiting { step: Step::GenerateAccessToken } => {
            assert(grown =~= seq![
                Step::CreateToken,
                Step::EnrolImage,
                Step::GenerateAccessToken,
            ]);
        },
        PhaseView::Awaiting { step: Step::DeleteUser } => {
            assert(grown =~= plan(true));
        },
        _ => {},
    }
}

proof fn run_keeps_plan(s: SessionView, calls: Seq<Step>, events: Seq<EventView>)
    requires
        on_plan(s, calls),
    ensures
        on_plan(run(s, events).0, calls + run(s, events).1),
        run(s, events).0.delete_user == s.delete_user,
    decreases events.len(),
{
    if events.len() > 0 {
        run_keeps_plan(s, calls, events.drop_last());
        let (before, made) = run(s, events.drop_last());
        step_keeps_plan(before, calls + made, events.last());
        let outcome = step_on(before, events.last()).1;
        assert(calls + run(s, events).1 =~= (calls + made) + calls_of(outcome));
    }
}

/// Whatever the program reports, a run asks for the calls of its plan, in
/// the plan's order, and for no others: token, image and, with the deletion
/// flag, access token and deletion. A run that finishes has asked for all of
/// them, each once: two without the flag, four with it.
pub proof fn calls_follow_the_plan(
    config: SettingsView,
    delete_user: bool,
    username: Seq<char>,
    events: Seq<EventView>,
)
    ensures
        begins_plan(enrolment(config, delete_user, username, events).1, delete_user),
        enrolment(config, delete_user, username, events).0.phase is Finished ==> enrolment(
            config,
            delete_user,
            username,
            events,
        ).1 == plan(delete_user),
{
    let (first, outcome) = start(config, delete_user, username);
    run_keeps_plan(first, calls_of(outcome), events);
    on_plan_begins_plan(run(first, events).0, calls_of(outcome) + run(first, events).1);
}

/// One more event takes a run one move further.
proof fn run_one_more(s: SessionView, events: Seq<EventView>, event: EventView)
    ensures
        run(s, events.push(event)) == ({
            let (before, calls) = run(s, events);
            let (after, outcome) = step_on(before, event);
            (after, calls + calls_of(outcome))
        }),
{
    assert(events.push(event).drop_last() =~= events);
}

/// A response with a status of success and this body.
pub open spec fn fine(status: u16, body: Seq<u8>) -> EventView
    recommends
        200 <= status <= 299,
{
    EventView::Response { status, body }
}

/// Without the deletion flag, a run whose token request is answered with
/// success and a token, whose photo can be read and whose upload is answered
/// with success makes exactly two calls, for the token and for the image,
/// and finishes.
pub proof fn enrolment_makes_two_calls(
    config: SettingsView,
    username: Seq<char>,
    token: (u16, Seq<u8>),
    image: Seq<u8>,
    upload: (u16, Seq<u8>),
)
    requires
        200 <= token.0 <= 299,
        json_string_member(token.1, "token"@) is Some,
        200 <= upload.0 <= 299,
    ensures
        enrolment(
            config,
            false,
            username,
            seq![
                fine(token.0, token.1),
                EventView::Image { content: image },
                fine(upload.0, upload.1),
            ],
        ) == (
            SessionView { config, delete_user: false, username, phase: PhaseView::Finished },
            seq![Step::CreateToken, Step::EnrolImage],
        ),
{
    let first = start(config, false, username).0;
    let e1 = fine(token.0, token.1);
    let e2 = EventView::Image { content: image };
    let e3 = fine(upload.0, upload.1);
    let none = Seq::<EventView>::empty();
    run_one_more(first, none, e1);
    run_one_more(first, none.push(e1), e2);
    run_one_more(first, none.push(e1).push(e2), e3);
    assert(seq![e1, e2, e3] =~= none.push(e1).push(e2).push(e3));
}

/// With the deletion flag, a run in which every request is answered with
/// success, the token and the access token are there, the access token can
/// stand in a header and the photo can be read makes exactly four calls, in
/// this order: token, image, access token, deletion. Then it finishes.
pub proof fn enrolment_with_deletion_makes_four_calls(
    config: SettingsView,
    username: Seq<char>,
    token: (u16, Seq<u8>),
    image: Seq<u8>,
    upload: (u16, Seq<u8>),
    access: (u16, Seq<u8>),
    deletion: (u16, Seq<u8>),
)
    requires
        200 <= token.0 <= 299,
        json_string_member(token.1, "token"@) is Some,
        200 <= upload.0 <= 299,
        200 <= access.0 <= 299,
        json_string_member(access.1, "access_token"@) matches Some(access_token) && header_text(
            bearer_header(access_token),
        ),
        200 <= deletion.0 <= 299,
    ensures
        enrolment(
            config,
            true,
            username,
            seq![
                fine(token.0, token.1),
                EventView::Image { content: image },
                fine(upload.0, upload.1),
                fine(access.0, access.1),
                fine(deletion.0, deletion.1),
            ],
        ) == (
            SessionView { config, delete_user: true, username, phase: PhaseView::Finished },
            seq![Step::CreateToken, Step::EnrolImage, Step::GenerateAccessToken, Step::DeleteUser],
        ),
{
    let first = start(config, true, username).0;
    let e1 = fine(token.0, token.1);
    let e2 = EventView::Image { content: image };
    let e3 = fine(upload.0, upload.1);
    let e4 = fine(access.0, access.1);
    let e5 = fine(deletion.0, deletion.1);
    let none = Seq::<EventView>::empty();
    run_one_more(first, none, e1);
    run_one_more(first, none.push(e1), e2);
    run_one_more(first, none.push(e1).push(e2), e3);
    run_one_more(first, none.push(e1).push(e2).push(e3), e4);
    run_one_more(first, none.push(e1).push(e2).push(e3).push(e4), e5);
    assert(seq![e1, e2, e3, e4, e5] =~= none.push(e1).push(e2).push(e3).push(e4).push(e5));
}

/// A move tells the process to leave exactly when it ends the run: with
/// zero where the run finished, with another code where it failed. No move
/// changes the settings, the flag or the user of a run.
pub proof fn exit_comes_with_the_end(s: SessionView, digest: DigestView)
    ensures
        ({
            let (after, outcome) = transition(s, digest);
            &&& outcome.action is Exit <==> after.phase is Finished || after.phase is Failed
            &&& after.phase is Finished ==> outcome.action == ActionView::Exit { code: 0 }
            &&& after.phase is Failed ==> outcome.action->Exit_code != 0
            &&& after.config == s.config
            &&& after.delete_user == s.delete_user
            &&& after.username == s.username
        }),
{
}

/// A run ends with the settings, the flag and the user that it began with,
/// whatever is reported to it on the way: one name serves the whole run.
pub proof fn run_keeps_its_user(
    config: SettingsView,
    delete_user: bool,
    username: Seq<char>,
    events: Seq<EventView>,
)
    ensures
        enrolment(config, delete_user, username, events).0.config == config,
        enrolment(config, delete_user, username, events).0.delete_user == delete_user,
        enrolment(config, delete_user, username, events).0.username == username,
    decreases events.len(),
{
    if events.len() > 0 {
        run_keeps_its_user(config, delete_user, username, events.drop_last());
        let first = start(config, delete_user, username).0;
        let before = run(first, events.drop_last()).0;
        exit_comes_with_the_end(before, digest_of(before.phase, events.last()));
    }
}

/// A move that fails a run logs the error as its last line, at the level of
/// errors.
pub proof fn every_failure_is_logged(s: SessionView, digest: DigestView)
    requires
        !(s.phase is Finished || s.phase is Failed),
    ensures
        ({
            let (after, outcome) = transition(s, digest);
            after.phase matches PhaseView::Failed { error } ==> outcome.lines.len() > 0
                && outcome.lines.last() == line(Level::Error, message_of(error))
        }),
{
}

/// A run that is over stays as it is and asks for no call, whatever is
/// reported to it.
pub proof fn nothing_follows_the_end(s: SessionView, events: Seq<EventView>)
    requires
        s.phase is Finished || s.phase is Failed,
    ensures
        run(s, events) == (s, Seq::<Step>::empty()),
    decreases events.len(),
{
    if events.len() > 0 {
        nothing_follows_the_end(s, events.drop_last());
    }
}

/// A response whose status is not a success, be it 4xx, 5xx or any other,
/// fails the run at whichever step it comes: the process is told to leave
/// with a code that is not zero, and no call follows, whatever is reported
/// later.
pub proof fn failing_status_ends_the_run(
    s: SessionView,
    status: u16,
    body: Seq<u8>,
    later: Seq<EventView>,
)
    requires
        s.phase is Awaiting,
        !(200 <= status <= 299),
    ensures
        ({
            let (failed, outcome) = step_on(s, EventView::Response { status, body });
            &&& failed.phase is Failed
            &&& outcome.action matches ActionView::Exit { code }
            &&& code != 0
            &&& run(failed, later) == (failed, Seq::<Step>::empty())
        }),
{
    let (failed, outcome) = step_on(s, EventView::Response { status, body });
    nothing_follows_the_end(failed, later);
}

/// A successful response that lacks the string member its step reads, the
/// token or the access token, fails the run: the process is told to leave
/// with a code that is not zero, and no call follows.
pub proof fn missing_field_ends_the_run(
    s: SessionView,
    status: u16,
    body: Seq<u8>,
    later: Seq<EventView>,
)
    requires
        s.phase matches PhaseView::Awaiting { step } && awaited_field_of(step) matches Some(name)
            && json_string_member(body, name) is None,
        200 <= status <= 299,
    ensures
        ({
            let (failed, outcome) = step_on(s, EventView::Response { status, body });
            &&& failed.phase == (PhaseView::Failed {
                error: EnrolErrorView::MissingField { step: s.phase->Awaiting_step },
            })
            &&& outcome.action matches ActionView::Exit { code }
            &&& code != 0
            &&& run(failed, later) == (failed, Seq::<Step>::empty())
        }),
{
    let (failed, outcome) = step_on(s, EventView::Response { status, body });
    nothing_follows_the_end(failed, later);
}

} // verus!
