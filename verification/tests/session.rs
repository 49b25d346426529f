use rust_enrol::config::{Args, Settings};
use rust_enrol::error::EnrolError;
use rust_enrol::journal::{Level, LogLine};
use rust_enrol::request::{
    create_access_token, create_token, delete_user, send_photo, Auth, Part, Payload, Request,
};
use rust_enrol::response::Reply;
use rust_enrol::session::{photo_enrol, Action, Digest, Event, Outcome, Phase, Session};
use rust_enrol::status::StatusCode;
use rust_enrol::step::Step;

fn settings() -> Settings {
    Settings {
        region: "eu".to_string(),
        img_src: "oid".to_string(),
        img_path: "/tmp/face.jpg".to_string(),
        sp_key: "key".to_string(),
        sp_secret: "secret".to_string(),
        oa_username: "oa-user".to_string(),
        oa_pw: "oa-pw".to_string(),
    }
}

fn response(code: u16, body: &str) -> Event {
    Event::Response { status: StatusCode::from_u16(code).unwrap(), body: body.as_bytes().to_vec() }
}

fn dummy_image() -> Vec<u8> {
    vec![0xff, 0xd8, 0xff, 0xe0, 0, 1, 2, 3, 0xff, 0xd9]
}

fn info(text: &str) -> LogLine {
    LogLine { level: Level::Info, text: text.to_string() }
}

fn debug(text: &str) -> LogLine {
    LogLine { level: Level::Debug, text: text.to_string() }
}

fn error(text: &str) -> LogLine {
    LogLine { level: Level::Error, text: text.to_string() }
}

fn sent(outcome: &Outcome) -> (Step, Request) {
    match &outcome.action {
        Action::Send { step, request } => (*step, request.clone()),
        other => panic!("no request: {:?}", other),
    }
}

/// Plays the service: answers every request with the status and body that
/// `answer` gives for its step, and reads the dummy image when asked.
/// Returns the steps that were called, every line logged and the exit code.
fn play(delete: bool, answer: fn(Step) -> (u16, &'static str)) -> (Vec<Step>, Vec<LogLine>, i32) {
    let (mut session, mut outcome) = Session::begin(settings(), delete, "calm_blue_cat".to_string());
    let mut calls: Vec<Step> = Vec::new();
    let mut lines: Vec<LogLine> = Vec::new();
    for _ in 0..32 {
        lines.extend(outcome.lines.iter().cloned());
        let event = match &outcome.action {
            Action::Send { step, .. } => {
                calls.push(*step);
                let (code, body) = answer(*step);
                response(code, body)
            }
            Action::ReadImage { path } => {
                assert_eq!(path, "/tmp/face.jpg");
                Event::Image { content: dummy_image() }
            }
            Action::Exit { code } => return (calls, lines, *code),
        };
        outcome = session.advance(event);
    }
    panic!("the run does not end");
}

fn all_fine(step: Step) -> (u16, &'static str) {
    match step {
        Step::CreateToken => (200, "{\"token\":\"abc\"}"),
        Step::EnrolImage => (200, ""),
        Step::GenerateAccessToken => (200, "{\"access_token\":\"xyz\",\"expires_in\":3600}"),
        Step::DeleteUser => (200, ""),
    }
}

#[test]
fn run_begins_with_the_token_request() {
    let (session, outcome) = Session::begin(settings(), false, "calm_blue_cat".to_string());
    assert_eq!(session.phase, Phase::Awaiting { step: Step::CreateToken });
    assert_eq!(session.username, "calm_blue_cat");
    assert_eq!(session.config, settings());
    assert!(!session.delete_user);
    assert!(!session.is_over());
    assert_eq!(
        outcome.lines,
        vec![debug(
            "getting enrol token, url=https://eu.secure.iproov.me/api/v2/claim/enrol/token"
        )]
    );
    assert_eq!(sent(&outcome), (Step::CreateToken, create_token(&settings(), "calm_blue_cat")));
}

#[test]
fn enrolment_without_deletion_makes_two_calls() {
    let (calls, lines, code) = play(false, all_fine);
    assert_eq!(calls, vec![Step::CreateToken, Step::EnrolImage]);
    assert_eq!(code, 0);
    assert_eq!(
        lines,
        vec![
            debug("getting enrol token, url=https://eu.secure.iproov.me/api/v2/claim/enrol/token"),
            info("create token succeeded"),
            debug(
                "sending image for enrolment, url=https://eu.secure.iproov.me/api/v2/claim/enrol/image"
            ),
            info("enrol image succeeded"),
            info("user 'calm_blue_cat' enrolled"),
        ]
    );
}

#[test]
fn enrolment_with_deletion_makes_four_calls_in_order() {
    let (calls, lines, code) = play(true, all_fine);
    assert_eq!(
        calls,
        vec![Step::CreateToken, Step::EnrolImage, Step::GenerateAccessToken, Step::DeleteUser]
    );
    assert_eq!(code, 0);
    assert_eq!(
        lines,
        vec![
            debug("getting enrol token, url=https://eu.secure.iproov.me/api/v2/claim/enrol/token"),
            info("create token succeeded"),
            debug(
                "sending image for enrolment, url=https://eu.secure.iproov.me/api/v2/claim/enrol/image"
            ),
            info("enrol image succeeded"),
            info("user 'calm_blue_cat' enrolled"),
            debug("getting oauth access token"),
            info("generate access token succeeded"),
            debug("deleting user"),
            info("delete user succeeded"),
            info("user 'calm_blue_cat' deleted"),
        ]
    );
}

#[test]
fn each_request_is_built_from_the_answers_before_it() {
    let (mut session, _) = Session::begin(settings(), true, "calm_blue_cat".to_string());
    let outcome = session.advance(response(200, " { \"token\" : \"abc\" } "));
    assert_eq!(session.phase, Phase::ReadingImage { token: "abc".to_string() });
    assert_eq!(outcome.action, Action::ReadImage { path: "/tmp/face.jpg".to_string() });
    let outcome = session.advance(Event::Image { content: dummy_image() });
    assert_eq!(session.phase, Phase::Awaiting { step: Step::EnrolImage });
    assert_eq!(sent(&outcome), (Step::EnrolImage, send_photo(&settings(), "abc", dummy_image())));
    let outcome = session.advance(response(200, "not even json"));
    assert_eq!(session.phase, Phase::Awaiting { step: Step::GenerateAccessToken });
    assert_eq!(sent(&outcome), (Step::GenerateAccessToken, create_access_token(&settings())));
    let outcome = session.advance(response(200, "{\"access_token\":\"x.y.z\"}"));
    assert_eq!(session.phase, Phase::Awaiting { step: Step::DeleteUser });
    assert_eq!(
        sent(&outcome),
        (Step::DeleteUser, delete_user(&settings(), "x.y.z", "calm_blue_cat").unwrap())
    );
    let outcome = session.advance(response(204, ""));
    assert_eq!(session.phase, Phase::Finished);
    assert!(session.is_over());
    assert_eq!(outcome.action, Action::Exit { code: 0 });
}

#[test]
fn token_from_the_body_reaches_the_form() {
    let (mut session, _) = Session::begin(settings(), false, "u".to_string());
    session.advance(response(200, "{\"other\":1,\"token\":\"t\\u00e9-\\\"q\\\"\"}"));
    let outcome = session.advance(Event::Image { content: Vec::new() });
    let (_, request) = sent(&outcome);
    match request.payload {
        Payload::Multipart { parts } => assert_eq!(
            parts[4],
            Part::Text { name: "token".to_string(), value: "t\u{e9}-\"q\"".to_string() }
        ),
        other => panic!("not a multipart form: {:?}", other),
    }
}

#[test]
fn dummy_image_scenario_enrols_the_user() {
    let (mut session, first) = photo_enrol(&Args { delete_user: false }, settings());
    let username = session.username.clone();
    assert_eq!(sent(&first).0, Step::CreateToken);
    let outcome = session.advance(response(200, "{\"token\":\"abc\"}"));
    assert_eq!(outcome.action, Action::ReadImage { path: "/tmp/face.jpg".to_string() });
    let image = dummy_image();
    assert_eq!(image.len(), 10);
    let outcome = session.advance(Event::Image { content: image });
    assert_eq!(sent(&outcome).0, Step::EnrolImage);
    let outcome = session.advance(response(200, ""));
    assert_eq!(outcome.action, Action::Exit { code: 0 });
    assert_eq!(
        outcome.lines,
        vec![info("enrol image succeeded"), info(&format!("user '{}' enrolled", username))]
    );
    assert!(outcome.lines[1].text.contains("enrolled"));
    assert!(outcome.lines[1].text.contains(&username));
    assert_eq!(session.phase, Phase::Finished);
}

fn image_forbidden(step: Step) -> (u16, &'static str) {
    match step {
        Step::EnrolImage => (403, "{\"error\":\"forbidden\"}"),
        other => all_fine(other),
    }
}

#[test]
fn forbidden_image_scenario_stops_before_deletion() {
    let (calls, lines, code) = play(true, image_forbidden);
    assert_eq!(calls, vec![Step::CreateToken, Step::EnrolImage]);
    assert_eq!(code, 1);
    let last = lines.last().unwrap();
    assert_eq!(last.level, Level::Error);
    assert!(last.text.contains("403"));
    assert!(last.text.contains("forbidden"));
    assert_eq!(
        last.text,
        "Client Error during \"enrol image\": <403 Forbidden, {\"error\":\"forbidden\"}>"
    );
    assert!(!lines.iter().any(|line| line.text.contains("enrolled")));
    let (calls, _, code) = play(false, image_forbidden);
    assert_eq!(calls, vec![Step::CreateToken, Step::EnrolImage]);
    assert_eq!(code, 1);
}

fn token_step_down(step: Step) -> (u16, &'static str) {
    match step {
        Step::CreateToken => (503, "{\"error\":\"down\"}"),
        other => all_fine(other),
    }
}

fn access_token_denied(step: Step) -> (u16, &'static str) {
    match step {
        Step::GenerateAccessToken => (401, "{\"error\":\"invalid_client\"}"),
        other => all_fine(other),
    }
}

fn deletion_fails(step: Step) -> (u16, &'static str) {
    match step {
        Step::DeleteUser => (500, "{\"error\":\"oops\"}"),
        other => all_fine(other),
    }
}

#[test]
fn error_status_stops_the_run_at_every_step() {
    let (calls, lines, code) = play(true, token_step_down);
    assert_eq!(calls, vec![Step::CreateToken]);
    assert_eq!(code, 1);
    assert_eq!(
        lines.last().unwrap(),
        &error("Server Error during \"create token\": <503 Service Unavailable, {\"error\":\"down\"}>")
    );

    let (calls, lines, code) = play(true, access_token_denied);
    assert_eq!(calls, vec![Step::CreateToken, Step::EnrolImage, Step::GenerateAccessToken]);
    assert_eq!(code, 1);
    assert_eq!(
        lines.last().unwrap(),
        &error(
            "Client Error during \"generate access token\": <401 Unauthorized, {\"error\":\"invalid_client\"}>"
        )
    );

    let (calls, lines, code) = play(true, deletion_fails);
    assert_eq!(
        calls,
        vec![Step::CreateToken, Step::EnrolImage, Step::GenerateAccessToken, Step::DeleteUser]
    );
    assert_eq!(code, 1);
    assert_eq!(
        lines.last().unwrap(),
        &error("Server Error during \"delete user\": <500 Internal Server Error, {\"error\":\"oops\"}>")
    );
    assert!(!lines.iter().any(|line| line.text.contains("deleted")));
}

#[test]
fn error_body_is_logged_in_compact_form() {
    let (mut session, _) = Session::begin(settings(), false, "u".to_string());
    let outcome = session.advance(response(404, "{ \"b\" : [1, 2 ],\n \"a\" : null }"));
    assert_eq!(
        outcome.lines,
        vec![error("Client Error during \"create token\": <404 Not Found, {\"a\":null,\"b\":[1,2]}>")]
    );
    assert_eq!(outcome.action, Action::Exit { code: 1 });
    assert!(session.is_over());
}

#[test]
fn error_status_with_a_body_that_is_not_json_fails_too() {
    let (mut session, _) = Session::begin(settings(), false, "u".to_string());
    let outcome = session.advance(response(503, "<html>Service Unavailable</html>"));
    assert_eq!(
        session.phase,
        Phase::Failed {
            error: EnrolError::UndecodableBody {
                step: Step::CreateToken,
                status: StatusCode::from_u16(503).unwrap(),
                reason: Some("Service Unavailable".to_string()),
            },
        }
    );
    assert_eq!(
        outcome.lines,
        vec![error("Server Error during \"create token\": <503 Service Unavailable, body is not JSON>")]
    );
    assert_eq!(outcome.action, Action::Exit { code: 1 });
}

#[test]
fn redirect_stops_the_run() {
    let (mut session, _) = Session::begin(settings(), true, "u".to_string());
    let outcome = session.advance(response(301, "{}"));
    assert_eq!(
        outcome.lines,
        vec![error("Unknown Error during \"create token\": <301 Moved Permanently, {}>")]
    );
    assert_eq!(outcome.action, Action::Exit { code: 1 });
}

fn token_missing(step: Step) -> (u16, &'static str) {
    match step {
        Step::CreateToken => (200, "{\"tokens\":\"abc\"}"),
        other => all_fine(other),
    }
}

fn access_token_missing(step: Step) -> (u16, &'static str) {
    match step {
        Step::GenerateAccessToken => (200, "{\"token\":\"xyz\"}"),
        other => all_fine(other),
    }
}

#[test]
fn missing_token_stops_the_run() {
    let (calls, lines, code) = play(true, token_missing);
    assert_eq!(calls, vec![Step::CreateToken]);
    assert_eq!(code, 1);
    assert_eq!(
        lines,
        vec![
            debug("getting enrol token, url=https://eu.secure.iproov.me/api/v2/claim/enrol/token"),
            info("create token succeeded"),
            error("Payload Error during \"create token\": <no string field \"token\">"),
        ]
    );
}

#[test]
fn missing_access_token_stops_the_run() {
    let (calls, lines, code) = play(true, access_token_missing);
    assert_eq!(calls, vec![Step::CreateToken, Step::EnrolImage, Step::GenerateAccessToken]);
    assert_eq!(code, 1);
    assert_eq!(
        lines.last().unwrap(),
        &error(
            "Payload Error during \"generate access token\": <no string field \"access_token\">"
        )
    );
}

#[test]
fn token_of_another_type_is_missing() {
    for body in ["{\"token\":7}", "{\"token\":null}", "{\"token\":[\"abc\"]}", "[\"token\"]",
        "\"token\"", "", "{\"token\":\"abc\"", "{\"token\":\"abc\"} x"]
    {
        let (mut session, _) = Session::begin(settings(), false, "u".to_string());
        let outcome = session.advance(response(200, body));
        assert_eq!(
            session.phase,
            Phase::Failed { error: EnrolError::MissingField { step: Step::CreateToken } },
            "body {:?}",
            body
        );
        assert_eq!(outcome.action, Action::Exit { code: 1 });
    }
}

#[test]
fn empty_token_is_a_token() {
    let (mut session, _) = Session::begin(settings(), false, "u".to_string());
    session.advance(response(200, "{\"token\":\"\"}"));
    assert_eq!(session.phase, Phase::ReadingImage { token: String::new() });
}

#[test]
fn access_token_that_is_no_header_value_stops_the_run() {
    let (mut session, _) = Session::begin(settings(), true, "u".to_string());
    session.advance(response(200, "{\"token\":\"abc\"}"));
    session.advance(Event::Image { content: dummy_image() });
    session.advance(response(200, ""));
    let outcome = session.advance(response(200, "{\"access_token\":\"x\\ny\"}"));
    assert_eq!(session.phase, Phase::Failed { error: EnrolError::InvalidBearer });
    assert_eq!(
        outcome.lines,
        vec![
            info("generate access token succeeded"),
            debug("deleting user"),
            error("Invalid Access Token: <not a header value>"),
        ]
    );
    assert_eq!(outcome.action, Action::Exit { code: 1 });
}

#[test]
fn transport_failure_stops_the_run() {
    let (mut session, _) = Session::begin(settings(), true, "u".to_string());
    let outcome = session.advance(Event::TransportFailure { detail: "dns error".to_string() });
    assert_eq!(
        session.phase,
        Phase::Failed {
            error: EnrolError::Transport {
                step: Step::CreateToken,
                detail: "dns error".to_string(),
            },
        }
    );
    assert_eq!(
        outcome,
        Outcome {
            lines: vec![error("Transport Error during \"create token\": <dns error>")],
            action: Action::Exit { code: 1 },
        }
    );
}

#[test]
fn unreadable_image_stops_the_run() {
    let (mut session, _) = Session::begin(settings(), true, "u".to_string());
    session.advance(response(200, "{\"token\":\"abc\"}"));
    let outcome = session.advance(Event::ImageUnreadable { detail: "No such file".to_string() });
    assert_eq!(
        outcome,
        Outcome {
            lines: vec![error("Unreadable Image \"/tmp/face.jpg\": <No such file>")],
            action: Action::Exit { code: 1 },
        }
    );
    assert!(session.is_over());
}

#[test]
fn event_out_of_turn_stops_the_run() {
    let (mut session, _) = Session::begin(settings(), false, "u".to_string());
    let outcome = session.advance(Event::Image { content: dummy_image() });
    assert_eq!(session.phase, Phase::Failed { error: EnrolError::OutOfTurn });
    assert_eq!(
        outcome,
        Outcome { lines: vec![error("Unexpected Event")], action: Action::Exit { code: 1 } }
    );

    let (mut session, _) = Session::begin(settings(), false, "u".to_string());
    session.advance(response(200, "{\"token\":\"abc\"}"));
    let outcome = session.advance(response(200, "{}"));
    assert_eq!(session.phase, Phase::Failed { error: EnrolError::OutOfTurn });
    assert_eq!(outcome.action, Action::Exit { code: 1 });
    let outcome = session.advance(Event::ImageUnreadable { detail: String::new() });
    assert_eq!(session.phase, Phase::Failed { error: EnrolError::OutOfTurn });
    assert_eq!(outcome, Outcome { lines: Vec::new(), action: Action::Exit { code: 1 } });
}

#[test]
fn run_that_is_over_stays_over() {
    let (mut session, _) = Session::begin(settings(), false, "u".to_string());
    session.advance(response(200, "{\"token\":\"abc\"}"));
    session.advance(Event::Image { content: dummy_image() });
    session.advance(response(200, ""));
    assert_eq!(session.phase, Phase::Finished);
    let finished = session.clone();
    for event in [
        response(500, "{}"),
        response(200, "{\"token\":\"abc\"}"),
        Event::Image { content: dummy_image() },
        Event::TransportFailure { detail: "late".to_string() },
    ] {
        let outcome = session.advance(event);
        assert_eq!(outcome, Outcome { lines: Vec::new(), action: Action::Exit { code: 0 } });
        assert_eq!(session, finished);
    }

    let (mut session, _) = Session::begin(settings(), true, "u".to_string());
    session.advance(response(400, "{}"));
    let failed = session.clone();
    for event in [response(200, "{\"token\":\"abc\"}"), Event::Image { content: dummy_image() }] {
        let outcome = session.advance(event);
        assert_eq!(outcome, Outcome { lines: Vec::new(), action: Action::Exit { code: 1 } });
        assert_eq!(session, failed);
    }
}

#[test]
fn digest_reads_only_what_the_phase_needs() {
    let (mut session, _) = Session::begin(settings(), true, "u".to_string());
    let ok = StatusCode::from_u16(200).unwrap();
    assert_eq!(
        session.digest(response(200, "{\"token\":\"abc\",\"access_token\":\"xyz\"}")),
        Digest::Reply {
            reply: Reply { status: ok, reason: None, error_body: None, field: Some("abc".to_string()) },
        }
    );
    assert_eq!(
        session.digest(response(403, "{\"token\": \"abc\"}")),
        Digest::Reply {
            reply: Reply {
                status: StatusCode::from_u16(403).unwrap(),
                reason: Some("Forbidden".to_string()),
                error_body: Some("{\"token\":\"abc\"}".to_string()),
                field: None,
            },
        }
    );
    assert_eq!(
        session.digest(Event::TransportFailure { detail: "x".to_string() }),
        Digest::TransportFailure { detail: "x".to_string() }
    );
    session.advance(response(200, "{\"token\":\"abc\"}"));
    assert_eq!(
        session.digest(Event::Image { content: vec![1, 2] }),
        Digest::Image { content: vec![1, 2] }
    );
    assert_eq!(
        session.digest(Event::ImageUnreadable { detail: "x".to_string() }),
        Digest::ImageUnreadable { detail: "x".to_string() }
    );
    session.advance(Event::Image { content: dummy_image() });
    assert_eq!(
        session.digest(response(200, "{\"token\":\"abc\",\"access_token\":\"xyz\"}")),
        Digest::Reply { reply: Reply { status: ok, reason: None, error_body: None, field: None } }
    );
    session.advance(response(200, ""));
    assert_eq!(
        session.digest(response(200, "{\"token\":\"abc\",\"access_token\":\"xyz\"}")),
        Digest::Reply {
            reply: Reply { status: ok, reason: None, error_body: None, field: Some("xyz".to_string()) },
        }
    );
}

#[test]
fn apply_takes_what_was_read() {
    let (mut session, _) = Session::begin(settings(), true, "u".to_string());
    let ok = StatusCode::from_u16(200).unwrap();
    let reply = Reply { status: ok, reason: None, error_body: None, field: Some("abc".to_string()) };
    let outcome = session.apply(Digest::Reply { reply });
    assert_eq!(
        outcome,
        Outcome {
            lines: vec![info("create token succeeded")],
            action: Action::ReadImage { path: "/tmp/face.jpg".to_string() },
        }
    );
    let outcome = session.apply(Digest::Image { content: vec![7] });
    assert_eq!(sent(&outcome), (Step::EnrolImage, send_photo(&settings(), "abc", vec![7])));
    let forbidden = Reply {
        status: StatusCode::from_u16(403).unwrap(),
        reason: Some("Forbidden".to_string()),
        error_body: Some("{\"error\":\"forbidden\"}".to_string()),
        field: None,
    };
    let outcome = session.apply(Digest::Reply { reply: forbidden });
    assert_eq!(
        outcome,
        Outcome {
            lines: vec![error(
                "Client Error during \"enrol image\": <403 Forbidden, {\"error\":\"forbidden\"}>"
            )],
            action: Action::Exit { code: 1 },
        }
    );
}

#[test]
fn usernames_are_new_on_every_run() {
    let (first, _) = photo_enrol(&Args { delete_user: false }, settings());
    let (second, _) = photo_enrol(&Args { delete_user: false }, settings());
    let (third, _) = photo_enrol(&Args { delete_user: true }, settings());
    assert_ne!(first.username, second.username);
    assert_ne!(first.username, third.username);
    assert_ne!(second.username, third.username);
}

#[test]
fn usernames_are_five_readable_words() {
    for _ in 0..50 {
        let (session, outcome) = photo_enrol(&Args { delete_user: true }, settings());
        let words: Vec<&str> = session.username.split('_').collect();
        assert_eq!(words.len(), 5, "{}", session.username);
        for word in words {
            assert!(!word.is_empty());
            assert!(word.chars().all(|c| c.is_ascii_lowercase()), "{}", session.username);
        }
        assert!(session.delete_user);
        assert_eq!(session.phase, Phase::Awaiting { step: Step::CreateToken });
        assert_eq!(sent(&outcome), (Step::CreateToken, create_token(&settings(), &session.username)));
    }
}

#[test]
fn deletion_request_names_the_enrolled_user() {
    let (mut session, _) = photo_enrol(&Args { delete_user: true }, settings());
    let username = session.username.clone();
    session.advance(response(200, "{\"token\":\"abc\"}"));
    session.advance(Event::Image { content: dummy_image() });
    session.advance(response(200, ""));
    let outcome = session.advance(response(200, "{\"access_token\":\"xyz\"}"));
    let (step, request) = sent(&outcome);
    assert_eq!(step, Step::DeleteUser);
    assert_eq!(request.url, format!("https://eu.secure.iproov.me/api/v2/users/{}", username));
    assert_eq!(request.auth, Auth::Bearer { header: "Bearer xyz".to_string() });
    let outcome = session.advance(response(200, ""));
    assert_eq!(
        outcome.lines,
        vec![info("delete user succeeded"), info(&format!("user '{}' deleted", username))]
    );
}

#[test]
fn run_keeps_its_user_to_the_end() {
    let (mut session, _) = photo_enrol(&Args { delete_user: true }, settings());
    let username = session.username.clone();
    session.advance(response(200, "{\"token\":\"abc\"}"));
    assert_eq!(session.username, username);
    session.advance(Event::Image { content: dummy_image() });
    assert_eq!(session.username, username);
    let outcome = session.advance(response(403, "{\"error\":\"forbidden\"}"));
    assert_eq!(outcome.action, Action::Exit { code: 1 });
    assert_eq!(session.username, username);
    assert_eq!(session.config, settings());
    assert!(session.delete_user);
    session.advance(response(200, ""));
    assert_eq!(session.username, username);
}
