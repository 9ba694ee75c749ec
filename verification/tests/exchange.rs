use oneview_alerts::reply::{alerts_outcome, body_counts, describe_status, login_outcome};
use oneview_alerts::request::{alerts_request, login_request, logout_request};
use oneview_alerts::{
    AlertResource, AlertResourceCollection, CheckError, Event, Exchange, Method, NagiosState, Probe,
    Request, Stage, Status, Step,
};

fn alerts(severities: &[&str]) -> AlertResourceCollection {
    AlertResourceCollection {
        count: severities.len() as u64,
        members: severities
            .iter()
            .map(|s| AlertResource { severity: s.to_string() })
            .collect(),
    }
}

fn logged_in(host: &str, token: &str) -> Probe {
    let (probe, _) = Probe::start(host, "admin", "secret");
    match probe.step(Event::LoginAnswered { status: 200, session_id: Some(token.as_bytes().to_vec()) }) {
        Step::Next(probe, _) => probe,
        Step::Done(outcome) => panic!("the login ended the check: {:?}", outcome),
    }
}

#[test]
fn login_request_names_user_and_password() {
    assert_eq!(
        login_request("oneview.example.com", "admin", "secret"),
        Request {
            exchange: Exchange::Login,
            method: Method::Post,
            url: "https://oneview.example.com/rest/login-sessions".to_string(),
            body: "{\"password\":\"secret\",\"userName\":\"admin\"}".to_string(),
        }
    );
}

#[test]
fn login_body_is_escaped_as_json() {
    let request = login_request("h", "a\"b", "back\\slash\nline");
    assert_eq!(
        request.body,
        "{\"password\":\"back\\\\slash\\nline\",\"userName\":\"a\\\"b\"}"
    );
}

#[test]
fn alerts_request_carries_the_token_in_the_body() {
    assert_eq!(
        alerts_request("10.0.0.1", "LTIxNjUz"),
        Request {
            exchange: Exchange::Alerts,
            method: Method::Get,
            url: "https://10.0.0.1/rest/alerts?filter=%%22alertState<>%%27Cleared%%27%%22"
                .to_string(),
            body: "{\"Auth\":\"LTIxNjUz\"}".to_string(),
        }
    );
}

#[test]
fn logout_request_deletes_the_session() {
    assert_eq!(
        logout_request("10.0.0.1", "LTIxNjUz"),
        Request {
            exchange: Exchange::Logout,
            method: Method::Delete,
            url: "https://10.0.0.1/rest/login-sessions".to_string(),
            body: "{\"Auth\":\"LTIxNjUz\"}".to_string(),
        }
    );
}

#[test]
fn failure_status_is_told_by_its_reason() {
    assert_eq!(describe_status(404), "Not Found");
    assert_eq!(describe_status(401), "Unauthorized");
    assert_eq!(describe_status(500), "Internal Server Error");
    assert_eq!(describe_status(200), "OK");
    assert_eq!(describe_status(418), "I'm a teapot");
}

#[test]
fn status_without_reason_has_the_fallback() {
    assert_eq!(describe_status(299), "unknown HTTP status");
    assert_eq!(describe_status(799), "unknown HTTP status");
    assert_eq!(describe_status(0), "unknown HTTP status");
    assert_eq!(describe_status(99), "unknown HTTP status");
    assert_eq!(describe_status(1000), "unknown HTTP status");
    assert_eq!(describe_status(u16::MAX), "unknown HTTP status");
}

#[test]
fn login_with_token_gives_the_token() {
    assert_eq!(login_outcome(200, Some(b"LTIxNjUz".to_vec())), Ok("LTIxNjUz".to_string()));
    assert_eq!(login_outcome(204, Some(b"t".to_vec())), Ok("t".to_string()));
    assert_eq!(login_outcome(299, Some(vec![])), Ok(String::new()));
}

#[test]
fn login_with_status_200_but_no_token_fails() {
    assert_eq!(login_outcome(200, None), Err(CheckError::Authentication));
}

#[test]
fn login_with_failure_status_is_a_transport_failure() {
    assert_eq!(login_outcome(401, None), Err(CheckError::Transport("Unauthorized".to_string())));
    assert_eq!(
        login_outcome(503, Some(b"token".to_vec())),
        Err(CheckError::Transport("Service Unavailable".to_string()))
    );
    assert_eq!(login_outcome(199, None), Err(CheckError::Transport("unknown HTTP status".to_string())));
    assert_eq!(login_outcome(300, None), Err(CheckError::Transport("Multiple Choices".to_string())));
}

#[test]
fn session_token_is_decoded_as_utf8() {
    assert_eq!(
        login_outcome(200, Some(vec![0x74, 0xC3, 0xA9, 0xE2, 0x82, 0xAC])),
        Ok("t\u{e9}\u{20ac}".to_string())
    );
    assert_eq!(login_outcome(200, Some(vec![0x74, 0xFF])), Err(CheckError::TokenEncoding));
    assert_eq!(login_outcome(200, Some(vec![0xC3])), Err(CheckError::TokenEncoding));
    assert_eq!(login_outcome(200, Some(vec![0xED, 0xA0, 0x80])), Err(CheckError::TokenEncoding));
}

#[test]
fn alerts_are_taken_under_every_status_of_success() {
    assert_eq!(alerts_outcome(200, Ok(alerts(&["ok"]))), Ok(alerts(&["ok"])));
    assert_eq!(alerts_outcome(203, Ok(alerts(&["critical", "ok"]))), Ok(alerts(&["critical", "ok"])));
    assert_eq!(alerts_outcome(201, Ok(alerts(&[]))), Ok(alerts(&[])));
    assert_eq!(alerts_outcome(299, Ok(alerts(&["warning"]))), Ok(alerts(&["warning"])));
}

#[test]
fn alerts_are_not_taken_under_a_failure_status() {
    assert_eq!(
        alerts_outcome(404, Ok(alerts(&["ok"]))),
        Err(CheckError::Http("Not Found".to_string()))
    );
    assert_eq!(
        alerts_outcome(199, Ok(alerts(&["ok"]))),
        Err(CheckError::Http("unknown HTTP status".to_string()))
    );
    assert_eq!(
        alerts_outcome(300, Ok(alerts(&["ok"]))),
        Err(CheckError::Http("Multiple Choices".to_string()))
    );
    assert_eq!(
        alerts_outcome(599, Err("not read".to_string())),
        Err(CheckError::Http("unknown HTTP status".to_string()))
    );
}

#[test]
fn body_counts_under_success_only() {
    assert!(body_counts(200));
    assert!(body_counts(201));
    assert!(body_counts(204));
    assert!(body_counts(299));
    assert!(!body_counts(199));
    assert!(!body_counts(300));
    assert!(!body_counts(404));
    assert!(!body_counts(0));
}

#[test]
fn body_without_alerts_is_a_parse_failure_under_success() {
    assert_eq!(
        alerts_outcome(203, Err("missing field `count`".to_string())),
        Err(CheckError::Parse("missing field `count`".to_string()))
    );
}

#[test]
fn body_without_alerts_is_a_parse_failure() {
    assert_eq!(
        alerts_outcome(200, Err("missing field `members`".to_string())),
        Err(CheckError::Parse("missing field `members`".to_string()))
    );
}

#[test]
fn check_begins_with_the_login() {
    let (probe, request) = Probe::start("oneview.example.com", "admin", "secret");
    assert_eq!(probe, Probe { host: "oneview.example.com".to_string(), stage: Stage::Login });
    assert_eq!(request, login_request("oneview.example.com", "admin", "secret"));
}

#[test]
fn whole_check_runs_login_alerts_logout() {
    let (probe, _) = Probe::start("oneview.example.com", "admin", "secret");
    let probe = match probe.step(Event::LoginAnswered {
        status: 200,
        session_id: Some(b"LTIxNjUz".to_vec()),
    }) {
        Step::Next(probe, request) => {
            assert_eq!(request, alerts_request("oneview.example.com", "LTIxNjUz"));
            assert_eq!(probe.stage, Stage::Alerts { token: "LTIxNjUz".to_string() });
            probe
        }
        Step::Done(outcome) => panic!("ended after the login: {:?}", outcome),
    };
    let probe = match probe.step(Event::AlertsAnswered {
        status: 200,
        body: Ok(alerts(&["critical", "ok", "warning", "critical", "ok"])),
    }) {
        Step::Next(probe, request) => {
            assert_eq!(request, logout_request("oneview.example.com", "LTIxNjUz"));
            probe
        }
        Step::Done(outcome) => panic!("ended without a logout: {:?}", outcome),
    };
    assert_eq!(
        probe.step(Event::LogoutOver),
        Step::Done(Ok(NagiosState {
            status: Status::Critical,
            message: "2 critical alerts found, 1 warning alerts found, 2 harmless alerts found"
                .to_string(),
        }))
    );
}

#[test]
fn refused_login_ends_the_check_without_asking_for_alerts() {
    let (probe, _) = Probe::start("oneview.example.com", "admin", "wrong");
    assert_eq!(
        probe.step(Event::LoginAnswered { status: 200, session_id: None }),
        Step::Done(Err(CheckError::Authentication))
    );
}

#[test]
fn unreachable_service_ends_the_check_at_the_login() {
    let (probe, _) = Probe::start("oneview.example.com", "admin", "secret");
    assert_eq!(
        probe.step(Event::Failed("connection refused".to_string())),
        Step::Done(Err(CheckError::Transport("connection refused".to_string())))
    );
    let (probe, _) = Probe::start("oneview.example.com", "admin", "secret");
    assert_eq!(
        probe.step(Event::LoginAnswered { status: 502, session_id: None }),
        Step::Done(Err(CheckError::Transport("Bad Gateway".to_string())))
    );
    let (probe, _) = Probe::start("oneview.example.com", "admin", "secret");
    assert_eq!(
        probe.step(Event::LoginAnswered { status: 200, session_id: Some(vec![0x80]) }),
        Step::Done(Err(CheckError::TokenEncoding))
    );
}

#[test]
fn session_is_closed_after_a_failed_query() {
    for (event, error) in [
        (
            Event::Failed("timed out".to_string()),
            CheckError::Transport("timed out".to_string()),
        ),
        (
            Event::AlertsAnswered { status: 503, body: Err(String::new()) },
            CheckError::Http("Service Unavailable".to_string()),
        ),
        (
            Event::AlertsAnswered { status: 200, body: Err("EOF while parsing".to_string()) },
            CheckError::Parse("EOF while parsing".to_string()),
        ),
        (
            Event::AlertsAnswered { status: 200, body: Ok(alerts(&["ok", "weird"])) },
            CheckError::Invariant("weird".to_string()),
        ),
    ] {
        match logged_in("h", "tok").step(event) {
            Step::Next(probe, request) => {
                assert_eq!(request, logout_request("h", "tok"));
                assert_eq!(probe.step(Event::LogoutOver), Step::Done(Err(error)));
            }
            Step::Done(outcome) => panic!("ended without a logout: {:?}", outcome),
        }
    }
}

#[test]
fn outcome_of_the_logout_changes_nothing() {
    let settled = NagiosState { status: Status::Okay, message: "No uncleared alerts found".to_string() };
    for event in [
        Event::LogoutOver,
        Event::Failed("connection reset".to_string()),
        Event::LoginAnswered { status: 500, session_id: None },
        Event::AlertsAnswered { status: 404, body: Err(String::new()) },
    ] {
        let probe = match logged_in("h", "tok").step(Event::AlertsAnswered { status: 200, body: Ok(alerts(&[])) }) {
            Step::Next(probe, _) => probe,
            Step::Done(outcome) => panic!("ended without a logout: {:?}", outcome),
        };
        assert_eq!(probe.step(event), Step::Done(Ok(settled.clone())));
    }
}

#[test]
fn misplaced_answer_counts_as_no_answer() {
    let (probe, _) = Probe::start("h", "admin", "secret");
    assert_eq!(
        probe.step(Event::AlertsAnswered { status: 200, body: Ok(alerts(&["ok"])) }),
        Step::Done(Err(CheckError::Transport(
            "the answer does not belong to the request".to_string()
        )))
    );
    let (probe, _) = Probe::start("h", "admin", "secret");
    assert_eq!(
        probe.step(Event::LogoutOver),
        Step::Done(Err(CheckError::Transport(
            "the answer does not belong to the request".to_string()
        )))
    );
    match logged_in("h", "tok").step(Event::LoginAnswered { status: 200, session_id: None }) {
        Step::Next(probe, request) => {
            assert_eq!(request, logout_request("h", "tok"));
            assert_eq!(
                probe.step(Event::LogoutOver),
                Step::Done(Err(CheckError::Transport(
                    "the answer does not belong to the request".to_string()
                )))
            );
        }
        Step::Done(outcome) => panic!("ended without a logout: {:?}", outcome),
    }
}

#[test]
fn alerts_under_another_status_of_success_are_judged() {
    let probe = match logged_in("h", "tok").step(Event::AlertsAnswered {
        status: 203,
        body: Ok(alerts(&["warning", "ok"])),
    }) {
        Step::Next(probe, request) => {
            assert_eq!(request, logout_request("h", "tok"));
            probe
        }
        Step::Done(outcome) => panic!("ended without a logout: {:?}", outcome),
    };
    assert_eq!(
        probe.step(Event::LogoutOver),
        Step::Done(Ok(NagiosState {
            status: Status::Warning,
            message: "1 warning alerts found, 1 harmless alerts found".to_string(),
        }))
    );
}
