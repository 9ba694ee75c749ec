use oneview_alerts::alerts::{count_severities, SeverityCounts};
use oneview_alerts::decimal::decimal_string;
use oneview_alerts::severity::Severity;
use oneview_alerts::verdict::join_strings;
use oneview_alerts::{check_alerts, AlertResource, AlertResourceCollection, CheckError, NagiosState, Status};

fn collection(severities: &[&str]) -> AlertResourceCollection {
    AlertResourceCollection {
        count: severities.len() as u64,
        members: severities
            .iter()
            .map(|s| AlertResource { severity: s.to_string() })
            .collect(),
    }
}

fn verdict(status: Status, message: &str) -> Result<NagiosState, CheckError> {
    Ok(NagiosState { status, message: message.to_string() })
}

#[test]
fn no_alerts_is_okay_with_fixed_message() {
    assert_eq!(
        check_alerts(&collection(&[])),
        verdict(Status::Okay, "No uncleared alerts found")
    );
}

#[test]
fn members_decide_where_count_disagrees() {
    let claims_five = AlertResourceCollection { count: 5, members: vec![] };
    assert_eq!(
        check_alerts(&claims_five),
        verdict(Status::Okay, "No uncleared alerts found")
    );
    let claims_none = AlertResourceCollection {
        count: 0,
        members: vec![AlertResource { severity: "Critical".to_string() }],
    };
    assert_eq!(
        check_alerts(&claims_none),
        verdict(Status::Critical, "1 critical alerts found, 0 harmless alerts found")
    );
}

#[test]
fn mixed_alerts_give_all_three_clauses() {
    let alerts = collection(&["critical", "ok", "warning", "critical", "ok"]);
    assert_eq!(
        check_alerts(&alerts),
        verdict(
            Status::Critical,
            "2 critical alerts found, 1 warning alerts found, 2 harmless alerts found"
        )
    );
}

#[test]
fn critical_alerts_decide_the_status() {
    let alerts = collection(&["ok", "critical", "ok", "ok"]);
    let state = check_alerts(&alerts).unwrap();
    assert_eq!(state.status, Status::Critical);
    assert!(state.message.starts_with("1 critical alerts found"));
    assert_eq!(state.message, "1 critical alerts found, 3 harmless alerts found");
}

#[test]
fn warnings_decide_without_critical_alerts() {
    let alerts = collection(&["warning", "ok", "warning"]);
    let state = check_alerts(&alerts).unwrap();
    assert_eq!(state.status, Status::Warning);
    assert!(state.message.starts_with("2 warning alerts found"));
    assert_eq!(state.message, "2 warning alerts found, 1 harmless alerts found");
}

#[test]
fn harmless_alerts_alone_are_okay() {
    assert_eq!(
        check_alerts(&collection(&["ok", "ok", "ok"])),
        verdict(Status::Okay, "3 harmless alerts found")
    );
}

#[test]
fn harmless_clause_is_told_even_for_zero() {
    assert_eq!(
        check_alerts(&collection(&["warning"])),
        verdict(Status::Warning, "1 warning alerts found, 0 harmless alerts found")
    );
    assert_eq!(
        NagiosState::from_counts(0, 0, 0),
        NagiosState { status: Status::Okay, message: "0 harmless alerts found".to_string() }
    );
}

#[test]
fn order_of_alerts_does_not_matter() {
    let one = check_alerts(&collection(&["ok", "warning", "critical", "ok", "critical"]));
    let other = check_alerts(&collection(&["critical", "critical", "ok", "ok", "warning"]));
    let third = check_alerts(&collection(&["warning", "ok", "critical", "critical", "ok"]));
    assert_eq!(one, other);
    assert_eq!(one, third);
    assert_eq!(
        one,
        verdict(
            Status::Critical,
            "2 critical alerts found, 1 warning alerts found, 2 harmless alerts found"
        )
    );
}

#[test]
fn case_of_severity_does_not_matter() {
    let alerts = collection(&["Critical", "CRITICAL", "critical", "OK", "Ok", "WaRnInG"]);
    assert_eq!(
        check_alerts(&alerts),
        verdict(
            Status::Critical,
            "3 critical alerts found, 1 warning alerts found, 2 harmless alerts found"
        )
    );
    assert_eq!(Severity::parse("Critical"), Some(Severity::Critical));
    assert_eq!(Severity::parse("CRITICAL"), Some(Severity::Critical));
    assert_eq!(Severity::parse("critical"), Some(Severity::Critical));
    assert_eq!(Severity::parse("Warning"), Some(Severity::Warning));
    assert_eq!(Severity::parse("OK"), Some(Severity::Okay));
}

#[test]
fn lowercase_form_is_the_unicode_one() {
    // U+212A, the Kelvin sign, has the letter k as its lowercase form.
    assert_eq!(Severity::parse("O\u{212A}"), Some(Severity::Okay));
    assert_eq!(Severity::parse("ok "), None);
    assert_eq!(Severity::parse(""), None);
}

#[test]
fn lowercase_reader_takes_no_capitals() {
    assert_eq!(Severity::from_lowercase("ok"), Some(Severity::Okay));
    assert_eq!(Severity::from_lowercase("warning"), Some(Severity::Warning));
    assert_eq!(Severity::from_lowercase("critical"), Some(Severity::Critical));
    assert_eq!(Severity::from_lowercase("OK"), None);
    assert_eq!(Severity::from_lowercase("Critical"), None);
    assert_eq!(Severity::from_lowercase("unknown"), None);
}

#[test]
fn unknown_severity_fails_the_check() {
    let alerts = collection(&["ok", "weird", "critical"]);
    let outcome = check_alerts(&alerts);
    assert_eq!(outcome, Err(CheckError::Invariant("weird".to_string())));
    assert_eq!(outcome.unwrap_err().message(), "unknown alert severity: weird");
}

#[test]
fn first_unknown_severity_is_the_one_reported() {
    let alerts = collection(&["critical", "Weird", "odd", "ok"]);
    assert_eq!(
        check_alerts(&alerts),
        Err(CheckError::Invariant("Weird".to_string()))
    );
}

#[test]
fn severities_are_counted_by_tier() {
    let alerts = collection(&["ok", "Warning", "warning", "CRITICAL", "ok", "ok"]);
    assert_eq!(
        count_severities(&alerts.members),
        Ok(SeverityCounts { critical: 1, warning: 2, harmless: 3 })
    );
    assert_eq!(
        count_severities(&collection(&[]).members),
        Ok(SeverityCounts { critical: 0, warning: 0, harmless: 0 })
    );
    assert_eq!(
        count_severities(&collection(&["info"]).members),
        Err(CheckError::Invariant("info".to_string()))
    );
}

#[test]
fn emptiness_goes_by_the_members() {
    assert!(collection(&[]).is_empty());
    assert!(!collection(&["ok"]).is_empty());
    assert!(AlertResourceCollection { count: 3, members: vec![] }.is_empty());
}

#[test]
fn status_follows_the_worst_tier() {
    assert_eq!(NagiosState::from_counts(1, 0, 0).status, Status::Critical);
    assert_eq!(NagiosState::from_counts(1, 5, 9).status, Status::Critical);
    assert_eq!(NagiosState::from_counts(0, 1, 0).status, Status::Warning);
    assert_eq!(NagiosState::from_counts(0, 4, 9).status, Status::Warning);
    assert_eq!(NagiosState::from_counts(0, 0, 9).status, Status::Okay);
}

#[test]
fn message_is_made_of_the_counts() {
    assert_eq!(
        NagiosState::from_counts(12, 0, 7).message,
        "12 critical alerts found, 7 harmless alerts found"
    );
    assert_eq!(
        NagiosState::from_counts(0, 100, 0).message,
        "100 warning alerts found, 0 harmless alerts found"
    );
    assert_eq!(
        NagiosState::from_counts(u64::MAX, 1, 10).message,
        "18446744073709551615 critical alerts found, 1 warning alerts found, 10 harmless alerts found"
    );
    assert_eq!(
        NagiosState::without_alerts(),
        NagiosState { status: Status::Okay, message: "No uncleared alerts found".to_string() }
    );
}

#[test]
fn no_verdict_is_unknown() {
    for alerts in [
        collection(&[]),
        collection(&["ok"]),
        collection(&["warning"]),
        collection(&["critical"]),
    ] {
        assert_ne!(check_alerts(&alerts).unwrap().status, Status::Unknown);
    }
}

#[test]
fn decimal_notation_of_numbers() {
    assert_eq!(decimal_string(0), "0");
    assert_eq!(decimal_string(7), "7");
    assert_eq!(decimal_string(9), "9");
    assert_eq!(decimal_string(10), "10");
    assert_eq!(decimal_string(101), "101");
    assert_eq!(decimal_string(1234567890), "1234567890");
    assert_eq!(decimal_string(u64::MAX), "18446744073709551615");
}

#[test]
fn parts_are_joined_with_the_separator_between() {
    let none: Vec<String> = vec![];
    assert_eq!(join_strings(&none, ", "), "");
    assert_eq!(join_strings(&vec!["a".to_string()], ", "), "a");
    assert_eq!(
        join_strings(&vec!["a".to_string(), "b".to_string(), "c".to_string()], ", "),
        "a, b, c"
    );
    assert_eq!(join_strings(&vec!["".to_string(), "".to_string()], "-"), "-");
}

#[test]
fn every_failure_has_its_message() {
    assert_eq!(CheckError::Config("bad PEM".to_string()).message(), "bad PEM");
    assert_eq!(CheckError::Transport("connection refused".to_string()).message(), "connection refused");
    assert_eq!(CheckError::Authentication.message(), "login failed");
    assert_eq!(CheckError::TokenEncoding.message(), "session token is not valid UTF-8");
    assert_eq!(CheckError::Http("Not Found".to_string()).message(), "Not Found");
    assert_eq!(CheckError::Parse("missing field `count`".to_string()).message(), "missing field `count`");
    assert_eq!(CheckError::Invariant("Fatal".to_string()).message(), "unknown alert severity: Fatal");
}
