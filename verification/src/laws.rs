//! What holds of every check, stated over the crate's spec functions and
//! proved from them.

use crate::alerts::{classify, count_tier, first_unknown};
use crate::client::{
    added_roots, certs_unchecked, default_headers_for, header_value, host_names_unchecked,
    is_set_up, max_idle, native_tls_chosen, settings_of, trust_policy_for, TrustPolicy,
};
use crate::error::CheckErrorView;
use crate::probe::{course, course_from, next, EventView, ProbeView, StageView, StepView};
use crate::reply::is_success;
use crate::request::{login_request_for, logout_request_for, Exchange};
use crate::severity::{lowercase, tier_of, Severity};
use crate::verdict::{
    clauses, critical_clause, harmless_clause, join, message_for, status_for, verdict_for,
    verdict_without_alerts, Status, Verdict, warning_clause,
};
use vstd::prelude::*;
use vstd::utf8::valid_utf8;

verus! {

/// What is joined from at least one part begins with the first part.
pub proof fn lemma_join_begins_with_first(parts: Seq<Seq<char>>, separator: Seq<char>)
    requires
        parts.len() >= 1,
    ensures
        parts[0].is_prefix_of(join(parts, separator)),
    decreases parts.len(),
{
    if parts.len() > 1 {
        lemma_join_begins_with_first(parts.drop_last(), separator);
        assert(parts.drop_last()[0] == parts[0]);
    }
}

/// What is joined from at least one part ends with the last part.
pub proof fn lemma_join_ends_with_last(parts: Seq<Seq<char>>, separator: Seq<char>)
    requires
        parts.len() >= 1,
    ensures
        parts.last().is_suffix_of(join(parts, separator)),
{
}

/// A collection without alerts is in order, with the fixed message.
pub proof fn lemma_no_alerts_is_okay(severities: Seq<Seq<char>>)
    requires
        severities.len() == 0,
    ensures
        classify(severities) == Ok::<Verdict, CheckErrorView>(
            Verdict { status: Status::Okay, message: "No uncleared alerts found"@ },
        ),
{
}

/// With a critical alert the status is critical, and the message begins with
/// the number of critical alerts.
pub proof fn lemma_critical_wins(critical: nat, warning: nat, harmless: nat)
    requires
        critical > 0,
    ensures
        status_for(critical, warning, harmless) == Status::Critical,
        critical_clause(critical).is_prefix_of(message_for(critical, warning, harmless)),
{
    lemma_join_begins_with_first(clauses(critical, warning, harmless), ", "@);
}

/// With a warning and no critical alert the status is warning, and the
/// message begins with the number of warnings.
pub proof fn lemma_warning_is_next(warning: nat, harmless: nat)
    requires
        warning > 0,
    ensures
        status_for(0, warning, harmless) == Status::Warning,
        warning_clause(warning).is_prefix_of(message_for(0, warning, harmless)),
{
    lemma_join_begins_with_first(clauses(0, warning, harmless), ", "@);
}

/// With neither a critical alert nor a warning the status is in order, and
/// the message is the number of harmless alerts and nothing else.
pub proof fn lemma_harmless_only(harmless: nat)
    ensures
        status_for(0, 0, harmless) == Status::Okay,
        message_for(0, 0, harmless) == harmless_clause(harmless),
{
    assert(clauses(0, 0, harmless) =~= seq![harmless_clause(harmless)]);
}

/// The clauses of a message stand in one order: the critical alerts if there
/// are any, then the warnings if there are any, then the harmless alerts,
/// which are never left out and with which the message ends.
pub proof fn lemma_clause_order(critical: nat, warning: nat, harmless: nat)
    ensures
        clauses(critical, warning, harmless).last() == harmless_clause(harmless),
        harmless_clause(harmless).is_suffix_of(message_for(critical, warning, harmless)),
        clauses(critical, warning, harmless).len() == 1 + (if critical > 0 {
            1int
        } else {
            0int
        }) + (if warning > 0 {
            1int
        } else {
            0int
        }),
        critical > 0 ==> clauses(critical, warning, harmless)[0] == critical_clause(critical),
        warning > 0 ==> clauses(critical, warning, harmless)[clauses(
            critical,
            warning,
            harmless,
        ).len() - 2] == warning_clause(warning),
{
    lemma_join_ends_with_last(clauses(critical, warning, harmless), ", "@);
}

/// No severity is unknown exactly when every one of them names a tier; and
/// an unknown one that is reported is the first of them.
pub proof fn lemma_first_unknown_is_first(severities: Seq<Seq<char>>)
    ensures
        first_unknown(severities) is None <==> forall|i: int|
            0 <= i < severities.len() ==> tier_of(#[trigger] severities[i]) is Some,
        first_unknown(severities) matches Some(severity) ==> exists|i: int|
            {
                &&& 0 <= i < severities.len()
                &&& #[trigger] severities[i] == severity
                &&& tier_of(severity) is None
                &&& forall|j: int| 0 <= j < i ==> tier_of(#[trigger] severities[j]) is Some
            },
    decreases severities.len(),
{
    if severities.len() > 0 {
        let rest = severities.drop_last();
        lemma_first_unknown_is_first(rest);
        assert(forall|i: int| 0 <= i < rest.len() ==> rest[i] == severities[i]);
        match first_unknown(rest) {
            Some(severity) => {
                let i = choose|i: int|
                    {
                        &&& 0 <= i < rest.len()
                        &&& #[trigger] rest[i] == severity
                        &&& tier_of(severity) is None
                        &&& forall|j: int| 0 <= j < i ==> tier_of(#[trigger] rest[j]) is Some
                    };
                assert(severities[i] == severity);
                assert(forall|j: int| 0 <= j < i ==> tier_of(#[trigger] severities[j]) is Some);
            },
            None => {
                if tier_of(severities.last()) is None {
                    let i = severities.len() - 1;
                    assert(severities[i] == severities.last());
                    assert(forall|j: int|
                        0 <= j < i ==> tier_of(#[trigger] severities[j]) is Some);
                } else {
                    assert forall|i: int| 0 <= i < severities.len() implies tier_of(
                        #[trigger] severities[i],
                    ) is Some by {
                        if i < rest.len() {
                            assert(rest[i] == severities[i]);
                        }
                    }
                }
            },
        }
    }
}

/// A severity that names no tier fails the check: it is never passed over.
pub proof fn lemma_unknown_severity_fails(severities: Seq<Seq<char>>, i: int)
    requires
        0 <= i < severities.len(),
        tier_of(severities[i]) is None,
    ensures
        classify(severities) is Err,
        classify(severities)->Err_0 is Invariant,
{
    lemma_first_unknown_is_first(severities);
}

/// Two severities with the same lowercase form name the same tier: the case
/// of the letters does not matter.
pub proof fn lemma_case_does_not_matter(a: Seq<char>, b: Seq<char>)
    requires
        lowercase(a) == lowercase(b),
    ensures
        tier_of(a) == tier_of(b),
{
}

/// Alerts whose severities differ in nothing but the case of their letters
/// are counted alike, and a check that ends with a verdict ends with the same
/// verdict on both.
pub proof fn lemma_verdict_ignores_case(a: Seq<Seq<char>>, b: Seq<Seq<char>>)
    requires
        a.len() == b.len(),
        forall|i: int| 0 <= i < a.len() ==> lowercase(#[trigger] a[i]) == lowercase(b[i]),
    ensures
        forall|tier: Severity| count_tier(a, tier) == count_tier(b, tier),
        classify(a) is Ok <==> classify(b) is Ok,
        classify(a) is Ok ==> classify(a) == classify(b),
    decreases a.len(),
{
    lemma_first_unknown_is_first(a);
    lemma_first_unknown_is_first(b);
    assert forall|i: int| 0 <= i < a.len() implies tier_of(#[trigger] a[i]) == tier_of(b[i]) by {
        assert(lowercase(a[i]) == lowercase(b[i]));
    }
    if a.len() > 0 {
        let shorter_a = a.drop_last();
        let shorter_b = b.drop_last();
        assert forall|i: int| 0 <= i < shorter_a.len() implies lowercase(
            #[trigger] shorter_a[i],
        ) == lowercase(shorter_b[i]) by {
            assert(lowercase(a[i]) == lowercase(b[i]));
        }
        lemma_verdict_ignores_case(shorter_a, shorter_b);
        assert(tier_of(a.last()) == tier_of(b.last())) by {
            assert(lowercase(a[a.len() - 1]) == lowercase(b[a.len() - 1]));
        }
        assert forall|tier: Severity| count_tier(a, tier) == count_tier(b, tier) by {
            assert(count_tier(shorter_a, tier) == count_tier(shorter_b, tier));
        }
    }
    if first_unknown(a) is None {
        assert forall|i: int| 0 <= i < b.len() implies tier_of(#[trigger] b[i]) is Some by {
            assert(tier_of(a[i]) is Some);
        }
    }
    if first_unknown(b) is None {
        assert forall|i: int| 0 <= i < a.len() implies tier_of(#[trigger] a[i]) is Some by {
            assert(tier_of(b[i]) is Some);
        }
    }
}

/// Taking one severity out lowers the number of its tier by one and leaves
/// the other numbers.
pub proof fn lemma_count_without(severities: Seq<Seq<char>>, i: int, tier: Severity)
    requires
        0 <= i < severities.len(),
    ensures
        count_tier(severities, tier) == count_tier(severities.remove(i), tier) + (if tier_of(
            severities[i],
        ) == Some(tier) {
            1nat
        } else {
            0nat
        }),
    decreases severities.len(),
{
    if i == severities.len() - 1 {
        assert(severities.remove(i) =~= severities.drop_last());
    } else {
        assert(severities.remove(i).drop_last() =~= severities.drop_last().remove(i));
        assert(severities.remove(i).last() == severities.last());
        lemma_count_without(severities.drop_last(), i, tier);
    }
}

/// The number of alerts of a tier does not depend on the order of the alerts.
pub proof fn lemma_count_ignores_order(a: Seq<Seq<char>>, b: Seq<Seq<char>>, tier: Severity)
    requires
        a.to_multiset() == b.to_multiset(),
    ensures
        count_tier(a, tier) == count_tier(b, tier),
    decreases a.len(),
{
    a.to_multiset_ensures();
    b.to_multiset_ensures();
    if a.len() > 0 {
        let last = a.last();
        assert(a.contains(last)) by {
            assert(a[a.len() - 1] == last);
        }
        assert(b.to_multiset().count(last) > 0);
        assert(b.contains(last));
        let j = choose|j: int| 0 <= j < b.len() && b[j] == last;
        assert(a.remove(a.len() - 1) =~= a.drop_last());
        assert(a.drop_last().to_multiset() =~= b.remove(j).to_multiset());
        lemma_count_ignores_order(a.drop_last(), b.remove(j), tier);
        lemma_count_without(b, j, tier);
    }
}

/// The verdict does not depend on the order of the alerts: the same alerts in
/// another order give the same status and the same message, clause by
/// clause. (Which unknown severity is reported, where there are several,
/// does depend on the order.)
pub proof fn lemma_verdict_ignores_order(a: Seq<Seq<char>>, b: Seq<Seq<char>>)
    requires
        a.to_multiset() == b.to_multiset(),
    ensures
        classify(a) is Ok <==> classify(b) is Ok,
        classify(a) is Ok ==> classify(a) == classify(b),
{
    a.to_multiset_ensures();
    b.to_multiset_ensures();
    lemma_first_unknown_is_first(a);
    lemma_first_unknown_is_first(b);
    lemma_count_ignores_order(a, b, Severity::Critical);
    lemma_count_ignores_order(a, b, Severity::Warning);
    lemma_count_ignores_order(a, b, Severity::Okay);
    if first_unknown(a) is None {
        assert forall|i: int| 0 <= i < b.len() implies tier_of(#[trigger] b[i]) is Some by {
            assert(b.contains(b[i]));
            assert(a.to_multiset().count(b[i]) > 0);
            assert(a.contains(b[i]));
            let k = choose|k: int| 0 <= k < a.len() && a[k] == b[i];
            assert(tier_of(a[k]) is Some);
        }
    }
    if first_unknown(b) is None {
        assert forall|i: int| 0 <= i < a.len() implies tier_of(#[trigger] a[i]) is Some by {
            assert(a.contains(a[i]));
            assert(b.to_multiset().count(a[i]) > 0);
            assert(b.contains(a[i]));
            let k = choose|k: int| 0 <= k < b.len() && b[k] == a[i];
            assert(tier_of(b[k]) is Some);
        }
    }
}

/// Where every severity names a tier, every alert is counted once.
pub proof fn lemma_every_alert_counted(severities: Seq<Seq<char>>)
    requires
        first_unknown(severities) is None,
    ensures
        count_tier(severities, Severity::Critical) + count_tier(severities, Severity::Warning)
            + count_tier(severities, Severity::Okay) == severities.len(),
    decreases severities.len(),
{
    if severities.len() > 0 {
        lemma_every_alert_counted(severities.drop_last());
    }
}

/// No check ends with the status that stands for "not known yet".
pub proof fn lemma_verdict_is_never_unknown(severities: Seq<Seq<char>>)
    ensures
        classify(severities) matches Ok(verdict) ==> verdict.status != Status::Unknown,
{
}

/// With the insecure flag nothing is verified, whatever CA certificate was
/// given with it: the certificate is not looked at.
pub proof fn lemma_insecure_ignores_certificate(ca_cert: Seq<u8>)
    ensures
        trust_policy_for(ca_cert, true) == TrustPolicy::NoVerification,
        trust_policy_for(ca_cert, true) == trust_policy_for(Seq::empty(), true),
{
}

/// With the insecure flag the client checks neither certificates nor host
/// names and no root is added, whatever CA certificate was given with it.
pub proof fn lemma_insecure_builder_verifies_nothing(
    builder: reqwest::blocking::ClientBuilder,
    ca_cert: Seq<u8>,
)
    requires
        is_set_up(builder, ca_cert, true),
    ensures
        certs_unchecked(builder),
        host_names_unchecked(builder),
        added_roots(builder).len() == 0,
{
}

/// Two builders that are set up with the insecure flag are set up alike,
/// whatever CA certificates were given: the same settings, no root added,
/// and the same value under each of the fixed headers.
pub proof fn lemma_insecure_builders_are_alike(
    one: reqwest::blocking::ClientBuilder,
    ca_one: Seq<u8>,
    other: reqwest::blocking::ClientBuilder,
    ca_other: Seq<u8>,
)
    requires
        is_set_up(one, ca_one, true),
        is_set_up(other, ca_other, true),
    ensures
        settings_of(one) == settings_of(other),
        added_roots(one).len() == 0,
        forall|i: int|
            0 <= i < default_headers_for().len() ==> header_value(
                one,
                (#[trigger] default_headers_for()[i]).0,
            ) == header_value(other, default_headers_for()[i].0),
{
    assert(added_roots(one) =~= added_roots(other));
}

/// Without the insecure flag a CA certificate that was given is the one
/// root that is added, and certificates and host names are checked.
pub proof fn lemma_certificate_is_the_added_root(
    builder: reqwest::blocking::ClientBuilder,
    ca_cert: Seq<u8>,
)
    requires
        ca_cert.len() > 0,
        is_set_up(builder, ca_cert, false),
    ensures
        !certs_unchecked(builder),
        !host_names_unchecked(builder),
        added_roots(builder).len() == 1,
{
}

/// Without the insecure flag and without a CA certificate no root is added,
/// and certificates and host names are checked: the system's roots decide.
pub proof fn lemma_system_roots_decide(builder: reqwest::blocking::ClientBuilder)
    requires
        is_set_up(builder, Seq::empty(), false),
    ensures
        !certs_unchecked(builder),
        !host_names_unchecked(builder),
        added_roots(builder).len() == 0,
{
}

/// However the builder was set up, its client uses the native TLS backend,
/// sends the four fixed headers with every request and keeps no idle
/// connection.
pub proof fn lemma_fixed_headers_and_no_idle_connection(
    builder: reqwest::blocking::ClientBuilder,
    ca_cert: Seq<u8>,
    insecure: bool,
)
    requires
        is_set_up(builder, ca_cert, insecure),
    ensures
        native_tls_chosen(builder),
        max_idle(builder) == 0,
        header_value(builder, "Accept"@) == Some("application/json"@),
        header_value(builder, "Content-Type"@) == Some("application/json"@),
        header_value(builder, "User-Agent"@) == Some("oneview_alerts/0.1.0"@),
        header_value(builder, "X-Api-Version"@) == Some("2000"@),
{
    let fixed = default_headers_for();
    assert(fixed[0] == ("Accept"@, "application/json"@));
    assert(fixed[1] == ("Content-Type"@, "application/json"@));
    assert(fixed[2] == ("User-Agent"@, "oneview_alerts/0.1.0"@));
    assert(fixed[3] == ("X-Api-Version"@, "2000"@));
}

/// A check whose login is answered with a status of success but without a
/// session token sends the login and nothing else, and ends for want of
/// authentication, whatever events are handed in after that.
pub proof fn lemma_refused_login_sends_only_the_login(
    host: Seq<char>,
    user: Seq<char>,
    pass: Seq<char>,
    status: u16,
    later: Seq<EventView>,
)
    requires
        is_success(status),
    ensures
        course(
            host,
            user,
            pass,
            seq![EventView::LoginAnswered { status, session_id: None }] + later,
        ).sent == seq![login_request_for(host, user, pass)],
        course(
            host,
            user,
            pass,
            seq![EventView::LoginAnswered { status, session_id: None }] + later,
        ).outcome == Some(Err::<Verdict, CheckErrorView>(CheckErrorView::Authentication)),
{
    let events = seq![EventView::LoginAnswered { status, session_id: None }] + later;
    assert(events[0] == EventView::LoginAnswered { status, session_id: None });
    let from_login = course_from(ProbeView { host, stage: StageView::Login }, events);
    assert(from_login.sent =~= Seq::<crate::request::RequestView>::empty());
    assert(seq![login_request_for(host, user, pass)] + from_login.sent =~= seq![
        login_request_for(host, user, pass),
    ]);
}

/// A check sends three requests at most, each of another exchange and in
/// this order: the login, the query for alerts, the logout.
pub proof fn lemma_course_is_login_alerts_logout(
    host: Seq<char>,
    user: Seq<char>,
    pass: Seq<char>,
    events: Seq<EventView>,
)
    ensures
        1 <= course(host, user, pass, events).sent.len() <= 3,
        course(host, user, pass, events).sent[0].exchange == Exchange::Login,
        course(host, user, pass, events).sent.len() >= 2 ==> course(
            host,
            user,
            pass,
            events,
        ).sent[1].exchange == Exchange::Alerts,
        course(host, user, pass, events).sent.len() == 3 ==> course(
            host,
            user,
            pass,
            events,
        ).sent[2].exchange == Exchange::Logout,
        events.len() >= 3 ==> course(host, user, pass, events).outcome is Some,
{
    reveal_with_fuel(course_from, 4);
    let login = ProbeView { host, stage: StageView::Login };
    if events.len() > 0 {
        match next(login, events[0]) {
            StepView::Next(after_login, _) => {
                let second = events.drop_first();
                if second.len() > 0 {
                    match next(after_login, second[0]) {
                        StepView::Next(after_alerts, _) => {
                            let third = second.drop_first();
                            if third.len() > 0 {
                                assert(next(after_alerts, third[0]) is Done);
                            }
                        },
                        StepView::Done(_) => {},
                    }
                }
            },
            StepView::Done(_) => {},
        }
    }
}

/// A login that is answered with a status of success but without a session
/// token ends the check, for want of authentication: no request follows, so
/// the alerts are never asked for.
pub proof fn lemma_login_without_token_ends_check(host: Seq<char>, status: u16)
    requires
        is_success(status),
    ensures
        next(
            ProbeView { host, stage: StageView::Login },
            EventView::LoginAnswered { status, session_id: None },
        ) == StepView::Done(Err(CheckErrorView::Authentication)),
{
}

/// The alerts are asked for only after a login that was answered with a
/// status of success and with a session token in UTF-8.
pub proof fn lemma_alerts_asked_only_after_login(probe: ProbeView, event: EventView)
    requires
        next(probe, event) matches StepView::Next(_, request) && request.exchange
            == Exchange::Alerts,
    ensures
        probe.stage is Login,
        event matches EventView::LoginAnswered { status, session_id } && is_success(status) && (
        session_id matches Some(bytes) && valid_utf8(bytes)),
{
}

/// A session that was opened is closed again: whatever came of the query for
/// alerts, the next request is the logout of that session.
pub proof fn lemma_session_is_closed(host: Seq<char>, token: Seq<char>, event: EventView)
    ensures
        next(ProbeView { host, stage: StageView::Alerts { token } }, event) matches StepView::Next(
            after,
            request,
        ) && after.stage is Logout && request == logout_request_for(host, token),
{
}

/// What comes of the logout changes nothing: the check ends as it was
/// settled before.
pub proof fn lemma_logout_changes_nothing(
    host: Seq<char>,
    outcome: Result<Verdict, CheckErrorView>,
    event: EventView,
)
    ensures
        next(ProbeView { host, stage: StageView::Logout { outcome } }, event) == StepView::Done(
            outcome,
        ),
{
}

} // verus!
