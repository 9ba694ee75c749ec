//! The course of one check, as a state machine.
//!
//! A check is three exchanges with the appliance, one after the other: the
//! login, the query for alerts, the logout. The probe decides what is sent
//! and what each answer means; the caller sends the requests and hands back
//! what came of them.

use crate::alerts::{check_alerts, classify, AlertResourceCollection};
use crate::error::{CheckError, CheckErrorView};
use crate::reply::{alerts_outcome, is_success, login_outcome, login_outcome_for, status_text};
use crate::request::{
    alerts_request, alerts_request_for, login_request, login_request_for, logout_request,
    logout_request_for, Request, RequestView,
};
use crate::verdict::{outcome_view, NagiosState, Verdict};
use vstd::prelude::*;

verus! {

/// What a probe waits for.
#[derive(Debug, PartialEq, Eq)]
pub enum Stage {
    /// The answer to the login.
    Login,
    /// The answer to the query for alerts, within the session that the token
    /// stands for.
    Alerts { token: String },
    /// The end of the logout. How the check ended is already settled.
    Logout { outcome: Result<NagiosState, CheckError> },
}

/// A check that is under way on one host.
#[derive(Debug, PartialEq, Eq)]
pub struct Probe {
    pub host: String,
    pub stage: Stage,
}

/// What came of the request that the probe had sent.
#[derive(Debug, PartialEq, Eq)]
pub enum Event {
    /// No answer came: the connection, TLS or the network failed. Holds the
    /// detail.
    Failed(String),
    /// The login was answered, with this status and this value of the
    /// `sessionID` header, if the answer has that header.
    LoginAnswered { status: u16, session_id: Option<Vec<u8>> },
    /// The query for alerts was answered, with this status. The body is the
    /// collection that the answer's body holds, or the reason why it holds
    /// none; it counts only under a status of success.
    AlertsAnswered { status: u16, body: Result<AlertResourceCollection, String> },
    /// The logout is over, however it went.
    LogoutOver,
}

/// What the caller is to do next.
#[derive(Debug, PartialEq, Eq)]
pub enum Step {
    /// Send the request, then hand what came of it to the probe.
    Next(Probe, Request),
    /// Nothing more: the check has ended so.
    Done(Result<NagiosState, CheckError>),
}

/// A [`Stage`] as a mathematical value.
pub enum StageView {
    Login,
    Alerts { token: Seq<char> },
    Logout { outcome: Result<Verdict, CheckErrorView> },
}

/// A [`Probe`] as a mathematical value.
pub struct ProbeView {
    pub host: Seq<char>,
    pub stage: StageView,
}

/// An [`Event`] as a mathematical value. Of a collection of alerts it holds
/// the severities, in the alerts' order.
pub enum EventView {
    Failed(Seq<char>),
    LoginAnswered { status: u16, session_id: Option<Seq<u8>> },
    AlertsAnswered { status: u16, body: Result<Seq<Seq<char>>, Seq<char>> },
    LogoutOver,
}

/// A [`Step`] as a mathematical value.
pub enum StepView {
    Next(ProbeView, RequestView),
    Done(Result<Verdict, CheckErrorView>),
}

impl View for Stage {
    type V = StageView;

    open spec fn view(&self) -> StageView {
        match self {
            Stage::Login => StageView::Login,
            Stage::Alerts { token } => StageView::Alerts { token: token@ },
            Stage::Logout { outcome } => StageView::Logout { outcome: outcome_view(*outcome) },
        }
    }
}

impl View for Probe {
    type V = ProbeView;

    open spec fn view(&self) -> ProbeView {
        ProbeView { host: self.host@, stage: self.stage@ }
    }
}

impl View for Event {
    type V = EventView;

    open spec fn view(&self) -> EventView {
        match self {
            Event::Failed(detail) => EventView::Failed(detail@),
            Event::LoginAnswered { status, session_id } => EventView::LoginAnswered {
                status: *status,
                session_id: session_id.deep_view(),
            },
            Event::AlertsAnswered { status, body } => EventView::AlertsAnswered {
                status: *status,
                body: match body {
                    Ok(alerts) => Ok(alerts.severities()),
                    Err(detail) => Err(detail@),
                },
            },
            Event::LogoutOver => EventView::LogoutOver,
        }
    }
}

impl View for Step {
    type V = StepView;

    open spec fn view(&self) -> StepView {
        match self {
            Step::Next(probe, request) => StepView::Next(probe@, request@),
            Step::Done(outcome) => StepView::Done(outcome_view(*outcome)),
        }
    }
}

/// What is told of an event that is no answer to the request that is out.
pub open spec fn misplaced_text() -> Seq<char> {
    "the answer does not belong to the request"@
}

/// What the login gave, by the event that followed it.
pub open spec fn login_result(event: EventView) -> Result<Seq<char>, CheckErrorView> {
    match event {
        EventView::LoginAnswered { status, session_id } => login_outcome_for(status, session_id),
        EventView::Failed(detail) => Err(CheckErrorView::Transport(detail)),
        _ => Err(CheckErrorView::Transport(misplaced_text())),
    }
}

/// How the check ends, by the event that followed the query for alerts.
pub open spec fn alerts_result(event: EventView) -> Result<Verdict, CheckErrorView> {
    match event {
        EventView::AlertsAnswered { status, body } => if !is_success(status) {
            Err(CheckErrorView::Http(status_text(status)))
        } else {
            match body {
                Ok(severities) => classify(severities),
                Err(detail) => Err(CheckErrorView::Parse(detail)),
            }
        },
        EventView::Failed(detail) => Err(CheckErrorView::Transport(detail)),
        _ => Err(CheckErrorView::Transport(misplaced_text())),
    }
}

/// The step that a probe takes on an event.
///
/// After the login: with a session token the alerts are asked for; without
/// one the check is over, and nothing more is sent. After the query for
/// alerts: how the check ends is settled, and the session is closed,
/// whatever the answer was. After the logout: the check is over as it was
/// settled; what came of the logout changes nothing.
pub open spec fn next(probe: ProbeView, event: EventView) -> StepView {
    match probe.stage {
        StageView::Login => match login_result(event) {
            Ok(token) => StepView::Next(
                ProbeView { host: probe.host, stage: StageView::Alerts { token } },
                alerts_request_for(probe.host, token),
            ),
            Err(error) => StepView::Done(Err(error)),
        },
        StageView::Alerts { token } => StepView::Next(
            ProbeView { host: probe.host, stage: StageView::Logout { outcome: alerts_result(event) } },
            logout_request_for(probe.host, token),
        ),
        StageView::Logout { outcome } => StepView::Done(outcome),
    }
}

/// The requests that a check sends, in order, and how it ends if it has
/// ended.
pub struct Course {
    pub sent: Seq<RequestView>,
    pub outcome: Option<Result<Verdict, CheckErrorView>>,
}

/// What follows from a probe on, given what comes of each request in turn:
/// every step either sends one more request or ends the check, and after
/// the end nothing is sent.
pub open spec fn course_from(probe: ProbeView, events: Seq<EventView>) -> Course
    decreases events.len(),
{
    if events.len() == 0 {
        Course { sent: Seq::empty(), outcome: None }
    } else {
        match next(probe, events[0]) {
            StepView::Next(after, request) => {
                let rest = course_from(after, events.drop_first());
                Course { sent: seq![request] + rest.sent, outcome: rest.outcome }
            },
            StepView::Done(outcome) => Course { sent: Seq::empty(), outcome: Some(outcome) },
        }
    }
}

/// The course of a whole check of `host`: the login is sent first, and the
/// probe decides on every event what follows.
pub open spec fn course(
    host: Seq<char>,
    user: Seq<char>,
    pass: Seq<char>,
    events: Seq<EventView>,
) -> Course {
    let rest = course_from(ProbeView { host, stage: StageView::Login }, events);
    Course { sent: seq![login_request_for(host, user, pass)] + rest.sent, outcome: rest.outcome }
}

fn misplaced() -> (error: CheckError)
    ensures
        error@ == CheckErrorView::Transport(misplaced_text()),
{
    CheckError::Transport("the answer does not belong to the request".to_owned())
}

impl Probe {
    /// Begins a check of `host`: the request to send first is the login of
    /// `user`.
    pub fn start(host: &str, user: &str, pass: &str) -> (begun: (Probe, Request))
        ensures
            begun.0@ == (ProbeView { host: host@, stage: StageView::Login }),
            begun.1@ == login_request_for(host@, user@, pass@),
    {
        (Probe { host: host.to_owned(), stage: Stage::Login }, login_request(host, user, pass))
    }

    /// Takes what came of the request that is out, and tells what to do next.
    pub fn step(self, event: Event) -> (step: Step)
        ensures
            step@ == next(self@, event@),
    {
        let Probe { host, stage } = self;
        match stage {
            Stage::Login => {
                let given = match event {
                    Event::LoginAnswered { status, session_id } => login_outcome(
                        status,
                        session_id,
                    ),
                    Event::Failed(detail) => Err(CheckError::Transport(detail)),
                    _ => Err(misplaced()),
                };
                match given {
                    Ok(token) => {
                        let request = alerts_request(host.as_str(), token.as_str());
                        Step::Next(Probe { host, stage: Stage::Alerts { token } }, request)
                    },
                    Err(error) => Step::Done(Err(error)),
                }
            },
            Stage::Alerts { token } => {
                let outcome = match event {
                    Event::AlertsAnswered { status, body } => match alerts_outcome(status, body) {
                        Ok(alerts) => check_alerts(&alerts),
                        Err(error) => Err(error),
                    },
                    Event::Failed(detail) => Err(CheckError::Transport(detail)),
                    _ => Err(misplaced()),
                };
                let request = logout_request(host.as_str(), token.as_str());
                Step::Next(Probe { host, stage: Stage::Logout { outcome } }, request)
            },
            Stage::Logout { outcome } => Step::Done(outcome),
        }
    }
}

} // verus!
