//! The ways a check can fail.

use vstd::prelude::*;

verus! {

/// Why a check ended without a verdict. Every failure ends the run: nothing
/// is tried again.
#[derive(Clone, Debug, PartialEq, Eq)]
pub enum CheckError {
    /// The HTTP client could not be set up, most often because the CA
    /// certificate is no well-formed PEM. Holds the detail.
    Config(String),
    /// A request got no usable answer: the connection, TLS or the network
    /// failed, or the login was answered with a failure status. Holds the
    /// detail.
    Transport(String),
    /// The login was answered, but without a session token.
    Authentication,
    /// The login was answered with a session token that is not UTF-8.
    TokenEncoding,
    /// The alerts were asked for and the answer's status was not one of
    /// success. Holds the reason phrase of the status.
    Http(String),
    /// The body of the answer does not hold a collection of alerts. Holds the
    /// detail.
    Parse(String),
    /// An alert has a severity outside the three known ones. Holds that
    /// severity as the appliance spelled it.
    Invariant(String),
}

/// A [`CheckError`] as a mathematical value.
pub enum CheckErrorView {
    Config(Seq<char>),
    Transport(Seq<char>),
    Authentication,
    TokenEncoding,
    Http(Seq<char>),
    Parse(Seq<char>),
    Invariant(Seq<char>),
}

impl View for CheckError {
    type V = CheckErrorView;

    open spec fn view(&self) -> CheckErrorView {
        match self {
            CheckError::Config(detail) => CheckErrorView::Config(detail@),
            CheckError::Transport(detail) => CheckErrorView::Transport(detail@),
            CheckError::Authentication => CheckErrorView::Authentication,
            CheckError::TokenEncoding => CheckErrorView::TokenEncoding,
            CheckError::Http(reason) => CheckErrorView::Http(reason@),
            CheckError::Parse(detail) => CheckErrorView::Parse(detail@),
            CheckError::Invariant(severity) => CheckErrorView::Invariant(severity@),
        }
    }
}

impl CheckErrorView {
    /// The line that describes the failure to a person.
    pub open spec fn message(self) -> Seq<char> {
        match self {
            CheckErrorView::Config(detail) => detail,
            CheckErrorView::Transport(detail) => detail,
            CheckErrorView::Authentication => "login failed"@,
            CheckErrorView::TokenEncoding => "session token is not valid UTF-8"@,
            CheckErrorView::Http(reason) => reason,
            CheckErrorView::Parse(detail) => detail,
            CheckErrorView::Invariant(severity) => "unknown alert severity: "@ + severity,
        }
    }
}

impl CheckError {
    /// The line that describes the failure to a person.
    pub fn message(&self) -> (text: String)
        ensures
            text@ == self@.message(),
    {
        match self {
            CheckError::Config(detail) => detail.clone(),
            CheckError::Transport(detail) => detail.clone(),
            CheckError::Authentication => "login failed".to_owned(),
            CheckError::TokenEncoding => "session token is not valid UTF-8".to_owned(),
            CheckError::Http(reason) => reason.clone(),
            CheckError::Parse(detail) => detail.clone(),
            CheckError::Invariant(severity) => {
                let mut text = "unknown alert severity: ".to_owned();
                text.append(severity.as_str());
                text
            },
        }
    }
}

} // verus!
