//! How the appliance's answers are judged.

use crate::alerts::AlertResourceCollection;
use crate::error::{CheckError, CheckErrorView};
use vstd::prelude::*;
use vstd::utf8::{decode_utf8, valid_utf8};

verus! {

/// The reason phrase that `http` holds for a status code, if it holds one.
pub uninterp spec fn canonical_reason(status: u16) -> Option<Seq<char>>;

/// Whether a status is one of success, that is from 200 to 299.
pub open spec fn is_success(status: u16) -> bool {
    200 <= status <= 299
}

/// What is told of a status that is a failure: its reason phrase, or a fixed
/// text where it has none.
pub open spec fn status_text(status: u16) -> Seq<char> {
    match canonical_reason(status) {
        Some(reason) => reason,
        None => "unknown HTTP status"@,
    }
}

/// What the answer to a login gives: the session token, or the failure.
///
/// A status of success alone is no success: the appliance answers a refused
/// login with `200 OK` too, and only leaves out the header that would hold
/// the session token. A failure status tells that the service was not
/// reached as it should be; a missing header tells that it refused.
pub open spec fn login_outcome_for(status: u16, session_id: Option<Seq<u8>>) -> Result<
    Seq<char>,
    CheckErrorView,
> {
    if !is_success(status) {
        Err(CheckErrorView::Transport(status_text(status)))
    } else {
        match session_id {
            None => Err(CheckErrorView::Authentication),
            Some(bytes) => if valid_utf8(bytes) {
                Ok(decode_utf8(bytes))
            } else {
                Err(CheckErrorView::TokenEncoding)
            },
        }
    }
}

/// What the answer to the query for alerts gives: the collection, or the
/// failure. The body is what the answer's body holds: the collection, or the
/// reason why it holds none.
pub open spec fn alerts_outcome_for(
    status: u16,
    body: Result<AlertResourceCollection, String>,
) -> Result<AlertResourceCollection, CheckErrorView> {
    if !is_success(status) {
        Err(CheckErrorView::Http(status_text(status)))
    } else {
        match body {
            Ok(alerts) => Ok(alerts),
            Err(detail) => Err(CheckErrorView::Parse(detail@)),
        }
    }
}

/// `StatusCode::canonical_reason` of `http`, on the status code that
/// `StatusCode::from_u16` makes of the number. Trusted: the result is the
/// reason phrase that `http` holds for the number, `None` where it holds
/// none or the number is no status code; it depends on the number alone.
#[verifier::external_body]
fn reason_phrase(status: u16) -> (reason: Option<String>)
    ensures
        reason.deep_view() == canonical_reason(status),
{
    match http::StatusCode::from_u16(status) {
        Ok(code) => code.canonical_reason().map(String::from),
        Err(_) => None,
    }
}

/// `String::from_utf8` of the standard library. Trusted: the bytes are
/// taken if and only if they are UTF-8, and the string is what they encode.
#[verifier::external_body]
fn string_from_utf8(bytes: Vec<u8>) -> (text: Option<String>)
    ensures
        text is Some <==> valid_utf8(bytes@),
        text matches Some(s) ==> s@ == decode_utf8(bytes@),
{
    String::from_utf8(bytes).ok()
}

/// What is told of a status that is a failure.
pub fn describe_status(status: u16) -> (text: String)
    ensures
        text@ == status_text(status),
{
    match reason_phrase(status) {
        Some(reason) => reason,
        None => "unknown HTTP status".to_owned(),
    }
}

/// Judges the answer to a login by its status and by the value of its
/// `sessionID` header, if it has that header.
pub fn login_outcome(status: u16, session_id: Option<Vec<u8>>) -> (outcome: Result<
    String,
    CheckError,
>)
    ensures
        match outcome {
            Ok(token) => login_outcome_for(status, session_id.deep_view()) == Ok::<
                Seq<char>,
                CheckErrorView,
            >(token@),
            Err(error) => login_outcome_for(status, session_id.deep_view()) == Err::<
                Seq<char>,
                CheckErrorView,
            >(error@),
        },
{
    if status < 200 || status > 299 {
        return Err(CheckError::Transport(describe_status(status)));
    }
    match session_id {
        None => Err(CheckError::Authentication),
        Some(bytes) => {
            assert(bytes.deep_view() =~= bytes@);
            match string_from_utf8(bytes) {
                Some(token) => Ok(token),
                None => Err(CheckError::TokenEncoding),
            }
        },
    }
}

/// Whether the body of an answer to the query for alerts counts, given the
/// answer's status: only under a status of success. Under any other status
/// the body need not be read.
pub fn body_counts(status: u16) -> (counts: bool)
    ensures
        counts == is_success(status),
{
    200 <= status && status <= 299
}

/// Judges the answer to the query for alerts by its status and by what its
/// body holds: the collection, or the reason why it holds none.
///
/// Only a status of success is taken. With any other status the body is not
/// looked at, and the failure tells the status.
pub fn alerts_outcome(status: u16, body: Result<AlertResourceCollection, String>) -> (outcome:
    Result<AlertResourceCollection, CheckError>)
    ensures
        match outcome {
            Ok(alerts) => alerts_outcome_for(status, body) == Ok::<
                AlertResourceCollection,
                CheckErrorView,
            >(alerts),
            Err(error) => alerts_outcome_for(status, body) == Err::<
                AlertResourceCollection,
                CheckErrorView,
            >(error@),
        },
{
    if !body_counts(status) {
        return Err(CheckError::Http(describe_status(status)));
    }
    match body {
        Ok(alerts) => Ok(alerts),
        Err(detail) => Err(CheckError::Parse(detail)),
    }
}

} // verus!
