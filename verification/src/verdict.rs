//! The verdict of a check: one status and one line of text.

use crate::decimal::{decimal, decimal_string};
use crate::error::{CheckError, CheckErrorView};
use vstd::prelude::*;

verus! {

/// The health that a check reports.
#[derive(Clone, Copy, Debug, PartialEq, Eq, Structural)]
pub enum Status {
    Okay,
    Warning,
    Critical,
    /// The status before anything is known. No finished check reports it.
    Unknown,
}

/// What a check reports to the monitoring system.
#[derive(Clone, Debug, PartialEq, Eq)]
pub struct NagiosState {
    pub status: Status,
    pub message: String,
}

/// A [`NagiosState`] as a mathematical value.
pub struct Verdict {
    pub status: Status,
    pub message: Seq<char>,
}

impl View for NagiosState {
    type V = Verdict;

    open spec fn view(&self) -> Verdict {
        Verdict { status: self.status, message: self.message@ }
    }
}

/// How a check ended, as a mathematical value.
pub open spec fn outcome_view(outcome: Result<NagiosState, CheckError>) -> Result<
    Verdict,
    CheckErrorView,
> {
    match outcome {
        Ok(state) => Ok(state@),
        Err(error) => Err(error@),
    }
}

/// The parts, in order, with the separator between each two of them.
pub open spec fn join(parts: Seq<Seq<char>>, separator: Seq<char>) -> Seq<char>
    decreases parts.len(),
{
    if parts.len() == 0 {
        Seq::empty()
    } else if parts.len() == 1 {
        parts[0]
    } else {
        join(parts.drop_last(), separator) + separator + parts.last()
    }
}

/// The clause on `n` critical alerts.
pub open spec fn critical_clause(n: nat) -> Seq<char> {
    decimal(n) + " critical alerts found"@
}

/// The clause on `n` warning alerts.
pub open spec fn warning_clause(n: nat) -> Seq<char> {
    decimal(n) + " warning alerts found"@
}

/// The clause on `n` alerts of severity OK.
pub open spec fn harmless_clause(n: nat) -> Seq<char> {
    decimal(n) + " harmless alerts found"@
}

/// The clauses of the message, in their fixed order: the critical alerts if
/// there are any, then the warnings if there are any, then the harmless
/// alerts, which are always told.
pub open spec fn clauses(critical: nat, warning: nat, harmless: nat) -> Seq<Seq<char>> {
    let first: Seq<Seq<char>> = if critical > 0 {
        seq![critical_clause(critical)]
    } else {
        seq![]
    };
    let second: Seq<Seq<char>> = if warning > 0 {
        seq![warning_clause(warning)]
    } else {
        seq![]
    };
    first + second + seq![harmless_clause(harmless)]
}

/// The status for the given numbers of alerts: the worst tier that is not
/// empty decides.
pub open spec fn status_for(critical: nat, warning: nat, harmless: nat) -> Status {
    if critical > 0 {
        Status::Critical
    } else if warning > 0 {
        Status::Warning
    } else {
        Status::Okay
    }
}

/// The message for the given numbers of alerts.
pub open spec fn message_for(critical: nat, warning: nat, harmless: nat) -> Seq<char> {
    join(clauses(critical, warning, harmless), ", "@)
}

/// The verdict on a collection with the given numbers of alerts.
pub open spec fn verdict_for(critical: nat, warning: nat, harmless: nat) -> Verdict {
    Verdict {
        status: status_for(critical, warning, harmless),
        message: message_for(critical, warning, harmless),
    }
}

/// The verdict on a collection without alerts.
pub open spec fn verdict_without_alerts() -> Verdict {
    Verdict { status: Status::Okay, message: "No uncleared alerts found"@ }
}

/// Joins the parts with the separator between each two of them.
pub fn join_strings(parts: &Vec<String>, separator: &str) -> (text: String)
    ensures
        text@ == join(parts.deep_view(), separator@),
{
    let mut text = String::new();
    let mut i: usize = 0;
    while i < parts.len()
        invariant
            i <= parts.len(),
            text@ == join(parts.deep_view().take(i as int), separator@),
        decreases parts.len() - i,
    {
        let ghost before = parts.deep_view().take(i as int);
        let ghost after = parts.deep_view().take(i + 1);
        assert(after.drop_last() =~= before);
        assert(after.last() == parts[i as int]@);
        if i > 0 {
            text.append(separator);
        }
        text.append(parts[i].as_str());
        assert(text@ =~= join(after, separator@));
        i = i + 1;
    }
    assert(parts.deep_view().take(i as int) =~= parts.deep_view());
    text
}

fn clause_string(n: u64, what: &str) -> (text: String)
    ensures
        text@ == decimal(n as nat) + what@,
{
    let mut text = decimal_string(n);
    text.append(what);
    text
}

impl NagiosState {
    /// The verdict on a collection with the given numbers of alerts.
    pub fn from_counts(critical: u64, warning: u64, harmless: u64) -> (state: NagiosState)
        ensures
            state@ == verdict_for(critical as nat, warning as nat, harmless as nat),
    {
        let status = if critical > 0 {
            Status::Critical
        } else if warning > 0 {
            Status::Warning
        } else {
            Status::Okay
        };
        let mut parts: Vec<String> = Vec::new();
        if critical > 0 {
            parts.push(clause_string(critical, " critical alerts found"));
        }
        if warning > 0 {
            parts.push(clause_string(warning, " warning alerts found"));
        }
        parts.push(clause_string(harmless, " harmless alerts found"));
        assert(parts.deep_view() =~= clauses(critical as nat, warning as nat, harmless as nat));
        NagiosState { status, message: join_strings(&parts, ", ") }
    }

    /// The verdict on a collection without alerts.
    pub fn without_alerts() -> (state: NagiosState)
        ensures
            state@ == verdict_without_alerts(),
    {
        NagiosState { status: Status::Okay, message: "No uncleared alerts found".to_owned() }
    }
}

} // verus!
