//! The alerts that the appliance reports, and the verdict on them.

use crate::error::{CheckError, CheckErrorView};
use crate::severity::{tier_of, Severity};
use crate::verdict::{outcome_view, verdict_for, verdict_without_alerts, NagiosState, Verdict};
use vstd::prelude::*;

verus! {

/// One alert. Of what the appliance tells about an alert, only the severity
/// is kept.
#[derive(Clone, Debug, PartialEq, Eq)]
pub struct AlertResource {
    pub severity: String,
}

/// The answer to a query for alerts.
///
/// `count` is what the appliance says of the number of members. It is kept as
/// it came and decides nothing: the members themselves are what is judged.
#[derive(Clone, Debug, PartialEq, Eq)]
pub struct AlertResourceCollection {
    pub count: u64,
    pub members: Vec<AlertResource>,
}

/// How many alerts of each tier a collection holds.
#[derive(Clone, Copy, Debug, PartialEq, Eq)]
pub struct SeverityCounts {
    pub critical: u64,
    pub warning: u64,
    pub harmless: u64,
}

/// The severities of the alerts, in the alerts' order.
pub open spec fn severities_of(members: Seq<AlertResource>) -> Seq<Seq<char>> {
    Seq::new(members.len(), |i: int| members[i].severity@)
}

/// How many of the severities name the given tier.
pub open spec fn count_tier(severities: Seq<Seq<char>>, tier: Severity) -> nat
    decreases severities.len(),
{
    if severities.len() == 0 {
        0
    } else {
        let rest = count_tier(severities.drop_last(), tier);
        if tier_of(severities.last()) == Some(tier) {
            rest + 1
        } else {
            rest
        }
    }
}

/// The first of the severities that names no tier, if there is one.
pub open spec fn first_unknown(severities: Seq<Seq<char>>) -> Option<Seq<char>>
    decreases severities.len(),
{
    if severities.len() == 0 {
        None
    } else {
        match first_unknown(severities.drop_last()) {
            Some(severity) => Some(severity),
            None => if tier_of(severities.last()) is None {
                Some(severities.last())
            } else {
                None
            },
        }
    }
}

/// How the check of alerts with the given severities ends.
///
/// Without alerts the verdict is the fixed one for that case. An alert whose
/// severity names no tier fails the check, and the first such alert is the
/// one reported. Otherwise the numbers of alerts in the three tiers decide.
pub open spec fn classify(severities: Seq<Seq<char>>) -> Result<Verdict, CheckErrorView> {
    if severities.len() == 0 {
        Ok(verdict_without_alerts())
    } else {
        match first_unknown(severities) {
            Some(severity) => Err(CheckErrorView::Invariant(severity)),
            None => Ok(
                verdict_for(
                    count_tier(severities, Severity::Critical),
                    count_tier(severities, Severity::Warning),
                    count_tier(severities, Severity::Okay),
                ),
            ),
        }
    }
}

/// An unknown severity among the first `k` severities is the first unknown
/// one of them all.
proof fn lemma_first_unknown_of_prefix(severities: Seq<Seq<char>>, k: int)
    requires
        0 <= k <= severities.len(),
        first_unknown(severities.take(k)) is Some,
    ensures
        first_unknown(severities) == first_unknown(severities.take(k)),
    decreases severities.len(),
{
    if k == severities.len() {
        assert(severities.take(k) =~= severities);
    } else {
        assert(severities.drop_last().take(k) =~= severities.take(k));
        lemma_first_unknown_of_prefix(severities.drop_last(), k);
    }
}

impl AlertResourceCollection {
    /// The severities of the members, in the members' order.
    pub open spec fn severities(&self) -> Seq<Seq<char>> {
        severities_of(self.members@)
    }

    /// Whether the collection holds no alert.
    pub fn is_empty(&self) -> (empty: bool)
        ensures
            empty == (self.severities().len() == 0),
    {
        self.members.len() == 0
    }
}

/// Counts the alerts of each tier, and fails on the first alert whose
/// severity names none.
pub fn count_severities(members: &Vec<AlertResource>) -> (counts: Result<
    SeverityCounts,
    CheckError,
>)
    ensures
        match counts {
            Ok(n) => {
                &&& first_unknown(severities_of(members@)) is None
                &&& n.critical == count_tier(severities_of(members@), Severity::Critical)
                &&& n.warning == count_tier(severities_of(members@), Severity::Warning)
                &&& n.harmless == count_tier(severities_of(members@), Severity::Okay)
            },
            Err(error) => {
                &&& first_unknown(severities_of(members@)) matches Some(severity)
                &&& error@ == CheckErrorView::Invariant(severity)
            },
        },
{
    let ghost all = severities_of(members@);
    let mut critical: u64 = 0;
    let mut warning: u64 = 0;
    let mut harmless: u64 = 0;
    let mut i: usize = 0;
    while i < members.len()
        invariant
            i <= members.len(),
            all == severities_of(members@),
            first_unknown(all.take(i as int)) is None,
            critical == count_tier(all.take(i as int), Severity::Critical),
            warning == count_tier(all.take(i as int), Severity::Warning),
            harmless == count_tier(all.take(i as int), Severity::Okay),
            critical + warning + harmless == i,
        decreases members.len() - i,
    {
        proof {
            assert(all.take(i + 1).drop_last() =~= all.take(i as int));
            assert(all.take(i + 1).last() == members[i as int].severity@);
        }
        match Severity::parse(members[i].severity.as_str()) {
            Some(Severity::Okay) => {
                harmless = harmless + 1;
            },
            Some(Severity::Warning) => {
                warning = warning + 1;
            },
            Some(Severity::Critical) => {
                critical = critical + 1;
            },
            None => {
                proof {
                    lemma_first_unknown_of_prefix(all, i + 1);
                }
                return Err(CheckError::Invariant(members[i].severity.clone()));
            },
        }
        i = i + 1;
    }
    proof {
        assert(all.take(i as int) =~= all);
    }
    Ok(SeverityCounts { critical, warning, harmless })
}

/// Judges the alerts that the appliance reported.
///
/// A collection without members is in order. Otherwise every member is
/// counted under its severity, whatever the case of its letters, and the
/// worst tier that is not empty gives the status; the message tells the
/// numbers. A severity that is none of OK, Warning and Critical fails the
/// check.
pub fn check_alerts(alerts: &AlertResourceCollection) -> (outcome: Result<NagiosState, CheckError>)
    ensures
        outcome_view(outcome) == classify(alerts.severities()),
{
    if alerts.is_empty() {
        return Ok(NagiosState::without_alerts());
    }
    match count_severities(&alerts.members) {
        Ok(counts) => Ok(
            NagiosState::from_counts(counts.critical, counts.warning, counts.harmless),
        ),
        Err(error) => Err(error),
    }
}

} // verus!
