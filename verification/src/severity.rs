//! The severity tiers of an alert, and how the appliance's spelling of a
//! severity is read.

use vstd::prelude::*;

verus! {

/// The tier an alert falls in.
#[derive(Clone, Copy, Debug, PartialEq, Eq, Structural)]
pub enum Severity {
    Okay,
    Warning,
    Critical,
}

/// The lowercase form that `str::to_lowercase` gives a string.
pub uninterp spec fn lowercase(s: Seq<char>) -> Seq<char>;

/// The tier that a severity in lowercase form names, if it names one.
pub open spec fn tier_of_lowercase(lower: Seq<char>) -> Option<Severity> {
    if lower =~= seq!['o', 'k'] {
        Some(Severity::Okay)
    } else if lower =~= seq!['w', 'a', 'r', 'n', 'i', 'n', 'g'] {
        Some(Severity::Warning)
    } else if lower =~= seq!['c', 'r', 'i', 't', 'i', 'c', 'a', 'l'] {
        Some(Severity::Critical)
    } else {
        None
    }
}

/// The tier that a severity names, whatever the case of its letters.
pub open spec fn tier_of(raw: Seq<char>) -> Option<Severity> {
    tier_of_lowercase(lowercase(raw))
}

/// `str::to_lowercase` of the standard library. Trusted: the result is the
/// lowercase form of the argument, which depends on nothing else.
#[verifier::external_body]
fn to_lowercase(s: &str) -> (lower: String)
    ensures
        lower@ == lowercase(s@),
{
    s.to_lowercase()
}

impl Severity {
    /// Reads a severity that is already in lowercase form.
    pub fn from_lowercase(lower: &str) -> (tier: Option<Severity>)
        ensures
            tier == tier_of_lowercase(lower@),
    {
        proof {
            reveal_strlit("ok");
            reveal_strlit("warning");
            reveal_strlit("critical");
            assert("ok"@ =~= seq!['o', 'k']);
            assert("warning"@ =~= seq!['w', 'a', 'r', 'n', 'i', 'n', 'g']);
            assert("critical"@ =~= seq!['c', 'r', 'i', 't', 'i', 'c', 'a', 'l']);
        }
        let given = lower.to_owned();
        if given == "ok".to_owned() {
            Some(Severity::Okay)
        } else if given == "warning".to_owned() {
            Some(Severity::Warning)
        } else if given == "critical".to_owned() {
            Some(Severity::Critical)
        } else {
            None
        }
    }

    /// Reads a severity as the appliance spells it: the letters' case does
    /// not matter, and anything but the three known names is `None`.
    pub fn parse(raw: &str) -> (tier: Option<Severity>)
        ensures
            tier == tier_of(raw@),
    {
        let lower = to_lowercase(raw);
        Severity::from_lowercase(lower.as_str())
    }
}

} // verus!
