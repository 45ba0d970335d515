//! The two-valued lifecycle status of a visa case and its wire form.

use vstd::prelude::*;
use vstd::string::StringExecFns;

verus! {

/// Lifecycle status of a visa case. Soft deletion is modeled as a transition
/// to `Inactive`; no row is ever physically removed.
#[derive(Clone, Copy, PartialEq, Eq, Structural, Debug)]
pub enum CaseStatus {
    Active,
    Inactive,
}

/// The wire form of a status value: exactly the strings `"Active"` and
/// `"Inactive"` are valid on the wire.
pub open spec fn spec_status_label(status: CaseStatus) -> Seq<char> {
    match status {
        CaseStatus::Active => "Active"@,
        CaseStatus::Inactive => "Inactive"@,
    }
}

/// Which status, if any, a wire string denotes. Anything other than the two
/// valid labels is invalid input.
pub open spec fn spec_parse_status(s: Seq<char>) -> Option<CaseStatus> {
    if s == "Active"@ {
        Some(CaseStatus::Active)
    } else if s == "Inactive"@ {
        Some(CaseStatus::Inactive)
    } else {
        None
    }
}

/// Renders a status into its wire form.
pub fn status_label(status: CaseStatus) -> (r: String)
    ensures
        r@ == spec_status_label(status),
{
    match status {
        CaseStatus::Active => String::from_str("Active"),
        CaseStatus::Inactive => String::from_str("Inactive"),
    }
}

/// Parses a wire string into a status; returns `None` on any string other
/// than the two valid labels.
pub fn parse_status(s: &String) -> (r: Option<CaseStatus>)
    ensures
        r == spec_parse_status(s@),
{
    let active = String::from_str("Active");
    if *s == active {
        return Some(CaseStatus::Active);
    }
    let inactive = String::from_str("Inactive");
    if *s == inactive {
        return Some(CaseStatus::Inactive);
    }
    None
}

/// A wire status that may be absent, resolved to a definite value: absence
/// defaults to `Active`, as the creation path does.
pub fn status_or_active(v: Option<CaseStatus>) -> (r: CaseStatus)
    ensures
        v is Some ==> r == v->0,
        v is None ==> r == CaseStatus::Active,
{
    match v {
        Some(s) => s,
        None => CaseStatus::Active,
    }
}

/// Rendering a status and parsing it back yields the same status: the two
/// wire labels are distinct and each denotes its own status.
pub proof fn lemma_status_round_trip(status: CaseStatus)
    ensures
        spec_parse_status(spec_status_label(status)) == Some(status),
{
    broadcast use vstd::string::group_string_axioms;

    reveal_strlit("Active");
    reveal_strlit("Inactive");
    assert("Active"@.len() == 6);
    assert("Inactive"@.len() == 8);
}

} // verus!
