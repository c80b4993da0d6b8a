//! Contribution scoring: how many points each kind of contribution earns.

use vstd::prelude::*;

use crate::strutil::str_eq;

verus! {

/// Utility for scoring analytics events.
pub struct AnalyticsTracker;

/// The points awarded for a contribution of the given type and action; any
/// combination outside the scoring table earns the single default point.
pub open spec fn spec_contribution_points(
    contribution_type: Seq<char>,
    action: Seq<char>,
) -> int {
    if contribution_type == "dictionary_entry"@ && action == "create"@ {
        10
    } else if contribution_type == "dictionary_entry"@ && action == "update"@ {
        5
    } else if contribution_type == "dictionary_entry"@ && action == "verify"@ {
        15
    } else if contribution_type == "translation_request"@ && action == "create"@ {
        3
    } else if contribution_type == "translation_request"@ && action == "complete"@ {
        8
    } else if contribution_type == "dictionary_entry"@ && action == "review"@ {
        5
    } else {
        1
    }
}

impl AnalyticsTracker {
    /// Calculate points for different contribution types.
    pub fn calculate_contribution_points(contribution_type: &str, action: &str) -> (points: i32)
        ensures
            points == spec_contribution_points(contribution_type@, action@),
    {
        let dict = str_eq(contribution_type, "dictionary_entry");
        let tr = str_eq(contribution_type, "translation_request");
        if dict && str_eq(action, "create") {
            10
        } else if dict && str_eq(action, "update") {
            5
        } else if dict && str_eq(action, "verify") {
            15
        } else if tr && str_eq(action, "create") {
            3
        } else if tr && str_eq(action, "complete") {
            8
        } else if dict && str_eq(action, "review") {
            5
        } else {
            1
        }
    }
}

} // verus!
