//! Query conditions and statistics exchanged with the persistence layer.
use vstd::prelude::*;

verus! {

/// Filters of a role listing.
pub struct RoleSearchCondition {
    pub role_name: Option<String>,
    pub role_key: Option<String>,
    pub status: Option<String>,
}

/// Filters of a nursing plan listing.
pub struct NursingPlanSearchCondition {
    pub plan_name: Option<String>,
    pub status: Option<i32>,
}

/// Head counts of the residents and the nursing staff.
pub struct NursingStats {
    pub total_elders: i32,
    pub checked_in_elders: i32,
    pub on_leave_elders: i32,
    pub checked_out_elders: i32,
    pub total_nurses: i32,
    pub total_projects: i32,
}

} // verus!
