//! Colours of the storm-report markers.

use super::{from_rgb, Color32};
use crate::mping::ReportCategory;
use vstd::prelude::*;

verus! {

/// Stroke (and label) color for any marker — chosen for legibility
/// against both bright reflectivity fills and the dark canvas
/// background.
#[verifier::allow_in_spec]
pub fn stroke() -> Color32
    returns
        crate::colors::rgb(20, 20, 25),
{
    from_rgb(20, 20, 25)
}

/// Fill colour of a category.
pub open spec fn fill_of(category: ReportCategory) -> Color32 {
    match category {
        ReportCategory::RainSnow => crate::colors::rgb(120, 200, 255),
        ReportCategory::Hail => crate::colors::rgb(255, 230, 80),
        ReportCategory::WindDamage => crate::colors::rgb(255, 160, 60),
        ReportCategory::Tornado => crate::colors::rgb(255, 80, 80),
        ReportCategory::Flood => crate::colors::rgb(80, 120, 220),
        ReportCategory::ReducedVisibility => crate::colors::rgb(180, 180, 180),
        ReportCategory::Other => crate::colors::rgb(220, 220, 220),
    }
}

/// Fill color for a report's marker, by category.
pub fn fill(category: ReportCategory) -> (c: Color32)
    ensures
        c == fill_of(category),
{
    match category {
        ReportCategory::RainSnow => from_rgb(120, 200, 255),
        ReportCategory::Hail => from_rgb(255, 230, 80),
        ReportCategory::WindDamage => from_rgb(255, 160, 60),
        ReportCategory::Tornado => from_rgb(255, 80, 80),
        ReportCategory::Flood => from_rgb(80, 120, 220),
        ReportCategory::ReducedVisibility => from_rgb(180, 180, 180),
        ReportCategory::Other => from_rgb(220, 220, 220),
    }
}

} // verus!
