//! Scheduling and announcement texts for a twice-weekly office-hours series.
//!
//! `calendar` models dates as day numbers, `schedule` finds the next session
//! and its number, and `render` fills in the announcement templates.

pub mod calendar;
pub mod schedule;
pub mod render;
