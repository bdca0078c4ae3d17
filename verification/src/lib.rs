//! Content model for a static incubator dashboard.
//!
//! The library describes everything the dashboard window shows — the
//! navigation bar, the date/search controls, and a list of incubator cards
//! with badges, task checklists and footer labels — as plain verified data.
//! A thin GUI shell turns these descriptions into toolkit widgets; all text
//! that appears on screen is produced and specified here.

pub mod text;
pub mod model;
pub mod view;
pub mod chrome;
pub mod dashboard;
pub mod style;
