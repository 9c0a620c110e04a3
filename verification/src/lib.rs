//! Activity tracking core: segmentation of window observations into timed
//! records, rule-based productivity classification, and a day-partitioned
//! record container.

pub mod classifier;
pub mod record_store;
pub mod state;
pub mod tui;
pub mod window;
pub mod window_manager;
