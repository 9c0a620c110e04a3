//! Assigns a productivity status to an observed activity by user-defined
//! rules.

pub mod activities;
pub mod classifier;
pub mod config;
pub mod rules;
pub mod text;

pub use self::classifier::{Classifiable, Classifier};
pub use self::config::ClassifierConfig;
