//! Explains failed AWS CLI commands and simulates IAM permissions.
pub mod analysis;
pub mod aws;
pub mod clean_text;
pub mod commands;
pub mod context;
pub mod diagnosis;
pub mod errors;
pub mod evaluations;
pub mod json;
pub mod model;
pub mod output;
pub mod outside;
pub mod permissions;
pub mod phrases;
pub mod redaction;
pub mod runner;
pub mod simulation;
pub mod sorting;
pub mod text;

pub use analysis::{analyze, analyze_text, validate_candidate_policies};
