//! Derives a grading manifest from the test functions of a source tree and renders it
//! as a continuous-integration workflow.
pub mod cli;
pub mod manifest;
pub mod sorted;
pub mod text;
pub mod types;
pub mod utils;
