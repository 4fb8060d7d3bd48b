//! Validation and multi-error aggregation for commit-message fragments.
//!
//! A caller stages the fields of a fragment in a builder, and `build` checks
//! every field, gathers every violation in one ordered [`errors::Errors`]
//! value, and hands back either the finished fragment or the whole report.
pub mod text;
pub mod errors;
pub mod validation;
pub mod email;
pub mod person;
pub mod model;
pub mod footer;
