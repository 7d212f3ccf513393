//! The rules engine: identity lineage checks and validator decisions.

pub mod decision;
pub mod identity_validator;
