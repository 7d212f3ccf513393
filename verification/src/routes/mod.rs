//! The request handlers' logic: what each endpoint decides and computes.

pub mod access;
pub mod attack;
pub mod auth;
pub mod evaluate;
pub mod sign;
pub mod validate;
pub mod verify;
