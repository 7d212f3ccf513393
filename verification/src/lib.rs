//! Fluxlock: a validator network whose members carry a post-quantum
//! (Dilithium2) identity lineage, with the rules that decide access,
//! authentication, identity maturity and validator health.

pub mod crypto;
pub mod state;
pub mod engine;
pub mod network_state;
pub mod identity;
pub mod routes;
