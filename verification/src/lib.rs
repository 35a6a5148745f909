//! Verification of Keycloak-issued bearer tokens: claim model, role
//! extraction, signature checks against a rotating key set, and the policy
//! that decides when a refresh of the cached keys is worth one retry.

pub mod claims;
pub mod decode;
pub mod error;
pub mod instant;
pub mod retry;
pub mod role;
pub mod token;
