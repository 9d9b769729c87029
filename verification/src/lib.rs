//! Core of a per-user todo service: credential hashing, signed-token
//! issuance and validation, per-request identity extraction, resource
//! ownership enforcement, and the CRUD actions with their partial-update
//! contract. The persistence collaborator is modelled by an in-memory
//! store whose invariants (unique ids, unique usernames, owners that
//! exist) are stated and proved.

pub mod actions;
pub mod auth;
pub mod error;
pub mod models;
pub mod password;
pub mod store;
