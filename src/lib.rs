//! Controller for transparent network anonymization: decides whether the
//! redirect rule is live, drives the privileged toggle, and resolves the
//! public address and country through redundant lookups.
pub mod json;
pub mod network;
pub mod runs;
pub mod status;
pub mod text;
pub mod toggle;
