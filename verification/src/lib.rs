//! State management for an over-the-air patch updater.
//!
//! The crate keeps the durable record of which patch payload lives in which
//! storage slot, which slot is active, and which patch versions are known to
//! boot or known to fail. Every function is verified against a mathematical
//! model of that record; reading and writing files and fetching payloads are
//! left to the caller, who is told what to do next and reports how it went.

pub mod cache;
pub mod error;
pub mod install;
pub mod layout;
pub mod network;
