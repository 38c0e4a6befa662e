//! A verified core for a minimal single-resource todo service.
//!
//! The library models the persisted table as an explicit store value and
//! proves the behaviour of the five data operations — filtered listing,
//! insertion with a fresh identifier, read-merge-write patching, idempotent
//! deletion and table-wide deletion — together with the translation of each
//! outcome into an HTTP-style reply. Process plumbing (the socket, the
//! connection pool, JSON framing) lives outside the library.

pub mod controllers;
pub mod errors;
pub mod laws;
pub mod models;
pub mod store;
