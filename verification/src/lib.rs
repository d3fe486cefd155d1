//! Record management for decentralized identifiers (DIDs).
//!
//! A record couples a generated identifier, a caller-supplied public key and
//! a creation time. This crate holds everything about the service that can be
//! decided without touching the network:
//!
//! - [`models`]: the record and how a fresh one is minted;
//! - [`database`]: the statement each endpoint sends to the relational
//!   store, and a table in memory that does what the store is expected to do
//!   with it;
//! - [`response`]: status codes and bodies;
//! - [`routes`]: the routing table, and the response each endpoint gives to
//!   each outcome of its statement;
//! - [`service`]: the five operations from end to end against the table in
//!   memory;
//! - [`laws`]: what holds of the record lifecycle, with proofs.

pub mod database;
pub mod laws;
pub mod models;
pub mod response;
pub mod routes;
pub mod service;
