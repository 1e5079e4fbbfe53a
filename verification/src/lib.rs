//! Verified core of a GraphQL backend that keeps clients, worksites and user
//! accounts of a business that surveys buildings for asbestos and lead.
//!
//! The crate holds what such a backend decides: how a password becomes a
//! stored credential and how one is checked, which shape the records have,
//! what each resolver asks of the relational store and how it answers the
//! caller. Talking to the store, waiting for the pool and the HTTP transport
//! are left to the program around it, which hands plain values in and takes
//! plain values back.

pub mod credentials;
pub mod errors;
pub mod graphql;
pub mod guarantees;
pub mod models;
pub mod store;
pub mod tables;
pub mod timestamp;
