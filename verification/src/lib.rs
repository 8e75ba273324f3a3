//! The core of a personal finance record-keeper: users authenticate, define
//! spending and income categories, and log transactions against them.
//!
//! Two pieces carry the real contracts.  The credential and token subsystem
//! ([`creds`], [`token`], [`auth`]) hashes and verifies passwords, issues
//! and validates signed tokens, and turns a request's bearer token into a
//! caller identity.  The transactional batch-write engine ([`categories`],
//! [`transactions`], [`users`]) applies ordered batches of dependent writes
//! against the store model ([`store`]) as all-or-nothing units of work,
//! resolving category references by slug ([`slugs`]) inside the same unit.
//!
//! Everything here is stated against the in-memory store model; binding the
//! same decisions to a relational store is left to the surrounding service.

pub mod auth;
pub mod categories;
pub mod creds;
pub mod errors;
pub mod models;
pub mod slugs;
pub mod store;
pub mod token;
pub mod transactions;
pub mod users;
