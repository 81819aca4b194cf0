//! Incoming-message processing and commit staging/merging for one MLS-style
//! secure messaging group.
//!
//! A group of parties shares a cryptographic state that advances in epochs as
//! members propose and commit changes.  This crate verifies the processing
//! pipeline for incoming protocol messages (framing validation, decryption
//! model, signature checks, semantic dispatch by sender category), the commit
//! stager that computes the prospective next epoch without mutating the live
//! group, and the commit merger that applies a staged commit atomically with
//! respect to the in-memory storage collaborator.
//!
//! Cryptographic primitives and the key-schedule chain are outside the scope
//! of the protocol logic; they are modeled here by pure, deterministic
//! functions over plain integers so that every protocol decision is verified.

pub mod errors;
pub mod group;
pub mod merging;
pub mod processing;
pub mod properties;
pub mod staging;
pub mod storage;
pub mod types;
pub mod validate;
