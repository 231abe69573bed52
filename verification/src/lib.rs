//! An authorization-bridged message construction and owner-gated dispatch
//! engine.
//!
//! The crate provides four verified components:
//! - a binary codec: a deterministic tagged-field ("protobuf-style") message
//!   encoding and a canonical length-prefixed list ("RLP-style") encoding for
//!   legacy transaction records;
//! - an envelope builder that pairs an encoded record with a type URL so a
//!   generic dispatcher can forward it without knowing its schema;
//! - an authorization bridge that builds grant and exec records for a
//!   delegated executor;
//! - an owner-gated dispatcher holding a single owner identity, together with
//!   a pure restriction-policy evaluator.

pub mod authz;
pub mod canonical;
pub mod envelope;
pub mod error;
pub mod evm;
pub mod hexstr;
pub mod identity;
pub mod owner;
pub mod policy;
pub mod proto;
pub mod response;
