//! Proof orchestration core of a light client that follows an Aptos chain
//! through succinct proofs.
//!
//! The client asks a proof server for two kinds of proof, one for a change of
//! validator committee and one for the inclusion of an account in the latest
//! ledger, and checks each of them against the committee it already trusts.
//! This crate holds the decisions of that client; sockets, HTTP and the task
//! runtime belong to the program built around it.

pub mod bootstrap;
pub mod bytes;
pub mod canonical;
pub mod endpoints;
pub mod error;
pub mod framing;
pub mod hash;
pub mod laws;
pub mod ledger;
pub mod merkle;
pub mod pipeline;
pub mod protocol;
pub mod proving;
pub mod text;
pub mod public_values;
pub mod ratchet;
pub mod trusted_state;
pub mod verification;
pub mod waypoint;
