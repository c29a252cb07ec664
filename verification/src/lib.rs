//! Receiver side of an asynchronous, relay-based Bitcoin transaction-merging
//! protocol. A payment request is published as a shareable URI; a counterparty
//! submits a candidate transaction through an oblivious relay; the receiver
//! validates it with a fixed sequence of security checks, contributes one of
//! its own inputs to improve privacy, finalizes the joint transaction and
//! returns it through the relay.
//!
//! The crate verifies the decision core: the session state machine, the
//! ordered proposal validation chain, the privacy-preserving input selection,
//! and the construction of the payment URI. Network transport, wallet RPC and
//! the cryptographic envelope are external collaborators; a driver hands their
//! results to the state machine as plain values.

pub mod amount;
pub mod error;
pub mod proposal;
pub mod receiver;
pub mod session;
pub mod uri;
