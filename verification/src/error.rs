//! Error taxonomy of a receiver session.
//!
//! Every failure is session-local. Validation failures are split into
//! *replyable* errors (the protocol defines a structured rejection that is
//! sent back to the sender through the relay) and *fatal* errors (no
//! sender-facing response is possible; the session simply stops).

use vstd::prelude::*;

verus! {

/// The reason a session ended in the `Errored` state.
#[derive(Clone, Copy, Debug, PartialEq, Eq, Structural)]
pub enum ErrorKind {
    /// Transport key material could not be fetched from the directory.
    KeyFetchFailed,
    /// The destination address did not parse as a Bitcoin address.
    MalformedAddress,
    /// The relay was unreachable or returned a malformed response.
    TransportFailed,
    /// The proposal's transaction cannot currently be broadcast.
    BroadcastUnsuitable,
    /// One of the sender's declared inputs is owned by the receiver's wallet.
    OwnInputInProposal,
    /// One of the proposal's inputs was already used in a prior session.
    InputSeenBefore,
    /// No output of the proposal pays the receiver.
    MissingReceiverOutput,
    /// The wallet offered no unspent output that could be contributed.
    NoViableInput,
    /// The selected contribution is already an input of the proposal.
    DuplicateInput,
    /// An amount sum exceeded the representable range.
    AmountOverflow,
    /// The wallet failed to sign or finalize the joint transaction.
    SigningFailed,
    /// The wallet answered a query with a malformed result.
    WalletError,
    /// The session was cancelled at a suspension point.
    Cancelled,
    /// No proposal arrived within the maximum polling duration.
    PollTimeout,
    /// An event arrived that the current session state cannot accept.
    UnexpectedEvent,
}

/// Whether the protocol defines a rejection message that should be sent back
/// to the sender for this failure. The three validation checks and output
/// identification are replyable; everything else is fatal with no
/// sender-facing response.
pub open spec fn spec_is_replyable(k: ErrorKind) -> bool {
    ||| k is BroadcastUnsuitable
    ||| k is OwnInputInProposal
    ||| k is InputSeenBefore
    ||| k is MissingReceiverOutput
}

impl ErrorKind {
    /// Replyable errors are answered with a structured rejection through the
    /// relay; fatal errors end the session silently.
    pub fn is_replyable(&self) -> (r: bool)
        ensures
            r == spec_is_replyable(*self),
    {
        match self {
            ErrorKind::BroadcastUnsuitable => true,
            ErrorKind::OwnInputInProposal => true,
            ErrorKind::InputSeenBefore => true,
            ErrorKind::MissingReceiverOutput => true,
            _ => false,
        }
    }
}

} // verus!
