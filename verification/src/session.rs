//! The session state machine.
//!
//! One receiver session moves through `Created -> AwaitingKeys ->
//! AwaitingProposal -> (validation stages) -> ContributingInputs ->
//! Finalizing -> Sending -> Completed`, with `Errored` reachable from every
//! non-terminal state. Cancellation is an [`Event`] accepted at every
//! suspension point, and a poll that exceeds its maximum duration fails the
//! session with a timeout error instead of looping on. Every suspension
//! point of the protocol — a network
//! round trip or a wallet query — is an [`Action`] that the surrounding
//! driver performs, answering with an [`Event`]; the whole decision logic
//! lives in [`step`], whose behaviour is pinned by the spec-level transition
//! function [`next_state`].

use vstd::prelude::*;

use crate::error::ErrorKind;
use crate::error::spec_is_replyable;
use crate::proposal::BroadcastChecked;
use crate::proposal::CandidateInput;
use crate::proposal::Finalized;
use crate::proposal::InputsContributed;
use crate::proposal::InputsNotOwnedChecked;
use crate::proposal::NotSeenBeforeChecked;
use crate::proposal::OutputsIdentified;
use crate::proposal::TxModel;
use crate::proposal::UncheckedProposal;
use crate::proposal::all_false;
use crate::proposal::contribute_err;
use crate::proposal::contribute_tx;
use crate::proposal::first_true;
use crate::proposal::lemma_first_true;
use crate::proposal::lemma_scan_pick_is_candidate;
use crate::proposal::spec_selected;
use crate::proposal::stage_wf;
use crate::proposal::try_contributing_inputs;
use crate::proposal::tx_wf;

verus! {

/// The state of one receiver session. Proposal-carrying states hold the
/// stage that the proposal chain has reached.
#[derive(Debug)]
pub enum SessionState {
    /// The session exists but nothing has been done yet.
    Created,
    /// Transport key material is being fetched from the directory.
    AwaitingKeys,
    /// The shareable URI is out; polling the relay for a proposal.
    AwaitingProposal,
    /// A proposal arrived; asking the wallet whether it can be broadcast.
    CheckingBroadcast(UncheckedProposal),
    /// Asking the wallet whether it owns any of the sender's inputs.
    CheckingInputsOwned(BroadcastChecked),
    /// Asking the seen-input store about each input.
    CheckingInputsSeen(InputsNotOwnedChecked),
    /// Asking the wallet which outputs pay the receiver.
    IdentifyingOutputs(NotSeenBeforeChecked),
    /// Asking the wallet for unspent outputs to contribute.
    ContributingInputs(OutputsIdentified),
    /// Asking the wallet to sign the joint transaction.
    Finalizing(InputsContributed),
    /// Sending the finalized proposal back through the relay.
    Sending(Finalized),
    /// The finalized proposal was delivered; the session is over.
    Completed,
    /// The session failed; terminal.
    Errored(ErrorKind),
}

/// The answer the driver delivers after performing the requested action.
#[derive(Debug)]
pub enum Event {
    /// The caller asked for the session to start.
    StartRequested,
    /// Transport key material arrived.
    KeysFetched,
    /// The directory could not provide key material.
    KeyFetchFailed,
    /// A poll round trip returned a proposal.
    ProposalReceived(UncheckedProposal),
    /// A poll round trip returned an empty body: nothing yet.
    PollEmpty,
    /// A relay round trip failed outright.
    TransportFailed,
    /// The wallet's verdict on broadcasting the proposal's transaction.
    CanBroadcast(bool),
    /// For each proposal input, whether the wallet owns it.
    InputsOwned(Vec<bool>),
    /// For each proposal input, whether it was seen in a prior session.
    InputsSeen(Vec<bool>),
    /// For each proposal output, whether it pays the receiver.
    OutputsOwned(Vec<bool>),
    /// The wallet's unspent outputs, as contribution candidates.
    UnspentListed(Vec<CandidateInput>),
    /// Whether the wallet signed and finalized the joint transaction.
    PsbtSigned(bool),
    /// Whether the final relay round trip succeeded.
    SendResult(bool),
    /// No proposal arrived within the maximum polling duration.
    PollTimedOut,
    /// The session was cancelled from outside.
    Cancelled,
}

/// What the driver must do next on behalf of the session.
#[derive(Clone, Copy, Debug, PartialEq, Eq, Structural)]
pub enum Action {
    /// Fetch transport key material from the directory.
    FetchKeys,
    /// Poll the relay for a proposal.
    Poll,
    /// Ask the wallet whether the proposal's transaction can be broadcast.
    QueryCanBroadcast,
    /// Ask the wallet which proposal inputs it owns.
    QueryInputsOwned,
    /// Ask the seen-input store about each proposal input.
    QueryInputsSeen,
    /// Ask the wallet which proposal outputs it owns.
    QueryOutputsOwned,
    /// Ask the wallet for its unspent outputs.
    ListUnspent,
    /// Ask the wallet to sign the joint transaction.
    SignPsbt,
    /// Send the finalized proposal through the relay.
    SendProposal,
    /// Send the protocol's structured rejection to the sender.
    SendRejection,
    /// Nothing more to do; the session is terminal.
    Stop,
}

/// The mathematical content of a [`SessionState`].
#[verifier::ext_equal]
pub ghost enum StateModel {
    Created,
    AwaitingKeys,
    AwaitingProposal,
    CheckingBroadcast { tx: TxModel },
    CheckingInputsOwned { tx: TxModel },
    CheckingInputsSeen { tx: TxModel },
    IdentifyingOutputs { tx: TxModel },
    ContributingInputs { tx: TxModel, change_vout: int },
    Finalizing { tx: TxModel, change_vout: int, contributed: CandidateInput },
    Sending { tx: TxModel, change_vout: int, contributed: CandidateInput },
    Completed,
    Errored { kind: ErrorKind },
}

/// The mathematical content of an [`Event`].
#[verifier::ext_equal]
pub ghost enum EventModel {
    StartRequested,
    KeysFetched,
    KeyFetchFailed,
    ProposalReceived { tx: TxModel },
    PollEmpty,
    TransportFailed,
    CanBroadcast { ok: bool },
    InputsOwned { owned: Seq<bool> },
    InputsSeen { seen: Seq<bool> },
    OutputsOwned { mine: Seq<bool> },
    UnspentListed { candidates: Seq<CandidateInput> },
    PsbtSigned { ok: bool },
    SendResult { ok: bool },
    PollTimedOut,
    Cancelled,
}

impl View for SessionState {
    type V = StateModel;

    open spec fn view(&self) -> StateModel {
        match self {
            SessionState::Created => StateModel::Created,
            SessionState::AwaitingKeys => StateModel::AwaitingKeys,
            SessionState::AwaitingProposal => StateModel::AwaitingProposal,
            SessionState::CheckingBroadcast(p) => StateModel::CheckingBroadcast { tx: p.tx@ },
            SessionState::CheckingInputsOwned(p) => StateModel::CheckingInputsOwned { tx: p.tx@ },
            SessionState::CheckingInputsSeen(p) => StateModel::CheckingInputsSeen { tx: p.tx@ },
            SessionState::IdentifyingOutputs(p) => StateModel::IdentifyingOutputs { tx: p.tx@ },
            SessionState::ContributingInputs(p) => StateModel::ContributingInputs {
                tx: p.tx@,
                change_vout: p.change_vout as int,
            },
            SessionState::Finalizing(p) => StateModel::Finalizing {
                tx: p.tx@,
                change_vout: p.change_vout as int,
                contributed: p.contributed,
            },
            SessionState::Sending(p) => StateModel::Sending {
                tx: p.tx@,
                change_vout: p.change_vout as int,
                contributed: p.contributed,
            },
            SessionState::Completed => StateModel::Completed,
            SessionState::Errored(k) => StateModel::Errored { kind: *k },
        }
    }
}

impl View for Event {
    type V = EventModel;

    open spec fn view(&self) -> EventModel {
        match self {
            Event::StartRequested => EventModel::StartRequested,
            Event::KeysFetched => EventModel::KeysFetched,
            Event::KeyFetchFailed => EventModel::KeyFetchFailed,
            Event::ProposalReceived(p) => EventModel::ProposalReceived { tx: p.tx@ },
            Event::PollEmpty => EventModel::PollEmpty,
            Event::TransportFailed => EventModel::TransportFailed,
            Event::CanBroadcast(ok) => EventModel::CanBroadcast { ok: *ok },
            Event::InputsOwned(v) => EventModel::InputsOwned { owned: v@ },
            Event::InputsSeen(v) => EventModel::InputsSeen { seen: v@ },
            Event::OutputsOwned(v) => EventModel::OutputsOwned { mine: v@ },
            Event::UnspentListed(v) => EventModel::UnspentListed { candidates: v@ },
            Event::PsbtSigned(ok) => EventModel::PsbtSigned { ok: *ok },
            Event::SendResult(ok) => EventModel::SendResult { ok: *ok },
            Event::PollTimedOut => EventModel::PollTimedOut,
            Event::Cancelled => EventModel::Cancelled,
        }
    }
}

/// Structural validity of a session state: every proposal it carries has
/// one value per input, and a committed change output index is in range.
pub open spec fn state_wf(s: StateModel) -> bool {
    match s {
        StateModel::CheckingBroadcast { tx } => tx_wf(tx),
        StateModel::CheckingInputsOwned { tx } => tx_wf(tx),
        StateModel::CheckingInputsSeen { tx } => tx_wf(tx),
        StateModel::IdentifyingOutputs { tx } => tx_wf(tx),
        StateModel::ContributingInputs { tx, change_vout } => stage_wf(tx, change_vout),
        StateModel::Finalizing { tx, change_vout, .. } => stage_wf(tx, change_vout),
        StateModel::Sending { tx, change_vout, .. } => stage_wf(tx, change_vout),
        _ => true,
    }
}

/// Structural validity of an event: a delivered proposal has one value per
/// input.
pub open spec fn event_wf(e: EventModel) -> bool {
    match e {
        EventModel::ProposalReceived { tx } => tx_wf(tx),
        _ => true,
    }
}

/// The transition function of the session: the state after delivering
/// event `e` in state `s`. Terminal states absorb every event; an event
/// that does not belong to the current state is rejected as out of order.
pub open spec fn next_state(s: StateModel, e: EventModel) -> StateModel {
    match (s, e) {
        (StateModel::Created, EventModel::StartRequested) => StateModel::AwaitingKeys,
        (StateModel::AwaitingKeys, EventModel::KeysFetched) => StateModel::AwaitingProposal,
        (StateModel::AwaitingKeys, EventModel::KeyFetchFailed) => StateModel::Errored {
            kind: ErrorKind::KeyFetchFailed,
        },
        (StateModel::AwaitingProposal, EventModel::PollEmpty) => StateModel::AwaitingProposal,
        (StateModel::AwaitingProposal, EventModel::ProposalReceived { tx }) =>
            StateModel::CheckingBroadcast { tx },
        (StateModel::AwaitingProposal, EventModel::TransportFailed) => StateModel::Errored {
            kind: ErrorKind::TransportFailed,
        },
        (StateModel::AwaitingProposal, EventModel::PollTimedOut) => StateModel::Errored {
            kind: ErrorKind::PollTimeout,
        },
        (StateModel::CheckingBroadcast { tx }, EventModel::CanBroadcast { ok }) => if ok {
            StateModel::CheckingInputsOwned { tx }
        } else {
            StateModel::Errored { kind: ErrorKind::BroadcastUnsuitable }
        },
        (StateModel::CheckingInputsOwned { tx }, EventModel::InputsOwned { owned }) => if owned.len()
            != tx.input_ids.len() {
            StateModel::Errored { kind: ErrorKind::WalletError }
        } else if !all_false(owned) {
            StateModel::Errored { kind: ErrorKind::OwnInputInProposal }
        } else {
            StateModel::CheckingInputsSeen { tx }
        },
        (StateModel::CheckingInputsSeen { tx }, EventModel::InputsSeen { seen }) => if seen.len()
            != tx.input_ids.len() {
            StateModel::Errored { kind: ErrorKind::WalletError }
        } else if !all_false(seen) {
            StateModel::Errored { kind: ErrorKind::InputSeenBefore }
        } else {
            StateModel::IdentifyingOutputs { tx }
        },
        (StateModel::IdentifyingOutputs { tx }, EventModel::OutputsOwned { mine }) => if mine.len()
            != tx.output_values.len() {
            StateModel::Errored { kind: ErrorKind::WalletError }
        } else if all_false(mine) {
            StateModel::Errored { kind: ErrorKind::MissingReceiverOutput }
        } else {
            StateModel::ContributingInputs { tx, change_vout: first_true(mine) }
        },
        (
            StateModel::ContributingInputs { tx, change_vout },
            EventModel::UnspentListed { candidates },
        ) => if candidates.len() == 0 {
            StateModel::Errored { kind: ErrorKind::NoViableInput }
        } else {
            match spec_selected(tx, change_vout, candidates) {
                Option::Some(c) => match contribute_err(tx, change_vout, c) {
                    Option::Some(k) => StateModel::Errored { kind: k },
                    Option::None => StateModel::Finalizing {
                        tx: contribute_tx(tx, change_vout, c),
                        change_vout,
                        contributed: c,
                    },
                },
                Option::None => StateModel::Errored { kind: ErrorKind::NoViableInput },
            }
        },
        (
            StateModel::Finalizing { tx, change_vout, contributed },
            EventModel::PsbtSigned { ok },
        ) => if ok {
            StateModel::Sending { tx, change_vout, contributed }
        } else {
            StateModel::Errored { kind: ErrorKind::SigningFailed }
        },
        (StateModel::Sending { .. }, EventModel::SendResult { ok }) => if ok {
            StateModel::Completed
        } else {
            StateModel::Errored { kind: ErrorKind::TransportFailed }
        },
        (StateModel::Completed, _) => StateModel::Completed,
        (StateModel::Errored { kind }, _) => StateModel::Errored { kind },
        (_, EventModel::Cancelled) => StateModel::Errored { kind: ErrorKind::Cancelled },
        _ => StateModel::Errored { kind: ErrorKind::UnexpectedEvent },
    }
}

/// The action owed after the same delivery: each state entered names the
/// outside work that continues the protocol; entering `Errored` on a
/// replyable failure owes the sender a structured rejection.
pub open spec fn next_action(s: StateModel, e: EventModel) -> Action {
    match next_state(s, e) {
        StateModel::Created => Action::Stop,
        StateModel::AwaitingKeys => Action::FetchKeys,
        StateModel::AwaitingProposal => Action::Poll,
        StateModel::CheckingBroadcast { .. } => Action::QueryCanBroadcast,
        StateModel::CheckingInputsOwned { .. } => Action::QueryInputsOwned,
        StateModel::CheckingInputsSeen { .. } => Action::QueryInputsSeen,
        StateModel::IdentifyingOutputs { .. } => Action::QueryOutputsOwned,
        StateModel::ContributingInputs { .. } => Action::ListUnspent,
        StateModel::Finalizing { .. } => Action::SignPsbt,
        StateModel::Sending { .. } => Action::SendProposal,
        StateModel::Completed => Action::Stop,
        StateModel::Errored { kind } => if spec_is_replyable(kind) {
            Action::SendRejection
        } else {
            Action::Stop
        },
    }
}

/// Enters the `Errored` state, owing a rejection for replyable failures.
fn fail(k: ErrorKind) -> (r: (SessionState, Action))
    ensures
        r.0@ == (StateModel::Errored { kind: k }),
        r.1 == if spec_is_replyable(k) {
            Action::SendRejection
        } else {
            Action::Stop
        },
{
    let action = if k.is_replyable() {
        Action::SendRejection
    } else {
        Action::Stop
    };
    (SessionState::Errored(k), action)
}

/// Delivers one event to the session and returns the state after it and
/// the action the driver must perform next. The whole protocol logic of a
/// session is this function, iterated by the driver.
pub fn step(state: SessionState, event: Event) -> (r: (SessionState, Action))
    requires
        state_wf(state@),
        event_wf(event@),
    ensures
        r.0@ == next_state(state@, event@),
        r.1 == next_action(state@, event@),
        state_wf(r.0@),
{
    match (state, event) {
        (SessionState::Created, Event::StartRequested) => (
            SessionState::AwaitingKeys,
            Action::FetchKeys,
        ),
        (SessionState::AwaitingKeys, Event::KeysFetched) => (
            SessionState::AwaitingProposal,
            Action::Poll,
        ),
        (SessionState::AwaitingKeys, Event::KeyFetchFailed) => fail(ErrorKind::KeyFetchFailed),
        (SessionState::AwaitingProposal, Event::PollEmpty) => (
            SessionState::AwaitingProposal,
            Action::Poll,
        ),
        (SessionState::AwaitingProposal, Event::ProposalReceived(p)) => (
            SessionState::CheckingBroadcast(p),
            Action::QueryCanBroadcast,
        ),
        (SessionState::AwaitingProposal, Event::TransportFailed) => fail(
            ErrorKind::TransportFailed,
        ),
        (SessionState::AwaitingProposal, Event::PollTimedOut) => fail(ErrorKind::PollTimeout),
        (SessionState::CheckingBroadcast(p), Event::CanBroadcast(ok)) => match p
            .check_broadcast_suitability(ok) {
            Ok(q) => (SessionState::CheckingInputsOwned(q), Action::QueryInputsOwned),
            Err(k) => fail(k),
        },
        (SessionState::CheckingInputsOwned(p), Event::InputsOwned(owned)) => match p
            .check_inputs_not_owned(&owned) {
            Ok(q) => (SessionState::CheckingInputsSeen(q), Action::QueryInputsSeen),
            Err(k) => fail(k),
        },
        (SessionState::CheckingInputsSeen(p), Event::InputsSeen(seen)) => match p
            .check_no_inputs_seen_before(&seen) {
            Ok(q) => (SessionState::IdentifyingOutputs(q), Action::QueryOutputsOwned),
            Err(k) => fail(k),
        },
        (SessionState::IdentifyingOutputs(p), Event::OutputsOwned(mine)) => match p
            .identify_receiver_outputs(&mine) {
            Ok(q) => (SessionState::ContributingInputs(q), Action::ListUnspent),
            Err(k) => fail(k),
        },
        (SessionState::ContributingInputs(p), Event::UnspentListed(cands)) => match
            try_contributing_inputs(p, &cands) {
            Ok(q) => (SessionState::Finalizing(q), Action::SignPsbt),
            Err(k) => fail(k),
        },
        (SessionState::Finalizing(p), Event::PsbtSigned(ok)) => match p.finalize_proposal(ok) {
            Ok(q) => (SessionState::Sending(q), Action::SendProposal),
            Err(k) => fail(k),
        },
        (SessionState::Sending(_), Event::SendResult(ok)) => if ok {
            (SessionState::Completed, Action::Stop)
        } else {
            fail(ErrorKind::TransportFailed)
        },
        (SessionState::Completed, _) => (SessionState::Completed, Action::Stop),
        (SessionState::Errored(k), _) => fail(k),
        (_, Event::Cancelled) => fail(ErrorKind::Cancelled),
        _ => fail(ErrorKind::UnexpectedEvent),
    }
}

/// The position of a state in the fixed stage order of a session.
pub open spec fn phase(s: StateModel) -> int {
    match s {
        StateModel::Created => 0,
        StateModel::AwaitingKeys => 1,
        StateModel::AwaitingProposal => 2,
        StateModel::CheckingBroadcast { .. } => 3,
        StateModel::CheckingInputsOwned { .. } => 4,
        StateModel::CheckingInputsSeen { .. } => 5,
        StateModel::IdentifyingOutputs { .. } => 6,
        StateModel::ContributingInputs { .. } => 7,
        StateModel::Finalizing { .. } => 8,
        StateModel::Sending { .. } => 9,
        StateModel::Completed => 10,
        StateModel::Errored { .. } => 11,
    }
}

/// The stages of a session are applied in their fixed order: no event ever
/// moves a session backwards or lets it skip a stage — a transition either
/// stays in place, advances by exactly one stage, or fails into `Errored`
/// — and the terminal states absorb every further event unchanged.
pub proof fn lemma_stages_in_order(s: StateModel, e: EventModel)
    ensures
        next_state(s, e) is Errored || (phase(s) <= phase(next_state(s, e)) <= phase(s) + 1),
        s is Completed ==> next_state(s, e) is Completed,
        s is Errored ==> next_state(s, e) == s,
{
}

/// An empty poll response means "nothing yet": the session stays in
/// `AwaitingProposal` and polls again rather than terminating.
pub proof fn lemma_empty_poll_polls_again()
    ensures
        next_state(StateModel::AwaitingProposal, EventModel::PollEmpty)
            == StateModel::AwaitingProposal,
        next_action(StateModel::AwaitingProposal, EventModel::PollEmpty) == Action::Poll,
{
}

/// A wallet that cannot broadcast the proposal's transaction ends the
/// session in `Errored(BroadcastUnsuitable)`, and from there no event ever
/// reaches input contribution or any later stage.
pub proof fn lemma_broadcast_refusal_is_fatal(tx: TxModel)
    ensures
        next_state(StateModel::CheckingBroadcast { tx }, EventModel::CanBroadcast { ok: false })
            == (StateModel::Errored { kind: ErrorKind::BroadcastUnsuitable }),
        forall|e: EventModel|
            next_state(StateModel::Errored { kind: ErrorKind::BroadcastUnsuitable }, e)
                == (StateModel::Errored { kind: ErrorKind::BroadcastUnsuitable }),
{
}

/// A wallet with no unspent outputs makes the contribution step fail with
/// `NoViableInput`; the session terminates and never asks for a signature.
pub proof fn lemma_no_unspent_aborts(tx: TxModel, change_vout: int)
    ensures
        next_state(
            StateModel::ContributingInputs { tx, change_vout },
            EventModel::UnspentListed { candidates: Seq::empty() },
        ) == (StateModel::Errored { kind: ErrorKind::NoViableInput }),
        next_action(
            StateModel::ContributingInputs { tx, change_vout },
            EventModel::UnspentListed { candidates: Seq::empty() },
        ) == Action::Stop,
{
}

/// Cancellation is honoured at every suspension point: in any state that
/// is not already terminal, a cancellation event ends the session at once,
/// and a poll that exceeds its maximum duration fails the session with a
/// timeout error rather than polling on.
pub proof fn lemma_cancellation_observed(s: StateModel)
    ensures
        s !is Completed && s !is Errored ==> next_state(s, EventModel::Cancelled)
            == (StateModel::Errored { kind: ErrorKind::Cancelled }),
        next_state(StateModel::AwaitingProposal, EventModel::PollTimedOut) == (StateModel::Errored {
            kind: ErrorKind::PollTimeout,
        }),
{
}

/// Mutual exclusivity of sender and receiver input sets: whenever the
/// contribution step succeeds, the contributed input comes from the
/// wallet's candidate list and is not one of the sender's declared inputs.
pub proof fn lemma_contribution_exclusive(
    tx: TxModel,
    change_vout: int,
    candidates: Seq<CandidateInput>,
)
    ensures
        next_state(
            StateModel::ContributingInputs { tx, change_vout },
            EventModel::UnspentListed { candidates },
        ) matches StateModel::Finalizing { contributed, .. } ==> (candidates.contains(contributed)
            && !tx.input_ids.contains(contributed.outpoint)),
{
    if candidates.len() > 0 {
        match spec_selected(tx, change_vout, candidates) {
            Option::Some(c) => {
                if tx.output_values.len() == 2 {
                    lemma_scan_pick_is_candidate(
                        tx.output_values[change_vout],
                        crate::proposal::min_or(tx.input_values, crate::proposal::MAX_MONEY_SATS),
                        crate::proposal::min_or(tx.output_values, crate::proposal::MAX_MONEY_SATS),
                        candidates,
                    );
                }
                assert(candidates.contains(candidates[0]));
            },
            Option::None => {},
        }
    }
}

/// The round trip of a successful session: from the arrival of a proposal
/// through all three validation checks, output identification and input
/// contribution, the proposal reaching the signing stage carries all the
/// sender's inputs and outputs unchanged, plus exactly the one contributed
/// input, whose whole value was credited to the receiver's change output.
pub proof fn lemma_round_trip(
    tx: TxModel,
    owned: Seq<bool>,
    seen: Seq<bool>,
    mine: Seq<bool>,
    candidates: Seq<CandidateInput>,
)
    requires
        tx_wf(tx),
        owned.len() == tx.input_ids.len(),
        all_false(owned),
        seen.len() == tx.input_ids.len(),
        all_false(seen),
        mine.len() == tx.output_values.len(),
        !all_false(mine),
        candidates.len() > 0,
        contribute_err(
            tx,
            first_true(mine),
            spec_selected(tx, first_true(mine), candidates)->0,
        ) is None,
    ensures
        ({
            let s1 = next_state(
                StateModel::AwaitingProposal,
                EventModel::ProposalReceived { tx },
            );
            let s2 = next_state(s1, EventModel::CanBroadcast { ok: true });
            let s3 = next_state(s2, EventModel::InputsOwned { owned });
            let s4 = next_state(s3, EventModel::InputsSeen { seen });
            let s5 = next_state(s4, EventModel::OutputsOwned { mine });
            let s6 = next_state(s5, EventModel::UnspentListed { candidates });
            let cv = first_true(mine);
            let c = spec_selected(tx, cv, candidates)->0;
            &&& s6 == (StateModel::Finalizing {
                tx: contribute_tx(tx, cv, c),
                change_vout: cv,
                contributed: c,
            })
            &&& contribute_tx(tx, cv, c).input_ids == tx.input_ids.push(c.outpoint)
            &&& contribute_tx(tx, cv, c).input_values == tx.input_values.push(c.value)
            &&& contribute_tx(tx, cv, c).output_values.len() == tx.output_values.len()
            &&& forall|i: int|
                0 <= i < tx.output_values.len() && i != cv ==> contribute_tx(
                    tx,
                    cv,
                    c,
                ).output_values[i] == tx.output_values[i]
            &&& contribute_tx(tx, cv, c).output_values[cv] == tx.output_values[cv] + c.value
            &&& contribute_tx(tx, cv, c).fallback_tx == tx.fallback_tx
            &&& !tx.input_ids.contains(c.outpoint)
        }),
{
    lemma_first_true(mine);
}

} // verus!
