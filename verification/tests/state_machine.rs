//! Tests of the session state machine: stage order, the validation chain,
//! input contribution and the terminal states.

use payjoin_receiver::error::ErrorKind;
use payjoin_receiver::proposal::CandidateInput;
use payjoin_receiver::proposal::UncheckedProposal;
use payjoin_receiver::session::Action;
use payjoin_receiver::session::Event;
use payjoin_receiver::session::SessionState;
use payjoin_receiver::session::step;

/// A two-input, two-output sender proposal: payment of 300 000 sats in
/// output 0, the receiver's output of 50 000 sats at index 1.
fn sample_proposal() -> UncheckedProposal {
    UncheckedProposal::new(
        vec![1, 2],
        vec![100_000, 200_000],
        vec![300_000, 50_000],
        vec![0xde, 0xad],
    )
}

/// Drives a fresh proposal through the three checks and output
/// identification, to the contributing state.
fn contributing_state() -> SessionState {
    let (s, a) = step(
        SessionState::AwaitingProposal,
        Event::ProposalReceived(sample_proposal()),
    );
    assert_eq!(a, Action::QueryCanBroadcast);
    let (s, a) = step(s, Event::CanBroadcast(true));
    assert_eq!(a, Action::QueryInputsOwned);
    let (s, a) = step(s, Event::InputsOwned(vec![false, false]));
    assert_eq!(a, Action::QueryInputsSeen);
    let (s, a) = step(s, Event::InputsSeen(vec![false, false]));
    assert_eq!(a, Action::QueryOutputsOwned);
    let (s, a) = step(s, Event::OutputsOwned(vec![false, true]));
    assert_eq!(a, Action::ListUnspent);
    assert!(matches!(s, SessionState::ContributingInputs(_)));
    s
}

#[test]
fn key_fetch_lifecycle() {
    let (s, a) = step(SessionState::Created, Event::StartRequested);
    assert!(matches!(s, SessionState::AwaitingKeys));
    assert_eq!(a, Action::FetchKeys);
    let (s, a) = step(s, Event::KeysFetched);
    assert!(matches!(s, SessionState::AwaitingProposal));
    assert_eq!(a, Action::Poll);
}

#[test]
fn key_fetch_failure_is_fatal() {
    let (s, a) = step(SessionState::AwaitingKeys, Event::KeyFetchFailed);
    assert!(matches!(s, SessionState::Errored(ErrorKind::KeyFetchFailed)));
    assert_eq!(a, Action::Stop);
}

#[test]
fn empty_poll_polls_again() {
    let (s, a) = step(SessionState::AwaitingProposal, Event::PollEmpty);
    assert!(matches!(s, SessionState::AwaitingProposal));
    assert_eq!(a, Action::Poll);
    let (s, a) = step(s, Event::PollEmpty);
    assert!(matches!(s, SessionState::AwaitingProposal));
    assert_eq!(a, Action::Poll);
}

#[test]
fn poll_transport_failure_is_fatal() {
    let (s, a) = step(SessionState::AwaitingProposal, Event::TransportFailed);
    assert!(matches!(s, SessionState::Errored(ErrorKind::TransportFailed)));
    assert_eq!(a, Action::Stop);
}

#[test]
fn broadcast_refusal_errors_before_contribution() {
    let (s, _) = step(
        SessionState::AwaitingProposal,
        Event::ProposalReceived(sample_proposal()),
    );
    let (s, a) = step(s, Event::CanBroadcast(false));
    assert!(matches!(s, SessionState::Errored(ErrorKind::BroadcastUnsuitable)));
    assert_eq!(a, Action::SendRejection);
    // Terminal: no later event moves the session anywhere else.
    let (s, _) = step(s, Event::UnspentListed(vec![CandidateInput { outpoint: 7, value: 1 }]));
    assert!(matches!(s, SessionState::Errored(ErrorKind::BroadcastUnsuitable)));
}

#[test]
fn owned_input_in_proposal_rejected() {
    let (s, _) = step(
        SessionState::AwaitingProposal,
        Event::ProposalReceived(sample_proposal()),
    );
    let (s, _) = step(s, Event::CanBroadcast(true));
    let (s, a) = step(s, Event::InputsOwned(vec![false, true]));
    assert!(matches!(s, SessionState::Errored(ErrorKind::OwnInputInProposal)));
    assert_eq!(a, Action::SendRejection);
}

#[test]
fn seen_input_rejected() {
    let (s, _) = step(
        SessionState::AwaitingProposal,
        Event::ProposalReceived(sample_proposal()),
    );
    let (s, _) = step(s, Event::CanBroadcast(true));
    let (s, _) = step(s, Event::InputsOwned(vec![false, false]));
    let (s, a) = step(s, Event::InputsSeen(vec![true, false]));
    assert!(matches!(s, SessionState::Errored(ErrorKind::InputSeenBefore)));
    assert_eq!(a, Action::SendRejection);
}

#[test]
fn missing_receiver_output_rejected() {
    let (s, _) = step(
        SessionState::AwaitingProposal,
        Event::ProposalReceived(sample_proposal()),
    );
    let (s, _) = step(s, Event::CanBroadcast(true));
    let (s, _) = step(s, Event::InputsOwned(vec![false, false]));
    let (s, _) = step(s, Event::InputsSeen(vec![false, false]));
    let (s, a) = step(s, Event::OutputsOwned(vec![false, false]));
    assert!(matches!(s, SessionState::Errored(ErrorKind::MissingReceiverOutput)));
    assert_eq!(a, Action::SendRejection);
}

#[test]
fn malformed_wallet_answer_rejected() {
    let (s, _) = step(
        SessionState::AwaitingProposal,
        Event::ProposalReceived(sample_proposal()),
    );
    let (s, _) = step(s, Event::CanBroadcast(true));
    let (s, a) = step(s, Event::InputsOwned(vec![false]));
    assert!(matches!(s, SessionState::Errored(ErrorKind::WalletError)));
    assert_eq!(a, Action::Stop);
}

#[test]
fn out_of_order_event_rejected() {
    let (s, a) = step(SessionState::AwaitingProposal, Event::PsbtSigned(true));
    assert!(matches!(s, SessionState::Errored(ErrorKind::UnexpectedEvent)));
    assert_eq!(a, Action::Stop);
}

#[test]
fn no_unspent_outputs_abort_without_signing() {
    let s = contributing_state();
    let (s, a) = step(s, Event::UnspentListed(vec![]));
    assert!(matches!(s, SessionState::Errored(ErrorKind::NoViableInput)));
    assert_eq!(a, Action::Stop);
    assert_ne!(a, Action::SignPsbt);
}

#[test]
fn candidate_colliding_with_sender_input_rejected() {
    let s = contributing_state();
    // The only candidate is the sender's own first input.
    let (s, a) = step(
        s,
        Event::UnspentListed(vec![CandidateInput { outpoint: 1, value: 400_000 }]),
    );
    assert!(matches!(s, SessionState::Errored(ErrorKind::DuplicateInput)));
    assert_eq!(a, Action::Stop);
}

#[test]
fn heuristic_prefers_privacy_preserving_candidate() {
    let s = contributing_state();
    // The small candidate conforms to the heuristic; the large one defeats
    // it (its addition leaves every input above the smallest output) and
    // must be chosen although it comes second.
    let small = CandidateInput { outpoint: 10, value: 1_000 };
    let large = CandidateInput { outpoint: 11, value: 400_000 };
    let (s, _) = step(s, Event::UnspentListed(vec![small, large]));
    match s {
        SessionState::Finalizing(p) => {
            assert_eq!(p.contributed, large);
            assert_eq!(p.tx.input_ids, vec![1, 2, 11]);
        }
        other => panic!("expected the signing stage, got {other:?}"),
    }
}

#[test]
fn heuristic_falls_back_to_first_candidate() {
    let s = contributing_state();
    // No candidate defeats the heuristic: the first one is taken.
    let first = CandidateInput { outpoint: 10, value: 1_000 };
    let second = CandidateInput { outpoint: 11, value: 2_000 };
    let (s, _) = step(s, Event::UnspentListed(vec![first, second]));
    match s {
        SessionState::Finalizing(p) => assert_eq!(p.contributed, first),
        other => panic!("expected the signing stage, got {other:?}"),
    }
}

#[test]
fn change_credit_overflow_aborts() {
    let p = UncheckedProposal::new(
        vec![1],
        vec![100],
        vec![u64::MAX - 10, 20],
        vec![],
    );
    let (s, _) = step(SessionState::AwaitingProposal, Event::ProposalReceived(p));
    let (s, _) = step(s, Event::CanBroadcast(true));
    let (s, _) = step(s, Event::InputsOwned(vec![false]));
    let (s, _) = step(s, Event::InputsSeen(vec![false]));
    let (s, _) = step(s, Event::OutputsOwned(vec![false, true]));
    let (s, a) = step(
        s,
        Event::UnspentListed(vec![CandidateInput { outpoint: 9, value: 50 }]),
    );
    assert!(matches!(s, SessionState::Errored(ErrorKind::AmountOverflow)));
    assert_eq!(a, Action::Stop);
}

#[test]
fn signing_failure_aborts() {
    let s = contributing_state();
    let (s, _) = step(
        s,
        Event::UnspentListed(vec![CandidateInput { outpoint: 9, value: 400_000 }]),
    );
    let (s, a) = step(s, Event::PsbtSigned(false));
    assert!(matches!(s, SessionState::Errored(ErrorKind::SigningFailed)));
    assert_eq!(a, Action::Stop);
}

#[test]
fn final_send_failure_aborts() {
    let s = contributing_state();
    let (s, _) = step(
        s,
        Event::UnspentListed(vec![CandidateInput { outpoint: 9, value: 400_000 }]),
    );
    let (s, _) = step(s, Event::PsbtSigned(true));
    let (s, a) = step(s, Event::SendResult(false));
    assert!(matches!(s, SessionState::Errored(ErrorKind::TransportFailed)));
    assert_eq!(a, Action::Stop);
}

#[test]
fn happy_path_round_trip() {
    let s = contributing_state();
    let candidate = CandidateInput { outpoint: 7, value: 400_000 };
    let (s, a) = step(s, Event::UnspentListed(vec![candidate]));
    assert_eq!(a, Action::SignPsbt);
    match &s {
        SessionState::Finalizing(p) => {
            // All sender inputs kept, the contributed one appended.
            assert_eq!(p.tx.input_ids, vec![1, 2, 7]);
            assert_eq!(p.tx.input_values, vec![100_000, 200_000, 400_000]);
            // The sender's payment output untouched; the whole candidate
            // value credited to the receiver's change output.
            assert_eq!(p.tx.output_values, vec![300_000, 450_000]);
            assert_eq!(p.change_vout, 1);
            assert_eq!(p.contributed, candidate);
            // The fallback transaction rides along unchanged.
            assert_eq!(p.tx.fallback_tx, vec![0xde, 0xad]);
        }
        other => panic!("expected the signing stage, got {other:?}"),
    }
    let (s, a) = step(s, Event::PsbtSigned(true));
    assert!(matches!(s, SessionState::Sending(_)));
    assert_eq!(a, Action::SendProposal);
    let (s, a) = step(s, Event::SendResult(true));
    assert!(matches!(s, SessionState::Completed));
    assert_eq!(a, Action::Stop);
    // Completed is terminal.
    let (s, a) = step(s, Event::PollEmpty);
    assert!(matches!(s, SessionState::Completed));
    assert_eq!(a, Action::Stop);
}

#[test]
fn fallback_transaction_is_extractable() {
    let p = sample_proposal();
    assert_eq!(p.extract_tx_to_schedule_broadcast(), &vec![0xde, 0xad]);
}

#[test]
fn replyable_and_fatal_errors() {
    assert!(ErrorKind::BroadcastUnsuitable.is_replyable());
    assert!(ErrorKind::OwnInputInProposal.is_replyable());
    assert!(ErrorKind::InputSeenBefore.is_replyable());
    assert!(ErrorKind::MissingReceiverOutput.is_replyable());
    assert!(!ErrorKind::TransportFailed.is_replyable());
    assert!(!ErrorKind::NoViableInput.is_replyable());
    assert!(!ErrorKind::SigningFailed.is_replyable());
}

#[test]
fn cancellation_observed_at_suspension_points() {
    let (s, a) = step(SessionState::AwaitingProposal, Event::Cancelled);
    assert!(matches!(s, SessionState::Errored(ErrorKind::Cancelled)));
    assert_eq!(a, Action::Stop);
    let s = contributing_state();
    let (s, a) = step(s, Event::Cancelled);
    assert!(matches!(s, SessionState::Errored(ErrorKind::Cancelled)));
    assert_eq!(a, Action::Stop);
    // Terminal states are unaffected.
    let (s, _) = step(SessionState::Completed, Event::Cancelled);
    assert!(matches!(s, SessionState::Completed));
}

#[test]
fn poll_timeout_fails_the_session() {
    let (s, a) = step(SessionState::AwaitingProposal, Event::PollTimedOut);
    assert!(matches!(s, SessionState::Errored(ErrorKind::PollTimeout)));
    assert_eq!(a, Action::Stop);
}

#[test]
fn repeated_stage_event_rejected() {
    let (s, _) = step(
        SessionState::AwaitingProposal,
        Event::ProposalReceived(sample_proposal()),
    );
    let (s, _) = step(s, Event::CanBroadcast(true));
    // Delivering the broadcast verdict a second time is out of order: the
    // check was already consumed.
    let (s, a) = step(s, Event::CanBroadcast(true));
    assert!(matches!(s, SessionState::Errored(ErrorKind::UnexpectedEvent)));
    assert_eq!(a, Action::Stop);
}
