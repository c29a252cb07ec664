//! The session entry point.
//!
//! A caller supplies a destination address, an optional amount and an
//! optional label; the receiver validates the address, builds the shareable
//! payment URI and hands back a fresh [`Session`] for the driver to run.
//! Transport key material and the per-session key are produced by the
//! cryptographic transport layer outside this crate and arrive here as
//! opaque bytes.

use vstd::prelude::*;

use crate::error::ErrorKind;
use crate::session::SessionState;
use crate::session::StateModel;
use crate::uri::pj_uri_chars;
use crate::uri::pj_uri_with_extras;

verus! {

/// Whether the string is a well-formed Bitcoin address. What that takes —
/// checksummed base58 or bech32 with a known prefix — is the address
/// grammar of the bitcoin crate, a function of the characters alone.
pub uninterp spec fn is_valid_address(s: Seq<char>) -> bool;

/// Relies on bitcoin's `Address` parser (`Address::from_str`): whether a
/// string parses as a Bitcoin address depends on its characters alone.
#[verifier::external_body]
fn address_parses(s: &String) -> (r: bool)
    ensures
        r == is_valid_address(s@),
{
    s.as_str().parse::<bitcoin::Address<bitcoin::address::NetworkUnchecked>>().is_ok()
}

/// One payment request, owned by the driver that runs it to completion.
#[derive(Debug)]
pub struct Session {
    /// The destination address, as validated text.
    pub address: String,
    /// The requested amount in satoshis, if any.
    pub amount: Option<u64>,
    /// The request's label, if any.
    pub label: Option<String>,
    /// This session's own transport key material, opaque bytes from the
    /// cryptographic layer; fresh per session, never shared or cached.
    pub session_key: Vec<u8>,
    /// Where the session stands.
    pub state: SessionState,
}

/// The mathematical content of a [`Session`].
#[verifier::ext_equal]
pub ghost struct SessionModel {
    pub address: Seq<char>,
    pub amount: Option<u64>,
    pub label: Option<Seq<char>>,
    pub session_key: Seq<u8>,
    pub state: StateModel,
}

impl View for Session {
    type V = SessionModel;

    open spec fn view(&self) -> SessionModel {
        SessionModel {
            address: self.address@,
            amount: self.amount,
            label: self.label.deep_view(),
            session_key: self.session_key@,
            state: self.state@,
        }
    }
}

/// The session a request gives rise to: it embeds exactly the request and
/// its own key material, and waits for the sender's proposal. A pure
/// function of its arguments: nothing is cached or shared between calls.
pub open spec fn session_of(
    address: Seq<char>,
    amount: Option<u64>,
    label: Option<Seq<char>>,
    session_key: Seq<u8>,
) -> SessionModel {
    SessionModel {
        address,
        amount,
        label,
        session_key,
        state: StateModel::AwaitingProposal,
    }
}

/// What the entry point hands back: the shareable URI for the caller, and
/// the session handle for the driver, so terminal states are observable
/// rather than fire-and-forget.
#[derive(Debug)]
pub struct SessionStart {
    pub uri: String,
    pub session: Session,
}

/// The receiver: holds the directory's transport key material, fetched
/// once at construction, opaque to this crate.
pub struct PayjoinReceiver {
    pub ohttp_keys: Vec<u8>,
}

impl PayjoinReceiver {
    /// A receiver around already-fetched directory key material.
    pub fn new(ohttp_keys: Vec<u8>) -> (r: Self)
        ensures
            r.ohttp_keys@ == ohttp_keys@,
    {
        PayjoinReceiver { ohttp_keys }
    }

    /// Builds the payment request for an already validated address: the
    /// shareable URI over the session's relay endpoint, and the fresh
    /// session in its polling state.
    pub fn receive_payjoin(
        &self,
        address: String,
        amount: Option<u64>,
        label: Option<String>,
        session_key: Vec<u8>,
        endpoint: &String,
    ) -> (r: SessionStart)
        ensures
            r.uri@ == pj_uri_chars(address@, amount, label.deep_view(), endpoint@),
            r.session@ == session_of(address@, amount, label.deep_view(), session_key@),
    {
        let uri = pj_uri_with_extras(&address, amount, &label, endpoint);
        let session = Session {
            address,
            amount,
            label,
            session_key,
            state: SessionState::AwaitingProposal,
        };
        SessionStart { uri, session }
    }

    /// The outward entry point: validates the destination address, then
    /// returns the shareable URI and the session handle. A malformed
    /// address is the one setup failure surfaced synchronously here.
    pub fn receive_payjoin_adapter(
        &self,
        address: String,
        sats: Option<u64>,
        label: Option<String>,
        session_key: Vec<u8>,
        endpoint: &String,
    ) -> (r: Result<SessionStart, ErrorKind>)
        ensures
            is_valid_address(address@) ==> (r matches Ok(s) && s.uri@ == pj_uri_chars(
                address@,
                sats,
                label.deep_view(),
                endpoint@,
            ) && s.session@ == session_of(address@, sats, label.deep_view(), session_key@)),
            !is_valid_address(address@) ==> (r matches Err(k) && k == ErrorKind::MalformedAddress),
    {
        if !address_parses(&address) {
            return Err(ErrorKind::MalformedAddress);
        }
        Ok(self.receive_payjoin(address, sats, label, session_key, endpoint))
    }
}

/// Requesting the same address, amount and label twice produces two
/// independent sessions: each embeds exactly its own fresh key material,
/// so distinct key material makes distinct sessions — nothing is reused or
/// cached — while both start in the same polling state.
pub proof fn lemma_sessions_independent(
    address: Seq<char>,
    amount: Option<u64>,
    label: Option<Seq<char>>,
    k1: Seq<u8>,
    k2: Seq<u8>,
)
    requires
        k1 != k2,
    ensures
        session_of(address, amount, label, k1) != session_of(address, amount, label, k2),
        session_of(address, amount, label, k1).session_key == k1,
        session_of(address, amount, label, k2).session_key == k2,
        session_of(address, amount, label, k1).state == session_of(
            address,
            amount,
            label,
            k2,
        ).state,
{
}

} // verus!
