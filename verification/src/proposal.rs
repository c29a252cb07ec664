//! The proposal chain: from a sender's unchecked candidate transaction to a
//! finalized joint transaction.
//!
//! A proposal moves through a linear sequence of stages, each a distinct
//! type produced only by applying one check or contribution step to its
//! predecessor: `Unchecked -> BroadcastChecked -> InputsNotOwnedChecked ->
//! NotSeenBeforeChecked -> OutputsIdentified -> InputsContributed ->
//! Finalized`. Every step consumes its predecessor, so no stage can be
//! revisited or skipped through this interface.
//!
//! The wallet is an external collaborator: its answers (can the transaction
//! be broadcast, which inputs and outputs does it own, which unspent outputs
//! can it offer) arrive here as plain values, and every decision taken on
//! them is verified.

use vstd::prelude::*;

use crate::error::ErrorKind;

verus! {

/// The largest amount of bitcoin that can ever exist, in satoshis. Used as
/// the neutral element when taking the minimum over an amount list.
pub const MAX_MONEY_SATS: u64 = 2_100_000_000_000_000;

/// An unspent output of the receiver's wallet, offered for contribution.
#[derive(Clone, Copy, Debug, PartialEq, Eq, Structural)]
pub struct CandidateInput {
    /// Identifier of the unspent output (its outpoint).
    pub outpoint: u64,
    /// Its value in satoshis.
    pub value: u64,
}

/// The transaction body that a proposal carries, in model form: one
/// identifier and one value per input, one value per output, and the
/// serialized fallback transaction that could be broadcast if the
/// cooperative round trip never completes.
#[derive(Debug)]
pub struct ProposalTx {
    /// Outpoint identifier of each input.
    pub input_ids: Vec<u64>,
    /// Value in satoshis of each input, one per entry of `input_ids`.
    pub input_values: Vec<u64>,
    /// Value in satoshis of each output.
    pub output_values: Vec<u64>,
    /// The original, unmodified transaction in serialized form.
    pub fallback_tx: Vec<u8>,
}

/// The mathematical content of a [`ProposalTx`].
#[verifier::ext_equal]
pub ghost struct TxModel {
    pub input_ids: Seq<u64>,
    pub input_values: Seq<u64>,
    pub output_values: Seq<u64>,
    pub fallback_tx: Seq<u8>,
}

impl View for ProposalTx {
    type V = TxModel;

    open spec fn view(&self) -> TxModel {
        TxModel {
            input_ids: self.input_ids@,
            input_values: self.input_values@,
            output_values: self.output_values@,
            fallback_tx: self.fallback_tx@,
        }
    }
}

/// Structural validity of a transaction model: one value per input.
pub open spec fn tx_wf(tx: TxModel) -> bool {
    tx.input_ids.len() == tx.input_values.len()
}

/// A candidate transaction as submitted by the sender, before any check.
#[derive(Debug)]
pub struct UncheckedProposal {
    pub tx: ProposalTx,
}

/// A proposal whose transaction the receiver's node could broadcast.
#[derive(Debug)]
pub struct BroadcastChecked {
    pub tx: ProposalTx,
}

/// A proposal none of whose inputs is owned by the receiver.
#[derive(Debug)]
pub struct InputsNotOwnedChecked {
    pub tx: ProposalTx,
}

/// A proposal none of whose inputs was seen in a prior session.
#[derive(Debug)]
pub struct NotSeenBeforeChecked {
    pub tx: ProposalTx,
}

/// A fully validated proposal with the receiver's own output identified and
/// the output set committed; ready for input contribution.
#[derive(Debug)]
pub struct OutputsIdentified {
    pub tx: ProposalTx,
    /// Index of the receiver's output, to which change is credited.
    pub change_vout: usize,
}

/// A proposal augmented with exactly one receiver input.
#[derive(Debug)]
pub struct InputsContributed {
    pub tx: ProposalTx,
    pub change_vout: usize,
    /// The contributed input.
    pub contributed: CandidateInput,
}

/// A signed, broadcastable joint transaction, ready to be sent back.
#[derive(Debug)]
pub struct Finalized {
    pub tx: ProposalTx,
    pub change_vout: usize,
    pub contributed: CandidateInput,
}

/// Validity of the contribution stage: the change output index is in range.
pub open spec fn stage_wf(tx: TxModel, change_vout: int) -> bool {
    &&& tx_wf(tx)
    &&& 0 <= change_vout < tx.output_values.len()
}

/// No entry of the sequence is `true`.
pub open spec fn all_false(s: Seq<bool>) -> bool {
    forall|i: int| 0 <= i < s.len() ==> !s[i]
}

/// Index of the first `true` entry.
pub open spec fn first_true(s: Seq<bool>) -> int
    decreases s.len(),
{
    if s.len() == 0 {
        0
    } else if s[0] {
        0
    } else {
        1 + first_true(s.drop_first())
    }
}

/// When some entry is `true`, the first `true` index is in range, holds
/// `true`, and everything before it is `false`.
pub proof fn lemma_first_true(s: Seq<bool>)
    requires
        !all_false(s),
    ensures
        0 <= first_true(s) < s.len(),
        s[first_true(s)],
        forall|j: int| 0 <= j < first_true(s) ==> !s[j],
    decreases s.len(),
{
    if s.len() > 0 && !s[0] {
        assert(!all_false(s.drop_first())) by {
            let k = choose|i: int| 0 <= i < s.len() && s[i];
            assert(s.drop_first()[k - 1] == s[k]);
        }
        lemma_first_true(s.drop_first());
        assert forall|j: int| 0 <= j < first_true(s) implies !s[j] by {
            if j > 0 {
                assert(s.drop_first()[j - 1] == s[j]);
            }
        }
    }
}

/// The minimum of the entries, or `dflt` when the sequence is empty.
pub open spec fn min_or(s: Seq<u64>, dflt: u64) -> u64
    decreases s.len(),
{
    if s.len() == 0 {
        dflt
    } else {
        let m = min_or(s.drop_last(), dflt);
        if s.last() < m {
            s.last()
        } else {
            m
        }
    }
}

/// The sum of the entries, as an unbounded integer.
pub open spec fn sum_of(s: Seq<u64>) -> int
    decreases s.len(),
{
    if s.len() == 0 {
        0
    } else {
        sum_of(s.drop_last()) + s.last()
    }
}

/// A prefix never sums to more than the whole sequence.
pub proof fn lemma_sum_take_le(s: Seq<u64>, j: int)
    requires
        0 <= j <= s.len(),
    ensures
        sum_of(s.take(j)) <= sum_of(s),
    decreases s.len() - j,
{
    if j < s.len() {
        assert(s.take(j + 1).drop_last() =~= s.take(j));
        assert(s.take(j + 1).last() == s[j]);
        lemma_sum_take_le(s, j + 1);
    } else {
        assert(s.take(j) =~= s);
    }
}

/// The smaller of two amounts.
pub open spec fn spec_min64(a: u64, b: u64) -> u64 {
    if a < b {
        a
    } else {
        b
    }
}

/// The scan of the unnecessary-input heuristic: walking the candidates in
/// order, pick the first whose addition leaves the smallest input larger
/// than the smallest output, so that the smallest output reads as the
/// sender's change. An addition that would overflow the amount range aborts
/// the scan with no pick, as does reaching the end.
pub open spec fn avoid_uih_scan(
    prior_payment: u64,
    min_in: u64,
    min_out: u64,
    cands: Seq<CandidateInput>,
) -> Option<CandidateInput>
    decreases cands.len(),
{
    if cands.len() == 0 {
        Option::None
    } else {
        let c = cands[0];
        if prior_payment + c.value > u64::MAX {
            Option::None
        } else if spec_min64(min_in, c.value) > spec_min64(
            min_out,
            (prior_payment + c.value) as u64,
        ) {
            Option::Some(c)
        } else {
            avoid_uih_scan(prior_payment, min_in, min_out, cands.drop_first())
        }
    }
}

/// A pick of the heuristic scan always comes from the candidate list.
pub proof fn lemma_scan_pick_is_candidate(
    prior_payment: u64,
    min_in: u64,
    min_out: u64,
    cands: Seq<CandidateInput>,
)
    ensures
        avoid_uih_scan(prior_payment, min_in, min_out, cands) matches Option::Some(c)
            ==> cands.contains(c),
    decreases cands.len(),
{
    if cands.len() > 0 {
        lemma_scan_pick_is_candidate(prior_payment, min_in, min_out, cands.drop_first());
        match avoid_uih_scan(prior_payment, min_in, min_out, cands) {
            Option::Some(c) => {
                if !(cands[0] == c) {
                    assert(cands.drop_first().contains(c));
                    let k = choose|i: int|
                        0 <= i < cands.drop_first().len() && cands.drop_first()[i] == c;
                    assert(cands[k + 1] == c);
                }
            },
            Option::None => {},
        }
    }
}

/// The privacy-preserving selection over a validated proposal: the
/// heuristic pick when the transaction has exactly two outputs and the scan
/// finds one, otherwise the first candidate, otherwise nothing.
pub open spec fn spec_selected(
    tx: TxModel,
    change_vout: int,
    cands: Seq<CandidateInput>,
) -> Option<CandidateInput> {
    let pick = if tx.output_values.len() == 2 {
        avoid_uih_scan(
            tx.output_values[change_vout],
            min_or(tx.input_values, MAX_MONEY_SATS),
            min_or(tx.output_values, MAX_MONEY_SATS),
            cands,
        )
    } else {
        Option::None
    };
    match pick {
        Option::Some(c) => Option::Some(c),
        Option::None => if cands.len() > 0 {
            Option::Some(cands[0])
        } else {
            Option::None
        },
    }
}

/// The failure, if any, of contributing `c` to the proposal: the candidate
/// must not already be an input, and neither the output total nor the
/// credited change output may leave the amount range.
pub open spec fn contribute_err(tx: TxModel, change_vout: int, c: CandidateInput) -> Option<
    ErrorKind,
> {
    if tx.input_ids.contains(c.outpoint) {
        Option::Some(ErrorKind::DuplicateInput)
    } else if sum_of(tx.output_values) > u64::MAX {
        Option::Some(ErrorKind::AmountOverflow)
    } else if tx.output_values[change_vout] + c.value > u64::MAX {
        Option::Some(ErrorKind::AmountOverflow)
    } else {
        Option::None
    }
}

/// The transaction after contributing `c`: the candidate appended to the
/// inputs, its whole value credited to the receiver's change output, and
/// everything else unchanged.
pub open spec fn contribute_tx(tx: TxModel, change_vout: int, c: CandidateInput) -> TxModel {
    TxModel {
        input_ids: tx.input_ids.push(c.outpoint),
        input_values: tx.input_values.push(c.value),
        output_values: tx.output_values.update(
            change_vout,
            (tx.output_values[change_vout] + c.value) as u64,
        ),
        fallback_tx: tx.fallback_tx,
    }
}

impl UncheckedProposal {
    /// Wraps a freshly received candidate transaction.
    pub fn new(
        input_ids: Vec<u64>,
        input_values: Vec<u64>,
        output_values: Vec<u64>,
        fallback_tx: Vec<u8>,
    ) -> (r: Self)
        requires
            input_ids@.len() == input_values@.len(),
        ensures
            r.tx@ == (TxModel {
                input_ids: input_ids@,
                input_values: input_values@,
                output_values: output_values@,
                fallback_tx: fallback_tx@,
            }),
            tx_wf(r.tx@),
    {
        UncheckedProposal {
            tx: ProposalTx { input_ids, input_values, output_values, fallback_tx },
        }
    }

    /// The original, unmodified transaction in serialized form, for an
    /// operator to broadcast manually should the cooperative round trip
    /// fail. A safety net, not an automatic fallback.
    pub fn extract_tx_to_schedule_broadcast(&self) -> (r: &Vec<u8>)
        ensures
            r@ == self.tx@.fallback_tx,
    {
        &self.tx.fallback_tx
    }

    /// First check: the receiver's node must be able to broadcast the
    /// sender's transaction as it stands. `can_broadcast` is the wallet's
    /// answer for this transaction. No minimum fee rate is enforced; a
    /// production deployment should make that threshold configurable.
    pub fn check_broadcast_suitability(self, can_broadcast: bool) -> (r: Result<
        BroadcastChecked,
        ErrorKind,
    >)
        ensures
            can_broadcast ==> (r matches Ok(p) && p.tx@ == self.tx@),
            !can_broadcast ==> (r matches Err(k) && k == ErrorKind::BroadcastUnsuitable),
    {
        if can_broadcast {
            Ok(BroadcastChecked { tx: self.tx })
        } else {
            Err(ErrorKind::BroadcastUnsuitable)
        }
    }
}

impl BroadcastChecked {
    /// Second check: none of the sender's declared inputs may be owned by
    /// the receiver's wallet; such a proposal is malicious or broken.
    /// `owned` is the wallet's ownership answer for each input in order.
    pub fn check_inputs_not_owned(self, owned: &Vec<bool>) -> (r: Result<
        InputsNotOwnedChecked,
        ErrorKind,
    >)
        ensures
            owned@.len() != self.tx@.input_ids.len() ==> (r matches Err(k) && k
                == ErrorKind::WalletError),
            owned@.len() == self.tx@.input_ids.len() && !all_false(owned@) ==> (r matches Err(k)
                && k == ErrorKind::OwnInputInProposal),
            owned@.len() == self.tx@.input_ids.len() && all_false(owned@) ==> (r matches Ok(p)
                && p.tx@ == self.tx@),
    {
        if owned.len() != self.tx.input_ids.len() {
            return Err(ErrorKind::WalletError);
        }
        let mut i: usize = 0;
        while i < owned.len()
            invariant
                i <= owned.len(),
                owned@.len() == self.tx@.input_ids.len(),
                forall|j: int| 0 <= j < i ==> !owned@[j],
            decreases owned.len() - i,
        {
            if owned[i] {
                return Err(ErrorKind::OwnInputInProposal);
            }
            i += 1;
        }
        Ok(InputsNotOwnedChecked { tx: self.tx })
    }
}

impl InputsNotOwnedChecked {
    /// Third check: none of the proposal's inputs may have been seen in a
    /// prior session; replay protection for a non-interactive receiver.
    /// `seen` is the answer of the seen-input store for each input in order.
    pub fn check_no_inputs_seen_before(self, seen: &Vec<bool>) -> (r: Result<
        NotSeenBeforeChecked,
        ErrorKind,
    >)
        ensures
            seen@.len() != self.tx@.input_ids.len() ==> (r matches Err(k) && k
                == ErrorKind::WalletError),
            seen@.len() == self.tx@.input_ids.len() && !all_false(seen@) ==> (r matches Err(k) && k
                == ErrorKind::InputSeenBefore),
            seen@.len() == self.tx@.input_ids.len() && all_false(seen@) ==> (r matches Ok(p)
                && p.tx@ == self.tx@),
    {
        if seen.len() != self.tx.input_ids.len() {
            return Err(ErrorKind::WalletError);
        }
        let mut i: usize = 0;
        while i < seen.len()
            invariant
                i <= seen.len(),
                seen@.len() == self.tx@.input_ids.len(),
                forall|j: int| 0 <= j < i ==> !seen@[j],
            decreases seen.len() - i,
        {
            if seen[i] {
                return Err(ErrorKind::InputSeenBefore);
            }
            i += 1;
        }
        Ok(NotSeenBeforeChecked { tx: self.tx })
    }
}

impl NotSeenBeforeChecked {
    /// Identifies the receiver's own output among the proposal's outputs
    /// and commits the output set: the first output the wallet claims
    /// becomes the change output, and no output changes afterwards except
    /// for the change credit of the contribution step. `mine` is the
    /// wallet's ownership answer for each output in order.
    pub fn identify_receiver_outputs(self, mine: &Vec<bool>) -> (r: Result<
        OutputsIdentified,
        ErrorKind,
    >)
        ensures
            mine@.len() != self.tx@.output_values.len() ==> (r matches Err(k) && k
                == ErrorKind::WalletError),
            mine@.len() == self.tx@.output_values.len() && all_false(mine@) ==> (r matches Err(k)
                && k == ErrorKind::MissingReceiverOutput),
            mine@.len() == self.tx@.output_values.len() && !all_false(mine@) ==> (r matches Ok(p)
                && p.tx@ == self.tx@ && p.change_vout == first_true(mine@)),
            tx_wf(self.tx@) && mine@.len() == self.tx@.output_values.len() && !all_false(mine@)
                ==> (r matches Ok(p) && stage_wf(p.tx@, p.change_vout as int)),
    {
        if mine.len() != self.tx.output_values.len() {
            return Err(ErrorKind::WalletError);
        }
        let mut i: usize = 0;
        while i < mine.len()
            invariant
                i <= mine.len(),
                mine@.len() == self.tx@.output_values.len(),
                forall|j: int| 0 <= j < i ==> !mine@[j],
            decreases mine.len() - i,
        {
            if mine[i] {
                proof {
                    lemma_first_true(mine@);
                    assert(first_true(mine@) == i) by {
                        if first_true(mine@) < i {
                            assert(mine@[first_true(mine@)]);
                        }
                    }
                }
                return Ok(OutputsIdentified { tx: self.tx, change_vout: i });
            }
            i += 1;
        }
        Err(ErrorKind::MissingReceiverOutput)
    }
}

/// The minimum of a list of amounts, or `dflt` when it is empty.
fn min_of_vec(v: &Vec<u64>, dflt: u64) -> (r: u64)
    ensures
        r == min_or(v@, dflt),
{
    let mut acc: u64 = dflt;
    let mut i: usize = 0;
    while i < v.len()
        invariant
            i <= v.len(),
            acc == min_or(v@.take(i as int), dflt),
        decreases v.len() - i,
    {
        proof {
            assert(v@.take(i + 1).drop_last() =~= v@.take(i as int));
            assert(v@.take(i + 1).last() == v@[i as int]);
        }
        if v[i] < acc {
            acc = v[i];
        }
        i += 1;
    }
    proof {
        assert(v@.take(v@.len() as int) =~= v@);
    }
    acc
}

/// Walks the candidates from `from` on, mirroring the heuristic scan.
fn scan_candidates(
    prior_payment: u64,
    min_in: u64,
    min_out: u64,
    cands: &Vec<CandidateInput>,
    from: usize,
) -> (r: Option<CandidateInput>)
    requires
        from <= cands@.len(),
    ensures
        r == avoid_uih_scan(prior_payment, min_in, min_out, cands@.skip(from as int)),
    decreases cands@.len() - from,
{
    if from == cands.len() {
        return Option::None;
    }
    proof {
        assert(cands@.skip(from as int)[0] == cands@[from as int]);
        assert(cands@.skip(from as int).drop_first() =~= cands@.skip(from + 1));
    }
    let c = cands[from];
    match prior_payment.checked_add(c.value) {
        Option::None => Option::None,
        Option::Some(with_candidate) => {
            let cand_min_in: u64 = if min_in < c.value {
                min_in
            } else {
                c.value
            };
            let cand_min_out: u64 = if min_out < with_candidate {
                min_out
            } else {
                with_candidate
            };
            if cand_min_in > cand_min_out {
                Option::Some(c)
            } else {
                scan_candidates(prior_payment, min_in, min_out, cands, from + 1)
            }
        },
    }
}

impl OutputsIdentified {
    /// The privacy-preserving selection over the candidate set: prefer the
    /// first candidate that defeats the unnecessary-input heuristic, fall
    /// back to the first candidate, and fail only when the wallet offered
    /// none.
    pub fn try_preserving_privacy(&self, candidates: &Vec<CandidateInput>) -> (r: Result<
        CandidateInput,
        ErrorKind,
    >)
        requires
            stage_wf(self.tx@, self.change_vout as int),
        ensures
            candidates@.len() == 0 ==> (r matches Err(k) && k == ErrorKind::NoViableInput),
            candidates@.len() > 0 ==> (r matches Ok(c) && Option::Some(c) == spec_selected(
                self.tx@,
                self.change_vout as int,
                candidates@,
            ) && candidates@.contains(c)),
    {
        if self.tx.output_values.len() == 2 {
            let prior_payment: u64 = self.tx.output_values[self.change_vout];
            let min_in: u64 = min_of_vec(&self.tx.input_values, MAX_MONEY_SATS);
            let min_out: u64 = min_of_vec(&self.tx.output_values, MAX_MONEY_SATS);
            match scan_candidates(prior_payment, min_in, min_out, candidates, 0) {
                Option::Some(c) => {
                    proof {
                        assert(candidates@.skip(0) =~= candidates@);
                        lemma_scan_pick_is_candidate(
                            prior_payment,
                            min_in,
                            min_out,
                            candidates@,
                        );
                    }
                    return Ok(c);
                },
                Option::None => {},
            }
            proof {
                assert(candidates@.skip(0) =~= candidates@);
            }
        }
        if candidates.len() > 0 {
            proof {
                assert(candidates@.contains(candidates@[0]));
            }
            Ok(candidates[0])
        } else {
            Err(ErrorKind::NoViableInput)
        }
    }

    /// Contributes the selected input: appends it to the transaction's
    /// inputs and credits its whole value to the receiver's change output.
    /// Fails if the input is already part of the transaction or an amount
    /// would leave the representable range.
    pub fn contribute_inputs(self, selected: CandidateInput) -> (r: Result<
        InputsContributed,
        ErrorKind,
    >)
        requires
            stage_wf(self.tx@, self.change_vout as int),
        ensures
            contribute_err(self.tx@, self.change_vout as int, selected) matches Option::Some(k)
                ==> (r matches Err(k2) && k2 == k),
            contribute_err(self.tx@, self.change_vout as int, selected) is None ==> (r matches Ok(
                p,
            ) && p.tx@ == contribute_tx(self.tx@, self.change_vout as int, selected)
                && p.change_vout == self.change_vout && p.contributed == selected && stage_wf(
                p.tx@,
                p.change_vout as int,
            )),
            r matches Ok(p) ==> !self.tx@.input_ids.contains(p.contributed.outpoint),
    {
        let ghost old_tx = self.tx@;
        let mut i: usize = 0;
        while i < self.tx.input_ids.len()
            invariant
                i <= self.tx@.input_ids.len(),
                forall|j: int| 0 <= j < i ==> self.tx@.input_ids[j] != selected.outpoint,
                self.tx@ == old_tx,
            decreases self.tx@.input_ids.len() - i,
        {
            if self.tx.input_ids[i] == selected.outpoint {
                proof {
                    assert(self.tx@.input_ids.contains(selected.outpoint)) by {
                        assert(self.tx@.input_ids[i as int] == selected.outpoint);
                    }
                }
                return Err(ErrorKind::DuplicateInput);
            }
            i += 1;
        }
        proof {
            assert(!self.tx@.input_ids.contains(selected.outpoint));
        }
        let mut total: u64 = 0;
        let mut j: usize = 0;
        while j < self.tx.output_values.len()
            invariant
                j <= self.tx@.output_values.len(),
                total == sum_of(self.tx@.output_values.take(j as int)),
                self.tx@ == old_tx,
                !self.tx@.input_ids.contains(selected.outpoint),
            decreases self.tx@.output_values.len() - j,
        {
            proof {
                assert(self.tx@.output_values.take(j + 1).drop_last() =~= self.tx@.output_values
                    .take(j as int));
                assert(self.tx@.output_values.take(j + 1).last() == self.tx@.output_values[
                    j as int]);
                lemma_sum_take_le(self.tx@.output_values, j + 1);
            }
            match total.checked_add(self.tx.output_values[j]) {
                Option::None => {
                    return Err(ErrorKind::AmountOverflow);
                },
                Option::Some(t) => {
                    total = t;
                },
            }
            j += 1;
        }
        proof {
            assert(self.tx@.output_values.take(self.tx@.output_values.len() as int)
                =~= self.tx@.output_values);
        }
        let mut tx = self.tx;
        let prior: u64 = tx.output_values[self.change_vout];
        match prior.checked_add(selected.value) {
            Option::None => Err(ErrorKind::AmountOverflow),
            Option::Some(credited) => {
                tx.input_ids.push(selected.outpoint);
                tx.input_values.push(selected.value);
                tx.output_values.set(self.change_vout, credited);
                proof {
                    assert(tx@ =~= contribute_tx(old_tx, self.change_vout as int, selected));
                }
                Ok(
                    InputsContributed {
                        tx,
                        change_vout: self.change_vout,
                        contributed: selected,
                    },
                )
            },
        }
    }
}

impl InputsContributed {
    /// Finalization: the wallet signs the joint transaction. `signed_ok` is
    /// its verdict; a signing failure aborts the session.
    pub fn finalize_proposal(self, signed_ok: bool) -> (r: Result<Finalized, ErrorKind>)
        ensures
            signed_ok ==> (r matches Ok(p) && p.tx@ == self.tx@ && p.change_vout
                == self.change_vout && p.contributed == self.contributed),
            !signed_ok ==> (r matches Err(k) && k == ErrorKind::SigningFailed),
    {
        if signed_ok {
            Ok(
                Finalized {
                    tx: self.tx,
                    change_vout: self.change_vout,
                    contributed: self.contributed,
                },
            )
        } else {
            Err(ErrorKind::SigningFailed)
        }
    }
}

/// Selects one input from the wallet's unspent outputs and contributes it:
/// the whole input-contribution step of a session, from candidate list to
/// the inputs-contributed stage. Exactly one input is contributed; a larger
/// deployment may batch more under the same selection policy.
pub fn try_contributing_inputs(payjoin: OutputsIdentified, candidates: &Vec<CandidateInput>) -> (r:
    Result<InputsContributed, ErrorKind>)
    requires
        stage_wf(payjoin.tx@, payjoin.change_vout as int),
    ensures
        candidates@.len() == 0 ==> (r matches Err(k) && k == ErrorKind::NoViableInput),
        candidates@.len() > 0 ==> (match spec_selected(
            payjoin.tx@,
            payjoin.change_vout as int,
            candidates@,
        ) {
            Option::Some(c) => (match contribute_err(payjoin.tx@, payjoin.change_vout as int, c) {
                Option::Some(k) => r matches Err(k2) && k2 == k,
                Option::None => r matches Ok(p) && p.tx@ == contribute_tx(
                    payjoin.tx@,
                    payjoin.change_vout as int,
                    c,
                ) && p.change_vout == payjoin.change_vout && p.contributed == c && stage_wf(
                    p.tx@,
                    p.change_vout as int,
                ),
            }),
            Option::None => false,
        }),
        r matches Ok(p) ==> !payjoin.tx@.input_ids.contains(p.contributed.outpoint)
            && candidates@.contains(p.contributed),
{
    let selected = match payjoin.try_preserving_privacy(candidates) {
        Ok(c) => c,
        Err(k) => {
            return Err(k);
        },
    };
    payjoin.contribute_inputs(selected)
}

} // verus!
