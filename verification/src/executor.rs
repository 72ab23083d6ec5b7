//! The transfer batch executor: given one fresh chain reference and the
//! batch specification, prepare one signed transaction per configured triple,
//! then collect one outcome per triple — in index order, with per-transfer
//! failure isolation and no atomicity across the batch.
//!
//! Submission itself is outside work: the transport loop asks a [`Round`]
//! what is pending, submits it, and hands the result back through
//! [`Round::advance`]. A round always runs to completion index by index.

use vstd::prelude::*;
use crate::batch::BatchSpec;
use crate::chain::ChainReference;
use crate::chain::address_accepted;
use crate::chain::address_b58_of;
use crate::chain::build_signed_transfer;
use crate::chain::parse_receiver;
use crate::chain::sender_address_of;
use crate::chain::sender_identity;
use crate::chain::sender_key_ok;

verus! {

/// Why one instruction could not be turned into a transaction. Caught at the
/// single transfer's scope: it never aborts the rest of the round.
#[derive(Clone, Copy, Debug, PartialEq, Eq, Structural)]
pub enum BuildError {
    /// The configured sender credential does not decode to a keypair.
    MalformedSenderKey,
    /// The configured receiver string does not decode to an address.
    MalformedReceiverAddress,
}

/// What one instruction of the round became: a signed transaction awaiting
/// submission, or a per-transfer build failure.
pub enum TransferPlan {
    Ready { transaction: solana_transaction::Transaction, sender: String },
    Rejected { reason: BuildError },
}

/// One instruction of the batch, derived from triple `index`, carrying what
/// the status report needs in plain values.
pub struct PreparedTransfer {
    pub index: usize,
    pub amount: u64,
    pub receiver: String,
    pub plan: TransferPlan,
}

/// `p` is exactly the prepared transfer for triple `i` = (`key`, `recv`,
/// `amount`): same index, amount and receiver string; ready precisely when
/// both the credential and the address decode; otherwise rejected for the
/// first failing of the two, the credential checked first.
pub open spec fn prepared_for(
    p: PreparedTransfer,
    i: int,
    key: Seq<char>,
    recv: Seq<char>,
    amount: u64,
) -> bool {
    &&& p.index == i
    &&& p.amount == amount
    &&& p.receiver@ == recv
    &&& (p.plan is Ready <==> (sender_key_ok(key) && address_accepted(recv)))
    &&& (p.plan matches TransferPlan::Ready { sender, .. } ==> (sender_address_of(key) matches Some(
        a,
    ) && sender@ == address_b58_of(a)))
    &&& (p.plan matches TransferPlan::Rejected { reason } ==> ((reason is MalformedSenderKey
        <==> !sender_key_ok(key)) && (reason is MalformedReceiverAddress <==> (sender_key_ok(key)
        && !address_accepted(recv)))))
}

/// Derives the instruction at index `i` of the batch: decodes the sender
/// credential, decodes the receiver address, and on success builds the
/// single-operation transfer transaction, fee-paid and signed by the sender
/// against `reference`.
pub fn prepare_transfer(batch: &BatchSpec, i: usize, reference: &ChainReference) -> (p:
    PreparedTransfer)
    requires
        batch.wf(),
        i < batch.n(),
    ensures
        prepared_for(
            p,
            i as int,
            batch.sender_key(i as int),
            batch.receiver(i as int),
            batch.amount(i as int),
        ),
{
    let amount = batch.amount_at(i);
    let receiver = batch.receiver_at(i).clone();
    let key = batch.sender_key_at(i);
    match sender_identity(key.as_str()) {
        Some((_, sender)) => {
            match parse_receiver(receiver.as_str()) {
                Some(receiver_bytes) => {
                    let transaction = build_signed_transfer(
                        key.as_str(),
                        &receiver_bytes,
                        amount,
                        reference,
                    );
                    PreparedTransfer {
                        index: i,
                        amount,
                        receiver,
                        plan: TransferPlan::Ready { transaction, sender },
                    }
                },
                None => PreparedTransfer {
                    index: i,
                    amount,
                    receiver,
                    plan: TransferPlan::Rejected { reason: BuildError::MalformedReceiverAddress },
                },
            }
        },
        None => PreparedTransfer {
            index: i,
            amount,
            receiver,
            plan: TransferPlan::Rejected { reason: BuildError::MalformedSenderKey },
        },
    }
}

/// What the submission transport reports back for one submitted transaction:
/// a confirmation identifier, or an error description.
pub enum SubmitOutcome {
    Confirmed { signature: String },
    Failed { error: String },
}

/// The reported result of one instruction of the round.
pub enum TransferResult {
    /// Submitted and confirmed, with the confirmation identifier.
    Confirmed { signature: String },
    /// Submitted, and the network reported an error.
    SubmissionFailed { error: String },
    /// Never submitted: the transaction could not be built.
    NotSubmitted { reason: BuildError },
}

/// The observable status of one instruction: amount, sender identity (when
/// the credential decoded), receiver identity, and the result.
pub struct TransferOutcome {
    pub index: usize,
    pub amount: u64,
    pub receiver: String,
    pub sender: Option<String>,
    pub result: TransferResult,
}

/// `o` is exactly the outcome of prepared transfer `p` under submission
/// event `ev`: a ready transfer was submitted (`ev` present) and its outcome
/// carries the transport's report verbatim; a rejected transfer was never
/// submitted (`ev` absent) and reports its build failure.
pub open spec fn outcome_for(
    o: TransferOutcome,
    p: PreparedTransfer,
    ev: Option<SubmitOutcome>,
) -> bool {
    &&& o.index == p.index
    &&& o.amount == p.amount
    &&& o.receiver@ == p.receiver@
    &&& match p.plan {
        TransferPlan::Ready { sender, .. } => {
            &&& (o.sender matches Some(d) && d@ == sender@)
            &&& (ev matches Some(e) && match e {
                SubmitOutcome::Confirmed { signature } => o.result
                    matches TransferResult::Confirmed { signature: s } && s@ == signature@,
                SubmitOutcome::Failed { error } => o.result
                    matches TransferResult::SubmissionFailed { error: f } && f@ == error@,
            })
        },
        TransferPlan::Rejected { reason } => {
            &&& o.sender is None
            &&& ev is None
            &&& (o.result matches TransferResult::NotSubmitted { reason: r } && r == reason)
        },
    }
}

/// Turns one prepared transfer and its submission event into the reported
/// outcome. A ready transfer must have been submitted; a rejected one must
/// not have been.
pub fn finish_transfer(p: &PreparedTransfer, ev: Option<SubmitOutcome>) -> (o: TransferOutcome)
    requires
        (ev is Some) <==> p.plan is Ready,
    ensures
        outcome_for(o, *p, ev),
{
    match &p.plan {
        TransferPlan::Ready { sender, .. } => {
            let e = ev.unwrap();
            let result = match e {
                SubmitOutcome::Confirmed { signature } => TransferResult::Confirmed { signature },
                SubmitOutcome::Failed { error } => TransferResult::SubmissionFailed { error },
            };
            TransferOutcome {
                index: p.index,
                amount: p.amount,
                receiver: p.receiver.clone(),
                sender: Some(sender.clone()),
                result,
            }
        },
        TransferPlan::Rejected { reason } => TransferOutcome {
            index: p.index,
            amount: p.amount,
            receiver: p.receiver.clone(),
            sender: None,
            result: TransferResult::NotSubmitted { reason: *reason },
        },
    }
}

/// One dispatch round: the prepared transfers for every triple of the batch,
/// the single chain reference they were all signed against, and the outcomes
/// collected so far, strictly in index order.
pub struct Round {
    reference: ChainReference,
    prepared: Vec<PreparedTransfer>,
    outcomes: Vec<TransferOutcome>,
    events: Ghost<Seq<Option<SubmitOutcome>>>,
}

impl Round {
    /// Progress and bookkeeping are consistent: one outcome per processed
    /// index, each determined by that index's prepared transfer and its own
    /// submission event.
    pub closed spec fn wf(&self) -> bool {
        &&& self.outcomes@.len() <= self.prepared@.len()
        &&& self.events@.len() == self.outcomes@.len()
        &&& (forall|i: int|
            0 <= i < self.prepared@.len() ==> #[trigger] self.prepared@[i].index == i)
        &&& (forall|j: int|
            0 <= j < self.outcomes@.len() ==> outcome_for(
                #[trigger] self.outcomes@[j],
                self.prepared@[j],
                self.events@[j],
            ))
    }

    /// The number of configured transfers in this round.
    pub closed spec fn total(&self) -> nat {
        self.prepared@.len()
    }

    /// How many transfers have been processed so far.
    pub closed spec fn done(&self) -> nat {
        self.outcomes@.len()
    }

    pub closed spec fn prepared_at(&self, i: int) -> PreparedTransfer {
        self.prepared@[i]
    }

    pub closed spec fn outcome_at(&self, j: int) -> TransferOutcome {
        self.outcomes@[j]
    }

    pub closed spec fn event_at(&self, j: int) -> Option<SubmitOutcome> {
        self.events@[j]
    }

    /// The bytes of the one chain reference this round was started with.
    pub closed spec fn reference_bytes(&self) -> Seq<u8> {
        self.reference.bytes@
    }

    /// Starts one round: prepares (builds and signs) the transfer for every
    /// triple of the batch, in index order, all against the same freshly
    /// fetched `reference`. Nothing is processed yet.
    pub fn start(batch: &BatchSpec, reference: ChainReference) -> (r: Round)
        requires
            batch.wf(),
        ensures
            r.wf(),
            r.total() == batch.n(),
            r.done() == 0,
            r.reference_bytes() == reference.bytes@,
            forall|i: int|
                0 <= i < batch.n() ==> prepared_for(
                    #[trigger] r.prepared_at(i),
                    i,
                    batch.sender_key(i),
                    batch.receiver(i),
                    batch.amount(i),
                ),
    {
        let n = batch.len();
        let mut prepared: Vec<PreparedTransfer> = Vec::new();
        let mut i: usize = 0;
        while i < n
            invariant
                batch.wf(),
                n == batch.n(),
                i <= n,
                prepared@.len() == i,
                forall|k: int|
                    0 <= k < i ==> prepared_for(
                        #[trigger] prepared@[k],
                        k,
                        batch.sender_key(k),
                        batch.receiver(k),
                        batch.amount(k),
                    ),
            decreases n - i,
        {
            let p = prepare_transfer(batch, i, &reference);
            prepared.push(p);
            i += 1;
        }
        Round { reference, prepared, outcomes: Vec::new(), events: Ghost(Seq::empty()) }
    }

    pub fn total_count(&self) -> (n: usize)
        ensures
            n == self.total(),
    {
        self.prepared.len()
    }

    pub fn done_count(&self) -> (n: usize)
        ensures
            n == self.done(),
    {
        self.outcomes.len()
    }

    /// Whether every transfer of the round has been processed.
    pub fn is_done(&self) -> (b: bool)
        ensures
            b == (self.done() == self.total()),
    {
        self.outcomes.len() == self.prepared.len()
    }

    /// The next transfer to process: submit it if ready, skip it if rejected,
    /// then report through [`Round::advance`].
    pub fn pending(&self) -> (p: &PreparedTransfer)
        requires
            self.wf(),
            self.done() < self.total(),
        ensures
            *p == self.prepared_at(self.done() as int),
    {
        &self.prepared[self.outcomes.len()]
    }

    /// Records the submission event for the pending transfer and moves to the
    /// next index. A failed submission is recorded like any other event: it
    /// never stops the rest of the round.
    pub fn advance(&mut self, ev: Option<SubmitOutcome>)
        requires
            old(self).wf(),
            old(self).done() < old(self).total(),
            (ev is Some) <==> old(self).prepared_at(old(self).done() as int).plan is Ready,
        ensures
            final(self).wf(),
            final(self).total() == old(self).total(),
            final(self).done() == old(self).done() + 1,
            final(self).reference_bytes() == old(self).reference_bytes(),
            forall|i: int|
                0 <= i < final(self).total() ==> #[trigger] final(self).prepared_at(i) == old(
                    self,
                ).prepared_at(i),
            forall|j: int|
                0 <= j < old(self).done() ==> #[trigger] final(self).outcome_at(j) == old(
                    self,
                ).outcome_at(j) && final(self).event_at(j) == old(self).event_at(j),
            final(self).event_at(old(self).done() as int) == ev,
            outcome_for(
                final(self).outcome_at(old(self).done() as int),
                old(self).prepared_at(old(self).done() as int),
                ev,
            ),
    {
        let ghost ev0 = ev;
        let idx = self.outcomes.len();
        let o = finish_transfer(&self.prepared[idx], ev);
        self.outcomes.push(o);
        self.events = Ghost(self.events@.push(ev0));
    }

    /// The outcomes collected so far, one per processed index, in index
    /// order.
    pub fn outcomes(&self) -> (r: &Vec<TransferOutcome>)
        ensures
            r@.len() == self.done(),
            forall|j: int| 0 <= j < self.done() ==> #[trigger] r@[j] == self.outcome_at(j),
    {
        &self.outcomes
    }

    /// The chain reference the round was started with.
    pub fn reference(&self) -> (r: &ChainReference)
        ensures
            r.bytes@ == self.reference_bytes(),
    {
        &self.reference
    }
}

/// One completed dispatch round reports exactly one outcome per configured
/// transfer, in index order: index `j`'s outcome stands at position `j`. And
/// a submission was attempted at exactly the indices whose transaction was
/// built: one attempt per well-formed triple, none for a rejected one.
pub proof fn lemma_one_outcome_per_transfer(r: Round)
    requires
        r.wf(),
        r.done() == r.total(),
    ensures
        forall|j: int| 0 <= j < r.total() ==> #[trigger] r.outcome_at(j).index == j,
        forall|j: int|
            0 <= j < r.total() ==> ((#[trigger] r.event_at(j)) is Some <==> r.prepared_at(
                j,
            ).plan is Ready),
{
    assert forall|j: int| 0 <= j < r.total() implies #[trigger] r.outcome_at(j).index == j by {
        assert(outcome_for(r.outcomes@[j], r.prepared@[j], r.events@[j]));
    }
    assert forall|j: int| 0 <= j < r.total() implies ((#[trigger] r.event_at(j)) is Some
        <==> r.prepared_at(j).plan is Ready) by {
        assert(outcome_for(r.outcomes@[j], r.prepared@[j], r.events@[j]));
    }
}

/// The two outcomes report the same thing: same index, amount, identities,
/// and the same result with the same payload text.
pub open spec fn same_report(x: TransferOutcome, y: TransferOutcome) -> bool {
    &&& x.index == y.index
    &&& x.amount == y.amount
    &&& x.receiver@ == y.receiver@
    &&& (x.sender is Some <==> y.sender is Some)
    &&& (x.sender matches Some(d) ==> (y.sender matches Some(e) && d@ == e@))
    &&& (x.result matches TransferResult::Confirmed { signature: s } ==> (y.result
        matches TransferResult::Confirmed { signature: t } && s@ == t@))
    &&& (x.result matches TransferResult::SubmissionFailed { error: s } ==> (y.result
        matches TransferResult::SubmissionFailed { error: t } && s@ == t@))
    &&& (x.result matches TransferResult::NotSubmitted { reason: s } ==> (y.result
        matches TransferResult::NotSubmitted { reason: t } && s == t))
}

/// Failure isolation: the outcome at index `j` is fully determined by index
/// `j`'s own prepared transfer and its own submission event. Whatever
/// happened at the other indices of either round — including failing
/// submissions — cannot change it.
pub proof fn lemma_failure_isolation(a: Round, b: Round, j: int)
    requires
        a.wf(),
        b.wf(),
        0 <= j < a.done(),
        j < b.done(),
        a.prepared_at(j) == b.prepared_at(j),
        a.event_at(j) == b.event_at(j),
    ensures
        same_report(a.outcome_at(j), b.outcome_at(j)),
{
    assert(outcome_for(a.outcomes@[j], a.prepared@[j], a.events@[j]));
    assert(outcome_for(b.outcomes@[j], b.prepared@[j], b.events@[j]));
}

} // verus!
