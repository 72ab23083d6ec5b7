//! The block notification listener's decisions: which feed categories the one
//! subscription asks for, which notification variants start a dispatch round,
//! and how each round is tied to its own freshly fetched chain reference.
//!
//! The transport loop outside the library converts each inbound feed item
//! into a [`NotificationEvent`], asks [`triggers_dispatch`], and only on a
//! positive answer fetches a fresh chain reference and runs one round.

use vstd::prelude::*;

verus! {

/// The tagged update kinds the feed can deliver. Only `BlockMeta` is acted
/// upon; every other variant is an explicit no-op, so a new feed category
/// shows up here rather than being silently mis-handled.
pub enum NotificationEvent {
    /// Metadata of a newly known block; the one variant that starts a round.
    BlockMeta { block_height: Option<u64> },
    Account,
    Slot,
    Transaction,
    TransactionStatus,
    Block,
    Entry,
    Ping,
    Pong,
}

/// The commitment tiers the feed offers, weakest first.
#[derive(Clone, Copy, Debug, PartialEq, Eq, Structural)]
pub enum CommitmentChoice {
    /// The weakest tier: a block is known but may still be reorganized away.
    Processed,
    Confirmed,
    Finalized,
}

/// What the one outbound subscription request asks for: a flag per feed
/// category and the commitment tier.
pub struct SubscriptionInterest {
    pub block_meta: bool,
    pub accounts: bool,
    pub transactions: bool,
    pub transaction_statuses: bool,
    pub slots: bool,
    pub entries: bool,
    pub full_blocks: bool,
    pub commitment: CommitmentChoice,
}

/// The dispatcher's subscription: block metadata only, at the weakest
/// commitment tier, so a round fires as early as a block is known.
pub fn block_meta_subscription() -> (s: SubscriptionInterest)
    ensures
        s.block_meta,
        !s.accounts,
        !s.transactions,
        !s.transaction_statuses,
        !s.slots,
        !s.entries,
        !s.full_blocks,
        s.commitment is Processed,
{
    SubscriptionInterest {
        block_meta: true,
        accounts: false,
        transactions: false,
        transaction_statuses: false,
        slots: false,
        entries: false,
        full_blocks: false,
        commitment: CommitmentChoice::Processed,
    }
}

/// Exactly the block-metadata variant starts a dispatch round; every other
/// variant is discarded with no side effect.
pub fn triggers_dispatch(event: &NotificationEvent) -> (r: bool)
    ensures
        r <==> *event is BlockMeta,
{
    match event {
        NotificationEvent::BlockMeta { .. } => true,
        _ => false,
    }
}

/// How many of the events start a dispatch round.
pub open spec fn dispatch_count(events: Seq<NotificationEvent>) -> nat
    decreases events.len(),
{
    if events.len() == 0 {
        0
    } else {
        (if events[0] is BlockMeta {
            1nat
        } else {
            0nat
        }) + dispatch_count(events.skip(1))
    }
}

/// The chain references the rounds use, in round order, when the listener
/// walks `events` in feed-delivery order and `fetched` lists the results of
/// the fresh reference fetches, one consumed per round in fetch order.
pub open spec fn round_references(
    events: Seq<NotificationEvent>,
    fetched: Seq<Seq<u8>>,
) -> Seq<Seq<u8>>
    decreases events.len(),
{
    if events.len() == 0 {
        Seq::empty()
    } else if events[0] is BlockMeta {
        seq![fetched[0]].add(round_references(events.skip(1), fetched.skip(1)))
    } else {
        round_references(events.skip(1), fetched)
    }
}

/// Every block-metadata notification starts exactly one round, rounds come in
/// notification order, and the k-th round uses the k-th freshly fetched
/// reference — never an earlier one.
pub proof fn lemma_each_round_uses_its_own_reference(
    events: Seq<NotificationEvent>,
    fetched: Seq<Seq<u8>>,
)
    requires
        fetched.len() >= dispatch_count(events),
    ensures
        round_references(events, fetched).len() == dispatch_count(events),
        forall|k: int|
            0 <= k < dispatch_count(events) ==> #[trigger] round_references(events, fetched)[k]
                == fetched[k],
    decreases events.len(),
{
    if events.len() == 0 {
    } else if events[0] is BlockMeta {
        lemma_each_round_uses_its_own_reference(events.skip(1), fetched.skip(1));
        assert forall|k: int| 0 <= k < dispatch_count(events) implies #[trigger] round_references(
            events,
            fetched,
        )[k] == fetched[k] by {
            if k > 0 {
                assert(round_references(events.skip(1), fetched.skip(1))[k - 1] == fetched.skip(
                    1,
                )[k - 1]);
            }
        }
    } else {
        lemma_each_round_uses_its_own_reference(events.skip(1), fetched);
    }
}

/// Two consecutive block-metadata notifications trigger two full rounds, the
/// first using the first fetched reference and the second its own, second
/// fetch — the reference of round one is never reused in round two.
pub proof fn lemma_two_notifications_two_fresh_rounds(
    first: NotificationEvent,
    second: NotificationEvent,
    fetched: Seq<Seq<u8>>,
)
    requires
        first is BlockMeta,
        second is BlockMeta,
        fetched.len() == 2,
        fetched[0] != fetched[1],
    ensures
        round_references(seq![first, second], fetched) =~= seq![fetched[0], fetched[1]],
        round_references(seq![first, second], fetched)[0] != round_references(
            seq![first, second],
            fetched,
        )[1],
{
    let events = seq![first, second];
    assert(events.skip(1) =~= seq![second]);
    assert(seq![second].skip(1) =~= Seq::<NotificationEvent>::empty());
    assert(dispatch_count(Seq::<NotificationEvent>::empty()) == 0);
    assert(dispatch_count(seq![second]) == 1);
    assert(dispatch_count(events) == 2);
    lemma_each_round_uses_its_own_reference(events, fetched);
    assert(round_references(events, fetched) =~= seq![fetched[0], fetched[1]]);
}

} // verus!
