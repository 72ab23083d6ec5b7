use block_dispatch::batch::{BatchSpec, ConfigError};
use block_dispatch::chain::{parse_receiver, sender_identity, ChainReference};
use block_dispatch::executor::{
    BuildError, Round, SubmitOutcome, TransferPlan, TransferResult,
};
use block_dispatch::listener::{
    block_meta_subscription, triggers_dispatch, CommitmentChoice, NotificationEvent,
};
use solana_signer::Signer;

fn keypair_b58(seed: u8) -> String {
    solana_keypair::Keypair::new_from_array([seed; 32]).to_base58_string()
}

fn address_of(seed: u8) -> String {
    solana_keypair::Keypair::new_from_array([seed; 32])
        .pubkey()
        .to_string()
}

fn batch(senders: Vec<String>, receivers: Vec<String>, amounts: Vec<u64>) -> BatchSpec {
    BatchSpec::new(senders, receivers, amounts).expect("equal-length batch")
}

/// Runs one full round against `reference`, confirming every ready transfer
/// with a fresh signature string, and returns the finished round.
fn run_round_all_confirmed(spec: &BatchSpec, reference: ChainReference) -> Round {
    let mut round = Round::start(spec, reference);
    let mut submitted: usize = 0;
    while !round.is_done() {
        let event = match &round.pending().plan {
            TransferPlan::Ready { .. } => {
                submitted += 1;
                Some(SubmitOutcome::Confirmed {
                    signature: format!("sig-{submitted}"),
                })
            }
            TransferPlan::Rejected { .. } => None,
        };
        round.advance(event);
    }
    round
}

#[test]
fn batch_spec_rejects_mismatched_lengths() {
    let r = BatchSpec::new(
        vec![keypair_b58(1), keypair_b58(2)],
        vec![address_of(3)],
        vec![10, 20],
    );
    assert!(matches!(r, Err(ConfigError::MismatchedLengths)));

    let r = BatchSpec::new(vec![], vec![address_of(3)], vec![]);
    assert!(matches!(r, Err(ConfigError::MismatchedLengths)));

    let ok = BatchSpec::new(
        vec![keypair_b58(1)],
        vec![address_of(3)],
        vec![10],
    )
    .expect("equal lengths accepted");
    assert_eq!(ok.len(), 1);
}

#[test]
fn empty_batch_is_accepted_and_dispatches_nothing() {
    let spec = batch(vec![], vec![], vec![]);
    let round = run_round_all_confirmed(&spec, ChainReference { bytes: [0; 32] });
    assert_eq!(round.outcomes().len(), 0);
}

#[test]
fn non_block_meta_events_trigger_nothing() {
    for event in [
        NotificationEvent::Account,
        NotificationEvent::Slot,
        NotificationEvent::Transaction,
        NotificationEvent::TransactionStatus,
        NotificationEvent::Block,
        NotificationEvent::Entry,
        NotificationEvent::Ping,
        NotificationEvent::Pong,
    ] {
        assert!(!triggers_dispatch(&event));
    }
    assert!(triggers_dispatch(&NotificationEvent::BlockMeta {
        block_height: Some(42)
    }));
    assert!(triggers_dispatch(&NotificationEvent::BlockMeta { block_height: None }));
}

#[test]
fn subscription_asks_for_block_meta_only_at_weakest_commitment() {
    let s = block_meta_subscription();
    assert!(s.block_meta);
    assert!(!s.accounts);
    assert!(!s.transactions);
    assert!(!s.transaction_statuses);
    assert!(!s.slots);
    assert!(!s.entries);
    assert!(!s.full_blocks);
    assert_eq!(s.commitment, CommitmentChoice::Processed);
}

#[test]
fn single_notification_two_attempts_in_index_order() {
    // BatchSpec = {senders: [A, B], receivers: [X, Y], amounts: [1.0, 0.5] units}.
    let x = address_of(11);
    let y = address_of(12);
    let spec = batch(
        vec![keypair_b58(1), keypair_b58(2)],
        vec![x.clone(), y.clone()],
        vec![1_000_000_000, 500_000_000],
    );

    let event = NotificationEvent::BlockMeta { block_height: Some(7) };
    assert!(triggers_dispatch(&event));

    let round = run_round_all_confirmed(&spec, ChainReference { bytes: [5; 32] });
    let outcomes = round.outcomes();
    assert_eq!(outcomes.len(), 2);

    assert_eq!(outcomes[0].index, 0);
    assert_eq!(outcomes[0].amount, 1_000_000_000);
    assert_eq!(outcomes[0].receiver, x);
    assert_eq!(outcomes[0].sender.as_deref(), Some(address_of(1).as_str()));
    assert!(matches!(
        &outcomes[0].result,
        TransferResult::Confirmed { signature } if signature == "sig-1"
    ));

    assert_eq!(outcomes[1].index, 1);
    assert_eq!(outcomes[1].amount, 500_000_000);
    assert_eq!(outcomes[1].receiver, y);
    assert_eq!(outcomes[1].sender.as_deref(), Some(address_of(2).as_str()));
    assert!(matches!(
        &outcomes[1].result,
        TransferResult::Confirmed { signature } if signature == "sig-2"
    ));
}

#[test]
fn failing_submission_does_not_stop_the_round() {
    let spec = batch(
        vec![keypair_b58(1), keypair_b58(2), keypair_b58(3)],
        vec![address_of(11), address_of(12), address_of(13)],
        vec![1, 2, 3],
    );
    let mut round = Round::start(&spec, ChainReference { bytes: [9; 32] });

    // The submission at index 0 fails; 1 and 2 are still attempted.
    assert!(matches!(round.pending().plan, TransferPlan::Ready { .. }));
    round.advance(Some(SubmitOutcome::Failed {
        error: "node unavailable".to_string(),
    }));
    assert!(matches!(round.pending().plan, TransferPlan::Ready { .. }));
    round.advance(Some(SubmitOutcome::Confirmed {
        signature: "sig-a".to_string(),
    }));
    assert!(matches!(round.pending().plan, TransferPlan::Ready { .. }));
    round.advance(Some(SubmitOutcome::Failed {
        error: "blockhash expired".to_string(),
    }));

    assert!(round.is_done());
    let outcomes = round.outcomes();
    assert_eq!(outcomes.len(), 3);
    assert!(matches!(
        &outcomes[0].result,
        TransferResult::SubmissionFailed { error } if error == "node unavailable"
    ));
    assert!(matches!(
        &outcomes[1].result,
        TransferResult::Confirmed { signature } if signature == "sig-a"
    ));
    assert!(matches!(
        &outcomes[2].result,
        TransferResult::SubmissionFailed { error } if error == "blockhash expired"
    ));
    for (j, o) in outcomes.iter().enumerate() {
        assert_eq!(o.index, j);
    }
}

#[test]
fn malformed_receiver_is_isolated_to_its_index() {
    let spec = batch(
        vec![keypair_b58(1), keypair_b58(2)],
        vec![address_of(11), "this-is-not-an-address!!".to_string()],
        vec![10, 20],
    );
    let round = run_round_all_confirmed(&spec, ChainReference { bytes: [1; 32] });
    let outcomes = round.outcomes();
    assert_eq!(outcomes.len(), 2);
    assert!(matches!(
        &outcomes[0].result,
        TransferResult::Confirmed { .. }
    ));
    assert!(matches!(
        &outcomes[1].result,
        TransferResult::NotSubmitted { reason: BuildError::MalformedReceiverAddress }
    ));
    assert_eq!(outcomes[1].receiver, "this-is-not-an-address!!");
    assert_eq!(outcomes[1].amount, 20);
}

#[test]
fn malformed_sender_key_is_isolated_to_its_index() {
    let spec = batch(
        vec!["???".to_string(), keypair_b58(2)],
        vec![address_of(11), address_of(12)],
        vec![10, 20],
    );
    let round = run_round_all_confirmed(&spec, ChainReference { bytes: [1; 32] });
    let outcomes = round.outcomes();
    assert_eq!(outcomes.len(), 2);
    assert!(matches!(
        &outcomes[0].result,
        TransferResult::NotSubmitted { reason: BuildError::MalformedSenderKey }
    ));
    assert!(outcomes[0].sender.is_none());
    assert!(matches!(
        &outcomes[1].result,
        TransferResult::Confirmed { .. }
    ));
}

#[test]
fn two_notifications_run_two_rounds_with_their_own_references() {
    let spec = batch(
        vec![keypair_b58(1)],
        vec![address_of(11)],
        vec![77],
    );
    let first_fetch = ChainReference { bytes: [1; 32] };
    let second_fetch = ChainReference { bytes: [2; 32] };

    let mut rounds: Vec<Round> = Vec::new();
    for (event, reference) in [
        (NotificationEvent::BlockMeta { block_height: Some(1) }, first_fetch),
        (NotificationEvent::BlockMeta { block_height: Some(2) }, second_fetch),
    ] {
        if triggers_dispatch(&event) {
            rounds.push(run_round_all_confirmed(&spec, reference));
        }
    }

    assert_eq!(rounds.len(), 2);
    assert_eq!(rounds[0].reference().bytes, [1; 32]);
    assert_eq!(rounds[1].reference().bytes, [2; 32]);
    assert_ne!(rounds[0].reference().bytes, rounds[1].reference().bytes);
    assert_eq!(rounds[0].outcomes().len(), 1);
    assert_eq!(rounds[1].outcomes().len(), 1);
}

#[test]
fn sender_identity_derives_the_public_address() {
    let key = keypair_b58(4);
    let (bytes, display) = sender_identity(&key).expect("valid credential");
    let expected = solana_keypair::Keypair::new_from_array([4; 32]).pubkey();
    assert_eq!(bytes, expected.to_bytes());
    assert_eq!(display, expected.to_string());
    assert_ne!(display, key);

    assert!(sender_identity("not a keypair").is_none());
    // A valid address string is still not a 64-byte keypair encoding.
    assert!(sender_identity(&address_of(4)).is_none());
}

#[test]
fn parse_receiver_decodes_exactly_valid_addresses() {
    let addr = solana_keypair::Keypair::new_from_array([6; 32]).pubkey();
    let parsed = parse_receiver(&addr.to_string()).expect("valid address accepted");
    assert_eq!(parsed, addr.to_bytes());

    assert!(parse_receiver("").is_none());
    assert!(parse_receiver("0OIl").is_none());
    assert!(parse_receiver("abc").is_none());
    // 64 bytes of key material is not a 32-byte address.
    assert!(parse_receiver(&keypair_b58(6)).is_none());
}
