use userop_indexer::decode::{decode_user_operation_event, DecodeError, RawLog};
use userop_indexer::ingest::{process_log, run_backfill, StepOutcome};
use userop_indexer::orchestrator::{OrchAction, OrchEvent, Orchestrator, Phase};
use userop_indexer::render::{render_row, to_hex_literal};
use userop_indexer::signature::user_operation_event_topic0;
use userop_indexer::store::{EventStore, PersistOutcome};

fn word(fill: u8) -> Vec<u8> {
    vec![fill; 32]
}

fn be_word(v: u64) -> Vec<u8> {
    let mut w = vec![0u8; 32];
    let be = v.to_be_bytes();
    for i in 0..8 {
        w[24 + i] = be[i];
    }
    w
}

fn success_word(low: u8) -> Vec<u8> {
    let mut w = vec![0u8; 32];
    w[31] = low;
    w
}

fn payload(nonce: u64, success: Vec<u8>, cost: u64, used: u64) -> Vec<u8> {
    let mut d = be_word(nonce);
    d.extend(success);
    d.extend(be_word(cost));
    d.extend(be_word(used));
    d
}

fn good_log(block: u64) -> RawLog {
    RawLog {
        topics: vec![word(0xee), word(0x11), word(0x22), word(0x33)],
        data: payload(2, success_word(1), 50_000, 42_000),
        block_number: Some(block),
    }
}

#[test]
fn decode_well_formed_extracts_every_field() {
    let log = good_log(100);
    let (ev, block) = decode_user_operation_event(&log).unwrap();
    assert_eq!(ev.user_op_hash, word(0x11));
    assert_eq!(ev.sender, vec![0x22u8; 20]);
    assert_eq!(ev.paymaster, vec![0x33u8; 20]);
    assert_eq!(ev.nonce, be_word(2));
    assert!(ev.success);
    assert_eq!(ev.actual_gas_cost, be_word(50_000));
    assert_eq!(ev.actual_gas_used, be_word(42_000));
    assert_eq!(block, 100);
}

#[test]
fn topic_count_three_rejected() {
    let mut log = good_log(100);
    log.topics.pop();
    assert_eq!(
        decode_user_operation_event(&log),
        Err(DecodeError::TopicCountMismatch)
    );
}

#[test]
fn topic_count_five_rejected() {
    let mut log = good_log(100);
    log.topics.push(word(0x44));
    assert_eq!(
        decode_user_operation_event(&log),
        Err(DecodeError::TopicCountMismatch)
    );
}

#[test]
fn payload_short_rejected() {
    let mut log = good_log(100);
    log.data.pop();
    assert_eq!(
        decode_user_operation_event(&log),
        Err(DecodeError::PayloadLengthMismatch)
    );
}

#[test]
fn payload_long_rejected() {
    let mut log = good_log(100);
    log.data.push(0);
    assert_eq!(
        decode_user_operation_event(&log),
        Err(DecodeError::PayloadLengthMismatch)
    );
}

#[test]
fn missing_block_number_rejected() {
    let mut log = good_log(100);
    log.block_number = None;
    assert_eq!(
        decode_user_operation_event(&log),
        Err(DecodeError::MissingBlockNumber)
    );
}

#[test]
fn success_low_byte_one_decodes_true() {
    let mut log = good_log(100);
    log.data = payload(2, success_word(1), 50_000, 42_000);
    let (ev, _) = decode_user_operation_event(&log).unwrap();
    assert!(ev.success);
}

#[test]
fn success_word_zero_decodes_false() {
    let mut log = good_log(100);
    log.data = payload(2, success_word(0), 50_000, 42_000);
    let (ev, _) = decode_user_operation_event(&log).unwrap();
    assert!(!ev.success);
}

#[test]
fn success_ignores_bytes_outside_low_byte() {
    // nonzero bytes elsewhere in the second word, low byte zero
    let mut noisy = success_word(0);
    noisy[0] = 0xff;
    noisy[15] = 0x07;
    noisy[30] = 0x99;
    let mut log = good_log(100);
    log.data = payload(2, noisy, 50_000, 42_000);
    let (ev, _) = decode_user_operation_event(&log).unwrap();
    assert!(!ev.success);

    // low byte nonzero but not 1 still decodes true
    let mut log2 = good_log(100);
    log2.data = payload(2, success_word(0x80), 50_000, 42_000);
    let (ev2, _) = decode_user_operation_event(&log2).unwrap();
    assert!(ev2.success);
}

#[test]
fn malformed_log_never_persists() {
    let mut store = EventStore::new();
    let mut log = good_log(100);
    log.topics.pop();
    let outcome = process_log(&mut store, &log);
    assert_eq!(
        outcome,
        StepOutcome::SkippedDecode(DecodeError::TopicCountMismatch)
    );
    assert_eq!(store.len(), 0);

    let mut short = good_log(100);
    short.data.truncate(127);
    let outcome2 = process_log(&mut store, &short);
    assert_eq!(
        outcome2,
        StepOutcome::SkippedDecode(DecodeError::PayloadLengthMismatch)
    );
    assert_eq!(store.len(), 0);
}

#[test]
fn duplicate_persist_leaves_single_row() {
    let mut store = EventStore::new();
    let log = good_log(100);
    let (ev, block) = decode_user_operation_event(&log).unwrap();
    assert_eq!(store.persist_event(&ev, block), PersistOutcome::Inserted);
    assert_eq!(store.persist_event(&ev, block), PersistOutcome::Duplicate);
    assert_eq!(store.len(), 1);
    assert!(store.contains_key(&ev.user_op_hash, &ev.nonce));
}

#[test]
fn distinct_nonce_stores_two_rows() {
    let mut store = EventStore::new();
    let log = good_log(100);
    let (ev, block) = decode_user_operation_event(&log).unwrap();
    let mut log2 = good_log(101);
    log2.data = payload(3, success_word(1), 50_000, 42_000);
    let (ev2, block2) = decode_user_operation_event(&log2).unwrap();
    assert_eq!(store.persist_event(&ev, block), PersistOutcome::Inserted);
    assert_eq!(store.persist_event(&ev2, block2), PersistOutcome::Inserted);
    assert_eq!(store.len(), 2);
}

#[test]
fn backfill_attempts_every_log_and_absorbs_duplicates() {
    let mut store = EventStore::new();
    let mut malformed = good_log(100);
    malformed.topics.pop();
    let logs = vec![good_log(100), malformed, good_log(100)];
    let outcomes = run_backfill(&mut store, &logs);
    assert_eq!(
        outcomes,
        vec![
            StepOutcome::Persisted(PersistOutcome::Inserted),
            StepOutcome::SkippedDecode(DecodeError::TopicCountMismatch),
            StepOutcome::Persisted(PersistOutcome::Duplicate),
        ]
    );
    assert_eq!(store.len(), 1);
}

#[test]
fn orchestrator_happy_path_is_contiguous() {
    let mut orch = Orchestrator::new(100);
    assert_eq!(orch.phase, Phase::Connecting);
    let a1 = orch.step(OrchEvent::Connected { head: 150 });
    assert_eq!(a1, OrchAction::RunBackfill { from: 100, to: 150 });
    assert_eq!(orch.phase, Phase::Backfilling);
    let a2 = orch.step(OrchEvent::BackfillDone);
    assert_eq!(a2, OrchAction::StartSubscription { from: 151 });
    assert_eq!(orch.phase, Phase::Subscribing);
}

#[test]
fn orchestrator_setup_failure_is_fatal() {
    let mut orch = Orchestrator::new(100);
    let a = orch.step(OrchEvent::SetupFailed);
    assert_eq!(a, OrchAction::Halt);
    assert_eq!(orch.phase, Phase::Failed);
}

#[test]
fn orchestrator_persistence_failure_is_fatal() {
    let mut orch = Orchestrator::new(100);
    orch.step(OrchEvent::Connected { head: 150 });
    let a = orch.step(OrchEvent::PersistenceFailed);
    assert_eq!(a, OrchAction::Halt);
    assert_eq!(orch.phase, Phase::Failed);
}

#[test]
fn orchestrator_subscription_loss_is_fatal() {
    let mut orch = Orchestrator::new(100);
    orch.step(OrchEvent::Connected { head: 150 });
    orch.step(OrchEvent::BackfillDone);
    let a = orch.step(OrchEvent::SubscriptionLost);
    assert_eq!(a, OrchAction::Halt);
    assert_eq!(orch.phase, Phase::Failed);
}

#[test]
fn end_to_end_scenario() {
    // start block 100, head 100, one historical log at block 100 with
    // nonce 2, success word 0x..01, cost 50000, used 42000
    let mut orch = Orchestrator::new(100);
    let action = orch.step(OrchEvent::Connected { head: 100 });
    assert_eq!(action, OrchAction::RunBackfill { from: 100, to: 100 });

    let mut store = EventStore::new();
    let logs = vec![good_log(100)];
    let outcomes = run_backfill(&mut store, &logs);
    assert_eq!(outcomes, vec![StepOutcome::Persisted(PersistOutcome::Inserted)]);
    assert_eq!(store.len(), 1);
    let (ev, _) = decode_user_operation_event(&logs[0]).unwrap();
    assert!(store.contains_key(&ev.user_op_hash, &be_word(2)));
    assert!(ev.success);

    let next = orch.step(OrchEvent::BackfillDone);
    assert_eq!(next, OrchAction::StartSubscription { from: 101 });
}

#[test]
fn hex_literal_renders_lowercase_digits() {
    let bytes = vec![0x00u8, 0x01, 0x9f, 0xab, 0xff];
    assert_eq!(to_hex_literal(&bytes), "0x00019fabff");
}

#[test]
fn rendered_row_matches_expected_text() {
    let log = good_log(100);
    let (ev, block) = decode_user_operation_event(&log).unwrap();
    let row = render_row(&ev, block);
    assert_eq!(row.user_op_hash, format!("0x{}", "11".repeat(32)));
    assert_eq!(row.sender, format!("0x{}", "22".repeat(20)));
    assert_eq!(row.paymaster, format!("0x{}", "33".repeat(20)));
    assert_eq!(row.nonce, format!("0x{}02", "00".repeat(31)));
    assert!(row.success);
    // 50000 = 0xc350, 42000 = 0xa410
    assert_eq!(row.actual_gas_cost, format!("0x{}c350", "00".repeat(30)));
    assert_eq!(row.actual_gas_used, format!("0x{}a410", "00".repeat(30)));
    assert_eq!(row.block_number, 100);
}

#[test]
fn topic0_is_the_known_signature_hash() {
    let topic0 = user_operation_event_topic0();
    let expected: Vec<u8> = vec![
        0x49, 0x62, 0x8f, 0xd1, 0x47, 0x10, 0x06, 0xc1, 0x48, 0x2d, 0xa8, 0x80, 0x28, 0xe9,
        0xce, 0x4d, 0xbb, 0x08, 0x0b, 0x81, 0x5c, 0x9b, 0x03, 0x44, 0xd3, 0x9e, 0x5a, 0x8e,
        0x6e, 0xc1, 0x41, 0x9f,
    ];
    assert_eq!(topic0, expected);
}
