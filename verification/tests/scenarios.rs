//! End-to-end scenarios: subscribe, feed events, check the exact JSON out.

use rpc_subscriptions::ledger::{
    Account, AccountEntry, BankForks, CommitmentSlots, LedgerBank, ParsedAccountEntry,
    ProgramAccountEntry, SignatureStatusEntry, TransactionLogInfo,
};
use rpc_subscriptions::notifier::RpcNotification;
use rpc_subscriptions::params::{
    AccountSubscriptionParams, CommitmentLevel, LogsSubscriptionKind, LogsSubscriptionParams,
    RpcFilterType, SignatureSubscriptionParams, SubscriptionParams, UiAccountEncoding,
};
use rpc_subscriptions::subscriptions::{
    NotificationEntry, PubSubConfig, RpcSubscriptions, SubscribeError,
};
use rpc_subscriptions::values::Vote;

const SYSTEM_OWNER_B58: &str = "11111111111111111111111111111111";
const STAKE_PROGRAM_B58: &str = "Stake11111111111111111111111111111111111111";

fn stake_program_id() -> Vec<u8> {
    vec![
        6, 161, 216, 23, 145, 55, 84, 42, 152, 52, 55, 189, 254, 42, 122, 178, 85, 127, 83, 92,
        138, 120, 114, 43, 104, 164, 157, 192, 0, 0, 0, 0,
    ]
}

fn alice_pubkey() -> Vec<u8> {
    (1u8..=32).collect()
}

const ALICE_B58: &str = "4wBqpZM9xaSheZzJSMawUKKwhdpChKbZ5eu5ky4Vigw";

fn system_account(lamports: u64, data: Vec<u8>) -> Account {
    Account { lamports, data, owner: vec![0u8; 32], executable: false, rent_epoch: 0 }
}

fn empty_bank(slot: u64) -> LedgerBank {
    LedgerBank {
        slot,
        accounts: Vec::new(),
        program_accounts: Vec::new(),
        logs: Vec::new(),
        signature_statuses: Vec::new(),
        parsed_accounts: Vec::new(),
    }
}

fn account_params(pubkey: Vec<u8>, commitment: CommitmentLevel) -> SubscriptionParams {
    SubscriptionParams::Account(AccountSubscriptionParams {
        pubkey,
        commitment,
        encoding: UiAccountEncoding::Binary,
        data_slice: None,
    })
}

fn json_text(n: &RpcNotification) -> String {
    String::from_utf8(n.json.clone()).unwrap()
}

#[test]
fn test_account_subscribe_processed() {
    let mut rs = RpcSubscriptions::new_for_tests();
    let mut bank1 = empty_bank(1);
    bank1.accounts.push(AccountEntry {
        pubkey: alice_pubkey(),
        account: system_account(1, Vec::new()),
        modified_slot: 1,
    });
    let forks = BankForks { banks: vec![empty_bank(0), bank1] };

    // subscribe while the ledger has nothing at the processed tip (slot 0)
    let zero = CommitmentSlots { slot: 0, highest_confirmed_slot: 0, highest_confirmed_root: 0 };
    let id = rs
        .subscribe(account_params(alice_pubkey(), CommitmentLevel::Processed), &forks, &zero)
        .unwrap();
    assert_eq!(id, 0);

    let cs = CommitmentSlots { slot: 1, highest_confirmed_slot: 0, highest_confirmed_root: 0 };
    rs.notify_subscribers(cs, &forks);
    let out = rs.drain_notifications();
    assert_eq!(out.len(), 1);
    assert!(!out[0].is_final);
    assert_eq!(out[0].subscription_id, 0);
    assert_eq!(
        json_text(&out[0]),
        format!(
            "{{\"jsonrpc\":\"2.0\",\"method\":\"accountNotification\",\"params\":{{\"result\":{{\"context\":{{\"slot\":1}},\"value\":{{\"data\":\"\",\"executable\":false,\"lamports\":1,\"owner\":\"{}\",\"rentEpoch\":0}}}},\"subscription\":0}}}}",
            SYSTEM_OWNER_B58
        )
    );

    // the same bank event again: deduplicated, nothing more comes out
    rs.notify_subscribers(cs, &forks);
    assert_eq!(rs.drain_notifications().len(), 0);
}

#[test]
fn test_account_fork_revert() {
    let mut rs = RpcSubscriptions::new_for_tests();
    let mut bank3 = empty_bank(3);
    bank3.accounts.push(AccountEntry {
        pubkey: alice_pubkey(),
        account: system_account(5, Vec::new()),
        modified_slot: 3,
    });
    let forks = BankForks { banks: vec![bank3] };
    let zero = CommitmentSlots { slot: 0, highest_confirmed_slot: 0, highest_confirmed_root: 0 };
    rs.subscribe(account_params(alice_pubkey(), CommitmentLevel::Processed), &forks, &zero)
        .unwrap();

    let cs = CommitmentSlots { slot: 3, highest_confirmed_slot: 0, highest_confirmed_root: 0 };
    rs.notify_subscribers(cs, &forks);
    assert_eq!(rs.drain_notifications().len(), 1);

    // the fork reverts: the account's modified slot moves backwards to 2
    let mut bank3b = empty_bank(3);
    bank3b.accounts.push(AccountEntry {
        pubkey: alice_pubkey(),
        account: system_account(4, Vec::new()),
        modified_slot: 2,
    });
    let forks2 = BankForks { banks: vec![bank3b] };
    rs.notify_subscribers(cs, &forks2);
    let out = rs.drain_notifications();
    assert_eq!(out.len(), 1);
    assert!(json_text(&out[0]).contains("\"lamports\":4"));

    // and the reverted state is now the subscription's last notified state
    rs.notify_subscribers(cs, &forks2);
    assert_eq!(rs.drain_notifications().len(), 0);
}

#[test]
fn test_account_deletion_notifies_zero_account() {
    let mut rs = RpcSubscriptions::new_for_tests();
    let mut bank1 = empty_bank(1);
    bank1.accounts.push(AccountEntry {
        pubkey: alice_pubkey(),
        account: system_account(1, Vec::new()),
        modified_slot: 1,
    });
    let forks = BankForks { banks: vec![bank1] };
    let zero = CommitmentSlots { slot: 0, highest_confirmed_slot: 0, highest_confirmed_root: 0 };
    rs.subscribe(account_params(alice_pubkey(), CommitmentLevel::Processed), &forks, &zero)
        .unwrap();
    let cs1 = CommitmentSlots { slot: 1, highest_confirmed_slot: 0, highest_confirmed_root: 0 };
    rs.notify_subscribers(cs1, &forks);
    assert_eq!(rs.drain_notifications().len(), 1);

    // at slot 2 the ledger no longer holds the account
    let forks2 = BankForks { banks: vec![empty_bank(2)] };
    let cs2 = CommitmentSlots { slot: 2, highest_confirmed_slot: 0, highest_confirmed_root: 0 };
    rs.notify_subscribers(cs2, &forks2);
    let out = rs.drain_notifications();
    assert_eq!(out.len(), 1);
    assert_eq!(
        json_text(&out[0]),
        format!(
            "{{\"jsonrpc\":\"2.0\",\"method\":\"accountNotification\",\"params\":{{\"result\":{{\"context\":{{\"slot\":2}},\"value\":{{\"data\":\"\",\"executable\":false,\"lamports\":0,\"owner\":\"{}\",\"rentEpoch\":0}}}},\"subscription\":0}}}}",
            SYSTEM_OWNER_B58
        )
    );

    // deletion was notified once; the event repeated changes nothing
    rs.notify_subscribers(cs2, &forks2);
    assert_eq!(rs.drain_notifications().len(), 0);
}

#[test]
fn test_program_subscribe_stake_account() {
    let mut rs = RpcSubscriptions::new_for_tests();
    let mut bank0 = empty_bank(0);
    bank0.program_accounts.push(ProgramAccountEntry {
        program: stake_program_id(),
        pubkey: alice_pubkey(),
        account: Account {
            lamports: 1,
            data: vec![0u8; 16],
            owner: stake_program_id(),
            executable: false,
            rent_epoch: 0,
        },
    });
    let forks = BankForks { banks: vec![bank0] };
    let zero = CommitmentSlots { slot: 0, highest_confirmed_slot: 0, highest_confirmed_root: 0 };
    let id = rs
        .subscribe(
            SubscriptionParams::Program(
                rpc_subscriptions::params::ProgramSubscriptionParams {
                    pubkey: stake_program_id(),
                    filters: Vec::new(),
                    encoding: UiAccountEncoding::Binary,
                    data_slice: None,
                    commitment: CommitmentLevel::Processed,
                    with_context: false,
                },
            ),
            &forks,
            &zero,
        )
        .unwrap();
    assert_eq!(id, 0);

    rs.notify_subscribers(zero, &forks);
    let out = rs.drain_notifications();
    assert_eq!(out.len(), 1);
    assert_eq!(
        json_text(&out[0]),
        format!(
            "{{\"jsonrpc\":\"2.0\",\"method\":\"programNotification\",\"params\":{{\"result\":{{\"context\":{{\"slot\":0}},\"value\":{{\"pubkey\":\"{}\",\"account\":{{\"data\":\"1111111111111111\",\"executable\":false,\"lamports\":1,\"owner\":\"{}\",\"rentEpoch\":0}}}}}},\"subscription\":0}}}}",
            ALICE_B58, STAKE_PROGRAM_B58
        )
    );
}

#[test]
fn test_signature_subscribe_dual_notifications() {
    let mut rs = RpcSubscriptions::new_for_tests();
    let sig = vec![9u8; 64];
    let forks0 = BankForks { banks: Vec::new() };
    let zero = CommitmentSlots { slot: 0, highest_confirmed_slot: 0, highest_confirmed_root: 0 };
    rs.subscribe(
        SubscriptionParams::Signature(SignatureSubscriptionParams {
            signature: sig.clone(),
            commitment: CommitmentLevel::Processed,
            enable_received_notification: true,
        }),
        &forks0,
        &zero,
    )
    .unwrap();
    assert_eq!(rs.total(), 1);

    rs.notify_signatures_received((1, vec![sig.clone()]));
    let out = rs.drain_notifications();
    assert_eq!(out.len(), 1);
    assert!(!out[0].is_final);
    assert_eq!(
        json_text(&out[0]),
        "{\"jsonrpc\":\"2.0\",\"method\":\"signatureNotification\",\"params\":{\"result\":{\"context\":{\"slot\":1},\"value\":\"receivedSignature\"},\"subscription\":0}}"
    );

    // the signature's status is processed at slot 1: success
    let mut bank1 = empty_bank(1);
    bank1.signature_statuses.push(SignatureStatusEntry { signature: sig.clone(), err: None });
    let forks = BankForks { banks: vec![bank1] };
    let cs = CommitmentSlots { slot: 1, highest_confirmed_slot: 0, highest_confirmed_root: 0 };
    rs.notify_subscribers(cs, &forks);
    let out = rs.drain_notifications();
    assert_eq!(out.len(), 1);
    assert!(out[0].is_final);
    assert_eq!(
        json_text(&out[0]),
        "{\"jsonrpc\":\"2.0\",\"method\":\"signatureNotification\",\"params\":{\"result\":{\"context\":{\"slot\":1},\"value\":{\"err\":null}},\"subscription\":0}}"
    );
    // the terminal notification removed the subscription
    assert_eq!(rs.total(), 0);

    // and the same event again reaches nobody
    rs.notify_subscribers(cs, &forks);
    assert_eq!(rs.drain_notifications().len(), 0);
}

#[test]
fn test_signature_failed_status_renders_error() {
    let mut rs = RpcSubscriptions::new_for_tests();
    let sig = vec![7u8; 64];
    let forks0 = BankForks { banks: Vec::new() };
    let zero = CommitmentSlots { slot: 0, highest_confirmed_slot: 0, highest_confirmed_root: 0 };
    rs.subscribe(
        SubscriptionParams::Signature(SignatureSubscriptionParams {
            signature: sig.clone(),
            commitment: CommitmentLevel::Processed,
            enable_received_notification: false,
        }),
        &forks0,
        &zero,
    )
    .unwrap();

    // received notifications were not asked for
    rs.notify_signatures_received((1, vec![sig.clone()]));
    assert_eq!(rs.drain_notifications().len(), 0);

    let mut bank1 = empty_bank(1);
    bank1.signature_statuses.push(SignatureStatusEntry {
        signature: sig.clone(),
        err: Some(b"\"AccountInUse\"".to_vec()),
    });
    let forks = BankForks { banks: vec![bank1] };
    let cs = CommitmentSlots { slot: 1, highest_confirmed_slot: 0, highest_confirmed_root: 0 };
    rs.notify_subscribers(cs, &forks);
    let out = rs.drain_notifications();
    assert_eq!(out.len(), 1);
    assert_eq!(
        json_text(&out[0]),
        "{\"jsonrpc\":\"2.0\",\"method\":\"signatureNotification\",\"params\":{\"result\":{\"context\":{\"slot\":1},\"value\":{\"err\":\"AccountInUse\"}},\"subscription\":0}}"
    );
}

#[test]
fn test_gossip_excludes_non_confirmed_subscriptions() {
    let mut rs = RpcSubscriptions::new_for_tests();
    let mut bank5 = empty_bank(5);
    bank5.accounts.push(AccountEntry {
        pubkey: alice_pubkey(),
        account: system_account(1, Vec::new()),
        modified_slot: 5,
    });
    let forks = BankForks { banks: vec![bank5] };
    let zero = CommitmentSlots { slot: 0, highest_confirmed_slot: 0, highest_confirmed_root: 0 };
    rs.subscribe(account_params(alice_pubkey(), CommitmentLevel::Finalized), &forks, &zero)
        .unwrap();

    rs.notify_gossip_subscribers(5, &forks);
    assert_eq!(rs.drain_notifications().len(), 0);
}

#[test]
fn test_gossip_notifies_confirmed_subscription() {
    let mut rs = RpcSubscriptions::new_for_tests();
    let mut bank5 = empty_bank(5);
    bank5.accounts.push(AccountEntry {
        pubkey: alice_pubkey(),
        account: system_account(2, Vec::new()),
        modified_slot: 5,
    });
    let forks = BankForks { banks: vec![bank5] };
    let zero = CommitmentSlots { slot: 0, highest_confirmed_slot: 0, highest_confirmed_root: 0 };
    rs.subscribe(account_params(alice_pubkey(), CommitmentLevel::Confirmed), &forks, &zero)
        .unwrap();

    rs.notify_gossip_subscribers(5, &forks);
    let out = rs.drain_notifications();
    assert_eq!(out.len(), 1);
    assert!(json_text(&out[0]).contains("\"context\":{\"slot\":5}"));
    assert!(json_text(&out[0]).contains("\"lamports\":2"));
}

#[test]
fn test_root_batch_sorted_ascending() {
    let mut rs = RpcSubscriptions::new_for_tests();
    let forks = BankForks { banks: Vec::new() };
    let zero = CommitmentSlots { slot: 0, highest_confirmed_slot: 0, highest_confirmed_root: 0 };
    let root_id = rs.subscribe(SubscriptionParams::Root, &forks, &zero).unwrap();
    let updates_id = rs.subscribe(SubscriptionParams::SlotsUpdates, &forks, &zero).unwrap();
    assert_eq!((root_id, updates_id), (0, 1));

    rs.notify_roots(vec![2, 1, 3], 7);
    let out = rs.drain_notifications();
    assert_eq!(out.len(), 6);
    let expected: Vec<String> = vec![
        "{\"jsonrpc\":\"2.0\",\"method\":\"slotsUpdatesNotification\",\"params\":{\"result\":{\"type\":\"root\",\"slot\":1,\"timestamp\":7},\"subscription\":1}}".to_string(),
        "{\"jsonrpc\":\"2.0\",\"method\":\"rootNotification\",\"params\":{\"result\":1,\"subscription\":0}}".to_string(),
        "{\"jsonrpc\":\"2.0\",\"method\":\"slotsUpdatesNotification\",\"params\":{\"result\":{\"type\":\"root\",\"slot\":2,\"timestamp\":7},\"subscription\":1}}".to_string(),
        "{\"jsonrpc\":\"2.0\",\"method\":\"rootNotification\",\"params\":{\"result\":2,\"subscription\":0}}".to_string(),
        "{\"jsonrpc\":\"2.0\",\"method\":\"slotsUpdatesNotification\",\"params\":{\"result\":{\"type\":\"root\",\"slot\":3,\"timestamp\":7},\"subscription\":1}}".to_string(),
        "{\"jsonrpc\":\"2.0\",\"method\":\"rootNotification\",\"params\":{\"result\":3,\"subscription\":0}}".to_string(),
    ];
    for (n, e) in out.iter().zip(expected.iter()) {
        assert_eq!(&json_text(n), e);
    }
}

#[test]
fn test_capacity_cap() {
    let config = PubSubConfig {
        max_active_subscriptions: 1,
        queue_capacity_items: 100,
        queue_capacity_bytes: 1 << 20,
    };
    let mut rs = RpcSubscriptions::new_with_config(&config);
    let forks = BankForks { banks: Vec::new() };
    let zero = CommitmentSlots { slot: 0, highest_confirmed_slot: 0, highest_confirmed_root: 0 };
    let p = account_params(alice_pubkey(), CommitmentLevel::Processed);
    let q = account_params(vec![5u8; 32], CommitmentLevel::Processed);

    let id_p = rs.subscribe(p.clone(), &forks, &zero).unwrap();
    assert_eq!(
        rs.subscribe(q.clone(), &forks, &zero),
        Err(SubscribeError::CapacityExceeded)
    );
    assert!(rs.unsubscribe(&p, id_p));
    let id_q = rs.subscribe(q, &forks, &zero).unwrap();
    assert_eq!(id_q, 1);
    assert_eq!(rs.total(), 1);
}

#[test]
fn test_deduplicated_subscribe() {
    let mut rs = RpcSubscriptions::new_for_tests();
    let forks = BankForks { banks: Vec::new() };
    let zero = CommitmentSlots { slot: 0, highest_confirmed_slot: 0, highest_confirmed_root: 0 };
    let p = account_params(alice_pubkey(), CommitmentLevel::Processed);

    let id1 = rs.subscribe(p.clone(), &forks, &zero).unwrap();
    let id2 = rs.subscribe(p.clone(), &forks, &zero).unwrap();
    assert_eq!(id1, id2);
    assert_eq!(rs.total(), 1);

    // a stranger's id releases nothing
    assert!(!rs.unsubscribe(&p, 999));
    assert_eq!(rs.total(), 1);

    // releasing one subscriber leaves the shared entry active
    assert!(rs.unsubscribe(&p, id1));
    assert_eq!(rs.total(), 1);
    assert!(rs.unsubscribe(&p, id1));
    assert_eq!(rs.total(), 0);
}

#[test]
fn test_program_notifications_repeat_per_event() {
    // program subscriptions carry no last-notified suppression: every
    // commitment event against the same bank reports the accounts again
    let mut rs = RpcSubscriptions::new_for_tests();
    let mut bank0 = empty_bank(0);
    bank0.program_accounts.push(ProgramAccountEntry {
        program: stake_program_id(),
        pubkey: alice_pubkey(),
        account: Account {
            lamports: 1,
            data: vec![0u8; 16],
            owner: stake_program_id(),
            executable: false,
            rent_epoch: 0,
        },
    });
    let forks = BankForks { banks: vec![bank0] };
    let zero = CommitmentSlots { slot: 0, highest_confirmed_slot: 0, highest_confirmed_root: 0 };
    rs.subscribe(
        SubscriptionParams::Program(rpc_subscriptions::params::ProgramSubscriptionParams {
            pubkey: stake_program_id(),
            filters: Vec::new(),
            encoding: UiAccountEncoding::Binary,
            data_slice: None,
            commitment: CommitmentLevel::Processed,
            with_context: false,
        }),
        &forks,
        &zero,
    )
    .unwrap();
    rs.notify_subscribers(zero, &forks);
    assert_eq!(rs.drain_notifications().len(), 1);
    rs.notify_subscribers(zero, &forks);
    assert_eq!(rs.drain_notifications().len(), 1);
}

#[test]
fn test_subscribe_initializes_last_notified_slot() {
    // the ledger already holds the account when the subscription arrives, so
    // the first matching event is suppressed as already-notified
    let mut rs = RpcSubscriptions::new_for_tests();
    let mut bank5 = empty_bank(5);
    bank5.accounts.push(AccountEntry {
        pubkey: alice_pubkey(),
        account: system_account(9, Vec::new()),
        modified_slot: 5,
    });
    let forks = BankForks { banks: vec![bank5] };
    let cs5 = CommitmentSlots { slot: 5, highest_confirmed_slot: 0, highest_confirmed_root: 0 };
    rs.subscribe(account_params(alice_pubkey(), CommitmentLevel::Processed), &forks, &cs5)
        .unwrap();
    rs.notify_subscribers(cs5, &forks);
    assert_eq!(rs.drain_notifications().len(), 0);
}

#[test]
fn test_vote_notification_base58_hash() {
    let mut rs = RpcSubscriptions::new_for_tests();
    let forks = BankForks { banks: Vec::new() };
    let zero = CommitmentSlots { slot: 0, highest_confirmed_slot: 0, highest_confirmed_root: 0 };
    rs.subscribe(SubscriptionParams::Vote, &forks, &zero).unwrap();
    rs.notify_vote(&Vote { slots: vec![1, 2], hash: vec![7u8; 32], timestamp: Some(3) });
    let out = rs.drain_notifications();
    assert_eq!(out.len(), 1);
    assert_eq!(
        json_text(&out[0]),
        "{\"jsonrpc\":\"2.0\",\"method\":\"voteNotification\",\"params\":{\"result\":{\"slots\":[1,2],\"hash\":\"US517G5965aydkZ46HS38QLi7UQiSojurfbQfKCELFx\",\"timestamp\":3},\"subscription\":0}}"
    );

    // a vote without a timestamp renders null, a negative one its sign
    rs.notify_vote(&Vote { slots: vec![4], hash: vec![7u8; 32], timestamp: None });
    rs.notify_vote(&Vote { slots: vec![5], hash: vec![7u8; 32], timestamp: Some(-6) });
    let out = rs.drain_notifications();
    assert!(json_text(&out[0]).contains("\"timestamp\":null"));
    assert!(json_text(&out[1]).contains("\"timestamp\":-6"));
}

#[test]
fn test_slot_notification_and_created_bank() {
    let mut rs = RpcSubscriptions::new_for_tests();
    let forks = BankForks { banks: Vec::new() };
    let zero = CommitmentSlots { slot: 0, highest_confirmed_slot: 0, highest_confirmed_root: 0 };
    rs.subscribe(SubscriptionParams::Slot, &forks, &zero).unwrap();
    rs.subscribe(SubscriptionParams::SlotsUpdates, &forks, &zero).unwrap();
    rs.notify_slot(8, 7, 5, 1000);
    let out = rs.drain_notifications();
    assert_eq!(out.len(), 2);
    assert_eq!(
        json_text(&out[0]),
        "{\"jsonrpc\":\"2.0\",\"method\":\"slotNotification\",\"params\":{\"result\":{\"slot\":8,\"parent\":7,\"root\":5},\"subscription\":0}}"
    );
    assert_eq!(
        json_text(&out[1]),
        "{\"jsonrpc\":\"2.0\",\"method\":\"slotsUpdatesNotification\",\"params\":{\"result\":{\"type\":\"createdBank\",\"slot\":8,\"parent\":7,\"timestamp\":1000},\"subscription\":1}}"
    );
}

#[test]
fn test_logs_subscription_drops_votes_and_escapes() {
    let mut rs = RpcSubscriptions::new_for_tests();
    let mut bank1 = empty_bank(1);
    bank1.logs.push(TransactionLogInfo {
        signature: vec![9u8; 64],
        err: None,
        is_vote: true,
        log_messages: vec!["vote".to_string()],
        addresses: Vec::new(),
    });
    bank1.logs.push(TransactionLogInfo {
        signature: vec![9u8; 64],
        err: Some(b"\"AccountInUse\"".to_vec()),
        is_vote: false,
        log_messages: vec!["he\"llo".to_string(), "plain".to_string()],
        addresses: vec![alice_pubkey()],
    });
    let forks = BankForks { banks: vec![bank1] };
    let zero = CommitmentSlots { slot: 0, highest_confirmed_slot: 0, highest_confirmed_root: 0 };
    rs.subscribe(
        SubscriptionParams::Logs(LogsSubscriptionParams {
            kind: LogsSubscriptionKind::All,
            commitment: CommitmentLevel::Processed,
        }),
        &forks,
        &zero,
    )
    .unwrap();
    let cs = CommitmentSlots { slot: 1, highest_confirmed_slot: 0, highest_confirmed_root: 0 };
    rs.notify_subscribers(cs, &forks);
    let out = rs.drain_notifications();
    assert_eq!(out.len(), 1);
    assert_eq!(
        json_text(&out[0]),
        "{\"jsonrpc\":\"2.0\",\"method\":\"logsNotification\",\"params\":{\"result\":{\"context\":{\"slot\":1},\"value\":{\"signature\":\"BUguQsv2ZuHus54HAFzjdJHzZBkygAjKhEeYwSG19tUfUyvvz3worsdQCdAXDNjakJHioSiyxhFiDJrm8XpSXRA\",\"err\":\"AccountInUse\",\"logs\":[\"he\\\"llo\",\"plain\"]}},\"subscription\":0}}"
    );
}

#[test]
fn test_logs_single_address_filter() {
    let mut rs = RpcSubscriptions::new_for_tests();
    let mut bank1 = empty_bank(1);
    bank1.logs.push(TransactionLogInfo {
        signature: vec![1u8; 64],
        err: None,
        is_vote: false,
        log_messages: vec!["other".to_string()],
        addresses: vec![vec![5u8; 32]],
    });
    bank1.logs.push(TransactionLogInfo {
        signature: vec![2u8; 64],
        err: None,
        is_vote: false,
        log_messages: vec!["mine".to_string()],
        addresses: vec![alice_pubkey()],
    });
    let forks = BankForks { banks: vec![bank1] };
    let zero = CommitmentSlots { slot: 0, highest_confirmed_slot: 0, highest_confirmed_root: 0 };
    rs.subscribe(
        SubscriptionParams::Logs(LogsSubscriptionParams {
            kind: LogsSubscriptionKind::Single(alice_pubkey()),
            commitment: CommitmentLevel::Processed,
        }),
        &forks,
        &zero,
    )
    .unwrap();
    let cs = CommitmentSlots { slot: 1, highest_confirmed_slot: 0, highest_confirmed_root: 0 };
    rs.notify_subscribers(cs, &forks);
    let out = rs.drain_notifications();
    assert_eq!(out.len(), 1);
    assert!(json_text(&out[0]).contains("mine"));
    assert!(!json_text(&out[0]).contains("other"));
}

#[test]
fn test_missing_bank_skips_cycle() {
    let mut rs = RpcSubscriptions::new_for_tests();
    let forks = BankForks { banks: Vec::new() };
    let zero = CommitmentSlots { slot: 0, highest_confirmed_slot: 0, highest_confirmed_root: 0 };
    rs.subscribe(account_params(alice_pubkey(), CommitmentLevel::Processed), &forks, &zero)
        .unwrap();
    let cs = CommitmentSlots { slot: 4, highest_confirmed_slot: 0, highest_confirmed_root: 0 };
    rs.notify_subscribers(cs, &forks);
    assert_eq!(rs.drain_notifications().len(), 0);
    assert_eq!(rs.total(), 1);
}

#[test]
fn test_process_notification_event_dispatch() {
    // the dispatcher entry point routes raw events like the typed helpers
    let mut rs = RpcSubscriptions::new_for_tests();
    let forks = BankForks { banks: Vec::new() };
    let zero = CommitmentSlots { slot: 0, highest_confirmed_slot: 0, highest_confirmed_root: 0 };
    rs.process_notification(
        NotificationEntry::Subscribed(SubscriptionParams::Root, 0),
        &forks,
        &zero,
    );
    assert_eq!(rs.total(), 1);
    rs.process_notification(NotificationEntry::Root(9), &forks, &zero);
    let out = rs.drain_notifications();
    assert_eq!(out.len(), 1);
    assert_eq!(
        json_text(&out[0]),
        "{\"jsonrpc\":\"2.0\",\"method\":\"rootNotification\",\"params\":{\"result\":9,\"subscription\":0}}"
    );
    rs.process_notification(
        NotificationEntry::Unsubscribed(SubscriptionParams::Root, 0),
        &forks,
        &zero,
    );
    assert_eq!(rs.total(), 0);
}

#[test]
fn test_parsed_accounts_come_from_ledger_parser() {
    let mut rs = RpcSubscriptions::new_for_tests();
    let mut bank1 = empty_bank(1);
    bank1.accounts.push(AccountEntry {
        pubkey: alice_pubkey(),
        account: system_account(3, vec![1, 2]),
        modified_slot: 1,
    });
    bank1.parsed_accounts.push(ParsedAccountEntry {
        pubkey: alice_pubkey(),
        json: b"{\"program\":\"spl-token\",\"parsed\":{}}".to_vec(),
    });
    let forks = BankForks { banks: vec![bank1] };
    let zero = CommitmentSlots { slot: 0, highest_confirmed_slot: 0, highest_confirmed_root: 0 };
    rs.subscribe(
        SubscriptionParams::Account(AccountSubscriptionParams {
            pubkey: alice_pubkey(),
            commitment: CommitmentLevel::Processed,
            encoding: UiAccountEncoding::JsonParsed,
            data_slice: None,
        }),
        &forks,
        &zero,
    )
    .unwrap();
    let cs = CommitmentSlots { slot: 1, highest_confirmed_slot: 0, highest_confirmed_root: 0 };
    rs.notify_subscribers(cs, &forks);
    let out = rs.drain_notifications();
    assert_eq!(out.len(), 1);
    assert!(json_text(&out[0])
        .contains("\"data\":{\"program\":\"spl-token\",\"parsed\":{}}"));
}

#[test]
fn test_program_filters_conjunction() {
    let mut rs = RpcSubscriptions::new_for_tests();
    let mut bank0 = empty_bank(0);
    for (pk_byte, data) in [(1u8, vec![1u8, 2, 3, 4]), (2u8, vec![1u8, 9, 3, 4]), (3u8, vec![1u8, 2, 3])] {
        bank0.program_accounts.push(ProgramAccountEntry {
            program: stake_program_id(),
            pubkey: vec![pk_byte; 32],
            account: Account {
                lamports: 1,
                data,
                owner: stake_program_id(),
                executable: false,
                rent_epoch: 0,
            },
        });
    }
    let forks = BankForks { banks: vec![bank0] };
    let zero = CommitmentSlots { slot: 0, highest_confirmed_slot: 0, highest_confirmed_root: 0 };
    rs.subscribe(
        SubscriptionParams::Program(rpc_subscriptions::params::ProgramSubscriptionParams {
            pubkey: stake_program_id(),
            filters: vec![
                RpcFilterType::DataSize(4),
                RpcFilterType::Memcmp { offset: 1, bytes: vec![2, 3] },
            ],
            encoding: UiAccountEncoding::Binary,
            data_slice: None,
            commitment: CommitmentLevel::Processed,
            with_context: false,
        }),
        &forks,
        &zero,
    )
    .unwrap();
    rs.notify_subscribers(zero, &forks);
    let out = rs.drain_notifications();
    // only the first account passes both the size and the memcmp filter
    assert_eq!(out.len(), 1);
    let text = json_text(&out[0]);
    assert!(text.contains(&bs58::encode(vec![1u8; 32]).into_string()));
}
