//! The recent-items buffer's caps and the byte-level wire primitives.

use rpc_subscriptions::ledger::{AccountEntry, BankForks, CommitmentSlots, LedgerBank};
use rpc_subscriptions::params::{
    AccountSubscriptionParams, CommitmentLevel, SubscriptionParams, UiAccountEncoding,
};
use rpc_subscriptions::recent::RecentItems;
use rpc_subscriptions::subscriptions::RpcSubscriptions;
use rpc_subscriptions::wire::{dec_i64, dec_u64};

#[test]
fn test_recent_items_count_cap() {
    let mut r = RecentItems::new(3, 1000);
    for i in 0..5u8 {
        r.push(vec![i; 10]);
    }
    assert_eq!(r.len(), 3);
    assert_eq!(r.total_bytes(), 30);
}

#[test]
fn test_recent_items_byte_cap() {
    // 10-byte payloads under a 25-byte cap: at most two fit
    let mut r = RecentItems::new(10, 25);
    for i in 0..5u8 {
        r.push(vec![i; 10]);
    }
    assert_eq!(r.len(), 2);
    assert_eq!(r.total_bytes(), 20);
}

#[test]
fn test_recent_items_oversize_item_clears_buffer() {
    let mut r = RecentItems::new(10, 8);
    r.push(vec![1; 4]);
    assert_eq!(r.len(), 1);
    r.push(vec![2; 9]);
    // the new payload alone busts the byte cap: everything is evicted
    assert_eq!(r.len(), 0);
    assert_eq!(r.total_bytes(), 0);
}

#[test]
fn test_recent_items_zero_count_cap() {
    let mut r = RecentItems::new(0, 1000);
    r.push(vec![1, 2, 3]);
    assert_eq!(r.len(), 0);
    assert_eq!(r.total_bytes(), 0);
}

#[test]
fn test_notifier_retains_rendered_payloads() {
    let mut rs = RpcSubscriptions::new_for_tests();
    let forks = BankForks { banks: Vec::new() };
    let zero = CommitmentSlots { slot: 0, highest_confirmed_slot: 0, highest_confirmed_root: 0 };
    rs.subscribe(SubscriptionParams::Root, &forks, &zero).unwrap();
    rs.notify_roots(vec![1], 0);
    let out = rs.drain_notifications();
    assert_eq!(out.len(), 1);
    // the recent-items buffer holds the same payload the broadcast carried
    assert_eq!(rs.notifier.recent_items.len(), 1);
    assert_eq!(rs.notifier.num_messages, 1);
    assert_eq!(rs.notifier.num_bytes, out[0].json.len() as u64);
}

#[test]
fn test_decimal_rendering() {
    assert_eq!(dec_u64(0), b"0".to_vec());
    assert_eq!(dec_u64(10), b"10".to_vec());
    assert_eq!(dec_u64(18446744073709551615), b"18446744073709551615".to_vec());
    assert_eq!(dec_i64(0), b"0".to_vec());
    assert_eq!(dec_i64(-1), b"-1".to_vec());
    assert_eq!(dec_i64(i64::MIN), b"-9223372036854775808".to_vec());
    assert_eq!(dec_i64(i64::MAX), b"9223372036854775807".to_vec());
}

#[test]
fn test_oversize_account_data_notice() {
    // legacy base58 rendering refuses data longer than 128 bytes
    let mut rs = RpcSubscriptions::new_for_tests();
    let pk: Vec<u8> = vec![3u8; 32];
    let mut bank1 = LedgerBank {
        slot: 1,
        accounts: Vec::new(),
        program_accounts: Vec::new(),
        logs: Vec::new(),
        signature_statuses: Vec::new(),
        parsed_accounts: Vec::new(),
    };
    bank1.accounts.push(AccountEntry {
        pubkey: pk.clone(),
        account: rpc_subscriptions::ledger::Account {
            lamports: 1,
            data: vec![0u8; 1024],
            owner: vec![0u8; 32],
            executable: false,
            rent_epoch: 0,
        },
        modified_slot: 1,
    });
    let forks = BankForks { banks: vec![bank1] };
    let zero = CommitmentSlots { slot: 0, highest_confirmed_slot: 0, highest_confirmed_root: 0 };
    rs.subscribe(
        SubscriptionParams::Account(AccountSubscriptionParams {
            pubkey: pk,
            commitment: CommitmentLevel::Processed,
            encoding: UiAccountEncoding::Binary,
            data_slice: None,
        }),
        &forks,
        &zero,
    )
    .unwrap();
    let cs = CommitmentSlots { slot: 1, highest_confirmed_slot: 0, highest_confirmed_root: 0 };
    rs.notify_subscribers(cs, &forks);
    let out = rs.drain_notifications();
    assert_eq!(out.len(), 1);
    let text = String::from_utf8(out[0].json.clone()).unwrap();
    assert!(text.contains("\"data\":\"error: data too large for bs58 encoding\""));
}

#[test]
fn test_base58_pair_encoding() {
    let mut rs = RpcSubscriptions::new_for_tests();
    let pk: Vec<u8> = vec![4u8; 32];
    let bank1 = LedgerBank {
        slot: 1,
        accounts: vec![AccountEntry {
            pubkey: pk.clone(),
            account: rpc_subscriptions::ledger::Account {
                lamports: 1,
                data: vec![0u8; 16],
                owner: vec![0u8; 32],
                executable: false,
                rent_epoch: 0,
            },
            modified_slot: 1,
        }],
        program_accounts: Vec::new(),
        logs: Vec::new(),
        signature_statuses: Vec::new(),
        parsed_accounts: Vec::new(),
    };
    let forks = BankForks { banks: vec![bank1] };
    let zero = CommitmentSlots { slot: 0, highest_confirmed_slot: 0, highest_confirmed_root: 0 };
    rs.subscribe(
        SubscriptionParams::Account(AccountSubscriptionParams {
            pubkey: pk,
            commitment: CommitmentLevel::Processed,
            encoding: UiAccountEncoding::Base58,
            data_slice: None,
        }),
        &forks,
        &zero,
    )
    .unwrap();
    let cs = CommitmentSlots { slot: 1, highest_confirmed_slot: 0, highest_confirmed_root: 0 };
    rs.notify_subscribers(cs, &forks);
    let out = rs.drain_notifications();
    let text = String::from_utf8(out[0].json.clone()).unwrap();
    assert!(text.contains("\"data\":[\"1111111111111111\",\"base58\"]"));
}
