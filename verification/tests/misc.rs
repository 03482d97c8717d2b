use confidential_assets::benchmarks::{chrono_lite_timestamp, timestamp_from_elapsed, timestamp_label};
use confidential_assets::contract_calls::{
    AssetQuery, BalanceOfQuery, ClaimInput, ConfidentialTransferInput, DepositInput,
    SetPublicKeyInput, TotalSupplyQuery, WithdrawInput,
};
use confidential_assets::mocks::{AlwaysOkVerifier, NoRamp};
use confidential_assets::primitives::asset_id_bytes_u128;
use confidential_assets::runtime_config::{Runtime, RuntimePallet};
use confidential_assets::testing::{
    assert_commitment_changed, assert_transfer_event_emitted, events_hold_transfer, StressTestMetrics,
};
use parity_scale_codec::Encode;

#[test]
fn timestamp_labels() {
    assert_eq!(timestamp_label(0), "unix:0");
    assert_eq!(timestamp_label(1_700_000_123), "unix:1700000123");
    assert_eq!(timestamp_label(u64::MAX), "unix:18446744073709551615");
    let now = chrono_lite_timestamp();
    assert!(now.starts_with("unix:"));
    assert!(now[5..].parse::<u64>().unwrap() > 1_600_000_000);
}

#[test]
fn timestamp_from_elapsed_seconds() {
    assert_eq!(timestamp_from_elapsed(None), "unix:0");
    assert_eq!(timestamp_from_elapsed(Some(1_700_000_000)), "unix:1700000000");
    assert_eq!(timestamp_from_elapsed(Some(0)), "unix:0");
}

/// One encoded event record holding a `ConfidentialTransfer` of the
/// confidential-assets pallet (index 41) from `from` to `to`.
fn transfer_record(from: [u8; 32], to: [u8; 32]) -> Vec<u8> {
    let mut v = vec![4u8]; // one record
    v.extend_from_slice(&[0, 1, 0, 0, 0]); // phase: ApplyExtrinsic(1)
    v.extend_from_slice(&[41, 3]); // pallet index, event variant
    v.extend_from_slice(&7u128.to_le_bytes()); // asset
    v.extend_from_slice(&from);
    v.extend_from_slice(&to);
    v.extend_from_slice(&[9u8; 64]); // encrypted amount
    v.push(0); // no topics
    v
}

#[test]
fn events_hold_transfer_finds_the_event() {
    let (alice, bob) = ([1u8; 32], [2u8; 32]);
    let events = transfer_record(alice, bob);
    assert!(events_hold_transfer(&events, &alice, &bob));
    assert!(!events_hold_transfer(&events, &bob, &alice));
    assert!(!events_hold_transfer(&events, &alice, &[3u8; 32]));
    // The same accounts under another pallet are no transfer event.
    let mut other = events.clone();
    other[6] = 40;
    assert!(!events_hold_transfer(&other, &alice, &bob));
    // The amount must follow the receiver in full.
    assert!(!events_hold_transfer(&events[..events.len() - 2], &alice, &bob));
    assert!(!events_hold_transfer(&[], &alice, &bob));
}

#[test]
fn asset_id_bytes_are_scale_u128() {
    assert_eq!(asset_id_bytes_u128(0), vec![0u8; 16]);
    assert_eq!(asset_id_bytes_u128(0x0102), 0x0102u128.encode());
}

#[test]
fn call_inputs_encode_as_scale() {
    let t = ConfidentialTransferInput { asset: 5u128, to: [3u8; 32], encrypted_amount: [4u8; 64], input_proof: vec![1; 70] };
    assert_eq!(t.encode(), (5u128, [3u8; 32], [4u8; 64], vec![1u8; 70]).encode());
    let d = DepositInput { asset: 5u128, amount: 1000u128, proof: vec![9] };
    assert_eq!(d.encode(), (5u128, 1000u128, vec![9u8]).encode());
    let w = WithdrawInput { asset: 5u128, encrypted_amount: [4u8; 64], proof: vec![] };
    assert_eq!(w.encode(), (5u128, [4u8; 64], Vec::<u8>::new()).encode());
    let k = SetPublicKeyInput { elgamal_pk: vec![0u8; 32] };
    assert!(!k.encode().is_empty());
    assert_eq!(k.encode(), vec![0u8; 32].encode());
    let c = ClaimInput { asset: 5u128, input_proof: vec![2; 3] };
    assert_eq!(c.encode(), (5u128, vec![2u8; 3]).encode());
    assert_eq!(BalanceOfQuery { asset: 5u128, who: [3u8; 32] }.encode(), (5u128, [3u8; 32]).encode());
    assert_eq!(TotalSupplyQuery { asset: 5u128 }.encode(), 5u128.encode());
    assert_eq!(AssetQuery { asset: 5u128 }.encode(), 5u128.encode());
}

#[test]
fn mocks_answer_fixed_values() {
    assert_eq!(AlwaysOkVerifier::disclose(&[], &[], &[]), Ok(123));
    assert_eq!(AlwaysOkVerifier::verify_transfer_sent(&[], &[], &[], &[], &[], &[], &[]), Ok((vec![1u8; 32], vec![2u8; 32])));
    assert_eq!(AlwaysOkVerifier::verify_transfer_received(&[], &[], &[], &[], &[], &[]), Ok((vec![3u8; 32], vec![0u8; 32])));
    assert_eq!(AlwaysOkVerifier::verify_mint(&[], &[], &[], &[], &[]), Ok((vec![10u8; 32], vec![11u8; 32], [5u8; 64])));
    assert_eq!(AlwaysOkVerifier::verify_burn(&[], &[], &[], &[], &[0u8; 64], &[]), Ok((vec![20u8; 32], vec![21u8; 32], 42)));
    assert_eq!(NoRamp::transfer_from(&1, &2, 7, 100), Ok(()));
    assert_eq!(NoRamp::burn(&1, &7, 100), Ok(()));
    assert_eq!(NoRamp::mint(&1, &7, 100), Ok(()));
}

#[test]
fn runtime_pallet_indices() {
    assert_eq!(Runtime::pallet_index(RuntimePallet::ConfidentialAssets), 41);
    assert_eq!(Runtime::pallet_index(RuntimePallet::Zkhe), 40);
    assert_eq!(Runtime::pallet_at(53), Some(RuntimePallet::BaseFee));
    assert_eq!(Runtime::pallet_at(4), None);
    for i in 0..=255u8 {
        if let Some(p) = Runtime::pallet_at(i) {
            assert_eq!(Runtime::pallet_index(p), i);
        }
    }
}

#[test]
fn test_helpers() {
    assert_commitment_changed(&[1u8; 32], &[2u8; 32]);
    assert_transfer_event_emitted(&transfer_record([1u8; 32], [2u8; 32]), &[1u8; 32], &[2u8; 32]);
    let m = StressTestMetrics::default();
    assert_eq!(m.total_transfers, 0);
    assert!(m.transfers_per_block.is_empty());
}

#[test]
fn types_are_encodable() {
    let input = SetPublicKeyInput { elgamal_pk: vec![0u8; 32] };
    let encoded = input.encode();
    assert!(!encoded.is_empty());
}
