use confidential_assets::bridge::{Bridge, BridgeConfig, BridgeError, BridgeEvent};
use confidential_assets::escrow::{into_account_truncating, Escrow, EscrowError, EscrowEvent};
use confidential_assets::primitives::{BackendFailure, BridgePacket, Origin};
use parity_scale_codec::Encode;

const ALICE: [u8; 32] = [1u8; 32];
const BOB: [u8; 32] = [2u8; 32];
const ASSET: u128 = 7;

/// A backend error, as the confidential-assets pallet raises it.
const FAILURE: BackendFailure = BackendFailure { index: 40, error: [3, 0, 0, 0] };

fn ct(b: u8) -> [u8; 64] {
    [b; 64]
}

fn config() -> BridgeConfig {
    BridgeConfig { self_para_id: 1, default_timeout: 10, burn_pallet_id: *b"CaBridge" }
}

/// A bridge with transfer 0 sent by ALICE at block 1.
fn with_pending(amount: [u8; 64]) -> Bridge {
    let mut b = Bridge::new(config());
    b.send_confidential(Origin::Signed(ALICE), 1, 2, BOB, ASSET, amount, true, true).unwrap();
    b
}

#[test]
fn send_confidential_initiates_and_records_pending() {
    let mut b = Bridge::new(config());
    let (id, payload) = b.send_plan(Origin::Signed(ALICE), 2, BOB, ASSET, ct(9), vec![4, 5, 6]).unwrap();
    assert_eq!(id, 0);
    assert_eq!(payload, (0u64, BOB, ASSET, ct(9), vec![4u8, 5, 6]).encode());
    let ev = b.send_confidential(Origin::Signed(ALICE), 1, 2, BOB, ASSET, ct(9), true, true).unwrap();
    assert_eq!(ev, BridgeEvent::OutboundTransferInitiated { id: 0, from: ALICE, dest_para: 2, asset: ASSET });
    let rec = b.pending(0).expect("pending exists");
    assert_eq!(rec.from, ALICE);
    assert_eq!(rec.dest_para, 2);
    assert_eq!(rec.dest_account, BOB);
    assert_eq!(rec.asset, ASSET);
    assert_eq!(rec.encrypted_amount, ct(9));
    assert_eq!(rec.deadline, 11);
    assert!(!rec.completed);
    assert_eq!(b.next_transfer_id(), 1);
}

#[test]
fn send_confidential_rejects_self_bridge() {
    let mut b = Bridge::new(config());
    let err = b.send_confidential(Origin::Signed(ALICE), 1, 1, BOB, ASSET, ct(1), true, true).unwrap_err();
    assert_eq!(err, BridgeError::NoSelfBridge);
    assert_eq!(b.send_plan(Origin::Signed(ALICE), 1, BOB, ASSET, ct(1), vec![]).unwrap_err(), BridgeError::NoSelfBridge);
    assert_eq!(b.next_transfer_id(), 0);
}

#[test]
fn send_confidential_reports_messenger_and_escrow_failures() {
    let mut b = Bridge::new(config());
    assert_eq!(
        b.send_confidential(Origin::Signed(ALICE), 1, 2, BOB, ASSET, ct(1), false, true).unwrap_err(),
        BridgeError::MessengerFailed
    );
    assert_eq!(
        b.send_confidential(Origin::Signed(ALICE), 1, 2, BOB, ASSET, ct(1), true, false).unwrap_err(),
        BridgeError::BackendError
    );
    assert_eq!(
        b.send_confidential(Origin::Signed(ALICE), 1, 2, BOB, ASSET, ct(1), false, false).unwrap_err(),
        BridgeError::BackendError
    );
    assert_eq!(
        b.send_confidential(Origin::Root, 1, 2, BOB, ASSET, ct(1), true, true).unwrap_err(),
        BridgeError::BadOrigin
    );
    assert_eq!(b.next_transfer_id(), 0);
    assert!(b.pending(0).is_none());
}

#[test]
fn send_ids_increase() {
    let mut b = with_pending(ct(1));
    let ev = b.send_confidential(Origin::Signed(BOB), 3, 2, ALICE, ASSET, ct(2), true, true).unwrap();
    assert_eq!(ev, BridgeEvent::OutboundTransferInitiated { id: 1, from: BOB, dest_para: 2, asset: ASSET });
    assert!(b.pending(0).is_some());
    assert_eq!(b.pending(1).unwrap().deadline, 13);
}

#[test]
fn confirm_success_releases_to_burn_and_burns_then_clears_pending() {
    let mut b = with_pending(ct(7));
    let (rec, burn) = b.confirm_plan(Origin::Root, 0).unwrap();
    assert_eq!(rec.encrypted_amount, ct(7));
    assert_eq!(burn, b.burn_account());
    let ev = b.confirm_success(Origin::Root, 0, true, true).unwrap();
    assert_eq!(ev, BridgeEvent::OutboundTransferConfirmed { id: 0, asset: ASSET });
    assert!(b.pending(0).is_none());
}

#[test]
fn confirm_success_errors_when_not_found() {
    let mut b = Bridge::new(config());
    let err = b.confirm_success(Origin::Root, 99, true, true).unwrap_err();
    assert_eq!(err, BridgeError::NotFound);
}

#[test]
fn confirm_success_failures_keep_pending() {
    let mut b = with_pending(ct(7));
    assert_eq!(b.confirm_success(Origin::Signed(ALICE), 0, true, true).unwrap_err(), BridgeError::BadOrigin);
    assert_eq!(b.confirm_success(Origin::Root, 0, false, true).unwrap_err(), BridgeError::AlreadyCompleted);
    assert_eq!(b.confirm_success(Origin::Root, 0, true, false).unwrap_err(), BridgeError::NotFound);
    assert!(b.pending(0).is_some());
    b.confirm_success(Origin::Root, 0, true, true).unwrap();
    assert_eq!(b.confirm_success(Origin::Root, 0, true, true).unwrap_err(), BridgeError::NotFound);
    assert_eq!(b.cancel_and_refund(Origin::Root, 50, 0, true).unwrap_err(), BridgeError::NotFound);
}

#[test]
fn cancel_and_refund_by_sender_after_deadline() {
    let mut b = with_pending(ct(44));
    assert_eq!(b.pending(0).unwrap().deadline, 11);
    let rec = b.cancel_plan(Origin::Signed(ALICE), 12, 0).unwrap();
    assert_eq!(rec.from, ALICE);
    let ev = b.cancel_and_refund(Origin::Signed(ALICE), 12, 0, true).unwrap();
    assert_eq!(ev, BridgeEvent::OutboundTransferRefunded { id: 0, asset: ASSET });
    assert!(b.pending(0).is_none());
}

#[test]
fn cancel_and_refund_by_root_before_deadline() {
    let mut b = with_pending(ct(10));
    let ev = b.cancel_and_refund(Origin::Root, 1, 0, true).unwrap();
    assert_eq!(ev, BridgeEvent::OutboundTransferRefunded { id: 0, asset: ASSET });
    assert!(b.pending(0).is_none());
}

#[test]
fn cancel_and_refund_errors_when_not_sender_or_not_expired() {
    let mut b = with_pending(ct(3));
    let err = b.cancel_and_refund(Origin::Signed(BOB), 1, 0, true).unwrap_err();
    assert_eq!(err, BridgeError::NotSender);
    let err = b.cancel_and_refund(Origin::Signed(ALICE), 1, 0, true).unwrap_err();
    assert_eq!(err, BridgeError::NotExpired);
    let err = b.cancel_and_refund(Origin::Signed(ALICE), 10, 0, true).unwrap_err();
    assert_eq!(err, BridgeError::NotExpired);
    assert_eq!(b.cancel_and_refund(Origin::Other, 20, 0, true).unwrap_err(), BridgeError::BadOrigin);
    assert_eq!(b.cancel_and_refund(Origin::Signed(ALICE), 11, 0, false).unwrap_err(), BridgeError::BackendError);
    assert!(b.pending(0).is_some());
    assert!(b.cancel_and_refund(Origin::Signed(ALICE), 11, 0, true).is_ok());
}

#[test]
fn receive_confidential_mints_on_incoming_packet() {
    let b = Bridge::new(config());
    let payload = (0u64, BOB, ASSET, ct(55), vec![1u8, 2, 3]).encode();
    let packet = b.receive_plan(Origin::Root, &payload).unwrap();
    assert_eq!(packet.dest_account, BOB);
    assert_eq!(packet.accept_envelope, vec![1, 2, 3]);
    let ev = b.receive_confidential(Origin::Root, &payload, Ok([5u8; 64])).unwrap();
    assert_eq!(ev, BridgeEvent::InboundTransferExecuted { id: 0, asset: ASSET, minted: [5u8; 64] });
    assert_eq!(
        b.receive_confidential(Origin::Root, &payload, Err(FAILURE)).unwrap_err(),
        BridgeError::Backend(FAILURE)
    );
    assert_eq!(
        b.receive_confidential(Origin::Signed(ALICE), &payload, Ok([5u8; 64])).unwrap_err(),
        BridgeError::BadOrigin
    );
    assert_eq!(
        b.receive_confidential(Origin::Root, &payload[..100], Ok([5u8; 64])).unwrap_err(),
        BridgeError::BackendError
    );
}

#[test]
fn packet_roundtrip_and_codec_agreement() {
    let p = BridgePacket {
        transfer_id: 0x0102_0304_0506_0708,
        dest_account: BOB,
        asset: u128::MAX - 5,
        encrypted_amount: ct(9),
        accept_envelope: (0..200u32).map(|i| i as u8).collect(),
    };
    let bytes = p.encode();
    assert_eq!(
        bytes,
        (p.transfer_id, p.dest_account, p.asset, p.encrypted_amount, p.accept_envelope.clone()).encode()
    );
    // 200 bytes take a two-byte compact length prefix: (200 << 2) | 1.
    assert_eq!(&bytes[120..122], &[0x21, 0x03]);
    let mut longer = bytes.clone();
    longer.extend_from_slice(&[9, 9, 9]);
    let q = BridgePacket::decode(&longer).unwrap();
    assert_eq!(q.transfer_id, p.transfer_id);
    assert_eq!(q.dest_account, p.dest_account);
    assert_eq!(q.asset, p.asset);
    assert_eq!(q.encrypted_amount, p.encrypted_amount);
    assert_eq!(q.accept_envelope, p.accept_envelope);
    assert!(BridgePacket::decode(&bytes[..bytes.len() - 1]).is_none());
}

#[test]
fn packet_decode_rejects_oversized_envelope() {
    let bytes = (1u64, BOB, ASSET, ct(1), vec![0u8; 8193]).encode();
    assert!(BridgePacket::decode(&bytes).is_none());
    let bytes = (1u64, BOB, ASSET, ct(1), vec![0u8; 8192]).encode();
    assert_eq!(BridgePacket::decode(&bytes).unwrap().accept_envelope.len(), 8192);
}

#[test]
fn packet_decode_rejects_non_canonical_length() {
    // Length 3 written in the two-byte form is not canonical.
    let mut bytes = (1u64, BOB, ASSET, ct(1)).encode();
    bytes.extend_from_slice(&[(3 << 2) | 1, 0, 1, 2, 3]);
    assert!(BridgePacket::decode(&bytes).is_none());
}

#[test]
fn burn_account_is_derived_from_pallet_id() {
    let b = Bridge::new(config());
    let acc = b.burn_account();
    assert_eq!(&acc[0..4], b"modl");
    assert_eq!(&acc[4..12], b"CaBridge");
    assert_eq!(&acc[12..], &[0u8; 20]);
}

#[test]
fn escrow_account_is_deterministic_and_nonzero() {
    let e = Escrow { pallet_id: *b"CaEscrow" };
    let acc = e.escrow_account();
    assert_ne!(acc, [0u8; 32]);
    assert_ne!(acc, ALICE);
    assert_ne!(acc, BOB);
    assert_eq!(acc, e.escrow_account());
    assert_eq!(acc, into_account_truncating(b"CaEscrow"));
    let mut expected = [0u8; 32];
    expected[..4].copy_from_slice(b"modl");
    expected[4..12].copy_from_slice(b"CaEscrow");
    assert_eq!(acc, expected);
}

#[test]
fn escrow_lock_moves_funds_to_escrow_and_emits_event() {
    let e = Escrow { pallet_id: *b"CaEscrow" };
    let t = e.lock_transfer(ASSET, &ALICE, &ct(11));
    assert_eq!(t.from, ALICE);
    assert_eq!(t.to, e.escrow_account());
    assert_eq!(t.encrypted_amount, ct(11));
    assert_eq!(
        e.escrow_lock(ASSET, &ALICE, Ok(ct(11))).unwrap(),
        EscrowEvent::EscrowLocked { asset: ASSET, from: ALICE, encrypted_amount: ct(11) }
    );
}

#[test]
fn escrow_release_moves_funds_from_escrow_to_beneficiary_and_emits_event() {
    let e = Escrow { pallet_id: *b"CaEscrow" };
    let p = e.payout_transfer(ASSET, &BOB, &ct(22));
    assert_eq!(p.from, e.escrow_account());
    assert_eq!(p.to, BOB);
    assert_eq!(p.encrypted_amount, ct(22));
    assert_eq!(
        e.escrow_release(ASSET, &BOB, Ok(ct(22))).unwrap(),
        EscrowEvent::EscrowReleased { asset: ASSET, to: BOB, encrypted_amount: ct(22) }
    );
}

#[test]
fn escrow_refund_moves_funds_from_escrow_back_to_owner_and_emits_event() {
    let e = Escrow { pallet_id: *b"CaEscrow" };
    let p = e.payout_transfer(ASSET, &ALICE, &ct(33));
    assert_eq!(p.from, e.escrow_account());
    assert_eq!(p.to, ALICE);
    assert_eq!(p.encrypted_amount, ct(33));
    assert_eq!(
        e.escrow_refund(ASSET, &ALICE, Ok(ct(33))).unwrap(),
        EscrowEvent::EscrowRefunded { asset: ASSET, to: ALICE, encrypted_amount: ct(33) }
    );
}

#[test]
fn escrow_lock_fails_with_backend_error_when_missing_public_key() {
    let e = Escrow { pallet_id: *b"CaEscrow" };
    assert_eq!(e.escrow_lock(ASSET, &ALICE, Err(FAILURE)).unwrap_err(), EscrowError::BackendError);
    assert_eq!(e.escrow_release(ASSET, &ALICE, Err(FAILURE)).unwrap_err(), EscrowError::BackendError);
    assert_eq!(e.escrow_refund(ASSET, &ALICE, Err(FAILURE)).unwrap_err(), EscrowError::BackendError);
}
