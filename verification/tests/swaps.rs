use confidential_assets::swaps::{taker_leg_hash, SwapError, SwapEvent, Swaps};

const MAKER: [u8; 32] = [1u8; 32];
const TAKER: [u8; 32] = [2u8; 32];
const OTHER: [u8; 32] = [3u8; 32];

const LEG_HASH: [u8; 32] = [
    142, 170, 73, 252, 216, 252, 35, 14, 152, 101, 238, 181, 135, 44, 41, 222, 138, 140, 1, 45,
    166, 40, 85, 238, 102, 170, 188, 40, 233, 142, 216, 6,
];

#[test]
fn taker_leg_hash_is_blake2_of_asset_and_ciphertext() {
    assert_eq!(taker_leg_hash(9, &[3u8; 64]), LEG_HASH);
    assert_ne!(taker_leg_hash(8, &[3u8; 64]), LEG_HASH);
}

#[test]
fn open_assigns_increasing_ids() {
    let mut s = Swaps::new();
    let e0 = s.open_swap_cc(Some(MAKER), TAKER, 1, 9, [7u8; 64], vec![1, 2], None).unwrap();
    assert_eq!(e0, SwapEvent::CcOpened { id: 0, proposer: MAKER, counterparty: TAKER, asset_a: 1, asset_b: 9 });
    let (id1, _) = s.open_intent_cc(&MAKER, &OTHER, 1, 9, [7u8; 64], vec![], Some(LEG_HASH));
    assert_eq!(id1, 1);
    assert_eq!(s.next_cc_id(), 2);
    assert!(s.is_open(0) && s.is_open(1));
    assert_eq!(s.intent_terms(1), Some((MAKER, OTHER, 1, 9, [7u8; 64])));
    assert_eq!(s.open_swap_cc(None, TAKER, 1, 9, [7u8; 64], vec![], None).unwrap_err(), SwapError::BadOrigin);
}

#[test]
fn accept_executes_both_legs_and_consumes_intent() {
    let mut s = Swaps::new();
    s.open_swap_cc(Some(MAKER), TAKER, 1, 9, [7u8; 64], vec![1, 2], None).unwrap();
    let ((t1, p1), (t2, p2)) = s.accept_plan(&TAKER, 0, &[3u8; 64], &vec![5], &LEG_HASH).unwrap();
    assert_eq!((t1.asset, t1.from, t1.to, t1.encrypted_amount), (1, MAKER, TAKER, [7u8; 64]));
    assert_eq!(p1, vec![1, 2]);
    assert_eq!((t2.asset, t2.from, t2.to, t2.encrypted_amount), (9, TAKER, MAKER, [3u8; 64]));
    assert_eq!(p2, vec![5]);
    let ev = s.accept_swap_cc(Some(TAKER), 0, &[3u8; 64], true, true).unwrap();
    assert_eq!(ev, SwapEvent::CcExecuted { id: 0, proposer: MAKER, counterparty: TAKER });
    assert!(!s.is_open(0));
    assert_eq!(s.accept_swap_cc(Some(TAKER), 0, &[3u8; 64], true, true).unwrap_err(), SwapError::UnknownSwap);
}

#[test]
fn accept_failures_change_nothing() {
    let mut s = Swaps::new();
    s.open_swap_cc(Some(MAKER), TAKER, 1, 9, [7u8; 64], vec![], None).unwrap();
    assert_eq!(s.accept_swap_cc(Some(OTHER), 0, &[3u8; 64], true, true).unwrap_err(), SwapError::NotCounterparty);
    assert_eq!(s.accept_swap_cc(Some(TAKER), 0, &[3u8; 64], false, true).unwrap_err(), SwapError::BackendError);
    assert_eq!(s.accept_swap_cc(Some(TAKER), 0, &[3u8; 64], true, false).unwrap_err(), SwapError::BackendError);
    assert_eq!(s.accept_swap_cc(None, 0, &[3u8; 64], true, true).unwrap_err(), SwapError::BadOrigin);
    assert!(s.is_open(0));
}

#[test]
fn terms_hash_binds_taker_leg() {
    let mut s = Swaps::new();
    s.open_intent_cc(&MAKER, &TAKER, 1, 9, [7u8; 64], vec![], Some(LEG_HASH));
    assert_eq!(s.execute_intent_cc(&TAKER, 0, &[4u8; 64], true, true).unwrap_err(), SwapError::TermsMismatch);
    assert!(s.is_open(0));
    let (id, got, ev) = s.execute_intent_cc(&TAKER, 0, &[3u8; 64], true, true).unwrap();
    assert_eq!((id, got), (0, [7u8; 64]));
    assert_eq!(ev, SwapEvent::CcExecuted { id: 0, proposer: MAKER, counterparty: TAKER });
}

#[test]
fn execute_with_hash_checks_the_given_digest() {
    let mut s = Swaps::new();
    s.open_intent_cc(&MAKER, &TAKER, 1, 9, [7u8; 64], vec![], Some([6u8; 32]));
    assert_eq!(s.execute_with_hash(&TAKER, 0, &[5u8; 32], true, true).unwrap_err(), SwapError::TermsMismatch);
    let (ev, got) = s.execute_with_hash(&TAKER, 0, &[6u8; 32], true, true).unwrap();
    assert_eq!(ev, SwapEvent::CcExecuted { id: 0, proposer: MAKER, counterparty: TAKER });
    assert_eq!(got, [7u8; 64]);
}

#[test]
fn zero_terms_hash_binds_nothing() {
    let mut s = Swaps::new();
    s.open_intent_cc(&MAKER, &TAKER, 1, 9, [7u8; 64], vec![], Some([0u8; 32]));
    assert!(s.execute_with_hash(&TAKER, 0, &[5u8; 32], true, true).is_ok());
}

#[test]
fn cancel_only_by_proposer() {
    let mut s = Swaps::new();
    s.open_swap_cc(Some(MAKER), TAKER, 1, 9, [7u8; 64], vec![], None).unwrap();
    assert_eq!(s.cancel_swap_cc(Some(TAKER), 0).unwrap_err(), SwapError::NotProposer);
    assert!(s.is_open(0));
    assert_eq!(s.cancel_swap_cc(Some(MAKER), 0).unwrap(), SwapEvent::CcCanceled { id: 0, proposer: MAKER });
    assert!(!s.is_open(0));
    assert_eq!(s.cancel_swap_cc(Some(MAKER), 0).unwrap_err(), SwapError::UnknownSwap);
}

#[test]
fn cancel_intent_only_by_proposer() {
    let mut s = Swaps::new();
    s.open_intent_cc(&MAKER, &TAKER, 1, 9, [7u8; 64], vec![], None);
    assert_eq!(s.cancel_intent_cc(&TAKER, 0).unwrap_err(), SwapError::NotProposer);
    assert!(s.is_open(0));
    assert!(s.cancel_intent_cc(&MAKER, 0).is_ok());
    assert!(!s.is_open(0));
    assert_eq!(s.cancel_intent_cc(&MAKER, 0).unwrap_err(), SwapError::UnknownSwap);
}
