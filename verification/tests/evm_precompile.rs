use confidential_assets::evm_precompile::{
    address_topic, asset_topic, confidential_claim, confidential_transfer, deposit,
    set_public_key, withdraw, PalletCall, SELECTOR_LOG_CONFIDENTIAL_CLAIM,
    SELECTOR_LOG_CONFIDENTIAL_TRANSFER, SELECTOR_LOG_DEPOSIT, SELECTOR_LOG_PUBLIC_KEY_SET,
    SELECTOR_LOG_WITHDRAW, SEL_CONFIDENTIAL_BALANCE_OF, SEL_CONFIDENTIAL_CLAIM,
    SEL_CONFIDENTIAL_TOTAL_SUPPLY, SEL_CONFIDENTIAL_TRANSFER, SEL_DECIMALS, SEL_DEPOSIT, SEL_NAME,
    SEL_SET_PUBLIC_KEY, SEL_SYMBOL, SEL_WITHDRAW,
};
use sp_crypto_hashing::keccak_256;

const ALICE: [u8; 20] = [0xAA; 20];
const BOB: [u8; 20] = [0xBB; 20];

fn compute_selector(sig: &str) -> [u8; 4] {
    let h = keccak_256(sig.as_bytes());
    [h[0], h[1], h[2], h[3]]
}

fn amount_word(v: u128) -> [u8; 32] {
    let mut w = [0u8; 32];
    w[16..].copy_from_slice(&v.to_be_bytes());
    w
}

#[test]
fn selectors_are_correct() {
    for sel in [
        SEL_CONFIDENTIAL_BALANCE_OF,
        SEL_CONFIDENTIAL_TOTAL_SUPPLY,
        SEL_NAME,
        SEL_SYMBOL,
        SEL_DECIMALS,
        SEL_SET_PUBLIC_KEY,
        SEL_DEPOSIT,
        SEL_WITHDRAW,
        SEL_CONFIDENTIAL_TRANSFER,
        SEL_CONFIDENTIAL_CLAIM,
    ] {
        assert_ne!(sel, [0u8; 4]);
    }
}

#[test]
fn selectors_match_solidity_interface() {
    assert_eq!(SEL_CONFIDENTIAL_BALANCE_OF, compute_selector("confidentialBalanceOf(uint128,address)"));
    assert_eq!(SEL_CONFIDENTIAL_TOTAL_SUPPLY, compute_selector("confidentialTotalSupply(uint128)"));
    assert_eq!(SEL_NAME, compute_selector("name(uint128)"));
    assert_eq!(SEL_SYMBOL, compute_selector("symbol(uint128)"));
    assert_eq!(SEL_DECIMALS, compute_selector("decimals(uint128)"));
    assert_eq!(SEL_SET_PUBLIC_KEY, compute_selector("setPublicKey(bytes)"));
    assert_eq!(SEL_DEPOSIT, compute_selector("deposit(uint128,uint256,bytes)"));
    assert_eq!(SEL_WITHDRAW, compute_selector("withdraw(uint128,bytes,bytes)"));
    assert_eq!(SEL_CONFIDENTIAL_TRANSFER, compute_selector("confidentialTransfer(uint128,address,bytes,bytes)"));
    assert_eq!(SEL_CONFIDENTIAL_CLAIM, compute_selector("confidentialClaim(uint128,bytes)"));
}

#[test]
fn log_selectors_are_event_signature_hashes() {
    assert_eq!(SELECTOR_LOG_PUBLIC_KEY_SET, keccak_256(b"PublicKeySet(address,bytes)"));
    assert_eq!(SELECTOR_LOG_DEPOSIT, keccak_256(b"Deposit(uint128,address,uint256)"));
    assert_eq!(SELECTOR_LOG_WITHDRAW, keccak_256(b"Withdraw(uint128,address)"));
    assert_eq!(SELECTOR_LOG_CONFIDENTIAL_TRANSFER, keccak_256(b"ConfidentialTransfer(uint128,address,address)"));
    assert_eq!(SELECTOR_LOG_CONFIDENTIAL_CLAIM, keccak_256(b"ConfidentialClaim(uint128,address)"));
}

#[test]
fn print_selectors_for_solidity_interface() {
    for sig in [
        "confidentialBalanceOf(uint128,address)",
        "confidentialTotalSupply(uint128)",
        "name(uint128)",
        "symbol(uint128)",
        "decimals(uint128)",
        "setPublicKey(bytes)",
        "deposit(uint128,uint256,bytes)",
        "withdraw(uint128,bytes,bytes)",
        "confidentialTransfer(uint128,address,bytes,bytes)",
        "confidentialClaim(uint128,bytes)",
    ] {
        let s = compute_selector(sig);
        println!("/// @custom:selector {:08x}", u32::from_be_bytes(s));
        println!("function {} external;", sig);
    }
}

#[test]
fn test_set_public_key_succeeds() {
    let plan = set_public_key(&ALICE, vec![0xAB; 64]).ok().unwrap();
    match plan.call {
        PalletCall::SetPublicKey { elgamal_pk } => assert_eq!(elgamal_pk, vec![0xAB; 64]),
        _ => panic!("wrong call"),
    }
    assert_eq!(plan.log.topics, vec![SELECTOR_LOG_PUBLIC_KEY_SET, address_topic(&ALICE)]);
    assert_eq!(plan.log.data, vec![0xAB; 64]);
}

#[test]
fn test_set_public_key_rejects_oversized_key() {
    let err = set_public_key(&ALICE, vec![0xAB; 100]).err().unwrap();
    assert_eq!(err.reason, "pubkey: Value is too large for length");
}

#[test]
fn test_deposit_succeeds_with_valid_proof() {
    let plan = deposit(&ALICE, 1, &amount_word(1000), vec![0x01; 100]).ok().unwrap();
    match plan.call {
        PalletCall::Deposit { asset, amount, proof } => {
            assert_eq!((asset, amount), (1, 1000));
            assert_eq!(proof, vec![0x01; 100]);
        }
        _ => panic!("wrong call"),
    }
    assert_eq!(plan.log.topics, vec![SELECTOR_LOG_DEPOSIT, asset_topic(1), address_topic(&ALICE)]);
    assert_eq!(plan.log.data, amount_word(1000).to_vec());
}

#[test]
fn test_deposit_rejects_oversized_proof() {
    let err = deposit(&ALICE, 1, &amount_word(1000), vec![0x01; 9000]).err().unwrap();
    assert_eq!(err.reason, "proof: Value is too large for length");
}

#[test]
fn test_deposit_rejects_amount_above_balance_type() {
    let mut word = [0u8; 32];
    word[15] = 1;
    let err = deposit(&ALICE, 1, &word, vec![]).err().unwrap();
    assert_eq!(err.reason, "amount overflow");
}

#[test]
fn test_withdraw_succeeds_with_valid_inputs() {
    let plan = withdraw(&ALICE, 1, vec![0x02; 64], vec![0x03; 100]).ok().unwrap();
    match plan.call {
        PalletCall::Withdraw { asset, encrypted_amount, proof } => {
            assert_eq!(asset, 1);
            assert_eq!(encrypted_amount, [0x02; 64]);
            assert_eq!(proof.len(), 100);
        }
        _ => panic!("wrong call"),
    }
    assert_eq!(plan.log.topics, vec![SELECTOR_LOG_WITHDRAW, asset_topic(1), address_topic(&ALICE)]);
    assert!(plan.log.data.is_empty());
}

#[test]
fn test_withdraw_rejects_wrong_size_encrypted_amount() {
    let err = withdraw(&ALICE, 1, vec![0x02; 32], vec![0x03; 100]).err().unwrap();
    assert_eq!(err.reason, "encrypted amount must be 64 bytes");
}

#[test]
fn test_confidential_transfer_succeeds() {
    let plan = confidential_transfer(&ALICE, 1, &BOB, vec![0x05; 64], vec![0x06; 100]).ok().unwrap();
    match plan.call {
        PalletCall::ConfidentialTransfer { asset, to, encrypted_amount, .. } => {
            assert_eq!((asset, to, encrypted_amount), (1, BOB, [0x05; 64]));
        }
        _ => panic!("wrong call"),
    }
    assert_eq!(
        plan.log.topics,
        vec![SELECTOR_LOG_CONFIDENTIAL_TRANSFER, asset_topic(1), address_topic(&ALICE), address_topic(&BOB)]
    );
}

#[test]
fn test_confidential_claim_succeeds() {
    let mut claim_proof = Vec::new();
    claim_proof.extend_from_slice(&1u16.to_le_bytes());
    claim_proof.extend_from_slice(&0u64.to_le_bytes());
    claim_proof.extend_from_slice(&[0x07u8; 50]);
    let plan = confidential_claim(&BOB, 1, claim_proof.clone()).ok().unwrap();
    match plan.call {
        PalletCall::ConfidentialClaim { asset, proof } => {
            assert_eq!(asset, 1);
            assert_eq!(proof, claim_proof);
        }
        _ => panic!("wrong call"),
    }
    assert_eq!(plan.log.topics, vec![SELECTOR_LOG_CONFIDENTIAL_CLAIM, asset_topic(1), address_topic(&BOB)]);
}

#[test]
fn topics_are_right_aligned() {
    let t = asset_topic(0x0102);
    assert_eq!(&t[..30], &[0u8; 30]);
    assert_eq!(&t[30..], &[1, 2]);
    let a = address_topic(&BOB);
    assert_eq!(&a[..12], &[0u8; 12]);
    assert_eq!(&a[12..], &BOB);
}
