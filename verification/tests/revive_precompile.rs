use confidential_assets::revive_abi::selectors::{
    CONFIDENTIAL_BALANCE, CONFIDENTIAL_CLAIM, CONFIDENTIAL_TRANSFER, DEPOSIT, PUBLIC_KEY,
    SET_PUBLIC_KEY, TOTAL_SUPPLY, WITHDRAW,
};
use confidential_assets::revive_abi::{
    call, decode_dynamic_bytes, decode_u128, decode_u256_as_usize, PrecompileError, ReviveCall,
    PRECOMPILE_ADDRESS,
};
use core::num::NonZero;

/// ABI encoding of a `uint128` (right-aligned in a 32-byte word).
fn abi_encode_u128(value: u128) -> [u8; 32] {
    let mut result = [0u8; 32];
    result[16..].copy_from_slice(&value.to_be_bytes());
    result
}

/// ABI encoding of a 32-byte account.
fn abi_encode_address(account: [u8; 32]) -> [u8; 32] {
    account
}

#[test]
fn test_decode_u128_valid() {
    let mut data = [0u8; 32];
    data[16..].copy_from_slice(&u128::MAX.to_be_bytes());
    let result = decode_u128(&data).unwrap();
    assert_eq!(result, u128::MAX);
}

#[test]
fn test_decode_u128_zero() {
    let data = [0u8; 32];
    let result = decode_u128(&data).unwrap();
    assert_eq!(result, 0);
}

#[test]
fn test_decode_u128_specific_value() {
    let value: u128 = 1000;
    let mut data = [0u8; 32];
    data[16..].copy_from_slice(&value.to_be_bytes());
    let result = decode_u128(&data).unwrap();
    assert_eq!(result, 1000);
}

#[test]
fn test_decode_u128_too_short() {
    let data = [0u8; 16];
    let result = decode_u128(&data);
    assert!(result.is_err());
}

#[test]
fn test_decode_u256_as_usize_valid() {
    let mut data = [0u8; 32];
    data[31] = 64;
    let result = decode_u256_as_usize(&data).unwrap();
    assert_eq!(result, 64);
}

#[test]
fn test_decode_u256_as_usize_zero() {
    let data = [0u8; 32];
    let result = decode_u256_as_usize(&data).unwrap();
    assert_eq!(result, 0);
}

#[test]
fn test_decode_u256_as_usize_large_but_fits() {
    let value: u64 = 1024;
    let mut data = [0u8; 32];
    data[24..].copy_from_slice(&value.to_be_bytes());
    let result = decode_u256_as_usize(&data).unwrap();
    assert_eq!(result, 1024);
}

#[test]
fn test_decode_dynamic_bytes_valid() {
    let mut input = Vec::new();
    let offset: u64 = 32;
    let mut offset_bytes = [0u8; 32];
    offset_bytes[24..].copy_from_slice(&offset.to_be_bytes());
    input.extend_from_slice(&offset_bytes);
    let length: u64 = 5;
    let mut length_bytes = [0u8; 32];
    length_bytes[24..].copy_from_slice(&length.to_be_bytes());
    input.extend_from_slice(&length_bytes);
    input.extend_from_slice(b"hello");
    input.extend_from_slice(&[0u8; 27]);
    let result = decode_dynamic_bytes(&input, 32).unwrap();
    assert_eq!(result, b"hello".to_vec());
}

#[test]
fn test_decode_dynamic_bytes_empty() {
    let mut input = Vec::new();
    let offset: u64 = 32;
    let mut offset_bytes = [0u8; 32];
    offset_bytes[24..].copy_from_slice(&offset.to_be_bytes());
    input.extend_from_slice(&offset_bytes);
    let length_bytes = [0u8; 32];
    input.extend_from_slice(&length_bytes);
    let result = decode_dynamic_bytes(&input, 32).unwrap();
    assert_eq!(result, Vec::<u8>::new());
}

#[test]
fn test_decode_dynamic_bytes_invalid_offset() {
    let input = [0u8; 32];
    let result = decode_dynamic_bytes(&input, 64);
    assert!(result.is_err());
}

#[test]
fn test_decode_dynamic_bytes_length_overflow() {
    let mut input = Vec::new();
    let offset: u64 = 32;
    let mut offset_bytes = [0u8; 32];
    offset_bytes[24..].copy_from_slice(&offset.to_be_bytes());
    input.extend_from_slice(&offset_bytes);
    let length: u64 = 1000;
    let mut length_bytes = [0u8; 32];
    length_bytes[24..].copy_from_slice(&length.to_be_bytes());
    input.extend_from_slice(&length_bytes);
    input.extend_from_slice(&[0u8; 10]);
    let result = decode_dynamic_bytes(&input, 32);
    assert!(result.is_err());
}

#[test]
fn test_selector_uniqueness() {
    let all_selectors = [
        SET_PUBLIC_KEY,
        CONFIDENTIAL_TRANSFER,
        CONFIDENTIAL_BALANCE,
        DEPOSIT,
        WITHDRAW,
        CONFIDENTIAL_CLAIM,
        PUBLIC_KEY,
        TOTAL_SUPPLY,
    ];
    for (i, sel1) in all_selectors.iter().enumerate() {
        for (j, sel2) in all_selectors.iter().enumerate() {
            if i != j {
                assert_ne!(sel1, sel2, "Selectors at {} and {} are identical", i, j);
            }
        }
    }
}

#[test]
fn test_selector_non_zero() {
    let all_selectors = [
        SET_PUBLIC_KEY,
        CONFIDENTIAL_TRANSFER,
        CONFIDENTIAL_BALANCE,
        DEPOSIT,
        WITHDRAW,
        CONFIDENTIAL_CLAIM,
        PUBLIC_KEY,
        TOTAL_SUPPLY,
    ];
    for selector in all_selectors.iter() {
        assert_ne!(selector, &[0u8; 4], "Selector should not be zero");
    }
}

#[test]
fn test_abi_encode_u128_roundtrip() {
    let values = [0u128, 1, 100, 1000, u128::MAX / 2, u128::MAX];
    for value in values {
        let encoded = abi_encode_u128(value);
        let decoded = decode_u128(&encoded).unwrap();
        assert_eq!(decoded, value);
    }
}

#[test]
fn test_confidential_balance_input_format() {
    let asset_id: u128 = 42;
    let account: [u8; 32] = [1u8; 32];
    let mut input = Vec::new();
    input.extend_from_slice(&abi_encode_u128(asset_id));
    input.extend_from_slice(&abi_encode_address(account));
    assert_eq!(input.len(), 64);
    let decoded_asset = decode_u128(&input[0..32]).unwrap();
    assert_eq!(decoded_asset, 42);
    let decoded_account: [u8; 32] = input[32..64].try_into().unwrap();
    assert_eq!(decoded_account, account);
}

#[test]
fn test_set_public_key_input_format() {
    let public_key: [u8; 32] = [0xAB; 32];
    let input = public_key;
    assert_eq!(input.len(), 32);
    assert_eq!(input, public_key);
}

#[test]
fn test_precompile_address() {
    assert_eq!(PRECOMPILE_ADDRESS, 0x0C01);
}

#[test]
fn test_precompile_address_is_nonzero() {
    let addr = NonZero::new(PRECOMPILE_ADDRESS);
    assert!(addr.is_some());
    assert_eq!(addr.unwrap().get(), 0x0C01);
}

#[test]
fn test_precompile_address_bytes() {
    let addr_bytes = PRECOMPILE_ADDRESS.to_be_bytes();
    assert_eq!(addr_bytes, [0x0C, 0x01]);
}

#[test]
fn test_empty_input_returns_error() {
    let empty_input: &[u8] = &[];
    assert!(decode_u128(empty_input).is_err());
    assert!(decode_u256_as_usize(empty_input).is_err());
}

#[test]
fn test_short_input_returns_error() {
    let short_input = [0u8; 10];
    assert!(decode_u128(&short_input).is_err());
    assert!(decode_u256_as_usize(&short_input).is_err());
}

#[test]
fn test_cross_chain_requires_zombienet_feature() {
    println!("Cross-chain tests require the 'zombienet' feature flag");
    println!("Run with: cargo test -p integration-tests --features zombienet");
}

fn reverted_with(r: Result<Vec<u8>, PrecompileError>) -> Option<String> {
    match r {
        Err(PrecompileError::Revert { reason }) => Some(reason),
        Ok(_) => None,
    }
}

#[test]
fn view_calls_return_the_bytes32_word() {
    let stored = vec![7u8; 32];
    let balance = call(
        &ReviveCall::ConfidentialBalance { asset_id: 1, account: [2u8; 32] },
        Some(stored.clone()),
    );
    assert_eq!(balance.ok(), Some(stored.clone()));
    let supply = call(&ReviveCall::TotalSupply { asset_id: 1 }, Some(stored.clone()));
    assert_eq!(supply.ok().map(|v| v.len()), Some(32));
    let key = call(&ReviveCall::PublicKey { account: [3u8; 32] }, Some(stored.clone()));
    assert_eq!(key.ok(), Some(stored));
}

#[test]
fn public_key_query_without_key_returns_zero_word() {
    let r = call(&ReviveCall::PublicKey { account: [3u8; 32] }, None);
    assert_eq!(r.ok(), Some(vec![0u8; 32]));
}

#[test]
fn view_calls_revert_on_wrong_lengths() {
    let short = vec![1u8; 31];
    assert_eq!(
        reverted_with(call(&ReviveCall::TotalSupply { asset_id: 9 }, Some(short.clone()))),
        Some("Invalid commitment length".to_string())
    );
    assert_eq!(
        reverted_with(call(&ReviveCall::TotalSupply { asset_id: 9 }, None)),
        Some("Invalid commitment length".to_string())
    );
    assert_eq!(
        reverted_with(call(&ReviveCall::PublicKey { account: [0u8; 32] }, Some(short))),
        Some("Invalid key length".to_string())
    );
}
