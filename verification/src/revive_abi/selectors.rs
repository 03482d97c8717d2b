//! Solidity function selectors of the PolkaVM confidential assets precompile.
use vstd::prelude::*;

verus! {

/// `confidentialBalance(uint128,address) -> bytes32`
pub const CONFIDENTIAL_BALANCE: [u8; 4] = [0x4c, 0x5b, 0x3e, 0x9d];

/// `publicKey(address) -> bytes32`
pub const PUBLIC_KEY: [u8; 4] = [0x68, 0x5e, 0x3b, 0x40];

/// `totalSupply(uint128) -> bytes32`
pub const TOTAL_SUPPLY: [u8; 4] = [0x18, 0x16, 0x0d, 0xdd];

/// `setPublicKey(bytes)`
pub const SET_PUBLIC_KEY: [u8; 4] = [0xa9, 0x1d, 0x58, 0xb4];

/// `confidentialTransfer(uint128,address,bytes,bytes)`
pub const CONFIDENTIAL_TRANSFER: [u8; 4] = [0xf4, 0x9a, 0x00, 0x2f];

/// `deposit(uint128,uint256,bytes)`
pub const DEPOSIT: [u8; 4] = [0x94, 0x67, 0x9b, 0xd1];

/// `withdraw(uint128,bytes,bytes)`
pub const WITHDRAW: [u8; 4] = [0xf1, 0xf9, 0x15, 0x3b];

/// `confidentialClaim(uint128,bytes)`
pub const CONFIDENTIAL_CLAIM: [u8; 4] = [0x12, 0xcb, 0x9d, 0x88];

} // verus!
