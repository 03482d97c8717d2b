//! Confidential multi-asset transfers for Polkadot: verified core logic.
//!
//! The modules hold the byte formats, the state machines of the confidential
//! pallets and the decision logic of the precompiles, each with its contract.
use vstd::prelude::*;

pub mod bytes;
pub mod revive_abi;
pub mod evm_precompile;
pub mod runtime_config;
pub mod scale;
pub mod hashing;
pub mod primitives;
pub mod escrow;
pub mod bridge;
pub mod swaps;
pub mod xcm_bridge;
pub mod prover;
pub mod testing;
pub mod contract_calls;
pub mod mocks;
pub mod benchmarks;

verus! {

} // verus!
