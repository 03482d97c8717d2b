//! Inputs that PolkaVM contracts SCALE-encode to call the confidential
//! assets pallet, and the queries they read its state with.
use vstd::prelude::*;
use crate::bytes::{le_bytes, push_all};
use crate::primitives::{EncryptedAmount, MAX_PROOF_LEN, MAX_PUB_KEY_LEN};
use crate::scale::{enc_bytes, put_bytes, put_u128};

verus! {

/// Input of `confidential_transfer`.
#[derive(Clone, Debug)]
pub struct ConfidentialTransferInput<AssetId, AccountId> {
    pub asset: AssetId,
    pub to: AccountId,
    pub encrypted_amount: EncryptedAmount,
    pub input_proof: Vec<u8>,
}

/// Input of `deposit`.
#[derive(Clone, Debug)]
pub struct DepositInput<AssetId, Balance> {
    pub asset: AssetId,
    pub amount: Balance,
    pub proof: Vec<u8>,
}

/// Input of `withdraw`.
#[derive(Clone, Debug)]
pub struct WithdrawInput<AssetId> {
    pub asset: AssetId,
    pub encrypted_amount: EncryptedAmount,
    pub proof: Vec<u8>,
}

/// Input of `set_public_key`.
#[derive(Clone, Debug)]
pub struct SetPublicKeyInput {
    pub elgamal_pk: Vec<u8>,
}

/// Input of `confidential_claim`.
#[derive(Clone, Debug)]
pub struct ClaimInput<AssetId> {
    pub asset: AssetId,
    pub input_proof: Vec<u8>,
}

/// Query of an account's confidential balance.
#[derive(Clone, Copy, Debug, PartialEq, Eq)]
pub struct BalanceOfQuery<AssetId, AccountId> {
    pub asset: AssetId,
    pub who: AccountId,
}

/// Query of an asset's confidential total supply.
#[derive(Clone, Copy, Debug, PartialEq, Eq)]
pub struct TotalSupplyQuery<AssetId> {
    pub asset: AssetId,
}

/// Query of an asset's metadata.
#[derive(Clone, Copy, Debug, PartialEq, Eq)]
pub struct AssetQuery<AssetId> {
    pub asset: AssetId,
}

impl ConfidentialTransferInput<u128, [u8; 32]> {
    /// SCALE encoding: asset, receiver, ciphertext, length-prefixed proof.
    pub fn encode(&self) -> (r: Vec<u8>)
        requires
            self.input_proof@.len() <= MAX_PROOF_LEN,
        ensures
            r@ == le_bytes(self.asset as int, 16) + self.to@ + self.encrypted_amount@ + enc_bytes(
                self.input_proof@,
            ),
    {
        let mut out: Vec<u8> = Vec::new();
        put_u128(&mut out, self.asset);
        push_all(&mut out, &self.to);
        push_all(&mut out, &self.encrypted_amount);
        put_bytes(&mut out, self.input_proof.as_slice());
        out
    }
}

impl DepositInput<u128, u128> {
    /// SCALE encoding: asset, amount, length-prefixed proof.
    pub fn encode(&self) -> (r: Vec<u8>)
        requires
            self.proof@.len() <= MAX_PROOF_LEN,
        ensures
            r@ == le_bytes(self.asset as int, 16) + le_bytes(self.amount as int, 16) + enc_bytes(
                self.proof@,
            ),
    {
        let mut out: Vec<u8> = Vec::new();
        put_u128(&mut out, self.asset);
        put_u128(&mut out, self.amount);
        put_bytes(&mut out, self.proof.as_slice());
        out
    }
}

impl WithdrawInput<u128> {
    /// SCALE encoding: asset, ciphertext, length-prefixed proof.
    pub fn encode(&self) -> (r: Vec<u8>)
        requires
            self.proof@.len() <= MAX_PROOF_LEN,
        ensures
            r@ == le_bytes(self.asset as int, 16) + self.encrypted_amount@ + enc_bytes(self.proof@),
    {
        let mut out: Vec<u8> = Vec::new();
        put_u128(&mut out, self.asset);
        push_all(&mut out, &self.encrypted_amount);
        put_bytes(&mut out, self.proof.as_slice());
        out
    }
}

impl SetPublicKeyInput {
    /// SCALE encoding: the length-prefixed key.
    pub fn encode(&self) -> (r: Vec<u8>)
        requires
            self.elgamal_pk@.len() <= MAX_PUB_KEY_LEN,
        ensures
            r@ == enc_bytes(self.elgamal_pk@),
    {
        let mut out: Vec<u8> = Vec::new();
        put_bytes(&mut out, self.elgamal_pk.as_slice());
        out
    }
}

impl ClaimInput<u128> {
    /// SCALE encoding: asset, length-prefixed proof.
    pub fn encode(&self) -> (r: Vec<u8>)
        requires
            self.input_proof@.len() <= MAX_PROOF_LEN,
        ensures
            r@ == le_bytes(self.asset as int, 16) + enc_bytes(self.input_proof@),
    {
        let mut out: Vec<u8> = Vec::new();
        put_u128(&mut out, self.asset);
        put_bytes(&mut out, self.input_proof.as_slice());
        out
    }
}

impl BalanceOfQuery<u128, [u8; 32]> {
    /// SCALE encoding: asset, account.
    pub fn encode(&self) -> (r: Vec<u8>)
        ensures
            r@ == le_bytes(self.asset as int, 16) + self.who@,
    {
        let mut out: Vec<u8> = Vec::new();
        put_u128(&mut out, self.asset);
        push_all(&mut out, &self.who);
        out
    }
}

impl TotalSupplyQuery<u128> {
    /// SCALE encoding: the asset.
    pub fn encode(&self) -> (r: Vec<u8>)
        ensures
            r@ == le_bytes(self.asset as int, 16),
    {
        let mut out: Vec<u8> = Vec::new();
        put_u128(&mut out, self.asset);
        out
    }
}

impl AssetQuery<u128> {
    /// SCALE encoding: the asset.
    pub fn encode(&self) -> (r: Vec<u8>)
        ensures
            r@ == le_bytes(self.asset as int, 16),
    {
        let mut out: Vec<u8> = Vec::new();
        put_u128(&mut out, self.asset);
        out
    }
}

} // verus!
