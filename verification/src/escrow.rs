//! The escrow adapter: custody of encrypted balances in an account derived
//! from the pallet's identifier, moved by the confidential backend.
use vstd::prelude::*;
use crate::primitives::{AccountId, AssetId, BackendFailure, EncryptedAmount};

verus! {

/// `PalletId::into_account_truncating` for 32-byte accounts: `"modl"`, the
/// eight identifier bytes, then zeros.
pub open spec fn pallet_account(id: Seq<u8>) -> Seq<u8> {
    seq![109u8, 111u8, 100u8, 108u8] + id + Seq::new(20, |i: int| 0u8)
}

/// The account derived from a pallet identifier.
pub fn into_account_truncating(id: &[u8; 8]) -> (r: AccountId)
    ensures
        r@ == pallet_account(id@),
{
    let mut out = [0u8; 32];
    out[0] = 109;
    out[1] = 111;
    out[2] = 100;
    out[3] = 108;
    let mut i: usize = 0;
    while i < 8
        invariant
            i <= 8,
            out@.len() == 32,
            out@[0] == 109u8 && out@[1] == 111u8 && out@[2] == 100u8 && out@[3] == 108u8,
            forall|j: int| 0 <= j < i ==> out@[4 + j] == id@[j],
            forall|j: int| 12 <= j < 32 ==> out@[j] == 0u8,
        decreases 8 - i,
    {
        out[4 + i] = id[i];
        i = i + 1;
    }
    assert(out@ =~= pallet_account(id@));
    out
}

/// A move of an encrypted amount that the backend is asked to perform.
#[derive(Clone, Copy, Debug, PartialEq, Eq)]
pub struct EncryptedTransfer {
    pub asset: AssetId,
    pub from: AccountId,
    pub to: AccountId,
    pub encrypted_amount: EncryptedAmount,
}

/// Events of the escrow adapter.
#[derive(Clone, Copy, Debug, PartialEq, Eq)]
pub enum EscrowEvent {
    EscrowLocked { asset: AssetId, from: AccountId, encrypted_amount: EncryptedAmount },
    EscrowReleased { asset: AssetId, to: AccountId, encrypted_amount: EncryptedAmount },
    EscrowRefunded { asset: AssetId, to: AccountId, encrypted_amount: EncryptedAmount },
}

/// Errors of the escrow adapter.
#[derive(Clone, Copy, Debug, PartialEq, Eq)]
pub enum EscrowError {
    BackendError,
}

/// The escrow adapter, configured by its pallet identifier.
pub struct Escrow {
    pub pallet_id: [u8; 8],
}

impl Escrow {
    /// The account that holds escrowed balances.
    pub open spec fn account_spec(&self) -> Seq<u8> {
        pallet_account(self.pallet_id@)
    }

    /// The account that holds escrowed balances.
    pub fn escrow_account(&self) -> (r: AccountId)
        ensures
            r@ == self.account_spec(),
    {
        into_account_truncating(&self.pallet_id)
    }

    /// The backend move that locks `encrypted_amount` of `who` in escrow.
    pub fn lock_transfer(&self, asset: AssetId, who: &AccountId, encrypted_amount: &EncryptedAmount) -> (r: EncryptedTransfer)
        ensures
            r.asset == asset,
            r.from@ == who@,
            r.to@ == self.account_spec(),
            r.encrypted_amount@ == encrypted_amount@,
    {
        EncryptedTransfer {
            asset,
            from: *who,
            to: self.escrow_account(),
            encrypted_amount: *encrypted_amount,
        }
    }

    /// The backend move that pays `encrypted_amount` out of escrow to `to`
    /// (on release and on refund alike).
    pub fn payout_transfer(&self, asset: AssetId, to: &AccountId, encrypted_amount: &EncryptedAmount) -> (r: EncryptedTransfer)
        ensures
            r.asset == asset,
            r.from@ == self.account_spec(),
            r.to@ == to@,
            r.encrypted_amount@ == encrypted_amount@,
    {
        EncryptedTransfer {
            asset,
            from: self.escrow_account(),
            to: *to,
            encrypted_amount: *encrypted_amount,
        }
    }

    /// Locks funds of `who` in escrow, given what the backend answered to
    /// `lock_transfer`: the event carries the ciphertext the backend moved.
    pub fn escrow_lock(&self, asset: AssetId, who: &AccountId, moved: Result<EncryptedAmount, BackendFailure>) -> (r: Result<EscrowEvent, EscrowError>)
        ensures
            match moved {
                Ok(ct) => r matches Ok(EscrowEvent::EscrowLocked { asset: a, from, encrypted_amount })
                    && a == asset && from@ == who@ && encrypted_amount@ == ct@,
                Err(_) => r == Err::<EscrowEvent, EscrowError>(EscrowError::BackendError),
            },
    {
        match moved {
            Ok(ct) => Ok(EscrowEvent::EscrowLocked { asset, from: *who, encrypted_amount: ct }),
            Err(_) => Err(EscrowError::BackendError),
        }
    }

    /// Releases escrowed funds to `to`, given what the backend answered to
    /// `payout_transfer`.
    pub fn escrow_release(&self, asset: AssetId, to: &AccountId, moved: Result<EncryptedAmount, BackendFailure>) -> (r: Result<EscrowEvent, EscrowError>)
        ensures
            match moved {
                Ok(ct) => r matches Ok(EscrowEvent::EscrowReleased { asset: a, to: t, encrypted_amount })
                    && a == asset && t@ == to@ && encrypted_amount@ == ct@,
                Err(_) => r == Err::<EscrowEvent, EscrowError>(EscrowError::BackendError),
            },
    {
        match moved {
            Ok(ct) => Ok(EscrowEvent::EscrowReleased { asset, to: *to, encrypted_amount: ct }),
            Err(_) => Err(EscrowError::BackendError),
        }
    }

    /// Refunds escrowed funds to `to`, given what the backend answered to
    /// `payout_transfer`.
    pub fn escrow_refund(&self, asset: AssetId, to: &AccountId, moved: Result<EncryptedAmount, BackendFailure>) -> (r: Result<EscrowEvent, EscrowError>)
        ensures
            match moved {
                Ok(ct) => r matches Ok(EscrowEvent::EscrowRefunded { asset: a, to: t, encrypted_amount })
                    && a == asset && t@ == to@ && encrypted_amount@ == ct@,
                Err(_) => r == Err::<EscrowEvent, EscrowError>(EscrowError::BackendError),
            },
    {
        match moved {
            Ok(ct) => Ok(EscrowEvent::EscrowRefunded { asset, to: *to, encrypted_amount: ct }),
            Err(_) => Err(EscrowError::BackendError),
        }
    }
}

/// The escrow account is fixed by the pallet identifier, and differs from
/// every account whose first bytes are not `"modl"`, the all-zero account
/// among them.
pub proof fn law_escrow_account_deterministic(e1: Escrow, e2: Escrow, other: Seq<u8>)
    requires
        other.len() == 32,
        other.subrange(0, 4) != seq![109u8, 111u8, 100u8, 108u8],
    ensures
        e1.pallet_id@ == e2.pallet_id@ ==> e1.account_spec() == e2.account_spec(),
        e1.account_spec() != other,
{
    if e1.account_spec() == other {
        assert(e1.account_spec().subrange(0, 4) =~= seq![109u8, 111u8, 100u8, 108u8]);
    }
}

} // verus!
