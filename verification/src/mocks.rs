//! Stand-ins for the zero-knowledge verifier and the public ramp, for tests
//! of the pallets' state transitions: the verifier accepts everything and
//! answers fixed commitments, the ramp moves nothing and always succeeds.
use vstd::prelude::*;
use crate::primitives::{EncryptedAmount, MAX_PROOF_LEN};
use crate::bytes::{le_bytes, le_bytes_vec, push_all};
use crate::prover::len16;

verus! {

/// `n` copies of `b`.
pub open spec fn filled(b: u8, n: nat) -> Seq<u8> {
    Seq::new(n, |i: int| b)
}

/// A vector of `n` copies of `b`.
fn filled_vec(b: u8, n: usize) -> (r: Vec<u8>)
    ensures
        r@ == filled(b, n as nat),
{
    let mut out: Vec<u8> = Vec::new();
    let mut i: usize = 0;
    while i < n
        invariant
            i <= n,
            out@ =~= filled(b, i as nat),
        decreases n - i,
    {
        out.push(b);
        i = i + 1;
    }
    out
}

/// A verifier that accepts every proof.
#[derive(Default)]
pub struct AlwaysOkVerifier;

impl AlwaysOkVerifier {
    /// Discloses every ciphertext as 123.
    pub fn disclose(asset: &[u8], pk: &[u8], cipher: &[u8]) -> (r: Result<u64, ()>)
        ensures
            r == Ok::<u64, ()>(123),
    {
        Ok(123)
    }

    /// Sender phase: new available commitment all 1s, new pending all 2s.
    pub fn verify_transfer_sent(
        asset: &[u8],
        from_pk: &[u8],
        to_pk: &[u8],
        from_old_avail: &[u8],
        to_old_pending: &[u8],
        delta_ct: &[u8],
        proof: &[u8],
    ) -> (r: Result<(Vec<u8>, Vec<u8>), ()>)
        ensures
            r matches Ok((a, p)) && a@ == filled(1, 32) && p@ == filled(2, 32),
    {
        Ok((filled_vec(1, 32), filled_vec(2, 32)))
    }

    /// Receiver phase: new available commitment all 3s, new pending all
    /// zeros (so the pending commitment is cleared).
    pub fn verify_transfer_received(
        asset: &[u8],
        who_pk: &[u8],
        avail_old: &[u8],
        pending_old: &[u8],
        commits: &[[u8; 32]],
        envelope: &[u8],
    ) -> (r: Result<(Vec<u8>, Vec<u8>), ()>)
        ensures
            r matches Ok((a, p)) && a@ == filled(3, 32) && p@ == filled(0, 32),
    {
        Ok((filled_vec(3, 32), filled_vec(0, 32)))
    }

    /// Mint: new pending all 10s, new total all 11s, minted ciphertext all 5s.
    pub fn verify_mint(
        asset: &[u8],
        to_pk: &[u8],
        to_old_pending: &[u8],
        total_old: &[u8],
        proof: &[u8],
    ) -> (r: Result<(Vec<u8>, Vec<u8>, EncryptedAmount), ()>)
        ensures
            r matches Ok((p, t, ct)) && p@ == filled(10, 32) && t@ == filled(11, 32) && ct@
                == filled(5, 64),
    {
        let ct = [5u8; 64];
        assert(ct@ =~= filled(5, 64));
        Ok((filled_vec(10, 32), filled_vec(11, 32), ct))
    }

    /// Burn: new available all 20s, new total all 21s, disclosed amount 42.
    pub fn verify_burn(
        asset: &[u8],
        from_pk: &[u8],
        from_old_avail: &[u8],
        total_old: &[u8],
        amount_ct: &EncryptedAmount,
        proof: &[u8],
    ) -> (r: Result<(Vec<u8>, Vec<u8>, u64), ()>)
        ensures
            r matches Ok((a, t, v)) && a@ == filled(20, 32) && t@ == filled(21, 32) && v == 42,
    {
        Ok((filled_vec(20, 32), filled_vec(21, 32), 42))
    }
}

/// A ramp that moves no public funds and always succeeds.
pub struct NoRamp;

impl NoRamp {
    /// Public transfer: succeeds.
    pub fn transfer_from(from: &u64, to: &u64, asset: u32, amount: u64) -> (r: Result<(), ()>)
        ensures
            r is Ok,
    {
        Ok(())
    }

    /// Public burn into custody: succeeds.
    pub fn burn(from: &u64, asset: &u32, amount: u64) -> (r: Result<(), ()>)
        ensures
            r is Ok,
    {
        Ok(())
    }

    /// Public mint out of custody: succeeds.
    pub fn mint(to: &u64, asset: &u32, amount: u64) -> (r: Result<(), ()>)
        ensures
            r is Ok,
    {
        Ok(())
    }
}

/// Deposit ids, each as 8 little-endian bytes.
pub open spec fn ids_bytes(ids: Seq<u64>) -> Seq<u8>
    decreases ids.len(),
{
    if ids.len() == 0 {
        Seq::empty()
    } else {
        ids_bytes(ids.drop_last()) + le_bytes(ids.last() as int, 8)
    }
}

/// The input of a claim of pending deposits: the number of ids (two
/// little-endian bytes), the ids, then the rest of the proof.
pub open spec fn accept_input_bytes(ids: Seq<u64>, rest: Seq<u8>) -> Seq<u8> {
    len16(ids.len()) + ids_bytes(ids) + rest
}

/// Builds the input of a claim of pending deposits `ids` with proof `rest`;
/// it must fit in a proof blob.
pub fn accept_input(ids: &[u64], rest: &[u8]) -> (r: Vec<u8>)
    requires
        2 + 8 * ids@.len() + rest@.len() <= MAX_PROOF_LEN,
    ensures
        r@ == accept_input_bytes(ids@, rest@),
{
    let mut v: Vec<u8> = Vec::new();
    let count = le_bytes_vec(ids.len() as u128 % 65536, 2);
    push_all(&mut v, count.as_slice());
    let mut i: usize = 0;
    while i < ids.len()
        invariant
            i <= ids@.len(),
            v@ == len16(ids@.len()) + ids_bytes(ids@.subrange(0, i as int)),
        decreases ids@.len() - i,
    {
        let b = le_bytes_vec(ids[i] as u128, 8);
        push_all(&mut v, b.as_slice());
        proof {
            let t = ids@.subrange(0, i + 1);
            assert(t.drop_last() =~= ids@.subrange(0, i as int));
            assert(v@ =~= len16(ids@.len()) + ids_bytes(t));
        }
        i = i + 1;
    }
    assert(ids@.subrange(0, ids@.len() as int) =~= ids@);
    push_all(&mut v, rest);
    v
}

} // verus!
