//! The non-cryptographic part of the ZK-ElGamal prover: the balance
//! arithmetic each proof rests on, and the byte layouts of the proofs the
//! verifier parses.
//!
//! Layouts:
//! - sender bundle: `delta_comm(32) || link(192) || len1(2) || range_from_new || len2(2) = 0`
//! - accept envelope: `delta_comm(32) || len1(2) || range_avail_new || len2(2) || range_pending_new`
//! - mint proof: `minted_ct(64) || delta_comm(32) || link(192) || len1(2) || rp_pending || len2(2) || rp_total`
//! - burn proof: `delta_comm(32) || link(192) || len1(2) || rp_avail || len2(2) || rp_total || amount_le(8)`
//!
//! Lengths are little-endian `u16`s.
use vstd::prelude::*;
use crate::bytes::{le_bytes, le_value, le_bytes_vec, push_all};
use crate::scale::{is_prefix, lemma_prefix_range, read_le, lemma_le_value_le_bytes, lemma_le_bytes_le_value};
use vstd::arithmetic::power::pow;

verus! {

/// Errors of the prover.
#[derive(Clone, Copy, Debug, PartialEq, Eq)]
pub enum ProverError {
    Malformed(&'static str),
    InvalidInput(&'static str),
    RangeProof(&'static str),
    Overflow(&'static str),
}

/// Output of the sender phase.
pub struct SenderOutput {
    pub delta_ct_bytes: [u8; 64],
    pub sender_bundle_bytes: Vec<u8>,
    pub delta_comm_bytes: [u8; 32],
    pub from_new_c: [u8; 32],
    /// Computed for convenience (not applied on-chain in phase one).
    pub to_new_c: [u8; 32],
}

/// Output of the receiver phase.
pub struct ReceiverAcceptOutput {
    pub accept_envelope: Vec<u8>,
    pub avail_new_c: [u8; 32],
    pub pending_new_c: [u8; 32],
}

/// Output of a mint proof.
pub struct MintOutput {
    pub minted_ct_bytes: [u8; 64],
    pub proof_bytes: Vec<u8>,
    pub to_pending_new_c: [u8; 32],
    pub total_new_c: [u8; 32],
}

/// Output of a burn proof.
pub struct BurnOutput {
    pub amount_ct_bytes: [u8; 64],
    pub proof_bytes: Vec<u8>,
    pub from_avail_new_c: [u8; 32],
    pub total_new_c: [u8; 32],
}

/// An asset id as a 32-byte field: its first 32 bytes, zero-padded.
pub open spec fn pad32(x: Seq<u8>) -> Seq<u8> {
    if x.len() >= 32 {
        x.subrange(0, 32)
    } else {
        x + Seq::new((32 - x.len()) as nat, |i: int| 0u8)
    }
}

/// The first 32 bytes of `x`, zero-padded.
pub fn pad_or_trim_32(x: &[u8]) -> (r: [u8; 32])
    ensures
        r@ == pad32(x@),
{
    let mut out = [0u8; 32];
    let n: usize = if x.len() >= 32 { 32 } else { x.len() };
    let mut i: usize = 0;
    while i < n
        invariant
            i <= n,
            n <= 32,
            n <= x.len(),
            n == (if x@.len() >= 32 { 32 } else { x@.len() }),
            out@.len() == 32,
            forall|j: int| 0 <= j < i ==> out@[j] == x@[j],
            forall|j: int| n <= j < 32 ==> out@[j] == 0u8,
        decreases n - i,
    {
        out[i] = x[i];
        i = i + 1;
    }
    assert(out@ =~= pad32(x@));
    out
}

/// The link proof: `a1 || a2 || a3 || z_k || z_v || z_r`.
pub open spec fn link_bytes(
    a1: Seq<u8>,
    a2: Seq<u8>,
    a3: Seq<u8>,
    z_k: Seq<u8>,
    z_v: Seq<u8>,
    z_r: Seq<u8>,
) -> Seq<u8> {
    a1 + a2 + a3 + z_k + z_v + z_r
}

/// Writes `src` into `out` at `at`.
fn write_at(out: &mut [u8; 192], at: usize, src: &[u8; 32])
    requires
        at + 32 <= 192,
    ensures
        final(out)@ == old(out)@.subrange(0, at as int) + src@ + old(out)@.subrange(at + 32, 192),
{
    let mut i: usize = 0;
    while i < 32
        invariant
            i <= 32,
            at + 32 <= 192,
            out@.len() == 192,
            forall|j: int| 0 <= j < at ==> out@[j] == old(out)@[j],
            forall|j: int| at + 32 <= j < 192 ==> out@[j] == old(out)@[j],
            forall|j: int| at <= j < at + i ==> out@[j] == src@[j - at],
            forall|j: int| at + i <= j < at + 32 ==> out@[j] == old(out)@[j],
        decreases 32 - i,
    {
        out[at + i] = src[i];
        i = i + 1;
    }
    assert(out@ =~= old(out)@.subrange(0, at as int) + src@ + old(out)@.subrange(at + 32, 192));
}

/// The 192-byte link proof from the compressed commitments and the
/// response scalars.
pub fn encode_link(
    a1: &[u8; 32],
    a2: &[u8; 32],
    a3: &[u8; 32],
    z_k: &[u8; 32],
    z_v: &[u8; 32],
    z_r: &[u8; 32],
) -> (r: [u8; 192])
    ensures
        r@ == link_bytes(a1@, a2@, a3@, z_k@, z_v@, z_r@),
{
    let mut out = [0u8; 192];
    write_at(&mut out, 0, a1);
    write_at(&mut out, 32, a2);
    write_at(&mut out, 64, a3);
    write_at(&mut out, 96, z_k);
    write_at(&mut out, 128, z_v);
    write_at(&mut out, 160, z_r);
    assert(out@ =~= link_bytes(a1@, a2@, a3@, z_k@, z_v@, z_r@));
    out
}

/// A length as two little-endian bytes (truncated to 16 bits).
pub open spec fn len16(n: nat) -> Seq<u8> {
    le_bytes((n % 65536) as int, 2)
}

/// Appends a length as two little-endian bytes (truncated to 16 bits).
fn put_len16(out: &mut Vec<u8>, n: usize)
    ensures
        final(out)@ == old(out)@ + len16(n as nat),
{
    let b = le_bytes_vec((n % 65536) as u128, 2);
    push_all(out, b.as_slice());
}

/// The sender bundle layout.
pub open spec fn sender_bundle_bytes(delta_comm: Seq<u8>, link: Seq<u8>, range_from: Seq<u8>) -> Seq<u8> {
    delta_comm + link + len16(range_from.len()) + range_from + len16(0)
}

/// The accept envelope layout.
pub open spec fn accept_envelope_bytes(delta_comm: Seq<u8>, rp_avail: Seq<u8>, rp_pending: Seq<u8>) -> Seq<u8> {
    delta_comm + len16(rp_avail.len()) + rp_avail + len16(rp_pending.len()) + rp_pending
}

/// The mint proof layout.
pub open spec fn mint_proof_bytes(
    ct: Seq<u8>,
    delta_comm: Seq<u8>,
    link: Seq<u8>,
    rp_to: Seq<u8>,
    rp_total: Seq<u8>,
) -> Seq<u8> {
    ct + delta_comm + link + len16(rp_to.len()) + rp_to + len16(rp_total.len()) + rp_total
}

/// The burn proof layout.
pub open spec fn burn_proof_bytes(
    delta_comm: Seq<u8>,
    link: Seq<u8>,
    rp_from: Seq<u8>,
    rp_total: Seq<u8>,
    amount: u64,
) -> Seq<u8> {
    delta_comm + link + len16(rp_from.len()) + rp_from + len16(rp_total.len()) + rp_total
        + le_bytes(amount as int, 8)
}

/// Assembles the sender bundle (the receiver range length is zero).
pub fn sender_bundle(delta_comm: &[u8; 32], link: &[u8; 192], range_from: &[u8]) -> (r: Vec<u8>)
    ensures
        r@ == sender_bundle_bytes(delta_comm@, link@, range_from@),
{
    let mut out: Vec<u8> = Vec::new();
    push_all(&mut out, delta_comm);
    push_all(&mut out, link);
    put_len16(&mut out, range_from.len());
    push_all(&mut out, range_from);
    put_len16(&mut out, 0);
    assert(out@ =~= sender_bundle_bytes(delta_comm@, link@, range_from@));
    out
}

/// Assembles the accept envelope.
pub fn accept_envelope(delta_comm: &[u8; 32], rp_avail: &[u8], rp_pending: &[u8]) -> (r: Vec<u8>)
    ensures
        r@ == accept_envelope_bytes(delta_comm@, rp_avail@, rp_pending@),
{
    let mut out: Vec<u8> = Vec::new();
    push_all(&mut out, delta_comm);
    put_len16(&mut out, rp_avail.len());
    push_all(&mut out, rp_avail);
    put_len16(&mut out, rp_pending.len());
    push_all(&mut out, rp_pending);
    assert(out@ =~= accept_envelope_bytes(delta_comm@, rp_avail@, rp_pending@));
    out
}

/// Assembles a mint proof.
pub fn mint_proof(ct: &[u8; 64], delta_comm: &[u8; 32], link: &[u8; 192], rp_to: &[u8], rp_total: &[u8]) -> (r: Vec<u8>)
    ensures
        r@ == mint_proof_bytes(ct@, delta_comm@, link@, rp_to@, rp_total@),
        r@.subrange(0, 64) == ct@,
        r@.subrange(64, 96) == delta_comm@,
        r@.subrange(96, 288) == link@,
{
    proof {
        law_mint_proof_layout(ct@, delta_comm@, link@, rp_to@, rp_total@);
    }
    let mut out: Vec<u8> = Vec::new();
    push_all(&mut out, ct);
    push_all(&mut out, delta_comm);
    push_all(&mut out, link);
    put_len16(&mut out, rp_to.len());
    push_all(&mut out, rp_to);
    put_len16(&mut out, rp_total.len());
    push_all(&mut out, rp_total);
    assert(out@ =~= mint_proof_bytes(ct@, delta_comm@, link@, rp_to@, rp_total@));
    out
}

/// Assembles a burn proof; it discloses the burned amount at its end.
pub fn burn_proof(delta_comm: &[u8; 32], link: &[u8; 192], rp_from: &[u8], rp_total: &[u8], amount: u64) -> (r: Vec<u8>)
    ensures
        r@ == burn_proof_bytes(delta_comm@, link@, rp_from@, rp_total@, amount),
        r@.subrange(0, 32) == delta_comm@,
        r@.subrange(32, 224) == link@,
{
    proof {
        law_burn_proof_layout(delta_comm@, link@, rp_from@, rp_total@, amount);
    }
    let mut out: Vec<u8> = Vec::new();
    push_all(&mut out, delta_comm);
    push_all(&mut out, link);
    put_len16(&mut out, rp_from.len());
    push_all(&mut out, rp_from);
    put_len16(&mut out, rp_total.len());
    push_all(&mut out, rp_total);
    let a = le_bytes_vec(amount as u128, 8);
    push_all(&mut out, a.as_slice());
    assert(out@ =~= burn_proof_bytes(delta_comm@, link@, rp_from@, rp_total@, amount));
    out
}

/// A mint proof lays out, in order: the minted ciphertext (bytes 0..64), the
/// amount's commitment (64..96), the 192-byte link proof (96..288), then each
/// range proof behind its 16-bit length.
pub proof fn law_mint_proof_layout(ct: Seq<u8>, dc: Seq<u8>, link: Seq<u8>, rp_to: Seq<u8>, rp_total: Seq<u8>)
    requires
        ct.len() == 64,
        dc.len() == 32,
        link.len() == 192,
    ensures
        ({
            let m = mint_proof_bytes(ct, dc, link, rp_to, rp_total);
            let t: int = 290 + rp_to.len() as int;
            &&& m.len() == 292 + rp_to.len() + rp_total.len()
            &&& m.subrange(0, 64) == ct
            &&& m.subrange(64, 96) == dc
            &&& m.subrange(96, 288) == link
            &&& m.subrange(288, 290) == len16(rp_to.len())
            &&& m.subrange(290, t) == rp_to
            &&& m.subrange(t, t + 2) == len16(rp_total.len())
            &&& m.subrange(t + 2, m.len() as int) == rp_total
        }),
{
    let m = mint_proof_bytes(ct, dc, link, rp_to, rp_total);
    let t: int = 290 + rp_to.len() as int;
    assert(len16(rp_to.len()).len() == 2);
    assert(len16(rp_total.len()).len() == 2);
    assert(m.subrange(0, 64) =~= ct);
    assert(m.subrange(64, 96) =~= dc);
    assert(m.subrange(96, 288) =~= link);
    assert(m.subrange(288, 290) =~= len16(rp_to.len()));
    assert(m.subrange(290, t) =~= rp_to);
    assert(m.subrange(t, t + 2) =~= len16(rp_total.len()));
    assert(m.subrange(t + 2, m.len() as int) =~= rp_total);
}

/// A burn proof lays out, in order: the amount's commitment (bytes 0..32),
/// the 192-byte link proof (32..224), each range proof behind its 16-bit
/// length, and last the burned amount as 8 little-endian bytes.
pub proof fn law_burn_proof_layout(dc: Seq<u8>, link: Seq<u8>, rp_from: Seq<u8>, rp_total: Seq<u8>, amount: u64)
    requires
        dc.len() == 32,
        link.len() == 192,
    ensures
        ({
            let b = burn_proof_bytes(dc, link, rp_from, rp_total, amount);
            let t: int = 226 + rp_from.len() as int;
            let e: int = t + 2 + rp_total.len();
            &&& b.len() == e + 8
            &&& b.subrange(0, 32) == dc
            &&& b.subrange(32, 224) == link
            &&& b.subrange(224, 226) == len16(rp_from.len())
            &&& b.subrange(226, t) == rp_from
            &&& b.subrange(t, t + 2) == len16(rp_total.len())
            &&& b.subrange(t + 2, e) == rp_total
            &&& b.subrange(e, e + 8) == le_bytes(amount as int, 8)
        }),
{
    let b = burn_proof_bytes(dc, link, rp_from, rp_total, amount);
    let t: int = 226 + rp_from.len() as int;
    let e: int = t + 2 + rp_total.len();
    assert(len16(rp_from.len()).len() == 2);
    assert(len16(rp_total.len()).len() == 2);
    assert(le_bytes(amount as int, 8).len() == 8);
    assert(b.subrange(0, 32) =~= dc);
    assert(b.subrange(32, 224) =~= link);
    assert(b.subrange(224, 226) =~= len16(rp_from.len()));
    assert(b.subrange(226, t) =~= rp_from);
    assert(b.subrange(t, t + 2) =~= len16(rp_total.len()));
    assert(b.subrange(t + 2, e) =~= rp_total);
    assert(b.subrange(e, e + 8) =~= le_bytes(amount as int, 8));
}

/// The sender's available balance after sending `dv`.
pub open spec fn sender_after(v_from_old: u64, dv: u64) -> Result<u64, ProverError> {
    if dv <= v_from_old {
        Ok((v_from_old - dv) as u64)
    } else {
        Err(ProverError::Overflow("sender balance - delta"))
    }
}

/// The receiver's available and pending balances after accepting `dv`.
pub open spec fn accept_after(v_avail: u64, v_pending: u64, dv: u64) -> Result<(u64, u64), ProverError> {
    if v_avail + dv > u64::MAX {
        Err(ProverError::Overflow("available balance + delta"))
    } else if dv > v_pending {
        Err(ProverError::Overflow("pending balance - delta"))
    } else {
        Ok(((v_avail + dv) as u64, (v_pending - dv) as u64))
    }
}

/// The recipient's pending balance and the total supply after minting `dv`.
pub open spec fn mint_after(v_to_old: u64, v_total_old: u64, dv: u64) -> Result<(u64, u64), ProverError> {
    if v_to_old + dv > u64::MAX {
        Err(ProverError::Overflow("pending balance + mint amount"))
    } else if v_total_old + dv > u64::MAX {
        Err(ProverError::Overflow("total supply + mint amount"))
    } else {
        Ok(((v_to_old + dv) as u64, (v_total_old + dv) as u64))
    }
}

/// The holder's available balance and the total supply after burning `dv`.
pub open spec fn burn_after(v_from_old: u64, v_total_old: u64, dv: u64) -> Result<(u64, u64), ProverError> {
    if dv > v_from_old {
        Err(ProverError::Overflow("available balance - burn amount"))
    } else if dv > v_total_old {
        Err(ProverError::Overflow("total supply - burn amount"))
    } else {
        Ok(((v_from_old - dv) as u64, (v_total_old - dv) as u64))
    }
}

/// The sender's available balance after sending `dv`.
pub fn sender_balance_after(v_from_old: u64, dv: u64) -> (r: Result<u64, ProverError>)
    ensures
        r == sender_after(v_from_old, dv),
{
    match v_from_old.checked_sub(dv) {
        Some(v) => Ok(v),
        None => Err(ProverError::Overflow("sender balance - delta")),
    }
}

/// The receiver's available and pending balances after accepting `dv`.
pub fn accept_balances_after(v_avail: u64, v_pending: u64, dv: u64) -> (r: Result<(u64, u64), ProverError>)
    ensures
        r == accept_after(v_avail, v_pending, dv),
{
    let avail = match v_avail.checked_add(dv) {
        Some(v) => v,
        None => return Err(ProverError::Overflow("available balance + delta")),
    };
    let pending = match v_pending.checked_sub(dv) {
        Some(v) => v,
        None => return Err(ProverError::Overflow("pending balance - delta")),
    };
    Ok((avail, pending))
}

/// The recipient's pending balance and the total supply after minting `dv`.
pub fn mint_balances_after(v_to_old: u64, v_total_old: u64, dv: u64) -> (r: Result<(u64, u64), ProverError>)
    ensures
        r == mint_after(v_to_old, v_total_old, dv),
{
    let to_new = match v_to_old.checked_add(dv) {
        Some(v) => v,
        None => return Err(ProverError::Overflow("pending balance + mint amount")),
    };
    let total_new = match v_total_old.checked_add(dv) {
        Some(v) => v,
        None => return Err(ProverError::Overflow("total supply + mint amount")),
    };
    Ok((to_new, total_new))
}

/// The holder's available balance and the total supply after burning `dv`.
pub fn burn_balances_after(v_from_old: u64, v_total_old: u64, dv: u64) -> (r: Result<(u64, u64), ProverError>)
    ensures
        r == burn_after(v_from_old, v_total_old, dv),
{
    let from_new = match v_from_old.checked_sub(dv) {
        Some(v) => v,
        None => return Err(ProverError::Overflow("available balance - burn amount")),
    };
    let total_new = match v_total_old.checked_sub(dv) {
        Some(v) => v,
        None => return Err(ProverError::Overflow("total supply - burn amount")),
    };
    Ok((from_new, total_new))
}

/// The values behind the proofs are conserved: a send takes exactly `dv`
/// from the sender; an accept moves `dv` from pending to available, leaving
/// their sum; a mint adds `dv` to both the recipient's pending balance and
/// the supply, and a burn takes `dv` from both the holder and the supply.
/// Each succeeds exactly when no balance leaves the 64-bit range.
pub proof fn law_proved_values_conserved(a: u64, b: u64, dv: u64)
    ensures
        sender_after(a, dv) matches Ok(n) ==> n + dv == a,
        sender_after(a, dv) is Ok <==> dv <= a,
        accept_after(a, b, dv) matches Ok((x, y)) ==> x + y == a + b && x == a + dv,
        accept_after(a, b, dv) is Ok <==> (a + dv <= u64::MAX && dv <= b),
        mint_after(a, b, dv) matches Ok((x, y)) ==> x - a == dv && y - b == dv,
        mint_after(a, b, dv) is Ok <==> (a + dv <= u64::MAX && b + dv <= u64::MAX),
        burn_after(a, b, dv) matches Ok((x, y)) ==> a - x == dv && b - y == dv,
        burn_after(a, b, dv) is Ok <==> (dv <= a && dv <= b),
{
}

/// Whether 32 bytes are the compressed encoding of a Ristretto point, as
/// `curve25519_dalek`'s `CompressedRistretto::decompress` decides.
pub uninterp spec fn ristretto_decodes(bytes: Seq<u8>) -> bool;

/// `CompressedRistretto::decompress` from `curve25519_dalek`, reduced to
/// whether it succeeds; that depends on the 32 bytes alone.
#[verifier::external_body]
fn decompresses(bytes: &[u8; 32]) -> (r: bool)
    ensures
        r == ristretto_decodes(bytes@),
{
    curve25519_dalek::ristretto::CompressedRistretto(*bytes).decompress().is_some()
}

/// The compressed sum of two compressed Ristretto points, as
/// `curve25519_dalek` computes it.
pub uninterp spec fn ristretto_sum(a: Seq<u8>, b: Seq<u8>) -> Seq<u8>;

/// The compressed difference `a - b` of two compressed Ristretto points, as
/// `curve25519_dalek` computes it.
pub uninterp spec fn ristretto_difference(a: Seq<u8>, b: Seq<u8>) -> Seq<u8>;

/// `RistrettoPoint` addition from `curve25519_dalek` on compressed points:
/// `decompress` both, `+`, `compress`. It yields nothing exactly when one of
/// them is not a canonical encoding. Beyond naming the sum, the contract
/// claims that the sum is a canonical encoding again and that subtracting `b`
/// from it gives `a` back: the points form a group, and `compress` writes the
/// canonical encoding that `decompress` accepts. The sum itself is left to
/// the name.
#[verifier::external_body]
fn point_add(a: &[u8; 32], b: &[u8; 32]) -> (r: Option<[u8; 32]>)
    ensures
        r is Some <==> (ristretto_decodes(a@) && ristretto_decodes(b@)),
        r matches Some(c) ==> c@ == ristretto_sum(a@, b@),
        r matches Some(c) ==> ristretto_decodes(c@),
        r matches Some(c) ==> ristretto_difference(c@, b@) == a@,
{
    let pa = curve25519_dalek::ristretto::CompressedRistretto(*a).decompress()?;
    let pb = curve25519_dalek::ristretto::CompressedRistretto(*b).decompress()?;
    Some((pa + pb).compress().to_bytes())
}

/// `RistrettoPoint` subtraction from `curve25519_dalek` on compressed points:
/// `decompress` both, `-`, `compress`. It yields nothing exactly when one of
/// them is not a canonical encoding. Beyond naming the difference, the
/// contract claims that it is a canonical encoding again and that adding `b`
/// to it gives `a` back, for the reasons given at `point_add`.
#[verifier::external_body]
fn point_sub(a: &[u8; 32], b: &[u8; 32]) -> (r: Option<[u8; 32]>)
    ensures
        r is Some <==> (ristretto_decodes(a@) && ristretto_decodes(b@)),
        r matches Some(c) ==> c@ == ristretto_difference(a@, b@),
        r matches Some(c) ==> ristretto_decodes(c@),
        r matches Some(c) ==> ristretto_sum(c@, b@) == a@,
{
    let pa = curve25519_dalek::ristretto::CompressedRistretto(*a).decompress()?;
    let pb = curve25519_dalek::ristretto::CompressedRistretto(*b).decompress()?;
    Some((pa - pb).compress().to_bytes())
}

/// A balance commitment credited with the commitment `delta` of a moved
/// amount: `old + delta`. Subtracting `delta` again gives `old` back.
pub fn credit_commitment(old: &[u8; 32], delta: &[u8; 32]) -> (r: Result<[u8; 32], ProverError>)
    ensures
        r is Ok <==> ristretto_decodes(old@) && ristretto_decodes(delta@),
        r matches Ok(c) ==> c@ == ristretto_sum(old@, delta@) && ristretto_difference(c@, delta@) == old@,
        r matches Err(e) ==> e is InvalidInput,
{
    match point_add(old, delta) {
        Some(c) => Ok(c),
        None => Err(ProverError::InvalidInput("commitment is not a valid point")),
    }
}

/// A balance commitment debited by the commitment `delta` of a moved amount:
/// `old - delta`. Adding `delta` again gives `old` back.
pub fn debit_commitment(old: &[u8; 32], delta: &[u8; 32]) -> (r: Result<[u8; 32], ProverError>)
    ensures
        r is Ok <==> ristretto_decodes(old@) && ristretto_decodes(delta@),
        r matches Ok(c) ==> c@ == ristretto_difference(old@, delta@) && ristretto_sum(c@, delta@) == old@,
        r matches Err(e) ==> e is InvalidInput,
{
    match point_sub(old, delta) {
        Some(c) => Ok(c),
        None => Err(ProverError::InvalidInput("commitment is not a valid point")),
    }
}

/// The commitments after a receiver accepts `delta` from its pending balance:
/// available `avail_old + delta`, pending `pending_old - delta`.
pub fn accept_commitments(
    avail_old: &[u8; 32],
    pending_old: &[u8; 32],
    delta: &[u8; 32],
) -> (r: Result<([u8; 32], [u8; 32]), ProverError>)
    ensures
        r is Ok <==> ristretto_decodes(avail_old@) && ristretto_decodes(pending_old@) && ristretto_decodes(
            delta@,
        ),
        r matches Ok((a, p)) ==> a@ == ristretto_sum(avail_old@, delta@) && p@ == ristretto_difference(
            pending_old@,
            delta@,
        ),
        r matches Ok((a, p)) ==> ristretto_difference(a@, delta@) == avail_old@ && ristretto_sum(p@, delta@)
            == pending_old@,
        r matches Err(e) ==> e is InvalidInput,
{
    let a = credit_commitment(avail_old, delta)?;
    let p = debit_commitment(pending_old, delta)?;
    Ok((a, p))
}

/// The commitments after a mint of `delta`: the recipient's pending balance
/// `to_pending_old + delta` and the total supply `total_old + delta`.
pub fn mint_commitments(
    to_pending_old: &[u8; 32],
    total_old: &[u8; 32],
    delta: &[u8; 32],
) -> (r: Result<([u8; 32], [u8; 32]), ProverError>)
    ensures
        r is Ok <==> ristretto_decodes(to_pending_old@) && ristretto_decodes(total_old@) && ristretto_decodes(
            delta@,
        ),
        r matches Ok((p, t)) ==> p@ == ristretto_sum(to_pending_old@, delta@) && t@ == ristretto_sum(
            total_old@,
            delta@,
        ),
        r matches Ok((p, t)) ==> ristretto_difference(p@, delta@) == to_pending_old@ && ristretto_difference(
            t@,
            delta@,
        ) == total_old@,
        r matches Err(e) ==> e is InvalidInput,
{
    let p = credit_commitment(to_pending_old, delta)?;
    let t = credit_commitment(total_old, delta)?;
    Ok((p, t))
}

/// The commitments after a burn of `delta`: the holder's available balance
/// `from_avail_old - delta` and the total supply `total_old - delta`.
pub fn burn_commitments(
    from_avail_old: &[u8; 32],
    total_old: &[u8; 32],
    delta: &[u8; 32],
) -> (r: Result<([u8; 32], [u8; 32]), ProverError>)
    ensures
        r is Ok <==> ristretto_decodes(from_avail_old@) && ristretto_decodes(total_old@) && ristretto_decodes(
            delta@,
        ),
        r matches Ok((f, t)) ==> f@ == ristretto_difference(from_avail_old@, delta@) && t@
            == ristretto_difference(total_old@, delta@),
        r matches Ok((f, t)) ==> ristretto_sum(f@, delta@) == from_avail_old@ && ristretto_sum(t@, delta@)
            == total_old@,
        r matches Err(e) ==> e is InvalidInput,
{
    let f = debit_commitment(from_avail_old, delta)?;
    let t = debit_commitment(total_old, delta)?;
    Ok((f, t))
}

/// The sender's output, put together from what the proof transcript produced:
/// the delta ciphertext, the amount's commitment `delta_comm` (ΔC), the link
/// proof and the range proof of the new balance. `from_old` is the commitment
/// that the sender's balance `v_from_old` and its blinding open, so the new
/// commitment `(v - Δv)G + (r - ρ)H` is `from_old - ΔC`; the receiver's is
/// `to_old + ΔC`. The bundle starts with ΔC.
pub fn sender_output(
    delta_ct: &[u8; 64],
    delta_comm: &[u8; 32],
    link: &[u8; 192],
    range_from: &[u8],
    from_old: &[u8; 32],
    to_old: &[u8; 32],
    v_from_old: u64,
    dv: u64,
) -> (r: Result<SenderOutput, ProverError>)
    ensures
        match sender_after(v_from_old, dv) {
            Err(e) => r == Err::<SenderOutput, ProverError>(e),
            Ok(_) => {
                &&& r is Ok <==> (ristretto_decodes(from_old@) && ristretto_decodes(to_old@)
                    && ristretto_decodes(delta_comm@))
                &&& r matches Err(e) ==> e is InvalidInput
            },
        },
        r matches Ok(o) ==> {
            &&& o.delta_ct_bytes@ == delta_ct@
            &&& o.delta_comm_bytes@ == delta_comm@
            &&& o.sender_bundle_bytes@ == sender_bundle_bytes(delta_comm@, link@, range_from@)
            &&& o.sender_bundle_bytes@.subrange(0, 32) == delta_comm@
            &&& o.from_new_c@ == ristretto_difference(from_old@, delta_comm@)
            &&& o.to_new_c@ == ristretto_sum(to_old@, delta_comm@)
            &&& ristretto_sum(o.from_new_c@, delta_comm@) == from_old@
            &&& ristretto_difference(o.to_new_c@, delta_comm@) == to_old@
        },
{
    sender_balance_after(v_from_old, dv)?;
    let from_new_c = debit_commitment(from_old, delta_comm)?;
    let to_new_c = credit_commitment(to_old, delta_comm)?;
    let bundle = sender_bundle(delta_comm, link, range_from);
    assert(bundle@.subrange(0, 32) =~= delta_comm@);
    Ok(SenderOutput {
        delta_ct_bytes: *delta_ct,
        sender_bundle_bytes: bundle,
        delta_comm_bytes: *delta_comm,
        from_new_c,
        to_new_c,
    })
}

/// The receiver's output, put together from the two range proofs the
/// transcript produced: the envelope for ΔC, available `avail_old + ΔC` and
/// pending `pending_old - ΔC`.
pub fn receiver_accept_output(
    delta_comm: &[u8; 32],
    rp_avail: &[u8],
    rp_pending: &[u8],
    avail_old: &[u8; 32],
    pending_old: &[u8; 32],
    v_avail: u64,
    v_pending: u64,
    dv: u64,
) -> (r: Result<ReceiverAcceptOutput, ProverError>)
    ensures
        match accept_after(v_avail, v_pending, dv) {
            Err(e) => r == Err::<ReceiverAcceptOutput, ProverError>(e),
            Ok(_) => {
                &&& r is Ok <==> (ristretto_decodes(avail_old@) && ristretto_decodes(pending_old@)
                    && ristretto_decodes(delta_comm@))
                &&& r matches Err(e) ==> e is InvalidInput
            },
        },
        r matches Ok(o) ==> {
            &&& o.accept_envelope@ == accept_envelope_bytes(delta_comm@, rp_avail@, rp_pending@)
            &&& o.avail_new_c@ == ristretto_sum(avail_old@, delta_comm@)
            &&& o.pending_new_c@ == ristretto_difference(pending_old@, delta_comm@)
            &&& ristretto_difference(o.avail_new_c@, delta_comm@) == avail_old@
            &&& ristretto_sum(o.pending_new_c@, delta_comm@) == pending_old@
        },
{
    accept_balances_after(v_avail, v_pending, dv)?;
    let (avail_new_c, pending_new_c) = accept_commitments(avail_old, pending_old, delta_comm)?;
    Ok(ReceiverAcceptOutput {
        accept_envelope: accept_envelope(delta_comm, rp_avail, rp_pending),
        avail_new_c,
        pending_new_c,
    })
}

/// The mint output, put together from what the transcript produced: the
/// proof for ΔC, the recipient's pending `to_pending_old + ΔC` and the total
/// supply `total_old + ΔC`.
pub fn mint_output(
    minted_ct: &[u8; 64],
    delta_comm: &[u8; 32],
    link: &[u8; 192],
    rp_to: &[u8],
    rp_total: &[u8],
    to_pending_old: &[u8; 32],
    total_old: &[u8; 32],
    v_to_old: u64,
    v_total_old: u64,
    dv: u64,
) -> (r: Result<MintOutput, ProverError>)
    ensures
        match mint_after(v_to_old, v_total_old, dv) {
            Err(e) => r == Err::<MintOutput, ProverError>(e),
            Ok(_) => {
                &&& r is Ok <==> (ristretto_decodes(to_pending_old@) && ristretto_decodes(total_old@)
                    && ristretto_decodes(delta_comm@))
                &&& r matches Err(e) ==> e is InvalidInput
            },
        },
        r matches Ok(o) ==> {
            &&& o.minted_ct_bytes@ == minted_ct@
            &&& o.proof_bytes@ == mint_proof_bytes(minted_ct@, delta_comm@, link@, rp_to@, rp_total@)
            &&& o.to_pending_new_c@ == ristretto_sum(to_pending_old@, delta_comm@)
            &&& o.total_new_c@ == ristretto_sum(total_old@, delta_comm@)
            &&& ristretto_difference(o.to_pending_new_c@, delta_comm@) == to_pending_old@
            &&& ristretto_difference(o.total_new_c@, delta_comm@) == total_old@
        },
{
    mint_balances_after(v_to_old, v_total_old, dv)?;
    let (to_pending_new_c, total_new_c) = mint_commitments(to_pending_old, total_old, delta_comm)?;
    Ok(MintOutput {
        minted_ct_bytes: *minted_ct,
        proof_bytes: mint_proof(minted_ct, delta_comm, link, rp_to, rp_total),
        to_pending_new_c,
        total_new_c,
    })
}

/// The burn output, put together from what the transcript produced: the
/// proof for ΔC disclosing `dv`, the holder's available `from_avail_old - ΔC`
/// and the total supply `total_old - ΔC`.
pub fn burn_output(
    amount_ct: &[u8; 64],
    delta_comm: &[u8; 32],
    link: &[u8; 192],
    rp_from: &[u8],
    rp_total: &[u8],
    from_avail_old: &[u8; 32],
    total_old: &[u8; 32],
    v_from_old: u64,
    v_total_old: u64,
    dv: u64,
) -> (r: Result<BurnOutput, ProverError>)
    ensures
        match burn_after(v_from_old, v_total_old, dv) {
            Err(e) => r == Err::<BurnOutput, ProverError>(e),
            Ok(_) => {
                &&& r is Ok <==> (ristretto_decodes(from_avail_old@) && ristretto_decodes(total_old@)
                    && ristretto_decodes(delta_comm@))
                &&& r matches Err(e) ==> e is InvalidInput
            },
        },
        r matches Ok(o) ==> {
            &&& o.amount_ct_bytes@ == amount_ct@
            &&& o.proof_bytes@ == burn_proof_bytes(delta_comm@, link@, rp_from@, rp_total@, dv)
            &&& o.from_avail_new_c@ == ristretto_difference(from_avail_old@, delta_comm@)
            &&& o.total_new_c@ == ristretto_difference(total_old@, delta_comm@)
            &&& ristretto_sum(o.from_avail_new_c@, delta_comm@) == from_avail_old@
            &&& ristretto_sum(o.total_new_c@, delta_comm@) == total_old@
        },
{
    burn_balances_after(v_from_old, v_total_old, dv)?;
    let (from_avail_new_c, total_new_c) = burn_commitments(from_avail_old, total_old, delta_comm)?;
    Ok(BurnOutput {
        amount_ct_bytes: *amount_ct,
        proof_bytes: burn_proof(delta_comm, link, rp_from, rp_total, dv),
        from_avail_new_c,
        total_new_c,
    })
}

/// A sender bundle taken apart.
pub struct ParsedSenderBundle {
    /// The compressed commitment to the transferred amount.
    pub delta_comm: [u8; 32],
    /// `A1 || A2 || A3 || z_k || z_v || z_r`.
    pub link_raw_192: [u8; 192],
    pub range_from_new: Vec<u8>,
    /// Often empty.
    pub range_to_new: Vec<u8>,
}

/// A bundle with two range proofs.
pub open spec fn bundle_layout(dc: Seq<u8>, link: Seq<u8>, r1: Seq<u8>, r2: Seq<u8>) -> Seq<u8> {
    dc + link + len16(r1.len()) + r1 + len16(r2.len()) + r2
}

/// Parts that a bundle can hold.
pub open spec fn bundle_parts_ok(dc: Seq<u8>, link: Seq<u8>, r1: Seq<u8>, r2: Seq<u8>) -> bool {
    dc.len() == 32 && link.len() == 192 && r1.len() < 65536 && r2.len() < 65536
}

/// What parsing `bytes` gives: the parts of the bundle `bytes` starts with,
/// provided its commitment is a valid point, and an error otherwise.
pub open spec fn bundle_parsed(bytes: Seq<u8>, r: Result<ParsedSenderBundle, ()>) -> bool {
    &&& r matches Ok(p) ==> {
        &&& bundle_parts_ok(p.delta_comm@, p.link_raw_192@, p.range_from_new@, p.range_to_new@)
        &&& is_prefix(bundle_layout(p.delta_comm@, p.link_raw_192@, p.range_from_new@, p.range_to_new@), bytes)
        &&& ristretto_decodes(p.delta_comm@)
    }
    &&& forall|dc: Seq<u8>, link: Seq<u8>, r1: Seq<u8>, r2: Seq<u8>|
        bundle_parts_ok(dc, link, r1, r2) && #[trigger] is_prefix(bundle_layout(dc, link, r1, r2), bytes)
            ==> if ristretto_decodes(dc) {
            r matches Ok(p) && p.delta_comm@ == dc && p.link_raw_192@ == link && p.range_from_new@ == r1
                && p.range_to_new@ == r2
        } else {
            r is Err
        }
}

/// Copies `data[start..start + n]`.
fn copy_range(data: &[u8], start: usize, n: usize) -> (r: Vec<u8>)
    requires
        start + n <= data.len(),
    ensures
        r@ == data@.subrange(start as int, start + n),
{
    let mut out: Vec<u8> = Vec::new();
    let mut i: usize = 0;
    while i < n
        invariant
            i <= n,
            start + n <= data.len(),
            out@ =~= data@.subrange(start as int, start + i),
        decreases n - i,
    {
        out.push(data[start + i]);
        i = i + 1;
    }
    out
}

/// A 16-bit length read back from its two bytes.
proof fn lemma_len16(n: nat)
    requires
        n < 65536,
    ensures
        le_value(len16(n)) == n,
        len16(n).len() == 2,
{
    assert(pow(256, 2) == 65536) by {
        reveal_with_fuel(pow, 3);
    }
    lemma_le_value_le_bytes(n, 2);
}

/// Reads a 16-bit little-endian length at `pos`.
fn read_len16(bytes: &[u8], pos: usize) -> (r: usize)
    requires
        pos + 2 <= bytes.len(),
    ensures
        r < 65536,
        r == le_value(bytes@.subrange(pos as int, pos + 2)),
{
    let v = read_le(bytes, pos, 2);
    proof {
        crate::scale::lemma_le_value_bound(bytes@.subrange(pos as int, pos + 2));
        assert(pow(256, 2) == 65536) by {
            reveal_with_fuel(pow, 3);
        }
    }
    v as usize
}

/// Takes a sender bundle apart, checking that its commitment is a valid
/// point and that both range proofs fit in it.
#[verifier::spinoff_prover]
#[verifier::rlimit(40)]
pub fn parse_sender_bundle(bytes: &[u8]) -> (r: Result<ParsedSenderBundle, ()>)
    ensures
        bundle_parsed(bytes@, r),
{
    if bytes.len() < 32 + 192 + 2 + 2 {
        proof {
            assert forall|dc: Seq<u8>, link: Seq<u8>, r1: Seq<u8>, r2: Seq<u8>|
                bundle_parts_ok(dc, link, r1, r2) && #[trigger] is_prefix(bundle_layout(dc, link, r1, r2), bytes@)
                implies false by {
                lemma_len16(r1.len());
                lemma_len16(r2.len());
            }
        }
        return Err(());
    }
    let c = crate::primitives::read_array32(bytes, 0);
    let valid = decompresses(&c);
    let mut link = [0u8; 192];
    let mut i: usize = 0;
    while i < 192
        invariant
            i <= 192,
            bytes@.len() >= 228,
            link@.len() == 192,
            forall|j: int| 0 <= j < i ==> link@[j] == bytes@[32 + j],
        decreases 192 - i,
    {
        link[i] = bytes[32 + i];
        i = i + 1;
    }
    assert(link@ =~= bytes@.subrange(32, 224));
    let len1 = read_len16(bytes, 224);
    let ok1 = 226 + len1 + 2 <= bytes.len();
    let len2: usize = if ok1 { read_len16(bytes, 226 + len1) } else { 0 };
    let ok2 = ok1 && 228 + len1 + len2 <= bytes.len();
    proof {
        assert forall|dc: Seq<u8>, lk: Seq<u8>, r1: Seq<u8>, r2: Seq<u8>|
            bundle_parts_ok(dc, lk, r1, r2) && #[trigger] is_prefix(bundle_layout(dc, lk, r1, r2), bytes@)
            implies dc == c@ && lk == link@ && r1.len() == len1 && ok1 && r2.len() == len2 && ok2
                && r1 == bytes@.subrange(226, 226 + len1)
                && r2 == bytes@.subrange(228 + len1, 228 + len1 + len2) by {
            let l = bundle_layout(dc, lk, r1, r2);
            lemma_len16(r1.len());
            lemma_len16(r2.len());
            lemma_prefix_range(l, bytes@, 0, 32);
            assert(l.subrange(0, 32) =~= dc);
            lemma_prefix_range(l, bytes@, 32, 224);
            assert(l.subrange(32, 224) =~= lk);
            lemma_prefix_range(l, bytes@, 224, 226);
            assert(l.subrange(224, 226) =~= len16(r1.len()));
            let o: int = 226 + r1.len() as int;
            lemma_prefix_range(l, bytes@, 226, o);
            assert(l.subrange(226, o) =~= r1);
            lemma_prefix_range(l, bytes@, o, o + 2);
            assert(l.subrange(o, o + 2) =~= len16(r2.len()));
            lemma_prefix_range(l, bytes@, o + 2, o + 2 + r2.len() as int);
            assert(l.subrange(o + 2, o + 2 + r2.len() as int) =~= r2);
        }
    }
    if !valid || !ok2 {
        return Err(());
    }
    let r1 = copy_range(bytes, 226, len1);
    let r2 = copy_range(bytes, 228 + len1, len2);
    let parsed = ParsedSenderBundle {
        delta_comm: c,
        link_raw_192: link,
        range_from_new: r1,
        range_to_new: r2,
    };
    proof {
        lemma_le_bytes_le_value(bytes@.subrange(224, 226));
        lemma_le_bytes_le_value(bytes@.subrange(226 + len1, 228 + len1));
        assert(bytes@.subrange(224, 226) =~= len16(len1 as nat));
        assert(bytes@.subrange(226 + len1, 228 + len1) =~= len16(len2 as nat));
        let l = bundle_layout(c@, link@, r1@, r2@);
        assert(bytes@.subrange(0, l.len() as int) =~= l);
    }
    Ok(parsed)
}

/// Parsing an assembled sender bundle gives back its commitment, its link
/// proof and its range proof, with an empty second range proof, whenever the
/// commitment is a valid point and the range proof is shorter than 64 KiB.
pub proof fn law_sender_bundle_roundtrip(
    delta_comm: Seq<u8>,
    link: Seq<u8>,
    range_from: Seq<u8>,
    r: Result<ParsedSenderBundle, ()>,
)
    requires
        delta_comm.len() == 32,
        link.len() == 192,
        range_from.len() < 65536,
        ristretto_decodes(delta_comm),
        bundle_parsed(sender_bundle_bytes(delta_comm, link, range_from), r),
    ensures
        r matches Ok(p) && p.delta_comm@ == delta_comm && p.link_raw_192@ == link
            && p.range_from_new@ == range_from && p.range_to_new@.len() == 0,
{
    let e = Seq::<u8>::empty();
    let b = sender_bundle_bytes(delta_comm, link, range_from);
    assert(bundle_layout(delta_comm, link, range_from, e) =~= b);
    assert(b.subrange(0, b.len() as int) =~= b);
    assert(bundle_parts_ok(delta_comm, link, range_from, e));
    assert(is_prefix(bundle_layout(delta_comm, link, range_from, e), b));
}

} // verus!
