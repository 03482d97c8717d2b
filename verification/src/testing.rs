//! Helpers for end-to-end tests of confidential transfers: the shape of a
//! generated transfer proof, stress-test counters, and assertions.
use vstd::prelude::*;
use crate::runtime_config::{pallet_index_spec, Runtime, RuntimePallet};

verus! {

/// A transfer proof generated for a test.
#[derive(Debug, Clone)]
pub struct TestTransferProof {
    pub encrypted_amount: [u8; 64],
    pub proof_bundle: Vec<u8>,
    pub delta_commitment: [u8; 32],
    pub sender_new_commitment: [u8; 32],
    pub receiver_new_commitment: [u8; 32],
}

/// Counters of a stress test.
#[derive(Debug)]
pub struct StressTestMetrics {
    pub total_transfers: u64,
    pub successful_transfers: u64,
    pub failed_transfers: u64,
    pub total_time_ms: u64,
    pub transfers_per_block: Vec<u32>,
}

impl Default for StressTestMetrics {
    fn default() -> (r: Self)
        ensures
            r.total_transfers == 0,
            r.successful_transfers == 0,
            r.failed_transfers == 0,
            r.total_time_ms == 0,
            r.transfers_per_block@.len() == 0,
    {
        StressTestMetrics {
            total_transfers: 0,
            successful_transfers: 0,
            failed_transfers: 0,
            total_time_ms: 0,
            transfers_per_block: Vec::new(),
        }
    }
}

/// `needle` occurs in `hay` at position `i`.
pub open spec fn occurs_at(hay: Seq<u8>, needle: Seq<u8>, i: int) -> bool {
    0 <= i && i + needle.len() <= hay.len() && hay.subrange(i, i + needle.len()) == needle
}

/// A `ConfidentialTransfer` event of the confidential-assets pallet from
/// `from` to `to` is encoded at position `i` of `events`: the pallet's index in
/// the runtime, the event's variant byte, the asset (a `u128`, 16 bytes),
/// `from`, `to`, and the 64-byte encrypted amount.
pub open spec fn transfer_event_at(events: Seq<u8>, from: Seq<u8>, to: Seq<u8>, i: int) -> bool {
    let f = i + 18;
    let t = f + from.len();
    &&& 0 <= i
    &&& t + to.len() + 64 <= events.len()
    &&& events[i] == pallet_index_spec(RuntimePallet::ConfidentialAssets)
    &&& events.subrange(f, t) == from
    &&& events.subrange(t, t + to.len()) == to
}

/// The encoded events hold a `ConfidentialTransfer` event from `from` to `to`.
pub open spec fn holds_transfer_event(events: Seq<u8>, from: Seq<u8>, to: Seq<u8>) -> bool {
    exists|i: int| #[trigger] transfer_event_at(events, from, to, i)
}

/// Whether `needle` occurs in `hay` at position `i`.
fn occurs_at_exec(hay: &[u8], needle: &[u8], i: usize) -> (r: bool)
    ensures
        r == occurs_at(hay@, needle@, i as int),
{
    let hay_len: usize = hay.len();
    let needle_len: usize = needle.len();
    if needle_len > hay_len || i > hay_len - needle_len {
        return false;
    }
    let mut k: usize = 0;
    while k < needle_len
        invariant
            k <= needle_len,
            needle_len == needle@.len(),
            hay_len == hay@.len(),
            i + needle_len <= hay_len,
            forall|m: int| 0 <= m < k ==> hay@[i + m] == needle@[m],
        decreases needle@.len() - k,
    {
        if hay[i + k] != needle[k] {
            assert(hay@.subrange(i as int, i + needle@.len())[k as int] != needle@[k as int]);
            return false;
        }
        k = k + 1;
    }
    assert(hay@.subrange(i as int, i + needle@.len()) =~= needle@);
    true
}

/// Whether the encoded events hold a `ConfidentialTransfer` event from
/// `from` to `to`.
pub fn events_hold_transfer(events: &[u8], from: &[u8], to: &[u8]) -> (r: bool)
    ensures
        r == holds_transfer_event(events@, from@, to@),
{
    let n: usize = events.len();
    let fl: usize = from.len();
    let tl: usize = to.len();
    if fl > n || tl > n - fl || 82 > n - fl - tl {
        assert forall|k: int| !transfer_event_at(events@, from@, to@, k) by {}
        return false;
    }
    let last: usize = n - fl - tl - 82;
    let pallet: u8 = Runtime::pallet_index(RuntimePallet::ConfidentialAssets);
    let mut i: usize = 0;
    while i <= last
        invariant
            n == events@.len(),
            fl == from@.len(),
            tl == to@.len(),
            last + fl + tl + 82 == n,
            i <= last + 1,
            pallet == pallet_index_spec(RuntimePallet::ConfidentialAssets),
            forall|k: int| 0 <= k < i ==> !transfer_event_at(events@, from@, to@, k),
        decreases last + 1 - i,
    {
        if events[i] == pallet && occurs_at_exec(events, from, i + 18) && occurs_at_exec(
            events,
            to,
            i + 18 + fl,
        ) {
            assert(transfer_event_at(events@, from@, to@, i as int));
            return true;
        }
        i = i + 1;
    }
    assert forall|k: int| !transfer_event_at(events@, from@, to@, k) by {
        if 0 <= k && k < i {
        }
    }
    false
}

/// Checks that a `ConfidentialTransfer` event from `expected_from` to
/// `expected_to` was emitted: the encoded events must hold one (a caller tests
/// that first with `events_hold_transfer`).
pub fn assert_transfer_event_emitted(events: &[u8], expected_from: &[u8], expected_to: &[u8])
    requires
        holds_transfer_event(events@, expected_from@, expected_to@),
{
}


/// Checks that a balance commitment changed; callers pass two different
/// commitments (equal ones are a failed test).
pub fn assert_commitment_changed(old: &[u8; 32], new: &[u8; 32])
    requires
        old@ != new@,
{
}

} // verus!
