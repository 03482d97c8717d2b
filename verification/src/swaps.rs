//! Confidential-for-confidential swap intents. A maker opens an intent that
//! names the counterparty and carries the maker's leg; the counterparty
//! accepts it with the other leg, and both legs move atomically through the
//! backend. An intent may bind the taker's leg to a hash of its terms.
//!
//! As in the bridge, each operation takes the backend's answers as arguments
//! and is a step of a state machine; `accept_plan` says what to ask.
use vstd::prelude::*;
use std::collections::HashMap;
use crate::bytes::{bytes32_eq, le_bytes, le_bytes_vec, push_all};
use crate::escrow::EncryptedTransfer;
use crate::primitives::{AccountId, AssetId, EncryptedAmount};
use crate::hashing::{blake2_256, blake2_256_of};

verus! {

broadcast use vstd::std_specs::hash::group_hash_axioms;

/// A maker's intent.
#[derive(Debug)]
pub struct SwapIntentCc {
    pub proposer: AccountId,
    pub counterparty: AccountId,
    /// Asset the maker sends.
    pub asset_a: AssetId,
    /// Asset the taker sends.
    pub asset_b: AssetId,
    /// Maker ciphertext (asset A, maker to counterparty).
    pub a_to_b_ct: EncryptedAmount,
    /// Maker proof.
    pub a_to_b_proof: Vec<u8>,
    /// Hash binding the taker leg; all zeros binds nothing.
    pub terms_hash: [u8; 32],
}

/// Events of the swap pallet.
#[derive(Clone, Copy, Debug, PartialEq, Eq)]
pub enum SwapEvent {
    CcOpened { id: u64, proposer: AccountId, counterparty: AccountId, asset_a: AssetId, asset_b: AssetId },
    CcCanceled { id: u64, proposer: AccountId },
    CcExecuted { id: u64, proposer: AccountId, counterparty: AccountId },
}

/// Errors of the swap pallet.
#[derive(Clone, Copy, Debug, PartialEq, Eq)]
pub enum SwapError {
    UnknownSwap,
    NotProposer,
    NotCounterparty,
    /// The taker leg does not match the maker's terms hash.
    TermsMismatch,
    BackendError,
    /// The call is not signed.
    BadOrigin,
}

/// The swap pallet's storage, as the contracts see it.
pub struct SwapsView {
    pub next_cc_id: u64,
    pub swaps: Map<u64, SwapIntentCc>,
}

/// The swap pallet.
pub struct Swaps {
    next_cc_id: u64,
    swaps: HashMap<u64, SwapIntentCc>,
}

impl View for Swaps {
    type V = SwapsView;

    closed spec fn view(&self) -> SwapsView {
        SwapsView { next_cc_id: self.next_cc_id, swaps: self.swaps@ }
    }
}

/// The bytes the terms hash covers: the taker's asset (SCALE, 16 bytes) and
/// the taker's ciphertext.
pub open spec fn taker_leg_bytes(asset_b: AssetId, ct: Seq<u8>) -> Seq<u8> {
    le_bytes(asset_b as int, 16) + ct
}

/// The all-zero hash, which binds no terms.
pub open spec fn zero_hash() -> Seq<u8> {
    Seq::new(32, |i: int| 0u8)
}

/// The stored terms hash: the given one, or all zeros.
pub open spec fn terms_or_zero(t: Option<[u8; 32]>) -> [u8; 32] {
    match t {
        Some(h) => h,
        None => vstd::array::spec_array_fill_for_copy_type::<u8, 32>(0u8),
    }
}

/// The counter after taking an id (it saturates).
pub open spec fn bump(n: u64) -> u64 {
    if n == u64::MAX { n } else { (n + 1) as u64 }
}

/// The intent an open stores.
pub open spec fn new_intent(
    proposer: AccountId,
    counterparty: AccountId,
    asset_a: AssetId,
    asset_b: AssetId,
    ct: EncryptedAmount,
    proof: Vec<u8>,
    terms: [u8; 32],
) -> SwapIntentCc {
    SwapIntentCc {
        proposer,
        counterparty,
        asset_a,
        asset_b,
        a_to_b_ct: ct,
        a_to_b_proof: proof,
        terms_hash: terms,
    }
}

/// Opening an intent: a fresh id, the intent stored under it.
pub open spec fn open_step(
    s: SwapsView,
    maker: AccountId,
    intent: SwapIntentCc,
) -> (SwapsView, u64) {
    (SwapsView { next_cc_id: bump(s.next_cc_id), swaps: s.swaps.insert(s.next_cc_id, intent) }, s.next_cc_id)
}

/// Why executing intent `id` for `who` with a taker leg hashing to
/// `leg_hash` fails before the backend is asked, if it does.
pub open spec fn exec_check(s: SwapsView, who: AccountId, id: u64, leg_hash: Seq<u8>) -> Option<SwapError> {
    if !s.swaps.contains_key(id) {
        Some(SwapError::UnknownSwap)
    } else if s.swaps[id].counterparty@ != who@ {
        Some(SwapError::NotCounterparty)
    } else if s.swaps[id].terms_hash@ != zero_hash() && leg_hash != s.swaps[id].terms_hash@ {
        Some(SwapError::TermsMismatch)
    } else {
        None
    }
}

/// Executing intent `id` (atomically): on success the intent is consumed,
/// on any failure nothing changes.
pub open spec fn exec_step(
    s: SwapsView,
    who: AccountId,
    id: u64,
    leg_hash: Seq<u8>,
    leg1_ok: bool,
    leg2_ok: bool,
) -> (SwapsView, Result<SwapEvent, SwapError>) {
    match exec_check(s, who, id, leg_hash) {
        Some(e) => (s, Err(e)),
        None => if !leg1_ok || !leg2_ok {
            (s, Err(SwapError::BackendError))
        } else {
            (
                SwapsView { next_cc_id: s.next_cc_id, swaps: s.swaps.remove(id) },
                Ok(SwapEvent::CcExecuted { id, proposer: s.swaps[id].proposer, counterparty: who }),
            )
        },
    }
}

/// Cancelling an intent: only the proposer may cancel, and a refused
/// cancel changes nothing.
pub open spec fn cancel_step(s: SwapsView, who: AccountId, id: u64) -> (SwapsView, Result<SwapEvent, SwapError>) {
    if !s.swaps.contains_key(id) {
        (s, Err(SwapError::UnknownSwap))
    } else if s.swaps[id].proposer@ != who@ {
        (s, Err(SwapError::NotProposer))
    } else {
        (
            SwapsView { next_cc_id: s.next_cc_id, swaps: s.swaps.remove(id) },
            Ok(SwapEvent::CcCanceled { id, proposer: who }),
        )
    }
}

/// Copies a byte vector.
fn copy_bytes(v: &Vec<u8>) -> (r: Vec<u8>)
    ensures
        r@ == v@,
{
    let mut out: Vec<u8> = Vec::new();
    push_all(&mut out, v.as_slice());
    out
}

/// A map from which a key was taken and put back is the map it was.
proof fn lemma_put_back(m: Map<u64, SwapIntentCc>, id: u64)
    requires
        m.contains_key(id),
    ensures
        m.remove(id).insert(id, m[id]) == m,
{
    assert(m.remove(id).insert(id, m[id]) =~= m);
}

/// The digest that binds a taker leg.
pub fn taker_leg_hash(asset_b: AssetId, b_to_a_ct: &EncryptedAmount) -> (r: [u8; 32])
    ensures
        r@ == blake2_256_of(taker_leg_bytes(asset_b, b_to_a_ct@)),
{
    let mut enc = le_bytes_vec(asset_b, 16);
    push_all(&mut enc, b_to_a_ct);
    blake2_256(enc.as_slice())
}

/// Whether `h` is all zeros.
fn is_zero_hash(h: &[u8; 32]) -> (r: bool)
    ensures
        r == (h@ == zero_hash()),
{
    let z = [0u8; 32];
    assert(z@ =~= zero_hash());
    bytes32_eq(h, &z)
}

impl Swaps {
    /// A swap pallet with empty storage.
    pub fn new() -> (r: Self)
        ensures
            r@.next_cc_id == 0,
            r@.swaps == Map::<u64, SwapIntentCc>::empty(),
    {
        Swaps { next_cc_id: 0, swaps: HashMap::new() }
    }

    /// The id the next intent gets.
    pub fn next_cc_id(&self) -> (r: u64)
        ensures
            r == self@.next_cc_id,
    {
        self.next_cc_id
    }

    /// Whether intent `id` is open.
    pub fn is_open(&self, id: u64) -> (r: bool)
        ensures
            r == self@.swaps.contains_key(id),
    {
        self.swaps.contains_key(&id)
    }

    /// The maker's side of intent `id`, if open: proposer, counterparty,
    /// assets and maker ciphertext.
    pub fn intent_terms(&self, id: u64) -> (r: Option<(AccountId, AccountId, AssetId, AssetId, EncryptedAmount)>)
        ensures
            match r {
                Some((p, c, a, b, ct)) => self@.swaps.contains_key(id) && p == self@.swaps[id].proposer
                    && c == self@.swaps[id].counterparty && a == self@.swaps[id].asset_a
                    && b == self@.swaps[id].asset_b && ct == self@.swaps[id].a_to_b_ct,
                None => !self@.swaps.contains_key(id),
            },
    {
        match self.swaps.get(&id) {
            Some(i) => Some((i.proposer, i.counterparty, i.asset_a, i.asset_b, i.a_to_b_ct)),
            None => None,
        }
    }

    /// Takes the next id (saturating).
    fn take_id(&mut self) -> (r: u64)
        ensures
            r == old(self)@.next_cc_id,
            final(self)@.next_cc_id == bump(r),
            final(self)@.swaps == old(self)@.swaps,
    {
        let id = self.next_cc_id;
        self.next_cc_id = id.saturating_add(1);
        id
    }

    /// Opens an intent for `maker` (the `open_intent_cc` entry point).
    pub fn open_intent_cc(
        &mut self,
        maker: &AccountId,
        counterparty: &AccountId,
        asset_a: AssetId,
        asset_b: AssetId,
        a_to_b_ct: EncryptedAmount,
        a_to_b_proof: Vec<u8>,
        terms_hash: Option<[u8; 32]>,
    ) -> (r: (u64, SwapEvent))
        ensures
            ({
                let terms = terms_or_zero(terms_hash);
                let intent = new_intent(*maker, *counterparty, asset_a, asset_b, a_to_b_ct, a_to_b_proof, terms);
                &&& (final(self)@, r.0) == open_step(old(self)@, *maker, intent)
                &&& r.1 == SwapEvent::CcOpened {
                    id: r.0,
                    proposer: *maker,
                    counterparty: *counterparty,
                    asset_a,
                    asset_b,
                }
            }),
    {
        let id = self.take_id();
        let th = match terms_hash {
            Some(h) => h,
            None => [0u8; 32],
        };
        self.swaps.insert(
            id,
            SwapIntentCc {
                proposer: *maker,
                counterparty: *counterparty,
                asset_a,
                asset_b,
                a_to_b_ct,
                a_to_b_proof,
                terms_hash: th,
            },
        );
        (id, SwapEvent::CcOpened { id, proposer: *maker, counterparty: *counterparty, asset_a, asset_b })
    }

    /// Opens an intent for the signed caller (the `open_swap_cc` extrinsic);
    /// `None` as caller is an unsigned call.
    pub fn open_swap_cc(
        &mut self,
        caller: Option<AccountId>,
        counterparty: AccountId,
        asset_a: AssetId,
        asset_b: AssetId,
        a_to_b_ct: EncryptedAmount,
        a_to_b_proof: Vec<u8>,
        terms_hash: Option<[u8; 32]>,
    ) -> (r: Result<SwapEvent, SwapError>)
        ensures
            match caller {
                None => r == Err::<SwapEvent, SwapError>(SwapError::BadOrigin) && final(self)@ == old(self)@,
                Some(maker) => {
                    let terms = terms_or_zero(terms_hash);
                    let intent = new_intent(maker, counterparty, asset_a, asset_b, a_to_b_ct, a_to_b_proof, terms);
                    let (s1, id) = open_step(old(self)@, maker, intent);
                    &&& final(self)@ == s1
                    &&& r == Ok::<SwapEvent, SwapError>(SwapEvent::CcOpened {
                        id,
                        proposer: maker,
                        counterparty,
                        asset_a,
                        asset_b,
                    })
                },
            },
    {
        match caller {
            None => Err(SwapError::BadOrigin),
            Some(maker) => {
                let (_, ev) = self.open_intent_cc(&maker, &counterparty, asset_a, asset_b, a_to_b_ct, a_to_b_proof, terms_hash);
                Ok(ev)
            },
        }
    }

    /// Cancels intent `id` for its maker (the `cancel_swap_cc` extrinsic,
    /// which is atomic: a refused cancel changes nothing).
    pub fn cancel_swap_cc(&mut self, caller: Option<AccountId>, id: u64) -> (r: Result<SwapEvent, SwapError>)
        ensures
            match caller {
                None => r == Err::<SwapEvent, SwapError>(SwapError::BadOrigin) && final(self)@ == old(self)@,
                Some(who) => (final(self)@, r) == cancel_step(old(self)@, who, id),
            },
    {
        let who = match caller {
            None => return Err(SwapError::BadOrigin),
            Some(w) => w,
        };
        match self.swaps.remove(&id) {
            None => {
                proof {
                    assert(old(self)@.swaps.remove(id) =~= old(self)@.swaps);
                }
                Err(SwapError::UnknownSwap)
            },
            Some(intent) => {
                if !bytes32_eq(&intent.proposer, &who) {
                    proof {
                        lemma_put_back(old(self)@.swaps, id);
                    }
                    self.swaps.insert(id, intent);
                    Err(SwapError::NotProposer)
                } else {
                    Ok(SwapEvent::CcCanceled { id, proposer: who })
                }
            },
        }
    }

    /// Cancels intent `id` for `maker` (the `cancel_intent_cc` entry point).
    /// Only the maker may cancel: a refused cancel leaves the intents as they
    /// were.
    pub fn cancel_intent_cc(&mut self, maker: &AccountId, id: u64) -> (r: Result<SwapEvent, SwapError>)
        ensures
            (final(self)@, r) == cancel_step(old(self)@, *maker, id),
    {
        match self.swaps.remove(&id) {
            None => {
                proof {
                    assert(old(self)@.swaps.remove(id) =~= old(self)@.swaps);
                }
                Err(SwapError::UnknownSwap)
            },
            Some(intent) => {
                if !bytes32_eq(&intent.proposer, maker) {
                    proof {
                        lemma_put_back(old(self)@.swaps, id);
                    }
                    self.swaps.insert(id, intent);
                    Err(SwapError::NotProposer)
                } else {
                    Ok(SwapEvent::CcCanceled { id, proposer: *maker })
                }
            },
        }
    }

    /// What executing intent `id` asks of the backend: the maker leg, then
    /// the taker leg, each as a move with its proof. Fails as the execution
    /// does before it reaches the backend.
    pub fn accept_plan(&self, who: &AccountId, id: u64, b_to_a_ct: &EncryptedAmount, b_to_a_proof: &Vec<u8>, leg_hash: &[u8; 32]) -> (r: Result<((EncryptedTransfer, Vec<u8>), (EncryptedTransfer, Vec<u8>)), SwapError>)
        ensures
            match r {
                Ok(((t1, p1), (t2, p2))) => {
                    let i = self@.swaps[id];
                    &&& exec_check(self@, *who, id, leg_hash@) is None
                    &&& t1 == EncryptedTransfer { asset: i.asset_a, from: i.proposer, to: *who, encrypted_amount: i.a_to_b_ct }
                    &&& p1@ == i.a_to_b_proof@
                    &&& t2 == EncryptedTransfer { asset: i.asset_b, from: *who, to: i.proposer, encrypted_amount: *b_to_a_ct }
                    &&& p2@ == b_to_a_proof@
                },
                Err(e) => exec_check(self@, *who, id, leg_hash@) == Some(e),
            },
    {
        let intent = match self.swaps.get(&id) {
            None => return Err(SwapError::UnknownSwap),
            Some(i) => i,
        };
        if !bytes32_eq(&intent.counterparty, who) {
            return Err(SwapError::NotCounterparty);
        }
        if !is_zero_hash(&intent.terms_hash) && !bytes32_eq(leg_hash, &intent.terms_hash) {
            return Err(SwapError::TermsMismatch);
        }
        let t1 = EncryptedTransfer {
            asset: intent.asset_a,
            from: intent.proposer,
            to: *who,
            encrypted_amount: intent.a_to_b_ct,
        };
        let t2 = EncryptedTransfer {
            asset: intent.asset_b,
            from: *who,
            to: intent.proposer,
            encrypted_amount: *b_to_a_ct,
        };
        Ok(((t1, copy_bytes(&intent.a_to_b_proof)), (t2, copy_bytes(b_to_a_proof))))
    }

    /// Executes intent `id` for `who`, given the digest of the taker leg and
    /// whether the backend moved each leg. Atomic: any failure changes
    /// nothing. Returns the event and the maker's ciphertext that `who`
    /// received.
    pub fn execute_with_hash(&mut self, who: &AccountId, id: u64, leg_hash: &[u8; 32], leg1_ok: bool, leg2_ok: bool) -> (r: Result<(SwapEvent, EncryptedAmount), SwapError>)
        ensures
            final(self)@ == exec_step(old(self)@, *who, id, leg_hash@, leg1_ok, leg2_ok).0,
            match r {
                Ok((ev, ct)) => exec_step(old(self)@, *who, id, leg_hash@, leg1_ok, leg2_ok).1 == Ok::<SwapEvent, SwapError>(ev)
                    && ct == old(self)@.swaps[id].a_to_b_ct,
                Err(e) => exec_step(old(self)@, *who, id, leg_hash@, leg1_ok, leg2_ok).1 == Err::<SwapEvent, SwapError>(e),
            },
    {
        let intent = match self.swaps.remove(&id) {
            None => {
                proof {
                    assert(old(self)@.swaps.remove(id) =~= old(self)@.swaps);
                }
                return Err(SwapError::UnknownSwap);
            },
            Some(i) => i,
        };
        proof {
            lemma_put_back(old(self)@.swaps, id);
        }
        if !bytes32_eq(&intent.counterparty, who) {
            self.swaps.insert(id, intent);
            return Err(SwapError::NotCounterparty);
        }
        if !is_zero_hash(&intent.terms_hash) && !bytes32_eq(leg_hash, &intent.terms_hash) {
            self.swaps.insert(id, intent);
            return Err(SwapError::TermsMismatch);
        }
        if !leg1_ok || !leg2_ok {
            self.swaps.insert(id, intent);
            return Err(SwapError::BackendError);
        }
        Ok((SwapEvent::CcExecuted { id, proposer: intent.proposer, counterparty: *who }, intent.a_to_b_ct))
    }

    /// Executes intent `id` for `who` (the `execute_intent_cc` entry point),
    /// hashing the taker leg to check the maker's terms.
    pub fn execute_intent_cc(&mut self, who: &AccountId, id: u64, b_to_a_ct: &EncryptedAmount, leg1_ok: bool, leg2_ok: bool) -> (r: Result<(u64, EncryptedAmount, SwapEvent), SwapError>)
        ensures
            ({
                let h = blake2_256_of(taker_leg_bytes(old(self)@.swaps[id].asset_b, b_to_a_ct@));
                &&& final(self)@ == exec_step(old(self)@, *who, id, h, leg1_ok, leg2_ok).0
                &&& match r {
                    Ok((rid, ct, ev)) => rid == id && ct == old(self)@.swaps[id].a_to_b_ct
                        && exec_step(old(self)@, *who, id, h, leg1_ok, leg2_ok).1 == Ok::<SwapEvent, SwapError>(ev),
                    Err(e) => exec_step(old(self)@, *who, id, h, leg1_ok, leg2_ok).1 == Err::<SwapEvent, SwapError>(e),
                }
            }),
    {
        let asset_b = match self.swaps.get(&id) {
            None => return Err(SwapError::UnknownSwap),
            Some(i) => i.asset_b,
        };
        let h = taker_leg_hash(asset_b, b_to_a_ct);
        match self.execute_with_hash(who, id, &h, leg1_ok, leg2_ok) {
            Ok((ev, ct)) => Ok((id, ct, ev)),
            Err(e) => Err(e),
        }
    }

    /// Accepts intent `id` as the signed caller (the `accept_swap_cc`
    /// extrinsic).
    pub fn accept_swap_cc(&mut self, caller: Option<AccountId>, id: u64, b_to_a_ct: &EncryptedAmount, leg1_ok: bool, leg2_ok: bool) -> (r: Result<SwapEvent, SwapError>)
        ensures
            match caller {
                None => r == Err::<SwapEvent, SwapError>(SwapError::BadOrigin) && final(self)@ == old(self)@,
                Some(who) => {
                    let h = blake2_256_of(taker_leg_bytes(old(self)@.swaps[id].asset_b, b_to_a_ct@));
                    (final(self)@, r) == exec_step(old(self)@, who, id, h, leg1_ok, leg2_ok)
                },
            },
    {
        let who = match caller {
            None => return Err(SwapError::BadOrigin),
            Some(w) => w,
        };
        match self.execute_intent_cc(&who, id, b_to_a_ct, leg1_ok, leg2_ok) {
            Ok((_, _, ev)) => Ok(ev),
            Err(e) => Err(e),
        }
    }
}

/// Executing an intent is atomic: if any check or either leg fails,
/// nothing changes; on success exactly that intent is consumed.
pub proof fn law_exec_atomic(s: SwapsView, who: AccountId, id: u64, h: Seq<u8>, ok1: bool, ok2: bool)
    ensures
        exec_step(s, who, id, h, ok1, ok2).1 is Err ==> exec_step(s, who, id, h, ok1, ok2).0 == s,
        exec_step(s, who, id, h, ok1, ok2).1 is Ok ==> {
            &&& ok1 && ok2
            &&& exec_step(s, who, id, h, ok1, ok2).0.swaps == s.swaps.remove(id)
            &&& exec_step(s, who, id, h, ok1, ok2).0.next_cc_id == s.next_cc_id
        },
{
}

/// Only the named counterparty can execute an intent, and an intent with a
/// terms hash executes only with a taker leg that hashes to it.
pub proof fn law_exec_authority(s: SwapsView, who: AccountId, id: u64, h: Seq<u8>, ok1: bool, ok2: bool)
    requires
        exec_step(s, who, id, h, ok1, ok2).1 is Ok,
    ensures
        s.swaps.contains_key(id),
        s.swaps[id].counterparty@ == who@,
        s.swaps[id].terms_hash@ != zero_hash() ==> h == s.swaps[id].terms_hash@,
{
}

/// Only the intent's proposer can cancel it: a cancel that succeeds was made
/// by the proposer and removes exactly that intent; anyone else is refused
/// with `NotProposer` and nothing changes.
pub proof fn law_cancel_only_by_proposer(s: SwapsView, who: AccountId, id: u64)
    ensures
        cancel_step(s, who, id).1 is Ok ==> {
            &&& s.swaps.contains_key(id)
            &&& s.swaps[id].proposer@ == who@
            &&& cancel_step(s, who, id).0.swaps == s.swaps.remove(id)
            &&& cancel_step(s, who, id).0.next_cc_id == s.next_cc_id
        },
        s.swaps.contains_key(id) && s.swaps[id].proposer@ != who@ ==> cancel_step(s, who, id) == (
            s,
            Err::<SwapEvent, SwapError>(SwapError::NotProposer),
        ),
        !s.swaps.contains_key(id) ==> cancel_step(s, who, id) == (s, Err::<SwapEvent, SwapError>(
            SwapError::UnknownSwap,
        )),
        s.swaps.contains_key(id) && s.swaps[id].proposer@ == who@ ==> cancel_step(s, who, id).1 == Ok::<
            SwapEvent,
            SwapError,
        >(SwapEvent::CcCanceled { id, proposer: who }),
{
}

/// An intent is consumed at most once: after it executed or was cancelled,
/// executing or cancelling it again answers `UnknownSwap`.
pub proof fn law_swap_consumed_once(
    s: SwapsView,
    who: AccountId,
    who2: AccountId,
    id: u64,
    h: Seq<u8>,
    h2: Seq<u8>,
    ok1: bool,
    ok2: bool,
)
    ensures
        exec_step(s, who, id, h, ok1, ok2).1 is Ok ==> {
            let s1 = exec_step(s, who, id, h, ok1, ok2).0;
            &&& exec_step(s1, who2, id, h2, true, true).1 == Err::<SwapEvent, SwapError>(SwapError::UnknownSwap)
            &&& cancel_step(s1, who2, id).1 == Err::<SwapEvent, SwapError>(SwapError::UnknownSwap)
        },
        cancel_step(s, who, id).1 is Ok ==> {
            let s1 = cancel_step(s, who, id).0;
            &&& exec_step(s1, who2, id, h2, true, true).1 == Err::<SwapEvent, SwapError>(SwapError::UnknownSwap)
            &&& cancel_step(s1, who2, id).1 == Err::<SwapEvent, SwapError>(SwapError::UnknownSwap)
        },
{
}

/// An intent opened without terms is executed by its counterparty whenever
/// the backend moves both legs, whatever the taker leg hashes to.
pub proof fn law_open_then_execute(
    s: SwapsView,
    maker: AccountId,
    counterparty: AccountId,
    asset_a: AssetId,
    asset_b: AssetId,
    ct: EncryptedAmount,
    proof: Vec<u8>,
    h: Seq<u8>,
)
    ensures
        ({
            let intent = new_intent(maker, counterparty, asset_a, asset_b, ct, proof, terms_or_zero(None));
            let (s1, id) = open_step(s, maker, intent);
            exec_step(s1, counterparty, id, h, true, true).1 == Ok::<SwapEvent, SwapError>(
                SwapEvent::CcExecuted { id, proposer: maker, counterparty },
            )
        }),
{
    let z = terms_or_zero(None);
    assert(z@ =~= zero_hash());
}

} // verus!
