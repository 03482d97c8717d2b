//! The confidential bridge between parachains. The source chain escrows a
//! ciphertext and sends a packet to the destination; the transfer is later
//! finalized by burning the escrow (success) or refunding it (timeout or
//! cancel). The destination mints what the packet carries.
//!
//! Each operation is a step of a state machine: it takes the state, the
//! call's arguments and what the outside parties (messenger, escrow,
//! backend) answered, and gives the next state and the result. A failed step
//! leaves the state as it was. The `*_plan` functions say what to ask the
//! outside parties.
use vstd::prelude::*;
use std::collections::HashMap;
use crate::primitives::{
    AccountId, AssetId, BackendFailure, BlockNumber, BridgePacket, EncryptedAmount, Origin,
    TransferId, MAX_PROOF_LEN, packet_bytes, packet_decoded,
};
use crate::escrow::{into_account_truncating, pallet_account};

verus! {

broadcast use vstd::std_specs::hash::group_hash_axioms;

/// Ledger entry of an outbound transfer.
#[derive(Clone, Copy, Debug, PartialEq, Eq)]
pub struct PendingTransfer {
    pub from: AccountId,
    pub dest_para: u32,
    pub dest_account: AccountId,
    pub asset: AssetId,
    pub encrypted_amount: EncryptedAmount,
    /// Block from which the sender may cancel and refund.
    pub deadline: BlockNumber,
    /// Set once a finalize path ran.
    pub completed: bool,
}

/// Events of the bridge.
#[derive(Clone, Copy, Debug, PartialEq, Eq)]
pub enum BridgeEvent {
    OutboundTransferInitiated { id: TransferId, from: AccountId, dest_para: u32, asset: AssetId },
    OutboundTransferConfirmed { id: TransferId, asset: AssetId },
    OutboundTransferRefunded { id: TransferId, asset: AssetId },
    InboundTransferExecuted { id: TransferId, asset: AssetId, minted: EncryptedAmount },
}

/// Errors of the bridge.
#[derive(Clone, Copy, Debug, PartialEq, Eq)]
pub enum BridgeError {
    NotFound,
    NotExpired,
    NotSender,
    NoSelfBridge,
    AlreadyCompleted,
    MessengerFailed,
    BackendError,
    /// The origin is not the one the call needs.
    BadOrigin,
    /// The backend refused to mint; its own error is passed on.
    Backend(BackendFailure),
}

/// Configuration of the bridge.
#[derive(Clone, Copy, Debug)]
pub struct BridgeConfig {
    /// This chain's parachain id.
    pub self_para_id: u32,
    /// Blocks until a pending transfer may be cancelled by its sender.
    pub default_timeout: BlockNumber,
    /// Identifier from which the burn account is derived.
    pub burn_pallet_id: [u8; 8],
}

/// The bridge's storage, as the contracts see it.
pub struct BridgeView {
    pub config: BridgeConfig,
    pub next_transfer_id: TransferId,
    pub pending: Map<TransferId, PendingTransfer>,
}

/// The bridge pallet: configuration and storage.
pub struct Bridge {
    config: BridgeConfig,
    next_transfer_id: TransferId,
    pending: HashMap<TransferId, PendingTransfer>,
}

impl View for Bridge {
    type V = BridgeView;

    closed spec fn view(&self) -> BridgeView {
        BridgeView {
            config: self.config,
            next_transfer_id: self.next_transfer_id,
            pending: self.pending@,
        }
    }
}

/// The account into which confirmed transfers are released and burned.
pub open spec fn burn_account_spec(cfg: BridgeConfig) -> Seq<u8> {
    pallet_account(cfg.burn_pallet_id@)
}

/// The ledger entry a successful send records.
pub open spec fn new_pending(
    who: AccountId,
    dest_para: u32,
    dest_account: AccountId,
    asset: AssetId,
    ct: EncryptedAmount,
    deadline: BlockNumber,
) -> PendingTransfer {
    PendingTransfer {
        from: who,
        dest_para,
        dest_account,
        asset,
        encrypted_amount: ct,
        deadline,
        completed: false,
    }
}

/// The deadline of a transfer sent at `now`: `timeout` blocks later, on the
/// block number's wrapping arithmetic.
pub open spec fn deadline_after(now: BlockNumber, timeout: BlockNumber) -> BlockNumber {
    if now + timeout > u32::MAX {
        (now + timeout - 0x1_0000_0000) as BlockNumber
    } else {
        (now + timeout) as BlockNumber
    }
}

/// `send_confidential` as a step: checks, then the escrow's answer (the
/// amount is escrowed first), then the messenger's; on success a fresh id and
/// a pending entry.
pub open spec fn send_step(
    s: BridgeView,
    origin: Origin,
    now: BlockNumber,
    dest_para: u32,
    dest_account: AccountId,
    asset: AssetId,
    ct: EncryptedAmount,
    messenger_ok: bool,
    escrow_ok: bool,
) -> (BridgeView, Result<BridgeEvent, BridgeError>) {
    match origin {
        Origin::Signed(who) => {
            if s.config.self_para_id == dest_para {
                (s, Err(BridgeError::NoSelfBridge))
            } else if !escrow_ok {
                (s, Err(BridgeError::BackendError))
            } else if !messenger_ok {
                (s, Err(BridgeError::MessengerFailed))
            } else {
                let id = s.next_transfer_id;
                let deadline = deadline_after(now, s.config.default_timeout);
                (
                    BridgeView {
                        config: s.config,
                        next_transfer_id: (if id == u64::MAX { 0 } else { (id + 1) as u64 }),
                        pending: s.pending.insert(
                            id,
                            new_pending(who, dest_para, dest_account, asset, ct, deadline),
                        ),
                    },
                    Ok(BridgeEvent::OutboundTransferInitiated { id, from: who, dest_para, asset }),
                )
            }
        },
        _ => (s, Err(BridgeError::BadOrigin)),
    }
}

/// `confirm_success` as a step: the escrow release to the burn account, then
/// the burn; on success the entry is cleared. A failed release answers
/// `AlreadyCompleted` and a failed burn `NotFound`, as the pallet does.
pub open spec fn confirm_step(
    s: BridgeView,
    origin: Origin,
    id: TransferId,
    release_ok: bool,
    burn_ok: bool,
) -> (BridgeView, Result<BridgeEvent, BridgeError>) {
    if origin != Origin::Root {
        (s, Err(BridgeError::BadOrigin))
    } else if !s.pending.contains_key(id) {
        (s, Err(BridgeError::NotFound))
    } else if s.pending[id].completed {
        (s, Err(BridgeError::AlreadyCompleted))
    } else if !release_ok {
        (s, Err(BridgeError::AlreadyCompleted))
    } else if !burn_ok {
        (s, Err(BridgeError::NotFound))
    } else {
        (
            BridgeView {
                config: s.config,
                next_transfer_id: s.next_transfer_id,
                pending: s.pending.remove(id),
            },
            Ok(BridgeEvent::OutboundTransferConfirmed { id, asset: s.pending[id].asset }),
        )
    }
}

/// `cancel_and_refund` as a step: the sender after the deadline, or the
/// trusted origin at any time, refunds the escrow; the entry is cleared.
pub open spec fn cancel_step(
    s: BridgeView,
    origin: Origin,
    now: BlockNumber,
    id: TransferId,
    refund_ok: bool,
) -> (BridgeView, Result<BridgeEvent, BridgeError>) {
    if !s.pending.contains_key(id) {
        (s, Err(BridgeError::NotFound))
    } else if s.pending[id].completed {
        (s, Err(BridgeError::AlreadyCompleted))
    } else {
        let rec = s.pending[id];
        let auth: Result<(), BridgeError> = match origin {
            Origin::Signed(who) => if who != rec.from {
                Err(BridgeError::NotSender)
            } else if now < rec.deadline {
                Err(BridgeError::NotExpired)
            } else {
                Ok(())
            },
            Origin::Root => Ok(()),
            Origin::Other => Err(BridgeError::BadOrigin),
        };
        match auth {
            Err(e) => (s, Err(e)),
            Ok(_) => if !refund_ok {
                (s, Err(BridgeError::BackendError))
            } else {
                (
                    BridgeView {
                        config: s.config,
                        next_transfer_id: s.next_transfer_id,
                        pending: s.pending.remove(id),
                    },
                    Ok(BridgeEvent::OutboundTransferRefunded { id, asset: rec.asset }),
                )
            },
        }
    }
}

impl Bridge {
    /// A bridge with empty storage.
    pub fn new(config: BridgeConfig) -> (r: Self)
        ensures
            r@.config == config,
            r@.next_transfer_id == 0,
            r@.pending == Map::<TransferId, PendingTransfer>::empty(),
    {
        Bridge { config, next_transfer_id: 0, pending: HashMap::new() }
    }

    /// The bridge's configuration.
    pub fn config(&self) -> (r: BridgeConfig)
        ensures
            r == self@.config,
    {
        self.config
    }

    /// The id the next outbound transfer gets.
    pub fn next_transfer_id(&self) -> (r: TransferId)
        ensures
            r == self@.next_transfer_id,
    {
        self.next_transfer_id
    }

    /// The ledger entry of transfer `id`.
    pub fn pending(&self, id: TransferId) -> (r: Option<PendingTransfer>)
        ensures
            r == (if self@.pending.contains_key(id) {
                Some(self@.pending[id])
            } else {
                None::<PendingTransfer>
            }),
    {
        match self.pending.get(&id) {
            Some(rec) => Some(*rec),
            None => None,
        }
    }

    /// The account into which confirmed transfers are released and burned.
    pub fn burn_account(&self) -> (r: AccountId)
        ensures
            r@ == burn_account_spec(self@.config),
    {
        into_account_truncating(&self.config.burn_pallet_id)
    }

    /// Takes the next transfer id and advances the counter (wrapping).
    fn new_transfer_id(&mut self) -> (r: TransferId)
        ensures
            r == old(self)@.next_transfer_id,
            final(self)@.next_transfer_id == (if r == u64::MAX { 0 } else { (r + 1) as u64 }),
            final(self)@.pending == old(self)@.pending,
            final(self)@.config == old(self)@.config,
    {
        let id = self.next_transfer_id;
        self.next_transfer_id = id.wrapping_add(1);
        id
    }

    /// What `send_confidential` asks of the outside: the id the transfer will
    /// get and the packet to send to `dest_para` once the amount is escrowed.
    /// Fails as the send does before it reaches the escrow.
    pub fn send_plan(
        &self,
        origin: Origin,
        dest_para: u32,
        dest_account: AccountId,
        asset: AssetId,
        encrypted_amount: EncryptedAmount,
        accept_envelope: Vec<u8>,
    ) -> (r: Result<(TransferId, Vec<u8>), BridgeError>)
        requires
            accept_envelope@.len() <= MAX_PROOF_LEN,
        ensures
            match r {
                Ok((id, payload)) => {
                    &&& origin is Signed
                    &&& self@.config.self_para_id != dest_para
                    &&& id == self@.next_transfer_id
                    &&& payload@ == packet_bytes(
                        BridgePacket {
                            transfer_id: id,
                            dest_account,
                            asset,
                            encrypted_amount,
                            accept_envelope,
                        },
                    )
                },
                Err(e) => (origin is Signed ==> self@.config.self_para_id == dest_para) && e == (
                if origin is Signed {
                    BridgeError::NoSelfBridge
                } else {
                    BridgeError::BadOrigin
                }),
            },
    {
        match origin {
            Origin::Signed(_) => {},
            _ => return Err(BridgeError::BadOrigin),
        }
        if self.config.self_para_id == dest_para {
            return Err(BridgeError::NoSelfBridge);
        }
        let id = self.next_transfer_id;
        let packet = BridgePacket {
            transfer_id: id,
            dest_account,
            asset,
            encrypted_amount,
            accept_envelope,
        };
        let payload = packet.encode();
        Ok((id, payload))
    }

    /// Starts an outbound transfer, given whether the escrow locked the
    /// amount and then whether the messenger accepted the packet of
    /// `send_plan`.
    pub fn send_confidential(
        &mut self,
        origin: Origin,
        now: BlockNumber,
        dest_para: u32,
        dest_account: AccountId,
        asset: AssetId,
        encrypted_amount: EncryptedAmount,
        messenger_ok: bool,
        escrow_ok: bool,
    ) -> (r: Result<BridgeEvent, BridgeError>)
        ensures
            (final(self)@, r) == send_step(
                old(self)@,
                origin,
                now,
                dest_para,
                dest_account,
                asset,
                encrypted_amount,
                messenger_ok,
                escrow_ok,
            ),
    {
        let who = match origin {
            Origin::Signed(who) => who,
            _ => return Err(BridgeError::BadOrigin),
        };
        if self.config.self_para_id == dest_para {
            return Err(BridgeError::NoSelfBridge);
        }
        if !escrow_ok {
            return Err(BridgeError::BackendError);
        }
        if !messenger_ok {
            return Err(BridgeError::MessengerFailed);
        }
        let deadline = now.wrapping_add(self.config.default_timeout);
        let id = self.new_transfer_id();
        let rec = PendingTransfer {
            from: who,
            dest_para,
            dest_account,
            asset,
            encrypted_amount,
            deadline,
            completed: false,
        };
        self.pending.insert(id, rec);
        Ok(BridgeEvent::OutboundTransferInitiated { id, from: who, dest_para, asset })
    }

    /// What `confirm_success` asks of the outside: the entry whose escrow is
    /// released to the burn account and then burned there.
    pub fn confirm_plan(&self, origin: Origin, id: TransferId) -> (r: Result<(PendingTransfer, AccountId), BridgeError>)
        ensures
            match r {
                Ok((rec, burn)) => {
                    &&& confirm_step(self@, origin, id, true, true).1 is Ok
                    &&& rec == self@.pending[id]
                    &&& burn@ == burn_account_spec(self@.config)
                },
                Err(e) => confirm_step(self@, origin, id, true, true).1 == Err::<
                    BridgeEvent,
                    BridgeError,
                >(e),
            },
    {
        match origin {
            Origin::Root => {},
            _ => return Err(BridgeError::BadOrigin),
        }
        match self.pending(id) {
            None => Err(BridgeError::NotFound),
            Some(rec) => if rec.completed {
                Err(BridgeError::AlreadyCompleted)
            } else {
                Ok((rec, self.burn_account()))
            },
        }
    }

    /// Finalizes a successful transfer, given whether the escrow release to
    /// the burn account and the burn succeeded.
    pub fn confirm_success(&mut self, origin: Origin, id: TransferId, release_ok: bool, burn_ok: bool) -> (r: Result<BridgeEvent, BridgeError>)
        ensures
            (final(self)@, r) == confirm_step(old(self)@, origin, id, release_ok, burn_ok),
    {
        match origin {
            Origin::Root => {},
            _ => return Err(BridgeError::BadOrigin),
        }
        let rec = match self.pending(id) {
            None => return Err(BridgeError::NotFound),
            Some(rec) => rec,
        };
        if rec.completed {
            return Err(BridgeError::AlreadyCompleted);
        }
        if !release_ok {
            return Err(BridgeError::AlreadyCompleted);
        }
        if !burn_ok {
            return Err(BridgeError::NotFound);
        }
        self.pending.remove(&id);
        Ok(BridgeEvent::OutboundTransferConfirmed { id, asset: rec.asset })
    }

    /// What `cancel_and_refund` asks of the outside: the entry whose escrow
    /// is refunded to its sender.
    pub fn cancel_plan(&self, origin: Origin, now: BlockNumber, id: TransferId) -> (r: Result<PendingTransfer, BridgeError>)
        ensures
            match r {
                Ok(rec) => cancel_step(self@, origin, now, id, true).1 is Ok && rec == self@.pending[id],
                Err(e) => cancel_step(self@, origin, now, id, true).1 == Err::<BridgeEvent, BridgeError>(e),
            },
    {
        let rec = match self.pending(id) {
            None => return Err(BridgeError::NotFound),
            Some(rec) => rec,
        };
        if rec.completed {
            return Err(BridgeError::AlreadyCompleted);
        }
        match origin {
            Origin::Signed(who) => {
                if !crate::bytes::bytes32_eq(&who, &rec.from) {
                    proof {
                        if who == rec.from {
                            assert(who@ == rec.from@);
                        }
                    }
                    return Err(BridgeError::NotSender);
                }
                proof {
                    lemma_account_eq(who, rec.from);
                }
                if now < rec.deadline {
                    return Err(BridgeError::NotExpired);
                }
            },
            Origin::Root => {},
            Origin::Other => return Err(BridgeError::BadOrigin),
        }
        Ok(rec)
    }

    /// Cancels a pending transfer and refunds its sender, given whether the
    /// escrow refund succeeded.
    pub fn cancel_and_refund(&mut self, origin: Origin, now: BlockNumber, id: TransferId, refund_ok: bool) -> (r: Result<BridgeEvent, BridgeError>)
        ensures
            (final(self)@, r) == cancel_step(old(self)@, origin, now, id, refund_ok),
    {
        let rec = match self.cancel_plan(origin, now, id) {
            Err(e) => return Err(e),
            Ok(rec) => rec,
        };
        if !refund_ok {
            return Err(BridgeError::BackendError);
        }
        self.pending.remove(&id);
        Ok(BridgeEvent::OutboundTransferRefunded { id, asset: rec.asset })
    }

    /// What `receive_confidential` asks of the outside: the packet whose
    /// envelope the backend mints for its destination account.
    pub fn receive_plan(&self, origin: Origin, payload: &[u8]) -> (r: Result<BridgePacket, BridgeError>)
        ensures
            origin != Origin::Root ==> r == Err::<BridgePacket, BridgeError>(BridgeError::BadOrigin),
            origin == Origin::Root ==> match r {
                Ok(p) => packet_decoded(payload@, Some(p)),
                Err(e) => e == BridgeError::BackendError && packet_decoded(payload@, None),
            },
    {
        match origin {
            Origin::Root => {},
            _ => return Err(BridgeError::BadOrigin),
        }
        match BridgePacket::decode(payload) {
            Some(p) => Ok(p),
            None => Err(BridgeError::BackendError),
        }
    }

    /// Handles an incoming packet, given what the backend answered when asked
    /// to mint the packet's envelope.
    pub fn receive_confidential(&self, origin: Origin, payload: &[u8], minted: Result<EncryptedAmount, BackendFailure>) -> (r: Result<BridgeEvent, BridgeError>)
        ensures
            origin != Origin::Root ==> r == Err::<BridgeEvent, BridgeError>(BridgeError::BadOrigin),
            origin == Origin::Root ==> {
                ||| exists|p: BridgePacket| #[trigger] packet_decoded(payload@, Some(p)) && match minted {
                    Ok(ct) => r == Ok::<BridgeEvent, BridgeError>(BridgeEvent::InboundTransferExecuted {
                        id: p.transfer_id,
                        asset: p.asset,
                        minted: ct,
                    }),
                    Err(e) => r == Err::<BridgeEvent, BridgeError>(BridgeError::Backend(e)),
                }
                ||| packet_decoded(payload@, None) && r == Err::<BridgeEvent, BridgeError>(BridgeError::BackendError)
            },
    {
        let packet = match self.receive_plan(origin, payload) {
            Err(e) => return Err(e),
            Ok(p) => p,
        };
        match minted {
            Ok(ct) => Ok(BridgeEvent::InboundTransferExecuted {
                id: packet.transfer_id,
                asset: packet.asset,
                minted: ct,
            }),
            Err(e) => Err(BridgeError::Backend(e)),
        }
    }
}

/// A step that fails leaves the bridge's storage as it was.
pub proof fn law_failed_steps_change_nothing(
    s: BridgeView,
    origin: Origin,
    now: BlockNumber,
    id: TransferId,
    dest_para: u32,
    dest_account: AccountId,
    asset: AssetId,
    ct: EncryptedAmount,
    ok1: bool,
    ok2: bool,
)
    ensures
        send_step(s, origin, now, dest_para, dest_account, asset, ct, ok1, ok2).1 is Err
            ==> send_step(s, origin, now, dest_para, dest_account, asset, ct, ok1, ok2).0 == s,
        confirm_step(s, origin, id, ok1, ok2).1 is Err ==> confirm_step(s, origin, id, ok1, ok2).0
            == s,
        cancel_step(s, origin, now, id, ok1).1 is Err ==> cancel_step(s, origin, now, id, ok1).0
            == s,
{
}

/// Two transfers sent one after the other get different ids, and both are
/// pending afterwards.
pub proof fn law_send_ids_distinct(
    s: BridgeView,
    o1: Origin,
    o2: Origin,
    now: BlockNumber,
    p1: u32,
    p2: u32,
    d1: AccountId,
    d2: AccountId,
    a1: AssetId,
    a2: AssetId,
    c1: EncryptedAmount,
    c2: EncryptedAmount,
)
    requires
        send_step(s, o1, now, p1, d1, a1, c1, true, true).1 is Ok,
        send_step(send_step(s, o1, now, p1, d1, a1, c1, true, true).0, o2, now, p2, d2, a2, c2, true, true).1 is Ok,
    ensures
        ({
            let (s1, r1) = send_step(s, o1, now, p1, d1, a1, c1, true, true);
            let (s2, r2) = send_step(s1, o2, now, p2, d2, a2, c2, true, true);
            &&& r1->Ok_0->OutboundTransferInitiated_id != r2->Ok_0->OutboundTransferInitiated_id
            &&& s2.pending.contains_key(r1->Ok_0->OutboundTransferInitiated_id)
            &&& s2.pending.contains_key(r2->Ok_0->OutboundTransferInitiated_id)
        }),
{
}

/// A transfer is finalized at most once: after a confirmation or a refund of
/// `id`, confirming or cancelling `id` again answers `NotFound`.
pub proof fn law_finalize_once(
    s: BridgeView,
    origin: Origin,
    origin2: Origin,
    now: BlockNumber,
    id: TransferId,
    ok1: bool,
    ok2: bool,
    ok3: bool,
)
    ensures
        confirm_step(s, origin, id, ok1, ok2).1 is Ok ==> {
            let s1 = confirm_step(s, origin, id, ok1, ok2).0;
            &&& !s1.pending.contains_key(id)
            &&& cancel_step(s1, origin2, now, id, ok3).1 == Err::<BridgeEvent, BridgeError>(
                BridgeError::NotFound,
            )
            &&& origin2 == Origin::Root ==> confirm_step(s1, origin2, id, ok1, ok3).1 == Err::<
                BridgeEvent,
                BridgeError,
            >(BridgeError::NotFound)
        },
        cancel_step(s, origin, now, id, ok1).1 is Ok ==> {
            let s1 = cancel_step(s, origin, now, id, ok1).0;
            &&& !s1.pending.contains_key(id)
            &&& cancel_step(s1, origin2, now, id, ok3).1 == Err::<BridgeEvent, BridgeError>(
                BridgeError::NotFound,
            )
            &&& origin2 == Origin::Root ==> confirm_step(s1, origin2, id, ok2, ok3).1 == Err::<
                BridgeEvent,
                BridgeError,
            >(BridgeError::NotFound)
        },
{
}

/// Once a transfer is sent, its sender may cancel it from the deadline on
/// (and not before), any other signed account may not, and the trusted
/// origin may at any time; a successful cancel refunds the asset that was sent.
pub proof fn law_cancel_authority(
    s: BridgeView,
    who: AccountId,
    other: AccountId,
    now: BlockNumber,
    later: BlockNumber,
    dest_para: u32,
    dest_account: AccountId,
    asset: AssetId,
    ct: EncryptedAmount,
)
    requires
        other != who,
        send_step(s, Origin::Signed(who), now, dest_para, dest_account, asset, ct, true, true).1 is Ok,
    ensures
        ({
            let s1 = send_step(s, Origin::Signed(who), now, dest_para, dest_account, asset, ct, true, true).0;
            let id = s.next_transfer_id;
            let deadline = deadline_after(now, s.config.default_timeout);
            &&& later >= deadline ==> cancel_step(s1, Origin::Signed(who), later, id, true).1
                == Ok::<BridgeEvent, BridgeError>(BridgeEvent::OutboundTransferRefunded { id, asset })
            &&& later < deadline ==> cancel_step(s1, Origin::Signed(who), later, id, true).1
                == Err::<BridgeEvent, BridgeError>(BridgeError::NotExpired)
            &&& cancel_step(s1, Origin::Signed(other), later, id, true).1 == Err::<
                BridgeEvent,
                BridgeError,
            >(BridgeError::NotSender)
            &&& cancel_step(s1, Origin::Root, now, id, true).1 == Ok::<BridgeEvent, BridgeError>(
                BridgeEvent::OutboundTransferRefunded { id, asset },
            )
        }),
{
}

/// Accounts with the same bytes are the same account.
proof fn lemma_account_eq(a: AccountId, b: AccountId)
    requires
        a@ == b@,
    ensures
        a == b,
{
    assert(a =~= b);
}

} // verus!
