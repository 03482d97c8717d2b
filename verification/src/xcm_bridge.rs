//! The XCM bridge: the source chain debits a confidential balance and ships
//! a SCALE-encoded `RemoteCall` to the destination in an XCM `Transact`; the
//! destination decodes it and mints, or redeems an HTLC.
//!
//! The router, the backend and the HTLC are outside parties: each operation
//! takes their answers as arguments, and the `*_plan` functions say what to
//! ask them.
use vstd::prelude::*;
use crate::bytes::{le_bytes, push_all};
use crate::hashing::{blake2_256, blake2_256_of};
use crate::primitives::{
    AccountId, AssetId, EncryptedAmount, Origin, MAX_PROOF_LEN, read_array32, read_array64,
};
use crate::scale::{
    enc_bytes, is_prefix, lemma_prefix_range, put_bytes, put_u128, put_u64, read_bytes, read_le,
    lemma_le_bytes_le_value, lemma_le_value_bound_u64, lemma_le_value_le_bytes, lemma_u64_below,
    lemma_u128_below,
};

verus! {

/// A parachain id.
pub type ParaId = u32;

/// The secret that opens an HTLC (32 bytes on the wire).
pub type HtlcSecret = [u8; 32];

/// The payloads carried by XCM `Transact`.
#[derive(Debug)]
pub enum RemoteCall {
    /// Credit a confidential transfer on the destination chain.
    ReceiveConfidentialTransfer {
        sender_on_src: [u8; 32],
        dest_account: AccountId,
        asset: AssetId,
        /// Kept for tracing; the mint uses `mint_proof`.
        delta_ciphertext: EncryptedAmount,
        /// Proof the destination mints with (at most `MAX_PROOF_LEN` bytes).
        mint_proof: Vec<u8>,
    },
    /// Redeem an HTLC with its secret on the destination chain.
    HtlcRedeemWithSecret { who: AccountId, htlc_id: u64, secret_bytes: Vec<u8> },
    /// Redeem an HTLC with a final adaptor signature on the destination chain.
    HtlcRedeemWithAdaptorSig { who: AccountId, htlc_id: u64, final_sig: Vec<u8> },
}

/// A call whose byte strings fit their bounds.
pub open spec fn call_wf(c: RemoteCall) -> bool {
    match c {
        RemoteCall::ReceiveConfidentialTransfer { mint_proof, .. } => mint_proof@.len() <= MAX_PROOF_LEN,
        RemoteCall::HtlcRedeemWithSecret { secret_bytes, .. } => secret_bytes@.len() <= u32::MAX,
        RemoteCall::HtlcRedeemWithAdaptorSig { final_sig, .. } => final_sig@.len() <= u32::MAX,
    }
}

/// SCALE encoding of a call: the variant's index, then its fields in order.
pub open spec fn call_bytes(c: RemoteCall) -> Seq<u8> {
    match c {
        RemoteCall::ReceiveConfidentialTransfer {
            sender_on_src,
            dest_account,
            asset,
            delta_ciphertext,
            mint_proof,
        } => seq![0u8] + sender_on_src@ + dest_account@ + le_bytes(asset as int, 16)
            + delta_ciphertext@ + enc_bytes(mint_proof@),
        RemoteCall::HtlcRedeemWithSecret { who, htlc_id, secret_bytes } => seq![1u8] + who@
            + le_bytes(htlc_id as int, 8) + enc_bytes(secret_bytes@),
        RemoteCall::HtlcRedeemWithAdaptorSig { who, htlc_id, final_sig } => seq![2u8] + who@
            + le_bytes(htlc_id as int, 8) + enc_bytes(final_sig@),
    }
}

/// Two calls of the same variant with the same fields.
pub open spec fn same_call(a: RemoteCall, b: RemoteCall) -> bool {
    match (a, b) {
        (
            RemoteCall::ReceiveConfidentialTransfer {
                sender_on_src: t1,
                dest_account: d1,
                asset: a1,
                delta_ciphertext: c1,
                mint_proof: p1,
            },
            RemoteCall::ReceiveConfidentialTransfer {
                sender_on_src: t2,
                dest_account: d2,
                asset: a2,
                delta_ciphertext: c2,
                mint_proof: p2,
            },
        ) => t1@ == t2@ && d1@ == d2@ && a1 == a2 && c1@ == c2@ && p1@ == p2@,
        (
            RemoteCall::HtlcRedeemWithSecret { who: w1, htlc_id: i1, secret_bytes: s1 },
            RemoteCall::HtlcRedeemWithSecret { who: w2, htlc_id: i2, secret_bytes: s2 },
        ) => w1@ == w2@ && i1 == i2 && s1@ == s2@,
        (
            RemoteCall::HtlcRedeemWithAdaptorSig { who: w1, htlc_id: i1, final_sig: s1 },
            RemoteCall::HtlcRedeemWithAdaptorSig { who: w2, htlc_id: i2, final_sig: s2 },
        ) => w1@ == w2@ && i1 == i2 && s1@ == s2@,
        _ => false,
    }
}

/// What decoding `data` gives: the call whose encoding `data` starts with,
/// if there is one whose byte strings fit their bounds, and nothing otherwise.
pub open spec fn call_decoded(data: Seq<u8>, r: Option<RemoteCall>) -> bool {
    &&& r matches Some(c) ==> call_wf(c) && is_prefix(call_bytes(c), data)
    &&& r is None ==> forall|c: RemoteCall| #[trigger] call_wf(c) ==> !is_prefix(call_bytes(c), data)
    &&& forall|c: RemoteCall| #[trigger]
        call_wf(c) && is_prefix(call_bytes(c), data) ==> (r matches Some(d) && same_call(c, d))
}

/// The length-prefixed tail of an encoding that `data` starts with.
proof fn lemma_tail(p: Seq<u8>, data: Seq<u8>, head: int, b: Seq<u8>)
    requires
        is_prefix(p, data),
        0 <= head <= p.len(),
        p.subrange(head, p.len() as int) == enc_bytes(b),
    ensures
        is_prefix(enc_bytes(b), data.subrange(head, data.len() as int)),
{
    assert(data.subrange(head, data.len() as int).subrange(0, enc_bytes(b).len() as int)
        =~= data.subrange(0, p.len() as int).subrange(head, p.len() as int));
}

impl RemoteCall {
    /// SCALE-encodes the call.
    pub fn encode(&self) -> (r: Vec<u8>)
        requires
            call_wf(*self),
        ensures
            r@ == call_bytes(*self),
    {
        let mut out: Vec<u8> = Vec::new();
        match self {
            RemoteCall::ReceiveConfidentialTransfer {
                sender_on_src,
                dest_account,
                asset,
                delta_ciphertext,
                mint_proof,
            } => {
                out.push(0u8);
                push_all(&mut out, sender_on_src);
                push_all(&mut out, dest_account);
                put_u128(&mut out, *asset);
                push_all(&mut out, delta_ciphertext);
                put_bytes(&mut out, mint_proof.as_slice());
            },
            RemoteCall::HtlcRedeemWithSecret { who, htlc_id, secret_bytes } => {
                out.push(1u8);
                push_all(&mut out, who);
                put_u64(&mut out, *htlc_id);
                put_bytes(&mut out, secret_bytes.as_slice());
            },
            RemoteCall::HtlcRedeemWithAdaptorSig { who, htlc_id, final_sig } => {
                out.push(2u8);
                push_all(&mut out, who);
                put_u64(&mut out, *htlc_id);
                put_bytes(&mut out, final_sig.as_slice());
            },
        }
        assert(out@ =~= call_bytes(*self));
        out
    }

    /// SCALE-decodes a call from the start of `data`; trailing bytes are
    /// ignored.
    pub fn decode(data: &[u8]) -> (r: Option<RemoteCall>)
        ensures
            call_decoded(data@, r),
    {
        if data.len() == 0 {
            return None;
        }
        let tag = data[0];
        if tag == 0 {
            Self::decode_receive(data)
        } else if tag == 1 || tag == 2 {
            Self::decode_htlc(data)
        } else {
            proof {
                assert forall|c: RemoteCall| #[trigger] call_wf(c) implies !is_prefix(
                    call_bytes(c),
                    data@,
                ) by {
                    if is_prefix(call_bytes(c), data@) {
                        assert(call_bytes(c)[0] == data@[0]);
                    }
                }
            }
            None
        }
    }

    /// Decodes the first variant; `data` starts with its index.
    fn decode_receive(data: &[u8]) -> (r: Option<RemoteCall>)
        requires
            data@.len() > 0,
            data@[0] == 0,
        ensures
            call_decoded(data@, r),
    {
        proof {
            assert forall|c: RemoteCall| is_prefix(call_bytes(c), data@) implies c is ReceiveConfidentialTransfer by {
                assert(call_bytes(c)[0] == data@[0]);
            }
        }
        if data.len() < 145 {
            proof {
                assert forall|c: RemoteCall| #[trigger] call_wf(c) implies !is_prefix(
                    call_bytes(c),
                    data@,
                ) by {
                    if is_prefix(call_bytes(c), data@) {
                        assert(call_bytes(c).len() >= 145);
                    }
                }
            }
            return None;
        }
        let tag_src = read_array32(data, 1);
        let dest = read_array32(data, 33);
        let asset = read_le(data, 65, 16);
        let ct = read_array64(data, 81);
        let proof_bytes = read_bytes(data, 145);
        proof {
            assert forall|c: RemoteCall| #[trigger] call_wf(c) && is_prefix(call_bytes(c), data@) implies (
            proof_bytes matches Some((v, _)) && c->mint_proof@ == v@ && c->sender_on_src@ == tag_src@
                && c->dest_account@ == dest@ && c->asset == asset && c->delta_ciphertext@ == ct@) by {
                let cb = call_bytes(c);
                lemma_prefix_range(cb, data@, 1, 33);
                lemma_prefix_range(cb, data@, 33, 65);
                lemma_prefix_range(cb, data@, 65, 81);
                lemma_prefix_range(cb, data@, 81, 145);
                assert(cb.subrange(1, 33) =~= c->sender_on_src@);
                assert(cb.subrange(33, 65) =~= c->dest_account@);
                assert(cb.subrange(65, 81) =~= le_bytes(c->asset as int, 16));
                assert(cb.subrange(81, 145) =~= c->delta_ciphertext@);
                assert(cb.subrange(145, cb.len() as int) =~= enc_bytes(c->mint_proof@));
                lemma_tail(cb, data@, 145, c->mint_proof@);
                lemma_u128_below(c->asset);
                lemma_le_value_le_bytes(c->asset as nat, 16);
            }
        }
        match proof_bytes {
            None => None,
            Some((mint_proof, next)) => {
                if mint_proof.len() > MAX_PROOF_LEN {
                    None
                } else {
                    let c = RemoteCall::ReceiveConfidentialTransfer {
                        sender_on_src: tag_src,
                        dest_account: dest,
                        asset,
                        delta_ciphertext: ct,
                        mint_proof,
                    };
                    proof {
                        lemma_le_bytes_le_value(data@.subrange(65, 81));
                        assert(data@.subrange(0, next as int) =~= call_bytes(c));
                    }
                    Some(c)
                }
            },
        }
    }

    /// Decodes the second or third variant; `data` starts with its index.
    fn decode_htlc(data: &[u8]) -> (r: Option<RemoteCall>)
        requires
            data@.len() > 0,
            data@[0] == 1 || data@[0] == 2,
        ensures
            call_decoded(data@, r),
    {
        let tag = data[0];
        proof {
            assert forall|c: RemoteCall| is_prefix(call_bytes(c), data@) implies (if tag == 1 {
                c is HtlcRedeemWithSecret
            } else {
                c is HtlcRedeemWithAdaptorSig
            }) by {
                assert(call_bytes(c)[0] == data@[0]);
            }
        }
        if data.len() < 41 {
            proof {
                assert forall|c: RemoteCall| #[trigger] call_wf(c) implies !is_prefix(
                    call_bytes(c),
                    data@,
                ) by {
                    if is_prefix(call_bytes(c), data@) {
                        assert(call_bytes(c).len() >= 41);
                    }
                }
            }
            return None;
        }
        let who = read_array32(data, 1);
        let id_wide = read_le(data, 33, 8);
        proof {
            lemma_le_value_bound_u64(data@.subrange(33, 41));
        }
        let htlc_id = id_wide as u64;
        let bytes = read_bytes(data, 41);
        proof {
            assert forall|c: RemoteCall| #[trigger] call_wf(c) && is_prefix(call_bytes(c), data@) implies (
            bytes matches Some((v, _)) && (match c {
                RemoteCall::HtlcRedeemWithSecret { who: w, htlc_id: i, secret_bytes: b } => w@ == who@
                    && i == htlc_id && b@ == v@,
                RemoteCall::HtlcRedeemWithAdaptorSig { who: w, htlc_id: i, final_sig: b } => w@ == who@
                    && i == htlc_id && b@ == v@,
                _ => false,
            })) by {
                let cb = call_bytes(c);
                lemma_prefix_range(cb, data@, 1, 33);
                lemma_prefix_range(cb, data@, 33, 41);
                match c {
                    RemoteCall::HtlcRedeemWithSecret { who: w, htlc_id: i, secret_bytes: b } => {
                        assert(cb.subrange(1, 33) =~= w@);
                        assert(cb.subrange(33, 41) =~= le_bytes(i as int, 8));
                        assert(cb.subrange(41, cb.len() as int) =~= enc_bytes(b@));
                        lemma_tail(cb, data@, 41, b@);
                        lemma_u64_below(i);
                        lemma_le_value_le_bytes(i as nat, 8);
                    },
                    RemoteCall::HtlcRedeemWithAdaptorSig { who: w, htlc_id: i, final_sig: b } => {
                        assert(cb.subrange(1, 33) =~= w@);
                        assert(cb.subrange(33, 41) =~= le_bytes(i as int, 8));
                        assert(cb.subrange(41, cb.len() as int) =~= enc_bytes(b@));
                        lemma_tail(cb, data@, 41, b@);
                        lemma_u64_below(i);
                        lemma_le_value_le_bytes(i as nat, 8);
                    },
                    _ => {},
                }
            }
        }
        match bytes {
            None => None,
            Some((b, next)) => {
                let c = if tag == 1 {
                    RemoteCall::HtlcRedeemWithSecret { who, htlc_id, secret_bytes: b }
                } else {
                    RemoteCall::HtlcRedeemWithAdaptorSig { who, htlc_id, final_sig: b }
                };
                proof {
                    lemma_le_bytes_le_value(data@.subrange(33, 41));
                    assert(data@.subrange(0, next as int) =~= call_bytes(c));
                }
                Some(c)
            },
        }
    }
}

/// Events of the XCM bridge.
#[derive(Clone, Copy, Debug, PartialEq, Eq)]
pub enum XcmEvent {
    XcmSent { nonce: u64, dest: ParaId, payload_hash: [u8; 32] },
    XcmConfTransferApplied { from_tag: [u8; 32], to: AccountId, asset: AssetId },
    XcmHtlcExecuted { who: AccountId, htlc_id: u64 },
}

/// Errors of the XCM bridge.
#[derive(Clone, Copy, Debug, PartialEq, Eq)]
pub enum XcmError {
    RouterError,
    BackendError,
    HtlcFailed,
    BadOriginForXcm,
    DecodeError,
    /// A send that is not signed.
    BadOrigin,
}

/// The XCM bridge's storage: the nonce of the next message.
pub struct XcmBridge {
    next_nonce: u64,
}

impl View for XcmBridge {
    type V = u64;

    closed spec fn view(&self) -> u64 {
        self.next_nonce
    }
}

/// The nonce after a send (it saturates).
pub open spec fn bump_nonce(n: u64) -> u64 {
    if n == u64::MAX { n } else { (n + 1) as u64 }
}

/// The outcome of a send of `payload`, given whether the local debit (for
/// a confidential transfer; `true` otherwise) and the router succeeded: the
/// nonce before and after, and the result.
pub open spec fn send_outcome(
    n0: u64,
    n1: u64,
    r: Result<XcmEvent, XcmError>,
    origin: Origin,
    dest: ParaId,
    payload: Seq<u8>,
    debit_ok: bool,
    router_ok: bool,
) -> bool {
    if !(origin is Signed) {
        n1 == n0 && r == Err::<XcmEvent, XcmError>(XcmError::BadOrigin)
    } else if !debit_ok {
        n1 == n0 && r == Err::<XcmEvent, XcmError>(XcmError::BackendError)
    } else if !router_ok {
        n1 == n0 && r == Err::<XcmEvent, XcmError>(XcmError::RouterError)
    } else {
        &&& n1 == bump_nonce(n0)
        &&& r matches Ok(XcmEvent::XcmSent { nonce, dest: d, payload_hash })
        &&& nonce == n0
        &&& d == dest
        &&& payload_hash@ == blake2_256_of(payload)
    }
}

/// What an inbound call does, given whether the backend or the HTLC
/// accepted it.
pub open spec fn handle_result(c: RemoteCall, ok: bool) -> Result<XcmEvent, XcmError> {
    match c {
        RemoteCall::ReceiveConfidentialTransfer { sender_on_src, dest_account, asset, .. } => if ok {
            Ok(XcmEvent::XcmConfTransferApplied { from_tag: sender_on_src, to: dest_account, asset })
        } else {
            Err(XcmError::BackendError)
        },
        RemoteCall::HtlcRedeemWithSecret { who, htlc_id, secret_bytes } => if secret_bytes@.len() < 32 {
            Err(XcmError::DecodeError)
        } else if ok {
            Ok(XcmEvent::XcmHtlcExecuted { who, htlc_id })
        } else {
            Err(XcmError::HtlcFailed)
        },
        RemoteCall::HtlcRedeemWithAdaptorSig { who, htlc_id, .. } => if ok {
            Ok(XcmEvent::XcmHtlcExecuted { who, htlc_id })
        } else {
            Err(XcmError::HtlcFailed)
        },
    }
}

/// What an inbound call asks of the outside.
pub enum InboundAction {
    /// Mint `mint_proof` for `dest_account` in `asset`.
    Mint { asset: AssetId, dest_account: AccountId, mint_proof: Vec<u8> },
    /// Redeem HTLC `htlc_id` for `who` with `secret`.
    RedeemWithSecret { who: AccountId, htlc_id: u64, secret: HtlcSecret },
    /// Redeem HTLC `htlc_id` for `who` with `final_sig`.
    RedeemWithAdaptorSig { who: AccountId, htlc_id: u64, final_sig: Vec<u8> },
}

impl XcmBridge {
    /// An XCM bridge with nonce zero.
    pub fn new() -> (r: Self)
        ensures
            r@ == 0,
    {
        XcmBridge { next_nonce: 0 }
    }

    /// The nonce of the next message.
    pub fn next_nonce(&self) -> (r: u64)
        ensures
            r == self@,
    {
        self.next_nonce
    }

    /// Records a sent message of `payload` and returns its event.
    fn sent(&mut self, dest: ParaId, payload: &Vec<u8>) -> (r: XcmEvent)
        ensures
            final(self)@ == bump_nonce(old(self)@),
            r matches XcmEvent::XcmSent { nonce, dest: d, payload_hash } && nonce == old(self)@
                && d == dest && payload_hash@ == blake2_256_of(payload@),
    {
        let h = blake2_256(payload.as_slice());
        let nonce = self.next_nonce;
        self.next_nonce = nonce.saturating_add(1);
        XcmEvent::XcmSent { nonce, dest, payload_hash: h }
    }

    /// Sends a confidential transfer to `dest`, given whether the local burn
    /// of `delta_ciphertext` (with the burn proof) and the router succeeded.
    /// The payload is the `ReceiveConfidentialTransfer` call.
    pub fn send_confidential_transfer(
        &mut self,
        origin: Origin,
        dest: ParaId,
        sender_tag: [u8; 32],
        beneficiary: AccountId,
        asset: AssetId,
        delta_ciphertext: EncryptedAmount,
        mint_proof: Vec<u8>,
        burn_ok: bool,
        router_ok: bool,
    ) -> (r: Result<XcmEvent, XcmError>)
        requires
            mint_proof@.len() <= MAX_PROOF_LEN,
        ensures
            send_outcome(
                old(self)@,
                final(self)@,
                r,
                origin,
                dest,
                call_bytes(
                    RemoteCall::ReceiveConfidentialTransfer {
                        sender_on_src: sender_tag,
                        dest_account: beneficiary,
                        asset,
                        delta_ciphertext,
                        mint_proof,
                    },
                ),
                burn_ok,
                router_ok,
            ),
    {
        match origin {
            Origin::Signed(_) => {},
            _ => return Err(XcmError::BadOrigin),
        }
        if !burn_ok {
            return Err(XcmError::BackendError);
        }
        let call = RemoteCall::ReceiveConfidentialTransfer {
            sender_on_src: sender_tag,
            dest_account: beneficiary,
            asset,
            delta_ciphertext,
            mint_proof,
        };
        let payload = call.encode();
        if !router_ok {
            return Err(XcmError::RouterError);
        }
        Ok(self.sent(dest, &payload))
    }

    /// Relays an HTLC secret to `dest`, given whether the router succeeded.
    pub fn send_htlc_redeem_with_secret(
        &mut self,
        origin: Origin,
        dest: ParaId,
        who: AccountId,
        htlc_id: u64,
        secret_bytes: Vec<u8>,
        router_ok: bool,
    ) -> (r: Result<XcmEvent, XcmError>)
        requires
            secret_bytes@.len() <= u32::MAX,
        ensures
            send_outcome(
                old(self)@,
                final(self)@,
                r,
                origin,
                dest,
                call_bytes(RemoteCall::HtlcRedeemWithSecret { who, htlc_id, secret_bytes }),
                true,
                router_ok,
            ),
    {
        match origin {
            Origin::Signed(_) => {},
            _ => return Err(XcmError::BadOrigin),
        }
        let call = RemoteCall::HtlcRedeemWithSecret { who, htlc_id, secret_bytes };
        let payload = call.encode();
        if !router_ok {
            return Err(XcmError::RouterError);
        }
        Ok(self.sent(dest, &payload))
    }

    /// Relays a final adaptor signature to `dest`, given whether the router
    /// succeeded.
    pub fn send_htlc_redeem_with_adaptor_sig(
        &mut self,
        origin: Origin,
        dest: ParaId,
        who: AccountId,
        htlc_id: u64,
        final_sig: Vec<u8>,
        router_ok: bool,
    ) -> (r: Result<XcmEvent, XcmError>)
        requires
            final_sig@.len() <= u32::MAX,
        ensures
            send_outcome(
                old(self)@,
                final(self)@,
                r,
                origin,
                dest,
                call_bytes(RemoteCall::HtlcRedeemWithAdaptorSig { who, htlc_id, final_sig }),
                true,
                router_ok,
            ),
    {
        match origin {
            Origin::Signed(_) => {},
            _ => return Err(XcmError::BadOrigin),
        }
        let call = RemoteCall::HtlcRedeemWithAdaptorSig { who, htlc_id, final_sig };
        let payload = call.encode();
        if !router_ok {
            return Err(XcmError::RouterError);
        }
        Ok(self.sent(dest, &payload))
    }

    /// What an inbound payload asks of the outside, or why it is refused
    /// before that.
    pub fn xcm_handle_plan(&self, origin: Origin, payload: &[u8]) -> (r: Result<InboundAction, XcmError>)
        ensures
            !(origin is Root) ==> r == Err::<InboundAction, XcmError>(XcmError::BadOriginForXcm),
            origin is Root ==> match r {
                Ok(a) => exists|c: RemoteCall| #[trigger] call_decoded(payload@, Some(c)) && match (c, a) {
                    (
                        RemoteCall::ReceiveConfidentialTransfer { asset, dest_account, mint_proof, .. },
                        InboundAction::Mint { asset: a2, dest_account: d2, mint_proof: p2 },
                    ) => asset == a2 && dest_account == d2 && mint_proof@ == p2@,
                    (
                        RemoteCall::HtlcRedeemWithSecret { who, htlc_id, secret_bytes },
                        InboundAction::RedeemWithSecret { who: w2, htlc_id: i2, secret },
                    ) => who == w2 && htlc_id == i2 && secret_bytes@.len() >= 32
                        && secret@ == secret_bytes@.subrange(0, 32),
                    (
                        RemoteCall::HtlcRedeemWithAdaptorSig { who, htlc_id, final_sig },
                        InboundAction::RedeemWithAdaptorSig { who: w2, htlc_id: i2, final_sig: s2 },
                    ) => who == w2 && htlc_id == i2 && final_sig@ == s2@,
                    _ => false,
                },
                Err(e) => e == XcmError::DecodeError && (call_decoded(payload@, None) || exists|c: RemoteCall|
                    #[trigger] call_decoded(payload@, Some(c)) && handle_result(c, true) == Err::<
                        XcmEvent,
                        XcmError,
                    >(XcmError::DecodeError)),
            },
    {
        match origin {
            Origin::Root => {},
            _ => return Err(XcmError::BadOriginForXcm),
        }
        let call = RemoteCall::decode(payload);
        match call {
            None => Err(XcmError::DecodeError),
            Some(c) => {
                proof {
                    assert(call_decoded(payload@, Some(c)));
                }
                match c {
                    RemoteCall::ReceiveConfidentialTransfer { asset, dest_account, mint_proof, .. } => {
                        Ok(InboundAction::Mint { asset, dest_account, mint_proof })
                    },
                    RemoteCall::HtlcRedeemWithSecret { who, htlc_id, secret_bytes } => {
                        if secret_bytes.len() < 32 {
                            Err(XcmError::DecodeError)
                        } else {
                            let secret = read_array32(secret_bytes.as_slice(), 0);
                            Ok(InboundAction::RedeemWithSecret { who, htlc_id, secret })
                        }
                    },
                    RemoteCall::HtlcRedeemWithAdaptorSig { who, htlc_id, final_sig } => {
                        Ok(InboundAction::RedeemWithAdaptorSig { who, htlc_id, final_sig })
                    },
                }
            },
        }
    }

    /// Handles an inbound payload, given whether the backend (for a mint) or
    /// the HTLC (for a redeem) accepted the action of `xcm_handle_plan`.
    pub fn xcm_handle(&self, origin: Origin, payload: &[u8], accepted: bool) -> (r: Result<XcmEvent, XcmError>)
        ensures
            !(origin is Root) ==> r == Err::<XcmEvent, XcmError>(XcmError::BadOriginForXcm),
            origin is Root ==> {
                ||| exists|c: RemoteCall| #[trigger] call_decoded(payload@, Some(c)) && r == handle_result(c, accepted)
                ||| call_decoded(payload@, None) && r == Err::<XcmEvent, XcmError>(XcmError::DecodeError)
            },
    {
        match origin {
            Origin::Root => {},
            _ => return Err(XcmError::BadOriginForXcm),
        }
        let call = RemoteCall::decode(payload);
        match call {
            None => Err(XcmError::DecodeError),
            Some(c) => {
                proof {
                    assert(call_decoded(payload@, Some(c)));
                }
                match c {
                    RemoteCall::ReceiveConfidentialTransfer { sender_on_src, dest_account, asset, .. } => {
                        if accepted {
                            Ok(XcmEvent::XcmConfTransferApplied { from_tag: sender_on_src, to: dest_account, asset })
                        } else {
                            Err(XcmError::BackendError)
                        }
                    },
                    RemoteCall::HtlcRedeemWithSecret { who, htlc_id, secret_bytes } => {
                        if secret_bytes.len() < 32 {
                            Err(XcmError::DecodeError)
                        } else if accepted {
                            Ok(XcmEvent::XcmHtlcExecuted { who, htlc_id })
                        } else {
                            Err(XcmError::HtlcFailed)
                        }
                    },
                    RemoteCall::HtlcRedeemWithAdaptorSig { who, htlc_id, .. } => {
                        if accepted {
                            Ok(XcmEvent::XcmHtlcExecuted { who, htlc_id })
                        } else {
                            Err(XcmError::HtlcFailed)
                        }
                    },
                }
            },
        }
    }
}

/// Decoding the encoding of a call gives the same call back.
pub proof fn law_call_roundtrip(c: RemoteCall, r: Option<RemoteCall>)
    requires
        call_wf(c),
        call_decoded(call_bytes(c), r),
    ensures
        r matches Some(d) && same_call(c, d),
{
    assert(call_bytes(c).subrange(0, call_bytes(c).len() as int) =~= call_bytes(c));
}

/// A confidential transfer that the source sends is applied on the
/// destination, to its beneficiary, when the backend there mints it.
pub proof fn law_transfer_applied_on_destination(
    sender_tag: [u8; 32],
    beneficiary: AccountId,
    asset: AssetId,
    delta_ciphertext: EncryptedAmount,
    mint_proof: Vec<u8>,
    d: RemoteCall,
)
    requires
        mint_proof@.len() <= MAX_PROOF_LEN,
        call_decoded(
            call_bytes(
                RemoteCall::ReceiveConfidentialTransfer {
                    sender_on_src: sender_tag,
                    dest_account: beneficiary,
                    asset,
                    delta_ciphertext,
                    mint_proof,
                },
            ),
            Some(d),
        ),
    ensures
        handle_result(d, true) == Ok::<XcmEvent, XcmError>(
            XcmEvent::XcmConfTransferApplied { from_tag: sender_tag, to: beneficiary, asset },
        ),
{
    let c = RemoteCall::ReceiveConfidentialTransfer {
        sender_on_src: sender_tag,
        dest_account: beneficiary,
        asset,
        delta_ciphertext,
        mint_proof,
    };
    law_call_roundtrip(c, Some(d));
    assert(d->sender_on_src =~= sender_tag);
    assert(d->dest_account =~= beneficiary);
}

/// The nonce counts successful sends: a failed send leaves it, a successful
/// one advances it by one (it stays at its maximum once there).
pub proof fn law_nonce_counts_sends(
    n0: u64,
    n1: u64,
    r: Result<XcmEvent, XcmError>,
    origin: Origin,
    dest: ParaId,
    payload: Seq<u8>,
    debit_ok: bool,
    router_ok: bool,
)
    requires
        send_outcome(n0, n1, r, origin, dest, payload, debit_ok, router_ok),
    ensures
        r is Err ==> n1 == n0,
        r is Ok ==> n1 == (if n0 == u64::MAX { n0 } else { (n0 + 1) as u64 }),
        r matches Ok(XcmEvent::XcmSent { nonce, .. }) ==> nonce == n0,
{
}

} // verus!
