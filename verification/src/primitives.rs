//! Types shared by the confidential pallets, and the wire format of the
//! packet that the bridge sends between parachains.
use vstd::prelude::*;
use crate::bytes::{le_bytes, le_value, push_all};
use crate::scale::{
    enc_bytes, is_prefix, put_bytes, put_u128, put_u64, read_bytes, read_le,
    lemma_le_bytes_le_value, lemma_le_value_bound_u64, lemma_le_value_le_bytes, lemma_u64_below,
    lemma_u128_below,
};

verus! {

/// An account of the runtime (32 bytes).
pub type AccountId = [u8; 32];

/// An asset identifier of the runtime.
pub type AssetId = u128;

/// A block number of the runtime.
pub type BlockNumber = u32;

/// An ElGamal ciphertext: Pedersen commitment (32 bytes), then decrypt handle (32 bytes).
pub type EncryptedAmount = [u8; 64];

/// A compressed Ristretto commitment.
pub type Commitment = [u8; 32];

/// Identifier of an outbound bridge transfer.
pub type TransferId = u64;

/// Largest proof blob a call may carry.
pub const MAX_PROOF_LEN: usize = 8192;

/// Largest public key a call may carry.
pub const MAX_PUB_KEY_LEN: usize = 64;

/// The error a call into the confidential backend failed with: the index of
/// the pallet that raised it and that pallet's encoded error, as a module
/// dispatch error carries them.
#[derive(Clone, Copy, Debug, PartialEq, Eq)]
pub struct BackendFailure {
    pub index: u8,
    pub error: [u8; 4],
}

/// Who calls.
#[derive(Clone, Copy, Debug, PartialEq, Eq)]
pub enum Origin {
    /// A signed account.
    Signed(AccountId),
    /// The origin that the runtime trusts to speak for destination chains
    /// (root in the test runtimes).
    Root,
    /// Any other origin.
    Other,
}

/// The packet that the bridge sends over HRMP.
#[derive(Debug)]
pub struct BridgePacket {
    /// Bridge transfer identifier (source side).
    pub transfer_id: TransferId,
    /// Destination account.
    pub dest_account: AccountId,
    /// Asset to move.
    pub asset: AssetId,
    /// Ciphertext of the amount being bridged.
    pub encrypted_amount: EncryptedAmount,
    /// Opaque envelope for the destination backend (at most `MAX_PROOF_LEN` bytes).
    pub accept_envelope: Vec<u8>,
}

/// A packet whose envelope fits its bound.
pub open spec fn packet_wf(p: BridgePacket) -> bool {
    p.accept_envelope@.len() <= MAX_PROOF_LEN
}

/// SCALE encoding of a packet: its fields in order.
pub open spec fn enc_packet(
    id: TransferId,
    dest: Seq<u8>,
    asset: AssetId,
    ct: Seq<u8>,
    env: Seq<u8>,
) -> Seq<u8> {
    le_bytes(id as int, 8) + dest + le_bytes(asset as int, 16) + ct + enc_bytes(env)
}

/// The encoding of a packet value.
pub open spec fn packet_bytes(p: BridgePacket) -> Seq<u8> {
    enc_packet(
        p.transfer_id,
        p.dest_account@,
        p.asset,
        p.encrypted_amount@,
        p.accept_envelope@,
    )
}

/// Two packets with the same fields.
pub open spec fn same_packet(p: BridgePacket, q: BridgePacket) -> bool {
    &&& p.transfer_id == q.transfer_id
    &&& p.dest_account@ == q.dest_account@
    &&& p.asset == q.asset
    &&& p.encrypted_amount@ == q.encrypted_amount@
    &&& p.accept_envelope@ == q.accept_envelope@
}

/// What decoding `data` gives: the packet whose encoding `data` starts with,
/// if there is one whose envelope fits its bound, and nothing otherwise.
pub open spec fn packet_decoded(data: Seq<u8>, r: Option<BridgePacket>) -> bool {
    &&& r matches Some(p) ==> packet_wf(p) && is_prefix(packet_bytes(p), data)
    &&& r is None ==> forall|p: BridgePacket| #[trigger] packet_wf(p) ==> !is_prefix(
        packet_bytes(p),
        data,
    )
    &&& forall|p: BridgePacket| #[trigger]
        packet_wf(p) && is_prefix(packet_bytes(p), data) ==> (r matches Some(q) && same_packet(p, q))
}

/// The SCALE bytes of a `u128` asset id (16 bytes, little-endian), as the
/// prover takes an asset id.
pub fn asset_id_bytes_u128(id: u128) -> (r: Vec<u8>)
    ensures
        r@ == le_bytes(id as int, 16),
{
    crate::bytes::le_bytes_vec(id, 16)
}

/// Copies `data[pos..pos + 32]`.
pub fn read_array32(data: &[u8], pos: usize) -> (r: [u8; 32])
    requires
        pos + 32 <= data.len(),
    ensures
        r@ == data@.subrange(pos as int, pos + 32),
{
    let mut out = [0u8; 32];
    let mut i: usize = 0;
    while i < 32
        invariant
            i <= 32,
            pos + 32 <= data.len(),
            out@.len() == 32,
            forall|j: int| 0 <= j < i ==> out@[j] == data@[pos + j],
        decreases 32 - i,
    {
        out[i] = data[pos + i];
        i = i + 1;
    }
    assert(out@ =~= data@.subrange(pos as int, pos + 32));
    out
}

/// Copies `data[pos..pos + 64]`.
pub fn read_array64(data: &[u8], pos: usize) -> (r: [u8; 64])
    requires
        pos + 64 <= data.len(),
    ensures
        r@ == data@.subrange(pos as int, pos + 64),
{
    let mut out = [0u8; 64];
    let mut i: usize = 0;
    while i < 64
        invariant
            i <= 64,
            pos + 64 <= data.len(),
            out@.len() == 64,
            forall|j: int| 0 <= j < i ==> out@[j] == data@[pos + j],
        decreases 64 - i,
    {
        out[i] = data[pos + i];
        i = i + 1;
    }
    assert(out@ =~= data@.subrange(pos as int, pos + 64));
    out
}

impl BridgePacket {
    /// SCALE-encodes the packet.
    pub fn encode(&self) -> (r: Vec<u8>)
        requires
            packet_wf(*self),
        ensures
            r@ == packet_bytes(*self),
    {
        let mut out: Vec<u8> = Vec::new();
        put_u64(&mut out, self.transfer_id);
        push_all(&mut out, &self.dest_account);
        put_u128(&mut out, self.asset);
        push_all(&mut out, &self.encrypted_amount);
        put_bytes(&mut out, self.accept_envelope.as_slice());
        assert(out@ =~= packet_bytes(*self));
        out
    }

    /// SCALE-decodes a packet from the start of `data`; trailing bytes are
    /// ignored. Fails when `data` does not start with the encoding of a packet
    /// whose envelope fits its bound.
    pub fn decode(data: &[u8]) -> (r: Option<BridgePacket>)
        ensures
            packet_decoded(data@, r),
    {
        if data.len() < 120 {
            proof {
                assert forall|p: BridgePacket| #[trigger] packet_wf(p) implies !is_prefix(
                    packet_bytes(p),
                    data@,
                ) by {
                    assert(packet_bytes(p).len() >= 120);
                }
            }
            return None;
        }
        let id = read_le(data, 0, 8) as u64;
        let dest = read_array32(data, 8);
        let asset = read_le(data, 40, 16);
        let ct = read_array64(data, 56);
        let env = read_bytes(data, 120);
        proof {
            lemma_le_value_bound_u64(data@.subrange(0, 8));
        }
        match env {
            None => {
                proof {
                    assert forall|p: BridgePacket| #[trigger] packet_wf(p) implies !is_prefix(
                        packet_bytes(p),
                        data@,
                    ) by {
                        if is_prefix(packet_bytes(p), data@) {
                            lemma_packet_tail(p, data@);
                        }
                    }
                }
                None
            },
            Some((envelope, next)) => {
                if envelope.len() > MAX_PROOF_LEN {
                    proof {
                        assert forall|p: BridgePacket| #[trigger] packet_wf(p) implies !is_prefix(
                            packet_bytes(p),
                            data@,
                        ) by {
                            if is_prefix(packet_bytes(p), data@) {
                                lemma_packet_tail(p, data@);
                            }
                        }
                    }
                    None
                } else {
                    let p = BridgePacket {
                        transfer_id: id,
                        dest_account: dest,
                        asset,
                        encrypted_amount: ct,
                        accept_envelope: envelope,
                    };
                    proof {
                        lemma_le_bytes_le_value(data@.subrange(0, 8));
                        lemma_le_bytes_le_value(data@.subrange(40, 56));
                        assert(data@.subrange(0, next as int) =~= packet_bytes(p));
                        assert forall|o: BridgePacket| #[trigger]
                            packet_wf(o) && is_prefix(packet_bytes(o), data@) implies same_packet(
                            o,
                            p,
                        ) by {
                            lemma_packet_tail(o, data@);
                            lemma_packet_fields(o, data@);
                        }
                    }
                    Some(p)
                }
            },
        }
    }
}

/// Decoding the encoding of a packet gives the same packet back.
pub proof fn law_packet_roundtrip(p: BridgePacket, r: Option<BridgePacket>)
    requires
        packet_wf(p),
        packet_decoded(packet_bytes(p), r),
    ensures
        r matches Some(q) && same_packet(p, q),
{
    assert(packet_bytes(p).subrange(0, packet_bytes(p).len() as int) =~= packet_bytes(p));
}

/// The fixed-width fields of a packet whose encoding `data` starts with.
proof fn lemma_packet_fields(p: BridgePacket, data: Seq<u8>)
    requires
        is_prefix(packet_bytes(p), data),
    ensures
        le_value(data.subrange(0, 8)) == p.transfer_id,
        data.subrange(8, 40) == p.dest_account@,
        le_value(data.subrange(40, 56)) == p.asset,
        data.subrange(56, 120) == p.encrypted_amount@,
{
    let pb = packet_bytes(p);
    assert(data.subrange(0, 8) =~= pb.subrange(0, 8));
    assert(pb.subrange(0, 8) =~= le_bytes(p.transfer_id as int, 8));
    assert(data.subrange(8, 40) =~= pb.subrange(8, 40));
    assert(data.subrange(40, 56) =~= pb.subrange(40, 56));
    assert(pb.subrange(40, 56) =~= le_bytes(p.asset as int, 16));
    assert(data.subrange(56, 120) =~= pb.subrange(56, 120));
    lemma_u64_below(p.transfer_id);
    lemma_u128_below(p.asset);
    lemma_le_value_le_bytes(p.transfer_id as nat, 8);
    lemma_le_value_le_bytes(p.asset as nat, 16);
}

/// The part of `data` after the fixed-width fields of a packet whose
/// encoding `data` starts with begins with the packet's envelope.
proof fn lemma_packet_tail(p: BridgePacket, data: Seq<u8>)
    requires
        is_prefix(packet_bytes(p), data),
        packet_wf(p),
    ensures
        p.accept_envelope@.len() <= u32::MAX,
        is_prefix(enc_bytes(p.accept_envelope@), data.subrange(120, data.len() as int)),
{
    let e = enc_bytes(p.accept_envelope@);
    let pb = packet_bytes(p);
    assert(pb.subrange(120, pb.len() as int) =~= e);
    assert(data.subrange(120, data.len() as int).subrange(0, e.len() as int) =~= data.subrange(
        0,
        pb.len() as int,
    ).subrange(120, pb.len() as int));
}

} // verus!
