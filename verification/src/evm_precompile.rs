//! EVM precompile for confidential assets: input checks, the pallet call each
//! Solidity function dispatches, and the log it emits once that call succeeds.
use vstd::prelude::*;
use crate::bytes::{be_bytes, be_bytes_vec, be_value, push_all, read_be_u128};

verus! {

/// Largest proof accepted (bytes), as in the primitives' `MaxProofLen`.
pub const MAX_PROOF_SIZE: u32 = 8192;

/// Largest public key accepted (bytes), as in the primitives' `MaxPubKeyLen`.
pub const MAX_PUBKEY_SIZE: u32 = 64;

/// Size of an ElGamal ciphertext (bytes).
pub const ENCRYPTED_AMOUNT_SIZE: u32 = 64;

/// `keccak256("PublicKeySet(address,bytes)")`
pub const SELECTOR_LOG_PUBLIC_KEY_SET: [u8; 32] = [
    0xb0, 0xfe, 0x23, 0x0b, 0x61, 0x40, 0xa0, 0x72, 0x6a, 0xd3, 0xda, 0x76, 0x04, 0x26, 0x53, 0xe8,
    0xed, 0x97, 0x2b, 0xae, 0xfb, 0x8d, 0xe8, 0x8e, 0x3c, 0xfd, 0x30, 0x43, 0x90, 0xa3, 0xd2, 0x08,
];

/// `keccak256("Deposit(uint128,address,uint256)")`
pub const SELECTOR_LOG_DEPOSIT: [u8; 32] = [
    0xbf, 0x0f, 0xa5, 0x72, 0xa3, 0x9b, 0xc5, 0x8d, 0xb0, 0xe7, 0x50, 0xf2, 0x11, 0x17, 0x20, 0xdb,
    0xf8, 0xce, 0x33, 0x8c, 0x3c, 0x37, 0xd4, 0xc6, 0xba, 0x0e, 0x64, 0x73, 0x36, 0x0c, 0xa4, 0x79,
];

/// `keccak256("Withdraw(uint128,address)")`
pub const SELECTOR_LOG_WITHDRAW: [u8; 32] = [
    0x20, 0x0f, 0xb3, 0x4e, 0x85, 0xae, 0x54, 0x99, 0xdb, 0xe3, 0xf7, 0x94, 0x99, 0x6e, 0xed, 0xdc,
    0x70, 0xe3, 0xd7, 0xfe, 0x47, 0x20, 0xf7, 0x34, 0x1f, 0x65, 0xa1, 0x8d, 0xe7, 0x31, 0x8f, 0x74,
];

/// `keccak256("ConfidentialTransfer(uint128,address,address)")`
pub const SELECTOR_LOG_CONFIDENTIAL_TRANSFER: [u8; 32] = [
    0x1d, 0x05, 0xf2, 0x84, 0xef, 0xca, 0x87, 0xb9, 0x3b, 0x4c, 0x75, 0x6e, 0xaf, 0x46, 0x9a, 0x26,
    0x81, 0x70, 0x80, 0x5c, 0xe6, 0x43, 0x21, 0x5e, 0xf3, 0x7f, 0x73, 0x22, 0xfc, 0xbe, 0x87, 0xee,
];

/// `keccak256("ConfidentialClaim(uint128,address)")`
pub const SELECTOR_LOG_CONFIDENTIAL_CLAIM: [u8; 32] = [
    0x7f, 0xbb, 0x1f, 0x98, 0xd2, 0x74, 0xb7, 0x36, 0x43, 0x14, 0xf9, 0x98, 0x1d, 0xd8, 0x1e, 0x5b,
    0x04, 0x85, 0x5e, 0x4f, 0x8f, 0x22, 0xda, 0xcf, 0x94, 0xe3, 0xb1, 0x02, 0xa6, 0x69, 0xcc, 0xb1,
];

/// Selector of `confidentialBalanceOf(uint128,address)`.
pub const SEL_CONFIDENTIAL_BALANCE_OF: [u8; 4] = [0xcd, 0x40, 0x09, 0x5b];

/// Selector of `confidentialTotalSupply(uint128)`.
pub const SEL_CONFIDENTIAL_TOTAL_SUPPLY: [u8; 4] = [0xef, 0xa1, 0x86, 0x41];

/// Selector of `name(uint128)`.
pub const SEL_NAME: [u8; 4] = [0xc6, 0x24, 0x44, 0x0a];

/// Selector of `symbol(uint128)`.
pub const SEL_SYMBOL: [u8; 4] = [0x11, 0x7f, 0x12, 0x64];

/// Selector of `decimals(uint128)`.
pub const SEL_DECIMALS: [u8; 4] = [0x09, 0xd2, 0xf9, 0xb4];

/// Selector of `setPublicKey(bytes)`.
pub const SEL_SET_PUBLIC_KEY: [u8; 4] = [0xa9, 0x1d, 0x58, 0xb4];

/// Selector of `deposit(uint128,uint256,bytes)`.
pub const SEL_DEPOSIT: [u8; 4] = [0x94, 0x67, 0x9b, 0xd1];

/// Selector of `withdraw(uint128,bytes,bytes)`.
pub const SEL_WITHDRAW: [u8; 4] = [0xf1, 0xf9, 0x15, 0x3b];

/// Selector of `confidentialTransfer(uint128,address,bytes,bytes)`.
pub const SEL_CONFIDENTIAL_TRANSFER: [u8; 4] = [0xf4, 0x9a, 0x00, 0x2f];

/// Selector of `confidentialClaim(uint128,bytes)`.
pub const SEL_CONFIDENTIAL_CLAIM: [u8; 4] = [0x12, 0xcb, 0x9d, 0x88];

/// A revert with its reason.
pub struct EvmRevert {
    pub reason: String,
}

/// Builds a revert carrying `msg`.
pub fn revert(msg: &str) -> (e: EvmRevert)
    ensures
        e.reason@ == msg@,
{
    EvmRevert { reason: msg.to_owned() }
}

/// The pallet call a state-changing precompile function dispatches on behalf
/// of the caller.
pub enum PalletCall {
    SetPublicKey { elgamal_pk: Vec<u8> },
    Deposit { asset: u128, amount: u128, proof: Vec<u8> },
    Withdraw { asset: u128, encrypted_amount: [u8; 64], proof: Vec<u8> },
    /// `to` is the EVM address of the receiver; the runtime's address mapping
    /// turns it into an account.
    ConfidentialTransfer { asset: u128, to: [u8; 20], encrypted_amount: [u8; 64], proof: Vec<u8> },
    ConfidentialClaim { asset: u128, proof: Vec<u8> },
}

/// An EVM log: its topics (the first is the event selector) and its data.
pub struct EvmLog {
    pub topics: Vec<[u8; 32]>,
    pub data: Vec<u8>,
}

/// What a state-changing function does: dispatch `call` as the caller, and,
/// when the dispatch succeeds, emit `log` from the precompile's address.
pub struct DispatchPlan {
    pub call: PalletCall,
    pub log: EvmLog,
}

/// Topic of an asset id: its 16 big-endian bytes right-aligned in 32 bytes.
pub open spec fn asset_topic_spec(asset: u128) -> Seq<u8> {
    Seq::new(16, |i: int| 0u8) + be_bytes(asset as int, 16)
}

/// Topic of an EVM address: its 20 bytes right-aligned in 32 bytes.
pub open spec fn address_topic_spec(a: Seq<u8>) -> Seq<u8> {
    Seq::new(12, |i: int| 0u8) + a
}

/// Copies 32 bytes of a vector into an array.
fn vec_to_array32(v: &Vec<u8>) -> (r: [u8; 32])
    requires
        v@.len() == 32,
    ensures
        r@ == v@,
{
    let mut out = [0u8; 32];
    let mut i: usize = 0;
    while i < 32
        invariant
            i <= 32,
            v@.len() == 32,
            out@.len() == 32,
            forall|j: int| 0 <= j < i ==> out@[j] == v@[j],
        decreases 32 - i,
    {
        out[i] = v[i];
        i = i + 1;
    }
    assert(out@ =~= v@);
    out
}

/// Topic of an asset id (`H256` with the id in its last 16 bytes, big-endian).
pub fn asset_topic(asset: u128) -> (r: [u8; 32])
    ensures
        r@ == asset_topic_spec(asset),
{
    let mut v: Vec<u8> = Vec::new();
    let mut i: usize = 0;
    while i < 16
        invariant
            i <= 16,
            v@ =~= Seq::new(i as nat, |j: int| 0u8),
        decreases 16 - i,
    {
        v.push(0u8);
        i = i + 1;
    }
    let be = be_bytes_vec(asset, 16);
    push_all(&mut v, be.as_slice());
    vec_to_array32(&v)
}

/// Topic of an EVM address (`H256::from(H160)`: 12 zero bytes, then the address).
pub fn address_topic(a: &[u8; 20]) -> (r: [u8; 32])
    ensures
        r@ == address_topic_spec(a@),
{
    let mut v: Vec<u8> = Vec::new();
    let mut i: usize = 0;
    while i < 12
        invariant
            i <= 12,
            v@ =~= Seq::new(i as nat, |j: int| 0u8),
        decreases 12 - i,
    {
        v.push(0u8);
        i = i + 1;
    }
    push_all(&mut v, a);
    vec_to_array32(&v)
}

/// Copies a vector of exactly 64 bytes into an encrypted amount.
fn to_encrypted_amount(v: &Vec<u8>) -> (r: Option<[u8; 64]>)
    ensures
        r is Some <==> v@.len() == 64,
        r matches Some(a) ==> a@ == v@,
{
    if v.len() != 64 {
        return None;
    }
    let mut out = [0u8; 64];
    let mut i: usize = 0;
    while i < 64
        invariant
            i <= 64,
            v@.len() == 64,
            out@.len() == 64,
            forall|j: int| 0 <= j < i ==> out@[j] == v@[j],
        decreases 64 - i,
    {
        out[i] = v[i];
        i = i + 1;
    }
    assert(out@ =~= v@);
    Some(out)
}

/// Copies a byte slice into a vector.
fn to_vec(src: &[u8]) -> (r: Vec<u8>)
    ensures
        r@ == src@,
{
    let mut v: Vec<u8> = Vec::new();
    push_all(&mut v, src);
    assert(v@ =~= src@);
    v
}

/// `setPublicKey(bytes pubkey)`: sets the caller's public key.
pub fn set_public_key(caller: &[u8; 20], pubkey: Vec<u8>) -> (r: Result<DispatchPlan, EvmRevert>)
    ensures
        pubkey@.len() > MAX_PUBKEY_SIZE <==> r is Err,
        r matches Err(e) ==> e.reason@ == "pubkey: Value is too large for length"@,
        r matches Ok(plan) ==> {
            &&& plan.call matches PalletCall::SetPublicKey { elgamal_pk } && elgamal_pk@ == pubkey@
            &&& plan.log.topics@.len() == 2
            &&& plan.log.topics@[0] == SELECTOR_LOG_PUBLIC_KEY_SET
            &&& plan.log.topics@[1]@ == address_topic_spec(caller@)
            &&& plan.log.data@ == pubkey@
        },
{
    proof {
        reveal_strlit("pubkey: Value is too large for length");
    }
    if pubkey.len() > 64 {
        return Err(revert("pubkey: Value is too large for length"));
    }
    let data = to_vec(pubkey.as_slice());
    let mut topics: Vec<[u8; 32]> = Vec::new();
    topics.push(SELECTOR_LOG_PUBLIC_KEY_SET);
    topics.push(address_topic(caller));
    Ok(DispatchPlan { call: PalletCall::SetPublicKey { elgamal_pk: pubkey }, log: EvmLog { topics, data } })
}

/// Value of a 256-bit big-endian amount when it fits in a `u128` balance.
pub open spec fn amount_fits(amount: Seq<u8>) -> bool {
    forall|i: int| 0 <= i < 16 ==> amount[i] == 0u8
}

/// `deposit(uint128 asset, uint256 amount, bytes proof)`: shields public funds.
/// `amount` is the `uint256` in big-endian bytes.
pub fn deposit(caller: &[u8; 20], asset: u128, amount: &[u8; 32], proof: Vec<u8>) -> (r: Result<DispatchPlan, EvmRevert>)
    ensures
        r is Err <==> (proof@.len() > MAX_PROOF_SIZE || !amount_fits(amount@)),
        r matches Err(e) ==> e.reason@ == (if proof@.len() > MAX_PROOF_SIZE {
            "proof: Value is too large for length"@
        } else {
            "amount overflow"@
        }),
        r matches Ok(plan) ==> {
            &&& plan.call matches PalletCall::Deposit { asset: a, amount: v, proof: p }
                && a == asset && v as nat == be_value(amount@) && p@ == proof@
            &&& plan.log.topics@.len() == 3
            &&& plan.log.topics@[0] == SELECTOR_LOG_DEPOSIT
            &&& plan.log.topics@[1]@ == asset_topic_spec(asset)
            &&& plan.log.topics@[2]@ == address_topic_spec(caller@)
            &&& plan.log.data@ == amount@
        },
{
    proof {
        reveal_strlit("proof: Value is too large for length");
        reveal_strlit("amount overflow");
    }
    if proof.len() > 8192 {
        return Err(revert("proof: Value is too large for length"));
    }
    let mut i: usize = 0;
    while i < 16
        invariant
            i <= 16,
            amount@.len() == 32,
            proof@.len() <= 8192,
            forall|j: int| 0 <= j < i ==> amount@[j] == 0u8,
        decreases 16 - i,
    {
        if amount[i] != 0 {
            return Err(revert("amount overflow"));
        }
        i = i + 1;
    }
    let balance = read_be_u128(amount, 16, 16);
    proof {
        lemma_high_zero_be_value(amount@, 16);
        assert(amount@.subrange(16, 32) =~= amount@.subrange(16, 32));
    }
    let data = to_vec(amount);
    let mut topics: Vec<[u8; 32]> = Vec::new();
    topics.push(SELECTOR_LOG_DEPOSIT);
    topics.push(asset_topic(asset));
    topics.push(address_topic(caller));
    Ok(
        DispatchPlan {
            call: PalletCall::Deposit { asset, amount: balance, proof },
            log: EvmLog { topics, data },
        },
    )
}

/// Leading zero bytes do not change a big-endian value.
pub proof fn lemma_high_zero_be_value(s: Seq<u8>, k: int)
    requires
        0 <= k <= s.len(),
        forall|i: int| 0 <= i < k ==> s[i] == 0u8,
    ensures
        be_value(s) == be_value(s.subrange(k, s.len() as int)),
    decreases s.len(),
{
    if s.len() == k {
        assert(s.subrange(k, s.len() as int) =~= Seq::<u8>::empty());
        lemma_zero_be_value(s);
    } else {
        let t = s.drop_last();
        lemma_high_zero_be_value(t, k);
        assert(s.subrange(k, s.len() as int).drop_last() =~= t.subrange(k, t.len() as int));
    }
}

/// All-zero bytes have value zero.
pub proof fn lemma_zero_be_value(s: Seq<u8>)
    requires
        forall|i: int| 0 <= i < s.len() ==> s[i] == 0u8,
    ensures
        be_value(s) == 0,
    decreases s.len(),
{
    if s.len() > 0 {
        lemma_zero_be_value(s.drop_last());
    }
}

/// `withdraw(uint128 asset, bytes encryptedAmount, bytes proof)`: unshields.
pub fn withdraw(caller: &[u8; 20], asset: u128, encrypted_amount: Vec<u8>, proof: Vec<u8>) -> (r: Result<DispatchPlan, EvmRevert>)
    ensures
        r is Err <==> (encrypted_amount@.len() != 64 || proof@.len() > MAX_PROOF_SIZE),
        r matches Err(e) ==> e.reason@ == (if encrypted_amount@.len() > 64 {
            "encrypted_amount: Value is too large for length"@
        } else if proof@.len() > MAX_PROOF_SIZE {
            "proof: Value is too large for length"@
        } else {
            "encrypted amount must be 64 bytes"@
        }),
        r matches Ok(plan) ==> {
            &&& plan.call matches PalletCall::Withdraw { asset: a, encrypted_amount: c, proof: p }
                && a == asset && c@ == encrypted_amount@ && p@ == proof@
            &&& plan.log.topics@.len() == 3
            &&& plan.log.topics@[0] == SELECTOR_LOG_WITHDRAW
            &&& plan.log.topics@[1]@ == asset_topic_spec(asset)
            &&& plan.log.topics@[2]@ == address_topic_spec(caller@)
            &&& plan.log.data@.len() == 0
        },
{
    proof {
        reveal_strlit("encrypted_amount: Value is too large for length");
        reveal_strlit("proof: Value is too large for length");
        reveal_strlit("encrypted amount must be 64 bytes");
    }
    if encrypted_amount.len() > 64 {
        return Err(revert("encrypted_amount: Value is too large for length"));
    }
    if proof.len() > 8192 {
        return Err(revert("proof: Value is too large for length"));
    }
    let encrypted_arr = match to_encrypted_amount(&encrypted_amount) {
        Some(a) => a,
        None => {
            return Err(revert("encrypted amount must be 64 bytes"));
        },
    };
    let mut topics: Vec<[u8; 32]> = Vec::new();
    topics.push(SELECTOR_LOG_WITHDRAW);
    topics.push(asset_topic(asset));
    topics.push(address_topic(caller));
    Ok(
        DispatchPlan {
            call: PalletCall::Withdraw { asset, encrypted_amount: encrypted_arr, proof },
            log: EvmLog { topics, data: Vec::new() },
        },
    )
}

/// `confidentialTransfer(uint128 asset, address to, bytes encryptedAmount, bytes proof)`.
pub fn confidential_transfer(
    caller: &[u8; 20],
    asset: u128,
    to: &[u8; 20],
    encrypted_amount: Vec<u8>,
    proof: Vec<u8>,
) -> (r: Result<DispatchPlan, EvmRevert>)
    ensures
        r is Err <==> (encrypted_amount@.len() != 64 || proof@.len() > MAX_PROOF_SIZE),
        r matches Err(e) ==> e.reason@ == (if encrypted_amount@.len() > 64 {
            "encrypted_amount: Value is too large for length"@
        } else if proof@.len() > MAX_PROOF_SIZE {
            "proof: Value is too large for length"@
        } else {
            "encrypted amount must be 64 bytes"@
        }),
        r matches Ok(plan) ==> {
            &&& plan.call matches PalletCall::ConfidentialTransfer { asset: a, to: t, encrypted_amount: c, proof: p }
                && a == asset && t@ == to@ && c@ == encrypted_amount@ && p@ == proof@
            &&& plan.log.topics@.len() == 4
            &&& plan.log.topics@[0] == SELECTOR_LOG_CONFIDENTIAL_TRANSFER
            &&& plan.log.topics@[1]@ == asset_topic_spec(asset)
            &&& plan.log.topics@[2]@ == address_topic_spec(caller@)
            &&& plan.log.topics@[3]@ == address_topic_spec(to@)
            &&& plan.log.data@.len() == 0
        },
{
    proof {
        reveal_strlit("encrypted_amount: Value is too large for length");
        reveal_strlit("proof: Value is too large for length");
        reveal_strlit("encrypted amount must be 64 bytes");
    }
    if encrypted_amount.len() > 64 {
        return Err(revert("encrypted_amount: Value is too large for length"));
    }
    if proof.len() > 8192 {
        return Err(revert("proof: Value is too large for length"));
    }
    let encrypted_arr = match to_encrypted_amount(&encrypted_amount) {
        Some(a) => a,
        None => {
            return Err(revert("encrypted amount must be 64 bytes"));
        },
    };
    let mut topics: Vec<[u8; 32]> = Vec::new();
    topics.push(SELECTOR_LOG_CONFIDENTIAL_TRANSFER);
    topics.push(asset_topic(asset));
    topics.push(address_topic(caller));
    topics.push(address_topic(to));
    Ok(
        DispatchPlan {
            call: PalletCall::ConfidentialTransfer { asset, to: *to, encrypted_amount: encrypted_arr, proof },
            log: EvmLog { topics, data: Vec::new() },
        },
    )
}

/// `confidentialClaim(uint128 asset, bytes proof)`: claims pending deposits.
pub fn confidential_claim(caller: &[u8; 20], asset: u128, proof: Vec<u8>) -> (r: Result<DispatchPlan, EvmRevert>)
    ensures
        r is Err <==> proof@.len() > MAX_PROOF_SIZE,
        r matches Err(e) ==> e.reason@ == "proof: Value is too large for length"@,
        r matches Ok(plan) ==> {
            &&& plan.call matches PalletCall::ConfidentialClaim { asset: a, proof: p } && a == asset && p@ == proof@
            &&& plan.log.topics@.len() == 3
            &&& plan.log.topics@[0] == SELECTOR_LOG_CONFIDENTIAL_CLAIM
            &&& plan.log.topics@[1]@ == asset_topic_spec(asset)
            &&& plan.log.topics@[2]@ == address_topic_spec(caller@)
            &&& plan.log.data@.len() == 0
        },
{
    proof {
        reveal_strlit("proof: Value is too large for length");
    }
    if proof.len() > 8192 {
        return Err(revert("proof: Value is too large for length"));
    }
    let mut topics: Vec<[u8; 32]> = Vec::new();
    topics.push(SELECTOR_LOG_CONFIDENTIAL_CLAIM);
    topics.push(asset_topic(asset));
    topics.push(address_topic(caller));
    Ok(DispatchPlan { call: PalletCall::ConfidentialClaim { asset, proof }, log: EvmLog { topics, data: Vec::new() } })
}

} // verus!
