//! PolkaVM precompile for the confidential assets pallet: its address, its
//! Solidity ABI helpers and the answer it gives to each view call.
use vstd::prelude::*;
use crate::bytes::{be_bytes, be_value, lemma_be_value_bound, lemma_be_value_be_bytes, read_be_u128};

pub mod selectors;

verus! {

/// The precompile is registered at `0x0000000000000000000000000000000C010000`
/// (`C01` = "Confidential 01").
pub const PRECOMPILE_ADDRESS: u16 = 0x0C01;

/// Value of the low 16 bytes of a 32-byte ABI word (a `uint128`).
pub open spec fn abi_word_u128(data: Seq<u8>) -> nat {
    be_value(data.subrange(16, 32))
}

/// Value of the low 8 bytes of a 32-byte ABI word, read as a `u64`.
pub open spec fn abi_word_u64(data: Seq<u8>) -> nat {
    be_value(data.subrange(24, 32))
}

/// The ABI word of a `uint128`: 16 zero bytes, then the value big-endian.
pub open spec fn abi_encode_u128_spec(v: u128) -> Seq<u8> {
    Seq::new(16, |i: int| 0u8) + be_bytes(v as int, 16)
}

/// A `uint128` ABI word decodes to the value it encodes.
pub proof fn law_abi_u128_roundtrip(v: u128)
    ensures
        abi_encode_u128_spec(v).len() == 32,
        abi_word_u128(abi_encode_u128_spec(v)) == v,
{
    let e = abi_encode_u128_spec(v);
    assert(e.subrange(16, 32) =~= be_bytes(v as int, 16));
    assert(vstd::arithmetic::power::pow(256, 16) == 0x1_0000_0000_0000_0000_0000_0000_0000_0000) by {
        reveal_with_fuel(vstd::arithmetic::power::pow, 17);
    }
    lemma_be_value_be_bytes(v as nat, 16);
}

/// Decodes a `u128` from a 32-byte ABI-encoded slot (right-aligned).
pub fn decode_u128(data: &[u8]) -> (r: Result<u128, ()>)
    ensures
        data@.len() < 32 <==> r is Err,
        r matches Ok(v) ==> v as nat == abi_word_u128(data@),
{
    if data.len() < 32 {
        return Err(());
    }
    Ok(read_be_u128(data, 16, 16))
}

/// Decodes a `u256` ABI word as a `usize` (offsets and lengths); only the low
/// 8 bytes are read.
pub fn decode_u256_as_usize(data: &[u8]) -> (r: Result<usize, ()>)
    ensures
        data@.len() < 32 <==> r is Err,
        r matches Ok(v) ==> v == (abi_word_u64(data@) as u64) as usize,
{
    if data.len() < 32 {
        return Err(());
    }
    let w = read_be_u128(data, 24, 8);
    proof {
        lemma_be_value_bound(data@.subrange(24, 32));
        vstd::arithmetic::power2::lemma2_to64();
        vstd::arithmetic::power2::lemma2_to64_rest();
    }
    let v: u64 = w as u64;
    Ok(v as usize)
}

/// Length word read by [`decode_dynamic_bytes`] at `offset`.
pub open spec fn dynamic_len(input: Seq<u8>, offset: int) -> int {
    ((abi_word_u64(input.subrange(offset, offset + 32)) as u64) as usize) as int
}

/// Decodes dynamic `bytes` whose length word starts at `offset`: the bytes
/// that follow the length word, or `Err` when the input is too short.
pub fn decode_dynamic_bytes(input: &[u8], offset: usize) -> (r: Result<Vec<u8>, ()>)
    requires
        offset + 32 <= usize::MAX,
        offset + 32 <= input@.len() ==> offset + 32 + dynamic_len(input@, offset as int)
            <= usize::MAX,
    ensures
        r is Ok <==> (offset + 32 <= input@.len() && offset + 32 + dynamic_len(input@, offset as int)
            <= input@.len()),
        r matches Ok(v) ==> v@ == input@.subrange(
            offset + 32,
            offset + 32 + dynamic_len(input@, offset as int),
        ),
{
    if offset + 32 > input.len() {
        return Err(());
    }
    // The length word: only its low 8 bytes are read.
    let w = read_be_u128(input, offset + 24, 8);
    proof {
        lemma_be_value_bound(input@.subrange(offset + 24, offset + 32));
        vstd::arithmetic::power2::lemma2_to64();
        vstd::arithmetic::power2::lemma2_to64_rest();
        assert(input@.subrange(offset as int, offset + 32).subrange(24, 32) =~= input@.subrange(
            offset + 24,
            offset + 32,
        ));
    }
    let length: usize = (w as u64) as usize;
    if offset + 32 + length > input.len() {
        return Err(());
    }
    let start = offset + 32;
    let end = start + length;
    let mut out: Vec<u8> = Vec::new();
    let mut i: usize = start;
    while i < end
        invariant
            start <= i <= end,
            end <= input@.len(),
            out@ == input@.subrange(start as int, i as int),
        decreases end - i,
    {
        out.push(input[i]);
        i = i + 1;
        assert(out@ =~= input@.subrange(start as int, i as int));
    }
    Ok(out)
}

/// A view call of the precompile's Solidity interface, decoded.
pub enum ReviveCall {
    ConfidentialBalance { asset_id: u128, account: [u8; 32] },
    PublicKey { account: [u8; 32] },
    TotalSupply { asset_id: u128 },
}

/// An error that reverts the call with a reason.
pub enum PrecompileError {
    Revert { reason: String },
}

/// Builds a revert error carrying `msg`.
pub fn revert_error(msg: &str) -> (e: PrecompileError)
    ensures
        e matches PrecompileError::Revert { reason } && reason@ == msg@,
{
    PrecompileError::Revert { reason: msg.to_owned() }
}

/// The zero `bytes32` word, the answer to a key query for an account that
/// registered no key.
pub fn zero_word() -> (r: Vec<u8>)
    ensures
        r@ == Seq::new(32, |i: int| 0u8),
{
    let mut out: Vec<u8> = Vec::new();
    let mut i: usize = 0;
    while i < 32
        invariant
            i <= 32,
            out@ == Seq::new(i as nat, |j: int| 0u8),
        decreases 32 - i,
    {
        out.push(0u8);
        i = i + 1;
    }
    out
}

/// What the precompile answers to `call`, given what storage returned for it:
/// the commitment for a balance or total supply query, the registered public
/// key (if any) for a key query. Each query returns `bytes32`, whose ABI
/// encoding is the one 32-byte word holding the bytes themselves.
pub open spec fn call_result(call: ReviveCall, stored: Option<Seq<u8>>) -> Result<Seq<u8>, Seq<char>> {
    match call {
        ReviveCall::PublicKey { .. } => match stored {
            None => Ok(Seq::new(32, |i: int| 0u8)),
            Some(k) => if k.len() == 32 {
                Ok(k)
            } else {
                Err("Invalid key length"@)
            },
        },
        _ => {
            let c = match stored {
                Some(c) => c,
                None => Seq::empty(),
            };
            if c.len() == 32 {
                Ok(c)
            } else {
                Err("Invalid commitment length"@)
            }
        },
    }
}

/// Each view call answers with the stored 32 bytes themselves: a balance or
/// total-supply query with the stored commitment, a key query with the
/// registered key or, for an account without one, the zero word. A stored
/// value of another length reverts.
pub proof fn law_view_answers_stored_word(call: ReviveCall, stored: Option<Seq<u8>>)
    ensures
        !(call is PublicKey) ==> match stored {
            Some(c) => if c.len() == 32 {
                call_result(call, stored) == Ok::<Seq<u8>, Seq<char>>(c)
            } else {
                call_result(call, stored) is Err
            },
            None => call_result(call, stored) is Err,
        },
        call is PublicKey ==> match stored {
            Some(k) => if k.len() == 32 {
                call_result(call, stored) == Ok::<Seq<u8>, Seq<char>>(k)
            } else {
                call_result(call, stored) is Err
            },
            None => call_result(call, stored) matches Ok(w) && w.len() == 32 && forall|i: int|
                0 <= i < 32 ==> w[i] == 0u8,
        },
{
}

/// The bytes held by an optional byte vector.
pub open spec fn opt_bytes_view(v: Option<Vec<u8>>) -> Option<Seq<u8>> {
    match v {
        Some(b) => Some(b@),
        None => None,
    }
}

/// Answers one view call of the precompile. `stored` is what storage returned
/// for it: the commitment of a balance or total supply query, and for a key
/// query the account's registered key, `None` when it has none (answered with
/// the zero word).
pub fn call(input: &ReviveCall, stored: Option<Vec<u8>>) -> (r: Result<Vec<u8>, PrecompileError>)
    ensures
        match (r, call_result(*input, opt_bytes_view(stored))) {
            (Ok(out), Ok(expected)) => out@ == expected,
            (Err(PrecompileError::Revert { reason }), Err(msg)) => reason@ == msg,
            _ => false,
        },
{
    proof {
        reveal_strlit("Invalid key length");
        reveal_strlit("Invalid commitment length");
    }
    match input {
        ReviveCall::PublicKey { .. } => match stored {
            None => Ok(zero_word()),
            Some(key) => if key.len() == 32 {
                Ok(key)
            } else {
                Err(revert_error("Invalid key length"))
            },
        },
        _ => {
            let commitment: Vec<u8> = match stored {
                Some(c) => c,
                None => Vec::new(),
            };
            if commitment.len() == 32 {
                Ok(commitment)
            } else {
                Err(revert_error("Invalid commitment length"))
            }
        },
    }
}

} // verus!
