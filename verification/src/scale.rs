//! The SCALE wire format of the messages the pallets exchange: fixed-width
//! little-endian integers, raw byte arrays, and length-prefixed byte strings
//! whose compact length prefix comes from `parity_scale_codec`.
use vstd::prelude::*;
use vstd::arithmetic::power::{pow, lemma_pow_positive};
use vstd::arithmetic::div_mod::{lemma_div_denominator, lemma_fundamental_div_mod};
use crate::bytes::{le_bytes, le_value, le_bytes_vec, push_all};

verus! {

/// The canonical compact encoding of a 32-bit length.
pub open spec fn compact_u32(n: nat) -> Seq<u8> {
    if n < 64 {
        seq![(n * 4) as u8]
    } else if n < 0x4000 {
        le_bytes((n * 4 + 1) as int, 2)
    } else if n < 0x4000_0000 {
        le_bytes((n * 4 + 2) as int, 4)
    } else {
        seq![3u8] + le_bytes(n as int, 4)
    }
}

/// `p` is a prefix of `s`.
pub open spec fn is_prefix(p: Seq<u8>, s: Seq<u8>) -> bool {
    p.len() <= s.len() && s.subrange(0, p.len() as int) == p
}

/// A prefix of `data` agrees with `data` on every range inside it.
pub proof fn lemma_prefix_range(p: Seq<u8>, data: Seq<u8>, a: int, b: int)
    requires
        is_prefix(p, data),
        0 <= a <= b <= p.len(),
    ensures
        data.subrange(a, b) == p.subrange(a, b),
{
    assert(data.subrange(a, b) =~= data.subrange(0, p.len() as int).subrange(a, b));
}

/// A length-prefixed byte string.
pub open spec fn enc_bytes(b: Seq<u8>) -> Seq<u8> {
    compact_u32(b.len()) + b
}

/// `parity_scale_codec::Compact::<u32>::encode`: the canonical compact
/// encoding, stated here in full (one to five bytes by magnitude).
#[verifier::external_body]
fn compact_encode(n: u32) -> (r: Vec<u8>)
    ensures
        r@ == compact_u32(n as nat),
{
    parity_scale_codec::Encode::encode(&parity_scale_codec::Compact(n))
}

/// `parity_scale_codec::Compact::<u32>::decode` on a byte slice. The decoder
/// accepts canonical encodings only, so it succeeds exactly when the input
/// starts with `compact_u32(n)` for some `n`, and then returns that `n` and
/// the length of what follows it.
#[verifier::external_body]
fn compact_decode(bytes: &[u8]) -> (r: Option<(u32, usize)>)
    ensures
        r matches Some((n, rest)) ==> is_prefix(compact_u32(n as nat), bytes@) && rest
            == bytes@.len() - compact_u32(n as nat).len(),
        forall|n: u32| #[trigger]
            is_prefix(compact_u32(n as nat), bytes@) ==> r == Some(
                (n, (bytes@.len() - compact_u32(n as nat).len()) as usize),
            ),
{
    let mut input = bytes;
    match <parity_scale_codec::Compact<u32> as parity_scale_codec::Decode>::decode(&mut input) {
        Ok(c) => Some((c.0, input.len())),
        Err(_) => None,
    }
}

/// The little-endian bytes of a value below `256^n` read back as that value.
pub proof fn lemma_le_value_le_bytes(v: nat, n: nat)
    requires
        v < pow(256, n),
    ensures
        le_value(le_bytes(v as int, n)) == v,
    decreases n,
{
    reveal(pow);
    if n == 0 {
        assert(le_bytes(v as int, 0) =~= Seq::<u8>::empty());
    } else {
        let s = le_bytes(v as int, n);
        let w: nat = v / 256;
        lemma_pow_positive(256, (n - 1) as nat);
        assert(w < pow(256, (n - 1) as nat)) by {
            lemma_fundamental_div_mod(v as int, 256);
            assert(pow(256, n) == 256 * pow(256, (n - 1) as nat));
            assert(256 * w <= v) by (nonlinear_arith)
                requires
                    w == v / 256,
            ;
            assert(256 * w < 256 * pow(256, (n - 1) as nat));
        }
        assert forall|i: int| 0 <= i < n - 1 implies s.drop_first()[i] == le_bytes(
            w as int,
            (n - 1) as nat,
        )[i] by {
            lemma_pow_positive(256, i as nat);
            lemma_div_denominator(v as int, 256, pow(256, i as nat));
            assert(pow(256, (i + 1) as nat) == 256 * pow(256, i as nat));
        }
        assert(s.drop_first() =~= le_bytes(w as int, (n - 1) as nat));
        lemma_le_value_le_bytes(w, (n - 1) as nat);
        assert(s[0] == (v % 256) as u8);
        lemma_fundamental_div_mod(v as int, 256);
    }
}

/// A byte string is the little-endian encoding of its own value.
pub proof fn lemma_le_bytes_le_value(s: Seq<u8>)
    ensures
        le_bytes(le_value(s) as int, s.len()) == s,
    decreases s.len(),
{
    reveal(pow);
    let v = le_value(s);
    if s.len() == 0 {
        assert(le_bytes(v as int, 0) =~= s);
    } else {
        let t = s.drop_first();
        lemma_le_bytes_le_value(t);
        let w = le_value(t);
        assert(v == s[0] + 256 * w);
        assert(v / 256 == w && v % 256 == s[0]) by {
            lemma_fundamental_div_mod(v as int, 256);
            vstd::arithmetic::div_mod::lemma_div_multiples_vanish_fancy(w as int, s[0] as int, 256);
            vstd::arithmetic::div_mod::lemma_mod_multiples_vanish(w as int, s[0] as int, 256);
            vstd::arithmetic::div_mod::lemma_small_mod(s[0] as nat, 256);
        }
        assert forall|i: int| 0 <= i < s.len() implies le_bytes(v as int, s.len())[i] == s[i] by {
            if i > 0 {
                lemma_pow_positive(256, (i - 1) as nat);
                lemma_div_denominator(v as int, 256, pow(256, (i - 1) as nat));
                assert(pow(256, i as nat) == 256 * pow(256, (i - 1) as nat));
                assert(le_bytes(w as int, t.len())[i - 1] == t[i - 1]);
            }
        }
        assert(le_bytes(v as int, s.len()) =~= s);
    }
}

/// Eight little-endian bytes hold a value that fits in 64 bits.
pub proof fn lemma_le_value_bound_u64(s: Seq<u8>)
    requires
        s.len() == 8,
    ensures
        le_value(s) <= u64::MAX,
{
    lemma_le_value_bound(s);
    assert(pow(256, 8) == 0x1_0000_0000_0000_0000) by {
        reveal_with_fuel(pow, 9);
    }
}

/// A `u64` is below `256^8`.
pub proof fn lemma_u64_below(v: u64)
    ensures
        v < pow(256, 8),
{
    assert(pow(256, 8) == 0x1_0000_0000_0000_0000) by {
        reveal_with_fuel(pow, 9);
    }
}

/// A `u128` is below `256^16`.
pub proof fn lemma_u128_below(v: u128)
    ensures
        v < pow(256, 16),
{
    assert(pow(256, 16) == 0x1_0000_0000_0000_0000_0000_0000_0000_0000) by {
        reveal_with_fuel(pow, 17);
    }
}

/// Appends the 8 little-endian bytes of `v`.
pub fn put_u64(out: &mut Vec<u8>, v: u64)
    ensures
        final(out)@ == old(out)@ + le_bytes(v as int, 8),
{
    let b = le_bytes_vec(v as u128, 8);
    push_all(out, b.as_slice());
}

/// Appends the 16 little-endian bytes of `v`.
pub fn put_u128(out: &mut Vec<u8>, v: u128)
    ensures
        final(out)@ == old(out)@ + le_bytes(v as int, 16),
{
    let b = le_bytes_vec(v, 16);
    push_all(out, b.as_slice());
}

/// Appends `b` with its compact length prefix.
pub fn put_bytes(out: &mut Vec<u8>, b: &[u8])
    requires
        b@.len() <= u32::MAX,
    ensures
        final(out)@ == old(out)@ + enc_bytes(b@),
{
    let prefix = compact_encode(b.len() as u32);
    push_all(out, prefix.as_slice());
    push_all(out, b);
    assert(final(out)@ =~= old(out)@ + enc_bytes(b@));
}

/// `256^k` fits in 128 bits for `k <= 16`.
proof fn lemma_pow256_bound(k: nat)
    requires
        k <= 16,
    ensures
        pow(256, k) <= 0x1_0000_0000_0000_0000_0000_0000_0000_0000,
{
    vstd::arithmetic::power::lemma_pow_increases(256, k, 16);
    assert(pow(2, 8) == 256) by {
        reveal_with_fuel(pow, 9);
    }
    vstd::arithmetic::power::lemma_pow_multiplies(2, 8, 16);
    vstd::arithmetic::power2::lemma_pow2(128);
    vstd::arithmetic::power2::lemma2_to64();
    vstd::arithmetic::power2::lemma_pow2_adds(64, 64);
}

/// Reads `data[start..start + len]` as a little-endian unsigned integer.
pub fn read_le(data: &[u8], start: usize, len: usize) -> (r: u128)
    requires
        start + len <= data.len(),
        len <= 16,
    ensures
        r as nat == le_value(data@.subrange(start as int, start + len)),
    decreases len,
{
    if len == 0 {
        0
    } else {
        let rest = read_le(data, start + 1, len - 1);
        let ghost s = data@.subrange(start as int, start + len);
        assert(s.drop_first() =~= data@.subrange(start + 1, start + len));
        proof {
            lemma_le_value_bound(s.drop_first());
            lemma_pow256_bound(len as nat);
            assert(pow(256, len as nat) == 256 * pow(256, (len - 1) as nat)) by {
                reveal(pow);
            }
            assert(256 * rest + data@[start as int] < 256 * pow(256, (len - 1) as nat))
                by (nonlinear_arith)
                requires
                    rest < pow(256, (len - 1) as nat),
                    data@[start as int] < 256,
            ;
        }
        data[start] as u128 + 256 * rest
    }
}

/// A little-endian value of `n` bytes is below `256^n`.
pub proof fn lemma_le_value_bound(s: Seq<u8>)
    ensures
        le_value(s) < pow(256, s.len()),
    decreases s.len(),
{
    reveal(pow);
    if s.len() > 0 {
        lemma_le_value_bound(s.drop_first());
        assert(s[0] + 256 * le_value(s.drop_first()) < 256 * pow(256, (s.len() - 1) as nat))
            by (nonlinear_arith)
            requires
                le_value(s.drop_first()) < pow(256, (s.len() - 1) as nat),
                s[0] < 256,
        ;
    }
}

/// Reads a length-prefixed byte string at `pos`; on success, returns the
/// bytes and the position after them.
pub fn read_bytes(data: &[u8], pos: usize) -> (r: Option<(Vec<u8>, usize)>)
    requires
        pos <= data.len(),
    ensures
        r matches Some((b, next)) ==> {
            &&& b@.len() <= u32::MAX
            &&& next == pos + enc_bytes(b@).len()
            &&& next <= data@.len()
            &&& data@.subrange(pos as int, next as int) == enc_bytes(b@)
        },
        forall|b: Seq<u8>|
            b.len() <= u32::MAX && is_prefix(
                #[trigger] enc_bytes(b),
                data@.subrange(pos as int, data@.len() as int),
            ) ==> (r matches Some((v, next)) && v@ == b && next == pos + enc_bytes(b).len()),
{
    let (_, tail) = data.split_at(pos);
    let dec = compact_decode(tail);
    proof {
        assert forall|b: Seq<u8>|
            b.len() <= u32::MAX && is_prefix(#[trigger] enc_bytes(b), tail@) implies dec == Some(
                (b.len() as u32, (tail@.len() - compact_u32(b.len()).len()) as usize),
            ) by {
            let n = b.len() as u32;
            let c = compact_u32(n as nat);
            let e = enc_bytes(b);
            assert(n as nat == b.len());
            assert(tail@.subrange(0, e.len() as int) == e);
            assert(e.subrange(0, c.len() as int) =~= c);
            assert(tail@.subrange(0, c.len() as int) =~= tail@.subrange(0, e.len() as int).subrange(
                0,
                c.len() as int,
            ));
            assert(is_prefix(c, tail@));
        }
    }
    match dec {
        None => None,
        Some((n, rest)) => {
            let start: usize = data.len() - rest;
            if (n as usize) > rest {
                None
            } else {
                let mut out: Vec<u8> = Vec::new();
                let mut i: usize = 0;
                while i < n as usize
                    invariant
                        i <= n,
                        start + n <= data.len(),
                        out@ =~= data@.subrange(start as int, start + i),
                    decreases n - i,
                {
                    out.push(data[start + i]);
                    i = i + 1;
                }
                let next: usize = start + n as usize;
                proof {
                    let c = compact_u32(n as nat);
                    assert(start == pos + c.len());
                    assert(data@.subrange(pos as int, next as int) =~= c + out@) by {
                        assert(tail@.subrange(0, c.len() as int) == c);
                    }
                    assert forall|b: Seq<u8>|
                        b.len() <= u32::MAX && is_prefix(
                            #[trigger] enc_bytes(b),
                            data@.subrange(pos as int, data@.len() as int),
                        ) implies out@ == b by {
                        assert(dec == Some(
                            (b.len() as u32, (tail@.len() - compact_u32(b.len()).len()) as usize),
                        ));
                        assert(out@ =~= enc_bytes(b).subrange(c.len() as int, enc_bytes(b).len() as int));
                    }
                }
                Some((out, next))
            }
        }
    }
}

} // verus!
