//! Byte-level helpers shared by the encoders and decoders of the crate.
use vstd::prelude::*;
use vstd::arithmetic::power2::*;
use vstd::arithmetic::power::{pow, lemma_pow_positive};
use vstd::arithmetic::div_mod::{lemma_div_denominator, lemma_fundamental_div_mod};

verus! {

/// Unsigned value of a big-endian byte string.
pub open spec fn be_value(s: Seq<u8>) -> nat
    decreases s.len(),
{
    if s.len() == 0 {
        0
    } else {
        be_value(s.drop_last()) * 256 + s.last() as nat
    }
}

/// Unsigned value of a little-endian byte string.
pub open spec fn le_value(s: Seq<u8>) -> nat
    decreases s.len(),
{
    if s.len() == 0 {
        0
    } else {
        s[0] as nat + 256 * le_value(s.drop_first())
    }
}

/// A big-endian value of `n` bytes is below `2^(8n)`.
pub proof fn lemma_be_value_bound(s: Seq<u8>)
    ensures
        be_value(s) < pow2(8 * s.len()),
    decreases s.len(),
{
    if s.len() == 0 {
        lemma2_to64();
    } else {
        let t = s.drop_last();
        lemma_be_value_bound(t);
        lemma_pow2_adds(8 * t.len(), 8);
        lemma2_to64();
        assert(8 * s.len() == 8 * t.len() + 8);
        assert(be_value(t) * 256 + (s.last() as nat) < pow2(8 * t.len()) * 256) by (nonlinear_arith)
            requires
                be_value(t) < pow2(8 * t.len()),
                s.last() < 256,
        ;
    }
}

/// Reads `data[start..start + len]` as a big-endian unsigned integer.
pub fn read_be_u128(data: &[u8], start: usize, len: usize) -> (r: u128)
    requires
        start + len <= data@.len(),
        len <= 16,
    ensures
        r as nat == be_value(data@.subrange(start as int, start + len)),
{
    let mut acc: u128 = 0;
    let mut i: usize = 0;
    while i < len
        invariant
            i <= len,
            len <= 16,
            start + len <= data@.len(),
            start + len <= data.len(),
            acc as nat == be_value(data@.subrange(start as int, start + i)),
        decreases len - i,
    {
        proof {
            let s = data@.subrange(start as int, start + i);
            lemma_be_value_bound(s);
            lemma_pow2_adds(8 * s.len(), 8);
            lemma2_to64();
            assert(pow2(8 * i as nat) * 256 <= pow2(128)) by {
                if i < 15 {
                    lemma_pow2_strictly_increases(8 * i as nat + 8, 128);
                }
            }
            assert(acc * 256 + data@[start + i] < pow2(8 * i as nat) * 256) by (nonlinear_arith)
                requires
                    acc < pow2(8 * i as nat),
                    data@[start + i] < 256,
            ;
            lemma2_to64_rest();
            lemma_pow2_adds(64, 64);
            assert(pow2(128) == 0x1_0000_0000_0000_0000_0000_0000_0000_0000);
            let t = data@.subrange(start as int, start + i + 1);
            assert(t.drop_last() =~= s);
        }
        let idx: usize = start + i;
        acc = acc * 256 + data[idx] as u128;
        i = i + 1;
    }
    acc
}

/// The `n` least significant bytes of `v`, least significant first.
pub open spec fn le_bytes(v: int, n: nat) -> Seq<u8> {
    Seq::new(n, |i: int| ((v / pow(256, i as nat)) % 256) as u8)
}

/// The `n` least significant bytes of `v`, most significant first.
pub open spec fn be_bytes(v: int, n: nat) -> Seq<u8> {
    Seq::new(n, |i: int| ((v / pow(256, (n - 1 - i) as nat)) % 256) as u8)
}

/// The `n` least significant bytes of `v`, least significant first.
pub fn le_bytes_vec(v: u128, n: usize) -> (r: Vec<u8>)
    ensures
        r@ == le_bytes(v as int, n as nat),
{
    let mut out: Vec<u8> = Vec::new();
    let mut cur: u128 = v;
    let mut i: usize = 0;
    proof {
        reveal(pow);
    }
    while i < n
        invariant
            i <= n,
            cur as int == (v as int) / pow(256, i as nat),
            out@ =~= le_bytes(v as int, i as nat),
        decreases n - i,
    {
        proof {
            lemma_pow_positive(256, i as nat);
            lemma_div_denominator(v as int, pow(256, i as nat), 256);
            assert(pow(256, (i + 1) as nat) == 256 * pow(256, i as nat)) by {
                reveal(pow);
            }
            assert(pow(256, i as nat) * 256 == 256 * pow(256, i as nat)) by (nonlinear_arith);
        }
        out.push((cur % 256) as u8);
        cur = cur / 256;
        i = i + 1;
    }
    out
}

/// The `n` least significant bytes of `v`, most significant first.
pub fn be_bytes_vec(v: u128, n: usize) -> (r: Vec<u8>)
    ensures
        r@ == be_bytes(v as int, n as nat),
{
    let le = le_bytes_vec(v, n);
    let mut out: Vec<u8> = Vec::new();
    let mut j: usize = 0;
    while j < n
        invariant
            j <= n,
            le@ == le_bytes(v as int, n as nat),
            out@ =~= be_bytes(v as int, n as nat).subrange(0, j as int),
        decreases n - j,
    {
        out.push(le[n - 1 - j]);
        j = j + 1;
    }
    assert(be_bytes(v as int, n as nat).subrange(0, n as int) =~= be_bytes(v as int, n as nat));
    out
}

/// Appends all of `src` to `out`.
pub fn push_all(out: &mut Vec<u8>, src: &[u8])
    ensures
        final(out)@ == old(out)@ + src@,
{
    let ghost start = out@;
    let mut i: usize = 0;
    while i < src.len()
        invariant
            i <= src@.len(),
            out@ =~= start + src@.subrange(0, i as int),
        decreases src@.len() - i,
    {
        out.push(src[i]);
        i = i + 1;
    }
    assert(src@.subrange(0, src@.len() as int) =~= src@);
}

/// Byte-wise equality of two 32-byte strings.
pub fn bytes32_eq(a: &[u8; 32], b: &[u8; 32]) -> (r: bool)
    ensures
        r == (a@ == b@),
{
    let mut i: usize = 0;
    while i < 32
        invariant
            i <= 32,
            a@.len() == 32,
            b@.len() == 32,
            forall|j: int| 0 <= j < i ==> a@[j] == b@[j],
        decreases 32 - i,
    {
        if a[i] != b[i] {
            return false;
        }
        i = i + 1;
    }
    assert(a@ =~= b@);
    true
}

/// The big-endian bytes of a value below `256^n` read back as that value.
pub proof fn lemma_be_value_be_bytes(v: nat, n: nat)
    requires
        v < pow(256, n),
    ensures
        be_value(be_bytes(v as int, n)) == v,
    decreases n,
{
    reveal(pow);
    if n == 0 {
        assert(be_bytes(v as int, 0) =~= Seq::<u8>::empty());
    } else {
        let s = be_bytes(v as int, n);
        let w: nat = v / 256;
        lemma_pow_positive(256, (n - 1) as nat);
        lemma_fundamental_div_mod(v as int, 256);
        assert(w < pow(256, (n - 1) as nat)) by {
            assert(pow(256, n) == 256 * pow(256, (n - 1) as nat));
            assert(256 * w <= v) by (nonlinear_arith)
                requires
                    w == v / 256,
            ;
        }
        assert forall|i: int| 0 <= i < n - 1 implies s.drop_last()[i] == be_bytes(
            w as int,
            (n - 1) as nat,
        )[i] by {
            let k = (n - 2 - i) as nat;
            lemma_pow_positive(256, k);
            lemma_div_denominator(v as int, 256, pow(256, k));
            assert(pow(256, (n - 1 - i) as nat) == 256 * pow(256, k));
        }
        assert(s.drop_last() =~= be_bytes(w as int, (n - 1) as nat));
        lemma_be_value_be_bytes(w, (n - 1) as nat);
        assert(s.last() == (v % 256) as u8);
    }
}

} // verus!
