//! Deterministic hashing and noise sources driven by the world seed.
//!
//! Everything here is integer arithmetic.  The `[0, 1)` noise value used by
//! the float generator is `noise_bits(..) / 2^53`; the functions below that
//! turn such a value into a list index or compare it with a decimal
//! threshold do so exactly, on the 53-bit integer it is made of.
use vstd::prelude::*;
use vstd::string::StringSliceAdditionalSpecFns;
use vstd::arithmetic::power2::{pow2, lemma_pow2_unfold, lemma_pow2_pos, lemma_pow2_adds};
use vstd::arithmetic::div_mod::{lemma_fundamental_div_mod, lemma_div_pos_is_pos};

verus! {

/// One step of the polynomial byte hash (multiply by 31, add the byte, modulo 2^32).
pub open spec fn hash_step(state: u32, byte: u8) -> u32 {
    state.wrapping_mul(31).wrapping_add(byte as u32)
}

/// The polynomial hash of `bytes`, started from `init`.
pub open spec fn hash_fold(init: u32, bytes: Seq<u8>) -> u32
    decreases bytes.len(),
{
    if bytes.len() == 0 {
        init
    } else {
        hash_step(hash_fold(init, bytes.drop_last()), bytes.last())
    }
}

/// Hashing a concatenation continues from the hash of the first part.
pub proof fn lemma_hash_fold_append(init: u32, a: Seq<u8>, b: Seq<u8>)
    ensures
        hash_fold(init, a + b) == hash_fold(hash_fold(init, a), b),
    decreases b.len(),
{
    if b.len() == 0 {
        assert(a + b =~= a);
    } else {
        lemma_hash_fold_append(init, a, b.drop_last());
        assert((a + b).drop_last() =~= a + b.drop_last());
        assert((a + b).last() == b.last());
    }
}

/// Continues the polynomial hash from `state` over `bytes`.
pub fn hash_bytes_from(state: u32, bytes: &[u8]) -> (r: u32)
    ensures
        r == hash_fold(state, bytes@),
{
    let mut h = state;
    let n = bytes.len();
    let mut i: usize = 0;
    while i < n
        invariant
            n == bytes@.len(),
            i <= n,
            h == hash_fold(state, bytes@.take(i as int)),
        decreases n - i,
    {
        assert(bytes@.take(i as int + 1).drop_last() =~= bytes@.take(i as int));
        h = h.wrapping_mul(31).wrapping_add(bytes[i] as u32);
        i = i + 1;
    }
    assert(bytes@.take(n as int) =~= bytes@);
    h
}

/// The polynomial hash of `bytes`, started from zero.
pub fn hash_bytes(bytes: &[u8]) -> (r: u32)
    ensures
        r == hash_fold(0, bytes@),
{
    hash_bytes_from(0, bytes)
}

/// The hash of a seed: the polynomial hash of its eight little-endian bytes.
pub open spec fn seed_hash(seed: u64) -> u32 {
    hash_fold(0, vstd::bytes::spec_u64_to_le_bytes(seed))
}

/// The hash of a seed followed by the UTF-8 bytes of a salt.
pub open spec fn salted_seed_hash(seed: u64, salt: Seq<u8>) -> u32 {
    hash_fold(0, vstd::bytes::spec_u64_to_le_bytes(seed) + salt)
}

pub fn hash_seed(seed: u64) -> (r: u32)
    ensures
        r == seed_hash(seed),
{
    let bytes = vstd::bytes::u64_to_le_bytes(seed);
    hash_bytes(bytes.as_slice())
}

pub fn derive_seed(seed: u64, salt: &str) -> (r: u32)
    ensures
        r == salted_seed_hash(seed, salt.spec_bytes()),
{
    let bytes = vstd::bytes::u64_to_le_bytes(seed);
    let h = hash_bytes(bytes.as_slice());
    let tail = salt.as_bytes();
    proof {
        lemma_hash_fold_append(0, bytes@, tail@);
    }
    hash_bytes_from(h, tail)
}

/// A salted seed hash is the plain seed hash continued over the salt; with an
/// empty salt the two hashes agree.
pub proof fn law_salted_hash_continues_seed_hash(seed: u64, salt: Seq<u8>)
    ensures
        salted_seed_hash(seed, salt) == hash_fold(seed_hash(seed), salt),
        salted_seed_hash(seed, Seq::empty()) == seed_hash(seed),
{
    lemma_hash_fold_append(0, vstd::bytes::spec_u64_to_le_bytes(seed), salt);
    assert(vstd::bytes::spec_u64_to_le_bytes(seed) + Seq::<u8>::empty()
        =~= vstd::bytes::spec_u64_to_le_bytes(seed));
}

/// The 64-bit finalizer used to decorrelate seeds, channels and indices.
pub open spec fn spec_mix64(z: u64) -> u64 {
    let a = (z ^ (z >> 30u64)).wrapping_mul(0xbf58476d1ce4e5b9u64);
    let b = (a ^ (a >> 27u64)).wrapping_mul(0x94d049bb133111ebu64);
    b ^ (b >> 31u64)
}

pub fn mix64(z: u64) -> (r: u64)
    ensures
        r == spec_mix64(z),
{
    let a = (z ^ (z >> 30u64)).wrapping_mul(0xbf58476d1ce4e5b9u64);
    let b = (a ^ (a >> 27u64)).wrapping_mul(0x94d049bb133111ebu64);
    b ^ (b >> 31u64)
}

/// 2^53: the noise value in `[0, 1)` is `spec_noise_bits(..) / NOISE_SCALE`.
pub const NOISE_SCALE: u64 = 0x20_0000_0000_0000u64;

/// The 53 random bits behind the noise value for `(seed, channel, index)`.
#[verifier::opaque]
pub open spec fn spec_noise_bits(seed: u64, channel: u64, index: u64) -> u64 {
    let z = spec_mix64(seed).wrapping_add(channel.wrapping_mul(0x9E3779B97F4A7C15u64)).wrapping_add(
        index.wrapping_mul(0xD1B54A32D192ED03u64),
    );
    spec_mix64(z) >> 11u64
}

/// The 53-bit integer numerator of the `[0, 1)` noise value for
/// `(seed, channel, index)`; consecutive indices give uncorrelated values.
pub fn noise_bits(seed: u64, channel: u64, index: u64) -> (r: u64)
    ensures
        r == spec_noise_bits(seed, channel, index),
        r < NOISE_SCALE,
{
    let z = mix64(seed).wrapping_add(channel.wrapping_mul(0x9E3779B97F4A7C15u64)).wrapping_add(
        index.wrapping_mul(0xD1B54A32D192ED03u64),
    );
    let m = mix64(z);
    assert((m >> 11u64) < 0x20_0000_0000_0000u64) by (bit_vector);
    proof {
        reveal(spec_noise_bits);
    }
    m >> 11u64
}

/// Number of binary digits of `q` (zero has none).
pub open spec fn bit_length(q: nat) -> nat
    decreases q,
{
    if q == 0 {
        0
    } else {
        1 + bit_length(q / 2)
    }
}

/// The multiple of `g` nearest to `q`, ties going to the even multiple.
pub open spec fn nearest_multiple_even(q: nat, g: nat) -> nat
    recommends
        g > 0,
{
    let lo = q / g;
    let r = q % g;
    if 2 * r < g {
        lo * g
    } else if 2 * r > g {
        (lo + 1) * g
    } else if lo % 2 == 0 {
        lo * g
    } else {
        (lo + 1) * g
    }
}

/// `q` rounded to 53 significant binary digits, to nearest with ties to
/// even: the integer that IEEE-754 binary64 holds for `q`.
pub open spec fn round_binary64(q: nat) -> nat {
    if bit_length(q) <= 53 {
        q
    } else {
        nearest_multiple_even(q, pow2((bit_length(q) - 53) as nat))
    }
}

/// `floor(x * n)` in binary64 arithmetic, where `x = bits / 2^53` is a noise
/// value: the exact product `bits * n / 2^53` rounded to the nearest double,
/// then floored.
pub open spec fn scaled_floor(bits: u64, n: u64) -> nat {
    round_binary64(bits as nat * n as nat) / pow2(53)
}

proof fn lemma_bit_length_bound(q: nat, k: nat)
    requires
        q < pow2(k),
    ensures
        bit_length(q) <= k,
    decreases k,
{
    if q == 0 {
    } else {
        if k == 0 {
            assert(pow2(0) == 1) by {
                vstd::arithmetic::power2::lemma2_to64();
            }
        } else {
            lemma_pow2_unfold(k);
            lemma_bit_length_bound(q / 2, (k - 1) as nat);
        }
    }
}

/// Index `floor(x * n)` of a noise value `x = bits / 2^53` as the
/// binary64 product computes it (`n` up to 2^53, where `n as f64` is exact).
pub fn scaled_index(bits: u64, n: u64) -> (r: u64)
    requires
        bits < NOISE_SCALE,
        1 <= n <= NOISE_SCALE,
    ensures
        r == scaled_floor(bits, n),
{
    proof {
        vstd::arithmetic::power2::lemma2_to64();
        vstd::arithmetic::power2::lemma2_to64_rest();
        lemma_pow2_adds(53, 53);
        assert((bits as nat) * (n as nat) <= 0x20_0000_0000_0000nat * 0x20_0000_0000_0000nat)
            by (nonlinear_arith)
            requires
                bits < 0x20_0000_0000_0000nat,
                n <= 0x20_0000_0000_0000nat,
        ;
        assert((bits as nat) * (n as nat) < pow2(106)) by (nonlinear_arith)
            requires
                bits < 0x20_0000_0000_0000nat,
                n <= 0x20_0000_0000_0000nat,
                pow2(106) == 0x20_0000_0000_0000nat * 0x20_0000_0000_0000nat,
        ;
    }
    let q: u128 = (bits as u128) * (n as u128);
    let mut x: u128 = q;
    let mut len: u32 = 0;
    proof {
        lemma_bit_length_bound(q as nat, 106);
    }
    while x > 0
        invariant
            bit_length(q as nat) == len + bit_length(x as nat),
            bit_length(q as nat) <= 106,
        decreases x,
    {
        x = x / 2;
        len = len + 1;
    }
    let g_limit: u128 = 0x20_0000_0000_0000u128;
    let rounded: u128 = if len <= 53 {
        q
    } else {
        let shift = len - 53;
        let mut g: u128 = 1;
        let mut k: u32 = 0;
        while k < shift
            invariant
                k <= shift,
                shift <= 53,
                g == pow2(k as nat),
                g <= g_limit,
                g_limit == pow2(53),
            decreases shift - k,
        {
            proof {
                lemma_pow2_unfold((k + 1) as nat);
                if k + 1 < 53 {
                    vstd::arithmetic::power2::lemma_pow2_strictly_increases((k + 1) as nat, 53);
                }
            }
            g = g * 2;
            k = k + 1;
        }
        proof {
            lemma_pow2_pos(k as nat);
            lemma_fundamental_div_mod(q as int, g as int);
            assert((q / g) * g <= q) by (nonlinear_arith)
                requires
                    g > 0,
                    q == g * (q / g) + q % g,
                    q % g >= 0,
            ;
            assert((q / g + 1) * g == (q / g) * g + g) by (nonlinear_arith);
        }
        let lo = q / g;
        let rem = q % g;
        if 2 * rem < g {
            lo * g
        } else if 2 * rem > g {
            (lo + 1) * g
        } else if lo % 2 == 0 {
            lo * g
        } else {
            (lo + 1) * g
        }
    };
    proof {
        assert(rounded / 0x20_0000_0000_0000u128 < 0x40_0000_0000_0000u128) by (nonlinear_arith)
            requires
                rounded <= 0x400000000000000000000000000u128 + 0x20_0000_0000_0000u128,
        ;
    }
    (rounded / 0x20_0000_0000_0000u128) as u64
}

} // verus!
