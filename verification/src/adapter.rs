//! Uniform hash adapter: every algorithm, whatever its native interface,
//! is exposed as a single call from a byte slice to a 64-bit value. A
//! fresh hasher context is built per call (seed 0 or the type's default
//! construction), fed the whole input once, and finalized, so no state
//! survives between calls.

use std::hash::Hasher;
use vstd::prelude::*;

verus! {

/// The hash algorithms the harness can measure, one variant per adapted
/// implementation.
#[derive(Clone, Copy, PartialEq, Eq, Structural, Debug)]
pub enum Algorithm {
    Fnv,
    AHash,
    FxHash,
    Xxh64,
    SeaHash,
    ZwoHash,
    Mur3_32,
    Mur3_128,
    Highway,
    SipHash,
    Crc32,
    WyHash,
    MetroHash64,
    MetroHash128,
    KomiHash,
    T1ha,
    MuseAir,
}

pub uninterp spec fn fnv_of(bytes: Seq<u8>) -> u64;

pub uninterp spec fn ahash_of(bytes: Seq<u8>) -> u64;

pub uninterp spec fn fxhash_of(bytes: Seq<u8>) -> u64;

pub uninterp spec fn xxh64_of(bytes: Seq<u8>) -> u64;

pub uninterp spec fn seahash_of(bytes: Seq<u8>) -> u64;

pub uninterp spec fn zwohash_of(bytes: Seq<u8>) -> u64;

pub uninterp spec fn mur3_32_of(bytes: Seq<u8>) -> u64;

pub uninterp spec fn mur3_128_of(bytes: Seq<u8>) -> u64;

pub uninterp spec fn highway_of(bytes: Seq<u8>) -> u64;

pub uninterp spec fn siphash_of(bytes: Seq<u8>) -> u64;

pub uninterp spec fn crc32_of(bytes: Seq<u8>) -> u64;

pub uninterp spec fn wyhash_of(bytes: Seq<u8>) -> u64;

pub uninterp spec fn metrohash64_of(bytes: Seq<u8>) -> u64;

pub uninterp spec fn metrohash128_of(bytes: Seq<u8>) -> u64;

pub uninterp spec fn komihash_of(bytes: Seq<u8>) -> u64;

pub uninterp spec fn t1ha_of(bytes: Seq<u8>) -> u64;

pub uninterp spec fn museair_of(bytes: Seq<u8>) -> u64;

/// The value the adapter returns for a given algorithm and input bytes.
pub open spec fn hash_spec(alg: Algorithm, bytes: Seq<u8>) -> u64 {
    match alg {
        Algorithm::Fnv => fnv_of(bytes),
        Algorithm::AHash => ahash_of(bytes),
        Algorithm::FxHash => fxhash_of(bytes),
        Algorithm::Xxh64 => xxh64_of(bytes),
        Algorithm::SeaHash => seahash_of(bytes),
        Algorithm::ZwoHash => zwohash_of(bytes),
        Algorithm::Mur3_32 => mur3_32_of(bytes),
        Algorithm::Mur3_128 => mur3_128_of(bytes),
        Algorithm::Highway => highway_of(bytes),
        Algorithm::SipHash => siphash_of(bytes),
        Algorithm::Crc32 => crc32_of(bytes),
        Algorithm::WyHash => wyhash_of(bytes),
        Algorithm::MetroHash64 => metrohash64_of(bytes),
        Algorithm::MetroHash128 => metrohash128_of(bytes),
        Algorithm::KomiHash => komihash_of(bytes),
        Algorithm::T1ha => t1ha_of(bytes),
        Algorithm::MuseAir => museair_of(bytes),
    }
}

/// Adapter equivalence: for a fixed algorithm, equal input bytes give an
/// equal hash value, so repeated independent calls of `hash_one` on the
/// same input return the same output.
pub proof fn lemma_adapter_equivalence(alg: Algorithm, a: Seq<u8>, b: Seq<u8>)
    requires
        a == b,
    ensures
        hash_spec(alg, a) == hash_spec(alg, b),
{
}

/// Relies on fnv::FnvHasher: `Default` starts from the standard FNV
/// offset basis, `Hasher::write` folds each byte in, `Hasher::finish`
/// returns the state; the result depends on the input bytes alone.
#[verifier::external_body]
fn fnv_hash(value: &[u8]) -> (r: u64)
    ensures
        r == fnv_of(value@),
{
    let mut h = fnv::FnvHasher::default();
    h.write(value);
    h.finish()
}

/// Relies on ahash::AHasher: with default features off, `Default` builds
/// the fallback hasher from hardcoded constant keys, so for a fixed build
/// target the result depends on the input bytes alone.
#[verifier::external_body]
fn ahash_hash(value: &[u8]) -> (r: u64)
    ensures
        r == ahash_of(value@),
{
    let mut h = ahash::AHasher::default();
    h.write(value);
    h.finish()
}

/// Relies on fxhash::FxHasher: `Default` starts from a zero state and
/// `write`/`finish` mix native-endian words, so for a fixed build target
/// the result depends on the input bytes alone.
#[verifier::external_body]
fn fxhash_hash(value: &[u8]) -> (r: u64)
    ensures
        r == fxhash_of(value@),
{
    let mut h = fxhash::FxHasher::default();
    h.write(value);
    h.finish()
}

/// Relies on xxhash_rust::xxh64::Xxh64: `Default` is the seed-0 state;
/// XXH64 is defined over little-endian reads, so the result depends on
/// the input bytes alone.
#[verifier::external_body]
fn xxh64_hash(value: &[u8]) -> (r: u64)
    ensures
        r == xxh64_of(value@),
{
    let mut h = xxhash_rust::xxh64::Xxh64::default();
    h.write(value);
    h.finish()
}

/// Relies on seahash::SeaHasher: `Default` uses the crate's fixed keys
/// and reads are explicitly little-endian, so the result depends on the
/// input bytes alone.
#[verifier::external_body]
fn seahash_hash(value: &[u8]) -> (r: u64)
    ensures
        r == seahash_of(value@),
{
    let mut h = seahash::SeaHasher::default();
    h.write(value);
    h.finish()
}

/// Relies on zwohash::ZwoHasher: `Default` is the fixed initial state and
/// the algorithm is deterministic, so the result depends on the input
/// bytes alone.
#[verifier::external_body]
fn zwohash_hash(value: &[u8]) -> (r: u64)
    ensures
        r == zwohash_of(value@),
{
    let mut h = zwohash::ZwoHasher::default();
    h.write(value);
    h.finish()
}

/// Relies on mur3::Hasher32::with_seed(0) and its `Hasher` impl:
/// MurmurHash3 x86 32-bit with seed 0, widened to 64 bits by `finish`;
/// the result depends on the input bytes alone.
#[verifier::external_body]
fn mur3_32_hash(value: &[u8]) -> (r: u64)
    ensures
        r == mur3_32_of(value@),
{
    let mut h = mur3::Hasher32::with_seed(0);
    h.write(value);
    h.finish()
}

/// Relies on mur3::Hasher128::with_seed(0) and its `Hasher` impl:
/// MurmurHash3 x64 128-bit with seed 0, truncated to the first 64 bits by
/// `finish`; the result depends on the input bytes alone.
#[verifier::external_body]
fn mur3_128_hash(value: &[u8]) -> (r: u64)
    ensures
        r == mur3_128_of(value@),
{
    let mut h = mur3::Hasher128::with_seed(0);
    h.write(value);
    h.finish()
}

/// Relies on highway::HighwayHasher: `Default` uses the all-zero key and
/// HighwayHash guarantees the same value on every platform, so the result
/// depends on the input bytes alone.
#[verifier::external_body]
fn highway_hash(value: &[u8]) -> (r: u64)
    ensures
        r == highway_of(value@),
{
    let mut h = highway::HighwayHasher::default();
    h.write(value);
    h.finish()
}

/// Relies on siphasher::sip::SipHasher: `Default` is SipHash 2-4 with the
/// all-zero key, defined over little-endian reads, so the result depends
/// on the input bytes alone.
#[verifier::external_body]
fn siphash_hash(value: &[u8]) -> (r: u64)
    ensures
        r == siphash_of(value@),
{
    let mut h = siphasher::sip::SipHasher::default();
    h.write(value);
    h.finish()
}

/// Relies on crc32fast::Hasher: `Default` starts a CRC-32 (IEEE) state,
/// and `finish` widens the 32-bit checksum; every backend computes the
/// same standard checksum, so the result depends on the input bytes
/// alone.
#[verifier::external_body]
fn crc32_hash(value: &[u8]) -> (r: u64)
    ensures
        r == crc32_of(value@),
{
    let mut h = crc32fast::Hasher::default();
    h.write(value);
    h.finish()
}

/// Relies on wyhash::WyHash: `Default` is the seed-0 state of wyhash v1,
/// defined over little-endian reads, so the result depends on the input
/// bytes alone.
#[verifier::external_body]
fn wyhash_hash(value: &[u8]) -> (r: u64)
    ensures
        r == wyhash_of(value@),
{
    let mut h = wyhash::WyHash::default();
    h.write(value);
    h.finish()
}

/// Relies on metrohash::MetroHash64: `Default` is the seed-0 state; the
/// implementation reads native-endian words, so for a fixed build target
/// the result depends on the input bytes alone.
#[verifier::external_body]
fn metrohash64_hash(value: &[u8]) -> (r: u64)
    ensures
        r == metrohash64_of(value@),
{
    let mut h = metrohash::MetroHash64::default();
    h.write(value);
    h.finish()
}

/// Relies on metrohash::MetroHash128: `Default` is the seed-0 state and
/// `finish` returns the first 64 bits; the implementation reads
/// native-endian words, so for a fixed build target the result depends on
/// the input bytes alone.
#[verifier::external_body]
fn metrohash128_hash(value: &[u8]) -> (r: u64)
    ensures
        r == metrohash128_of(value@),
{
    let mut h = metrohash::MetroHash128::default();
    h.write(value);
    h.finish()
}

/// Relies on komihash::KomiHasher: `Default` is the seed-0 state and
/// komihash is defined over little-endian reads, so the result depends on
/// the input bytes alone.
#[verifier::external_body]
fn komihash_hash(value: &[u8]) -> (r: u64)
    ensures
        r == komihash_of(value@),
{
    let mut h = komihash::KomiHasher::default();
    h.write(value);
    h.finish()
}

/// Relies on t1ha::T1haHasher: `Default` is the seed-0 state over the
/// t1ha0 function, whose variant is fixed at compile time, so for a fixed
/// build target the result depends on the input bytes alone.
#[verifier::external_body]
fn t1ha_hash(value: &[u8]) -> (r: u64)
    ensures
        r == t1ha_of(value@),
{
    let mut h = t1ha::T1haHasher::default();
    h.write(value);
    h.finish()
}

/// Relies on museair::Hasher::with_seed(0): MuseAir 64-bit with seed 0,
/// defined over little-endian reads, so the result depends on the input
/// bytes alone.
#[verifier::external_body]
fn museair_hash(value: &[u8]) -> (r: u64)
    ensures
        r == museair_of(value@),
{
    let mut h = museair::Hasher::with_seed(0);
    h.write(value);
    h.finish()
}

/// Hash one complete message: build a fresh context for `alg`, feed it
/// `value` once, and finalize. No state survives between calls, so the
/// result is exactly `hash_spec(alg, value@)` on every call.
pub fn hash_one(alg: Algorithm, value: &[u8]) -> (r: u64)
    ensures
        r == hash_spec(alg, value@),
{
    match alg {
        Algorithm::Fnv => fnv_hash(value),
        Algorithm::AHash => ahash_hash(value),
        Algorithm::FxHash => fxhash_hash(value),
        Algorithm::Xxh64 => xxh64_hash(value),
        Algorithm::SeaHash => seahash_hash(value),
        Algorithm::ZwoHash => zwohash_hash(value),
        Algorithm::Mur3_32 => mur3_32_hash(value),
        Algorithm::Mur3_128 => mur3_128_hash(value),
        Algorithm::Highway => highway_hash(value),
        Algorithm::SipHash => siphash_hash(value),
        Algorithm::Crc32 => crc32_hash(value),
        Algorithm::WyHash => wyhash_hash(value),
        Algorithm::MetroHash64 => metrohash64_hash(value),
        Algorithm::MetroHash128 => metrohash128_hash(value),
        Algorithm::KomiHash => komihash_hash(value),
        Algorithm::T1ha => t1ha_hash(value),
        Algorithm::MuseAir => museair_hash(value),
    }
}

} // verus!
