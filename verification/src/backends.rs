//! The hashing algorithms that other crates implement, and what this library relies on
//! about them.
//!
//! Nothing in this file is proved. Each hash function is known here only by name: the
//! value it gives for a byte string. Each streaming state is known by the bytes it has
//! absorbed, and its final value is the hash of those bytes.

use sha2::Digest;
use vstd::prelude::*;

use crate::castagnoli::crc32c_checksum;

verus! {

/// The longest input, in bytes, that every algorithm here accepts: SHA-256 counts the bits
/// of its input in 64 bits, so an input must stay below 2^61 bytes.
pub const MAX_INPUT_LEN: u64 = 0x1FFFFFFFFFFFFFFF;

/// `crc32fast::Hasher`, the state of a CRC-32 computation in progress.
#[verifier::external_type_specification]
#[verifier::external_body]
pub struct ExCrc32Hasher(crc32fast::Hasher);

/// `xxhash_rust::xxh3::Xxh3`, the state of an XXH3 computation in progress.
#[verifier::external_type_specification]
#[verifier::external_body]
pub struct ExXxh3(xxhash_rust::xxh3::Xxh3);

/// The CRC-32 (IEEE) checksum of `data`, as `crc32fast::hash` computes it.
pub uninterp spec fn crc32_ieee(data: Seq<u8>) -> u32;

/// The bytes that a `crc32fast::Hasher` has absorbed, in order.
pub uninterp spec fn crc32_absorbed(hasher: crc32fast::Hasher) -> Seq<u8>;

/// The 64-bit XXH3 hash of `data` with the default seed and secret, as
/// `xxhash_rust::xxh3::xxh3_64` computes it.
pub uninterp spec fn xxh3_64_hash(data: Seq<u8>) -> u64;

/// The bytes that an `Xxh3` state has absorbed, in order.
pub uninterp spec fn xxh3_absorbed(state: xxhash_rust::xxh3::Xxh3) -> Seq<u8>;

/// The SHA-256 digest of `data`, as `sha2::Sha256` computes it.
pub uninterp spec fn sha256_digest(data: Seq<u8>) -> Seq<u8>;

/// The bytes that a SHA-256 state has absorbed, in order.
pub uninterp spec fn sha256_absorbed(state: Sha256State) -> Seq<u8>;

/// The SHA-512 digest of `data`, as `sha2::Sha512` computes it.
pub uninterp spec fn sha512_digest(data: Seq<u8>) -> Seq<u8>;

/// The bytes that a SHA-512 state has absorbed, in order.
pub uninterp spec fn sha512_absorbed(state: Sha512State) -> Seq<u8>;

/// The BLAKE2b-512 digest of `data`, as `blake2::Blake2b512` computes it.
pub uninterp spec fn blake2b_digest(data: Seq<u8>) -> Seq<u8>;

/// The bytes that a BLAKE2b-512 state has absorbed, in order.
pub uninterp spec fn blake2b_absorbed(state: Blake2bState) -> Seq<u8>;

/// The BLAKE2s-256 digest of `data`, as `blake2::Blake2s256` computes it.
pub uninterp spec fn blake2s_digest(data: Seq<u8>) -> Seq<u8>;

/// The bytes that a BLAKE2s-256 state has absorbed, in order.
pub uninterp spec fn blake2s_absorbed(state: Blake2sState) -> Seq<u8>;

/// `crc32c::crc32c` computes the CRC-32C (Castagnoli) checksum: the one that the table-driven
/// register of this library computes too.
pub assume_specification[ crc32c::crc32c ](data: &[u8]) -> (value: u32)
    ensures
        value == crc32c_checksum(data@),
;

/// `crc32fast::hash` gives the CRC-32 checksum of the slice.
pub assume_specification[ crc32fast::hash ](buf: &[u8]) -> (value: u32)
    ensures
        value == crc32_ieee(buf@),
;

/// `crc32fast::Hasher::new` gives a state that has absorbed nothing.
pub assume_specification[ crc32fast::Hasher::new ]() -> (hasher: crc32fast::Hasher)
    ensures
        crc32_absorbed(hasher) == Seq::<u8>::empty(),
;

/// `crc32fast::Hasher::update` absorbs the slice after what was absorbed before. The state
/// counts its bytes in 64 bits.
pub assume_specification[ crc32fast::Hasher::update ](hasher: &mut crc32fast::Hasher, buf: &[u8])
    requires
        crc32_absorbed(*old(hasher)).len() + buf@.len() <= MAX_INPUT_LEN,
    ensures
        crc32_absorbed(*final(hasher)) == crc32_absorbed(*old(hasher)) + buf@,
;

/// `crc32fast::Hasher::finalize` gives the CRC-32 checksum of everything absorbed.
pub assume_specification[ crc32fast::Hasher::finalize ](hasher: crc32fast::Hasher) -> (value: u32)
    ensures
        value == crc32_ieee(crc32_absorbed(hasher)),
;

/// `xxhash_rust::xxh3::xxh3_64` gives the 64-bit XXH3 hash of the slice.
pub assume_specification[ xxhash_rust::xxh3::xxh3_64 ](input: &[u8]) -> (value: u64)
    ensures
        value == xxh3_64_hash(input@),
;

/// `Xxh3::new` gives a state with the default seed and secret that has absorbed nothing.
pub assume_specification[ xxhash_rust::xxh3::Xxh3::new ]() -> (state: xxhash_rust::xxh3::Xxh3)
    ensures
        xxh3_absorbed(state) == Seq::<u8>::empty(),
;

/// `Xxh3::update` absorbs the slice after what was absorbed before. The state counts its
/// bytes in 64 bits.
pub assume_specification[ xxhash_rust::xxh3::Xxh3::update ](
    state: &mut xxhash_rust::xxh3::Xxh3,
    input: &[u8],
)
    requires
        xxh3_absorbed(*old(state)).len() + input@.len() <= MAX_INPUT_LEN,
    ensures
        xxh3_absorbed(*final(state)) == xxh3_absorbed(*old(state)) + input@,
;

/// `Xxh3::digest` gives the 64-bit XXH3 hash of everything absorbed.
pub assume_specification[ xxhash_rust::xxh3::Xxh3::digest ](state: &xxhash_rust::xxh3::Xxh3) -> (value: u64)
    ensures
        value == xxh3_64_hash(xxh3_absorbed(*state)),
;

/// A SHA-256 computation in progress: holds a `sha2::Sha256`.
#[verifier::external_body]
pub struct Sha256State {
    inner: sha2::Sha256,
}

/// A SHA-512 computation in progress: holds a `sha2::Sha512`.
#[verifier::external_body]
pub struct Sha512State {
    inner: sha2::Sha512,
}

/// A BLAKE2b-512 computation in progress: holds a `blake2::Blake2b512`.
#[verifier::external_body]
pub struct Blake2bState {
    inner: blake2::Blake2b512,
}

/// A BLAKE2s-256 computation in progress: holds a `blake2::Blake2s256`.
#[verifier::external_body]
pub struct Blake2sState {
    inner: blake2::Blake2s256,
}

/// `Digest::digest` of `sha2::Sha256`: the 32-byte SHA-256 digest of the slice.
#[verifier::external_body]
pub(crate) fn sha256_oneshot(data: &[u8]) -> (digest: Vec<u8>)
    requires
        data@.len() <= MAX_INPUT_LEN,
    ensures
        digest@ == sha256_digest(data@),
        digest@.len() == 32,
{
    sha2::Sha256::digest(data).to_vec()
}

/// `Digest::new` of `sha2::Sha256`: a state that has absorbed nothing.
#[verifier::external_body]
pub(crate) fn sha256_new() -> (state: Sha256State)
    ensures
        sha256_absorbed(state) == Seq::<u8>::empty(),
{
    Sha256State { inner: sha2::Sha256::new() }
}

/// `Digest::update` of `sha2::Sha256`: absorbs the slice after what was absorbed before.
#[verifier::external_body]
pub(crate) fn sha256_update(state: &mut Sha256State, data: &[u8])
    requires
        sha256_absorbed(*old(state)).len() + data@.len() <= MAX_INPUT_LEN,
    ensures
        sha256_absorbed(*final(state)) == sha256_absorbed(*old(state)) + data@,
{
    state.inner.update(data)
}

/// `Digest::finalize` of `sha2::Sha256`: the 32-byte SHA-256 digest of everything absorbed.
#[verifier::external_body]
pub(crate) fn sha256_finalize(state: Sha256State) -> (digest: Vec<u8>)
    requires
        sha256_absorbed(state).len() <= MAX_INPUT_LEN,
    ensures
        digest@ == sha256_digest(sha256_absorbed(state)),
        digest@.len() == 32,
{
    state.inner.finalize().to_vec()
}

/// `Digest::digest` of `sha2::Sha512`: the 64-byte SHA-512 digest of the slice.
#[verifier::external_body]
pub(crate) fn sha512_oneshot(data: &[u8]) -> (digest: Vec<u8>)
    requires
        data@.len() <= MAX_INPUT_LEN,
    ensures
        digest@ == sha512_digest(data@),
        digest@.len() == 64,
{
    sha2::Sha512::digest(data).to_vec()
}

/// `Digest::new` of `sha2::Sha512`: a state that has absorbed nothing.
#[verifier::external_body]
pub(crate) fn sha512_new() -> (state: Sha512State)
    ensures
        sha512_absorbed(state) == Seq::<u8>::empty(),
{
    Sha512State { inner: sha2::Sha512::new() }
}

/// `Digest::update` of `sha2::Sha512`: absorbs the slice after what was absorbed before.
#[verifier::external_body]
pub(crate) fn sha512_update(state: &mut Sha512State, data: &[u8])
    requires
        sha512_absorbed(*old(state)).len() + data@.len() <= MAX_INPUT_LEN,
    ensures
        sha512_absorbed(*final(state)) == sha512_absorbed(*old(state)) + data@,
{
    state.inner.update(data)
}

/// `Digest::finalize` of `sha2::Sha512`: the 64-byte SHA-512 digest of everything absorbed.
#[verifier::external_body]
pub(crate) fn sha512_finalize(state: Sha512State) -> (digest: Vec<u8>)
    requires
        sha512_absorbed(state).len() <= MAX_INPUT_LEN,
    ensures
        digest@ == sha512_digest(sha512_absorbed(state)),
        digest@.len() == 64,
{
    state.inner.finalize().to_vec()
}

/// `Digest::digest` of `blake2::Blake2b512`: the 64-byte BLAKE2b digest of the slice.
#[verifier::external_body]
pub(crate) fn blake2b_oneshot(data: &[u8]) -> (digest: Vec<u8>)
    requires
        data@.len() <= MAX_INPUT_LEN,
    ensures
        digest@ == blake2b_digest(data@),
        digest@.len() == 64,
{
    blake2::Blake2b512::digest(data).to_vec()
}

/// `Digest::new` of `blake2::Blake2b512`: a state that has absorbed nothing.
#[verifier::external_body]
pub(crate) fn blake2b_new() -> (state: Blake2bState)
    ensures
        blake2b_absorbed(state) == Seq::<u8>::empty(),
{
    Blake2bState { inner: blake2::Blake2b512::new() }
}

/// `Digest::update` of `blake2::Blake2b512`: absorbs the slice after what was absorbed
/// before.
#[verifier::external_body]
pub(crate) fn blake2b_update(state: &mut Blake2bState, data: &[u8])
    requires
        blake2b_absorbed(*old(state)).len() + data@.len() <= MAX_INPUT_LEN,
    ensures
        blake2b_absorbed(*final(state)) == blake2b_absorbed(*old(state)) + data@,
{
    state.inner.update(data)
}

/// `Digest::finalize` of `blake2::Blake2b512`: the 64-byte BLAKE2b digest of everything
/// absorbed.
#[verifier::external_body]
pub(crate) fn blake2b_finalize(state: Blake2bState) -> (digest: Vec<u8>)
    requires
        blake2b_absorbed(state).len() <= MAX_INPUT_LEN,
    ensures
        digest@ == blake2b_digest(blake2b_absorbed(state)),
        digest@.len() == 64,
{
    state.inner.finalize().to_vec()
}

/// `Digest::digest` of `blake2::Blake2s256`: the 32-byte BLAKE2s digest of the slice.
#[verifier::external_body]
pub(crate) fn blake2s_oneshot(data: &[u8]) -> (digest: Vec<u8>)
    requires
        data@.len() <= MAX_INPUT_LEN,
    ensures
        digest@ == blake2s_digest(data@),
        digest@.len() == 32,
{
    blake2::Blake2s256::digest(data).to_vec()
}

/// `Digest::new` of `blake2::Blake2s256`: a state that has absorbed nothing.
#[verifier::external_body]
pub(crate) fn blake2s_new() -> (state: Blake2sState)
    ensures
        blake2s_absorbed(state) == Seq::<u8>::empty(),
{
    Blake2sState { inner: blake2::Blake2s256::new() }
}

/// `Digest::update` of `blake2::Blake2s256`: absorbs the slice after what was absorbed
/// before.
#[verifier::external_body]
pub(crate) fn blake2s_update(state: &mut Blake2sState, data: &[u8])
    requires
        blake2s_absorbed(*old(state)).len() + data@.len() <= MAX_INPUT_LEN,
    ensures
        blake2s_absorbed(*final(state)) == blake2s_absorbed(*old(state)) + data@,
{
    state.inner.update(data)
}

/// `Digest::finalize` of `blake2::Blake2s256`: the 32-byte BLAKE2s digest of everything
/// absorbed.
#[verifier::external_body]
pub(crate) fn blake2s_finalize(state: Blake2sState) -> (digest: Vec<u8>)
    requires
        blake2s_absorbed(state).len() <= MAX_INPUT_LEN,
    ensures
        digest@ == blake2s_digest(blake2s_absorbed(state)),
        digest@.len() == 32,
{
    state.inner.finalize().to_vec()
}

} // verus!
