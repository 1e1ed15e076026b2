//! The 64-bit digests behind each hashing strategy.
//!
//! FNV-1a and XXH3 are computed by the `fnv` and `xxhash-rust` crates. The two
//! lane-sum digests are plain arithmetic over the key's bytes and are
//! computed, and proved, here.

use crate::algorithm::{Capabilities, ShardAlgorithm};
use vstd::prelude::*;

verus! {

/// Initial state of the 64-bit FNV hash.
pub const FNV_OFFSET_BASIS: u64 = 0xcbf2_9ce4_8422_2325;

/// Multiplier of the 64-bit FNV hash.
pub const FNV_PRIME: u64 = 0x0000_0100_0000_01b3;

/// Bytes per block of the wide lane sum.
pub const WIDE_BLOCK: usize = 64;

/// 32-bit lanes summed per block of the wide lane sum.
pub const WIDE_LANES: usize = 16;

/// Bytes per block of the lead lane sum.
pub const LEAD_BLOCK: usize = 32;

/// 32-bit lanes summed per block of the lead lane sum.
pub const LEAD_LANES: usize = 1;

/// FNV-1a over `bytes`: starting from the offset basis, each byte is xor-ed
/// into the state, which is then multiplied by the FNV prime modulo 2^64.
pub open spec fn spec_fnv1a_64(bytes: Seq<u8>) -> u64
    decreases bytes.len(),
{
    if bytes.len() == 0 {
        FNV_OFFSET_BASIS
    } else {
        (spec_fnv1a_64(bytes.drop_last()) ^ (bytes.last() as u64)).wrapping_mul(FNV_PRIME)
    }
}

/// The XXH3 64-bit hash of `bytes` with the default secret and seed 0.
pub uninterp spec fn spec_xxh3_64(bytes: Seq<u8>) -> u64;

/// Hashes `key` with `fnv::FnvHasher`: a hasher in its default state is fed
/// the whole key by one `write`, and `finish` reads the state out. Trusted:
/// the hasher starts at the FNV offset basis and `write` performs, per byte,
/// the xor-then-multiply step that [`spec_fnv1a_64`] spells out.
#[verifier::external_body]
pub(crate) fn fnv1a_64(key: &[u8]) -> (digest: u64)
    ensures
        digest == spec_fnv1a_64(key@),
{
    let mut hasher = fnv::FnvHasher::default();
    std::hash::Hasher::write(&mut hasher, key);
    std::hash::Hasher::finish(&hasher)
}

/// `xxhash_rust::xxh3::xxh3_64`. Trusted: the result depends on the input
/// bytes alone; [`spec_xxh3_64`] is the name of that result.
pub assume_specification[ xxhash_rust::xxh3::xxh3_64 ](input: &[u8]) -> (digest: u64)
    ensures
        digest == spec_xxh3_64(input@),
;

/// Byte `i` of `key`, or zero past its end: the zero padding of a partial
/// block.
pub open spec fn padded_byte(key: Seq<u8>, i: int) -> int {
    if 0 <= i < key.len() {
        key[i] as int
    } else {
        0
    }
}

/// The little-endian 32-bit word at byte `offset` of the zero-padded key.
pub open spec fn padded_word(key: Seq<u8>, offset: int) -> int {
    padded_byte(key, offset) + 0x100 * padded_byte(key, offset + 1) + 0x1_0000 * padded_byte(
        key,
        offset + 2,
    ) + 0x100_0000 * padded_byte(key, offset + 3)
}

/// Sum of the first `lanes` words of the block that starts at byte `base`.
pub open spec fn lane_sum(key: Seq<u8>, base: int, lanes: nat) -> int
    decreases lanes,
{
    if lanes == 0 {
        0
    } else {
        lane_sum(key, base, (lanes - 1) as nat) + padded_word(key, base + 4 * (lanes - 1))
    }
}

/// Sum, over the first `blocks` blocks of `block` bytes, of each block's
/// first `lanes` words.
pub open spec fn block_sum(key: Seq<u8>, block: int, lanes: nat, blocks: nat) -> int
    decreases blocks,
{
    if blocks == 0 {
        0
    } else {
        block_sum(key, block, lanes, (blocks - 1) as nat) + lane_sum(
            key,
            block * (blocks - 1),
            lanes,
        )
    }
}

/// Number of blocks of `block` bytes needed to hold `len` bytes.
pub open spec fn block_count(len: nat, block: int) -> nat {
    if block > 0 {
        ((len + block - 1) / block) as nat
    } else {
        0
    }
}

/// The lane-sum digest: the key is cut into blocks of `block` bytes, the last
/// one padded with zeros; the first `lanes` little-endian 32-bit words of
/// every block are added up modulo 2^32.
pub open spec fn spec_lane_digest(key: Seq<u8>, block: int, lanes: nat) -> u32 {
    (block_sum(key, block, lanes, block_count(key.len(), block)) % 0x1_0000_0000) as u32
}

/// The wide lane sum: all sixteen lanes of every 64-byte block.
pub open spec fn spec_wide_lane_sum(key: Seq<u8>) -> u32 {
    spec_lane_digest(key, WIDE_BLOCK as int, WIDE_LANES as nat)
}

/// The lead lane sum: the first lane of every 32-byte block.
pub open spec fn spec_lead_lane_sum(key: Seq<u8>) -> u32 {
    spec_lane_digest(key, LEAD_BLOCK as int, LEAD_LANES as nat)
}

/// The digest that strategy `algorithm` yields for `key` on a platform with
/// capabilities `caps`.
///
/// A lane sum is used only where its capability is present; without it the
/// digest degrades to XXH3. The cipher-round hash exists only as a processor
/// instruction sequence, for which this library has no path: its digest is
/// always the XXH3 substitute.
pub open spec fn spec_digest(algorithm: ShardAlgorithm, caps: Capabilities, key: Seq<u8>) -> u64 {
    match algorithm {
        ShardAlgorithm::Avx512 => if caps.avx512 {
            spec_wide_lane_sum(key) as u64
        } else {
            spec_xxh3_64(key)
        },
        ShardAlgorithm::Avx2 => if caps.avx2 {
            spec_lead_lane_sum(key) as u64
        } else {
            spec_xxh3_64(key)
        },
        ShardAlgorithm::AesNi => spec_xxh3_64(key),
        ShardAlgorithm::Fnv1a => spec_fnv1a_64(key),
        ShardAlgorithm::Xxh3 => spec_xxh3_64(key),
    }
}

/// Reads byte `offset + within` of `key`, or zero past its end.
fn load_padded_byte(key: &[u8], offset: usize, within: usize) -> (byte: u8)
    requires
        offset <= key@.len(),
    ensures
        byte as int == padded_byte(key@, offset + within),
{
    if within < key.len() - offset {
        key[offset + within]
    } else {
        0
    }
}

/// Reads the little-endian word at byte `offset + within` of the zero-padded
/// key.
fn load_padded_word(key: &[u8], offset: usize, within: usize) -> (word: u32)
    requires
        offset <= key@.len(),
        within <= usize::MAX - 3,
    ensures
        word as int == padded_word(key@, offset + within),
{
    let b0: u32 = load_padded_byte(key, offset, within) as u32;
    let b1: u32 = load_padded_byte(key, offset, within + 1) as u32;
    let b2: u32 = load_padded_byte(key, offset, within + 2) as u32;
    let b3: u32 = load_padded_byte(key, offset, within + 3) as u32;
    b0 + 0x100 * b1 + 0x1_0000 * b2 + 0x100_0000 * b3
}

/// Adding modulo 2^32 step by step gives the sum modulo 2^32.
proof fn lemma_wrapping_step(total: int, hash: u32, word: u32)
    requires
        hash as int == total % 0x1_0000_0000,
    ensures
        hash.wrapping_add(word) as int == (total + word) % 0x1_0000_0000,
{
    vstd::arithmetic::div_mod::lemma_add_mod_noop(total, word as int, 0x1_0000_0000);
    vstd::arithmetic::div_mod::lemma_small_mod(word as nat, 0x1_0000_0000);
    let sum: int = hash + word;
    if sum > u32::MAX {
        vstd::arithmetic::div_mod::lemma_mod_add_multiples_vanish(sum - 0x1_0000_0000, 0x1_0000_0000);
        vstd::arithmetic::div_mod::lemma_small_mod((sum - 0x1_0000_0000) as nat, 0x1_0000_0000);
    } else {
        vstd::arithmetic::div_mod::lemma_small_mod(sum as nat, 0x1_0000_0000);
    }
}

/// Computes the lane-sum digest of `key` for blocks of `block` bytes of
/// which the first `lanes` words count.
fn lane_digest(key: &[u8], block: usize, lanes: usize) -> (digest: u32)
    requires
        0 < block,
        4 * lanes <= block,
    ensures
        digest == spec_lane_digest(key@, block as int, lanes as nat),
{
    let len: usize = key.len();
    let mut hash: u32 = 0;
    let mut offset: usize = 0;
    let ghost mut blocks: nat = 0;
    assert(block_count(0nat, block as int) == 0) by (nonlinear_arith)
        requires
            block > 0,
    ;
    while offset < len
        invariant
            len == key@.len(),
            0 < block,
            4 * lanes <= block,
            offset <= len,
            blocks <= block_count(len as nat, block as int),
            offset == len || offset == block * blocks,
            offset == len ==> blocks == block_count(len as nat, block as int),
            hash as int == block_sum(key@, block as int, lanes as nat, blocks) % 0x1_0000_0000,
        decreases len - offset,
    {
        proof {
            lemma_block_count_step(len as nat, block as int, blocks);
        }
        let mut lane: usize = 0;
        let ghost before: int = block_sum(key@, block as int, lanes as nat, blocks);
        while lane < lanes
            invariant
                len == key@.len(),
                4 * lanes <= block,
                offset < len,
                lane <= lanes,
                hash as int == (before + lane_sum(key@, offset as int, lane as nat))
                    % 0x1_0000_0000,
            decreases lanes - lane,
        {
            let word: u32 = load_padded_word(key, offset, 4 * lane);
            proof {
                lemma_wrapping_step(
                    before + lane_sum(key@, offset as int, lane as nat),
                    hash,
                    word,
                );
            }
            hash = hash.wrapping_add(word);
            lane = lane + 1;
        }
        offset = if len - offset > block {
            offset + block
        } else {
            len
        };
        proof {
            assert(block * (blocks + 1) == block * blocks + block) by (nonlinear_arith);
            blocks = blocks + 1;
        }
    }
    hash
}

/// While a block starts inside the key, it is one of the counted blocks; if
/// it is the last to start inside the key, it is the last counted block.
proof fn lemma_block_count_step(len: nat, block: int, blocks: nat)
    requires
        0 < block,
        block * blocks < len,
    ensures
        blocks < block_count(len, block),
        len - block * blocks <= block ==> blocks + 1 == block_count(len, block),
{
    let total: int = len + block - 1;
    let count: int = total / block;
    vstd::arithmetic::div_mod::lemma_fundamental_div_mod(total, block);
    vstd::arithmetic::div_mod::lemma_mod_bound(total, block);
    assert(total == block * count + total % block);
    assert(blocks < count) by (nonlinear_arith)
        requires
            0 < block,
            block * blocks < len,
            len + block - 1 == block * count + total % block,
            0 <= total % block < block,
    ;
    if len - block * blocks <= block {
        assert(blocks + 1 >= count) by (nonlinear_arith)
            requires
                0 < block,
                len - block * blocks <= block,
                len + block - 1 == block * count + total % block,
                0 <= total % block < block,
        ;
    }
}

/// The wide lane sum of `key`.
pub fn wide_lane_sum(key: &[u8]) -> (digest: u32)
    ensures
        digest == spec_wide_lane_sum(key@),
{
    lane_digest(key, WIDE_BLOCK, WIDE_LANES)
}

/// The lead lane sum of `key`.
pub fn lead_lane_sum(key: &[u8]) -> (digest: u32)
    ensures
        digest == spec_lead_lane_sum(key@),
{
    lane_digest(key, LEAD_BLOCK, LEAD_LANES)
}

} // verus!
