//! The shard engine: resolves a key's length to a preference list, picks the
//! first usable strategy, hashes the key and reduces the digest modulo the
//! shard count.

use crate::algorithm::{
    lemma_select_fallback, select, select_algorithm, Capabilities, ShardAlgorithm,
};
use crate::config::{lemma_resolve_is_configured, ConfigError, ConfigView, ShardConfig};
use crate::digest::{fnv1a_64, lead_lane_sum, spec_digest, spec_xxh3_64, wide_lane_sum};
use vstd::prelude::*;

verus! {

/// Maps byte-string keys to one of `shard_count` shards.
///
/// An engine is immutable once built. It assumes no hardware capability
/// unless it is given some with [`FastShard::with_capabilities`].
#[derive(Debug)]
pub struct FastShard {
    shard_count: u32,
    config: ShardConfig,
    capabilities: Capabilities,
}

/// The mathematical content of a [`FastShard`].
pub struct EngineView {
    pub shard_count: nat,
    pub config: ConfigView,
    pub capabilities: Capabilities,
}

impl EngineView {
    /// The shard count is positive and fits the index type, and the
    /// configuration is well formed.
    pub open spec fn wf(self) -> bool {
        &&& 0 < self.shard_count <= u32::MAX
        &&& self.config.wf()
    }

    /// The strategy used for keys of length `size`.
    pub open spec fn algorithm_for(self, size: int) -> ShardAlgorithm {
        select(self.config.resolve(size), self.capabilities)
    }

    /// The shard index that a digest reduces to.
    pub open spec fn index_of(self, digest: u64) -> int {
        digest as int % self.shard_count as int
    }

    /// The shard index of `key` when hashed with `algorithm`.
    pub open spec fn shard_with(self, algorithm: ShardAlgorithm, key: Seq<u8>) -> int {
        self.index_of(spec_digest(algorithm, self.capabilities, key))
    }

    /// The shard index of `key`.
    pub open spec fn shard(self, key: Seq<u8>) -> int {
        self.shard_with(self.algorithm_for(key.len() as int), key)
    }
}

/// Sharding is a function of the engine's content and the key's bytes:
/// engines of equal content send equal keys to the same shard, call after
/// call.
pub proof fn lemma_shard_deterministic(a: EngineView, b: EngineView, key_a: Seq<u8>, key_b: Seq<u8>)
    requires
        a == b,
        key_a == key_b,
    ensures
        a.shard(key_a) == b.shard(key_b),
{
}

/// Every shard index lies in `0..shard_count`, whichever strategy produced
/// the digest.
pub proof fn lemma_shard_in_range(engine: EngineView, key: Seq<u8>)
    requires
        engine.wf(),
    ensures
        0 <= engine.shard(key) < engine.shard_count,
        forall|algorithm: ShardAlgorithm|
            0 <= #[trigger] engine.shard_with(algorithm, key) < engine.shard_count,
        forall|digest: u64| 0 <= #[trigger] engine.index_of(digest) < engine.shard_count,
{
}

/// On a platform without any hardware capability, a key whose preference
/// list names hardware strategies only is sharded by its XXH3 digest.
pub proof fn lemma_hardware_fallback(engine: EngineView, key: Seq<u8>)
    requires
        engine.wf(),
        engine.capabilities == Capabilities::spec_none(),
        forall|i: int|
            0 <= i < engine.config.resolve(key.len() as int).len() ==> (
            #[trigger] engine.config.resolve(key.len() as int)[i]).hardware_gated(),
    ensures
        engine.algorithm_for(key.len() as int) == ShardAlgorithm::Xxh3,
        engine.shard(key) == spec_xxh3_64(key) as int % engine.shard_count as int,
        0 <= engine.shard(key) < engine.shard_count,
{
    lemma_select_fallback(engine.config.resolve(key.len() as int), engine.capabilities);
}

/// On a platform without any hardware capability, an engine whose every
/// preference list names hardware strategies only shards every key, of
/// whatever length, by its XXH3 digest, and within range.
pub proof fn lemma_hardware_only_engine(engine: EngineView, key: Seq<u8>)
    requires
        engine.wf(),
        engine.capabilities == Capabilities::spec_none(),
        engine.config.hardware_only(),
    ensures
        engine.shard(key) == spec_xxh3_64(key) as int % engine.shard_count as int,
        0 <= engine.shard(key) < engine.shard_count,
{
    lemma_resolve_is_configured(engine.config, key.len() as int);
    lemma_hardware_fallback(engine, key);
}

/// On a platform without any hardware capability, every hardware strategy
/// yields the XXH3 digest, so substituting one for another never moves a
/// key.
pub proof fn lemma_degraded_digest(algorithm: ShardAlgorithm, key: Seq<u8>)
    requires
        algorithm.hardware_gated(),
    ensures
        spec_digest(algorithm, Capabilities::spec_none(), key) == spec_xxh3_64(key),
{
}

impl View for FastShard {
    type V = EngineView;

    closed spec fn view(&self) -> EngineView {
        EngineView {
            shard_count: self.shard_count as nat,
            config: self.config@,
            capabilities: self.capabilities,
        }
    }
}

impl FastShard {
    #[verifier::type_invariant]
    spec fn inv(&self) -> bool {
        self@.wf()
    }

    /// An engine over `shard_count` shards with the built-in configuration
    /// and no hardware capability.
    pub fn new(shard_count: u32) -> (engine: FastShard)
        requires
            shard_count > 0,
        ensures
            engine@ == (EngineView {
                shard_count: shard_count as nat,
                config: ShardConfig::default_view(),
                capabilities: Capabilities::spec_none(),
            }),
            engine@.wf(),
    {
        FastShard { shard_count, config: ShardConfig::default(), capabilities: Capabilities::none() }
    }

    /// An engine over `shard_count` shards with configuration `config` and
    /// no hardware capability.
    pub fn with_config(shard_count: u32, config: ShardConfig) -> (engine: FastShard)
        requires
            shard_count > 0,
            config@.wf(),
        ensures
            engine@ == (EngineView {
                shard_count: shard_count as nat,
                config: config@,
                capabilities: Capabilities::spec_none(),
            }),
            engine@.wf(),
    {
        FastShard { shard_count, config, capabilities: Capabilities::none() }
    }

    /// Like [`FastShard::new`], but a zero shard count is reported instead
    /// of being the caller's obligation.
    pub fn try_new(shard_count: u32) -> (outcome: Result<FastShard, ConfigError>)
        ensures
            match outcome {
                Ok(engine) => shard_count > 0 && engine@.wf() && engine@ == (EngineView {
                    shard_count: shard_count as nat,
                    config: ShardConfig::default_view(),
                    capabilities: Capabilities::spec_none(),
                }),
                Err(error) => shard_count == 0 && error == ConfigError::ZeroShardCount,
            },
    {
        if shard_count == 0 {
            Err(ConfigError::ZeroShardCount)
        } else {
            Ok(FastShard::new(shard_count))
        }
    }

    /// Like [`FastShard::with_config`], but faults are reported instead of
    /// being the caller's obligation: a zero shard count first, otherwise the
    /// first empty preference list of `config`.
    pub fn try_with_config(shard_count: u32, config: ShardConfig) -> (outcome: Result<
        FastShard,
        ConfigError,
    >)
        ensures
            match outcome {
                Ok(engine) => shard_count > 0 && config@.wf() && engine@.wf() && engine@ == (
                EngineView {
                    shard_count: shard_count as nat,
                    config: config@,
                    capabilities: Capabilities::spec_none(),
                }),
                Err(error) => if shard_count == 0 {
                    error == ConfigError::ZeroShardCount
                } else {
                    config@.fault(error)
                },
            },
    {
        if shard_count == 0 {
            return Err(ConfigError::ZeroShardCount);
        }
        match config.validate() {
            Ok(_) => Ok(FastShard::with_config(shard_count, config)),
            Err(error) => Err(error),
        }
    }

    /// The same engine on a platform with capabilities `capabilities`.
    pub fn with_capabilities(self, capabilities: Capabilities) -> (engine: FastShard)
        ensures
            engine@ == (EngineView { capabilities, ..self@ }),
            engine@.wf(),
    {
        proof {
            use_type_invariant(&self);
        }
        FastShard { shard_count: self.shard_count, config: self.config, capabilities }
    }

    /// The number of shards. It is never zero: every engine is well formed.
    pub fn shard_count(&self) -> (count: u32)
        ensures
            count == self@.shard_count,
            self@.wf(),
    {
        proof {
            use_type_invariant(self);
        }
        self.shard_count
    }

    /// The capabilities this engine selects strategies by.
    pub fn capabilities(&self) -> (capabilities: Capabilities)
        ensures
            capabilities == self@.capabilities,
    {
        self.capabilities
    }

    /// The first strategy of `algorithms` that this engine's platform
    /// supports, or XXH3 when it supports none of them.
    pub fn get_available_algorithm(&self, algorithms: &[ShardAlgorithm]) -> (chosen: ShardAlgorithm)
        ensures
            chosen == select(algorithms@, self@.capabilities),
    {
        select_algorithm(algorithms, &self.capabilities)
    }

    /// The strategy this engine uses for keys of length `size`.
    pub fn get_algorithm_for_size(&self, size: usize) -> (chosen: ShardAlgorithm)
        ensures
            chosen == self@.algorithm_for(size as int),
    {
        let preferences = self.config.resolve(size);
        self.get_available_algorithm(preferences.as_slice())
    }

    /// Reduces a digest to a shard index.
    pub fn reduce(&self, digest: u64) -> (index: u32)
        ensures
            index as int == self@.index_of(digest),
            index < self@.shard_count,
    {
        proof {
            use_type_invariant(self);
        }
        (digest % (self.shard_count as u64)) as u32
    }

    /// The shard of `key`: its length picks the tier, the tier's preference
    /// list and the platform pick the strategy, and the strategy's digest is
    /// reduced modulo the shard count.
    pub fn shard(&self, key: &[u8]) -> (index: u32)
        ensures
            index as int == self@.shard(key@),
            index < self@.shard_count,
    {
        let algorithm = self.get_algorithm_for_size(key.len());
        match algorithm {
            ShardAlgorithm::Avx512 => self.shard_with_avx512(key),
            ShardAlgorithm::Avx2 => self.shard_with_avx2(key),
            ShardAlgorithm::AesNi => self.shard_with_aesni(key),
            ShardAlgorithm::Fnv1a => self.shard_with_fnv1a(key),
            ShardAlgorithm::Xxh3 => self.shard_with_xxh3(key),
        }
    }

    /// The shard of `key` under the wide lane sum, or under XXH3 when the
    /// platform lacks the wide vector capability.
    pub fn shard_with_avx512(&self, key: &[u8]) -> (index: u32)
        ensures
            index as int == self@.shard_with(ShardAlgorithm::Avx512, key@),
            index < self@.shard_count,
    {
        if self.capabilities.avx512 {
            self.reduce(wide_lane_sum(key) as u64)
        } else {
            self.shard_with_xxh3(key)
        }
    }

    /// The shard of `key` under the lead lane sum, or under XXH3 when the
    /// platform lacks the mid-width vector capability.
    pub fn shard_with_avx2(&self, key: &[u8]) -> (index: u32)
        ensures
            index as int == self@.shard_with(ShardAlgorithm::Avx2, key@),
            index < self@.shard_count,
    {
        if self.capabilities.avx2 {
            self.reduce(lead_lane_sum(key) as u64)
        } else {
            self.shard_with_xxh3(key)
        }
    }

    /// The shard of `key` for the cipher-round strategy. The library holds no
    /// cipher-round path, so the XXH3 digest stands in for it.
    pub fn shard_with_aesni(&self, key: &[u8]) -> (index: u32)
        ensures
            index as int == self@.shard_with(ShardAlgorithm::AesNi, key@),
            index < self@.shard_count,
    {
        self.shard_with_xxh3(key)
    }

    /// The shard of `key` under FNV-1a.
    pub fn shard_with_fnv1a(&self, key: &[u8]) -> (index: u32)
        ensures
            index as int == self@.shard_with(ShardAlgorithm::Fnv1a, key@),
            index < self@.shard_count,
    {
        self.reduce(fnv1a_64(key))
    }

    /// The shard of `key` under XXH3.
    pub fn shard_with_xxh3(&self, key: &[u8]) -> (index: u32)
        ensures
            index as int == self@.shard_with(ShardAlgorithm::Xxh3, key@),
            index < self@.shard_count,
    {
        self.reduce(xxhash_rust::xxh3::xxh3_64(key))
    }
}

} // verus!
