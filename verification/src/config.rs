//! Key-length tiers and the resolver that maps a key length to the
//! preference list of the first tier covering it.

use crate::algorithm::ShardAlgorithm;
use std::ops::RangeInclusive;
use vstd::prelude::*;

verus! {

/// `Clone::clone` of the standard library's `RangeInclusive`, which the
/// derived `Clone` of [`ShardTier`] calls. Nothing is claimed of the copy.
pub assume_specification<Idx: Clone>[ <RangeInclusive<Idx> as Clone>::clone ](
    range: &RangeInclusive<Idx>,
) -> (copy: RangeInclusive<Idx>)
;

/// A range of key lengths together with the strategies preferred for it,
/// most preferred first.
#[derive(Debug, Clone)]
pub struct ShardTier {
    pub size_range: RangeInclusive<usize>,
    pub algorithms: Vec<ShardAlgorithm>,
}

/// The mathematical content of a [`ShardTier`]: the closed interval
/// `lower..=upper` of key lengths and the preference list.
pub struct TierView {
    pub lower: int,
    pub upper: int,
    pub algorithms: Seq<ShardAlgorithm>,
}

impl TierView {
    /// Whether a key of length `size` belongs to this tier. Both bounds are
    /// inclusive; a tier with `lower > upper` covers no length.
    pub open spec fn covers(self, size: int) -> bool {
        self.lower <= size <= self.upper
    }
}

impl View for ShardTier {
    type V = TierView;

    /// A range that has been iterated to its end no longer contains its end
    /// point, so its last covered length is one below it.
    open spec fn view(&self) -> TierView {
        TierView {
            lower: self.size_range@.start as int,
            upper: if self.size_range@.exhausted {
                self.size_range@.end - 1
            } else {
                self.size_range@.end as int
            },
            algorithms: self.algorithms@,
        }
    }
}

impl ShardTier {
    /// Whether a key of length `size` falls into this tier's range.
    pub fn covers(&self, size: usize) -> (hit: bool)
        ensures
            hit == self@.covers(size as int),
    {
        self.size_range.contains(&size)
    }
}

/// Tiers in match-priority order, and the preference list used when no tier
/// covers a key's length.
#[derive(Debug, Clone)]
pub struct ShardConfig {
    pub tiers: Vec<ShardTier>,
    pub default_algorithms: Vec<ShardAlgorithm>,
}

/// Why a configuration, or an engine built on it, is refused.
#[derive(Debug, Clone, Copy, PartialEq, Eq, Structural)]
pub enum ConfigError {
    /// The shard count is zero, so no index could be reduced modulo it.
    ZeroShardCount,
    /// The tier at this position has no strategy to choose from, and no
    /// earlier tier has the same fault.
    EmptyTierAlgorithms { tier: usize },
    /// Every tier has a strategy, but the default preference list has none.
    EmptyDefaultAlgorithms,
}

/// The mathematical content of a [`ShardConfig`].
pub struct ConfigView {
    pub tiers: Seq<TierView>,
    pub default_algorithms: Seq<ShardAlgorithm>,
}

impl ConfigView {
    /// Every preference list, of a tier or the default, is non-empty.
    pub open spec fn wf(self) -> bool {
        &&& self.default_algorithms.len() > 0
        &&& forall|i: int| 0 <= i < self.tiers.len() ==> (#[trigger] self.tiers[i]).algorithms.len() > 0
    }

    /// Tier `i` is the first tier with an empty preference list.
    pub open spec fn first_empty_tier(self, i: int) -> bool {
        &&& 0 <= i < self.tiers.len()
        &&& self.tiers[i].algorithms.len() == 0
        &&& forall|j: int| 0 <= j < i ==> (#[trigger] self.tiers[j]).algorithms.len() > 0
    }

    /// Whether `error` is the fault for which this configuration is refused.
    /// Tiers are examined in order, then the default list.
    pub open spec fn fault(self, error: ConfigError) -> bool {
        match error {
            ConfigError::ZeroShardCount => false,
            ConfigError::EmptyTierAlgorithms { tier } => self.first_empty_tier(tier as int),
            ConfigError::EmptyDefaultAlgorithms => {
                &&& self.default_algorithms.len() == 0
                &&& forall|i: int|
                    0 <= i < self.tiers.len() ==> (#[trigger] self.tiers[i]).algorithms.len() > 0
            },
        }
    }

    /// Every entry of every preference list, of a tier or the default, is a
    /// strategy that needs a hardware capability.
    pub open spec fn hardware_only(self) -> bool {
        &&& forall|i: int|
            0 <= i < self.default_algorithms.len() ==> (
            #[trigger] self.default_algorithms[i]).hardware_gated()
        &&& forall|t: int, i: int|
            0 <= t < self.tiers.len() && 0 <= i < self.tiers[t].algorithms.len() ==> (
            #[trigger] self.tiers[t].algorithms[i]).hardware_gated()
    }

    /// Tier `i` is the first tier whose range covers `size`.
    pub open spec fn first_match(self, size: int, i: int) -> bool {
        &&& 0 <= i < self.tiers.len()
        &&& self.tiers[i].covers(size)
        &&& forall|j: int| 0 <= j < i ==> !(#[trigger] self.tiers[j]).covers(size)
    }

    /// No tier's range covers `size`.
    pub open spec fn unmatched(self, size: int) -> bool {
        forall|i: int| 0 <= i < self.tiers.len() ==> !(#[trigger] self.tiers[i]).covers(size)
    }

    /// The preference list for length `size` when only the tiers from index
    /// `from` on are considered.
    pub open spec fn resolve_from(self, size: int, from: int) -> Seq<ShardAlgorithm>
        decreases self.tiers.len() - from,
    {
        if from < 0 || from >= self.tiers.len() {
            self.default_algorithms
        } else if self.tiers[from].covers(size) {
            self.tiers[from].algorithms
        } else {
            self.resolve_from(size, from + 1)
        }
    }

    /// The preference list for a key of length `size`: that of the first
    /// tier, in configured order, whose range covers `size`; the default
    /// list when no tier does.
    pub open spec fn resolve(self, size: int) -> Seq<ShardAlgorithm> {
        self.resolve_from(size, 0)
    }
}

/// First match wins: when tier `i` covers `size` and no earlier tier does,
/// the length resolves to tier `i`'s preference list, however many later
/// tiers cover it too.
pub proof fn lemma_resolve_first_match(config: ConfigView, size: int, i: int)
    requires
        config.first_match(size, i),
    ensures
        config.resolve(size) == config.tiers[i].algorithms,
{
    lemma_resolve_skips(config, size, 0, i);
}

/// A length that no tier covers resolves to the default preference list.
pub proof fn lemma_resolve_unmatched(config: ConfigView, size: int)
    requires
        config.unmatched(size),
    ensures
        config.resolve(size) == config.default_algorithms,
{
    lemma_resolve_skips(config, size, 0, config.tiers.len() as int);
}

/// Resolution invents nothing: a length resolves to the list of a tier that
/// covers it, or to the default list.
pub proof fn lemma_resolve_is_configured(config: ConfigView, size: int)
    ensures
        config.resolve(size) == config.default_algorithms || exists|i: int|
            0 <= i < config.tiers.len() && (#[trigger] config.tiers[i]).covers(size)
                && config.resolve(size) == config.tiers[i].algorithms,
{
    lemma_resolve_from_is_configured(config, size, 0);
}

/// Resolution is total: under a well-formed configuration every length
/// resolves to a non-empty preference list.
pub proof fn lemma_resolve_nonempty(config: ConfigView, size: int)
    requires
        config.wf(),
    ensures
        config.resolve(size).len() > 0,
{
    lemma_resolve_from_nonempty(config, size, 0);
}

/// A configuration is well formed exactly when it has no fault, and it has
/// at most one fault. The tier count is bounded as that of any configuration
/// held in memory is.
pub proof fn lemma_wf_iff_no_fault(config: ConfigView)
    requires
        config.tiers.len() <= usize::MAX,
    ensures
        config.wf() <==> forall|error: ConfigError| !config.fault(error),
        forall|a: ConfigError, b: ConfigError| config.fault(a) && config.fault(b) ==> a == b,
{
    if !config.wf() {
        if exists|i: int| 0 <= i < config.tiers.len() && config.tiers[i].algorithms.len() == 0 {
            let i = choose|i: int| 0 <= i < config.tiers.len() && config.tiers[i].algorithms.len() == 0;
            let first = lemma_first_empty_tier(config, i);
            assert(config.fault(ConfigError::EmptyTierAlgorithms { tier: first as usize }));
        } else {
            assert(config.fault(ConfigError::EmptyDefaultAlgorithms));
        }
    }
    assert forall|a: ConfigError, b: ConfigError| config.fault(a) && config.fault(b) implies a
        == b by {
        match (a, b) {
            (
                ConfigError::EmptyTierAlgorithms { tier: s },
                ConfigError::EmptyTierAlgorithms { tier: t },
            ) => {
                if s < t {
                    assert(config.tiers[s as int].algorithms.len() > 0);
                } else if t < s {
                    assert(config.tiers[t as int].algorithms.len() > 0);
                }
            },
            (ConfigError::EmptyTierAlgorithms { tier }, ConfigError::EmptyDefaultAlgorithms) => {
                assert(config.tiers[tier as int].algorithms.len() > 0);
            },
            (ConfigError::EmptyDefaultAlgorithms, ConfigError::EmptyTierAlgorithms { tier }) => {
                assert(config.tiers[tier as int].algorithms.len() > 0);
            },
            _ => {},
        }
    }
}

/// The built-in configuration is well formed and leaves no length to the
/// default list: lengths up to 16 resolve to the first tier, every longer
/// length, up to the largest a key can have, to the second.
pub proof fn lemma_default_covers_every_length(size: usize)
    ensures
        ShardConfig::default_view().wf(),
        size <= 16 ==> ShardConfig::default_view().resolve(size as int)
            == ShardConfig::default_view().tiers[0].algorithms,
        size > 16 ==> ShardConfig::default_view().resolve(size as int)
            == ShardConfig::default_view().tiers[1].algorithms,
{
    let config = ShardConfig::default_view();
    if size <= 16 {
        lemma_resolve_first_match(config, size as int, 0);
    } else {
        lemma_resolve_first_match(config, size as int, 1);
    }
}

/// Tiers that do not cover `size` are passed over.
proof fn lemma_resolve_skips(config: ConfigView, size: int, from: int, to: int)
    requires
        0 <= from <= to <= config.tiers.len(),
        forall|j: int| from <= j < to ==> !(#[trigger] config.tiers[j]).covers(size),
    ensures
        config.resolve_from(size, from) == config.resolve_from(size, to),
    decreases to - from,
{
    if from < to {
        lemma_resolve_skips(config, size, from + 1, to);
    }
}

proof fn lemma_resolve_from_is_configured(config: ConfigView, size: int, from: int)
    requires
        0 <= from,
    ensures
        config.resolve_from(size, from) == config.default_algorithms || exists|i: int|
            0 <= i < config.tiers.len() && (#[trigger] config.tiers[i]).covers(size)
                && config.resolve_from(size, from) == config.tiers[i].algorithms,
    decreases config.tiers.len() - from,
{
    if from < config.tiers.len() && !config.tiers[from].covers(size) {
        lemma_resolve_from_is_configured(config, size, from + 1);
    }
}

proof fn lemma_resolve_from_nonempty(config: ConfigView, size: int, from: int)
    requires
        config.wf(),
        0 <= from,
    ensures
        config.resolve_from(size, from).len() > 0,
    decreases config.tiers.len() - from,
{
    if from < config.tiers.len() && !config.tiers[from].covers(size) {
        lemma_resolve_from_nonempty(config, size, from + 1);
    }
}

/// At or before any tier with an empty list stands the first such tier.
proof fn lemma_first_empty_tier(config: ConfigView, i: int) -> (first: int)
    requires
        0 <= i < config.tiers.len(),
        config.tiers[i].algorithms.len() == 0,
    ensures
        0 <= first <= i,
        config.first_empty_tier(first),
    decreases i,
{
    if exists|j: int| 0 <= j < i && config.tiers[j].algorithms.len() == 0 {
        let j = choose|j: int| 0 <= j < i && config.tiers[j].algorithms.len() == 0;
        lemma_first_empty_tier(config, j)
    } else {
        i
    }
}

impl View for ShardConfig {
    type V = ConfigView;

    open spec fn view(&self) -> ConfigView {
        ConfigView {
            tiers: Seq::new(self.tiers@.len(), |i: int| self.tiers@[i]@),
            default_algorithms: self.default_algorithms@,
        }
    }
}

impl ShardConfig {
    /// The view of the built-in configuration: lengths up to 16 prefer the
    /// hardware strategies, then FNV-1a, then XXH3; all longer lengths prefer
    /// the hardware strategies, then XXH3, then FNV-1a; the default list is
    /// XXH3 alone.
    pub open spec fn default_view() -> ConfigView {
        ConfigView {
            tiers: seq![
                TierView {
                    lower: 0,
                    upper: 16,
                    algorithms: seq![
                        ShardAlgorithm::Avx512,
                        ShardAlgorithm::Avx2,
                        ShardAlgorithm::AesNi,
                        ShardAlgorithm::Fnv1a,
                        ShardAlgorithm::Xxh3,
                    ],
                },
                TierView {
                    lower: 17,
                    upper: usize::MAX as int,
                    algorithms: seq![
                        ShardAlgorithm::Avx512,
                        ShardAlgorithm::Avx2,
                        ShardAlgorithm::AesNi,
                        ShardAlgorithm::Xxh3,
                        ShardAlgorithm::Fnv1a,
                    ],
                },
            ],
            default_algorithms: seq![ShardAlgorithm::Xxh3],
        }
    }

    /// Checks that every preference list is non-empty, reporting the first
    /// fault in tier order and the default list last.
    pub fn validate(&self) -> (outcome: Result<(), ConfigError>)
        ensures
            match outcome {
                Ok(_) => self@.wf(),
                Err(error) => self@.fault(error),
            },
    {
        let mut i: usize = 0;
        while i < self.tiers.len()
            invariant
                i <= self.tiers.len(),
                forall|j: int| 0 <= j < i ==> (#[trigger] self@.tiers[j]).algorithms.len() > 0,
            decreases self.tiers.len() - i,
        {
            if self.tiers[i].algorithms.len() == 0 {
                return Err(ConfigError::EmptyTierAlgorithms { tier: i });
            }
            i = i + 1;
        }
        if self.default_algorithms.len() == 0 {
            return Err(ConfigError::EmptyDefaultAlgorithms);
        }
        Ok(())
    }

    /// Resolves a key length to the preference list that applies to it.
    pub fn resolve(&self, size: usize) -> (preferences: &Vec<ShardAlgorithm>)
        ensures
            preferences@ == self@.resolve(size as int),
    {
        let mut i: usize = 0;
        while i < self.tiers.len()
            invariant
                i <= self.tiers.len(),
                self@.resolve(size as int) == self@.resolve_from(size as int, i as int),
            decreases self.tiers.len() - i,
        {
            if self.tiers[i].covers(size) {
                return &self.tiers[i].algorithms;
            }
            i = i + 1;
        }
        &self.default_algorithms
    }
}

impl Default for ShardConfig {
    /// The built-in configuration described by [`ShardConfig::default_view`].
    fn default() -> (config: ShardConfig)
        ensures
            config@ == ShardConfig::default_view(),
    {
        let small_key_algorithms: Vec<ShardAlgorithm> = vec![
            ShardAlgorithm::Avx512,
            ShardAlgorithm::Avx2,
            ShardAlgorithm::AesNi,
            ShardAlgorithm::Fnv1a,
            ShardAlgorithm::Xxh3,
        ];
        let large_key_algorithms: Vec<ShardAlgorithm> = vec![
            ShardAlgorithm::Avx512,
            ShardAlgorithm::Avx2,
            ShardAlgorithm::AesNi,
            ShardAlgorithm::Xxh3,
            ShardAlgorithm::Fnv1a,
        ];
        let config = ShardConfig {
            tiers: vec![
                ShardTier { size_range: 0..=16, algorithms: small_key_algorithms },
                ShardTier { size_range: 17..=usize::MAX, algorithms: large_key_algorithms },
            ],
            default_algorithms: vec![ShardAlgorithm::Xxh3],
        };
        assert(config@.tiers =~~= ShardConfig::default_view().tiers);
        assert(config@.default_algorithms =~= ShardConfig::default_view().default_algorithms);
        config
    }
}

} // verus!
