use fast_shard::{ConfigError, ShardAlgorithm, ShardConfig, ShardTier};

fn two_tiers() -> ShardConfig {
    ShardConfig {
        tiers: vec![
            ShardTier {
                size_range: 0..=16,
                algorithms: vec![ShardAlgorithm::Fnv1a],
            },
            ShardTier {
                size_range: 17..=1024,
                algorithms: vec![ShardAlgorithm::Xxh3, ShardAlgorithm::Fnv1a],
            },
        ],
        default_algorithms: vec![ShardAlgorithm::Avx2, ShardAlgorithm::Xxh3],
    }
}

#[test]
fn default_config_has_two_tiers_and_an_xxh3_default() {
    let config = ShardConfig::default();
    assert_eq!(config.tiers.len(), 2);
    assert_eq!(config.tiers[0].size_range, 0..=16);
    assert_eq!(
        config.tiers[0].algorithms,
        vec![
            ShardAlgorithm::Avx512,
            ShardAlgorithm::Avx2,
            ShardAlgorithm::AesNi,
            ShardAlgorithm::Fnv1a,
            ShardAlgorithm::Xxh3,
        ]
    );
    assert_eq!(config.tiers[1].size_range, 17..=usize::MAX);
    assert_eq!(
        config.tiers[1].algorithms,
        vec![
            ShardAlgorithm::Avx512,
            ShardAlgorithm::Avx2,
            ShardAlgorithm::AesNi,
            ShardAlgorithm::Xxh3,
            ShardAlgorithm::Fnv1a,
        ]
    );
    assert_eq!(config.default_algorithms, vec![ShardAlgorithm::Xxh3]);
    assert_eq!(config.validate(), Ok(()));
}

#[test]
fn default_config_resolves_every_length_to_a_tier() {
    let config = ShardConfig::default();
    for size in [0usize, 1, 15, 16] {
        assert_eq!(config.resolve(size), &config.tiers[0].algorithms);
    }
    for size in [17usize, 18, 1 << 20, usize::MAX - 1, usize::MAX] {
        assert_eq!(config.resolve(size), &config.tiers[1].algorithms);
    }
}

#[test]
fn tier_bounds_are_inclusive() {
    let tier = ShardTier {
        size_range: 17..=1024,
        algorithms: vec![ShardAlgorithm::Xxh3],
    };
    assert!(!tier.covers(16));
    assert!(tier.covers(17));
    assert!(tier.covers(500));
    assert!(tier.covers(1024));
    assert!(!tier.covers(1025));
    assert!(!tier.covers(0));
    assert!(!tier.covers(usize::MAX));

    let point = ShardTier {
        size_range: 7..=7,
        algorithms: vec![ShardAlgorithm::Xxh3],
    };
    assert!(!point.covers(6));
    assert!(point.covers(7));
    assert!(!point.covers(8));
}

#[test]
fn inverted_range_covers_nothing() {
    let tier = ShardTier {
        size_range: 5..=3,
        algorithms: vec![ShardAlgorithm::Fnv1a],
    };
    for size in [0usize, 3, 4, 5, 6, usize::MAX] {
        assert!(!tier.covers(size));
    }
    let config = ShardConfig {
        tiers: vec![tier],
        default_algorithms: vec![ShardAlgorithm::Xxh3],
    };
    assert_eq!(config.validate(), Ok(()));
    assert_eq!(config.resolve(4), &vec![ShardAlgorithm::Xxh3]);
}

#[test]
fn exhausted_range_no_longer_covers_its_end() {
    let mut range = 3usize..=5;
    while range.next().is_some() {}
    let tier = ShardTier {
        size_range: range,
        algorithms: vec![ShardAlgorithm::Fnv1a],
    };
    for size in [2usize, 3, 4, 5, 6] {
        assert!(!tier.covers(size));
    }

    let mut partly = 3usize..=5;
    assert_eq!(partly.next(), Some(3));
    let tier = ShardTier {
        size_range: partly,
        algorithms: vec![ShardAlgorithm::Fnv1a],
    };
    assert!(!tier.covers(3));
    assert!(tier.covers(4));
    assert!(tier.covers(5));
    assert!(!tier.covers(6));
}

#[test]
fn resolve_returns_the_first_covering_tier() {
    let config = two_tiers();
    assert_eq!(config.resolve(0), &vec![ShardAlgorithm::Fnv1a]);
    assert_eq!(config.resolve(16), &vec![ShardAlgorithm::Fnv1a]);
    assert_eq!(
        config.resolve(17),
        &vec![ShardAlgorithm::Xxh3, ShardAlgorithm::Fnv1a]
    );
    assert_eq!(
        config.resolve(1024),
        &vec![ShardAlgorithm::Xxh3, ShardAlgorithm::Fnv1a]
    );
    assert_eq!(
        config.resolve(1025),
        &vec![ShardAlgorithm::Avx2, ShardAlgorithm::Xxh3]
    );
    assert_eq!(
        config.resolve(usize::MAX),
        &vec![ShardAlgorithm::Avx2, ShardAlgorithm::Xxh3]
    );
}

#[test]
fn resolve_without_tiers_returns_the_default() {
    let config = ShardConfig {
        tiers: vec![],
        default_algorithms: vec![ShardAlgorithm::Fnv1a],
    };
    for size in [0usize, 16, 17, usize::MAX] {
        assert_eq!(config.resolve(size), &vec![ShardAlgorithm::Fnv1a]);
    }
}

#[test]
fn validate_accepts_non_empty_lists() {
    assert_eq!(two_tiers().validate(), Ok(()));
    let no_tiers = ShardConfig {
        tiers: vec![],
        default_algorithms: vec![ShardAlgorithm::Avx512],
    };
    assert_eq!(no_tiers.validate(), Ok(()));
}

#[test]
fn validate_reports_the_first_empty_tier() {
    let mut config = two_tiers();
    config.tiers[1].algorithms.clear();
    assert_eq!(
        config.validate(),
        Err(ConfigError::EmptyTierAlgorithms { tier: 1 })
    );
    config.tiers[0].algorithms.clear();
    assert_eq!(
        config.validate(),
        Err(ConfigError::EmptyTierAlgorithms { tier: 0 })
    );
    config.default_algorithms.clear();
    assert_eq!(
        config.validate(),
        Err(ConfigError::EmptyTierAlgorithms { tier: 0 })
    );
}

#[test]
fn validate_reports_an_empty_default_last() {
    let mut config = two_tiers();
    config.default_algorithms.clear();
    assert_eq!(config.validate(), Err(ConfigError::EmptyDefaultAlgorithms));
    let nothing = ShardConfig {
        tiers: vec![],
        default_algorithms: vec![],
    };
    assert_eq!(nothing.validate(), Err(ConfigError::EmptyDefaultAlgorithms));
}

#[test]
fn cloned_config_resolves_alike() {
    let config = two_tiers();
    let copy = config.clone();
    for size in [0usize, 16, 17, 1024, 1025] {
        assert_eq!(config.resolve(size), copy.resolve(size));
    }
}
