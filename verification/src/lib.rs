//! Tiered, capability-aware assignment of byte-string keys to shards.

pub mod algorithm;
pub mod config;
pub mod digest;
pub mod engine;

pub use algorithm::{select_algorithm, Capabilities, ShardAlgorithm};
pub use config::{ConfigError, ConfigView, ShardConfig, ShardTier, TierView};
pub use engine::{EngineView, FastShard};
