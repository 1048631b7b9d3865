//! Default parameters of the benchmark.
use vstd::prelude::*;

verus! {

/// Target size of each cache backend, in entries.
pub const CACHE_CAPACITY: u64 = 7500;

/// Size of the measured key space: measured keys lie in `[0, TOTAL_KEYS)`.
pub const TOTAL_KEYS: usize = 10_000;

/// Number of operations in one measured workload.
pub const WORKLOAD_SIZE: usize = 1_000;

/// Zipf skew exponent, in thousandths (1600 stands for 1.6).
pub const ZIPF_S_MILLI: i64 = 1600;

/// Share of reads in a measured workload, in thousandths (950 stands for 95%).
pub const READ_RATIO_MILLI: u32 = 950;

/// Lower bound of the simulated backend latency, in microseconds.
pub const MIN_DELAY_US: u64 = 1000;

/// Upper bound of the simulated backend latency, in microseconds.
pub const MAX_DELAY_US: u64 = 2000;

/// Number of warmup iterations (one write each, sometimes followed by a read).
pub const WARMUP_SIZE: u64 = CACHE_CAPACITY;

/// Seed of the warmup generator.
pub const WARMUP_SEED: u64 = 123;

/// Seed of the measured workload generator.
pub const WORKLOAD_SEED: u64 = 42;

/// Advisory minimum hit rate, in percent, that a driver warns below.
pub const MIN_HIT_RATE_TARGET_PERCENT: u64 = 85;

/// The parameters of one benchmark scenario.
#[derive(Clone, Copy, Debug, PartialEq, Eq, Structural)]
pub struct BenchConfig {
    /// Target size of the cache; warmup keys lie in `[0, 2 * cache_capacity)`.
    pub cache_capacity: u64,
    /// Measured keys lie in `[0, total_keys)`.
    pub total_keys: usize,
    /// Number of measured operations.
    pub workload_size: usize,
    /// Zipf skew exponent, in thousandths; must be positive.
    pub skew_milli: i64,
    /// Share of reads among measured operations, in thousandths; values
    /// from 1000 up mean reads only.
    pub read_ratio_milli: u32,
    /// Number of warmup iterations.
    pub warmup_size: u64,
}

/// The default scenario, built from the constants above.
pub open spec fn standard_config() -> BenchConfig {
    BenchConfig {
        cache_capacity: CACHE_CAPACITY,
        total_keys: TOTAL_KEYS,
        workload_size: WORKLOAD_SIZE,
        skew_milli: ZIPF_S_MILLI,
        read_ratio_milli: READ_RATIO_MILLI,
        warmup_size: WARMUP_SIZE,
    }
}

impl BenchConfig {
    /// The default scenario.
    pub fn standard() -> (c: BenchConfig)
        ensures
            c == standard_config(),
    {
        BenchConfig {
            cache_capacity: CACHE_CAPACITY,
            total_keys: TOTAL_KEYS,
            workload_size: WORKLOAD_SIZE,
            skew_milli: ZIPF_S_MILLI,
            read_ratio_milli: READ_RATIO_MILLI,
            warmup_size: WARMUP_SIZE,
        }
    }
}

} // verus!
