//! Deterministic generation of measured and warmup operation sequences.
use crate::cache::{
    is_read, keys_below, lemma_read_count_push, op_key, read_count, reads_held, CacheOps, Op,
};
use crate::config::{standard_config, BenchConfig, WARMUP_SEED};
use crate::error::AppError;
use crate::random::{draw_ratio, draw_u32, seeded_rng};
use vstd::prelude::*;

verus! {

/// Chance, in thousandths, that a warmup write is followed by a read of the
/// same key.
pub const WARMUP_READ_CHANCE_MILLI: u32 = 200;

/// Read ratios are given in thousandths.
pub const RATIO_SCALE: u32 = 1000;

/// A warmup read of a key that is a multiple of this stride also inserts a
/// related key.
pub const RELATED_KEY_STRIDE: usize = 10;

/// Distance from a key to its related key.
pub const RELATED_KEY_OFFSET: usize = 1000;

/// A source of Zipf frequency ranks, drawn from the generator's random stream.
///
/// A Zipf distribution over `n` elements draws ranks in `[1, n]`; rank `r`
/// stands for key `r - 1`.
pub trait KeySampler {
    fn sample_rank(&mut self, rng: &mut rand::rngs::StdRng) -> u64;
}

/// The key that a rank stands for in a key space of `key_space` keys: rank
/// `r` gives key `r - 1`, and ranks outside `[1, key_space]` are clamped.
pub open spec fn spec_rank_to_key(rank: u64, key_space: usize) -> usize
    recommends
        key_space > 0,
{
    if rank == 0 {
        0
    } else if rank > key_space {
        (key_space - 1) as usize
    } else {
        (rank - 1) as usize
    }
}

/// Maps a rank to its key, clamping into `[0, key_space)`.
pub fn rank_to_key(rank: u64, key_space: usize) -> (k: usize)
    requires
        key_space > 0,
    ensures
        k == spec_rank_to_key(rank, key_space),
        k < key_space,
{
    if rank == 0 {
        0
    } else if rank > key_space as u64 {
        key_space - 1
    } else {
        (rank - 1) as usize
    }
}

/// The operation built from one round of draws: a rank, the read/write coin
/// and a value.
pub open spec fn spec_workload_op(rank: u64, key_space: usize, read: bool, value: u32) -> Op
    recommends
        key_space > 0,
{
    if read {
        Op::Read(spec_rank_to_key(rank, key_space))
    } else {
        Op::Write(spec_rank_to_key(rank, key_space), value as usize)
    }
}

/// Builds the operation of one round of draws: a read of the rank's key, or
/// a write of `value` to it.
pub fn workload_op(rank: u64, key_space: usize, read: bool, value: u32) -> (op: Op)
    requires
        key_space > 0,
    ensures
        op == spec_workload_op(rank, key_space, read, value),
        op_key(op) < key_space,
{
    let key = rank_to_key(rank, key_space);
    if read {
        Op::Read(key)
    } else {
        Op::Write(key, value as usize)
    }
}

/// Every value written by `ops` fits in a `u32`.
pub open spec fn values_fit_u32(ops: Seq<Op>) -> bool {
    forall|i: int| 0 <= i < ops.len() ==> (#[trigger] ops[i] matches Op::Write(_, v) ==> v <= u32::MAX)
}

/// The measured-workload parameters are usable: a positive skew and a
/// non-empty key space.
pub open spec fn workload_params_valid(c: BenchConfig) -> bool {
    c.skew_milli > 0 && c.total_keys > 0
}

/// Generates measured workloads from a seeded random stream.
pub struct WorkloadGenerator {
    /// The random stream; its state is fixed by the seed and the draws so far.
    pub rng: rand::rngs::StdRng,
    /// The scenario generated.
    pub config: BenchConfig,
}

impl WorkloadGenerator {
    /// A generator for the default scenario, seeded with `seed`.
    pub fn new(seed: u64) -> (g: Self)
        ensures
            g.config == standard_config(),
    {
        WorkloadGenerator { rng: seeded_rng(seed), config: BenchConfig::standard() }
    }

    /// A generator for `config`, seeded with `seed`.
    pub fn with_config(seed: u64, config: BenchConfig) -> (g: Self)
        ensures
            g.config == config,
    {
        WorkloadGenerator { rng: seeded_rng(seed), config }
    }

    /// Generates `workload_size` operations. Each draws a key from `sampler`,
    /// then is a read with chance `read_ratio_milli / 1000`, else a write of
    /// a random value. Fails with a configuration error when the skew is not
    /// positive or the key space is empty.
    pub fn generate<S: KeySampler>(&mut self, sampler: &mut S) -> (r: Result<Vec<Op>, AppError>)
        ensures
            final(self).config == old(self).config,
            r is Err <==> !workload_params_valid(old(self).config),
            r matches Err(e) ==> e is Config,
            r matches Ok(ops) ==> {
                &&& ops@.len() == old(self).config.workload_size
                &&& keys_below(ops@, old(self).config.total_keys as int)
                &&& values_fit_u32(ops@)
                &&& old(self).config.read_ratio_milli == 0 ==> read_count(ops@) == 0
                &&& old(self).config.read_ratio_milli >= RATIO_SCALE ==> read_count(ops@) == ops@.len()
            },
    {
        let config = self.config;
        if config.skew_milli <= 0 {
            return Err(AppError::Config("skew exponent must be positive".to_owned()));
        }
        if config.total_keys == 0 {
            return Err(AppError::Config("key space must not be empty".to_owned()));
        }
        let ratio = if config.read_ratio_milli > RATIO_SCALE {
            RATIO_SCALE
        } else {
            config.read_ratio_milli
        };
        let mut ops: Vec<Op> = Vec::with_capacity(config.workload_size);
        let mut i: usize = 0;
        while i < config.workload_size
            invariant
                config == old(self).config,
                self.config == config,
                config.total_keys > 0,
                ratio <= RATIO_SCALE,
                ratio == 0 <==> config.read_ratio_milli == 0,
                ratio == RATIO_SCALE <==> config.read_ratio_milli >= RATIO_SCALE,
                i <= config.workload_size,
                ops@.len() == i,
                keys_below(ops@, config.total_keys as int),
                values_fit_u32(ops@),
                ratio == 0 ==> read_count(ops@) == 0,
                ratio == RATIO_SCALE ==> read_count(ops@) == i,
            decreases config.workload_size - i,
        {
            let rank = sampler.sample_rank(&mut self.rng);
            let op = if draw_ratio(&mut self.rng, ratio, RATIO_SCALE) {
                workload_op(rank, config.total_keys, true, 0)
            } else {
                let value = draw_u32(&mut self.rng);
                workload_op(rank, config.total_keys, false, value)
            };
            proof {
                lemma_read_count_push(ops@, op);
            }
            ops.push(op);
            i = i + 1;
        }
        Ok(ops)
    }
}

/// The key that a warmup read of `key` also inserts, as its own value: for
/// a multiple of the stride, the key `RELATED_KEY_OFFSET` above it, when that
/// key is representable; otherwise none.
pub open spec fn spec_related_key(key: usize) -> Option<usize> {
    if key % RELATED_KEY_STRIDE == 0 && key + RELATED_KEY_OFFSET <= usize::MAX {
        Some((key + RELATED_KEY_OFFSET) as usize)
    } else {
        None
    }
}

/// What a lossless backend holds after replaying one warmup operation.
pub open spec fn warmup_step(entries: Map<usize, usize>, op: Op) -> Map<usize, usize> {
    match op {
        Op::Read(k) => match spec_related_key(k) {
            Some(related) => entries.insert(related, related),
            None => entries,
        },
        Op::Write(k, v) => entries.insert(k, v),
    }
}

/// What a lossless backend that held `entries` holds after replaying `ops`.
pub open spec fn warmup_model(entries: Map<usize, usize>, ops: Seq<Op>) -> Map<usize, usize>
    decreases ops.len(),
{
    if ops.len() == 0 {
        entries
    } else {
        warmup_step(warmup_model(entries, ops.drop_last()), ops.last())
    }
}

/// A warmup replay on a lossless backend keeps every key that it writes, so
/// that a measured read of such a key hits (see `CacheRunner::begin_op`).
pub proof fn lemma_warmup_retains_written_keys(entries: Map<usize, usize>, ops: Seq<Op>, i: int)
    requires
        0 <= i < ops.len(),
        ops[i] is Write,
    ensures
        warmup_model(entries, ops).contains_key(op_key(ops[i])),
    decreases ops.len(),
{
    if i < ops.len() - 1 {
        lemma_warmup_retains_written_keys(entries, ops.drop_last(), i);
    }
}

/// Every read of `ops` reads a key that some write of `warmup` wrote.
pub open spec fn reads_written_by(ops: Seq<Op>, warmup: Seq<Op>) -> bool {
    forall|i: int|
        0 <= i < ops.len() && is_read(#[trigger] ops[i]) ==> exists|j: int|
            0 <= j < warmup.len() && warmup[j] is Write && op_key(#[trigger] warmup[j]) == op_key(ops[i])
}

/// Cache-aside correctness: after a warmup replay on a lossless backend, a
/// measured sequence that reads only keys that the warmup wrote finds every
/// one of them held, so that `CacheRunner::run_cache` counts no miss.
pub proof fn lemma_warmed_reads_hit(entries: Map<usize, usize>, warmup: Seq<Op>, ops: Seq<Op>)
    requires
        reads_written_by(ops, warmup),
    ensures
        reads_held(ops, warmup_model(entries, warmup)),
{
    assert forall|i: int| 0 <= i < ops.len() && is_read(#[trigger] ops[i]) implies warmup_model(
        entries,
        warmup,
    ).contains_key(op_key(ops[i])) by {
        let j = choose|j: int| 0 <= j < warmup.len() && warmup[j] is Write && op_key(#[trigger] warmup[j]) == op_key(ops[i]);
        lemma_warmup_retains_written_keys(entries, warmup, j);
    }
}

/// The key that a warmup read of `key` also inserts (see `spec_related_key`).
pub fn related_key(key: usize) -> (r: Option<usize>)
    ensures
        r == spec_related_key(key),
{
    if key % RELATED_KEY_STRIDE == 0 && key <= usize::MAX - RELATED_KEY_OFFSET {
        Some(key + RELATED_KEY_OFFSET)
    } else {
        None
    }
}

/// The warmup parameters are usable: a positive skew, a non-empty warmup key
/// space `[0, 2 * cache_capacity)` that fits in `usize`, and a warmup
/// sequence short enough to be held.
pub open spec fn warmup_params_valid(c: BenchConfig) -> bool {
    &&& c.skew_milli > 0
    &&& 0 < c.cache_capacity
    &&& 2 * c.cache_capacity <= usize::MAX
    &&& 2 * c.warmup_size <= usize::MAX
}

/// The shape of a warmup sequence of `iterations` iterations: one write per
/// iteration, each possibly followed directly by a read of the same key.
pub open spec fn warmup_shaped(ops: Seq<Op>, iterations: nat) -> bool {
    &&& ops.len() == iterations + read_count(ops)
    &&& ops.len() > 0 ==> !is_read(ops[0])
    &&& forall|i: int|
        1 <= i < ops.len() && is_read(#[trigger] ops[i]) ==> !is_read(ops[i - 1]) && op_key(ops[i - 1])
            == op_key(ops[i])
}

/// Primes cache backends to steady-state occupancy before measurement.
pub struct WarmupManager {
    /// The random stream; its state is fixed by the seed and the draws so far.
    pub rng: rand::rngs::StdRng,
    /// The scenario primed for.
    pub config: BenchConfig,
}

impl Default for WarmupManager {
    fn default() -> (m: Self)
        ensures
            m.config == standard_config(),
    {
        Self::new()
    }
}

impl WarmupManager {
    /// A warmup manager for the default scenario, with the fixed warmup seed.
    pub fn new() -> (m: Self)
        ensures
            m.config == standard_config(),
    {
        WarmupManager { rng: seeded_rng(WARMUP_SEED), config: BenchConfig::standard() }
    }

    /// A warmup manager for `config`, seeded with `seed`.
    pub fn with_config(seed: u64, config: BenchConfig) -> (m: Self)
        ensures
            m.config == config,
    {
        WarmupManager { rng: seeded_rng(seed), config }
    }

    /// Generates the warmup sequence: for each of `warmup_size` iterations, a
    /// write of a random value to a key drawn from `sampler` over
    /// `[0, 2 * cache_capacity)`, followed by a read of the same key with
    /// chance one in five. Fails with a configuration error when the
    /// parameters are unusable.
    pub fn generate_warmup_ops<S: KeySampler>(&mut self, sampler: &mut S) -> (r: Result<Vec<Op>, AppError>)
        ensures
            final(self).config == old(self).config,
            r is Err <==> !warmup_params_valid(old(self).config),
            r matches Err(e) ==> e is Config,
            r matches Ok(ops) ==> {
                &&& warmup_shaped(ops@, old(self).config.warmup_size as nat)
                &&& keys_below(ops@, 2 * old(self).config.cache_capacity)
                &&& values_fit_u32(ops@)
            },
    {
        let config = self.config;
        if config.skew_milli <= 0 {
            return Err(AppError::Config("skew exponent must be positive".to_owned()));
        }
        if config.cache_capacity == 0 || config.cache_capacity > (usize::MAX / 2) as u64 {
            return Err(AppError::Config("warmup key space must be non-empty and addressable".to_owned()));
        }
        if config.warmup_size > (usize::MAX / 2) as u64 {
            return Err(AppError::Config("warmup size is too large".to_owned()));
        }
        let key_space = (config.cache_capacity * 2) as usize;
        let mut ops: Vec<Op> = Vec::with_capacity(config.warmup_size as usize);
        let mut i: u64 = 0;
        while i < config.warmup_size
            invariant
                config == old(self).config,
                self.config == config,
                warmup_params_valid(config),
                key_space == 2 * config.cache_capacity,
                i <= config.warmup_size,
                ops@.len() <= 2 * i,
                warmup_shaped(ops@, i as nat),
                keys_below(ops@, key_space as int),
                values_fit_u32(ops@),
            decreases config.warmup_size - i,
        {
            let rank = sampler.sample_rank(&mut self.rng);
            let key = rank_to_key(rank, key_space);
            let value = draw_u32(&mut self.rng);
            let write = workload_op(rank, key_space, false, value);
            proof {
                lemma_read_count_push(ops@, write);
            }
            ops.push(write);
            if draw_ratio(&mut self.rng, WARMUP_READ_CHANCE_MILLI, RATIO_SCALE) {
                let read = Op::Read(key);
                proof {
                    lemma_read_count_push(ops@, read);
                    assert(ops@.push(read)[ops@.len() - 1] == write);
                }
                ops.push(read);
            }
            i = i + 1;
        }
        Ok(ops)
    }

    /// Replays `warmup_ops` directly against `cache`, in order, without
    /// simulated latency or counting: a write inserts its value; a read looks
    /// its key up and then inserts its `related_key`, if any, as its own
    /// value.
    pub fn warmup_cache<C: CacheOps>(&mut self, cache: &mut C, warmup_ops: &[Op]) -> (r: Result<(), AppError>)
        ensures
            r is Ok,
            *final(self) == *old(self),
            old(cache).lossless() ==> final(cache).lossless() && final(cache).entries() == warmup_model(
                old(cache).entries(),
                warmup_ops@,
            ),
    {
        let mut i: usize = 0;
        while i < warmup_ops.len()
            invariant
                i <= warmup_ops@.len(),
                *self == *old(self),
                old(cache).lossless() ==> cache.lossless() && cache.entries() == warmup_model(
                    old(cache).entries(),
                    warmup_ops@.subrange(0, i as int),
                ),
            decreases warmup_ops@.len() - i,
        {
            proof {
                assert(warmup_ops@.subrange(0, i + 1).drop_last() =~= warmup_ops@.subrange(0, i as int));
            }
            match warmup_ops[i] {
                Op::Read(key) => {
                    cache.get(&key);
                    if let Some(related) = related_key(key) {
                        cache.insert(related, related);
                    }
                },
                Op::Write(key, value) => {
                    cache.insert(key, value);
                },
            }
            i = i + 1;
        }
        assert(warmup_ops@.subrange(0, warmup_ops@.len() as int) =~= warmup_ops@);
        Ok(())
    }
}

} // verus!
