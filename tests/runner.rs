use cache_bench::backends::{entry_weight, OptimizedMokaCacheBuilder, ReferenceCache};
use cache_bench::cache::{
    backend_delay_ns, simulate_backend_latency, CacheOps, CacheRunner, DelayLog, LatencySink, Op, ReplayCounts,
};
use cache_bench::config::{MAX_DELAY_US, MIN_DELAY_US};
use cache_bench::workload::{KeySampler, WarmupManager};
use rand::rngs::{SmallRng, StdRng};
use rand::SeedableRng;
use rand_distr::{Distribution, Zipf};
use std::collections::HashMap;

#[derive(Default)]
struct Unbounded(HashMap<usize, usize>);

impl CacheOps for Unbounded {
    fn get(&mut self, key: &usize) -> Option<&usize> {
        self.0.get(key)
    }

    fn insert(&mut self, key: usize, value: usize) {
        self.0.insert(key, value);
    }

    fn name(&self) -> &'static str {
        "Unbounded"
    }
}

#[derive(Default)]
struct Recorder(Vec<u64>);

impl LatencySink for Recorder {
    fn pause(&mut self, delay_ns: u64) {
        self.0.push(delay_ns);
    }
}

struct ZipfRanks(Zipf<f64>);

impl KeySampler for ZipfRanks {
    fn sample_rank(&mut self, rng: &mut StdRng) -> u64 {
        self.0.sample(rng) as u64
    }
}

fn sample_ops() -> Vec<Op> {
    vec![
        Op::Read(1),
        Op::Read(1),
        Op::Write(2, 20),
        Op::Read(2),
        Op::Read(3),
        Op::Write(3, 5),
        Op::Read(3),
        Op::Read(4),
    ]
}

#[test]
fn hits_plus_misses_equal_reads() {
    let ops = sample_ops();
    let mut rec = Recorder::default();
    let (hits, misses) = CacheRunner::run_cache(Unbounded::default(), &ops, &mut rec).unwrap();
    assert_eq!(hits + misses, 6);
    assert_eq!((hits, misses), (3, 3));
    // one delay per miss and one per write
    assert_eq!(rec.0.len(), 5);
}

#[test]
fn counting_holds_for_every_backend() {
    let ops = sample_ops();
    let reads = ops.iter().filter(|op| matches!(op, Op::Read(_))).count() as u64;
    let mut rec = Recorder::default();
    let lru = lru::LruCache::new(std::num::NonZeroUsize::new(1).unwrap());
    let (h, m) = CacheRunner::run_cache(lru, &ops, &mut rec).unwrap();
    assert_eq!(h + m, reads);
    let hl = hashlink::LruCache::new(1);
    let (h, m) = CacheRunner::run_cache(hl, &ops, &mut rec).unwrap();
    assert_eq!(h + m, reads);
    let moka = OptimizedMokaCacheBuilder::build_high_performance_cache();
    let (h, m) = CacheRunner::run_cache(moka, &ops, &mut rec).unwrap();
    assert_eq!(h + m, reads);
    let (h, m) = CacheRunner::run_cache(Unbounded::default(), &[], &mut rec).unwrap();
    assert_eq!((h, m), (0, 0));
}

#[test]
fn lru_backend_evicts() {
    let ops = vec![Op::Write(1, 1), Op::Write(2, 2), Op::Read(1), Op::Read(2)];
    let mut rec = Recorder::default();
    let lru = lru::LruCache::new(std::num::NonZeroUsize::new(1).unwrap());
    assert_eq!(CacheRunner::run_cache(lru, &ops, &mut rec).unwrap(), (0, 2));
    let hl = hashlink::LruCache::new(2);
    assert_eq!(CacheRunner::run_cache(hl, &ops, &mut rec).unwrap(), (2, 0));
}

#[test]
fn begin_op_reports_fills() {
    let mut cache = Unbounded::default();
    let mut counts = ReplayCounts { hits: 0, misses: 0 };
    assert_eq!(CacheRunner::begin_op(&mut cache, Op::Read(7), &mut counts), Some((7, 7)));
    assert_eq!(counts, ReplayCounts { hits: 0, misses: 1 });
    cache.insert(7, 7);
    assert_eq!(CacheRunner::begin_op(&mut cache, Op::Read(7), &mut counts), None);
    assert_eq!(counts, ReplayCounts { hits: 1, misses: 1 });
    assert_eq!(CacheRunner::begin_op(&mut cache, Op::Write(8, 3), &mut counts), Some((8, 3)));
    assert_eq!(counts, ReplayCounts { hits: 1, misses: 1 });
}

#[test]
fn delays_stay_within_bounds() {
    let ops: Vec<Op> = (0..200).map(|i| if i % 2 == 0 { Op::Write(i, i) } else { Op::Read(i + 1000) }).collect();
    let mut rec = Recorder::default();
    CacheRunner::run_cache(Unbounded::default(), &ops, &mut rec).unwrap();
    assert_eq!(rec.0.len(), 200);
    assert!(rec.0.iter().all(|d| (MIN_DELAY_US * 1000..=MAX_DELAY_US * 1000).contains(d)));
    let mut rng = SmallRng::seed_from_u64(1);
    for _ in 0..100 {
        let d = backend_delay_ns(&mut rng, 3, 5);
        assert!((3000..=5000).contains(&d));
        let d = simulate_backend_latency(&mut rng, &mut rec);
        assert_eq!(*rec.0.last().unwrap(), d);
    }
    assert_eq!(backend_delay_ns(&mut rng, 4, 4), 4000);
}

#[test]
fn written_warmup_keys_hit_after_warmup() {
    let mut m = WarmupManager::new();
    let space = 2 * m.config.cache_capacity;
    let mut sampler = ZipfRanks(Zipf::new(space as f64, 1.6).unwrap());
    let warm = m.generate_warmup_ops(&mut sampler).unwrap();
    let mut cache = ReferenceCache::new();
    m.warmup_cache(&mut cache, &warm).unwrap();
    let mut last_written: HashMap<usize, usize> = HashMap::new();
    for op in &warm {
        if let Op::Write(k, v) = op {
            last_written.insert(*k, *v);
        }
    }
    assert!(!last_written.is_empty());
    for (k, v) in &last_written {
        assert_eq!(cache.get(k), Some(v));
    }
    let mut reads: Vec<Op> = last_written.keys().map(|k| Op::Read(*k)).collect();
    reads.sort_by_key(|op| match op {
        Op::Read(k) => *k,
        Op::Write(k, _) => *k,
    });
    let mut rec = Recorder::default();
    let (hits, misses) = CacheRunner::run_cache(cache, &reads, &mut rec).unwrap();
    assert_eq!((hits, misses), (reads.len() as u64, 0));
    assert!(rec.0.is_empty());
}

#[test]
fn warmup_read_inserts_related_key() {
    let mut m = WarmupManager::new();
    let mut cache = Unbounded::default();
    m.warmup_cache(&mut cache, &[Op::Write(20, 1), Op::Read(20), Op::Read(21)]).unwrap();
    assert_eq!(cache.get(&1020), Some(&1020));
    assert_eq!(cache.get(&1021), None);
    assert_eq!(cache.get(&20), Some(&1));
    m.warmup_cache(&mut cache, &[Op::Read(usize::MAX - 9)]).unwrap();
    assert_eq!(cache.0.len(), 2);
}

#[test]
fn backends_have_names() {
    let lru: lru::LruCache<usize, usize> = lru::LruCache::new(std::num::NonZeroUsize::new(2).unwrap());
    assert_eq!(CacheOps::name(&lru), "LRU");
    let hl: hashlink::LruCache<usize, usize> = hashlink::LruCache::new(2);
    assert_eq!(CacheOps::name(&hl), "Hashlink LRU");
    let moka = OptimizedMokaCacheBuilder::build_optimized_cache();
    assert_eq!(CacheOps::name(&moka), "Mini-Moka Unsync");
}

#[test]
fn moka_builders_store_entries() {
    assert_eq!(entry_weight(&1, &2), 16);
    assert_eq!(OptimizedMokaCacheBuilder::initial_entries(), 3750);
    assert_eq!(OptimizedMokaCacheBuilder::max_weight(), 120_000);
    for mut c in [
        OptimizedMokaCacheBuilder::build_optimized_cache(),
        OptimizedMokaCacheBuilder::build_cache_with_expiration(),
        OptimizedMokaCacheBuilder::build_high_performance_cache(),
    ] {
        CacheOps::insert(&mut c, 5, 50);
        assert_eq!(CacheOps::get(&mut c, &5), Some(&50));
        assert_eq!(CacheOps::get(&mut c, &6), None);
    }
}

#[test]
fn reference_cache_is_a_map() {
    let mut c = ReferenceCache::new();
    assert_eq!(c.name(), "Reference (unbounded)");
    assert_eq!(c.get(&1), None);
    c.insert(1, 10);
    c.insert(1, 11);
    c.insert(2, 20);
    assert_eq!(c.get(&1), Some(&11));
    assert_eq!(c.get(&2), Some(&20));
    assert_eq!(c.map.len(), 2);
}

#[test]
fn held_reads_all_hit_on_reference_cache() {
    let mut c = ReferenceCache::new();
    c.insert(1, 1);
    c.insert(2, 2);
    let ops = vec![Op::Read(1), Op::Write(9, 9), Op::Read(2), Op::Read(1), Op::Read(9)];
    let mut rec = Recorder::default();
    assert_eq!(CacheRunner::run_cache(c, &ops, &mut rec).unwrap(), (4, 0));
    assert_eq!(rec.0.len(), 1);
}

#[test]
fn delay_log_records_each_delay() {
    let ops = vec![Op::Read(1), Op::Read(1), Op::Write(2, 3), Op::Read(2)];
    let mut log = DelayLog::new();
    let (hits, misses) = CacheRunner::run_cache(ReferenceCache::new(), &ops, &mut log).unwrap();
    assert_eq!((hits, misses), (2, 1));
    assert_eq!(log.delays.len() as u64, ops.len() as u64 - hits);
    assert!(log.delays.iter().all(|d| (MIN_DELAY_US * 1000..=MAX_DELAY_US * 1000).contains(d)));
    let mut empty = DelayLog::new();
    assert_eq!(CacheRunner::run_cache(ReferenceCache::new(), &[], &mut empty).unwrap(), (0, 0));
    assert!(empty.delays.is_empty());
}

#[test]
fn hashlink_replay_examples() {
    let mut log = DelayLog::new();
    let c: hashlink::LruCache<usize, usize> = hashlink::LruCache::new(10);
    assert_eq!(CacheRunner::run_cache(c, &[Op::Read(1), Op::Read(1)], &mut log).unwrap(), (1, 1));
    let c: hashlink::LruCache<usize, usize> = hashlink::LruCache::new(10);
    assert_eq!(CacheRunner::run_cache(c, &[Op::Write(5, 9), Op::Read(5)], &mut log).unwrap(), (1, 0));
}

#[test]
fn hashlink_warmup_example() {
    let mut m = WarmupManager::new();
    let mut c: hashlink::LruCache<usize, usize> = hashlink::LruCache::new(100);
    m.warmup_cache(&mut c, &[Op::Write(3, 7), Op::Read(3)]).unwrap();
    assert_eq!(c.len(), 1);
    assert_eq!(c.get(&3), Some(&7));
}

#[test]
fn moka_builders_set_bounds_and_expirations() {
    let p = OptimizedMokaCacheBuilder::build_high_performance_cache().policy();
    assert_eq!(p.max_capacity(), Some(7500));
    assert_eq!(p.time_to_live(), None);
    let p = OptimizedMokaCacheBuilder::build_optimized_cache().policy();
    assert_eq!(p.max_capacity(), Some(120_000));
    assert_eq!(p.time_to_idle(), None);
    let c = OptimizedMokaCacheBuilder::build_cache_with_expiration();
    assert_eq!(c.entry_count(), 0);
    let p = c.policy();
    assert_eq!(p.max_capacity(), Some(120_000));
    assert_eq!(p.time_to_live(), Some(std::time::Duration::from_secs(600)));
    assert_eq!(p.time_to_idle(), Some(std::time::Duration::from_secs(120)));
}
