//! Operations, the cache adapter contract, and replay with hit/miss counting.
pub use crate::backends::OptimizedMokaCacheBuilder;
pub use crate::workload::{WarmupManager, WorkloadGenerator};
use crate::config::{MAX_DELAY_US, MIN_DELAY_US};
use crate::error::AppError;
use crate::random::{draw_inclusive, entropy_rng};
use vstd::prelude::*;

verus! {

/// One operation of a workload.
#[derive(Clone, Copy, Debug, PartialEq, Eq, Structural)]
pub enum Op {
    Read(usize),
    Write(usize, usize),
}

/// The capability set that a cache backend offers to the harness.
///
/// The harness assumes no eviction policy. A backend states what it does
/// promise through the spec functions below, each `false` unless the backend
/// says otherwise, over a model `entries` of what it holds.
pub trait CacheOps {
    /// The backend never drops an entry: it behaves as a map of its
    /// `entries`.
    open spec fn lossless(&self) -> bool {
        false
    }

    /// `get` finds exactly the keys of `entries`, with their values, and
    /// leaves `entries` unchanged.
    open spec fn exact_lookup(&self) -> bool {
        false
    }

    /// `get` may drop entries but adds none, and finds only what `entries`
    /// holds; after `insert`, every entry is the inserted pair or was held
    /// before with the same value.
    open spec fn bounded_by_inserts(&self) -> bool {
        false
    }

    /// After `insert`, the inserted pair is held.
    open spec fn keeps_inserted(&self) -> bool {
        false
    }

    /// What the backend holds.
    open spec fn entries(&self) -> Map<usize, usize> {
        Map::empty()
    }

    /// The label that `name` returns, where the backend fixes one.
    open spec fn label(&self) -> Option<Seq<char>> {
        None
    }

    /// Looks `key` up; the backend may update its own bookkeeping.
    fn get(&mut self, key: &usize) -> (r: Option<&usize>)
        ensures
            old(self).lossless() ==> {
                &&& final(self).lossless()
                &&& final(self).entries() == old(self).entries()
                &&& r is Some <==> old(self).entries().contains_key(*key)
                &&& r matches Some(v) ==> *v == old(self).entries()[*key]
            },
            old(self).exact_lookup() ==> {
                &&& final(self).exact_lookup()
                &&& final(self).entries() == old(self).entries()
                &&& r is Some <==> old(self).entries().contains_key(*key)
                &&& r matches Some(v) ==> *v == old(self).entries()[*key]
            },
            old(self).bounded_by_inserts() ==> {
                &&& final(self).bounded_by_inserts()
                &&& final(self).entries().submap_of(old(self).entries())
                &&& r matches Some(v) ==> old(self).entries().contains_key(*key) && *v == old(
                    self,
                ).entries()[*key]
            },
            old(self).keeps_inserted() ==> final(self).keeps_inserted(),
    ;

    /// Inserts or replaces the value of `key`; the backend may evict.
    fn insert(&mut self, key: usize, value: usize)
        ensures
            old(self).lossless() ==> {
                &&& final(self).lossless()
                &&& final(self).entries() == old(self).entries().insert(key, value)
            },
            old(self).exact_lookup() ==> final(self).exact_lookup(),
            old(self).bounded_by_inserts() ==> {
                &&& final(self).bounded_by_inserts()
                &&& within_insert(old(self).entries(), key, value, final(self).entries())
            },
            old(self).keeps_inserted() ==> {
                &&& final(self).keeps_inserted()
                &&& final(self).entries().contains_key(key)
                &&& final(self).entries()[key] == value
            },
    ;

    /// A label for reports.
    fn name(&self) -> (r: &'static str)
        ensures
            self.label() matches Some(l) ==> r@ == l,
    ;
}

/// Every entry of `after` is the pair `(key, value)` or an entry of `before`.
pub open spec fn within_insert(before: Map<usize, usize>, key: usize, value: usize, after: Map<usize, usize>) -> bool {
    forall|k: usize| #[trigger]
        after.contains_key(k) ==> (k == key && after[k] == value) || (before.contains_key(k)
            && after[k] == before[k])
}

/// The key an operation touches.
pub open spec fn op_key(op: Op) -> usize {
    match op {
        Op::Read(k) => k,
        Op::Write(k, _) => k,
    }
}

/// Whether an operation is a read.
pub open spec fn is_read(op: Op) -> bool {
    op is Read
}

/// The number of reads in a sequence of operations.
pub open spec fn read_count(ops: Seq<Op>) -> nat
    decreases ops.len(),
{
    if ops.len() == 0 {
        0
    } else {
        read_count(ops.drop_last()) + if is_read(ops.last()) {
            1nat
        } else {
            0nat
        }
    }
}

/// Every operation of `ops` touches a key below `bound`.
pub open spec fn keys_below(ops: Seq<Op>, bound: int) -> bool {
    forall|i: int| 0 <= i < ops.len() ==> op_key(#[trigger] ops[i]) < bound
}

/// The read count of a sequence grows by one exactly when a read is appended.
pub proof fn lemma_read_count_push(ops: Seq<Op>, op: Op)
    ensures
        read_count(ops.push(op)) == read_count(ops) + if is_read(op) {
            1nat
        } else {
            0nat
        },
{
    assert(ops.push(op).drop_last() =~= ops);
}

/// A sequence never holds more reads than operations.
pub proof fn lemma_read_count_le_len(ops: Seq<Op>)
    ensures
        read_count(ops) <= ops.len(),
    decreases ops.len(),
{
    if ops.len() > 0 {
        lemma_read_count_le_len(ops.drop_last());
    }
}

/// Every key that `ops` reads is a key of `entries`.
pub open spec fn reads_held(ops: Seq<Op>, entries: Map<usize, usize>) -> bool {
    forall|i: int| 0 <= i < ops.len() && is_read(#[trigger] ops[i]) ==> entries.contains_key(op_key(ops[i]))
}

/// Every key of `before` is a key of `after`.
pub open spec fn held_within(before: Map<usize, usize>, after: Map<usize, usize>) -> bool {
    forall|k: usize| before.contains_key(k) ==> #[trigger] after.contains_key(k)
}

/// Receives each simulated backend delay, in nanoseconds, and waits it out
/// (or records it, or ignores it).
pub trait LatencySink {
    /// The sink keeps a log of the delays it was handed.
    open spec fn records(&self) -> bool {
        false
    }

    /// The delays handed so far, oldest first, for a sink that records.
    open spec fn delays(&self) -> Seq<u64> {
        Seq::empty()
    }

    fn pause(&mut self, delay_ns: u64)
        ensures
            old(self).records() ==> final(self).records() && final(self).delays() == old(
                self,
            ).delays().push(delay_ns),
    ;
}

/// A substitutable time source that only records the delays it is handed.
pub struct DelayLog {
    pub delays: Vec<u64>,
}

impl DelayLog {
    /// An empty log.
    pub fn new() -> (l: DelayLog)
        ensures
            l.delays@ == Seq::<u64>::empty(),
    {
        DelayLog { delays: Vec::new() }
    }
}

impl LatencySink for DelayLog {
    open spec fn records(&self) -> bool {
        true
    }

    open spec fn delays(&self) -> Seq<u64> {
        self.delays@
    }

    fn pause(&mut self, delay_ns: u64) {
        self.delays.push(delay_ns);
    }
}

/// The reads of `ops` that directly follow an operation on the same key.
pub open spec fn repeat_reads(ops: Seq<Op>) -> nat
    decreases ops.len(),
{
    if ops.len() == 0 {
        0
    } else {
        repeat_reads(ops.drop_last()) + if ops.len() >= 2 && is_read(ops.last()) && op_key(
            ops[ops.len() - 2],
        ) == op_key(ops.last()) {
            1nat
        } else {
            0nat
        }
    }
}

/// Every delay of `d` lies within `[MIN_DELAY_US * 1000, MAX_DELAY_US * 1000]`.
pub open spec fn delays_in_bounds(d: Seq<u64>) -> bool {
    forall|j: int| 0 <= j < d.len() ==> MIN_DELAY_US * 1000 <= #[trigger] d[j] <= MAX_DELAY_US * 1000
}

/// What a lossless backend that held `entries` holds after a replay of `ops`.
pub open spec fn replay_entries(entries: Map<usize, usize>, ops: Seq<Op>) -> Map<usize, usize>
    decreases ops.len(),
{
    if ops.len() == 0 {
        entries
    } else {
        let m = replay_entries(entries, ops.drop_last());
        match ops.last() {
            Op::Read(k) => if m.contains_key(k) {
                m
            } else {
                m.insert(k, k)
            },
            Op::Write(k, v) => m.insert(k, v),
        }
    }
}

/// The hits of a replay of `ops` on a lossless backend that held `entries`:
/// the reads of a key held at that point.
pub open spec fn replay_hits(entries: Map<usize, usize>, ops: Seq<Op>) -> nat
    decreases ops.len(),
{
    if ops.len() == 0 {
        0
    } else {
        replay_hits(entries, ops.drop_last()) + if is_read(ops.last()) && replay_entries(
            entries,
            ops.drop_last(),
        ).contains_key(op_key(ops.last())) {
            1nat
        } else {
            0nat
        }
    }
}

/// Draws one simulated backend delay, in nanoseconds, uniformly from
/// `[min_delay_us * 1000, max_delay_us * 1000]`.
pub fn backend_delay_ns(rng: &mut rand::rngs::SmallRng, min_delay_us: u64, max_delay_us: u64) -> (r: u64)
    requires
        min_delay_us <= max_delay_us,
        max_delay_us <= u64::MAX / 1000,
    ensures
        min_delay_us * 1000 <= r <= max_delay_us * 1000,
{
    draw_inclusive(rng, min_delay_us * 1000, max_delay_us * 1000)
}

/// Draws a delay within the configured latency bounds and hands it to `sink`.
pub fn simulate_backend_latency<L: LatencySink>(rng: &mut rand::rngs::SmallRng, sink: &mut L) -> (r: u64)
    ensures
        MIN_DELAY_US * 1000 <= r <= MAX_DELAY_US * 1000,
        old(sink).records() ==> final(sink).records() && final(sink).delays() == old(sink).delays().push(r),
{
    let delay = backend_delay_ns(rng, MIN_DELAY_US, MAX_DELAY_US);
    sink.pause(delay);
    delay
}

/// Hit and miss counters of one replay.
#[derive(Clone, Copy, Debug, PartialEq, Eq, Structural)]
pub struct ReplayCounts {
    pub hits: u64,
    pub misses: u64,
}

/// Replays measured operation sequences against cache backends.
pub struct CacheRunner;

impl CacheRunner {
    /// Performs the lookup part of one operation and updates the counters.
    ///
    /// A read that hits counts a hit and needs nothing more. A read that
    /// misses counts a miss and asks for the cache-aside fill `(key, key)`.
    /// A write counts nothing and asks for the write-through `(key, value)`.
    /// The returned pair is to be inserted after a simulated backend delay.
    pub fn begin_op<C: CacheOps>(cache: &mut C, op: Op, counts: &mut ReplayCounts) -> (fill: Option<(usize, usize)>)
        requires
            old(counts).hits + old(counts).misses < u64::MAX,
        ensures
            old(cache).lossless() ==> {
                &&& final(cache).lossless()
                &&& final(cache).entries() == old(cache).entries()
                &&& op matches Op::Read(k) ==> (fill is None <==> old(cache).entries().contains_key(k))
            },
            old(cache).keeps_inserted() ==> final(cache).keeps_inserted(),
            old(cache).exact_lookup() ==> {
                &&& final(cache).exact_lookup()
                &&& final(cache).entries() == old(cache).entries()
                &&& op matches Op::Read(k) ==> (fill is None <==> old(cache).entries().contains_key(k))
            },
            match op {
                Op::Read(k) => (fill is None && final(counts).hits == old(counts).hits + 1
                    && final(counts).misses == old(counts).misses) || (fill == Some((k, k))
                    && final(counts).hits == old(counts).hits && final(counts).misses
                    == old(counts).misses + 1),
                Op::Write(k, v) => fill == Some((k, v)) && *final(counts) == *old(counts),
            },
    {
        match op {
            Op::Read(key) => {
                if cache.get(&key).is_some() {
                    counts.hits = counts.hits + 1;
                    None
                } else {
                    counts.misses = counts.misses + 1;
                    Some((key, key))
                }
            },
            Op::Write(key, value) => Some((key, value)),
        }
    }

    /// Replays `ops` in order against `cache`: a read that hits counts a hit;
    /// a read that misses counts a miss, waits a simulated backend delay and
    /// fills the cache with `(key, key)`; a write waits a simulated delay and
    /// inserts its value. Each delay is drawn from a generator seeded afresh
    /// from entropy and handed to `latency`. Returns `(hits, misses)`.
    ///
    /// On a lossless backend that already holds every key that `ops` reads,
    /// every read hits.
    pub fn run_cache<C: CacheOps, L: LatencySink>(cache: C, ops: &[Op], latency: &mut L) -> (r: Result<(u64, u64), AppError>)
        ensures
            r is Ok,
            r matches Ok((hits, misses)) ==> hits + misses == read_count(ops@),
            cache.lossless() && reads_held(ops@, cache.entries()) ==> (r matches Ok((_, misses)) && misses == 0),
            cache.lossless() ==> (r matches Ok((hits, _)) && hits == replay_hits(cache.entries(), ops@)),
            cache.exact_lookup() && cache.keeps_inserted() ==> (r matches Ok((hits, _)) && hits
                >= repeat_reads(ops@)),
            old(latency).records() ==> (r matches Ok((hits, _)) && final(latency).records() && {
                let d = final(latency).delays();
                let d0 = old(latency).delays();
                &&& d.len() == d0.len() + ops@.len() - hits
                &&& d.subrange(0, d0.len() as int) == d0
                &&& delays_in_bounds(d.subrange(d0.len() as int, d.len() as int))
            }),
    {
        let ghost start = cache;
        let ghost d0 = latency.delays();
        let mut cache = cache;
        let mut rng = entropy_rng();
        let mut counts = ReplayCounts { hits: 0, misses: 0 };
        let mut i: usize = 0;
        while i < ops.len()
            invariant
                i <= ops@.len(),
                counts.hits + counts.misses == read_count(ops@.subrange(0, i as int)),
                start.lossless() ==> cache.lossless() && held_within(start.entries(), cache.entries()),
                start.lossless() && reads_held(ops@, start.entries()) ==> counts.misses == 0,
                start.lossless() ==> cache.entries() == replay_entries(start.entries(), ops@.subrange(0, i as int))
                    && counts.hits == replay_hits(start.entries(), ops@.subrange(0, i as int)),
                counts.hits <= i,
                start.exact_lookup() && start.keeps_inserted() ==> {
                    &&& cache.exact_lookup()
                    &&& cache.keeps_inserted()
                    &&& i > 0 ==> cache.entries().contains_key(op_key(ops@[i - 1]))
                    &&& counts.hits >= repeat_reads(ops@.subrange(0, i as int))
                },
                old(latency).records() ==> {
                    &&& latency.records()
                    &&& d0 == old(latency).delays()
                    &&& latency.delays().len() == d0.len() + i - counts.hits
                    &&& latency.delays().subrange(0, d0.len() as int) == d0
                    &&& delays_in_bounds(latency.delays().subrange(d0.len() as int, latency.delays().len() as int))
                },
            decreases ops@.len() - i,
        {
            let op = ops[i];
            proof {
                assert(ops@.subrange(0, i + 1) =~= ops@.subrange(0, i as int).push(op));
                assert(ops@.subrange(0, i + 1).drop_last() =~= ops@.subrange(0, i as int));
                lemma_read_count_push(ops@.subrange(0, i as int), op);
                lemma_read_count_le_len(ops@.subrange(0, i as int));
            }
            let ghost pre_hits = counts.hits;
            proof {
                let p = ops@.subrange(0, i + 1);
                if i > 0 {
                    assert(p[p.len() - 2] == ops@[i - 1]);
                }
            }
            let fill = Self::begin_op(&mut cache, op, &mut counts);
            let ghost before = latency.delays();
            proof {
                if start.exact_lookup() && start.keeps_inserted() {
                    if is_read(op) && i > 0 && op_key(ops@[i - 1]) == op_key(op) {
                        assert(fill is None);
                        assert(counts.hits == pre_hits + 1);
                    }
                    if fill is None {
                        assert(cache.entries().contains_key(op_key(op)));
                    }
                }
            }
            if let Some((key, value)) = fill {
                let delay = simulate_backend_latency(&mut rng, latency);
                cache.insert(key, value);
                proof {
                    if old(latency).records() {
                        let d = latency.delays();
                        assert(d.subrange(0, d0.len() as int) =~= before.subrange(0, d0.len() as int));
                        assert(d.subrange(d0.len() as int, d.len() as int) =~= before.subrange(
                            d0.len() as int,
                            before.len() as int,
                        ).push(delay));
                    }
                }
            }
            proof {
                if start.exact_lookup() && start.keeps_inserted() {
                    assert(cache.entries().contains_key(op_key(op)));
                    assert(op == ops@[i as int]);
                    let p = ops@.subrange(0, i + 1);
                    assert(p.last() == op);
                    assert(repeat_reads(p) == repeat_reads(ops@.subrange(0, i as int)) + if p.len() >= 2
                        && is_read(p.last()) && op_key(p[p.len() - 2]) == op_key(p.last()) {
                        1nat
                    } else {
                        0nat
                    });
                }
            }
            i = i + 1;
        }
        assert(ops@.subrange(0, ops@.len() as int) =~= ops@);
        Ok((counts.hits, counts.misses))
    }
}

} // verus!
