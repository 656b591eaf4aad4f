//! Rates from cumulative counters, and the totals of one reading of the system.

use std::collections::HashMap;
use vstd::prelude::*;
use crate::models::IoSnapshot;

verus! {

/// The interval a rate is taken over: `dt_ms`, but never less than one millisecond.
pub open spec fn floored_dt(dt_ms: nat) -> nat {
    if dt_ms == 0 {
        1
    } else {
        dt_ms
    }
}

/// Units per second between two readings of a cumulative counter taken
/// `dt_ms` milliseconds apart, rounded down; zero where the counter went back.
pub open spec fn rate_per_sec(prev: nat, now: nat, dt_ms: nat) -> nat {
    if now >= prev {
        ((now - prev) * 1000 / (floored_dt(dt_ms) as int)) as nat
    } else {
        0
    }
}

/// `n` as a `u64`, or the largest `u64` where `n` is beyond it.
pub open spec fn capped(n: nat) -> u64 {
    if n > u64::MAX {
        u64::MAX
    } else {
        n as u64
    }
}

/// The rate at which a cumulative counter grew from `prev` to `now` over
/// `dt_ms` milliseconds, in units per second. A counter that went back, as
/// after a reset, gives zero. An interval of zero counts as one millisecond.
pub fn bytes_per_sec(prev: u64, now: u64, dt_ms: u64) -> (rate: u128)
    ensures
        rate == rate_per_sec(prev as nat, now as nat, dt_ms as nat),
        now >= prev && dt_ms > 0 ==> rate == (now - prev) * 1000 / (dt_ms as int),
        now < prev ==> rate == 0,
{
    if now >= prev {
        let dt: u128 = if dt_ms == 0 {
            1
        } else {
            dt_ms as u128
        };
        (now - prev) as u128 * 1000 / dt
    } else {
        0
    }
}

/// Brings a rate into `u64`, the largest `u64` standing for all beyond it.
pub fn cap_rate(rate: u128) -> (capped_rate: u64)
    ensures
        capped_rate == capped(rate as nat),
{
    if rate > u64::MAX as u128 {
        u64::MAX
    } else {
        rate as u64
    }
}

/// One process as the operating system reports it. `cpu` is in thousandths
/// of a percent; the two byte counters are cumulative.
#[derive(Debug, Clone)]
pub struct ProcReading {
    pub pid: i32,
    pub name: String,
    pub cpu: u64,
    pub mem_bytes: u64,
    pub total_read_bytes: u64,
    pub total_written_bytes: u64,
}

/// A process reading with its name as a character sequence.
pub struct ProcReadingView {
    pub pid: i32,
    pub name: Seq<char>,
    pub cpu: u64,
    pub mem_bytes: u64,
    pub total_read_bytes: u64,
    pub total_written_bytes: u64,
}

impl View for ProcReading {
    type V = ProcReadingView;

    open spec fn view(&self) -> ProcReadingView {
        ProcReadingView {
            pid: self.pid,
            name: self.name@,
            cpu: self.cpu,
            mem_bytes: self.mem_bytes,
            total_read_bytes: self.total_read_bytes,
            total_written_bytes: self.total_written_bytes,
        }
    }
}

impl DeepView for ProcReading {
    type V = ProcReadingView;

    open spec fn deep_view(&self) -> ProcReadingView {
        self@
    }
}

/// The cumulative byte counters of one network interface.
#[derive(Debug, Clone, Copy)]
pub struct NetReading {
    pub total_received: u64,
    pub total_transmitted: u64,
}

impl View for NetReading {
    type V = NetReading;

    open spec fn view(&self) -> NetReading {
        *self
    }
}

impl DeepView for NetReading {
    type V = NetReading;

    open spec fn deep_view(&self) -> NetReading {
        *self
    }
}

/// One reading of the whole system. `cpu` is the load over all processors
/// in thousandths of a percent; the two memory figures are in bytes.
#[derive(Debug, Clone)]
pub struct SystemReading {
    pub processes: Vec<ProcReading>,
    pub networks: Vec<NetReading>,
    pub cpu: u64,
    pub used_memory: u64,
    pub total_memory: u64,
}

/// A system reading with its collections as sequences.
pub struct SystemReadingView {
    pub processes: Seq<ProcReadingView>,
    pub networks: Seq<NetReading>,
    pub cpu: u64,
    pub used_memory: u64,
    pub total_memory: u64,
}

impl View for SystemReading {
    type V = SystemReadingView;

    open spec fn view(&self) -> SystemReadingView {
        SystemReadingView {
            processes: self.processes.deep_view(),
            networks: self.networks@,
            cpu: self.cpu,
            used_memory: self.used_memory,
            total_memory: self.total_memory,
        }
    }
}

impl DeepView for SystemReading {
    type V = SystemReadingView;

    open spec fn deep_view(&self) -> SystemReadingView {
        self@
    }
}

/// The sum of a sequence of counters.
pub open spec fn sum(counters: Seq<u64>) -> nat
    decreases counters.len(),
{
    if counters.len() == 0 {
        0
    } else {
        sum(counters.drop_last()) + counters.last() as nat
    }
}

/// The read counter of each process, in order.
pub open spec fn read_counters(processes: Seq<ProcReadingView>) -> Seq<u64> {
    Seq::new(processes.len(), |i: int| processes[i].total_read_bytes)
}

/// The write counter of each process, in order.
pub open spec fn written_counters(processes: Seq<ProcReadingView>) -> Seq<u64> {
    Seq::new(processes.len(), |i: int| processes[i].total_written_bytes)
}

/// The receive counter of each interface, in order.
pub open spec fn received_counters(networks: Seq<NetReading>) -> Seq<u64> {
    Seq::new(networks.len(), |i: int| networks[i].total_received)
}

/// The transmit counter of each interface, in order.
pub open spec fn transmitted_counters(networks: Seq<NetReading>) -> Seq<u64> {
    Seq::new(networks.len(), |i: int| networks[i].total_transmitted)
}

/// Adding one counter to a capped sum gives the capped sum of one counter more.
proof fn lemma_sum_step(counters: Seq<u64>, i: int)
    requires
        0 <= i < counters.len(),
    ensures
        sum(counters.take(i + 1)) == sum(counters.take(i)) + counters[i] as nat,
{
    assert(counters.take(i + 1).drop_last() =~= counters.take(i));
}

/// Taking one counter out of a sequence takes it off the sum.
proof fn lemma_sum_remove(counters: Seq<u64>, k: int)
    requires
        0 <= k < counters.len(),
    ensures
        sum(counters) == sum(counters.remove(k)) + counters[k] as nat,
    decreases counters.len(),
{
    if k == counters.len() - 1 {
        assert(counters.remove(k) =~= counters.drop_last());
    } else {
        lemma_sum_remove(counters.drop_last(), k);
        assert(counters.drop_last().remove(k) =~= counters.remove(k).drop_last());
    }
}

/// The sum of one counter over a collection does not depend on the order:
/// two sequences that hold the same items equally often, in whatever order,
/// give the same sum of any counter read off their items.
pub proof fn lemma_sum_any_order<T>(first: Seq<T>, second: Seq<T>, counter: spec_fn(T) -> u64)
    requires
        first.to_multiset() == second.to_multiset(),
    ensures
        sum(first.map_values(counter)) == sum(second.map_values(counter)),
    decreases first.len(),
{
    broadcast use vstd::multiset::group_multiset_axioms;

    vstd::seq_lib::to_multiset_len(first);
    vstd::seq_lib::to_multiset_len(second);
    if first.len() > 0 {
        let x = first.last();
        let rest = first.drop_last();
        assert(first == rest.push(x));
        vstd::seq_lib::to_multiset_build(rest, x);
        vstd::seq_lib::to_multiset_contains(second, x);
        let k = choose|k: int| 0 <= k < second.len() && second[k] == x;
        let others = second.remove(k);
        vstd::seq_lib::to_multiset_remove(second, k);
        assert(rest.to_multiset() =~= others.to_multiset());
        lemma_sum_any_order(rest, others, counter);
        assert(first.map_values(counter).drop_last() =~= rest.map_values(counter));
        lemma_sum_remove(second.map_values(counter), k);
        assert(second.map_values(counter).remove(k) =~= others.map_values(counter));
    }
}

/// Bytes received and transmitted over all interfaces since they came up,
/// each total capped at the largest `u64`.
pub fn total_net_bytes(nets: &Vec<NetReading>) -> (totals: (u64, u64))
    ensures
        totals.0 == capped(sum(received_counters(nets@))),
        totals.1 == capped(sum(transmitted_counters(nets@))),
{
    let mut rx: u64 = 0;
    let mut tx: u64 = 0;
    let mut i: usize = 0;
    while i < nets.len()
        invariant
            i <= nets.len(),
            rx == capped(sum(received_counters(nets@).take(i as int))),
            tx == capped(sum(transmitted_counters(nets@).take(i as int))),
        decreases nets.len() - i,
    {
        proof {
            lemma_sum_step(received_counters(nets@), i as int);
            lemma_sum_step(transmitted_counters(nets@), i as int);
        }
        rx = rx.saturating_add(nets[i].total_received);
        tx = tx.saturating_add(nets[i].total_transmitted);
        i = i + 1;
    }
    assert(received_counters(nets@).take(i as int) =~= received_counters(nets@));
    assert(transmitted_counters(nets@).take(i as int) =~= transmitted_counters(nets@));
    (rx, tx)
}

/// Bytes read and written by all processes of a reading, each total capped
/// at the largest `u64`.
pub fn total_disk_bytes(sys: &SystemReading) -> (totals: (u64, u64))
    ensures
        totals.0 == capped(sum(read_counters(sys@.processes))),
        totals.1 == capped(sum(written_counters(sys@.processes))),
{
    let ghost processes = sys@.processes;
    let mut r: u64 = 0;
    let mut w: u64 = 0;
    let mut i: usize = 0;
    while i < sys.processes.len()
        invariant
            i <= sys.processes.len(),
            processes == sys@.processes,
            processes.len() == sys.processes.len(),
            r == capped(sum(read_counters(processes).take(i as int))),
            w == capped(sum(written_counters(processes).take(i as int))),
        decreases sys.processes.len() - i,
    {
        proof {
            lemma_sum_step(read_counters(processes), i as int);
            lemma_sum_step(written_counters(processes), i as int);
        }
        r = r.saturating_add(sys.processes[i].total_read_bytes);
        w = w.saturating_add(sys.processes[i].total_written_bytes);
        i = i + 1;
    }
    assert(read_counters(processes).take(i as int) =~= read_counters(processes));
    assert(written_counters(processes).take(i as int) =~= written_counters(processes));
    (r, w)
}

/// The counters a rate for `id` is taken from: those last stored, or `now`
/// itself where `id` has none.
pub open spec fn previous(cache: Map<i32, IoSnapshot>, id: i32, now: IoSnapshot) -> IoSnapshot {
    if cache.contains_key(id) {
        cache[id]
    } else {
        now
    }
}

/// Read and write rate of process `id` against the counters last stored.
pub open spec fn io_rates(cache: Map<i32, IoSnapshot>, id: i32, now: IoSnapshot, dt_ms: u64) -> (
    u64,
    u64,
) {
    let prev = previous(cache, id, now);
    (
        capped(rate_per_sec(prev.read as nat, now.read as nat, dt_ms as nat)),
        capped(rate_per_sec(prev.write as nat, now.write as nat, dt_ms as nat)),
    )
}

/// The cache without the entries of processes that are not among `live`.
pub open spec fn pruned(cache: Map<i32, IoSnapshot>, live: Seq<i32>) -> Map<i32, IoSnapshot> {
    cache.restrict(Set::new(|id: i32| live.contains(id)))
}

/// The cumulative counters last seen of each process, by process identifier.
/// An entry stays until it is pruned, also after its process has gone.
#[derive(Debug, Clone)]
pub struct IoCounterCache {
    last: HashMap<i32, IoSnapshot>,
}

impl View for IoCounterCache {
    type V = Map<i32, IoSnapshot>;

    closed spec fn view(&self) -> Map<i32, IoSnapshot> {
        self.last@
    }
}

impl IoCounterCache {
    /// A cache that has seen no process.
    pub fn new() -> (cache: Self)
        ensures
            cache@ == Map::<i32, IoSnapshot>::empty(),
    {
        IoCounterCache { last: HashMap::new() }
    }

    /// The counters last stored for `id`.
    pub fn get(&self, id: i32) -> (found: Option<IoSnapshot>)
        ensures
            found == if self@.contains_key(id) {
                Some(self@[id])
            } else {
                None
            },
    {
        broadcast use vstd::std_specs::hash::group_hash_axioms;

        match self.last.get(&id) {
            Some(snapshot) => Some(*snapshot),
            None => None,
        }
    }

    /// Number of processes with stored counters.
    pub fn len(&self) -> (n: usize)
        ensures
            n == self@.len(),
    {
        broadcast use vstd::std_specs::hash::group_hash_axioms;

        self.last.len()
    }

    /// Drops the counters of every process that is not among `live`, the
    /// identifiers of the processes that exist now.
    pub fn prune(&mut self, live: &[i32])
        ensures
            final(self)@ == pruned(old(self)@, live@),
    {
        broadcast use vstd::std_specs::hash::group_hash_axioms;

        let mut kept: HashMap<i32, IoSnapshot> = HashMap::new();
        let mut i: usize = 0;
        while i < live.len()
            invariant
                i <= live.len(),
                self.last@ == old(self).last@,
                kept@ == pruned(self.last@, live@.take(i as int)),
            decreases live.len() - i,
        {
            let id = live[i];
            assert(live@.take(i + 1)[i as int] == id);
            match self.last.get(&id) {
                Some(snapshot) => {
                    kept.insert(id, *snapshot);
                },
                None => {},
            }
            i = i + 1;
        }
        assert(live@.take(i as int) =~= live@);
        self.last = kept;
    }

    /// Takes the current counters of process `id`, returns its read and write
    /// rate in bytes per second since the counters last stored, and stores the
    /// current ones. A process seen for the first time has both rates zero.
    pub fn update(&mut self, id: i32, read_now: u64, write_now: u64, dt_ms: u64) -> (rates: (
        u64,
        u64,
    ))
        ensures
            rates == io_rates(old(self)@, id, IoSnapshot { read: read_now, write: write_now }, dt_ms),
            final(self)@ == old(self)@.insert(id, IoSnapshot { read: read_now, write: write_now }),
            !old(self)@.contains_key(id) ==> rates == (0u64, 0u64),
    {
        broadcast use vstd::std_specs::hash::group_hash_axioms;

        let now = IoSnapshot { read: read_now, write: write_now };
        let prev = match self.last.get(&id) {
            Some(snapshot) => *snapshot,
            None => now,
        };
        let read_bps = cap_rate(bytes_per_sec(prev.read, read_now, dt_ms));
        let write_bps = cap_rate(bytes_per_sec(prev.write, write_now, dt_ms));
        self.last.insert(id, now);
        (read_bps, write_bps)
    }
}

} // verus!
