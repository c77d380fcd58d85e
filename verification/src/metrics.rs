//! The metrics store: the current per-core CPU usage snapshot.
//!
//! The store owns the OS handle and an ordered vector of per-core usage
//! values, one whole-percent entry per core in OS-reported order. A
//! refresh re-reads the OS counters and replaces the vector wholesale; a
//! read hands out a copy of the vector and changes nothing. An empty
//! vector means the OS layer reported no cores yet: no data, not an
//! error.

use vstd::prelude::*;
use crate::os;

verus! {

/// A point-in-time capture of per-core CPU usage, together with the OS
/// handle it is sampled from.
pub struct MetricsStore {
    sys: sysinfo::System,
    usages: Vec<u64>,
}

impl MetricsStore {
    /// The snapshot a reader observes: per-core usage in whole percent,
    /// one entry per core, in OS-reported core order.
    pub closed spec fn view(&self) -> Seq<u64> {
        self.usages@
    }

    /// Creates the store and populates it with an initial full refresh,
    /// so the first read returns real data rather than a placeholder.
    pub fn new() -> Self {
        let mut sys = os::new_system();
        os::refresh_all(&mut sys);
        let usages = Self::sample(&sys);
        MetricsStore { sys, usages }
    }

    /// Extracts one usage value per core from the OS handle, in the
    /// OS-reported core order. When the handle reports no cores the
    /// sample is empty: no data yet, not an error.
    fn sample(sys: &sysinfo::System) -> Vec<u64> {
        let n = os::core_count(sys);
        let mut out: Vec<u64> = Vec::new();
        let mut i: usize = 0;
        while i < n
            invariant
                i <= n,
            decreases n - i,
        {
            match os::core_usage_at(sys, i) {
                Some(usage) => out.push(usage),
                None => {},
            }
            i += 1;
        }
        out
    }

    /// Installs one sample as the current snapshot, replacing the
    /// previous one wholesale. This is the whole effect of a refresh
    /// once the OS has reported the sample; it is also the seam where a
    /// test stands in for the OS layer.
    pub fn apply_sample(&mut self, sample: Vec<u64>)
        ensures
            final(self)@ == sample@,
    {
        self.usages = sample;
    }

    /// Re-reads the OS usage counters and replaces the snapshot with
    /// what they now show. The new values are the machine's to choose;
    /// every later read returns exactly the sample installed here.
    pub fn refresh(&mut self) {
        os::refresh_cpu_usage(&mut self.sys);
        let sample = Self::sample(&self.sys);
        self.apply_sample(sample);
    }

    /// Returns a copy of the current snapshot and changes nothing, so
    /// reads without an intervening refresh all return the same values.
    pub fn read_usage(&self) -> (r: Vec<u64>)
        ensures
            r@ == self@,
    {
        let mut out: Vec<u64> = Vec::new();
        let mut i: usize = 0;
        while i < self.usages.len()
            invariant
                i <= self.usages.len(),
                out@ =~= self.usages@.subrange(0, i as int),
            decreases self.usages.len() - i,
        {
            out.push(self.usages[i]);
            i += 1;
        }
        proof {
            assert(out@ =~= self@);
        }
        out
    }

    /// One sampling tick's work on the store: refresh, then read. The
    /// vector returned for publishing is exactly the post-refresh
    /// snapshot.
    pub fn tick(&mut self) -> (r: Vec<u64>)
        ensures
            r@ == final(self)@,
    {
        self.refresh();
        self.read_usage()
    }
}

} // verus!
