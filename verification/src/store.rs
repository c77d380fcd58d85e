//! The shared metrics store: the snapshot handle behind a single
//! readers-writer lock.
//!
//! The sampling loop is the sole writer; any number of readers may read
//! concurrently with one another, but never with the writer. A read
//! copies the snapshot while holding shared access, so it observes the
//! vector either wholly before or wholly after any refresh, never a
//! mixture.

use vstd::prelude::*;
use vstd::rwlock::RwLock;
use crate::metrics::MetricsStore;

verus! {

/// A metrics store shareable between the sampling loop and readers,
/// serialized by a readers-writer lock: many concurrent readers, at most
/// one writer, the writer excluding all readers.
pub struct SharedStore {
    lock: RwLock<MetricsStore, spec_fn(MetricsStore) -> bool>,
}

impl SharedStore {
    #[verifier::type_invariant]
    spec fn wf(&self) -> bool {
        forall|s: MetricsStore| self.lock.inv(s)
    }

    /// Puts a store behind the lock.
    pub fn new(store: MetricsStore) -> Self {
        let lock = RwLock::new(store, Ghost(|s: MetricsStore| true));
        SharedStore { lock }
    }

    /// Acquires exclusive access, re-reads the OS usage counters in
    /// place, and releases the lock. No reader runs while the snapshot
    /// is being replaced.
    pub fn refresh(&self) {
        proof {
            use_type_invariant(self);
        }
        let (mut store, handle) = self.lock.acquire_write();
        store.refresh();
        handle.release_write(store);
    }

    /// Acquires shared access, copies one usage value per core out of
    /// the snapshot in OS-reported core order, and releases the lock.
    /// Concurrent reads may overlap one another; a refresh in progress
    /// blocks the read until the new snapshot is fully in place.
    pub fn read_usage(&self) -> Vec<u64> {
        proof {
            use_type_invariant(self);
        }
        let handle = self.lock.acquire_read();
        let r = handle.borrow().read_usage();
        handle.release_read();
        r
    }

    /// Installs a given sample as the shared snapshot: exclusive
    /// access, wholesale replacement, no reader running meanwhile. This
    /// is the shared-store face of [`MetricsStore::apply_sample`], the
    /// seam where a sample comes from somewhere other than this
    /// machine's OS layer.
    pub fn publish_sample(&self, sample: Vec<u64>) {
        proof {
            use_type_invariant(self);
        }
        let (mut store, handle) = self.lock.acquire_write();
        store.apply_sample(sample);
        handle.release_write(store);
    }

    /// One sampling tick against the shared store: an exclusive refresh,
    /// then a shared read of the freshly installed snapshot, returned
    /// for publishing.
    pub fn tick(&self) -> Vec<u64> {
        self.refresh();
        self.read_usage()
    }
}

} // verus!
