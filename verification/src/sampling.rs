//! The sampling loop's model and the guarantees it gives the display
//! surface.
//!
//! A run of the loop seeds the display with one read of the start-up
//! snapshot, then publishes the sample of each tick in order, each
//! publish replacing the previous vector wholesale. The driver that
//! paces the ticks and pushes each vector to the display owns the timer
//! and the display surface; everything it publishes is described here.

use vstd::prelude::*;

verus! {

/// The vectors a run of the sampling loop publishes, in order: the
/// synchronous seed read at mount, then one vector per tick, each being
/// exactly the sample its refresh installed.
pub open spec fn published_run(initial: Seq<u64>, samples: Seq<Seq<u64>>) -> Seq<Seq<u64>> {
    seq![initial] + samples
}

/// Reading is idempotent: a read returns exactly the store's snapshot,
/// so any two reads with no refresh between them return equal vectors.
pub proof fn lemma_read_idempotent(snapshot: Seq<u64>, first: Seq<u64>, second: Seq<u64>)
    requires
        first == snapshot,
        second == snapshot,
    ensures
        first == second,
{
}

/// Every published vector has one entry per core: as long as the OS
/// reports the same number of cores in every sample as it did at
/// start-up, every vector a run publishes has exactly that length.
pub proof fn lemma_published_length_stable(initial: Seq<u64>, samples: Seq<Seq<u64>>, cores: nat)
    requires
        initial.len() == cores,
        forall|i: int| 0 <= i < samples.len() ==> (#[trigger] samples[i]).len() == cores,
    ensures
        forall|j: int|
            0 <= j < published_run(initial, samples).len() ==> (#[trigger] published_run(
                initial,
                samples,
            )[j]).len() == cores,
{
    assert forall|j: int|
        0 <= j < published_run(initial, samples).len() implies (#[trigger] published_run(
        initial,
        samples,
    )[j]).len() == cores by {
        if j == 0 {
            assert(published_run(initial, samples)[0] == initial);
        } else {
            assert(published_run(initial, samples)[j] == samples[j - 1]);
        }
    }
}

} // verus!
