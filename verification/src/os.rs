//! The operating-system layer: a `sysinfo::System` handle queried for
//! per-core CPU usage.
//!
//! Everything the OS reports depends on the machine and the moment, so
//! none of these wrappers pins its result to its arguments; the verified
//! code around them handles every value they could return.

use vstd::prelude::*;

verus! {

#[verifier::external_type_specification]
#[verifier::external_body]
pub struct ExSystem(sysinfo::System);

/// Relies on `sysinfo::System::new`: a fresh handle with nothing loaded.
#[verifier::external_body]
pub(crate) fn new_system() -> sysinfo::System {
    sysinfo::System::new()
}

/// Relies on `sysinfo::System::refresh_all`: loads every stat the handle
/// tracks, the CPU list and its usage counters among them.
#[verifier::external_body]
pub(crate) fn refresh_all(sys: &mut sysinfo::System) {
    sys.refresh_all();
}

/// Relies on `sysinfo::System::refresh_cpu_usage`: re-reads the per-core
/// usage counters in place.
#[verifier::external_body]
pub(crate) fn refresh_cpu_usage(sys: &mut sysinfo::System) {
    sys.refresh_cpu_usage();
}

/// Relies on `sysinfo::System::cpus`: the number of cores the handle
/// currently reports, zero when none were enumerated yet.
#[verifier::external_body]
pub(crate) fn core_count(sys: &sysinfo::System) -> usize {
    sys.cpus().len()
}

/// Relies on `sysinfo::System::cpus` and `sysinfo::Cpu::cpu_usage`: the
/// usage percentage of core `i` in the OS-reported order, converted to a
/// whole number of percent; `None` past the end of the core list.
#[verifier::external_body]
pub(crate) fn core_usage_at(sys: &sysinfo::System, i: usize) -> Option<u64> {
    match sys.cpus().get(i) {
        Some(cpu) => Some(cpu.cpu_usage() as u64),
        None => None,
    }
}

} // verus!
