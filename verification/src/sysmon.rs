//! The monitor's read-only queries of the machine: memory and disks through
//! the `sysinfo` crate. Every value read here is machine state — it depends
//! on the moment and the host — so the trusted items promise nothing of the
//! values; what the library does with them is verified for every outcome.

use vstd::prelude::*;

use crate::poller::Sample;

verus! {

#[verifier::external_type_specification]
#[verifier::external_body]
pub struct ExSystem(sysinfo::System);

/// Relies on sysinfo's `System::new_all`: a `System` with everything loaded.
/// Machine state: nothing is promised of it.
pub assume_specification[ sysinfo::System::new_all ]() -> sysinfo::System;

/// Relies on sysinfo's `System::refresh_all`: re-reads all loaded
/// information. Machine state: nothing is promised of it.
pub assume_specification[ sysinfo::System::refresh_all ](s: &mut sysinfo::System);

/// Relies on sysinfo's `System::total_memory`: the RAM size in bytes as last
/// refreshed. Machine state: nothing is promised of the value.
pub assume_specification[ sysinfo::System::total_memory ](s: &sysinfo::System) -> u64;

/// Relies on sysinfo's `System::used_memory`: the used RAM in bytes as last
/// refreshed. Machine state: nothing is promised of the value.
pub assume_specification[ sysinfo::System::used_memory ](s: &sysinfo::System) -> u64;

/// One read of the machine's memory state: total and used bytes, freshly
/// refreshed. The metric read is assumed always to succeed; no value is
/// promised.
pub fn memory_snapshot() -> (r: (u64, u64)) {
    let mut sys = sysinfo::System::new_all();
    sys.refresh_all();
    (sys.total_memory(), sys.used_memory())
}

/// The system summary the monitor exposes: the platform name it is handed —
/// naming the platform is the caller's, not a machine query — with the total
/// and used memory of one snapshot.
pub fn system_info(platform: String) -> (r: (String, u64, u64))
    ensures
        r.0@ == platform@,
{
    let snap = memory_snapshot();
    (platform, snap.0, snap.1)
}

/// One pass of the memory poller: the used-memory reading becomes the sample
/// published to the UI — the emitted value is exactly the reading, no
/// coalescing.
pub fn memory_sample() -> (s: Sample) {
    let snap = memory_snapshot();
    Sample { value: snap.1 }
}

/// Relies on sysinfo's `Disks::new_with_refreshed_list` and the `Disk`
/// accessors `mount_point`, `name`, `total_space` and `available_space`: one
/// tuple per listed disk, each field converted to a plain value. Machine
/// state: nothing is promised of the list.
#[verifier::external_body]
fn disks_snapshot() -> (r: Vec<(String, String, u64, u64)>) {
    sysinfo::Disks::new_with_refreshed_list().list().iter().map(
        |disk|
            (
                disk.mount_point().to_string_lossy().into_owned(),
                disk.name().to_string_lossy().into_owned(),
                disk.total_space(),
                disk.available_space(),
            ),
    ).collect()
}

/// The per-disk summary the monitor exposes: mount point, name, total and
/// available bytes for each disk of one snapshot.
pub fn get_disks_info() -> (r: Vec<(String, String, u64, u64)>) {
    disks_snapshot()
}

} // verus!
