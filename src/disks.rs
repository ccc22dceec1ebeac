//! Mounted disks, keyed by mount point.

use crate::fraction::{Fraction, share, share_of};
use vstd::prelude::*;

verus! {

#[verifier::external_type_specification]
#[verifier::external_body]
pub struct ExDisks(sysinfo::Disks);

#[verifier::external_type_specification]
#[verifier::external_body]
pub struct ExDisk(sysinfo::Disk);

/// Relies on sysinfo::Disks::refresh_list: re-enumerates the mounted disks.
#[verifier::external_body]
fn refresh_disk_list(disks: &mut sysinfo::Disks) {
    disks.refresh_list()
}

/// Relies on sysinfo::Disks::refresh: reloads the space figures of the known disks.
#[verifier::external_body]
fn refresh_disks(disks: &mut sysinfo::Disks) {
    disks.refresh()
}

/// Mount point, name, total and available space of each disk that a session
/// knows, in its listing order.
pub uninterp spec fn disks_of(d: sysinfo::Disks) -> Seq<(Seq<char>, Seq<char>, u64, u64)>;

pub open spec fn readings_view(v: Seq<DiskReading>) -> Seq<(Seq<char>, Seq<char>, u64, u64)> {
    v.map_values(|r: DiskReading| (r.mount_point@, r.name@, r.total, r.available))
}

/// Relies on sysinfo::Disks::list: the known disks, each turned into its
/// mount point, name, total space and available space.
#[verifier::external_body]
fn disk_readings(disks: &sysinfo::Disks) -> (r: Vec<DiskReading>)
    ensures
        readings_view(r@) == disks_of(*disks),
{
    disks
        .list()
        .iter()
        .map(|d| DiskReading {
            mount_point: d.mount_point().display().to_string(),
            name: d.name().to_string_lossy().to_string(),
            total: d.total_space(),
            available: d.available_space(),
        })
        .collect()
}

/// Raw figures of one disk, in bytes.
pub struct DiskReading {
    pub mount_point: String,
    pub name: String,
    pub total: u64,
    pub available: u64,
}

/// One disk as reported; `free` is the space available to unprivileged users.
pub struct DiskUsage {
    pub mount_point: String,
    pub name: String,
    pub total: u64,
    pub free: u64,
    pub used: u64,
    /// Used over total space; `None` when the total is zero.
    pub used_perc: Option<Fraction>,
}

/// `total - free`, or zero where more space is available than exists.
pub open spec fn used_space(total: u64, free: u64) -> u64 {
    if free <= total {
        (total - free) as u64
    } else {
        0
    }
}

/// The usage reported for a reading.
pub open spec fn usage_matches(u: DiskUsage, r: DiskReading) -> bool {
    &&& u.mount_point@ == r.mount_point@
    &&& u.name@ == r.name@
    &&& u.total == r.total
    &&& u.free == r.available
    &&& u.used == used_space(r.total, r.available)
    &&& u.used_perc == share(u.used as nat, u.total as nat)
}

/// The usage reported for a disk's (mount point, name, total, available).
pub open spec fn usage_of_entry(u: DiskUsage, e: (Seq<char>, Seq<char>, u64, u64)) -> bool {
    &&& u.mount_point@ == e.0
    &&& u.name@ == e.1
    &&& u.total == e.2
    &&& u.free == e.3
}

/// The figures of a usage entry agree with each other.
pub open spec fn usage_consistent(u: DiskUsage) -> bool {
    &&& u.used == used_space(u.total, u.free)
    &&& u.used_perc == share(u.used as nat, u.total as nat)
}

/// The usage entry of one disk.
pub fn disk_usage(r: &DiskReading) -> (u: DiskUsage)
    ensures
        usage_matches(u, *r),
{
    let used = r.total.saturating_sub(r.available);
    DiskUsage {
        mount_point: r.mount_point.clone(),
        name: r.name.clone(),
        total: r.total,
        free: r.available,
        used,
        used_perc: share_of(used, r.total),
    }
}

/// The usage entries of all disks, in the order of the readings.
pub fn disk_usages(readings: &Vec<DiskReading>) -> (r: Vec<DiskUsage>)
    ensures
        r@.len() == readings@.len(),
        forall|k: int| 0 <= k < r@.len() ==> usage_matches(#[trigger] r@[k], readings@[k]),
{
    let mut r: Vec<DiskUsage> = Vec::new();
    let mut i: usize = 0;
    while i < readings.len()
        invariant
            i <= readings@.len(),
            r@.len() == i,
            forall|k: int| 0 <= k < i ==> usage_matches(#[trigger] r@[k], readings@[k]),
        decreases readings@.len() - i,
    {
        r.push(disk_usage(&readings[i]));
        i = i + 1;
    }
    r
}

/// Re-enumerates the disks (removable media come and go), refreshes their
/// figures and reports each one.
pub fn get_disks(disks: &mut sysinfo::Disks) -> (r: Vec<DiskUsage>)
    ensures
        r@.len() == disks_of(*final(disks)).len(),
        forall|k: int| 0 <= k < r@.len() ==> usage_consistent(#[trigger] r@[k])
            && usage_of_entry(r@[k], disks_of(*final(disks))[k]),
{
    refresh_disk_list(disks);
    refresh_disks(disks);
    let readings = disk_readings(disks);
    let r = disk_usages(&readings);
    assert forall|k: int| 0 <= k < r@.len() implies usage_consistent(#[trigger] r@[k])
        && usage_of_entry(r@[k], disks_of(*disks)[k]) by {
        assert(usage_matches(r@[k], readings@[k]));
        assert(readings_view(readings@)[k] == disks_of(*disks)[k]);
    }
    r
}

/// Of every disk entry, used and free space add up to the total, and the used
/// share lies between none and all, or is absent when the total is zero.
pub proof fn lemma_usage_adds_up(u: DiskUsage)
    requires
        usage_consistent(u),
        u.free <= u.total,
    ensures
        u.used + u.free == u.total,
        u.total == 0 ==> u.used_perc is None,
        u.total > 0 ==> (u.used_perc matches Some(f) && f.well_formed() && f.at_most_one()),
{
}

} // verus!
