//! Memory counters of the system session.

use crate::fraction::{Fraction, share, share_of};
use vstd::prelude::*;

verus! {

#[verifier::external_type_specification]
#[verifier::external_body]
pub struct ExSystem(sysinfo::System);

/// Relies on sysinfo::System::refresh_memory: reloads the memory and swap counters.
#[verifier::external_body]
fn refresh_memory(system: &mut sysinfo::System) {
    system.refresh_memory()
}

/// The total memory counter that a session last loaded, in bytes.
pub uninterp spec fn total_memory_of(s: sysinfo::System) -> u64;

/// Relies on sysinfo::System::total_memory: returns the stored counter, which only a
/// refresh changes: installed memory in bytes.
#[verifier::external_body]
fn total_memory(system: &sysinfo::System) -> (r: u64)
    ensures
        r == total_memory_of(*system),
{
    system.total_memory()
}

/// The free memory counter that a session last loaded, in bytes.
pub uninterp spec fn free_memory_of(s: sysinfo::System) -> u64;

/// Relies on sysinfo::System::free_memory: returns the stored counter, which only a
/// refresh changes: unused memory in bytes.
#[verifier::external_body]
fn free_memory(system: &sysinfo::System) -> (r: u64)
    ensures
        r == free_memory_of(*system),
{
    system.free_memory()
}

/// The available memory counter that a session last loaded, in bytes.
pub uninterp spec fn available_memory_of(s: sysinfo::System) -> u64;

/// Relies on sysinfo::System::available_memory: returns the stored counter, which only a
/// refresh changes: memory that can be handed out, in bytes.
#[verifier::external_body]
fn available_memory(system: &sysinfo::System) -> (r: u64)
    ensures
        r == available_memory_of(*system),
{
    system.available_memory()
}

/// The total swap counter that a session last loaded, in bytes.
pub uninterp spec fn total_swap_of(s: sysinfo::System) -> u64;

/// Relies on sysinfo::System::total_swap: returns the stored counter, which only a
/// refresh changes: swap size in bytes.
#[verifier::external_body]
fn total_swap(system: &sysinfo::System) -> (r: u64)
    ensures
        r == total_swap_of(*system),
{
    system.total_swap()
}

/// The free swap counter that a session last loaded, in bytes.
pub uninterp spec fn free_swap_of(s: sysinfo::System) -> u64;

/// Relies on sysinfo::System::free_swap: returns the stored counter, which only a
/// refresh changes: unused swap in bytes.
#[verifier::external_body]
fn free_swap(system: &sysinfo::System) -> (r: u64)
    ensures
        r == free_swap_of(*system),
{
    system.free_swap()
}

/// Memory and swap figures, in bytes.
pub struct MemorySnapshot {
    pub total_mem: u64,
    pub free_mem: u64,
    pub total_swap: u64,
    pub free_swap: u64,
    pub available_mem: u64,
    /// Total less available memory.
    pub used_mem: u64,
    /// Used over total memory; `None` when the total is zero.
    pub used_mem_perc: Option<Fraction>,
}

/// `total - available`, or zero where a counter claims more available than
/// installed memory.
pub open spec fn used_of(total: u64, available: u64) -> u64 {
    if available <= total {
        (total - available) as u64
    } else {
        0
    }
}

/// The figures of a snapshot are consistent with each other.
pub open spec fn consistent(s: MemorySnapshot) -> bool {
    &&& s.used_mem == used_of(s.total_mem, s.available_mem)
    &&& s.used_mem_perc == share(s.used_mem as nat, s.total_mem as nat)
}

/// Builds a snapshot from raw counters: used memory is total less available
/// memory, never total less free memory.
pub fn memory_snapshot(total: u64, free: u64, available: u64, swap_total: u64, swap_free: u64) -> (r: MemorySnapshot)
    ensures
        r.total_mem == total,
        r.free_mem == free,
        r.available_mem == available,
        r.total_swap == swap_total,
        r.free_swap == swap_free,
        consistent(r),
{
    let used = total.saturating_sub(available);
    MemorySnapshot {
        total_mem: total,
        free_mem: free,
        total_swap: swap_total,
        free_swap: swap_free,
        available_mem: available,
        used_mem: used,
        used_mem_perc: share_of(used, total),
    }
}

/// Refreshes the memory counters of `system`, and only those, and reads them.
pub fn get_ram(system: &mut sysinfo::System) -> (r: MemorySnapshot)
    ensures
        r.total_mem == total_memory_of(*final(system)),
        r.free_mem == free_memory_of(*final(system)),
        r.available_mem == available_memory_of(*final(system)),
        r.total_swap == total_swap_of(*final(system)),
        r.free_swap == free_swap_of(*final(system)),
        consistent(r),
{
    refresh_memory(system);
    let total = total_memory(system);
    let available = available_memory(system);
    memory_snapshot(total, free_memory(system), available, total_swap(system), free_swap(system))
}

/// Used memory is exactly total less available memory, whatever free memory is.
pub proof fn lemma_used_is_total_less_available(s: MemorySnapshot)
    requires
        consistent(s),
        s.available_mem <= s.total_mem,
    ensures
        s.used_mem == s.total_mem - s.available_mem,
{
}

} // verus!
