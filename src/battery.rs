//! Power-supply devices: per-device charge records and the weighted state of
//! charge over all of them.
//!
//! Each device is described by the text of its attribute files, or by no text
//! where a file could not be read. A device that has both a `capacity` and a
//! `status` file is a battery and gets a record. Every device, battery or
//! not, adds to the aggregate: its stored and full energy come from
//! `charge_now`, `charge_full` and `voltage_now` where all three exist, else
//! from `energy_now` and `energy_full`. Energies are kept in units of one
//! millionth of a millionth of what an energy file counts, so that the
//! charge-based product `charge * voltage / 10^12` stays an integer.

use crate::decimal::{attribute_rounded, parse_attribute_rounded, without_newlines, trimmed_len};
use crate::fraction::{Wide, WideFraction};
use vstd::prelude::*;

verus! {

/// How many of the accumulator's units one unit of an energy file holds.
pub const ENERGY_SCALE: u128 = 1_000_000_000_000;

/// The text of one device's attribute files; `None` where a file was absent.
pub struct PowerSupplyFiles {
    pub name: String,
    pub capacity: Option<Vec<u8>>,
    pub status: Option<Vec<u8>>,
    pub charge_full: Option<Vec<u8>>,
    pub charge_now: Option<Vec<u8>>,
    pub voltage_now: Option<Vec<u8>>,
    pub energy_full: Option<Vec<u8>>,
    pub energy_now: Option<Vec<u8>>,
}

/// One battery as reported: its capacity in percent and its status text.
pub struct BatteryRecord {
    pub name: String,
    pub capacity: u64,
    pub status: Vec<u8>,
}

/// What a read of all devices yields.
pub struct BatteryReport {
    pub batteries: Vec<BatteryRecord>,
    /// Stored over full energy of all devices; `None` when the full energy
    /// sums to zero.
    pub total_avg: Option<WideFraction>,
    /// Set on the first read that met a device without energy data.
    pub warn_missing_energy: bool,
}

#[derive(Clone, Copy, Debug, PartialEq, Eq, Structural)]
pub enum BatteryError {
    /// An attribute file that is read holds no decimal number.
    MalformedNumber,
}

/// Remembers whether the missing-energy warning was already given.
pub struct BatteryReader {
    pub warned: bool,
}

impl BatteryReader {
    pub fn new() -> (r: BatteryReader)
        ensures
            !r.warned,
    {
        BatteryReader { warned: false }
    }
}

pub open spec fn file_number(f: Option<Vec<u8>>) -> Option<u64> {
    match f {
        Some(t) => attribute_rounded(t@),
        None => None,
    }
}

pub open spec fn file_value(f: Option<Vec<u8>>) -> nat {
    match file_number(f) {
        Some(n) => n as nat,
        None => 0,
    }
}

/// The capacity in percent, rounded to the nearest integer.
pub open spec fn file_capacity(f: Option<Vec<u8>>) -> Option<u64> {
    match f {
        Some(t) => attribute_rounded(t@),
        None => None,
    }
}

pub open spec fn is_battery(d: PowerSupplyFiles) -> bool {
    d.capacity is Some && d.status is Some
}

pub open spec fn has_charge_files(d: PowerSupplyFiles) -> bool {
    d.charge_full is Some && d.charge_now is Some && d.voltage_now is Some
}

pub open spec fn has_energy_files(d: PowerSupplyFiles) -> bool {
    d.energy_full is Some && d.energy_now is Some
}

/// A device with neither scheme's files.
pub open spec fn lacks_energy_data(d: PowerSupplyFiles) -> bool {
    !has_charge_files(d) && !has_energy_files(d)
}

/// Every energy file that the reader parses for `d` holds a number.
pub open spec fn energy_readable(d: PowerSupplyFiles) -> bool {
    &&& has_charge_files(d) ==> {
        &&& file_number(d.charge_now) is Some
        &&& file_number(d.charge_full) is Some
        &&& file_number(d.voltage_now) is Some
    }
    &&& (!has_charge_files(d) && has_energy_files(d)) ==> {
        &&& file_number(d.energy_now) is Some
        &&& file_number(d.energy_full) is Some
    }
}

/// Every file that the reader parses for `d` holds a number.
pub open spec fn readable(d: PowerSupplyFiles) -> bool {
    &&& is_battery(d) ==> file_capacity(d.capacity) is Some
    &&& energy_readable(d)
}

/// Stored energy of one device, in accumulator units.
pub open spec fn stored(d: PowerSupplyFiles) -> nat {
    if has_charge_files(d) {
        file_value(d.charge_now) * file_value(d.voltage_now)
    } else if has_energy_files(d) {
        file_value(d.energy_now) * (ENERGY_SCALE as nat)
    } else {
        0
    }
}

/// Full energy of one device, in accumulator units.
pub open spec fn full(d: PowerSupplyFiles) -> nat {
    if has_charge_files(d) {
        file_value(d.charge_full) * file_value(d.voltage_now)
    } else if has_energy_files(d) {
        file_value(d.energy_full) * (ENERGY_SCALE as nat)
    } else {
        0
    }
}

pub open spec fn total_stored(ds: Seq<PowerSupplyFiles>) -> nat
    decreases ds.len(),
{
    if ds.len() == 0 {
        0
    } else {
        total_stored(ds.drop_last()) + stored(ds.last())
    }
}

pub open spec fn total_full(ds: Seq<PowerSupplyFiles>) -> nat
    decreases ds.len(),
{
    if ds.len() == 0 {
        0
    } else {
        total_full(ds.drop_last()) + full(ds.last())
    }
}

pub open spec fn all_readable(ds: Seq<PowerSupplyFiles>) -> bool {
    forall|i: int| 0 <= i < ds.len() ==> readable(#[trigger] ds[i])
}

pub open spec fn any_lacks_energy_data(ds: Seq<PowerSupplyFiles>) -> bool {
    exists|i: int| 0 <= i < ds.len() && lacks_energy_data(#[trigger] ds[i])
}

/// Name, capacity and trimmed status of each battery, in device order.
pub open spec fn battery_entries(ds: Seq<PowerSupplyFiles>) -> Seq<(Seq<char>, u64, Seq<u8>)>
    decreases ds.len(),
{
    if ds.len() == 0 {
        Seq::empty()
    } else {
        let d = ds.last();
        let before = battery_entries(ds.drop_last());
        if is_battery(d) {
            before.push((d.name@, file_capacity(d.capacity)->0, without_newlines(d.status->0@)))
        } else {
            before
        }
    }
}

pub open spec fn entries_of(v: Seq<BatteryRecord>) -> Seq<(Seq<char>, u64, Seq<u8>)> {
    v.map_values(|r: BatteryRecord| (r.name@, r.capacity, r.status@))
}

/// A device that exposes the files of one of the two energy schemes.
pub open spec fn has_energy_data(d: PowerSupplyFiles) -> bool {
    has_charge_files(d) || has_energy_files(d)
}

/// Where no device exposes energy data, the full energy sums to zero, so a
/// read reports no share of charge rather than a share of zero.
pub proof fn lemma_no_energy_data_no_share(ds: Seq<PowerSupplyFiles>)
    requires
        forall|i: int| 0 <= i < ds.len() ==> !has_energy_data(#[trigger] ds[i]),
    ensures
        total_full(ds) == 0,
    decreases ds.len(),
{
    if ds.len() > 0 {
        let rest = ds.drop_last();
        assert forall|i: int| 0 <= i < rest.len() implies !has_energy_data(#[trigger] rest[i]) by {
            assert(rest[i] == ds[i]);
        }
        lemma_no_energy_data_no_share(rest);
        assert(!has_energy_data(ds[ds.len() - 1]));
    }
}

/// A copy of `b` without its trailing newlines.
fn trimmed_copy(b: &Vec<u8>) -> (r: Vec<u8>)
    ensures
        r@ == without_newlines(b@),
{
    let n = trimmed_len(b.as_slice());
    let mut r: Vec<u8> = Vec::new();
    let mut i: usize = 0;
    while i < n
        invariant
            n <= b@.len(),
            i <= n,
            r@ == b@.subrange(0, i as int),
        decreases n - i,
    {
        r.push(b[i]);
        i = i + 1;
        assert(r@ =~= b@.subrange(0, i as int));
    }
    r
}

/// Reads an attribute file that is known to exist.
fn number_in(f: &Option<Vec<u8>>) -> (r: Option<u64>)
    ensures
        r == file_number(*f),
{
    match f {
        Some(t) => parse_attribute_rounded(t.as_slice()),
        None => None,
    }
}

/// Stored and full energy of one device, or `None` where a file it reads
/// holds no number.
fn energy_of(d: &PowerSupplyFiles) -> (r: Option<(u128, u128)>)
    ensures
        r is Some <==> energy_readable(*d),
        r matches Some(e) ==> e.0 as nat == stored(*d) && e.1 as nat == full(*d),
{
    if d.charge_full.is_some() && d.charge_now.is_some() && d.voltage_now.is_some() {
        let now = number_in(&d.charge_now);
        let cap = number_in(&d.charge_full);
        let volt = number_in(&d.voltage_now);
        match (now, cap, volt) {
            (Some(n), Some(c), Some(v)) => {
                assert(n as nat * v as nat <= u128::MAX) by (nonlinear_arith)
                    requires n <= u64::MAX, v <= u64::MAX;
                assert(c as nat * v as nat <= u128::MAX) by (nonlinear_arith)
                    requires c <= u64::MAX, v <= u64::MAX;
                Some((n as u128 * v as u128, c as u128 * v as u128))
            },
            _ => None,
        }
    } else if d.energy_full.is_some() && d.energy_now.is_some() {
        let now = number_in(&d.energy_now);
        let cap = number_in(&d.energy_full);
        match (now, cap) {
            (Some(n), Some(c)) => {
                assert(n as nat * 1_000_000_000_000 <= u128::MAX) by (nonlinear_arith)
                    requires n <= u64::MAX;
                assert(c as nat * 1_000_000_000_000 <= u128::MAX) by (nonlinear_arith)
                    requires c <= u64::MAX;
                Some((n as u128 * ENERGY_SCALE, c as u128 * ENERGY_SCALE))
            },
            _ => None,
        }
    } else {
        Some((0, 0))
    }
}

/// Reads every power-supply device: the record of each battery, and the
/// share of stored energy over full energy across all devices.
///
/// Fails where a file that is read holds no number. Numbers with a fraction
/// are rounded to the nearest integer. A total of zero full
/// energy gives no share at all, not a share of zero. The warning flag of the
/// report is raised once per reader, on the first read that meets a device
/// without energy data.
pub fn get_battery_capacity(reader: &mut BatteryReader, devices: &Vec<PowerSupplyFiles>) -> (r: Result<BatteryReport, BatteryError>)
    ensures
        r matches Err(BatteryError::MalformedNumber) <==> !all_readable(devices@),
        r is Err ==> final(reader).warned == old(reader).warned,
        r matches Ok(rep) ==> {
            &&& entries_of(rep.batteries@) == battery_entries(devices@)
            &&& rep.total_avg is None <==> total_full(devices@) == 0
            &&& rep.total_avg matches Some(f) ==> f.num.value() == total_stored(devices@)
                && f.den.value() == total_full(devices@)
            &&& rep.warn_missing_energy == (any_lacks_energy_data(devices@) && !old(reader).warned)
            &&& final(reader).warned == (old(reader).warned || any_lacks_energy_data(devices@))
        },
{
    let ghost ds = devices@;
    let mut batteries: Vec<BatteryRecord> = Vec::new();
    let mut current = Wide::zero();
    let mut total = Wide::zero();
    let mut missing = false;
    let mut i: usize = 0;
    while i < devices.len()
        invariant
            ds == devices@,
            i <= ds.len(),
            all_readable(ds.subrange(0, i as int)),
            current.value() == total_stored(ds.subrange(0, i as int)),
            total.value() == total_full(ds.subrange(0, i as int)),
            current.hi <= i,
            total.hi <= i,
            missing == any_lacks_energy_data(ds.subrange(0, i as int)),
            entries_of(batteries@) == battery_entries(ds.subrange(0, i as int)),
        decreases ds.len() - i,
    {
        let ghost pre = ds.subrange(0, i as int);
        let ghost next = ds.subrange(0, i + 1);
        assert(next.drop_last() =~= pre);
        assert(next.last() == ds[i as int]);
        let d = &devices[i];
        if d.capacity.is_some() && d.status.is_some() {
            let capacity = match &d.capacity {
                Some(t) => parse_attribute_rounded(t.as_slice()),
                None => None,
            };
            let capacity = match capacity {
                Some(c) => c,
                None => {
                    assert(!readable(ds[i as int]));
                    return Err(BatteryError::MalformedNumber);
                },
            };
            let status = match &d.status {
                Some(t) => trimmed_copy(t),
                None => Vec::new(),
            };
            let record = BatteryRecord { name: d.name.clone(), capacity, status };
            batteries.push(record);
            assert(entries_of(batteries@) =~= entries_of(batteries@.drop_last()).push(
                (record.name@, record.capacity, record.status@),
            ));
        }
        let energy = match energy_of(d) {
            Some(e) => e,
            None => {
                assert(!readable(ds[i as int]));
                return Err(BatteryError::MalformedNumber);
            },
        };
        current = current.add(energy.0);
        total = total.add(energy.1);
        if d.charge_full.is_none() || d.charge_now.is_none() || d.voltage_now.is_none() {
            if d.energy_full.is_none() || d.energy_now.is_none() {
                missing = true;
            }
        }
        proof {
            assert forall|k: int| 0 <= k < next.len() implies readable(#[trigger] next[k]) by {
                if k < i {
                    assert(next[k] == pre[k]);
                }
            }
            if missing {
                if !any_lacks_energy_data(pre) {
                    assert(lacks_energy_data(next[i as int]));
                } else {
                    let k = choose|k: int| 0 <= k < pre.len() && lacks_energy_data(#[trigger] pre[k]);
                    assert(next[k] == pre[k]);
                }
            } else {
                assert forall|k: int| 0 <= k < next.len() implies !lacks_energy_data(#[trigger] next[k]) by {
                    if k < i {
                        assert(next[k] == pre[k]);
                    }
                }
            }
        }
        i = i + 1;
    }
    assert(ds.subrange(0, ds.len() as int) =~= ds);
    let warn = missing && !reader.warned;
    if missing {
        reader.warned = true;
    }
    let total_avg = if total.hi == 0 && total.lo == 0 {
        None
    } else {
        Some(WideFraction { num: current, den: total })
    };
    Ok(BatteryReport { batteries, total_avg, warn_missing_energy: warn })
}

} // verus!
