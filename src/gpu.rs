//! Discrete-GPU telemetry through the vendor management library.
//!
//! The library session is opened afresh for every poll and dropped after it.
//! Each metric family is complete or absent: where the query of one device
//! fails, the family reports no device at all, so that indices always line up
//! across families.

use vstd::prelude::*;

verus! {

#[verifier::external_type_specification]
#[verifier::external_body]
pub struct ExNvml(nvml_wrapper::Nvml);

#[verifier::external_type_specification]
#[verifier::external_body]
pub struct ExDevice<'nvml>(nvml_wrapper::Device<'nvml>);

#[verifier::external_type_specification]
#[verifier::external_body]
pub struct ExNvmlError(nvml_wrapper::error::NvmlError);

/// Relies on nvml_wrapper::Nvml::init: loads the vendor library and opens a session.
#[verifier::external_body]
fn nvml_init() -> Result<nvml_wrapper::Nvml, nvml_wrapper::error::NvmlError> {
    nvml_wrapper::Nvml::init()
}

/// Relies on nvml_wrapper::Nvml::device_count: the number of devices the session sees.
#[verifier::external_body]
fn device_count(nvml: &nvml_wrapper::Nvml) -> Result<u32, nvml_wrapper::error::NvmlError> {
    nvml.device_count()
}

/// Relies on nvml_wrapper::Nvml::device_by_index: a handle on the device at `index`.
#[verifier::external_body]
fn device_by_index<'a>(
    nvml: &'a nvml_wrapper::Nvml,
    index: u32,
) -> Result<nvml_wrapper::Device<'a>, nvml_wrapper::error::NvmlError> {
    nvml.device_by_index(index)
}

/// Relies on nvml_wrapper::Device::utilization_rates: the GPU's busy percentage.
#[verifier::external_body]
fn utilization(device: &nvml_wrapper::Device) -> Result<u32, nvml_wrapper::error::NvmlError> {
    device.utilization_rates().map(|u| u.gpu)
}

/// Relies on nvml_wrapper::Device::memory_info: used and total video memory, in bytes.
#[verifier::external_body]
fn memory_info(device: &nvml_wrapper::Device) -> Result<(u64, u64), nvml_wrapper::error::NvmlError> {
    device.memory_info().map(|m| (m.used, m.total))
}

/// Relies on nvml_wrapper::Device::clock_info: the current clock of a domain, in MHz.
#[verifier::external_body]
fn clock_info(device: &nvml_wrapper::Device, domain: ClockDomain) -> Result<u32, nvml_wrapper::error::NvmlError> {
    match domain {
        ClockDomain::Graphics => device.clock_info(nvml_wrapper::enum_wrappers::device::Clock::Graphics),
        ClockDomain::Memory => device.clock_info(nvml_wrapper::enum_wrappers::device::Clock::Memory),
    }
}

/// Relies on nvml_wrapper::Device::max_clock_info: the highest clock of a domain, in MHz.
#[verifier::external_body]
fn max_clock_info(device: &nvml_wrapper::Device, domain: ClockDomain) -> Result<u32, nvml_wrapper::error::NvmlError> {
    match domain {
        ClockDomain::Graphics => device.max_clock_info(nvml_wrapper::enum_wrappers::device::Clock::Graphics),
        ClockDomain::Memory => device.max_clock_info(nvml_wrapper::enum_wrappers::device::Clock::Memory),
    }
}

/// Relies on nvml_wrapper::Device::temperature: the GPU die temperature, in °C.
#[verifier::external_body]
fn gpu_temperature(device: &nvml_wrapper::Device) -> Result<u32, nvml_wrapper::error::NvmlError> {
    device.temperature(nvml_wrapper::enum_wrappers::device::TemperatureSensor::Gpu)
}

#[derive(Clone, Copy, Debug, PartialEq, Eq, Structural)]
pub enum ClockDomain {
    Graphics,
    Memory,
}

/// Why the vendor library gave no data.
#[derive(Debug)]
pub enum GpuUnavailable {
    /// The library could not be loaded or opened.
    Init(nvml_wrapper::error::NvmlError),
    /// The device count could not be read.
    Count(nvml_wrapper::error::NvmlError),
    /// The library sees no device.
    NoDevices,
    /// A device could not be opened or read.
    DeviceFailed,
}

/// The metric families, in the order in which they are reported.
#[derive(Clone, Copy, Debug, PartialEq, Eq, Structural)]
pub enum GpuMetric {
    Load,
    VramCurrent,
    VramMax,
    FreqGraphicsCurrent,
    FreqGraphicsMax,
    FreqMemoryCurrent,
    FreqMemoryMax,
}

/// Number of metric families.
pub const METRIC_COUNT: usize = 7;

impl GpuMetric {
    pub open spec fn rank(self) -> nat {
        match self {
            GpuMetric::Load => 0,
            GpuMetric::VramCurrent => 1,
            GpuMetric::VramMax => 2,
            GpuMetric::FreqGraphicsCurrent => 3,
            GpuMetric::FreqGraphicsMax => 4,
            GpuMetric::FreqMemoryCurrent => 5,
            GpuMetric::FreqMemoryMax => 6,
        }
    }

    /// The family at position `i` of the reporting order.
    pub fn at(i: usize) -> (m: GpuMetric)
        requires
            i < METRIC_COUNT,
        ensures
            m.rank() == i,
    {
        if i == 0 {
            GpuMetric::Load
        } else if i == 1 {
            GpuMetric::VramCurrent
        } else if i == 2 {
            GpuMetric::VramMax
        } else if i == 3 {
            GpuMetric::FreqGraphicsCurrent
        } else if i == 4 {
            GpuMetric::FreqGraphicsMax
        } else if i == 5 {
            GpuMetric::FreqMemoryCurrent
        } else {
            GpuMetric::FreqMemoryMax
        }
    }

    /// The key of device `i` in this family is this prefix followed by `i`.
    pub fn key_prefix(&self) -> (r: &'static str)
        ensures
            *self == GpuMetric::Load ==> r@ == "VENDOR_GPU_LOAD_"@,
            *self == GpuMetric::VramCurrent ==> r@ == "VENDOR_GPU_VRAM_CURRENT_"@,
            *self == GpuMetric::VramMax ==> r@ == "VENDOR_GPU_VRAM_MAX_"@,
            *self == GpuMetric::FreqGraphicsCurrent ==> r@ == "VENDOR_GPU_FREQ_GRAPHICS_CURRENT_"@,
            *self == GpuMetric::FreqGraphicsMax ==> r@ == "VENDOR_GPU_FREQ_GRAPHICS_MAX_"@,
            *self == GpuMetric::FreqMemoryCurrent ==> r@ == "VENDOR_GPU_FREQ_MEMORY_CURRENT_"@,
            *self == GpuMetric::FreqMemoryMax ==> r@ == "VENDOR_GPU_FREQ_MEMORY_MAX_"@,
    {
        match self {
            GpuMetric::Load => "VENDOR_GPU_LOAD_",
            GpuMetric::VramCurrent => "VENDOR_GPU_VRAM_CURRENT_",
            GpuMetric::VramMax => "VENDOR_GPU_VRAM_MAX_",
            GpuMetric::FreqGraphicsCurrent => "VENDOR_GPU_FREQ_GRAPHICS_CURRENT_",
            GpuMetric::FreqGraphicsMax => "VENDOR_GPU_FREQ_GRAPHICS_MAX_",
            GpuMetric::FreqMemoryCurrent => "VENDOR_GPU_FREQ_MEMORY_CURRENT_",
            GpuMetric::FreqMemoryMax => "VENDOR_GPU_FREQ_MEMORY_MAX_",
        }
    }
}

/// Every device gave a reading.
pub open spec fn complete<T>(readings: Seq<Option<T>>) -> bool {
    forall|i: int| 0 <= i < readings.len() ==> (#[trigger] readings[i]) is Some
}

/// The readings of all devices where every device gave one, else nothing.
pub fn all_or_nothing<T: Copy>(readings: &Vec<Option<T>>) -> (r: Option<Vec<T>>)
    ensures
        r is Some <==> complete(readings@),
        r matches Some(v) ==> v@.len() == readings@.len()
            && forall|i: int| 0 <= i < v@.len() ==> readings@[i] == Some(#[trigger] v@[i]),
{
    let mut v: Vec<T> = Vec::new();
    let mut i: usize = 0;
    while i < readings.len()
        invariant
            i <= readings@.len(),
            v@.len() == i,
            forall|k: int| 0 <= k < i ==> readings@[k] == Some(#[trigger] v@[k]),
        decreases readings@.len() - i,
    {
        match readings[i] {
            Some(x) => v.push(x),
            None => {
                return None;
            },
        }
        i = i + 1;
    }
    assert forall|k: int| 0 <= k < readings@.len() implies (#[trigger] readings@[k]) is Some by {
        assert(readings@[k] == Some(v@[k]));
    }
    Some(v)
}

/// What one device query returned, tagged with the query that was made.
#[derive(Clone, Copy, Debug, PartialEq, Eq, Structural)]
pub enum RawMetric {
    /// From `utilization_rates`: the GPU's busy percentage.
    Utilization { gpu: u32 },
    /// From `memory_info`: used and total video memory, in bytes.
    Memory { used: u64, total: u64 },
    /// From `clock_info` (`max == false`) or `max_clock_info` (`max == true`)
    /// for a clock domain, in MHz.
    Clock { domain: ClockDomain, max: bool, mhz: u32 },
}

/// The value that `metric` takes from a query result; `None` where the
/// result is not that of the metric's query.
pub open spec fn metric_of(metric: GpuMetric, raw: RawMetric) -> Option<u64> {
    match (metric, raw) {
        (GpuMetric::Load, RawMetric::Utilization { gpu }) => Some(gpu as u64),
        (GpuMetric::VramCurrent, RawMetric::Memory { used, total: _ }) => Some(used),
        (GpuMetric::VramMax, RawMetric::Memory { used: _, total }) => Some(total),
        (GpuMetric::FreqGraphicsCurrent, RawMetric::Clock { domain: ClockDomain::Graphics, max: false, mhz }) => Some(mhz as u64),
        (GpuMetric::FreqGraphicsMax, RawMetric::Clock { domain: ClockDomain::Graphics, max: true, mhz }) => Some(mhz as u64),
        (GpuMetric::FreqMemoryCurrent, RawMetric::Clock { domain: ClockDomain::Memory, max: false, mhz }) => Some(mhz as u64),
        (GpuMetric::FreqMemoryMax, RawMetric::Clock { domain: ClockDomain::Memory, max: true, mhz }) => Some(mhz as u64),
        _ => None,
    }
}

/// The value of one device's reading; `None` where its query failed.
pub open spec fn reading_value(metric: GpuMetric, reading: Option<RawMetric>) -> Option<u64> {
    match reading {
        Some(raw) => metric_of(metric, raw),
        None => None,
    }
}

/// The family over the devices' readings in index order: every device's
/// value where each one has a value, else nothing.
pub open spec fn family_of(metric: GpuMetric, readings: Seq<Option<RawMetric>>) -> Option<Seq<u64>> {
    if forall|i: int| 0 <= i < readings.len() ==> (#[trigger] reading_value(metric, readings[i])) is Some {
        Some(Seq::new(readings.len(), |i: int| reading_value(metric, readings[i])->0))
    } else {
        None
    }
}

pub open spec fn values_view(r: Option<Vec<u64>>) -> Option<Seq<u64>> {
    match r {
        Some(v) => Some(v@),
        None => None,
    }
}

/// The value that `metric` takes from one device's reading.
pub fn metric_value(metric: GpuMetric, reading: Option<RawMetric>) -> (r: Option<u64>)
    ensures
        r == reading_value(metric, reading),
{
    match reading {
        None => None,
        Some(raw) => match (metric, raw) {
            (GpuMetric::Load, RawMetric::Utilization { gpu }) => Some(gpu as u64),
            (GpuMetric::VramCurrent, RawMetric::Memory { used, total: _ }) => Some(used),
            (GpuMetric::VramMax, RawMetric::Memory { used: _, total }) => Some(total),
            (GpuMetric::FreqGraphicsCurrent, RawMetric::Clock { domain: ClockDomain::Graphics, max: false, mhz }) => Some(mhz as u64),
            (GpuMetric::FreqGraphicsMax, RawMetric::Clock { domain: ClockDomain::Graphics, max: true, mhz }) => Some(mhz as u64),
            (GpuMetric::FreqMemoryCurrent, RawMetric::Clock { domain: ClockDomain::Memory, max: false, mhz }) => Some(mhz as u64),
            (GpuMetric::FreqMemoryMax, RawMetric::Clock { domain: ClockDomain::Memory, max: true, mhz }) => Some(mhz as u64),
            _ => None,
        },
    }
}

/// The family of `metric` over the devices' readings, in index order.
pub fn family_values(metric: GpuMetric, readings: &Vec<Option<RawMetric>>) -> (r: Option<Vec<u64>>)
    ensures
        values_view(r) == family_of(metric, readings@),
{
    let mut values: Vec<Option<u64>> = Vec::new();
    let mut i: usize = 0;
    while i < readings.len()
        invariant
            i <= readings@.len(),
            values@.len() == i,
            forall|k: int| 0 <= k < i ==> (#[trigger] values@[k]) == reading_value(metric, readings@[k]),
        decreases readings@.len() - i,
    {
        values.push(metric_value(metric, readings[i]));
        i = i + 1;
    }
    let r = all_or_nothing(&values);
    match &r {
        Some(v) => {
            assert forall|k: int| 0 <= k < readings@.len() implies (#[trigger] reading_value(metric, readings@[k])) is Some by {
                assert(values@[k] == Some(v@[k]));
            }
            assert(v@ =~= Seq::new(readings@.len(), |k: int| reading_value(metric, readings@[k])->0));
        },
        None => {
            proof {
                let k = choose|k: int| 0 <= k < values@.len() && !((#[trigger] values@[k]) is Some);
                assert(reading_value(metric, readings@[k]) is None);
            }
        },
    }
    r
}

/// One device's answer to the query of `metric`, or `None` where it failed.
fn read_raw(device: &nvml_wrapper::Device, metric: GpuMetric) -> (r: Option<RawMetric>)
    ensures
        r matches Some(raw) ==> metric_of(metric, raw) is Some,
{
    match metric {
        GpuMetric::Load => match utilization(device) {
            Ok(gpu) => Some(RawMetric::Utilization { gpu }),
            Err(_) => None,
        },
        GpuMetric::VramCurrent | GpuMetric::VramMax => match memory_info(device) {
            Ok(m) => Some(RawMetric::Memory { used: m.0, total: m.1 }),
            Err(_) => None,
        },
        GpuMetric::FreqGraphicsCurrent => match clock_info(device, ClockDomain::Graphics) {
            Ok(mhz) => Some(RawMetric::Clock { domain: ClockDomain::Graphics, max: false, mhz }),
            Err(_) => None,
        },
        GpuMetric::FreqGraphicsMax => match max_clock_info(device, ClockDomain::Graphics) {
            Ok(mhz) => Some(RawMetric::Clock { domain: ClockDomain::Graphics, max: true, mhz }),
            Err(_) => None,
        },
        GpuMetric::FreqMemoryCurrent => match clock_info(device, ClockDomain::Memory) {
            Ok(mhz) => Some(RawMetric::Clock { domain: ClockDomain::Memory, max: false, mhz }),
            Err(_) => None,
        },
        GpuMetric::FreqMemoryMax => match max_clock_info(device, ClockDomain::Memory) {
            Ok(mhz) => Some(RawMetric::Clock { domain: ClockDomain::Memory, max: true, mhz }),
            Err(_) => None,
        },
    }
}

/// What a family query over `device_count` devices may return: the family of
/// some readings, one per device in index order, each the answer to the
/// metric's own query or a failure.
pub open spec fn family_outcome(metric: GpuMetric, device_count: nat, r: Option<Vec<u64>>) -> bool {
    exists|readings: Seq<Option<RawMetric>>| readings.len() == device_count
        && #[trigger] family_of(metric, readings) == values_view(r)
}

/// `v` is the family of `metric` over some readings of `n` devices.
pub open spec fn came_from_devices(metric: GpuMetric, n: nat, v: Seq<u64>) -> bool {
    exists|readings: Seq<Option<RawMetric>>| readings.len() == n && #[trigger] family_of(metric, readings) == Some(v)
}

/// Each present outcome at position `k` is a family of the metric of rank `k`.
pub open spec fn outcomes_from_devices(results: Seq<Option<Vec<u64>>>, n: nat) -> bool {
    forall|k: int, m: GpuMetric| 0 <= k < results.len() && m.rank() == k && results[k] is Some
        ==> #[trigger] came_from_devices(m, n, results[k]->0@)
}

/// Queries `metric` on every device `0..device_count` in index order. A
/// device that cannot be opened counts as a failed reading; one failure
/// leaves the whole family out. No device gives an empty family.
pub fn query_family(nvml: &nvml_wrapper::Nvml, device_count: u32, metric: GpuMetric) -> (r: Option<Vec<u64>>)
    ensures
        family_outcome(metric, device_count as nat, r),
        device_count == 0 ==> (r matches Some(v) && v@.len() == 0),
        r matches Some(v) ==> v@.len() == device_count,
{
    let mut readings: Vec<Option<RawMetric>> = Vec::new();
    let mut i: u32 = 0;
    while i < device_count
        invariant
            i <= device_count,
            readings@.len() == i,
        decreases device_count - i,
    {
        let reading = match device_by_index(nvml, i) {
            Ok(device) => read_raw(&device, metric),
            Err(_) => None,
        };
        readings.push(reading);
        i = i + 1;
    }
    let r = family_values(metric, &readings);
    assert(family_of(metric, readings@) == values_view(r));
    r
}

/// The busy percentage of every device, in index order, or nothing where
/// one query failed.
pub fn get_nvidia_load(nvml: &nvml_wrapper::Nvml, device_count: u32) -> (r: Option<Vec<u64>>)
    ensures
        family_outcome(GpuMetric::Load, device_count as nat, r),
        device_count == 0 ==> (r matches Some(v) && v@.len() == 0),
        r matches Some(v) ==> v@.len() == device_count,
{
    query_family(nvml, device_count, GpuMetric::Load)
}

/// The readings of one metric family, indexed by device.
pub struct GpuFamily {
    pub metric: GpuMetric,
    pub values: Vec<u64>,
}

/// The families are listed in reporting order, each once, and each covers
/// the same `n` devices.
pub open spec fn families_aligned(fs: Seq<GpuFamily>, n: nat) -> bool {
    &&& forall|k: int| 0 <= k < fs.len() ==> (#[trigger] fs[k]).values@.len() == n
    &&& forall|j: int, k: int| 0 <= j < k < fs.len() ==> (#[trigger] fs[j]).metric.rank() < (#[trigger] fs[k]).metric.rank()
}

/// The families that came back, as (rank, values), in rank order.
pub open spec fn present_families(results: Seq<Option<Vec<u64>>>) -> Seq<(nat, Seq<u64>)>
    decreases results.len(),
{
    if results.len() == 0 {
        Seq::empty()
    } else {
        let before = present_families(results.drop_last());
        match results.last() {
            Some(v) => before.push(((results.len() - 1) as nat, v@)),
            None => before,
        }
    }
}

pub open spec fn families_view(fs: Seq<GpuFamily>) -> Seq<(nat, Seq<u64>)> {
    fs.map_values(|f: GpuFamily| (f.metric.rank(), f.values@))
}

/// The report over `count` devices, given the outcome of each family query
/// in rank order: nothing where there is no device, else every family that
/// came back, with its values.
pub fn gather_families(count: u32, results: &Vec<Option<Vec<u64>>>) -> (r: Option<Vec<GpuFamily>>)
    requires
        results@.len() <= METRIC_COUNT,
        forall|k: int| 0 <= k < results@.len() ==> (#[trigger] results@[k] matches Some(v) ==> v@.len() == count),
        outcomes_from_devices(results@, count as nat),
    ensures
        count == 0 <==> r is None,
        r matches Some(fs) ==> families_view(fs@) == present_families(results@) && families_aligned(fs@, count as nat),
        r matches Some(fs) ==> forall|j: int| 0 <= j < fs@.len()
            ==> came_from_devices((#[trigger] fs@[j]).metric, count as nat, fs@[j].values@),
{
    if count == 0 {
        return None;
    }
    let mut families: Vec<GpuFamily> = Vec::new();
    let mut i: usize = 0;
    while i < results.len()
        invariant
            i <= results@.len() <= METRIC_COUNT,
            forall|k: int| 0 <= k < results@.len() ==> (#[trigger] results@[k] matches Some(v) ==> v@.len() == count),
            families_view(families@) == present_families(results@.subrange(0, i as int)),
            families_aligned(families@, count as nat),
            forall|k: int| 0 <= k < families@.len() ==> (#[trigger] families@[k]).metric.rank() < i,
            outcomes_from_devices(results@, count as nat),
            forall|j: int| 0 <= j < families@.len()
                ==> came_from_devices((#[trigger] families@[j]).metric, count as nat, families@[j].values@),
        decreases results@.len() - i,
    {
        let ghost pre = results@.subrange(0, i as int);
        assert(results@.subrange(0, i + 1).drop_last() =~= pre);
        match &results[i] {
            Some(v) => {
                let family = GpuFamily { metric: GpuMetric::at(i), values: v.clone() };
                assert(came_from_devices(family.metric, count as nat, v@));
                families.push(family);
                assert(families_view(families@) =~= families_view(families@.drop_last()).push(
                    (family.metric.rank(), family.values@),
                ));
            },
            None => {},
        }
        i = i + 1;
    }
    assert(results@.subrange(0, results@.len() as int) =~= results@);
    Some(families)
}

/// Opens a session and gathers every metric family that is complete; an
/// error where the library cannot be loaded or sees no device.
pub fn get_gpus() -> (r: Result<Vec<GpuFamily>, GpuUnavailable>)
    ensures
        r matches Err(e) ==> !(e is DeviceFailed),
        r matches Ok(fs) ==> fs@.len() > 0 ==> fs@[0].values@.len() > 0
            && families_aligned(fs@, fs@[0].values@.len())
            && forall|j: int| 0 <= j < fs@.len()
                ==> came_from_devices((#[trigger] fs@[j]).metric, fs@[0].values@.len(), fs@[j].values@),
{
    let nvml = match nvml_init() {
        Ok(nvml) => nvml,
        Err(e) => {
            return Err(GpuUnavailable::Init(e));
        },
    };
    let count = match device_count(&nvml) {
        Ok(c) => c,
        Err(e) => {
            return Err(GpuUnavailable::Count(e));
        },
    };
    let mut results: Vec<Option<Vec<u64>>> = Vec::new();
    let mut i: usize = 0;
    while count > 0 && i < METRIC_COUNT
        invariant
            i <= METRIC_COUNT,
            results@.len() == i,
            forall|k: int| 0 <= k < results@.len() ==> (#[trigger] results@[k] matches Some(v) ==> v@.len() == count),
            outcomes_from_devices(results@, count as nat),
        decreases METRIC_COUNT - i,
    {
        let ghost old_results = results@;
        let metric = GpuMetric::at(i);
        let outcome = query_family(&nvml, count, metric);
        proof {
            if outcome is Some {
                assert(family_outcome(metric, count as nat, outcome));
                assert(values_view(outcome) == Some(outcome->0@));
                assert(came_from_devices(metric, count as nat, outcome->0@));
            }
        }
        results.push(outcome);
        proof {
            assert forall|k: int, m: GpuMetric| 0 <= k < results@.len() && m.rank() == k && results@[k] is Some
                implies #[trigger] came_from_devices(m, count as nat, results@[k]->0@) by {
                if k < i {
                    assert(results@[k] == old_results[k]);
                } else {
                    assert(m == metric);
                }
            }
        }
        i = i + 1;
    }
    match gather_families(count, &results) {
        Some(fs) => Ok(fs),
        None => Err(GpuUnavailable::NoDevices),
    }
}

/// The GPU temperatures of `count` devices, given each device's reading in
/// index order: nothing where there is no device or any reading failed.
pub fn vendor_temperatures(count: u32, readings: &Vec<Option<u32>>) -> (r: Option<Vec<u32>>)
    ensures
        r is Some <==> count > 0 && complete(readings@),
        r matches Some(v) ==> v@.len() == readings@.len()
            && forall|i: int| 0 <= i < v@.len() ==> readings@[i] == Some(#[trigger] v@[i]),
{
    if count == 0 {
        None
    } else {
        all_or_nothing(readings)
    }
}

/// Opens a session and reads the GPU temperature of every device, in index
/// order; an error where the library cannot be loaded, sees no device, or
/// fails to open or read any device.
pub fn get_all_nvidia_gpu_temperatures() -> (r: Result<Vec<u32>, GpuUnavailable>)
    ensures
        r matches Ok(v) ==> v@.len() > 0,
{
    let nvml = match nvml_init() {
        Ok(nvml) => nvml,
        Err(e) => {
            return Err(GpuUnavailable::Init(e));
        },
    };
    let count = match device_count(&nvml) {
        Ok(c) => c,
        Err(e) => {
            return Err(GpuUnavailable::Count(e));
        },
    };
    if count == 0 {
        return Err(GpuUnavailable::NoDevices);
    }
    let mut readings: Vec<Option<u32>> = Vec::new();
    let mut i: u32 = 0;
    while i < count
        invariant
            i <= count,
            readings@.len() == i,
        decreases count - i,
    {
        let reading = match device_by_index(&nvml, i) {
            Ok(device) => match gpu_temperature(&device) {
                Ok(t) => Some(t),
                Err(_) => None,
            },
            Err(_) => None,
        };
        readings.push(reading);
        i = i + 1;
    }
    match vendor_temperatures(count, &readings) {
        Some(v) => Ok(v),
        None => Err(GpuUnavailable::DeviceFailed),
    }
}

/// Where one device's reading of a family fails, the family holds no value
/// for any device; where every reading holds the metric, each device's value
/// stands at its index.
pub proof fn lemma_family_all_or_nothing(metric: GpuMetric, readings: Seq<Option<RawMetric>>, failed: int)
    requires
        0 <= failed < readings.len(),
        reading_value(metric, readings[failed]) is None,
    ensures
        family_of(metric, readings) is None,
{
}

} // verus!
