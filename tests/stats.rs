use sysstats::battery::{get_battery_capacity, BatteryError, BatteryReader, PowerSupplyFiles};
use sysstats::decimal::{parse_attribute, parse_attribute_rounded, parse_i32, trimmed_len};
use sysstats::disks::{disk_usage, disk_usages, DiskReading};
use sysstats::fraction::{share_of, Fraction, Wide, WideFraction};
use sysstats::gpu::{all_or_nothing, family_values, gather_families, metric_value, vendor_temperatures, ClockDomain, GpuMetric, RawMetric};
use sysstats::memory::memory_snapshot;
use sysstats::monitor::MonitorIdentifier;
use sysstats::network::{interface_rates, rate_of, NetworkReading, RefreshTime};
use sysstats::thermal::{key_from_upper, sensor_key};
use sysstats::window_options::Side;

fn text(s: &str) -> Option<Vec<u8>> {
    Some(s.as_bytes().to_vec())
}

fn device(name: &str) -> PowerSupplyFiles {
    PowerSupplyFiles {
        name: name.to_string(),
        capacity: None,
        status: None,
        charge_full: None,
        charge_now: None,
        voltage_now: None,
        energy_full: None,
        energy_now: None,
    }
}

fn battery(name: &str, capacity: &str, status: &str) -> PowerSupplyFiles {
    let mut d = device(name);
    d.capacity = text(capacity);
    d.status = text(status);
    d
}

fn value(f: Fraction) -> f64 {
    f.num as f64 / f.den as f64
}

fn wide(w: Wide) -> f64 {
    w.hi as f64 * 2f64.powi(128) + w.lo as f64
}

fn share(f: WideFraction) -> f64 {
    wide(f.num) / wide(f.den)
}

#[test]
fn attribute_numbers() {
    assert_eq!(parse_attribute(b"42\n"), Some(42));
    assert_eq!(parse_attribute(b"7"), Some(7));
    assert_eq!(parse_attribute(b"12\n\n"), Some(12));
    assert_eq!(parse_attribute(b"18446744073709551615\n"), Some(u64::MAX));
    assert_eq!(parse_attribute(b"18446744073709551616"), None);
    assert_eq!(parse_attribute(b""), None);
    assert_eq!(parse_attribute(b"\n"), None);
    assert_eq!(parse_attribute(b"4a\n"), None);
    assert_eq!(parse_attribute(b" 4"), None);
    assert_eq!(trimmed_len(b"Charging\n"), 8);
}

#[test]
fn rounded_attribute_numbers() {
    assert_eq!(parse_attribute_rounded(b"50\n"), Some(50));
    assert_eq!(parse_attribute_rounded(b"5.5"), Some(6));
    assert_eq!(parse_attribute_rounded(b"5.49\n"), Some(5));
    assert_eq!(parse_attribute_rounded(b"99.5\n"), Some(100));
    assert_eq!(parse_attribute_rounded(b"7."), Some(7));
    assert_eq!(parse_attribute_rounded(b".5"), None);
    assert_eq!(parse_attribute_rounded(b"1.2.3"), None);
    assert_eq!(parse_attribute_rounded(b"1.x"), None);
    assert_eq!(parse_attribute_rounded(b"18446744073709551615.5"), None);
    assert_eq!(parse_attribute_rounded(b"18446744073709551614.5"), Some(u64::MAX));
}

#[test]
fn battery_fractional_energy_is_rounded() {
    let mut a = device("BAT0");
    a.energy_now = text("1.5\n");
    a.energy_full = text("3.4\n");
    let report = get_battery_capacity(&mut BatteryReader::new(), &vec![a]).unwrap();
    let avg = report.total_avg.unwrap();
    assert_eq!(avg.num.lo, 2 * 1_000_000_000_000);
    assert_eq!(avg.den.lo, 3 * 1_000_000_000_000);
}

#[test]
fn wide_add_carries() {
    let w = Wide { hi: 0, lo: u128::MAX }.add(5);
    assert_eq!(w, Wide { hi: 1, lo: 4 });
    assert_eq!(Wide::zero().add(7), Wide { hi: 0, lo: 7 });
}

#[test]
fn battery_fractional_capacity_is_rounded() {
    let mut a = battery("BAT0", "5.5\n", "Charging\n");
    a.energy_now = text("1");
    a.energy_full = text("2");
    let report = get_battery_capacity(&mut BatteryReader::new(), &vec![a]).unwrap();
    assert_eq!(report.batteries[0].capacity, 6);
}

#[test]
fn i32_text() {
    assert_eq!(parse_i32(b"0"), Some(0));
    assert_eq!(parse_i32(b"+5"), Some(5));
    assert_eq!(parse_i32(b"-17"), Some(-17));
    assert_eq!(parse_i32(b"2147483647"), Some(i32::MAX));
    assert_eq!(parse_i32(b"-2147483648"), Some(i32::MIN));
    assert_eq!(parse_i32(b"2147483648"), None);
    assert_eq!(parse_i32(b"-"), None);
    assert_eq!(parse_i32(b"+"), None);
    assert_eq!(parse_i32(b""), None);
    assert_eq!(parse_i32(b"1x"), None);
}

#[test]
fn battery_mixed_schemes_average_half() {
    let mut a = battery("BAT0", "50\n", "Discharging\n");
    a.charge_now = text("50000000\n");
    a.charge_full = text("100000000\n");
    a.voltage_now = text("12000000\n");
    let mut b = battery("BAT1", "50\n", "Full\n");
    b.energy_now = text("30000000\n");
    b.energy_full = text("60000000\n");
    let mut reader = BatteryReader::new();
    let report = get_battery_capacity(&mut reader, &vec![a, b]).unwrap();
    let avg = report.total_avg.unwrap();
    assert_eq!(avg.num.hi, 0);
    assert_eq!(avg.den.hi, 0);
    assert_eq!(avg.num.lo * 2, avg.den.lo);
    assert_eq!(share(avg) * 100.0, 50.0);
    assert_eq!(report.batteries.len(), 2);
    assert_eq!(report.batteries[0].name, "BAT0");
    assert_eq!(report.batteries[0].capacity, 50);
    assert_eq!(report.batteries[0].status, b"Discharging".to_vec());
    assert_eq!(report.batteries[1].status, b"Full".to_vec());
    assert!(!report.warn_missing_energy);
}

#[test]
fn battery_charge_scheme_units() {
    let mut a = battery("BAT0", "75", "Charging");
    a.charge_now = text("3000000");
    a.charge_full = text("4000000");
    a.voltage_now = text("11000000");
    let mut reader = BatteryReader::new();
    let report = get_battery_capacity(&mut reader, &vec![a]).unwrap();
    let avg = report.total_avg.unwrap();
    assert_eq!(avg.num, Wide { hi: 0, lo: 3_000_000u128 * 11_000_000 });
    assert_eq!(avg.den, Wide { hi: 0, lo: 4_000_000u128 * 11_000_000 });
    assert_eq!(share(avg) * 100.0, 75.0);
}

#[test]
fn battery_weighted_not_mean_of_percentages() {
    let mut a = battery("BAT0", "100", "Full");
    a.energy_now = text("10");
    a.energy_full = text("10");
    let mut b = battery("BAT1", "0", "Empty");
    b.energy_now = text("0");
    b.energy_full = text("30");
    let mut reader = BatteryReader::new();
    let report = get_battery_capacity(&mut reader, &vec![a, b]).unwrap();
    assert_eq!(share(report.total_avg.unwrap()) * 100.0, 25.0);
}

#[test]
fn battery_without_energy_data_is_empty() {
    let mut reader = BatteryReader::new();
    let report = get_battery_capacity(&mut reader, &vec![battery("BAT0", "40", "Unknown")]).unwrap();
    assert!(report.total_avg.is_none());
    assert_eq!(report.batteries.len(), 1);
    assert!(report.warn_missing_energy);
    assert!(reader.warned);
    let again = get_battery_capacity(&mut reader, &vec![battery("BAT0", "40", "Unknown")]).unwrap();
    assert!(!again.warn_missing_energy);
    let none = get_battery_capacity(&mut BatteryReader::new(), &vec![]).unwrap();
    assert!(none.total_avg.is_none());
    assert!(none.batteries.is_empty());
}

#[test]
fn battery_zero_full_energy_is_empty() {
    let mut a = battery("BAT0", "0", "Unknown");
    a.energy_now = text("0");
    a.energy_full = text("0");
    let report = get_battery_capacity(&mut BatteryReader::new(), &vec![a]).unwrap();
    assert!(report.total_avg.is_none());
}

#[test]
fn battery_records_only_devices_with_capacity_and_status() {
    let mut ac = device("AC");
    ac.status = text("1\n");
    ac.energy_now = text("5");
    ac.energy_full = text("10");
    let mut b = battery("BAT0", "20", "Discharging");
    b.energy_now = text("2");
    b.energy_full = text("10");
    let report = get_battery_capacity(&mut BatteryReader::new(), &vec![ac, b]).unwrap();
    assert_eq!(report.batteries.len(), 1);
    assert_eq!(report.batteries[0].name, "BAT0");
    assert_eq!(share(report.total_avg.unwrap()) * 100.0, 35.0);
    let mut lone = device("BAT1");
    lone.energy_now = text("3\n");
    lone.energy_full = text("4\n");
    let report = get_battery_capacity(&mut BatteryReader::new(), &vec![lone]).unwrap();
    assert!(report.batteries.is_empty());
    assert_eq!(share(report.total_avg.unwrap()) * 100.0, 75.0);
}

#[test]
fn battery_malformed_number_fails() {
    let mut reader = BatteryReader::new();
    let r = get_battery_capacity(&mut reader, &vec![battery("BAT0", "abc\n", "Full")]);
    assert_eq!(r.err(), Some(BatteryError::MalformedNumber));
    let mut b = battery("BAT0", "50", "Full");
    b.charge_now = text("x");
    b.charge_full = text("10");
    b.voltage_now = text("10");
    b.energy_now = text("1");
    b.energy_full = text("2");
    let r = get_battery_capacity(&mut reader, &vec![b]);
    assert_eq!(r.err(), Some(BatteryError::MalformedNumber));
    assert!(!reader.warned);
}

#[test]
fn battery_large_sums_carry() {
    let mut a = battery("BAT0", "50", "Full");
    a.charge_now = text("18446744073709551615");
    a.charge_full = text("18446744073709551615");
    a.voltage_now = text("18446744073709551615");
    let mut b = battery("BAT1", "50", "Full");
    b.charge_now = text("18446744073709551615");
    b.charge_full = text("18446744073709551615");
    b.voltage_now = text("18446744073709551615");
    let report = get_battery_capacity(&mut BatteryReader::new(), &vec![a, b]).unwrap();
    let product = u64::MAX as u128 * u64::MAX as u128;
    let (lo, carry) = product.overflowing_add(product);
    assert!(carry);
    let expected = Wide { hi: 1, lo };
    let avg = report.total_avg.unwrap();
    assert_eq!(avg.num, expected);
    assert_eq!(avg.den, expected);
}

#[test]
fn memory_used_is_total_less_available() {
    let s = memory_snapshot(16_000, 2_000, 10_000, 4_000, 3_000);
    assert_eq!(s.used_mem, 6_000);
    assert_eq!(s.free_mem, 2_000);
    assert_eq!(s.total_swap, 4_000);
    assert_eq!(s.free_swap, 3_000);
    assert_eq!(s.used_mem_perc, Some(Fraction { num: 6_000, den: 16_000 }));
    let empty = memory_snapshot(0, 0, 0, 0, 0);
    assert_eq!(empty.used_mem_perc, None);
}

#[test]
fn disk_used_and_free_add_up() {
    let r = DiskReading { mount_point: "/".to_string(), name: "sda1".to_string(), total: 1000, available: 250 };
    let u = disk_usage(&r);
    assert_eq!(u.used, 750);
    assert_eq!(u.used + u.free, u.total);
    assert_eq!(u.mount_point, "/");
    assert_eq!(u.name, "sda1");
    assert_eq!(value(u.used_perc.unwrap()) * 100.0, 75.0);
    let proc_fs = DiskReading { mount_point: "/proc".to_string(), name: "proc".to_string(), total: 0, available: 0 };
    let all = disk_usages(&vec![r, proc_fs]);
    assert_eq!(all.len(), 2);
    assert_eq!(all[1].used, 0);
    assert!(all[1].used_perc.is_none());
}

#[test]
fn share_of_zero_whole() {
    assert_eq!(share_of(3, 0), None);
    assert_eq!(share_of(3, 4), Some(Fraction { num: 3, den: 4 }));
}

#[test]
fn network_rate_bytes_per_second() {
    let r = rate_of(1000, 500_000_000).unwrap();
    assert_eq!(value(r), 2000.0);
    assert_eq!(rate_of(1000, 0), None);
    let rates = interface_rates(
        &vec![NetworkReading { name: "eth0".to_string(), transmitted: 300, received: 600 }],
        3_000_000_000,
    );
    assert_eq!(rates[0].name, "eth0");
    assert_eq!(value(rates[0].up.unwrap()), 100.0);
    assert_eq!(value(rates[0].down.unwrap()), 200.0);
}

#[test]
fn refresh_clock_measures_since_previous_poll() {
    let mut clock = RefreshTime::new();
    assert_eq!(clock.advance(1_000), 1_000);
    assert_eq!(clock.advance(1_500), 500);
    assert_eq!(clock.last, 1_500);
    assert_eq!(clock.advance(1_200), 0);
    assert_eq!(clock.last, 1_200);
    let before = clock.last;
    let elapsed = clock.next_refresh();
    if clock.last >= before {
        assert_eq!(clock.last - before, elapsed);
    } else {
        assert_eq!(elapsed, 0);
    }
}

#[test]
fn gpu_family_all_or_nothing() {
    assert_eq!(all_or_nothing(&vec![Some(40), None]), None);
    assert_eq!(all_or_nothing(&vec![None, Some(40)]), None);
    assert_eq!(all_or_nothing(&vec![Some(40), Some(7)]), Some(vec![40, 7]));
    assert_eq!(all_or_nothing::<u64>(&vec![]), Some(vec![]));
}

#[test]
fn gpu_metric_keys() {
    assert_eq!(GpuMetric::Load.key_prefix(), "VENDOR_GPU_LOAD_");
    assert_eq!(GpuMetric::VramCurrent.key_prefix(), "VENDOR_GPU_VRAM_CURRENT_");
    assert_eq!(GpuMetric::VramMax.key_prefix(), "VENDOR_GPU_VRAM_MAX_");
    assert_eq!(GpuMetric::FreqGraphicsCurrent.key_prefix(), "VENDOR_GPU_FREQ_GRAPHICS_CURRENT_");
    assert_eq!(GpuMetric::FreqGraphicsMax.key_prefix(), "VENDOR_GPU_FREQ_GRAPHICS_MAX_");
    assert_eq!(GpuMetric::FreqMemoryCurrent.key_prefix(), "VENDOR_GPU_FREQ_MEMORY_CURRENT_");
    assert_eq!(GpuMetric::FreqMemoryMax.key_prefix(), "VENDOR_GPU_FREQ_MEMORY_MAX_");
    assert_eq!(GpuMetric::at(0), GpuMetric::Load);
    assert_eq!(GpuMetric::at(6), GpuMetric::FreqMemoryMax);
}

#[test]
fn sensor_keys() {
    assert_eq!(key_from_upper("CPU TEMP 1"), "CPU_TEMP_1");
    assert_eq!(sensor_key("acpitz temp1"), "ACPITZ_TEMP1");
    assert_eq!(sensor_key("Core 0"), "CORE_0");
    assert_eq!(sensor_key(""), "");
}

#[test]
fn side_names() {
    assert_eq!("l".parse::<Side>(), Ok(Side::Left));
    assert_eq!("left".parse::<Side>(), Ok(Side::Left));
    assert_eq!("r".parse::<Side>(), Ok(Side::Right));
    assert_eq!("right".parse::<Side>(), Ok(Side::Right));
    assert_eq!("t".parse::<Side>(), Ok(Side::Top));
    assert_eq!("top".parse::<Side>(), Ok(Side::Top));
    assert_eq!("b".parse::<Side>(), Ok(Side::Bottom));
    assert_eq!("bottom".parse::<Side>(), Ok(Side::Bottom));
    assert!("middle".parse::<Side>().is_err());
    assert_eq!(Side::parse("Left").unwrap_err().input, "Left");
    assert_eq!(Side::default(), Side::Top);
}

#[test]
fn monitor_identifiers() {
    assert_eq!("2".parse::<MonitorIdentifier>(), Ok(MonitorIdentifier::Numeric(2)));
    assert_eq!("-1".parse::<MonitorIdentifier>(), Ok(MonitorIdentifier::Numeric(-1)));
    assert_eq!("DP-1".parse::<MonitorIdentifier>(), Ok(MonitorIdentifier::Numeric(0)));
    assert_eq!(MonitorIdentifier::parse("99999999999"), MonitorIdentifier::Numeric(0));
    assert!(MonitorIdentifier::Numeric(3).is_numeric());
}

#[test]
fn gpu_families_gathered_in_rank_order() {
    assert!(gather_families(0, &vec![None, None]).is_none());
    let fs = gather_families(2, &vec![Some(vec![10, 20]), None, Some(vec![8, 8])]).unwrap();
    assert_eq!(fs.len(), 2);
    assert_eq!(fs[0].metric, GpuMetric::Load);
    assert_eq!(fs[0].values, vec![10, 20]);
    assert_eq!(fs[1].metric, GpuMetric::VramMax);
    assert_eq!(fs[1].values, vec![8, 8]);
    let none_back = gather_families(2, &vec![None, None]).unwrap();
    assert!(none_back.is_empty());
}

#[test]
fn gpu_temperatures_all_or_nothing() {
    assert_eq!(vendor_temperatures(2, &vec![Some(41), Some(55)]), Some(vec![41, 55]));
    assert_eq!(vendor_temperatures(2, &vec![Some(41), None]), None);
    assert_eq!(vendor_temperatures(0, &vec![]), None);
}

#[test]
fn gpu_metric_takes_its_own_reading() {
    let mem = Some(RawMetric::Memory { used: 3, total: 8 });
    assert_eq!(metric_value(GpuMetric::VramCurrent, mem), Some(3));
    assert_eq!(metric_value(GpuMetric::VramMax, mem), Some(8));
    assert_eq!(metric_value(GpuMetric::Load, mem), None);
    assert_eq!(metric_value(GpuMetric::Load, Some(RawMetric::Utilization { gpu: 42 })), Some(42));
    let graphics_max = Some(RawMetric::Clock { domain: ClockDomain::Graphics, max: true, mhz: 1800 });
    assert_eq!(metric_value(GpuMetric::FreqGraphicsMax, graphics_max), Some(1800));
    assert_eq!(metric_value(GpuMetric::FreqGraphicsCurrent, graphics_max), None);
    assert_eq!(metric_value(GpuMetric::FreqMemoryMax, graphics_max), None);
    let memory_now = Some(RawMetric::Clock { domain: ClockDomain::Memory, max: false, mhz: 900 });
    assert_eq!(metric_value(GpuMetric::FreqMemoryCurrent, memory_now), Some(900));
    assert_eq!(metric_value(GpuMetric::VramCurrent, None), None);
}

#[test]
fn gpu_family_needs_every_device() {
    let load = |gpu| Some(RawMetric::Utilization { gpu });
    assert_eq!(family_values(GpuMetric::Load, &vec![load(10), load(20)]), Some(vec![10, 20]));
    assert_eq!(family_values(GpuMetric::Load, &vec![load(10), None]), None);
    assert_eq!(family_values(GpuMetric::Load, &vec![]), Some(vec![]));
}
