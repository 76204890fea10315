//! Bring-up, the per-core area layout, and the register resolver.

use cops::api;
use cops::percpu::{area_total_size, get_bits, percpu_area_base, record_stride, PerCpuArea};

#[test]
fn primary_then_secondary_builds_two_records() {
    // Two-core configuration: core 0 is the boot core, core 1 is not.
    let mut area = PerCpuArea::bring_up_primary(0, 2, 4096, 64);
    area.bring_up_secondary(1);
    assert_eq!(api::this_cpu_id(&area, 0), 0);
    assert!(api::this_cpu_is_boot_core(&area, 0));
    assert_eq!(api::this_cpu_id(&area, 1), 1);
    assert!(!api::this_cpu_is_boot_core(&area, 1));
}

#[test]
fn area_reports_count_and_base() {
    let mut area = PerCpuArea::bring_up_primary(0, 2, 4096, 64);
    area.bring_up_secondary(1);
    assert_eq!(area.core_count(), 2);
    assert_eq!(percpu_area_base(&area), 4096);
}

#[test]
fn register_values_follow_the_stride() {
    let area = PerCpuArea::bring_up_primary(0, 2, 4096, 64);
    assert_eq!(area.register_value_for(0), 4096);
    assert_eq!(area.register_value_for(1), 4096 + 64);
}

#[test]
fn resolver_recovers_each_core_from_its_register() {
    let mut area = PerCpuArea::bring_up_primary(0, 2, 4096, 64);
    area.bring_up_secondary(1);
    let tp0 = area.register_value_for(0);
    let tp1 = area.register_value_for(1);
    assert_eq!(area.get_percpu(tp0).cpu_id(), 0);
    assert_eq!(area.get_percpu(tp1).cpu_id(), 1);
    assert!(area.get_percpu(tp0).is_boot_core());
    assert!(!area.get_percpu(tp1).is_boot_core());
}

#[test]
fn enumerate_all_yields_every_record_in_order() {
    let mut area = PerCpuArea::bring_up_primary(0, 2, 4096, 64);
    area.bring_up_secondary(1);
    let records = area.enumerate_all();
    assert_eq!(records.len(), 2);
    assert_eq!(records[0].cpu_id(), 0);
    assert_eq!(records[1].cpu_id(), 1);
}

#[test]
fn record_at_reads_a_constructed_slot() {
    let area = PerCpuArea::bring_up_primary(1, 2, 4096, 64);
    // The primary here is core 1; only its slot is constructed.
    assert_eq!(area.record_at(1).cpu_id(), 1);
    assert!(area.record_at(1).is_boot_core());
}

#[test]
fn bit_width_of_region_sizes() {
    assert_eq!(get_bits(0), 0);
    assert_eq!(get_bits(1), 1);
    assert_eq!(get_bits(2), 2);
    assert_eq!(get_bits(3), 2);
    assert_eq!(get_bits(64), 7);
    assert_eq!(get_bits(4096), 13);
    assert_eq!(get_bits(4097), 13);
}

#[test]
fn stride_rounds_up_to_cache_lines() {
    assert_eq!(record_stride(0), 0);
    assert_eq!(record_stride(1), 64);
    assert_eq!(record_stride(64), 64);
    assert_eq!(record_stride(65), 128);
    assert_eq!(record_stride(200), 256);
}

#[test]
fn total_size_multiplies_stride_by_count() {
    assert_eq!(area_total_size(64, 2), Some(128));
    assert_eq!(area_total_size(256, 4), Some(1024));
    assert_eq!(area_total_size(usize::MAX, 2), None);
}
