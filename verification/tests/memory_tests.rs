use kernel::boot::{MemoryRegion, RegionKind};
use kernel::memory::{HeapRegion, OffsetMapping};

#[test]
fn offset_mapping_shifts_physical_addresses() {
    let m = OffsetMapping::new(0x1_0000_0000);
    assert_eq!(m.virt_of(0x1000), Some(0x1_0000_1000));
    assert_eq!(m.virt_of(0), Some(0x1_0000_0000));
}

#[test]
fn offset_mapping_rejects_wraparound() {
    let m = OffsetMapping::new(u64::MAX - 10);
    assert_eq!(m.virt_of(10), Some(u64::MAX));
    assert_eq!(m.virt_of(11), None);
}

#[test]
fn heap_is_carved_from_the_mapped_region() {
    let m = OffsetMapping::new(0x1_0000_0000);
    let region = MemoryRegion { start: 0x10_0000, end: 0x70_0000, kind: RegionKind::Usable };
    let h = HeapRegion::new(&m, region, 0x10_0000).unwrap();
    assert_eq!(h.base, 0x1_0010_0000);
    assert_eq!(h.size, 0x10_0000);
}

#[test]
fn heap_larger_than_the_region_is_refused() {
    let m = OffsetMapping::new(0x1_0000_0000);
    let region = MemoryRegion { start: 0x10_0000, end: 0x70_0000, kind: RegionKind::Usable };
    assert_eq!(HeapRegion::new(&m, region, 0x60_0001), None);
    assert!(HeapRegion::new(&m, region, 0x60_0000).is_some());
}
