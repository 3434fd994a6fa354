use lib::memory_map::{AccessKind, MemoryMap, RegionId, WatchpointKind, UNMAPPED};

const RAM: RegionId = 1;
const ROM: RegionId = 2;
const IO: RegionId = 3;

#[test]
fn new_map_is_all_unmapped() {
    let map = MemoryMap::new();
    for page_idx in 0..=255u8 {
        let addr = (page_idx as u16) << 8;
        assert_eq!(map.page(addr).region_id, UNMAPPED);
    }
    assert!(map.regions().is_empty());
}

#[test]
fn region_populates_pages_and_descriptor() {
    let mut map = MemoryMap::new();
    map.region(RAM, "RAM", 0x0000, 0x8000, AccessKind::ReadWrite);

    for page_idx in 0x00..0x80u8 {
        let addr = (page_idx as u16) << 8;
        let entry = map.page(addr);
        assert_eq!(entry.region_id, RAM);
        assert_eq!(entry.base_offset, (page_idx as u16) * 256);
    }

    for page_idx in 0x80..=0xFFu8 {
        let addr = (page_idx as u16) << 8;
        assert_eq!(map.page(addr).region_id, UNMAPPED);
    }

    assert_eq!(map.regions().len(), 1);
    assert_eq!(map.regions()[0].name, "RAM");
    assert_eq!(map.regions()[0].start_addr, 0x0000);
    assert_eq!(map.regions()[0].end_addr, 0x7FFF);
}

#[test]
fn region_offset_calculation() {
    let mut map = MemoryMap::new();
    map.region(ROM, "ROM", 0xD000, 0x3000, AccessKind::ReadOnly);

    assert_eq!(map.region_offset(0xD000), 0);
    assert_eq!(map.region_offset(0xD042), 0x42);
    assert_eq!(map.region_offset(0xD100), 0x100);
    assert_eq!(map.region_offset(0xFFFF), 0x2FFF);
}

#[test]
fn multiple_regions() {
    let mut map = MemoryMap::new();
    map.region(RAM, "RAM", 0x0000, 0x8000, AccessKind::ReadWrite)
        .region(ROM, "ROM", 0x8000, 0x8000, AccessKind::ReadOnly);

    assert_eq!(map.page(0x0000).region_id, RAM);
    assert_eq!(map.page(0x7F00).region_id, RAM);
    assert_eq!(map.page(0x8000).region_id, ROM);
    assert_eq!(map.page(0xFF00).region_id, ROM);
    assert_eq!(map.regions().len(), 2);
}

#[test]
fn mirror_copies_entries() {
    let mut map = MemoryMap::new();
    map.region(RAM, "RAM", 0x0000, 0x8000, AccessKind::ReadWrite)
        .region(ROM, "ROM", 0x8000, 0x8000, AccessKind::ReadOnly);

    let mut map2 = MemoryMap::new();
    map2.region(RAM, "RAM", 0x0000, 0x8000, AccessKind::ReadWrite)
        .mirror(0x8000, 0x0000, 0x8000);

    assert_eq!(map2.page(0x8000).region_id, RAM);
    assert_eq!(map2.page(0x8000).base_offset, 0);
    assert_eq!(map2.page(0xFF00).region_id, RAM);
    assert_eq!(map2.page(0xFF00).base_offset, map2.page(0x7F00).base_offset);
}

#[test]
fn mirror_preserves_region_offsets() {
    let mut map = MemoryMap::new();
    map.region(RAM, "Work RAM", 0x4C00, 0x0400, AccessKind::ReadWrite)
        .mirror(0xCC00, 0x4C00, 0x0400);

    let src = map.page(0x4C00);
    let dst = map.page(0xCC00);
    assert_eq!(src.region_id, dst.region_id);
    assert_eq!(src.base_offset, dst.base_offset);
}

#[test]
fn remap_pages_for_bank_switching() {
    let mut map = MemoryMap::new();
    map.region(RAM, "Video RAM", 0x0000, 0x9000, AccessKind::ReadWrite);

    map.remap_pages(0x00, 0x90, ROM, 0);

    assert_eq!(map.page(0x0000).region_id, ROM);
    assert_eq!(map.page(0x0000).base_offset, 0);
    assert_eq!(map.page(0x8F00).region_id, ROM);

    map.remap_pages(0x00, 0x90, RAM, 0);
    assert_eq!(map.page(0x0000).region_id, RAM);
}

#[test]
fn no_watchpoints_by_default() {
    let map = MemoryMap::new();
    assert!(!map.has_any_watchpoints());
    assert_eq!(map.active_watch_count, 0);
}

#[test]
fn check_watch_is_noop_when_no_watchpoints() {
    let mut map = MemoryMap::new();
    map.region(RAM, "RAM", 0x0000, 0x10000, AccessKind::ReadWrite);

    assert!(!map.check_read_watch(0x1234, 0x42));
    assert!(!map.check_write_watch(0x1234, 0x42));
    assert!(map.take_hit().is_none());
}

#[test]
fn read_watchpoint_fires() {
    let mut map = MemoryMap::new();
    map.region(RAM, "RAM", 0x0000, 0x10000, AccessKind::ReadWrite);

    map.set_watchpoint(0x4000, WatchpointKind::Read);
    assert!(map.has_any_watchpoints());
    assert_eq!(map.active_watch_count, 1);

    assert!(map.check_read_watch(0x4000, 0xAB));
    let hit = map.take_hit().unwrap();
    assert_eq!(hit.addr, 0x4000);
    assert_eq!(hit.kind, WatchpointKind::Read);
    assert_eq!(hit.value, 0xAB);

    assert!(!map.check_read_watch(0x4042, 0xCD));

    assert!(!map.check_write_watch(0x4000, 0xCD));
    assert!(map.take_hit().is_none());

    assert!(!map.check_read_watch(0x5000, 0x00));
}

#[test]
fn write_watchpoint_fires() {
    let mut map = MemoryMap::new();
    map.region(RAM, "RAM", 0x0000, 0x10000, AccessKind::ReadWrite);

    map.set_watchpoint(0x1000, WatchpointKind::Write);

    assert!(map.check_write_watch(0x1000, 0x99));
    let hit = map.take_hit().unwrap();
    assert_eq!(hit.addr, 0x1000);
    assert_eq!(hit.kind, WatchpointKind::Write);
    assert_eq!(hit.value, 0x99);

    assert!(!map.check_read_watch(0x1000, 0x00));
}

#[test]
fn both_read_and_write_watchpoint() {
    let mut map = MemoryMap::new();
    map.region(RAM, "RAM", 0x0000, 0x10000, AccessKind::ReadWrite);

    map.set_watchpoint(0x2000, WatchpointKind::Read);
    map.set_watchpoint(0x2000, WatchpointKind::Write);
    assert_eq!(map.active_watch_count, 1);

    assert!(map.check_read_watch(0x2000, 0x11));
    map.take_hit();
    assert!(map.check_write_watch(0x2000, 0x22));
}

#[test]
fn clear_watchpoint() {
    let mut map = MemoryMap::new();
    map.region(RAM, "RAM", 0x0000, 0x10000, AccessKind::ReadWrite);

    map.set_watchpoint(0x3000, WatchpointKind::Read);
    map.set_watchpoint(0x3000, WatchpointKind::Write);
    assert_eq!(map.active_watch_count, 1);

    map.clear_watchpoint(0x3000, WatchpointKind::Read);
    assert_eq!(map.active_watch_count, 1);
    assert!(!map.check_read_watch(0x3000, 0x00));
    assert!(map.check_write_watch(0x3000, 0x00));

    map.take_hit();
    map.clear_watchpoint(0x3000, WatchpointKind::Write);
    assert_eq!(map.active_watch_count, 0);
    assert!(!map.has_any_watchpoints());
}

#[test]
fn clear_all_watchpoints() {
    let mut map = MemoryMap::new();
    map.region(RAM, "RAM", 0x0000, 0x10000, AccessKind::ReadWrite);

    map.set_watchpoint(0x1000, WatchpointKind::Read);
    map.set_watchpoint(0x2000, WatchpointKind::Write);
    map.set_watchpoint(0x3000, WatchpointKind::Read);
    assert_eq!(map.active_watch_count, 3);

    map.clear_all_watchpoints();
    assert_eq!(map.active_watch_count, 0);
    assert!(!map.has_any_watchpoints());
    assert!(!map.check_read_watch(0x1000, 0x00));
    assert!(!map.check_write_watch(0x2000, 0x00));
}

#[test]
fn multiple_watchpoints_on_different_pages() {
    let mut map = MemoryMap::new();
    map.region(RAM, "RAM", 0x0000, 0x10000, AccessKind::ReadWrite);

    map.set_watchpoint(0x1000, WatchpointKind::Read);
    map.set_watchpoint(0x2000, WatchpointKind::Read);
    assert_eq!(map.active_watch_count, 2);

    assert!(!map.check_read_watch(0x0000, 0x00));
    assert!(map.check_read_watch(0x1000, 0x42));
    map.take_hit();
    assert!(!map.check_read_watch(0x1050, 0x00));
}

#[test]
fn watchpoint_exact_address_only() {
    let mut map = MemoryMap::new();
    map.region(RAM, "RAM", 0x0000, 0x10000, AccessKind::ReadWrite);

    map.set_watchpoint(0x2042, WatchpointKind::Write);

    assert!(!map.check_write_watch(0x2000, 0x11));
    assert!(!map.check_write_watch(0x2041, 0x22));
    assert!(!map.check_write_watch(0x2043, 0x33));
    assert!(!map.check_write_watch(0x20FF, 0x44));

    assert!(map.check_write_watch(0x2042, 0x55));
    let hit = map.take_hit().unwrap();
    assert_eq!(hit.addr, 0x2042);
    assert_eq!(hit.value, 0x55);
}

#[test]
fn clear_one_of_two_on_same_page() {
    let mut map = MemoryMap::new();
    map.region(RAM, "RAM", 0x0000, 0x10000, AccessKind::ReadWrite);

    map.set_watchpoint(0x3000, WatchpointKind::Read);
    map.set_watchpoint(0x3010, WatchpointKind::Read);
    assert_eq!(map.active_watch_count, 1);

    map.clear_watchpoint(0x3000, WatchpointKind::Read);
    assert_eq!(map.active_watch_count, 1);
    assert!(!map.check_read_watch(0x3000, 0x00));
    assert!(map.check_read_watch(0x3010, 0xAA));
}

#[test]
fn region_at_returns_descriptor() {
    let mut map = MemoryMap::new();
    map.region(RAM, "Work RAM", 0x0000, 0x8000, AccessKind::ReadWrite)
        .region(ROM, "Program ROM", 0xD000, 0x3000, AccessKind::ReadOnly);

    let r = map.region_at(0x1234).unwrap();
    assert_eq!(r.name, "Work RAM");
    assert_eq!(r.id, RAM);

    let r = map.region_at(0xE000).unwrap();
    assert_eq!(r.name, "Program ROM");

    assert!(map.region_at(0xC000).is_none());
}

#[test]
fn region_descriptors_have_correct_bounds() {
    let mut map = MemoryMap::new();
    map.region(RAM, "Video RAM", 0x0000, 0xC000, AccessKind::ReadWrite)
        .region(IO, "I/O", 0xC000, 0x1000, AccessKind::Io)
        .region(ROM, "ROM", 0xD000, 0x3000, AccessKind::ReadOnly);

    assert_eq!(map.regions().len(), 3);

    assert_eq!(map.regions()[0].start_addr, 0x0000);
    assert_eq!(map.regions()[0].end_addr, 0xBFFF);

    assert_eq!(map.regions()[1].start_addr, 0xC000);
    assert_eq!(map.regions()[1].end_addr, 0xCFFF);

    assert_eq!(map.regions()[2].start_addr, 0xD000);
    assert_eq!(map.regions()[2].end_addr, 0xFFFF);
}

#[test]
fn last_hit_overwrites_previous() {
    let mut map = MemoryMap::new();
    map.region(RAM, "RAM", 0x0000, 0x10000, AccessKind::ReadWrite);
    map.set_watchpoint(0x1000, WatchpointKind::Read);
    map.set_watchpoint(0x1001, WatchpointKind::Read);

    map.check_read_watch(0x1000, 0xAA);
    map.check_read_watch(0x1001, 0xBB);

    let hit = map.take_hit().unwrap();
    assert_eq!(hit.addr, 0x1001);
    assert_eq!(hit.value, 0xBB);
}
