use lightos_core::frame_alloc::PhysicalMemoryManager;
use lightos_core::paging::PageMapper;
use lightos_core::vma::{VMA_Error, VMA_Manager, VMA_Type, VirtualMemoryArea};

#[test]
fn add_area_rejects_start_address_collision() {
    let mut m = VMA_Manager::new();
    let a = VirtualMemoryArea::new(0x2000, 0x1000, VMA_Type::Data);
    let b = VirtualMemoryArea::new(0x2000, 0x4000, VMA_Type::Heap);
    assert!(m.add_area(a).is_ok());
    assert!(matches!(m.add_area(b), Err(VMA_Error::AreaAlreadyExists)));
    // A different start address is accepted.
    let c = VirtualMemoryArea::new(0x8000, 0x1000, VMA_Type::Stack);
    assert!(m.add_area(c).is_ok());
}

#[test]
fn find_area_containment_boundaries() {
    let mut m = VMA_Manager::new();
    let a = VirtualMemoryArea::new(0x2000, 0x1000, VMA_Type::Data);
    let b = VirtualMemoryArea::new(0x5000, 0x2000, VMA_Type::Code);
    m.add_area(b).unwrap();
    m.add_area(a).unwrap();

    // First and last byte of each area.
    assert_eq!(m.find_area(0x2000).unwrap().start_addr, 0x2000);
    assert_eq!(m.find_area(0x2fff).unwrap().start_addr, 0x2000);
    assert_eq!(m.find_area(0x5000).unwrap().start_addr, 0x5000);
    assert_eq!(m.find_area(0x6fff).unwrap().start_addr, 0x5000);
    // One past an end, one before a start, and the gap between areas.
    assert!(m.find_area(0x1fff).is_none());
    assert!(m.find_area(0x3000).is_none());
    assert!(m.find_area(0x4fff).is_none());
    assert!(m.find_area(0x7000).is_none());
    assert!(m.find_area(0x0).is_none());
}

#[test]
fn default_flags_by_area_kind() {
    // Present | user-accessible for code; writable and no-execute added
    // for everything else.
    let code = VirtualMemoryArea::new(0x1000, 0x1000, VMA_Type::Code);
    assert_eq!(code.flags, 0x5);
    for kind in [VMA_Type::Data, VMA_Type::Stack, VMA_Type::Heap, VMA_Type::MappedFile] {
        let a = VirtualMemoryArea::new(0x1000, 0x1000, kind);
        assert_eq!(a.flags, 0x8000_0000_0000_0007);
    }
}

#[test]
fn map_vma_page_demand_pages_one_frame() {
    let mut m = VMA_Manager::new();
    m.add_area(VirtualMemoryArea::new(0x2000, 0x1000, VMA_Type::Data)).unwrap();
    let mut pmm = PhysicalMemoryManager::new();
    pmm.add_available_region(0x10_0000, 0x4000);
    let mut mapper = PageMapper::new();

    assert!(m.map_vma_page(0x2500, &mut pmm, &mut mapper).is_ok());
    assert_eq!(mapper.len(), 1);
    let entry = mapper.translation(0x2000).unwrap();
    assert_eq!(entry.page, 0x2000);
    assert_eq!(entry.frame, 0x10_0000);
    assert_eq!(entry.flags, 0x8000_0000_0000_0007);
}

#[test]
fn map_vma_page_twice_on_same_address_still_resolves() {
    // Demand-paging idempotence: the first fault does not disturb the
    // area set, so the second fault's lookup succeeds again, and the
    // mapper tolerates re-installing the page.
    let mut m = VMA_Manager::new();
    m.add_area(VirtualMemoryArea::new(0x2000, 0x1000, VMA_Type::Data)).unwrap();
    let mut pmm = PhysicalMemoryManager::new();
    pmm.add_available_region(0x10_0000, 0x4000);
    let mut mapper = PageMapper::new();

    assert!(m.map_vma_page(0x2500, &mut pmm, &mut mapper).is_ok());
    assert!(m.map_vma_page(0x2500, &mut pmm, &mut mapper).is_ok());
    // Still one translation for the page, now backed by the second frame.
    assert_eq!(mapper.len(), 1);
    let entry = mapper.translation(0x2000).unwrap();
    assert_eq!(entry.frame, 0x10_1000);
}

#[test]
fn map_vma_page_reports_missing_area_and_oom() {
    let mut m = VMA_Manager::new();
    m.add_area(VirtualMemoryArea::new(0x2000, 0x1000, VMA_Type::Data)).unwrap();
    let mut pmm = PhysicalMemoryManager::new();
    let mut mapper = PageMapper::new();

    // No area owns the address: illegal access.
    assert!(matches!(
        m.map_vma_page(0x9000, &mut pmm, &mut mapper),
        Err(VMA_Error::NoAreaFound)
    ));
    // Area found but no physical memory declared: out of memory.
    assert!(matches!(
        m.map_vma_page(0x2500, &mut pmm, &mut mapper),
        Err(VMA_Error::OOM)
    ));
    assert_eq!(mapper.len(), 0);
}
