use lightos_core::frame_alloc::{PhysicalMemoryManager, PmmError};

const PAGE: u64 = 4096;

#[test]
fn frames_are_aligned_distinct_and_inside_regions() {
    let mut pmm = PhysicalMemoryManager::new();
    pmm.add_available_region(0x10_0000, 4 * PAGE);
    pmm.add_available_region(0x40_0000, 2 * PAGE);

    let mut frames = Vec::new();
    loop {
        match pmm.allocate_frame() {
            Ok(f) => frames.push(f),
            Err(e) => {
                assert_eq!(e, PmmError::NoFreeFrames);
                break;
            }
        }
    }
    assert_eq!(frames.len(), 6);
    for (i, f) in frames.iter().enumerate() {
        assert_eq!(f % PAGE, 0, "frame {f:#x} is not page-aligned");
        let in_first = (0x10_0000..0x10_0000 + 4 * PAGE).contains(f)
            && f + PAGE <= 0x10_0000 + 4 * PAGE;
        let in_second = (0x40_0000..0x40_0000 + 2 * PAGE).contains(f)
            && f + PAGE <= 0x40_0000 + 2 * PAGE;
        assert!(in_first || in_second, "frame {f:#x} outside declared regions");
        for g in &frames[..i] {
            assert_ne!(f, g, "frame {f:#x} returned twice");
        }
    }
    assert_eq!(
        frames,
        vec![0x10_0000, 0x10_1000, 0x10_2000, 0x10_3000, 0x40_0000, 0x40_1000]
    );
}

#[test]
fn unaligned_region_start_is_rounded_up() {
    let mut pmm = PhysicalMemoryManager::new();
    // The region starts mid-page; the first full frame inside it starts
    // at the next page boundary.
    pmm.add_available_region(0x1800, 3 * PAGE);
    assert_eq!(pmm.allocate_frame(), Ok(0x2000));
    assert_eq!(pmm.allocate_frame(), Ok(0x3000));
    // 0x4000..0x4800 is only half a frame: nothing more fits.
    assert_eq!(pmm.allocate_frame(), Err(PmmError::NoFreeFrames));
}

#[test]
fn allocation_skips_gaps_between_regions() {
    let mut pmm = PhysicalMemoryManager::new();
    pmm.add_available_region(0x5000, PAGE);
    pmm.add_available_region(0x9000, PAGE);
    assert_eq!(pmm.allocate_frame(), Ok(0x5000));
    assert_eq!(pmm.allocate_frame(), Ok(0x9000));
    assert_eq!(pmm.allocate_frame(), Err(PmmError::NoFreeFrames));
}

#[test]
fn exhaustion_is_deterministic_and_repeatable() {
    let mut pmm = PhysicalMemoryManager::new();
    pmm.add_available_region(0x7000, PAGE);
    assert_eq!(pmm.allocate_frame(), Ok(0x7000));
    // Once the allocated frames cover every declared region, every
    // further call fails the same way.
    for _ in 0..5 {
        assert_eq!(pmm.allocate_frame(), Err(PmmError::NoFreeFrames));
    }
}

#[test]
fn empty_manager_has_no_frames() {
    let mut pmm = PhysicalMemoryManager::new();
    assert_eq!(pmm.allocate_frame(), Err(PmmError::NoFreeFrames));
}

#[test]
fn region_order_does_not_hide_lower_addresses() {
    // Declared out of address order: allocation still returns the lowest
    // fitting frame first.
    let mut pmm = PhysicalMemoryManager::new();
    pmm.add_available_region(0x9000, PAGE);
    pmm.add_available_region(0x5000, PAGE);
    assert_eq!(pmm.allocate_frame(), Ok(0x5000));
    assert_eq!(pmm.allocate_frame(), Ok(0x9000));
}
