//! Swapchain behaviour: cursor arithmetic and all-or-nothing assembly.
use dreampipe::swapchain::buffer_usage_for_role;
use dreampipe::swapchain::BufferUsage;
use dreampipe::swapchain::SwapSlot;
use dreampipe::swapchain::TripleBuffer;
use dreampipe::CompositorError;
use dreampipe::PlaneKind;

fn slot(i: u64) -> SwapSlot {
    SwapSlot { bo: i, fb: 100 + i as u32, image: 200 + i, memory: 300 + i, texture: 400 + i }
}

fn fresh() -> TripleBuffer {
    TripleBuffer::new(vec![Ok(slot(0)), Ok(slot(1)), Ok(slot(2))]).ok().unwrap()
}

#[test]
fn cursors_after_k_advances() {
    let mut tb = fresh();
    // The fresh ring's cursors already differ: the scan cursor sits
    // one step behind the producer, at slot 2.
    assert_eq!(tb.draw, 0);
    assert_eq!(tb.scan, 2);
    assert_ne!(tb.draw, tb.scan);
    for k in 1usize..=10 {
        tb.swap();
        assert_eq!(tb.draw, k % 3);
        assert_eq!(tb.scan, (k - 1) % 3);
        assert_ne!(tb.draw, tb.scan);
    }
}

#[test]
fn draw_and_scan_framebuffers_follow_cursors() {
    let mut tb = fresh();
    assert_eq!(tb.draw_fb(), 100);
    assert_eq!(tb.scan_fb(), 102);
    tb.swap();
    assert_eq!(tb.draw_fb(), 101);
    assert_eq!(tb.scan_fb(), 100);
    tb.swap();
    assert_eq!(tb.draw_fb(), 102);
    assert_eq!(tb.scan_fb(), 101);
    tb.swap();
    assert_eq!(tb.draw_fb(), 100);
    assert_eq!(tb.scan_fb(), 102);
}

#[test]
fn assembly_succeeds_only_when_all_slots_built() {
    let tb = TripleBuffer::new(vec![Ok(slot(7)), Ok(slot(8)), Ok(slot(9))]).ok().unwrap();
    assert_eq!(tb.draw, 0);
    assert_eq!(tb.scan, 2);
    assert_eq!(tb.slots.len(), 3);
    assert_eq!(tb.slots[0], slot(7));
    assert_eq!(tb.slots[1], slot(8));
    assert_eq!(tb.slots[2], slot(9));
}

#[test]
fn assembly_aborts_on_third_slot_and_hands_back_the_first_two() {
    let r = TripleBuffer::new(vec![
        Ok(slot(0)),
        Ok(slot(1)),
        Err(CompositorError::VulkanMemoryAlloc(-12)),
    ]);
    let failure = match r {
        Ok(_) => panic!("assembly must fail when a slot fails"),
        Err(f) => f,
    };
    assert!(matches!(failure.error, CompositorError::VulkanMemoryAlloc(-12)));
    assert_eq!(failure.cleanup.len(), 2);
    assert_eq!(failure.cleanup[0], slot(0));
    assert_eq!(failure.cleanup[1], slot(1));
}

#[test]
fn buffer_usage_follows_the_plane_role() {
    assert_eq!(buffer_usage_for_role(PlaneKind::Primary), BufferUsage::Scanout);
    assert_eq!(buffer_usage_for_role(PlaneKind::Overlay), BufferUsage::Scanout);
    assert_eq!(buffer_usage_for_role(PlaneKind::Cursor), BufferUsage::Cursor);
}

#[test]
fn assembly_aborts_on_first_slot_with_nothing_to_destroy() {
    let r = TripleBuffer::new(vec![
        Err(CompositorError::GbmCreation(-5)),
        Ok(slot(1)),
        Ok(slot(2)),
    ]);
    let failure = match r {
        Ok(_) => panic!("assembly must fail when a slot fails"),
        Err(f) => f,
    };
    assert!(matches!(failure.error, CompositorError::GbmCreation(-5)));
    assert!(failure.cleanup.is_empty());
}
