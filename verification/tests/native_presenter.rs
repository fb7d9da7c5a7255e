use dyxel_render_vello::native_presenter::{
    validate_cpu_write, write_cpu_pixels, CpuAhbWrite, CpuPresentError, CpuWriteError,
    PresenterRing,
};
use dyxel_render_vello::vulkan::choose_vulkan_memory_type;

#[test]
fn solid_write_always_fits() {
    assert_eq!(validate_cpu_write(0, 0, &CpuAhbWrite::SolidRgba([1, 2, 3, 4])), Ok(()));
}

#[test]
fn frame_larger_than_slot_is_refused() {
    let pixels = [0u8; 64];
    let w = CpuAhbWrite::Rgba8888 { pixels: &pixels, width: 5, height: 2, stride_bytes: 20 };
    assert_eq!(
        validate_cpu_write(4, 4, &w),
        Err(CpuWriteError::FrameExceedsSlot { width: 5, height: 2, slot_width: 4, slot_height: 4 })
    );
}

#[test]
fn stride_shorter_than_row_is_refused() {
    let pixels = [0u8; 64];
    let w = CpuAhbWrite::Rgba8888 { pixels: &pixels, width: 4, height: 2, stride_bytes: 15 };
    assert_eq!(
        validate_cpu_write(4, 4, &w),
        Err(CpuWriteError::StrideTooSmall { stride_bytes: 15, row_bytes: 16 })
    );
}

#[test]
fn short_source_is_refused() {
    // Two rows of 16 bytes with a stride of 20 need 20 + 16 = 36 bytes.
    let pixels = [0u8; 35];
    let w = CpuAhbWrite::Rgba8888 { pixels: &pixels, width: 4, height: 2, stride_bytes: 20 };
    assert_eq!(
        validate_cpu_write(4, 4, &w),
        Err(CpuWriteError::BufferTooSmall { len: 35, required: 36 })
    );
    let enough = [0u8; 36];
    let w = CpuAhbWrite::Rgba8888 { pixels: &enough, width: 4, height: 2, stride_bytes: 20 };
    assert_eq!(validate_cpu_write(4, 4, &w), Ok(()));
}

#[test]
fn span_overflow_is_refused() {
    let pixels = [0u8; 4];
    let w = CpuAhbWrite::Rgba8888 { pixels: &pixels, width: 1, height: 3, stride_bytes: usize::MAX };
    assert_eq!(validate_cpu_write(4, 4, &w), Err(CpuWriteError::BufferSizeOverflow));
}

#[test]
fn empty_frame_needs_no_source() {
    let w = CpuAhbWrite::Rgba8888 { pixels: &[], width: 3, height: 0, stride_bytes: 12 };
    assert_eq!(validate_cpu_write(4, 4, &w), Ok(()));
}

#[test]
fn solid_fill_covers_visible_pixels_only() {
    // Slot 2x2 with a stride of 3 pixels: rows are 12 bytes, 8 of them visible.
    let mut buf = vec![9u8; 24];
    write_cpu_pixels(&mut buf, 2, 2, 3, &CpuAhbWrite::SolidRgba([1, 2, 3, 4]));
    assert_eq!(
        buf,
        vec![1, 2, 3, 4, 1, 2, 3, 4, 9, 9, 9, 9, 1, 2, 3, 4, 1, 2, 3, 4, 9, 9, 9, 9]
    );
}

#[test]
fn frame_copy_follows_both_strides() {
    // A 1x2 frame whose source rows are 6 bytes apart, into a 2x2 slot.
    let pixels = [10u8, 11, 12, 13, 0, 0, 20, 21, 22, 23];
    let w = CpuAhbWrite::Rgba8888 { pixels: &pixels, width: 1, height: 2, stride_bytes: 6 };
    assert_eq!(validate_cpu_write(2, 2, &w), Ok(()));
    let mut buf = vec![0u8; 16];
    write_cpu_pixels(&mut buf, 2, 2, 0, &w);
    assert_eq!(buf, vec![10, 11, 12, 13, 0, 0, 0, 0, 20, 21, 22, 23, 0, 0, 0, 0]);
}

#[test]
fn ring_hands_out_slots_in_turn() {
    let mut ring = PresenterRing::new(100, 50, 3);
    let mut seen = Vec::new();
    for _ in 0..4 {
        let slot = ring.cpu_frame_slot(100, 50).unwrap();
        seen.push(slot);
        ring.cpu_frame_presented(slot);
    }
    assert_eq!(seen, vec![0, 1, 2, 0]);
    assert_eq!(ring.presented_cpu_frames, 4);
}

#[test]
fn ring_refuses_wrong_size_and_empty_ring() {
    let ring = PresenterRing::new(100, 50, 3);
    assert_eq!(
        ring.cpu_frame_slot(99, 50),
        Err(CpuPresentError::SizeMismatch { width: 99, height: 50, surface_width: 100, surface_height: 50 })
    );
    let empty = PresenterRing::new(100, 50, 0);
    assert_eq!(empty.cpu_frame_slot(100, 50), Err(CpuPresentError::NoBuffers));
}

#[test]
fn ring_logs_first_and_every_120th_frame() {
    let mut ring = PresenterRing::new(1, 1, 2);
    let mut logged = Vec::new();
    for n in 1..=240u64 {
        let slot = ring.cpu_frame_slot(1, 1).unwrap();
        if ring.cpu_frame_presented(slot) {
            logged.push(n);
        }
    }
    assert_eq!(logged, vec![1, 120, 240]);
}

#[test]
fn ring_resize_restarts_at_first_slot() {
    let mut ring = PresenterRing::new(10, 10, 3);
    let slot = ring.cpu_frame_slot(10, 10).unwrap();
    ring.cpu_frame_presented(slot);
    ring.submitted_probe = true;
    assert!(!ring.needs_resize(10, 10));
    assert!(ring.needs_resize(20, 10));
    ring.ring_reallocated(20, 10, 4);
    assert_eq!(ring.next_cpu_slot, 0);
    assert_eq!(ring.depth, 4);
    assert!(!ring.submitted_probe);
    assert_eq!(ring.presented_cpu_frames, 1);
}

#[test]
fn memory_type_prefers_matching_flags() {
    // Types 0..3 allowed except type 1; type 2 has the preferred flags.
    let flags = [0b001u32, 0b110, 0b111, 0b010];
    assert_eq!(choose_vulkan_memory_type(0b1101, &flags, 0b110), Some(2));
}

#[test]
fn memory_type_falls_back_to_first_allowed() {
    let flags = [0b001u32, 0b001, 0b001];
    assert_eq!(choose_vulkan_memory_type(0b110, &flags, 0b100), Some(1));
}

#[test]
fn memory_type_none_when_nothing_allowed() {
    let flags = [0b111u32, 0b111];
    assert_eq!(choose_vulkan_memory_type(0b100, &flags, 0b001), None);
}
