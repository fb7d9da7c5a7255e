use dyxel_render_vello::frame::{triple_buffer_needs_recreate, TripleBuffer};

#[test]
fn triple_buffer_rotates_through_three_slots() {
    let mut ring = TripleBuffer::new(['a', 'b', 'c'], 640, 480);
    assert_eq!(*ring.current(), 'a');
    let mut seen = Vec::new();
    for _ in 0..4 {
        ring.advance();
        seen.push(*ring.current());
    }
    assert_eq!(seen, vec!['b', 'c', 'a', 'b']);
    assert_eq!((ring.width(), ring.height()), (640, 480));
}

#[test]
fn triple_buffer_recreated_only_on_size_change() {
    let ring = TripleBuffer::new([1, 2, 3], 100, 50);
    assert!(triple_buffer_needs_recreate::<i32>(None, 100, 50));
    assert!(!triple_buffer_needs_recreate(Some(&ring), 100, 50));
    assert!(triple_buffer_needs_recreate(Some(&ring), 100, 51));
    assert!(triple_buffer_needs_recreate(Some(&ring), 99, 50));
}
