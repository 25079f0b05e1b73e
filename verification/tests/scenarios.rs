use spsc_ring::RingBuffer;

#[test]
fn capacity_four_holds_three() {
    let mut queue = RingBuffer::new(4);
    assert!(queue.push(1));
    assert!(queue.push(2));
    assert!(queue.push(3));
    assert!(!queue.push(4));

    let mut out = 0;
    assert!(queue.pop(&mut out));
    assert_eq!(out, 1);
    assert!(queue.push(4));

    assert!(queue.pop(&mut out));
    assert_eq!(out, 2);
    assert!(queue.pop(&mut out));
    assert_eq!(out, 3);
    assert!(queue.pop(&mut out));
    assert_eq!(out, 4);

    out = -7;
    assert!(!queue.pop(&mut out));
    assert_eq!(out, -7);
}

#[test]
fn fresh_buffer_pops_nothing() {
    for capacity in 0..10 {
        let mut queue = RingBuffer::new(capacity);
        assert!(queue.is_empty());
        let mut out = 42;
        assert!(!queue.pop(&mut out));
        assert_eq!(out, 42);
        assert!(!queue.pop(&mut out));
        assert_eq!(out, 42);
    }
}

#[test]
fn refused_push_changes_nothing() {
    let mut queue = RingBuffer::new(3);
    assert!(queue.push(10));
    assert!(queue.push(20));
    assert!(!queue.push(30));
    assert!(!queue.push(40));

    let mut out = 0;
    assert!(queue.pop(&mut out));
    assert_eq!(out, 10);
    assert!(queue.pop(&mut out));
    assert_eq!(out, 20);
    assert!(!queue.pop(&mut out));
    assert_eq!(out, 20);
}

#[test]
fn capacity_two_holds_one() {
    let mut queue = RingBuffer::new(2);
    let mut out = 0;
    for value in [5, -6, 7, i32::MIN, i32::MAX, 0] {
        assert!(queue.push(value));
        assert!(!queue.push(value.wrapping_add(1)));
        assert!(!queue.is_empty());
        assert!(queue.pop(&mut out));
        assert_eq!(out, value);
        assert!(queue.is_empty());
    }
}

#[test]
fn capacity_one_is_always_full_and_empty() {
    let mut queue = RingBuffer::new(1);
    let mut out = 9;
    for value in 0..5 {
        assert!(!queue.push(value));
        assert!(!queue.pop(&mut out));
        assert_eq!(out, 9);
        assert!(queue.is_empty());
    }
}

#[test]
fn capacity_zero_is_always_full_and_empty() {
    let mut queue = RingBuffer::new(0);
    let mut out = 9;
    for value in 0..5 {
        assert!(!queue.push(value));
        assert!(!queue.pop(&mut out));
        assert_eq!(out, 9);
        assert!(queue.is_empty());
    }
}

#[test]
fn default_buffer_has_no_storage() {
    let mut queue = RingBuffer::default();
    let mut out = 3;
    assert!(queue.is_empty());
    assert!(!queue.push(1));
    assert!(!queue.pop(&mut out));
    assert_eq!(out, 3);
}

#[test]
fn is_empty_follows_the_cursors() {
    let mut queue = RingBuffer::new(3);
    let mut out = 0;
    assert!(queue.is_empty());
    assert!(queue.push(1));
    assert!(!queue.is_empty());
    assert!(queue.push(2));
    assert!(!queue.is_empty());
    assert!(queue.pop(&mut out));
    assert!(!queue.is_empty());
    assert!(queue.pop(&mut out));
    assert!(queue.is_empty());
    // The cursors have met away from the first slot.
    assert!(queue.push(3));
    assert!(!queue.is_empty());
    assert!(queue.pop(&mut out));
    assert_eq!(out, 3);
    assert!(queue.is_empty());
}

#[test]
fn debug_output_names_the_type() {
    let queue = RingBuffer::new(2);
    let text = format!("{:?}", queue);
    assert!(text.contains("RingBuffer"));
}
