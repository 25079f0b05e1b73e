use spsc_ring::RingBuffer;

#[test]
fn values_come_out_in_the_order_pushed() {
    let values = [17, -3, 0, 99, i32::MAX, i32::MIN, 5, 5, -1];
    let mut queue = RingBuffer::new(values.len() + 1);
    for value in values {
        assert!(queue.push(value));
    }
    let mut out = 0;
    for value in values {
        assert!(queue.pop(&mut out));
        assert_eq!(out, value);
    }
    assert!(!queue.pop(&mut out));
}

#[test]
fn order_is_kept_across_interleaved_pushes_and_pops() {
    let mut queue = RingBuffer::new(5);
    let mut out = 0;
    assert!(queue.push(1));
    assert!(queue.push(2));
    assert!(queue.pop(&mut out));
    assert_eq!(out, 1);
    assert!(queue.push(3));
    assert!(queue.push(4));
    assert!(queue.push(5));
    assert!(!queue.push(6));
    assert!(queue.pop(&mut out));
    assert_eq!(out, 2);
    assert!(queue.pop(&mut out));
    assert_eq!(out, 3);
    assert!(queue.push(6));
    assert!(queue.push(7));
    assert!(!queue.push(8));
    for expected in 4..=7 {
        assert!(queue.pop(&mut out));
        assert_eq!(out, expected);
    }
    assert!(!queue.pop(&mut out));
    assert_eq!(out, 7);
}

#[test]
fn at_most_capacity_minus_one_values_are_resident() {
    for capacity in 1..=33_usize {
        let mut queue = RingBuffer::new(capacity);
        for count in 1..capacity {
            assert!(queue.push(count as i32), "push {} of capacity {}", count, capacity);
        }
        assert!(!queue.push(-1), "push {} of capacity {}", capacity, capacity);
        assert!(!queue.push(-2));

        let mut out = 0;
        let mut resident = 0;
        while queue.pop(&mut out) {
            resident += 1;
            assert_eq!(out, resident as i32);
        }
        assert_eq!(resident, capacity - 1);
    }
}

#[test]
fn bound_holds_with_the_cursors_anywhere_in_the_ring() {
    let capacity = 6_usize;
    for offset in 0..capacity {
        let mut queue = RingBuffer::new(capacity);
        let mut out = 0;
        for _ in 0..offset {
            assert!(queue.push(0));
            assert!(queue.pop(&mut out));
        }
        for value in 0..(capacity as i32 - 1) {
            assert!(queue.push(value));
        }
        assert!(!queue.push(100));
        for value in 0..(capacity as i32 - 1) {
            assert!(queue.pop(&mut out));
            assert_eq!(out, value);
        }
        assert!(!queue.pop(&mut out));
    }
}

#[test]
fn full_and_empty_are_told_apart_over_wrap_cycles() {
    for capacity in [2_usize, 3, 4, 7, 16] {
        let mut queue = RingBuffer::new(capacity);
        let usable = capacity as i32 - 1;
        let mut out = -1;
        for cycle in 0..5 {
            // Behaves as a fresh buffer does.
            assert!(queue.is_empty());
            let before = out;
            assert!(!queue.pop(&mut out));
            assert_eq!(out, before);

            for slot in 0..usable {
                assert!(queue.push(cycle * 1000 + slot));
            }
            assert!(!queue.push(-5));
            assert!(!queue.is_empty());

            for slot in 0..usable {
                assert!(queue.pop(&mut out));
                assert_eq!(out, cycle * 1000 + slot);
            }
            assert!(!queue.pop(&mut out));
            assert_eq!(out, cycle * 1000 + usable - 1);
        }
    }
}

#[test]
fn a_million_values_survive_retries_on_both_sides() {
    let total = 1_000_000;
    let mut queue = RingBuffer::new(64);
    let mut to_push = 0;
    let mut expected = 0;
    let mut refused_pushes = 0_u64;
    let mut refused_pops = 0_u64;
    // A fixed pseudo-random schedule decides whose turn it is.
    let mut state = 0x2545_f491_u32;
    while expected < total {
        state = state.wrapping_mul(1_664_525).wrapping_add(1_013_904_223);
        let producer_turn = (state >> 16) % 3 != 0;
        if producer_turn && to_push < total {
            if queue.push(to_push) {
                to_push += 1;
            } else {
                refused_pushes += 1;
            }
        } else {
            let mut out = -1;
            if queue.pop(&mut out) {
                assert_eq!(out, expected);
                expected += 1;
            } else {
                assert_eq!(out, -1);
                refused_pops += 1;
            }
        }
    }
    assert_eq!(to_push, total);
    assert_eq!(expected, total);
    assert!(queue.is_empty());
    assert!(refused_pushes > 0);
    assert!(refused_pops > 0);
}
