use icarus::sensors::SensorBuffer;
use icarus::throttle::ThrottleControl;
use icarus::Throttle;

#[test]
fn ring_buffer_eviction_at_capacity() {
    let mut buffer: SensorBuffer<u32> = SensorBuffer::new(4);
    for item in [10, 11, 12, 13, 14] {
        buffer.push(item);
    }
    let window: Vec<u32> = buffer.iter().copied().collect();
    assert_eq!(window.len(), 4);
    assert_eq!(window[0], 11);
    assert_eq!(window, vec![11, 12, 13, 14]);
}

#[test]
fn ring_buffer_keeps_push_order() {
    let mut buffer: SensorBuffer<u32> = SensorBuffer::new(250);
    for item in 0..100 {
        buffer.push(item);
    }
    let window: Vec<u32> = buffer.iter().copied().collect();
    assert_eq!(window, (0..100).collect::<Vec<u32>>());
}

#[test]
fn ring_buffer_pop_returns_oldest() {
    let mut buffer: SensorBuffer<u32> = SensorBuffer::new(3);
    assert_eq!(buffer.pop(), None);
    buffer.push(1);
    buffer.push(2);
    assert_eq!(buffer.pop(), Some(1));
    assert_eq!(buffer.pop(), Some(2));
    assert_eq!(buffer.pop(), None);
}

#[test]
fn ring_buffer_zero_capacity_holds_nothing() {
    let mut buffer: SensorBuffer<u32> = SensorBuffer::new(0);
    buffer.push(7);
    assert_eq!(buffer.pop(), None);
    assert_eq!(buffer.iter().count(), 0);
}

#[test]
fn coalescing_dedups_consecutive_duplicates() {
    let mut control = ThrottleControl::default();
    let a = Throttle::new(0, 0, 0, 50);
    control.enqueue(a);
    control.enqueue(a);
    assert_eq!(control.dequeue(), Some(a));
    assert_eq!(control.dequeue(), None);
}

#[test]
fn coalescing_keeps_distinct_commands_in_order() {
    let mut control = ThrottleControl::default();
    let a = Throttle::new(0, 0, 0, 50);
    let b = Throttle::new(0, 0, 0, 75);
    control.enqueue(a);
    control.enqueue(a);
    control.enqueue(b);
    assert_eq!(control.dequeue(), Some(a));
    assert_eq!(control.dequeue(), Some(b));
    assert_eq!(control.dequeue(), None);
}

#[test]
fn last_reflects_deduplicated_enqueue() {
    let mut control = ThrottleControl::default();
    let a = Throttle::new(1, 2, 3, 4);
    control.enqueue(a);
    control.enqueue(a);
    assert_eq!(*control.last(), a);
    // Only one entry was queued, but last() still shows the command.
    assert_eq!(control.dequeue(), Some(a));
    assert_eq!(control.dequeue(), None);
    assert_eq!(*control.last(), a);
}

#[test]
fn first_enqueue_after_drain_is_not_deduplicated() {
    let mut control = ThrottleControl::default();
    let a = Throttle::new(5, 5, 5, 5);
    control.enqueue(a);
    assert_eq!(control.dequeue(), Some(a));
    // The queue is empty again: the same value is enqueued once more,
    // since dedup consults only the pending tail.
    control.enqueue(a);
    assert_eq!(control.dequeue(), Some(a));
}

#[test]
fn queue_full_of_distinct_commands_evicts_oldest() {
    let mut control = ThrottleControl::default();
    for v in [1i16, 2, 3, 4] {
        control.enqueue(Throttle::new(0, 0, 0, v));
    }
    // Capacity is three: the oldest pending command was evicted to make
    // room for the freshest one.
    assert_eq!(control.dequeue(), Some(Throttle::new(0, 0, 0, 2)));
    assert_eq!(control.dequeue(), Some(Throttle::new(0, 0, 0, 3)));
    assert_eq!(control.dequeue(), Some(Throttle::new(0, 0, 0, 4)));
    assert_eq!(control.dequeue(), None);
    assert_eq!(*control.last(), Throttle::new(0, 0, 0, 4));
}

#[test]
fn queue_full_duplicate_of_tail_still_dedups() {
    let mut control = ThrottleControl::default();
    for v in [1i16, 2, 3] {
        control.enqueue(Throttle::new(0, 0, 0, v));
    }
    control.enqueue(Throttle::new(0, 0, 0, 3));
    // Dedup wins over eviction: the duplicate was dropped, nothing was
    // evicted.
    assert_eq!(control.dequeue(), Some(Throttle::new(0, 0, 0, 1)));
    assert_eq!(control.dequeue(), Some(Throttle::new(0, 0, 0, 2)));
    assert_eq!(control.dequeue(), Some(Throttle::new(0, 0, 0, 3)));
    assert_eq!(control.dequeue(), None);
}

#[test]
fn default_last_command_is_neutral() {
    let control = ThrottleControl::default();
    assert_eq!(*control.last(), Throttle::default());
    assert_eq!(Throttle::default(), Throttle::new(0, 0, 0, 0));
}

#[test]
fn drain_empties_queue_in_order() {
    let mut control = ThrottleControl::default();
    let a = Throttle::new(0, 0, 0, 50);
    let b = Throttle::new(0, 0, 0, 75);
    control.enqueue(a);
    control.enqueue(b);
    assert_eq!(control.drain(), vec![a, b]);
    assert_eq!(control.dequeue(), None);
    assert_eq!(*control.last(), b);
}
