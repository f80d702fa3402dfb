use ec_demo::ring_buffer::RingBuffer;

fn contents<const CAP: usize>(buffer: &RingBuffer<u32, CAP>) -> Vec<u32> {
    buffer.snapshot().into_iter().copied().collect()
}

#[test]
fn keeps_the_last_three_of_five() {
    let mut buffer: RingBuffer<u32, 3> = RingBuffer::new();
    for item in [1, 2, 3, 4, 5] {
        buffer.insert(item);
    }
    assert_eq!(contents(&buffer), vec![3, 4, 5]);
    assert_eq!(buffer.len(), 3);
}

#[test]
fn holds_everything_up_to_its_capacity() {
    let mut buffer: RingBuffer<u32, 4> = RingBuffer::new();
    assert!(buffer.is_empty());
    assert_eq!(buffer.capacity(), 4);
    assert_eq!(contents(&buffer), Vec::<u32>::new());
    for item in [7, 8, 9] {
        buffer.insert(item);
    }
    assert!(!buffer.is_empty());
    assert_eq!(contents(&buffer), vec![7, 8, 9]);
    buffer.insert(10);
    assert_eq!(contents(&buffer), vec![7, 8, 9, 10]);
    buffer.insert(11);
    assert_eq!(contents(&buffer), vec![8, 9, 10, 11]);
}

#[test]
fn snapshot_is_the_tail_of_what_was_inserted() {
    let items: Vec<u32> = (0..1000).collect();
    let mut buffer: RingBuffer<u32, 60> = RingBuffer::new();
    for (n, item) in items.iter().enumerate() {
        buffer.insert(*item);
        let held = (n + 1).min(60);
        assert_eq!(buffer.len(), held);
        assert_eq!(contents(&buffer), items[n + 1 - held..=n].to_vec());
    }
}

#[test]
fn get_counts_from_the_oldest() {
    let mut buffer: RingBuffer<u32, 2> = RingBuffer::new();
    assert_eq!(buffer.get(0), None);
    for item in [1, 2, 3] {
        buffer.insert(item);
    }
    assert_eq!(buffer.get(0), Some(&2));
    assert_eq!(buffer.get(1), Some(&3));
    assert_eq!(buffer.get(2), None);
}

#[test]
fn buffer_without_capacity_holds_nothing() {
    let mut buffer: RingBuffer<u32, 0> = RingBuffer::new();
    buffer.insert(1);
    buffer.insert(2);
    assert!(buffer.is_empty());
    assert_eq!(contents(&buffer), Vec::<u32>::new());
}

#[test]
fn buffer_of_one_holds_the_newest() {
    let mut buffer: RingBuffer<String, 1> = RingBuffer::new();
    buffer.insert("a".to_string());
    buffer.insert("b".to_string());
    let held: Vec<&String> = buffer.snapshot();
    assert_eq!(held, vec!["b"]);
}
