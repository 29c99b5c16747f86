use elusiv::queue::{RingQueue, commitment_queue_new, CommitmentHashRequest};
use elusiv::error::ElusivError;

const SIZE: usize = 7;

fn test_queue() -> RingQueue<u32> {
    RingQueue::new(SIZE, 0u32)
}

#[test]
fn test_persistent_fifo() {
    let mut queue = test_queue();

    for i in 1..SIZE {
        queue.enqueue(i as u32).unwrap();
        assert_eq!(1, queue.view_first().unwrap()); // first element does not change
        assert_eq!(queue.len(), i as u64);
    }
}

#[test]
fn test_max_size() {
    let mut full_queue = test_queue();
    for i in 1..SIZE {
        full_queue.enqueue(i as u32).unwrap();
    }
    assert!(matches!(full_queue.enqueue(1), Err(_)));
}

#[test]
fn test_ordering() {
    let mut queue = test_queue();

    for i in 1..SIZE {
        queue.enqueue(i as u32).unwrap();
    }

    for i in 1..SIZE {
        assert_eq!(i as u32, queue.view_first().unwrap());
        queue.dequeue_first().unwrap();
    }
    assert!(matches!(queue.dequeue_first(), Err(_)));
}

#[test]
fn test_queue_errors() {
    let mut queue = test_queue();
    assert_eq!(queue.dequeue_first(), Err(ElusivError::QueueIsEmpty));
    assert_eq!(queue.view_first(), Err(ElusivError::QueueIsEmpty));
    for i in 0..SIZE - 1 {
        queue.enqueue(i as u32).unwrap();
    }
    assert_eq!(queue.enqueue(99), Err(ElusivError::QueueIsFull));
}

#[test]
fn test_contains() {
    let mut queue = test_queue();
    assert!(!queue.contains(&3));
    queue.enqueue(1).unwrap();
    queue.enqueue(3).unwrap();
    assert!(queue.contains(&3));
    queue.dequeue_first().unwrap();
    assert!(queue.contains(&3));
    queue.dequeue_first().unwrap();
    assert!(!queue.contains(&3));
}

#[test]
fn test_contains_wraps_around() {
    let mut queue = test_queue();
    // Push the head and tail past the wrap point.
    for i in 0..SIZE - 1 {
        queue.enqueue(i as u32).unwrap();
    }
    for _ in 0..SIZE - 2 {
        queue.dequeue_first().unwrap();
    }
    queue.enqueue(41).unwrap();
    queue.enqueue(42).unwrap();
    assert!(queue.contains(&41));
    assert!(queue.contains(&42));
    assert!(!queue.contains(&0));
}

#[test]
fn test_commitment_queue_roundtrip() {
    let mut queue = commitment_queue_new();
    let a = CommitmentHashRequest { commitment: [1, 0, 0, 0], fee_version: 0, min_batching_rate: 1 };
    let b = CommitmentHashRequest { commitment: [2, 0, 0, 0], fee_version: 1, min_batching_rate: 0 };
    queue.enqueue(a).unwrap();
    queue.enqueue(b).unwrap();
    assert!(queue.contains(&a));
    assert_eq!(queue.dequeue_first().unwrap(), a);
    assert_eq!(queue.dequeue_first().unwrap(), b);
    assert!(queue.dequeue_first().is_err());
}
