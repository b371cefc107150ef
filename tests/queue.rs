use video_relay::chunk::build_video_chunks;
use video_relay::queue::{BoundedQueue, PopOutcome, PushError};

#[test]
fn queue_refuses_when_full() {
    let mut q = BoundedQueue::new(2);
    assert!(q.push(1).is_ok());
    assert!(q.push(2).is_ok());
    assert!(matches!(q.push(3), Err(PushError::Full(3))));
    assert_eq!(q.len(), 2);
}

#[test]
fn queue_is_fifo() {
    let mut q = BoundedQueue::new(8);
    for i in 0..5 {
        assert!(q.push(i).is_ok());
    }
    for i in 0..5 {
        assert!(matches!(q.pop(), PopOutcome::Item(x) if x == i));
    }
    assert!(matches!(q.pop(), PopOutcome::Empty));
}

#[test]
fn closed_queue_drains_then_reports_closed() {
    let mut q = BoundedQueue::new(3);
    assert!(q.push(10).is_ok());
    q.close();
    assert!(matches!(q.push(11), Err(PushError::Closed(11))));
    assert!(matches!(q.pop(), PopOutcome::Item(10)));
    assert!(matches!(q.pop(), PopOutcome::Closed));
}

#[test]
fn closing_twice_changes_nothing() {
    let mut q = BoundedQueue::new(3);
    assert!(q.push(1).is_ok());
    q.close();
    q.close();
    assert!(q.is_closed_now());
    assert_eq!(q.len(), 1);
    assert!(matches!(q.pop(), PopOutcome::Item(1)));
    assert!(matches!(q.pop(), PopOutcome::Closed));
    assert!(matches!(q.pop(), PopOutcome::Closed));
}

#[test]
fn chunks_pass_through_queue_in_order_within_capacity() {
    let chunks = build_video_chunks("f", (0..20u8).collect(), 3);
    let mut q = BoundedQueue::new(2);
    let mut pending = chunks.into_iter();
    let mut seen = Vec::new();
    let mut next = pending.next();
    loop {
        while let Some(c) = next.take() {
            match q.push(c) {
                Ok(()) => next = pending.next(),
                Err(PushError::Full(c)) => {
                    next = Some(c);
                    break;
                }
                Err(PushError::Closed(_)) => unreachable!(),
            }
        }
        assert!(q.len() <= 2);
        if next.is_none() {
            q.close();
        }
        match q.pop() {
            PopOutcome::Item(c) => seen.push(c.chunk_index),
            PopOutcome::Empty => {}
            PopOutcome::Closed => break,
        }
    }
    assert_eq!(seen, (0..7).collect::<Vec<i32>>());
}
