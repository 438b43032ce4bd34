use hibana_pico::port::host_queue::{
    BackendError, FrameOwned, HostQueueBackend, PAYLOAD_CAPACITY, QUEUE_CAPACITY, WakerState,
};

#[test]
fn host_backend_rejects_payloads_that_exceed_fixed_capacity() {
    let mut backend = HostQueueBackend::new();
    let payload = [7u8; PAYLOAD_CAPACITY + 1];
    let result = backend.enqueue_bytes(0, &payload);
    assert_eq!(result, Err(BackendError::PayloadTooLarge));
}

#[test]
fn host_backend_rejects_queue_overflow() {
    let mut backend = HostQueueBackend::new();
    for _ in 0..QUEUE_CAPACITY {
        backend.enqueue_bytes(0, &[1, 2, 3]).expect("room in queue");
    }
    assert_eq!(backend.enqueue_bytes(0, &[9]), Err(BackendError::QueueFull));
    assert_eq!(backend.queue_len(0), Ok(QUEUE_CAPACITY));
}

#[test]
fn frames_leave_in_order_and_a_requeued_frame_comes_first() {
    let mut backend = HostQueueBackend::new();
    backend.enqueue(1, FrameOwned::from_bytes(10, b"one").expect("frame")).expect("enqueue");
    backend.enqueue(1, FrameOwned::from_bytes(11, b"two").expect("frame")).expect("enqueue");
    assert_eq!(backend.peek_label(1), Ok(Some(10)));
    let first = backend.dequeue(1).expect("dequeue").expect("frame");
    assert_eq!(first.as_slice(), b"one");
    backend.requeue(1, first).expect("requeue");
    assert_eq!(backend.dequeue(1).expect("dequeue").expect("frame").as_slice(), b"one");
    assert_eq!(backend.dequeue(1).expect("dequeue").expect("frame").label(), 11);
    assert!(backend.dequeue(1).expect("dequeue").is_none());
    assert_eq!(backend.dequeue(4).map(|f| f.is_some()), Err(BackendError::RoleOutOfRange));
    assert_eq!(backend.peek_label(0), Ok(None));
}

#[test]
fn the_ring_wraps_around_its_capacity() {
    let mut backend = HostQueueBackend::new();
    for round in 0..3u8 {
        for i in 0..QUEUE_CAPACITY as u8 {
            backend.enqueue(2, FrameOwned::from_bytes(round * 16 + i, &[i]).expect("frame")).expect("enqueue");
        }
        for i in 0..QUEUE_CAPACITY as u8 {
            let frame = backend.dequeue(2).expect("dequeue").expect("frame");
            assert_eq!(frame.label(), round * 16 + i);
        }
    }
}

#[test]
fn a_parked_waker_is_taken_once() {
    let mut wakers: WakerState<u32> = WakerState::new();
    wakers.store(1, 5).expect("store");
    wakers.store(1, 6).expect("replace");
    assert_eq!(wakers.take(1), Ok(Some(6)));
    assert_eq!(wakers.take(1), Ok(None));
    assert_eq!(wakers.store(4, 1), Err(BackendError::RoleOutOfRange));
}
