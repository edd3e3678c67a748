use peoplebot::queue::{ConfigError, DownloadQueue, EnqueueError};

#[test]
fn rejects_zero_concurrency() {
    let q = DownloadQueue::<u32>::new(0, None);
    assert!(matches!(q, Err(ConfigError::ZeroConcurrency)));
}

#[test]
fn rejects_zero_queue_depth() {
    let q = DownloadQueue::<u32>::new(2, Some(0));
    assert!(matches!(q, Err(ConfigError::ZeroQueueDepth)));
}

#[test]
fn try_enqueue_full_exactly_at_capacity() {
    let mut q = DownloadQueue::new(1, Some(2)).unwrap();
    assert!(q.try_enqueue(1u32).is_ok());
    assert!(q.has_room());
    assert!(q.try_enqueue(2u32).is_ok());
    assert!(!q.has_room());
    match q.try_enqueue(3u32) {
        Err(EnqueueError::QueueFull(j)) => assert_eq!(j, 3),
        _ => panic!("expected QueueFull"),
    }
    assert_eq!(q.pending_len(), 2);
    // a dispatch frees room for the refused job
    assert_eq!(q.dispatch(), Some(1));
    assert!(q.try_enqueue(3u32).is_ok());
    assert_eq!(q.pending_len(), 2);
}

#[test]
fn unbounded_queue_never_full() {
    let mut q = DownloadQueue::new(1, None).unwrap();
    for i in 0..1000u32 {
        assert!(q.try_enqueue(i).is_ok());
    }
    assert_eq!(q.pending_len(), 1000);
}

#[test]
fn concurrency_one_runs_jobs_in_order() {
    let mut q = DownloadQueue::new(1, None).unwrap();
    q.try_enqueue("A").unwrap();
    q.try_enqueue("B").unwrap();
    assert_eq!(q.dispatch(), Some("A"));
    // B may not start while A runs
    assert_eq!(q.dispatch(), None);
    assert_eq!(q.running(), 1);
    q.complete();
    assert_eq!(q.dispatch(), Some("B"));
    assert_eq!(q.running(), 1);
}

#[test]
fn running_never_exceeds_limit() {
    let mut q = DownloadQueue::new(3, None).unwrap();
    for i in 0..10u32 {
        q.try_enqueue(i).unwrap();
    }
    let mut started = Vec::new();
    while let Some(j) = q.dispatch() {
        started.push(j);
    }
    assert_eq!(started, vec![0, 1, 2]);
    assert_eq!(q.running(), 3);
    q.complete();
    assert_eq!(q.dispatch(), Some(3));
    assert_eq!(q.dispatch(), None);
    assert!(q.running() <= 3);
}

#[test]
fn shutdown_drops_buffered_and_keeps_running() {
    let mut q = DownloadQueue::new(1, Some(5)).unwrap();
    q.try_enqueue(1u32).unwrap();
    q.try_enqueue(2u32).unwrap();
    q.try_enqueue(3u32).unwrap();
    assert_eq!(q.dispatch(), Some(1));
    q.shutdown();
    assert!(q.is_closed());
    assert_eq!(q.pending_len(), 0);
    assert_eq!(q.running(), 1);
    assert!(!q.is_drained());
    q.complete();
    assert_eq!(q.dispatch(), None);
    assert!(q.is_drained());
    match q.try_enqueue(4u32) {
        Err(EnqueueError::QueueClosed(j)) => assert_eq!(j, 4),
        _ => panic!("expected QueueClosed"),
    }
}
