use std::time::Duration;
use tokio::sync::broadcast::error::TryRecvError;
use video_sync::queue::{action_after_send, QueueAction, TimedQueue, IDLE_POLL_MS};

#[test]
fn test_add_and_receive() {
    let mut queue = TimedQueue::new();
    let mut receiver = queue.subscribe().receiver;
    let delay = Duration::from_millis(50);

    queue.add(1, delay);
    queue.add(2, delay);

    assert_eq!(queue.process_queue(), QueueAction::Wait(Duration::from_millis(50)));
    assert_eq!(receiver.try_recv().unwrap(), 1);

    assert_eq!(queue.process_queue(), QueueAction::Wait(Duration::from_millis(50)));
    assert_eq!(receiver.try_recv().unwrap(), 2);
}

#[test]
fn test_empty_queue() {
    let mut queue: TimedQueue<i32> = TimedQueue::new();
    let mut receiver = queue.subscribe().receiver;

    assert_eq!(queue.process_queue(), QueueAction::Wait(Duration::from_millis(IDLE_POLL_MS)));
    assert_eq!(IDLE_POLL_MS, 100);
    assert!(matches!(receiver.try_recv(), Err(TryRecvError::Empty)));
}

#[test]
fn test_multiple_adds() {
    let mut queue = TimedQueue::new();
    let delay = Duration::from_millis(10);

    for i in 0..10 {
        queue.add(i, delay);
    }

    let mut receiver = queue.subscribe().receiver;
    for i in 0..10 {
        assert_eq!(queue.process_queue(), QueueAction::Wait(Duration::from_millis(10)));
        assert_eq!(receiver.try_recv().unwrap(), i);
    }
}

#[test]
fn test_timed_add() {
    let mut queue = TimedQueue::new();
    let delay = Duration::from_millis(100);

    queue.add(42, delay);
    let mut receiver = queue.subscribe().receiver;
    // The item goes out before its delay is waited, not after.
    let action = queue.process_queue();
    assert_eq!(receiver.try_recv().unwrap(), 42);
    assert_eq!(action, QueueAction::Wait(Duration::from_millis(100)));
}

#[test]
fn test_add_after_receive() {
    let mut queue = TimedQueue::new();
    let delay = Duration::from_millis(50);
    let mut receiver = queue.subscribe().receiver;

    queue.add(1, delay);
    queue.process_queue();
    assert_eq!(receiver.try_recv().unwrap(), 1);

    queue.add(2, delay);
    queue.process_queue();
    assert_eq!(receiver.try_recv().unwrap(), 2);
}

#[test]
fn each_item_waits_its_own_delay() {
    let mut queue = TimedQueue::new();
    let _receiver = queue.subscribe().receiver;
    queue.add("a", Duration::from_millis(30));
    queue.add("b", Duration::from_millis(70));
    queue.add("c", Duration::from_millis(0));
    assert_eq!(queue.process_queue(), QueueAction::Wait(Duration::from_millis(30)));
    assert_eq!(queue.process_queue(), QueueAction::Wait(Duration::from_millis(70)));
    assert_eq!(queue.process_queue(), QueueAction::Wait(Duration::from_millis(0)));
    assert_eq!(queue.process_queue(), QueueAction::Wait(Duration::from_millis(100)));
}

#[test]
fn worker_stops_without_receivers() {
    let mut queue = TimedQueue::new();
    queue.add(7u8, Duration::from_millis(50));
    queue.add(8u8, Duration::from_millis(50));
    assert_eq!(queue.process_queue(), QueueAction::Stop);
    // The refused item has left the queue; the next one is still there.
    let mut receiver = queue.subscribe().receiver;
    assert_eq!(queue.process_queue(), QueueAction::Wait(Duration::from_millis(50)));
    assert_eq!(receiver.try_recv().unwrap(), 8);
}

#[test]
fn fifo_across_interleaved_adds_and_steps() {
    let mut queue = TimedQueue::new();
    let mut receiver = queue.subscribe().receiver;
    queue.add(1, Duration::from_millis(5));
    queue.add(2, Duration::from_millis(5));
    queue.process_queue();
    queue.add(3, Duration::from_millis(5));
    queue.process_queue();
    queue.process_queue();
    assert_eq!(receiver.try_recv().unwrap(), 1);
    assert_eq!(receiver.try_recv().unwrap(), 2);
    assert_eq!(receiver.try_recv().unwrap(), 3);
    assert!(matches!(receiver.try_recv(), Err(TryRecvError::Empty)));
}

#[test]
fn action_after_send_values() {
    assert_eq!(action_after_send(true, Duration::from_millis(250)), QueueAction::Wait(Duration::from_millis(250)));
    assert_eq!(action_after_send(false, Duration::from_millis(250)), QueueAction::Stop);
}

#[test]
fn delays_keep_their_precision() {
    let mut queue = TimedQueue::new();
    let _receiver = queue.subscribe().receiver;
    queue.add('x', Duration::from_micros(1500));
    assert_eq!(queue.process_queue(), QueueAction::Wait(Duration::from_micros(1500)));
}
