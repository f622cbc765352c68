//! Tests for the presentation-side bounded queue and renderer checks.

use ccplayer::render_queue::FrameQueue;

#[test]
fn test_frame_queue() {
    let mut queue: FrameQueue<i32> = FrameQueue::new(3);

    assert!(queue.is_empty());
    assert_eq!(queue.len(), 0);

    queue.push(1).unwrap();
    queue.push(2).unwrap();
    queue.push(3).unwrap();

    assert!(queue.is_full());
    assert!(queue.push(4).is_err());

    assert_eq!(queue.pop(), Some(1));
    assert_eq!(queue.pop(), Some(2));
    assert_eq!(queue.peek(), Some(&3));
    assert_eq!(queue.pop(), Some(3));

    assert!(queue.is_empty());
}

#[test]
fn test_frame_queue_clear() {
    let mut queue: FrameQueue<u8> = FrameQueue::new(2);
    queue.push(9).unwrap();
    queue.clear();
    assert!(queue.is_empty());
    assert_eq!(queue.pop(), None);
}

#[test]
fn test_aspect_ratio_validation() {
    // aspect-ratio validation lives with the GPU renderer, which needs
    // a real window; nothing to check headlessly
}
