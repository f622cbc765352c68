//! Tests for the PTS-ordered frame queue and the pacing controller.

use ccplayer::frame::{FrameData, VideoFrame};
use ccplayer::frame_queue::{FramePresentation, FrameQueue, FrameTimingController};

fn create_test_frame(pts: i64) -> VideoFrame {
    VideoFrame {
        data: FrameData::Rgb { data: vec![0; 1920 * 1080 * 3], stride: 1920 * 3 },
        pts,
        duration: 16667, // ~60fps
        width: 1920,
        height: 1080,
        par_num: 1,
        par_den: 1,
    }
}

#[test]
fn test_frame_queue_basic() {
    let mut queue = FrameQueue::new(10);

    assert!(queue.is_empty());
    assert_eq!(queue.len(), 0);

    // add frames
    queue.push_frame(create_test_frame(0)).unwrap();
    queue.push_frame(create_test_frame(16667)).unwrap();
    queue.push_frame(create_test_frame(33334)).unwrap();

    assert_eq!(queue.len(), 3);
    assert!(!queue.is_empty());

    // pop frames
    let frame1 = queue.pop_frame().unwrap();
    assert_eq!(frame1.pts, 0);

    let frame2 = queue.pop_frame().unwrap();
    assert_eq!(frame2.pts, 16667);

    assert_eq!(queue.len(), 1);
}

#[test]
fn test_frame_queue_ordering() {
    let mut queue = FrameQueue::new(10);

    // add frames out of order
    queue.push_frame(create_test_frame(33334)).unwrap();
    queue.push_frame(create_test_frame(0)).unwrap();
    queue.push_frame(create_test_frame(16667)).unwrap();

    // they come out in PTS order
    assert_eq!(queue.pop_frame().unwrap().pts, 0);
    assert_eq!(queue.pop_frame().unwrap().pts, 16667);
    assert_eq!(queue.pop_frame().unwrap().pts, 33334);
}

#[test]
fn test_frame_queue_scenario_out_of_order() {
    // pushing PTS [5000, 1000, 3000] into an empty queue of capacity
    // 10 pops as 1000, 3000, 5000
    let mut queue = FrameQueue::new(10);
    queue.push_frame(create_test_frame(5000)).unwrap();
    queue.push_frame(create_test_frame(1000)).unwrap();
    queue.push_frame(create_test_frame(3000)).unwrap();

    assert_eq!(queue.pop_frame().unwrap().pts, 1000);
    assert_eq!(queue.pop_frame().unwrap().pts, 3000);
    assert_eq!(queue.pop_frame().unwrap().pts, 5000);
    assert!(queue.pop_frame().is_none());
}

#[test]
fn test_frame_queue_capacity() {
    let mut queue = FrameQueue::new(3);

    // fill the queue
    queue.push_frame(create_test_frame(0)).unwrap();
    queue.push_frame(create_test_frame(16667)).unwrap();
    queue.push_frame(create_test_frame(33334)).unwrap();

    assert!(queue.is_full());

    // one more frame evicts the oldest
    queue.push_frame(create_test_frame(50001)).unwrap();

    assert_eq!(queue.len(), 3);
    assert_eq!(queue.stats().frames_dropped, 1);

    // the first frame is now 16667 (0 was dropped)
    assert_eq!(queue.pop_frame().unwrap().pts, 16667);
}

#[test]
fn test_frame_queue_scenario_capacity_three() {
    // capacity 3; pushing 0, 16667, 33334 then 50001 retains
    // 16667, 33334, 50001 with one drop counted
    let mut queue = FrameQueue::new(3);
    queue.push_frame(create_test_frame(0)).unwrap();
    queue.push_frame(create_test_frame(16667)).unwrap();
    queue.push_frame(create_test_frame(33334)).unwrap();
    queue.push_frame(create_test_frame(50001)).unwrap();

    assert_eq!(queue.len(), 3);
    assert_eq!(queue.stats().frames_dropped, 1);
    assert_eq!(queue.pop_frame().unwrap().pts, 16667);
    assert_eq!(queue.pop_frame().unwrap().pts, 33334);
    assert_eq!(queue.pop_frame().unwrap().pts, 50001);
}

#[test]
fn test_frame_timing_controller() {
    let mut controller = FrameTimingController::new(60);

    let frame1 = create_test_frame(0);
    let frame2 = create_test_frame(16667);

    // the first frame always presents and anchors the clock
    assert_eq!(controller.should_present_frame(&frame1, 0), FramePresentation::Present);

    // a second frame immediately after has to wait
    match controller.should_present_frame(&frame2, 0) {
        FramePresentation::Wait(wait_us) => {
            assert!(wait_us / 1000 > 0);
        }
        other => panic!("expected Wait, got {:?}", other),
    }
}

#[test]
fn test_frame_timing_drop_when_late() {
    let mut controller = FrameTimingController::new(60);
    let frame1 = create_test_frame(0);
    // anchor at time 0
    assert_eq!(controller.should_present_frame(&frame1, 0), FramePresentation::Present);

    // 200 ms of wall time later, a frame stamped only 40 ms in is more
    // than the 50 ms drop threshold behind
    let late = create_test_frame(40_000);
    assert_eq!(controller.should_present_frame(&late, 200_000), FramePresentation::Drop);

    // a frame right at the expected position presents
    let on_time = create_test_frame(200_000);
    assert_eq!(
        controller.should_present_frame(&on_time, 200_000),
        FramePresentation::Present
    );
}

#[test]
fn test_pts_range() {
    let mut queue = FrameQueue::new(10);

    assert!(queue.pts_range().is_none());

    queue.push_frame(create_test_frame(1000)).unwrap();
    queue.push_frame(create_test_frame(2000)).unwrap();
    queue.push_frame(create_test_frame(3000)).unwrap();

    let range = queue.pts_range().unwrap();
    assert_eq!(range.0, 1000);
    assert_eq!(range.1, 3000);

    let duration = queue.buffered_duration();
    assert_eq!(duration, 2000);
}

#[test]
fn test_find_frame_by_pts() {
    let mut queue = FrameQueue::new(10);
    queue.push_frame(create_test_frame(1000)).unwrap();
    queue.push_frame(create_test_frame(2000)).unwrap();
    queue.push_frame(create_test_frame(3000)).unwrap();

    assert_eq!(queue.find_frame_by_pts(1900).unwrap().pts, 2000);
    assert_eq!(queue.find_frame_by_pts(0).unwrap().pts, 1000);
    assert_eq!(queue.find_frame_by_pts(10_000).unwrap().pts, 3000);
    // on a tie the earlier frame wins
    assert_eq!(queue.find_frame_by_pts(1500).unwrap().pts, 1000);
}

#[test]
fn test_drop_frames_before() {
    let mut queue = FrameQueue::new(10);
    queue.push_frame(create_test_frame(1000)).unwrap();
    queue.push_frame(create_test_frame(2000)).unwrap();
    queue.push_frame(create_test_frame(3000)).unwrap();

    queue.drop_frames_before(2500);
    assert_eq!(queue.len(), 1);
    assert_eq!(queue.pop_frame().unwrap().pts, 3000);
}
