//! Tests for the A/V synchronization controller and clocks.

use ccplayer::sync::{AVSyncController, FrameAction, MasterClock, SyncAdjuster, SyncMode};

#[test]
fn test_sync_controller_creation() {
    let sync = AVSyncController::new();
    assert_eq!(sync.get_mode(), SyncMode::AudioMaster);
    assert_eq!(sync.master_clock.get_pts(), 0);
}

#[test]
fn test_frame_action_decision() {
    let mut sync = AVSyncController::new();
    sync.master_clock.set_pts(1_000_000); // 1 second

    // frame too late
    let action = sync.should_display_frame(950_000);
    assert!(matches!(action, FrameAction::Drop));

    // frame in sync
    let action = sync.should_display_frame(1_000_500);
    assert!(matches!(action, FrameAction::Display));

    // frame too early
    let action = sync.should_display_frame(1_100_000);
    assert!(matches!(action, FrameAction::Wait(_)));
}

#[test]
fn test_sync_thresholds_exact() {
    // the three-tier thresholds around a master clock at 1s:
    // late beyond 40 ms drops, early beyond 40 ms waits, within 1 ms
    // displays, anything else displays with an adjustment
    let mut sync = AVSyncController::new();
    sync.master_clock.set_pts(1_000_000);

    assert!(matches!(sync.should_display_frame(959_999), FrameAction::Drop));
    assert!(matches!(
        sync.should_display_frame(960_000),
        FrameAction::DisplayWithAdjustment(-40_000)
    ));
    assert!(matches!(
        sync.should_display_frame(999_000),
        FrameAction::DisplayWithAdjustment(-1_000)
    ));
    assert!(matches!(sync.should_display_frame(999_001), FrameAction::Display));
    assert!(matches!(sync.should_display_frame(1_000_999), FrameAction::Display));
    assert!(matches!(
        sync.should_display_frame(1_001_000),
        FrameAction::DisplayWithAdjustment(1_000)
    ));
    assert!(matches!(
        sync.should_display_frame(1_040_000),
        FrameAction::DisplayWithAdjustment(40_000)
    ));
    assert!(matches!(sync.should_display_frame(1_040_001), FrameAction::Wait(40_001)));
}

#[test]
fn test_sync_scenario_master_at_one_second() {
    // master clock at 1_000_000: PTS 950_000 drops, PTS 1_000_500
    // displays, PTS 1_100_000 waits approximately 100_000 us
    let mut sync = AVSyncController::new();
    sync.master_clock.set_pts(1_000_000);

    assert!(matches!(sync.should_display_frame(950_000), FrameAction::Drop));
    assert!(matches!(sync.should_display_frame(1_000_500), FrameAction::Display));
    match sync.should_display_frame(1_100_000) {
        FrameAction::Wait(us) => assert_eq!(us, 100_000),
        other => panic!("expected Wait, got {:?}", other),
    }
    assert_eq!(sync.get_stats().dropped_frames, 1);
}

#[test]
fn test_sync_stats() {
    let mut sync = AVSyncController::new();

    // update with some errors
    sync.update_sync_stats(5_000);
    sync.update_sync_stats(-3_000);
    sync.update_sync_stats(10_000);

    let stats = sync.get_stats();
    assert_eq!(stats.max_sync_error, 10_000);
    assert!(stats.avg_sync_error != 0);

    // the moving average follows (9 * avg + error) / 10 exactly:
    // 0 -> 500 -> 150 -> 1135
    assert_eq!(stats.avg_sync_error, 1135);
    assert_eq!(stats.sync_error, 10_000);
}

#[test]
fn test_master_clock_speed() {
    let mut clock = MasterClock::new();

    clock.set_speed(2000);
    assert_eq!(clock.get_speed(), 2000);

    clock.set_speed(500);
    assert_eq!(clock.get_speed(), 500);

    // clamping at 4x
    clock.set_speed(10_000);
    assert_eq!(clock.get_speed(), 4000);
}

#[test]
fn test_sync_adjuster() {
    let mut adjuster = SyncAdjuster::new();

    let adjustment = adjuster.calculate_adjustment(10_000);
    assert_eq!(adjustment, 10); // 10_000 * 0.001

    adjuster.set_speed(10_000);
    let adjustment = adjuster.calculate_adjustment(10_000);
    assert_eq!(adjustment, 100); // 10_000 * 0.01
}

#[test]
fn test_update_audio_drives_master_clock() {
    let mut sync = AVSyncController::new();
    sync.update_audio(123_456, 1024);
    assert_eq!(sync.master_clock.get_pts(), 123_456);

    // in a non-audio-master mode the master clock stands still
    sync.set_mode(SyncMode::FreeRunning);
    sync.update_audio(999_999, 1024);
    assert_eq!(sync.master_clock.get_pts(), 123_456);
}

#[test]
fn test_reset_clears_stats_and_clock() {
    let mut sync = AVSyncController::new();
    sync.master_clock.set_pts(500_000);
    let _ = sync.should_display_frame(100_000); // a drop
    assert!(sync.get_stats().dropped_frames > 0);

    sync.reset();
    let stats = sync.get_stats();
    assert_eq!(stats.dropped_frames, 0);
    assert_eq!(stats.sync_error, 0);
    assert_eq!(sync.master_clock.get_pts(), 0);
}
