//! Tests for the playback state machine data, the state manager, the
//! statistics tracker and the position history.

use ccplayer::state::{PlaybackState, PlayerConfig, PlayerStateData, PlayerStateManager,
    PositionHistory, RepeatMode, StatsTracker};

#[test]
fn test_playback_state() {
    assert_ne!(PlaybackState::Idle, PlaybackState::Playing);
    assert_eq!(PlaybackState::Playing, PlaybackState::Playing);
}

#[test]
fn test_player_config_default() {
    let config = PlayerConfig::default();
    assert!(config.auto_play);
    assert!(!config.remember_position);
    assert_eq!(config.default_volume, 700_000);
    assert_eq!(config.seek_step, 10);
    assert_eq!(config.volume_step, 50_000);
}

#[test]
fn test_repeat_mode() {
    assert_ne!(RepeatMode::Off, RepeatMode::One);
    assert_ne!(RepeatMode::One, RepeatMode::All);
}

#[test]
fn test_player_state_default() {
    let state = PlayerStateData::default();
    assert_eq!(state.playback_state, PlaybackState::Idle);
    assert_eq!(state.volume, 700_000);
    assert_eq!(state.speed_permille, 1000);
    assert!(!state.muted);
    assert!(!state.fullscreen);
}

#[test]
fn test_stats_tracker() {
    let mut tracker = StatsTracker::new();

    tracker.start_playback(0);
    tracker.stop_playback(100_000);

    assert!(tracker.total_playback_us >= 100_000);

    tracker.update_frame_stats(1000, 5);
    let stats = tracker.to_playback_stats();
    assert_eq!(stats.frames_rendered, 1000);
    assert_eq!(stats.frames_dropped, 5);
}

#[test]
fn test_stats_tracker_bitrates() {
    let mut tracker = StatsTracker::new();
    tracker.add_bitrate_sample(1_000_000, 4000, 128);
    tracker.add_bitrate_sample(2_000_000, 6000, 192);
    let (video, audio) = tracker.get_average_bitrates();
    assert_eq!(video, 5000);
    assert_eq!(audio, 160);

    // samples older than a minute fall out of the window
    tracker.add_bitrate_sample(100_000_000, 1000, 100);
    let (video, audio) = tracker.get_average_bitrates();
    assert_eq!(video, 1000);
    assert_eq!(audio, 100);
}

#[test]
fn test_position_history() {
    let mut history = PositionHistory::new();

    // saving a mid-stream position keeps it
    history.save_position("test.mp4", 60_000_000, 120_000_000);
    assert_eq!(history.get_position("test.mp4"), Some(60_000_000));

    // near the beginning nothing is kept
    history.save_position("test2.mp4", 1_000_000, 120_000_000);
    assert_eq!(history.get_position("test2.mp4"), None);

    // near the end nothing is kept
    history.save_position("test3.mp4", 119_000_000, 120_000_000);
    assert_eq!(history.get_position("test3.mp4"), None);
}

#[test]
fn test_position_history_overwrite_and_clear() {
    let mut history = PositionHistory::new();
    history.save_position("a.mkv", 50_000_000, 100_000_000);
    history.save_position("a.mkv", 60_000_000, 100_000_000);
    assert_eq!(history.get_position("a.mkv"), Some(60_000_000));

    // finishing the stream clears the entry
    history.save_position("a.mkv", 99_000_000, 100_000_000);
    assert_eq!(history.get_position("a.mkv"), None);
}

#[test]
fn test_state_manager() {
    let config = PlayerConfig::default();
    let mut manager = PlayerStateManager::new(config);

    // volume
    manager.set_volume(500_000);
    assert_eq!(manager.get_state().volume, 500_000);

    // mute
    let volume = manager.toggle_mute();
    assert_eq!(volume, 0);
    assert!(manager.get_state().muted);

    let volume = manager.toggle_mute();
    assert_eq!(volume, 500_000);
    assert!(!manager.get_state().muted);

    // speed
    manager.set_speed(2000);
    assert_eq!(manager.get_state().speed_permille, 2000);

    // clamping at 4x
    manager.set_speed(5000);
    assert_eq!(manager.get_state().speed_permille, 4000);
}

#[test]
fn test_state_manager_errors() {
    let mut manager = PlayerStateManager::new(PlayerConfig::default());
    manager.set_error(Some("decoder gave up".to_string()));
    assert_eq!(manager.get_state().playback_state, PlaybackState::Error);
    assert!(manager.get_state().last_error.is_some());

    manager.set_error(None);
    // clearing the message does not resurrect playback by itself
    assert_eq!(manager.get_state().playback_state, PlaybackState::Error);
    assert!(manager.get_state().last_error.is_none());
}
