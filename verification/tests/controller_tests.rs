//! Tests for the player controller's decision core.

use ccplayer::audio::AudioSamples;
use ccplayer::controller::{DecodeStep, PlayerCore, RenderAction};
use ccplayer::frame::{FrameData, VideoFrame};
use ccplayer::media::{MediaInfo, MediaMetadata};
use ccplayer::state::PlaybackState;
use ccplayer::controller::WindowOp;
use ccplayer::window::{Key, KeyModifiers, WindowEvent};

fn small_frame(pts: i64) -> VideoFrame {
    VideoFrame {
        data: FrameData::Rgb { data: vec![0; 12], stride: 12 },
        pts,
        duration: 16667,
        width: 2,
        height: 2,
        par_num: 1,
        par_den: 1,
    }
}

fn test_media() -> MediaInfo {
    MediaInfo {
        source: "test.mp4".to_string(),
        duration_us: 60_000_000,
        video_streams: vec![],
        audio_streams: vec![],
        subtitle_streams: vec![],
        format: "mp4".to_string(),
        file_size: None,
        bitrate: None,
        metadata: MediaMetadata::default(),
    }
}

#[test]
fn test_play_requires_media() {
    let mut core = PlayerCore::new();
    assert!(core.play().is_err()); // nothing loaded

    core.on_media_loaded(test_media());
    assert_eq!(core.get_state(), PlaybackState::Stopped);
    core.play().unwrap();
    assert_eq!(core.get_state(), PlaybackState::Playing);

    // playing again is a no-op
    core.play().unwrap();
    assert_eq!(core.get_state(), PlaybackState::Playing);
}

#[test]
fn test_pause_and_toggle() {
    let mut core = PlayerCore::new();
    core.on_media_loaded(test_media());
    core.play().unwrap();

    core.pause().unwrap();
    assert_eq!(core.get_state(), PlaybackState::Paused);

    core.toggle_play().unwrap();
    assert_eq!(core.get_state(), PlaybackState::Playing);
    core.toggle_play().unwrap();
    assert_eq!(core.get_state(), PlaybackState::Paused);
}

#[test]
fn test_stop_is_idempotent() {
    // stopping an already stopped player is a no-op that leaves the
    // state Stopped and the queues empty
    let mut core = PlayerCore::new();
    core.on_media_loaded(test_media());
    core.play().unwrap();
    let _ = core.on_video_decoded(Some(small_frame(1000)));
    core.on_audio_decoded(Some(AudioSamples {
        data: vec![0; 4],
        sample_count: 2,
        channels: 2,
        sample_rate: 48000,
        pts: 1000,
    }));

    core.stop().unwrap();
    assert_eq!(core.get_state(), PlaybackState::Stopped);
    assert_eq!(core.position(), 0);
    assert_eq!(core.video_queue.len(), 0);
    assert_eq!(core.audio_queue.len(), 0);

    core.stop().unwrap();
    assert_eq!(core.get_state(), PlaybackState::Stopped);
    assert_eq!(core.video_queue.len(), 0);
    assert_eq!(core.audio_queue.len(), 0);
}

#[test]
fn test_seek_clears_queues() {
    let mut core = PlayerCore::new();
    core.on_media_loaded(test_media());
    core.play().unwrap();
    let _ = core.on_video_decoded(Some(small_frame(1000)));
    core.av_sync.master_clock.set_pts(500_000);

    core.seek(30_000_000).unwrap();
    assert_eq!(core.position(), 30_000_000);
    assert_eq!(core.video_queue.len(), 0);
    assert_eq!(core.audio_queue.len(), 0);
    // the sync controller was reset
    assert_eq!(core.av_sync.master_clock.get_pts(), 0);
}

#[test]
fn test_seek_relative_clamps_at_zero() {
    let mut core = PlayerCore::new();
    core.on_media_loaded(test_media());
    core.seek(5_000_000).unwrap();
    core.seek_relative(-10).unwrap();
    assert_eq!(core.position(), 0);

    core.seek_relative(42).unwrap();
    assert_eq!(core.position(), 42_000_000);
}

#[test]
fn test_set_speed_bounds() {
    let mut core = PlayerCore::new();
    assert!(core.set_speed(0).is_err());
    assert!(core.set_speed(4001).is_err());
    core.set_speed(2000).unwrap();
    assert_eq!(core.speed(), 2000);
}

#[test]
fn test_set_volume_and_mute() {
    let mut core = PlayerCore::new();
    assert_eq!(core.set_volume(500_000), 500_000);
    assert_eq!(core.set_volume(2_000_000), 1_000_000); // clamped to unity

    let effective = core.toggle_mute();
    assert_eq!(effective, 0);
    assert!(core.is_muted());
    let effective = core.toggle_mute();
    assert_eq!(effective, 1_000_000);
}

#[test]
fn test_decode_step_backpressure() {
    let mut core = PlayerCore::new();
    core.on_media_loaded(test_media());

    // not running yet
    assert_eq!(core.decode_step(), DecodeStep::Exit);

    core.play().unwrap();
    assert_eq!(core.decode_step(), DecodeStep::Work { video: true, audio: true });

    core.pause().unwrap();
    assert_eq!(core.decode_step(), DecodeStep::Sleep);

    core.toggle_play().unwrap();
    // fill the audio queue to its depth bound: audio decoding stops
    for i in 0..100 {
        core.on_audio_decoded(Some(AudioSamples {
            data: vec![0; 2],
            sample_count: 1,
            channels: 2,
            sample_rate: 48000,
            pts: i,
        }));
    }
    assert_eq!(core.decode_step(), DecodeStep::Work { video: true, audio: false });
}

#[test]
fn test_audio_step_drives_clock() {
    let mut core = PlayerCore::new();
    core.on_media_loaded(test_media());
    core.play().unwrap();

    assert!(core.audio_step().is_none());

    core.on_audio_decoded(Some(AudioSamples {
        data: vec![0; 4],
        sample_count: 2,
        channels: 2,
        sample_rate: 48000,
        pts: 777_000,
    }));
    let batch = core.audio_step().unwrap();
    assert_eq!(batch.pts, 777_000);
    assert_eq!(core.position(), 777_000);
    // audio is the master clock by default
    assert_eq!(core.av_sync.master_clock.get_pts(), 777_000);
}

#[test]
fn test_render_step_actions() {
    let mut core = PlayerCore::new();
    core.on_media_loaded(test_media());
    core.play().unwrap();
    core.av_sync.master_clock.set_pts(1_000_000);

    // a late frame is dropped and the loop catches up
    let _ = core.on_video_decoded(Some(small_frame(900_000)));
    match core.render_step() {
        RenderAction::Dropped => {}
        other => panic!("expected Dropped, got {:?}", other),
    }
    assert_eq!(core.frames_dropped, 1);

    // an in-sync frame renders
    let _ = core.on_video_decoded(Some(small_frame(1_000_200)));
    match core.render_step() {
        RenderAction::Render(f) => assert_eq!(f.pts, 1_000_200),
        other => panic!("expected Render, got {:?}", other),
    }
    assert_eq!(core.frames_rendered, 1);

    // an early frame waits and stays queued
    let _ = core.on_video_decoded(Some(small_frame(1_100_000)));
    match core.render_step() {
        RenderAction::Wait(us) => assert_eq!(us, 100_000),
        other => panic!("expected Wait, got {:?}", other),
    }
    assert_eq!(core.video_queue.len(), 1);
}

#[test]
fn test_render_step_repeats_on_starvation() {
    let mut core = PlayerCore::new();
    core.on_media_loaded(test_media());
    core.play().unwrap();
    core.av_sync.master_clock.set_pts(1_000_000);

    // display one frame so the video clock has a last PTS
    let _ = core.on_video_decoded(Some(small_frame(1_000_100)));
    match core.render_step() {
        RenderAction::Render(_) => {}
        other => panic!("expected Render, got {:?}", other),
    }

    // starved queue while playing: re-present the previous frame
    match core.render_step() {
        RenderAction::Repeat => {}
        other => panic!("expected Repeat, got {:?}", other),
    }
    assert_eq!(core.av_sync.video_clock.repeated_frames, 1);
}

#[test]
fn test_end_of_stream() {
    let mut core = PlayerCore::new();
    core.on_media_loaded(test_media());
    core.play().unwrap();

    let ended = core.on_video_decoded(None);
    assert!(ended);
    assert_eq!(core.get_state(), PlaybackState::Ended);
}

#[test]
fn test_handle_event_keys() {
    let mut core = PlayerCore::new();
    core.on_media_loaded(test_media());

    // space toggles playback
    core.handle_event(WindowEvent::KeyPressed {
        key: Key::Space,
        modifiers: KeyModifiers::default(),
    })
    .unwrap();
    assert_eq!(core.get_state(), PlaybackState::Playing);

    // F toggles fullscreen
    core.handle_event(WindowEvent::KeyPressed {
        key: Key::F,
        modifiers: KeyModifiers::default(),
    })
    .unwrap();
    assert!(core.is_fullscreen());

    // escape leaves fullscreen
    core.handle_event(WindowEvent::KeyPressed {
        key: Key::Escape,
        modifiers: KeyModifiers::default(),
    })
    .unwrap();
    assert!(!core.is_fullscreen());

    // volume up by one step from the default 700_000
    core.handle_event(WindowEvent::KeyPressed {
        key: Key::Up,
        modifiers: KeyModifiers::default(),
    })
    .unwrap();
    assert_eq!(core.get_volume(), 750_000);

    // seek right by the configured 10 s step
    core.handle_event(WindowEvent::KeyPressed {
        key: Key::Right,
        modifiers: KeyModifiers::default(),
    })
    .unwrap();
    assert_eq!(core.position(), 10_000_000);

    // plus speeds up by a tenth
    core.handle_event(WindowEvent::KeyPressed {
        key: Key::Plus,
        modifiers: KeyModifiers::default(),
    })
    .unwrap();
    assert_eq!(core.speed(), 1100);

    // ctrl-Q stops everything
    let ctrl = KeyModifiers { ctrl: true, ..KeyModifiers::default() };
    core.handle_event(WindowEvent::KeyPressed { key: Key::Q, modifiers: ctrl }).unwrap();
    assert_eq!(core.get_state(), PlaybackState::Stopped);
    assert!(!core.running);

    // a dropped file asks the embedder to open it
    match core
        .handle_event(WindowEvent::FilesDropped { paths: vec!["a.mkv".to_string()] })
        .unwrap()
    {
        WindowOp::Open(p) => assert_eq!(p, "a.mkv"),
        other => panic!("expected Open, got {:?}", other),
    }
}

#[test]
fn test_handle_event_wheel() {
    let mut core = PlayerCore::new();
    // one notch down at the default 50_000 step
    core.handle_event(WindowEvent::MouseWheel { delta_milli: -1000 }).unwrap();
    assert_eq!(core.get_volume(), 650_000);
    // a huge scroll up clamps at unity
    core.handle_event(WindowEvent::MouseWheel { delta_milli: 20_000 }).unwrap();
    assert_eq!(core.get_volume(), 1_000_000);
}
