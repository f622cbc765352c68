//! Tests for the audio formats, the audio clock and the device-feed
//! pipeline.

use ccplayer::audio::{AudioClock, AudioFormat, AudioPipeline, AudioPlaybackState,
    AudioProcessingOptions, AudioSamples, ChannelLayout, SampleFormat};
use ccplayer::ring::{AudioRingBuffer, RING_BUFFER_SIZE};

#[test]
fn test_audio_format_default() {
    let format = AudioFormat::default();
    assert_eq!(format.sample_rate, 48000);
    assert_eq!(format.channels, 2);
    assert_eq!(format.sample_format, SampleFormat::F32);
    assert_eq!(format.channel_layout, ChannelLayout::Stereo);
}

#[test]
fn test_channel_layout_count() {
    assert_eq!(ChannelLayout::Mono.channel_count(), 1);
    assert_eq!(ChannelLayout::Stereo.channel_count(), 2);
    assert_eq!(ChannelLayout::Surround51.channel_count(), 6);
    assert_eq!(ChannelLayout::Surround71.channel_count(), 8);
    assert_eq!(ChannelLayout::Custom(10).channel_count(), 10);
}

#[test]
fn test_audio_processing_options_default() {
    let options = AudioProcessingOptions::default();
    assert!(!options.normalize);
    assert_eq!(options.normalization_target_centi, -1400);
    assert!(!options.compress);
    assert_eq!(options.compression_ratio_milli, 2000);
    assert!(!options.equalizer);
    assert!(options.eq_bands.is_empty());
    assert_eq!(options.delay_ms, 0);
}

#[test]
fn test_audio_clock() {
    let mut clock = AudioClock::new();

    // initial state
    assert_eq!(clock.get_position(), 0);

    // one second of samples at 48 kHz is one second in microseconds
    clock.set_sample_rate(48000);
    clock.update_samples(48000);
    assert_eq!(clock.get_position(), 1_000_000);
}

#[test]
fn test_audio_clock_scenario_one_second() {
    // sample_rate 48000 and one update of 48000 frames gives exactly
    // 1_000_000 microseconds
    let mut clock = AudioClock::new();
    clock.set_sample_rate(48000);
    clock.update_samples(48000);
    assert_eq!(clock.get_position(), 1_000_000);

    clock.update_samples(24000);
    assert_eq!(clock.get_position(), 1_500_000);

    clock.reset();
    assert_eq!(clock.get_position(), 0);
}

#[test]
fn test_ring_buffer_drops_excess() {
    // writing more samples than free capacity drops the excess and
    // returns immediately
    let mut ring = AudioRingBuffer::new(4);
    let written = ring.write(&[1, 2, 3]);
    assert_eq!(written, 3);
    let written = ring.write(&[4, 5, 6]);
    assert_eq!(written, 1); // only one slot was free
    assert_eq!(ring.len(), 4);

    // what is buffered is exactly what fit, oldest first
    assert_eq!(ring.read(10), vec![1, 2, 3, 4]);
    assert!(ring.is_empty());
}

#[test]
fn test_pipeline_buffering_to_playing() {
    let format = AudioFormat::default();
    let mut pipeline = AudioPipeline::new(&format);
    assert!(!pipeline.is_playing());

    // a quarter of the ring must fill before playback starts
    let capacity = RING_BUFFER_SIZE * 2;
    let quarter = capacity / 4;
    let batch = AudioSamples {
        data: vec![0u32; quarter - 2],
        sample_count: (quarter - 2) / 2,
        channels: 2,
        sample_rate: 48000,
        pts: 0,
    };
    pipeline.play(&batch).unwrap();
    assert!(!pipeline.is_playing()); // still buffering

    let top_up = AudioSamples {
        data: vec![0u32; 4],
        sample_count: 2,
        channels: 2,
        sample_rate: 48000,
        pts: 1000,
    };
    pipeline.play(&top_up).unwrap();
    assert!(pipeline.is_playing());
}

#[test]
fn test_pipeline_rejects_mismatched_batches() {
    let format = AudioFormat::default();
    let mut pipeline = AudioPipeline::new(&format);

    let wrong_channels = AudioSamples {
        data: vec![0u32; 6],
        sample_count: 2,
        channels: 3,
        sample_rate: 48000,
        pts: 0,
    };
    assert!(pipeline.play(&wrong_channels).is_err());

    let wrong_rate = AudioSamples {
        data: vec![0u32; 4],
        sample_count: 2,
        channels: 2,
        sample_rate: 44100,
        pts: 0,
    };
    assert!(pipeline.play(&wrong_rate).is_err());
}

#[test]
fn test_pipeline_underrun_goes_buffering() {
    let format = AudioFormat::default();
    let mut pipeline = AudioPipeline::new(&format);

    // reach Playing with a quarter fill
    let quarter = RING_BUFFER_SIZE * 2 / 4;
    let batch = AudioSamples {
        data: vec![7u32; quarter],
        sample_count: quarter / 2,
        channels: 2,
        sample_rate: 48000,
        pts: 0,
    };
    pipeline.play(&batch).unwrap();
    assert!(pipeline.is_playing());

    // asking for more than is buffered underruns: silence, a counted
    // underrun, and a transition back to Buffering
    let rendered = pipeline.render(quarter + 1);
    assert!(rendered.silence);
    assert_eq!(pipeline.stats.underruns, 1);
    assert_eq!(pipeline.state, AudioPlaybackState::Buffering);

    // the buffered audio was not drained
    assert_eq!(pipeline.ring.len(), quarter);
}

#[test]
fn test_pipeline_render_plays_samples() {
    let format = AudioFormat::default();
    let mut pipeline = AudioPipeline::new(&format);

    let quarter = RING_BUFFER_SIZE * 2 / 4;
    let mut data = Vec::new();
    for i in 0..quarter {
        data.push(i as u32);
    }
    let batch = AudioSamples {
        data,
        sample_count: quarter / 2,
        channels: 2,
        sample_rate: 48000,
        pts: 0,
    };
    pipeline.play(&batch).unwrap();
    assert!(pipeline.is_playing());

    let rendered = pipeline.render(8);
    assert!(!rendered.silence);
    assert_eq!(rendered.samples, vec![0, 1, 2, 3, 4, 5, 6, 7]);
    assert_eq!(rendered.gains.len(), 8);
    // four frames of two channels advanced the clock
    assert_eq!(pipeline.clock.samples_played, 4);
}

#[test]
fn test_pipeline_stop_idempotent() {
    // stopping when already stopped is a no-op that leaves the state
    // Stopped and the buffer empty
    let format = AudioFormat::default();
    let mut pipeline = AudioPipeline::new(&format);

    let batch = AudioSamples {
        data: vec![1u32; 64],
        sample_count: 32,
        channels: 2,
        sample_rate: 48000,
        pts: 500,
    };
    pipeline.play(&batch).unwrap();
    assert!(pipeline.ring.len() > 0);

    pipeline.stop();
    assert_eq!(pipeline.state, AudioPlaybackState::Stopped);
    assert_eq!(pipeline.ring.len(), 0);
    assert_eq!(pipeline.clock.samples_played, 0);

    pipeline.stop();
    assert_eq!(pipeline.state, AudioPlaybackState::Stopped);
    assert_eq!(pipeline.ring.len(), 0);
    assert_eq!(pipeline.stats.underruns, 0);
}

#[test]
fn test_pipeline_pause_resume() {
    let format = AudioFormat::default();
    let mut pipeline = AudioPipeline::new(&format);

    let quarter = RING_BUFFER_SIZE * 2 / 4;
    let batch = AudioSamples {
        data: vec![3u32; quarter],
        sample_count: quarter / 2,
        channels: 2,
        sample_rate: 48000,
        pts: 0,
    };
    pipeline.play(&batch).unwrap();
    assert!(pipeline.is_playing());

    pipeline.pause();
    assert_eq!(pipeline.state, AudioPlaybackState::Paused);

    // paused pipelines output silence without draining the buffer
    let rendered = pipeline.render(4);
    assert!(rendered.silence);
    assert_eq!(pipeline.ring.len(), quarter);

    pipeline.resume();
    assert!(pipeline.is_playing());
}

#[test]
fn test_pipeline_latency_estimate() {
    let format = AudioFormat::default();
    let mut pipeline = AudioPipeline::new(&format);

    // empty buffer: only the fixed device estimate remains
    assert_eq!(pipeline.get_latency(), 10_000);

    // 4800 stereo frames at 48 kHz is 100 ms of audio
    let batch = AudioSamples {
        data: vec![0u32; 9600],
        sample_count: 4800,
        channels: 2,
        sample_rate: 48000,
        pts: 0,
    };
    pipeline.play(&batch).unwrap();
    assert_eq!(pipeline.get_latency(), 100_000 + 10_000);
}
