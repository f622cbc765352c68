//! Audio output pipeline: formats, devices, the audio clock and the
//! device-feed state machine (ring buffer, volume ramp and playback
//! states) that the realtime callback drains.
//!
//! Raw samples are opaque 32-bit words (`f32` bit patterns); the
//! embedder converts at the device boundary and multiplies the gains
//! this pipeline computes into the sample stream.

use vstd::prelude::*;
use vstd::string::StringExecFns;
use crate::error::{CCPlayerError, Result};
use crate::ring::{AudioRingBuffer, RING_BUFFER_SIZE};
use crate::volume::{VolumeControl, vc_steps, lemma_vc_steps_snoc};

verus! {

/// Minimum buffer fill before playback starts, in permille (25%).
pub const MIN_FILL_PERMILLE: u32 = 250;

/// Target buffer fill level, in permille (50%).
pub const TARGET_FILL_PERMILLE: u32 = 500;

/// Conservative estimate of the device's own latency, in microseconds.
pub const DEVICE_LATENCY_US: i64 = 10_000;

/// Audio sample format.
#[derive(Clone, Copy, Debug, PartialEq, Eq, Structural)]
pub enum SampleFormat {
    /// 8-bit unsigned integer.
    U8,
    /// 16-bit signed integer.
    I16,
    /// 24-bit signed integer.
    I24,
    /// 32-bit signed integer.
    I32,
    /// 32-bit floating point.
    F32,
    /// 64-bit floating point.
    F64,
}

/// Channel layout.
#[derive(Clone, Copy, Debug, PartialEq, Eq, Structural)]
pub enum ChannelLayout {
    /// Mono (1 channel).
    Mono,
    /// Stereo (2 channels).
    Stereo,
    /// 2.1 (3 channels).
    Surround21,
    /// 5.1 (6 channels).
    Surround51,
    /// 7.1 (8 channels).
    Surround71,
    /// Custom channel count.
    Custom(u16),
}

/// The number of channels of a layout.
pub open spec fn layout_channels(l: ChannelLayout) -> u16 {
    match l {
        ChannelLayout::Mono => 1,
        ChannelLayout::Stereo => 2,
        ChannelLayout::Surround21 => 3,
        ChannelLayout::Surround51 => 6,
        ChannelLayout::Surround71 => 8,
        ChannelLayout::Custom(count) => count,
    }
}

impl ChannelLayout {
    /// Get the number of channels for this layout.
    pub fn channel_count(&self) -> (r: u16)
        ensures
            r == layout_channels(*self),
    {
        match self {
            ChannelLayout::Mono => 1,
            ChannelLayout::Stereo => 2,
            ChannelLayout::Surround21 => 3,
            ChannelLayout::Surround51 => 6,
            ChannelLayout::Surround71 => 8,
            ChannelLayout::Custom(count) => *count,
        }
    }
}

/// Audio format specification.
#[derive(Clone, Copy, Debug, PartialEq, Eq, Structural)]
pub struct AudioFormat {
    /// Sample rate in Hz.
    pub sample_rate: u32,
    /// Number of channels.
    pub channels: u16,
    /// Sample format.
    pub sample_format: SampleFormat,
    /// Channel layout.
    pub channel_layout: ChannelLayout,
}

impl Default for AudioFormat {
    /// 48 kHz stereo float.
    fn default() -> (r: Self)
        ensures
            r == (AudioFormat {
                sample_rate: 48000u32,
                channels: 2u16,
                sample_format: SampleFormat::F32,
                channel_layout: ChannelLayout::Stereo,
            }),
    {
        AudioFormat {
            sample_rate: 48000,
            channels: 2,
            sample_format: SampleFormat::F32,
            channel_layout: ChannelLayout::Stereo,
        }
    }
}

/// Audio device type.
#[derive(Clone, Copy, Debug, PartialEq, Eq, Structural)]
pub enum AudioDeviceType {
    /// Built-in speakers.
    Speakers,
    /// Headphones.
    Headphones,
    /// HDMI output.
    Hdmi,
    /// Digital output (S/PDIF, etc.).
    Digital,
    /// Bluetooth device.
    Bluetooth,
    /// USB audio device.
    Usb,
    /// Virtual device.
    Virtual,
    /// Unknown type.
    Unknown,
}

/// Audio device information.
#[derive(Clone, Debug)]
pub struct AudioDevice {
    /// Device name.
    pub name: String,
    /// Device ID.
    pub id: String,
    /// Whether this is the default device.
    pub is_default: bool,
    /// Supported sample rates.
    pub sample_rates: Vec<u32>,
    /// Maximum channels.
    pub max_channels: u16,
    /// Device type.
    pub device_type: AudioDeviceType,
}

/// Audio processing options. Levels are fixed-point: LUFS in
/// hundredths, ratios in thousandths, equalizer gains in thousandths
/// of a decibel.
#[derive(Clone, Debug)]
pub struct AudioProcessingOptions {
    /// Enable volume normalization.
    pub normalize: bool,
    /// Target normalization level, hundredths of a LUFS.
    pub normalization_target_centi: i32,
    /// Enable dynamic range compression.
    pub compress: bool,
    /// Compression ratio in thousandths.
    pub compression_ratio_milli: u32,
    /// Enable equalizer.
    pub equalizer: bool,
    /// Equalizer bands: (frequency in Hz, gain in milli-dB).
    pub eq_bands: Vec<(u32, i32)>,
    /// Audio delay in milliseconds (for sync adjustment).
    pub delay_ms: i32,
}

impl Default for AudioProcessingOptions {
    fn default() -> (r: Self)
        ensures
            !r.normalize,
            r.normalization_target_centi == -1400,
            !r.compress,
            r.compression_ratio_milli == 2000,
            !r.equalizer,
            r.eq_bands@.len() == 0,
            r.delay_ms == 0,
    {
        AudioProcessingOptions {
            normalize: false,
            normalization_target_centi: -1400,  // -14 LUFS, standard for streaming
            compress: false,
            compression_ratio_milli: 2000,
            equalizer: false,
            eq_bands: Vec::new(),
            delay_ms: 0,
        }
    }
}

/// Audio statistics for monitoring. Levels are in thousandths.
#[derive(Clone, Copy, Debug, PartialEq, Eq, Structural)]
pub struct AudioStats {
    /// Buffer underruns.
    pub underruns: u64,
    /// Total sample frames played.
    pub samples_played: u64,
    /// Current sample rate.
    pub sample_rate: u32,
    /// Current bit depth.
    pub bit_depth: u32,
    /// Peak level in thousandths (0 to 1000).
    pub peak_level_milli: u32,
    /// RMS level in thousandths (0 to 1000).
    pub rms_level_milli: u32,
}

impl AudioStats {
    pub open spec fn zeroed() -> Self {
        AudioStats {
            underruns: 0,
            samples_played: 0,
            sample_rate: 0,
            bit_depth: 0,
            peak_level_milli: 0,
            rms_level_milli: 0,
        }
    }
}

impl Default for AudioStats {
    fn default() -> (r: Self)
        ensures
            r == AudioStats::zeroed(),
    {
        AudioStats {
            underruns: 0,
            samples_played: 0,
            sample_rate: 0,
            bit_depth: 0,
            peak_level_milli: 0,
            rms_level_milli: 0,
        }
    }
}

/// Audio event callbacks.
pub trait AudioEventHandler {
    /// Called when the audio device changes.
    fn on_device_change(&mut self, device: &AudioDevice);

    /// Called when the audio format changes.
    fn on_format_change(&mut self, format: &AudioFormat);

    /// Called on buffer underrun.
    fn on_underrun(&mut self);

    /// Called when playback ends.
    fn on_playback_end(&mut self);
}

/// Audio samples from the decoder: interleaved sample words with their
/// presentation timestamp.
#[derive(Clone, Debug)]
pub struct AudioSamples {
    /// Sample data, interleaved if multi-channel; each word is the bit
    /// pattern of one sample.
    pub data: Vec<u32>,
    /// Number of sample frames per channel.
    pub sample_count: usize,
    /// Number of channels.
    pub channels: usize,
    /// Sample rate.
    pub sample_rate: u32,
    /// Presentation timestamp in microseconds.
    pub pts: i64,
}

/// Audio clock for A/V synchronization: a pure function of how many
/// sample frames have been played at which rate.
#[derive(Clone, Copy, Debug, PartialEq, Eq, Structural)]
pub struct AudioClock {
    /// Sample rate in frames per second.
    pub sample_rate: u64,
    /// Total sample frames played.
    pub samples_played: u64,
    /// Current PTS (presentation timestamp of the newest batch).
    pub current_pts: i64,
}

/// Playback position in microseconds: `samples * 1_000_000 / rate`,
/// zero for an unset rate, saturating at `i64::MAX`.
pub open spec fn clock_position(samples: nat, rate: nat) -> int {
    if rate == 0 {
        0
    } else if samples * 1_000_000 / rate > i64::MAX {
        i64::MAX as int
    } else {
        (samples * 1_000_000 / rate) as int
    }
}

impl AudioClock {
    pub fn new() -> (r: Self)
        ensures
            r.sample_rate == 48000,
            r.samples_played == 0,
            r.current_pts == 0,
    {
        AudioClock { sample_rate: 48000, samples_played: 0, current_pts: 0 }
    }

    /// Account `samples` more played sample frames (saturating).
    pub fn update_samples(&mut self, samples: u64)
        ensures
            final(self).samples_played == (
                if old(self).samples_played + samples > u64::MAX {
                    u64::MAX as int
                } else {
                    old(self).samples_played + samples
                }
            ),
            final(self).sample_rate == old(self).sample_rate,
            final(self).current_pts == old(self).current_pts,
    {
        if self.samples_played <= u64::MAX - samples {
            self.samples_played = self.samples_played + samples;
        } else {
            self.samples_played = u64::MAX;
        }
    }

    /// Current playback position in microseconds.
    pub fn get_position(&self) -> (r: i64)
        ensures
            r == clock_position(self.samples_played as nat, self.sample_rate as nat),
    {
        if self.sample_rate == 0 {
            return 0;
        }
        let q: u128 = ((self.samples_played as u128) * 1_000_000) / (self.sample_rate as u128);
        if q > i64::MAX as u128 {
            i64::MAX
        } else {
            q as i64
        }
    }

    /// Set the clock's sample rate.
    pub fn set_sample_rate(&mut self, rate: u64)
        ensures
            *final(self) == (AudioClock { sample_rate: rate, ..*old(self) }),
    {
        self.sample_rate = rate;
    }

    /// Reset position and timestamps.
    pub fn reset(&mut self)
        ensures
            *final(self) == (AudioClock {
                samples_played: 0u64,
                current_pts: 0i64,
                ..*old(self)
            }),
    {
        self.samples_played = 0;
        self.current_pts = 0;
    }
}

/// Playback state of the audio side.
#[derive(Clone, Copy, Debug, PartialEq, Eq, Structural)]
pub enum AudioPlaybackState {
    Stopped,
    Playing,
    Paused,
    Buffering,
}

/// Everything observable about the device-feed pipeline, as one
/// mathematical value.
#[verifier::ext_equal]
pub struct PipelineModel {
    /// Buffered sample words, oldest first.
    pub buffered: Seq<u32>,
    /// Ring capacity in samples.
    pub capacity: nat,
    /// Playback state.
    pub state: AudioPlaybackState,
    /// Volume ramp state.
    pub volume: VolumeControl,
    /// Clock state.
    pub clock: AudioClock,
    /// Statistics.
    pub stats: AudioStats,
    /// Channel count.
    pub channels: u16,
    /// Sample rate in Hz.
    pub sample_rate: u32,
}

/// What `stop` leaves behind: everything cleared, configuration kept.
pub open spec fn stop_model(m: PipelineModel) -> PipelineModel {
    PipelineModel {
        buffered: Seq::empty(),
        state: AudioPlaybackState::Stopped,
        clock: AudioClock { samples_played: 0, current_pts: 0, ..m.clock },
        stats: AudioStats { underruns: 0, ..m.stats },
        ..m
    }
}

/// Law (idempotent stop): stopping an already stopped pipeline changes
/// nothing — the state stays `Stopped` and the buffer stays empty.
pub proof fn lemma_stop_idempotent(m: PipelineModel)
    ensures
        stop_model(stop_model(m)) == stop_model(m),
{
    assert(stop_model(stop_model(m)).buffered =~= stop_model(m).buffered);
}

/// What one `render` call hands the device callback.
pub struct RenderedAudio {
    /// The sample words to play, oldest first; empty when silence is
    /// to be output.
    pub samples: Vec<u32>,
    /// The gain (in millionths) to apply to each corresponding sample.
    pub gains: Vec<u32>,
    /// Whether the callback must fill the device buffer with silence.
    pub silence: bool,
}

/// The verified core of the audio output: ring buffer, volume ramp,
/// clock, statistics and the playback state machine, exactly as the
/// device callback and the producer drive them.
pub struct AudioPipeline {
    /// Bounded sample buffer between producer and device callback.
    pub ring: AudioRingBuffer,
    /// Per-sample volume ramp.
    pub volume: VolumeControl,
    /// Playback state.
    pub state: AudioPlaybackState,
    /// Audio clock.
    pub clock: AudioClock,
    /// Statistics.
    pub stats: AudioStats,
    /// Channel count (at least 1).
    pub channels: u16,
    /// Sample rate in Hz (at least 1).
    pub sample_rate: u32,
}

impl AudioPipeline {
    pub open spec fn wf(&self) -> bool {
        &&& self.ring.wf()
        &&& self.volume.wf()
        &&& self.channels >= 1
        &&& self.sample_rate >= 1
        &&& self.ring.capacity == RING_BUFFER_SIZE * self.channels as int
    }

    /// The pipeline as a mathematical value.
    pub open spec fn model(&self) -> PipelineModel {
        PipelineModel {
            buffered: self.ring@,
            capacity: self.ring.capacity as nat,
            state: self.state,
            volume: self.volume,
            clock: self.clock,
            stats: self.stats,
            channels: self.channels,
            sample_rate: self.sample_rate,
        }
    }

    /// Set up the pipeline for a format: a fresh ring sized
    /// `RING_BUFFER_SIZE` samples per channel, stopped, with the clock
    /// following the format's rate.
    pub fn new(format: &AudioFormat) -> (r: Self)
        requires
            format.channels >= 1,
            format.sample_rate >= 1,
        ensures
            r.wf(),
            r.model().buffered == Seq::<u32>::empty(),
            r.model().state == AudioPlaybackState::Stopped,
            r.channels == format.channels,
            r.sample_rate == format.sample_rate,
            r.clock.sample_rate == format.sample_rate,
            r.clock.samples_played == 0,
            r.stats.sample_rate == format.sample_rate,
            r.volume.current == crate::volume::UNITY_GAIN,
    {
        let capacity: usize = RING_BUFFER_SIZE * (format.channels as usize);
        let mut clock = AudioClock::new();
        clock.set_sample_rate(format.sample_rate as u64);
        let mut stats = AudioStats::default();
        stats.sample_rate = format.sample_rate;
        stats.bit_depth = match format.sample_format {
            SampleFormat::U8 => 8,
            SampleFormat::I16 => 16,
            SampleFormat::I24 => 24,
            SampleFormat::I32 => 32,
            SampleFormat::F32 => 32,
            SampleFormat::F64 => 64,
        };
        AudioPipeline {
            ring: AudioRingBuffer::new(capacity),
            volume: VolumeControl::new(),
            state: AudioPlaybackState::Stopped,
            clock,
            stats,
            channels: format.channels,
            sample_rate: format.sample_rate,
        }
    }

    /// Buffer fill level in permille of the capacity.
    pub fn fill_permille(&self) -> (r: u32)
        requires
            self.wf(),
        ensures
            r as int == self.ring@.len() * 1000 as int / self.ring.capacity as int,
    {
        proof {
            assert(self.ring@.len() * 1000 <= self.ring.capacity * 1000 && 0 <= self.ring@.len()
                * 1000 as int / self.ring.capacity as int <= 1000) by (nonlinear_arith)
                requires
                    0 <= self.ring@.len() <= self.ring.capacity,
                    1 <= self.ring.capacity,
            ;
        }
        let len128: u128 = self.ring.len() as u128;
        let cap128: u128 = self.ring.capacity() as u128;
        ((len128 * 1000) / cap128) as u32
    }

    /// Feed decoded samples into the pipeline. The batch must match the
    /// pipeline's channel count and sample rate (the embedder resamples
    /// beforehand); it is written into the ring's free space, the
    /// excess dropped; the clock's PTS follows the batch, and a
    /// stopped or buffering pipeline starts playing once the fill
    /// level reaches `MIN_FILL_PERMILLE`.
    pub fn play(&mut self, samples: &AudioSamples) -> (r: Result<usize>)
        requires
            old(self).wf(),
        ensures
            final(self).wf(),
            samples.channels != old(self).channels as int ==> (r matches Err(e) && e is Audio
                && *final(self) == *old(self)),
            samples.sample_rate != old(self).sample_rate ==> (r matches Err(e) && e is Audio),
            (samples.channels == old(self).channels as int && samples.sample_rate == old(
                self,
            ).sample_rate) ==> {
                let written = if samples.data@.len() <= old(self).ring.capacity - old(
                    self,
                ).ring@.len() {
                    samples.data@.len() as int
                } else {
                    old(self).ring.capacity - old(self).ring@.len()
                };
                let buffered = old(self).ring@ + samples.data@.subrange(0, written);
                let entered = if old(self).state == AudioPlaybackState::Stopped {
                    AudioPlaybackState::Buffering
                } else {
                    old(self).state
                };
                &&& r == Ok::<usize, CCPlayerError>(written as usize)
                &&& final(self).ring@ == buffered
                &&& final(self).clock == (AudioClock { current_pts: samples.pts, ..old(
                    self,
                ).clock })
                &&& final(self).state == (
                    if entered == AudioPlaybackState::Buffering && buffered.len() * 1000 as int
                        / old(self).ring.capacity as int >= MIN_FILL_PERMILLE {
                        AudioPlaybackState::Playing
                    } else {
                        entered
                    }
                )
                &&& final(self).volume == old(self).volume
                &&& final(self).stats == old(self).stats
                &&& final(self).channels == old(self).channels
                &&& final(self).sample_rate == old(self).sample_rate
                &&& final(self).ring.capacity == old(self).ring.capacity
            },
    {
        if samples.channels != self.channels as usize {
            return Err(CCPlayerError::Audio(String::from_str("channel count mismatch")));
        }
        if samples.sample_rate != self.sample_rate {
            return Err(CCPlayerError::Audio(String::from_str("sample rate mismatch")));
        }

        let written = self.ring.write(samples.data.as_slice());
        self.clock.current_pts = samples.pts;

        if self.state == AudioPlaybackState::Stopped {
            self.state = AudioPlaybackState::Buffering;
        }
        let fill = self.fill_permille();
        if self.state == AudioPlaybackState::Buffering && fill >= MIN_FILL_PERMILLE {
            self.state = AudioPlaybackState::Playing;
        }
        Ok(written)
    }

    /// One device callback asking for `requested` samples. While
    /// playing with enough buffered, the oldest `requested` samples
    /// leave the ring, each paired with the next ramped gain, and the
    /// clock advances by the played frames; on underrun the output is
    /// silence, the underrun is counted and the pipeline goes back to
    /// buffering; paused, stopped and buffering pipelines output
    /// silence without draining the buffer.
    pub fn render(&mut self, requested: usize) -> (r: RenderedAudio)
        requires
            old(self).wf(),
        ensures
            final(self).wf(),
            old(self).state == AudioPlaybackState::Playing && old(self).ring@.len() >= requested
                ==> {
                &&& !r.silence
                &&& r.samples@ == old(self).ring@.subrange(0, requested as int)
                &&& final(self).ring@ == old(self).ring@.subrange(
                    requested as int,
                    old(self).ring@.len() as int,
                )
                &&& r.gains@.len() == requested
                &&& forall|j: int|
                    0 <= j < requested ==> #[trigger] r.gains@[j] == vc_steps(
                        old(self).volume,
                        (j + 1) as nat,
                    ).current
                &&& final(self).volume == vc_steps(old(self).volume, requested as nat)
                &&& final(self).state == AudioPlaybackState::Playing
                &&& final(self).clock.samples_played == (
                    if old(self).clock.samples_played + requested as int / old(
                        self,
                    ).channels as int > u64::MAX {
                        u64::MAX as int
                    } else {
                        old(self).clock.samples_played + requested as int / old(
                            self,
                        ).channels as int
                    }
                )
                &&& final(self).stats == (AudioStats {
                    samples_played: sat_add_u64_spec(
                        old(self).stats.samples_played,
                        (requested as int / old(self).channels as int) as nat,
                    ),
                    ..old(self).stats
                })
            },
            old(self).state == AudioPlaybackState::Playing && old(self).ring@.len() < requested
                ==> {
                &&& r.silence
                &&& r.samples@.len() == 0
                &&& final(self).ring@ == old(self).ring@
                &&& final(self).state == AudioPlaybackState::Buffering
                &&& final(self).stats == (AudioStats {
                    underruns: sat_add_u64_spec(old(self).stats.underruns, 1),
                    ..old(self).stats
                })
                &&& final(self).volume == old(self).volume
                &&& final(self).clock == old(self).clock
            },
            old(self).state != AudioPlaybackState::Playing ==> {
                &&& r.silence
                &&& r.samples@.len() == 0
                &&& *final(self) == *old(self)
            },
    {
        if self.state != AudioPlaybackState::Playing {
            return RenderedAudio { samples: Vec::new(), gains: Vec::new(), silence: true };
        }
        if self.ring.len() < requested {
            // buffer underrun: output silence and refill before resuming
            if self.stats.underruns < u64::MAX {
                self.stats.underruns = self.stats.underruns + 1;
            }
            self.state = AudioPlaybackState::Buffering;
            return RenderedAudio { samples: Vec::new(), gains: Vec::new(), silence: true };
        }

        let samples = self.ring.read(requested);
        let ghost mid = *self;
        let mut gains: Vec<u32> = Vec::new();
        let mut j: usize = 0;
        while j < requested
            invariant
                self.volume.wf(),
                j <= requested,
                gains@.len() == j,
                self.volume == vc_steps(old(self).volume, j as nat),
                self.ring == mid.ring,
                self.state == mid.state,
                self.clock == mid.clock,
                self.stats == mid.stats,
                self.channels == mid.channels,
                self.sample_rate == mid.sample_rate,
                mid.wf(),
                forall|k: int|
                    0 <= k < j ==> #[trigger] gains@[k] == vc_steps(
                        old(self).volume,
                        (k + 1) as nat,
                    ).current,
            decreases requested - j,
        {
            proof {
                lemma_vc_steps_snoc(old(self).volume, j as nat);
            }
            let g = self.volume.process_gain();
            gains.push(g);
            j = j + 1;
        }

        let frames: u64 = (requested as u64) / (self.channels as u64);
        self.clock.update_samples(frames);
        self.stats.samples_played = sat_add_u64e(self.stats.samples_played, frames);

        RenderedAudio { samples, gains, silence: false }
    }

    /// Pause: only a playing pipeline pauses; buffered audio is kept.
    pub fn pause(&mut self)
        requires
            old(self).wf(),
        ensures
            final(self).wf(),
            old(self).state == AudioPlaybackState::Playing ==> *final(self) == (AudioPipeline {
                state: AudioPlaybackState::Paused,
                ..*old(self)
            }),
            old(self).state != AudioPlaybackState::Playing ==> *final(self) == *old(self),
    {
        if self.state == AudioPlaybackState::Playing {
            self.state = AudioPlaybackState::Paused;
        }
    }

    /// Resume: only a paused pipeline resumes.
    pub fn resume(&mut self)
        requires
            old(self).wf(),
        ensures
            final(self).wf(),
            old(self).state == AudioPlaybackState::Paused ==> *final(self) == (AudioPipeline {
                state: AudioPlaybackState::Playing,
                ..*old(self)
            }),
            old(self).state != AudioPlaybackState::Paused ==> *final(self) == *old(self),
    {
        if self.state == AudioPlaybackState::Paused {
            self.state = AudioPlaybackState::Playing;
        }
    }

    /// Stop playback: clear the ring, reset the clock and the underrun
    /// counter, and go to `Stopped`. Exactly `stop_model` of the old
    /// state — in particular, stopping twice is the same as stopping
    /// once (see `lemma_stop_idempotent`).
    pub fn stop(&mut self)
        requires
            old(self).wf(),
        ensures
            final(self).wf(),
            final(self).model() == stop_model(old(self).model()),
    {
        self.state = AudioPlaybackState::Stopped;
        self.ring.clear();
        self.clock.reset();
        self.stats.underruns = 0;
        proof {
            assert(final(self).model().buffered =~= stop_model(old(self).model()).buffered);
        }
    }

    /// Set the target volume in millionths (clamped to unity); the
    /// change ramps over `VOLUME_RAMP_SAMPLES` samples.
    pub fn set_volume(&mut self, volume: u32)
        requires
            old(self).wf(),
        ensures
            final(self).wf(),
            final(self).volume.target == crate::volume::clamp_unity(volume),
            final(self).volume.ramp_samples == crate::volume::VOLUME_RAMP_SAMPLES,
            final(self).volume.current == old(self).volume.current,
            *final(self) == (AudioPipeline { volume: final(self).volume, ..*old(self) }),
    {
        self.volume.set_target(volume);
    }

    /// The current volume target in millionths.
    pub fn get_volume(&self) -> (r: u32)
        ensures
            r == self.volume.target,
    {
        self.volume.target
    }

    /// Current playback position in microseconds.
    pub fn get_position(&self) -> (r: i64)
        ensures
            r == clock_position(self.clock.samples_played as nat, self.clock.sample_rate as nat),
    {
        self.clock.get_position()
    }

    /// Estimated output latency in microseconds: the buffered duration
    /// plus a conservative constant for the device itself.
    pub fn get_latency(&self) -> (r: i64)
        requires
            self.wf(),
            self.channels <= 256,
        ensures
            r == (self.ring@.len() as int / self.channels as int) * 1_000_000 as int
                / self.sample_rate as int + DEVICE_LATENCY_US,
    {
        let buffered_frames: u64 = (self.ring.len() as u64) / (self.channels as u64);
        proof {
            assert(buffered_frames <= RING_BUFFER_SIZE as int && 0 <= (buffered_frames as int)
                * 1_000_000 / (self.sample_rate as int) <= (RING_BUFFER_SIZE as int)
                * 1_000_000) by (nonlinear_arith)
                requires
                    0 <= buffered_frames,
                    buffered_frames == self.ring@.len() as int / self.channels as int,
                    0 <= self.ring@.len() <= RING_BUFFER_SIZE as int * self.channels as int,
                    1 <= self.channels,
                    1 <= self.sample_rate,
            ;
        }
        let buffered_us: u64 = (buffered_frames * 1_000_000) / (self.sample_rate as u64);
        (buffered_us as i64) + DEVICE_LATENCY_US
    }

    /// Whether the pipeline is currently playing.
    pub fn is_playing(&self) -> (r: bool)
        ensures
            r == (self.state == AudioPlaybackState::Playing),
    {
        self.state == AudioPlaybackState::Playing
    }

    /// Buffer fill level in permille.
    pub fn get_buffer_fill(&self) -> (r: u32)
        requires
            self.wf(),
        ensures
            r as int == self.ring@.len() * 1000 as int / self.ring.capacity as int,
    {
        self.fill_permille()
    }
}

/// Saturating `u64` addition.
pub open spec fn sat_add_u64_spec(a: u64, b: nat) -> u64 {
    if a + b > u64::MAX {
        u64::MAX
    } else {
        (a + b) as u64
    }
}

fn sat_add_u64e(a: u64, b: u64) -> (r: u64)
    ensures
        r == sat_add_u64_spec(a, b as nat),
{
    if a <= u64::MAX - b {
        a + b
    } else {
        u64::MAX
    }
}

} // verus!
