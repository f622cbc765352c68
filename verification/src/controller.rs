//! The player controller's decision core: the playback state machine,
//! the command handlers, and the per-iteration decisions of the three
//! pipeline loops (decode, audio, render).
//!
//! The embedder runs the loops: it asks this core what to do, performs
//! the outside work (decode a frame, render, sleep, output audio) and
//! hands the outcome back. Every decision and every state change is
//! specified here.

use vstd::prelude::*;
use vstd::string::StringExecFns;
use std::collections::VecDeque;
use crate::audio::AudioSamples;
use crate::error::{CCPlayerError, Result};
use crate::frame::VideoFrame;
use crate::frame_queue::{FrameQueue, pushed};
use crate::media::MediaInfo;
use crate::state::{PlaybackState, PlayerConfig, Playlist};
use crate::sync::{AVSyncController, FrameAction, sync_decision, bump, PTS_BOUND};
use crate::volume::{UNITY_GAIN, clamp_unity};
use crate::window::{ControlEvent, Key, WindowEvent};

verus! {

/// Video queue depth bound (frames).
pub const VIDEO_QUEUE_DEPTH: usize = 30;

/// Audio queue depth bound (batches).
pub const AUDIO_QUEUE_DEPTH: usize = 100;

/// Decode-loop high-water marks: when both queues are this full the
/// decode loop sleeps instead of decoding ahead.
pub const VIDEO_HIGH_WATER: usize = 25;

pub const AUDIO_HIGH_WATER: usize = 90;

/// What the decode loop should do this iteration.
#[derive(Clone, Copy, Debug, PartialEq, Eq, Structural)]
pub enum DecodeStep {
    /// The player is no longer running: exit the loop.
    Exit,
    /// Paused or both queues saturated: sleep briefly and re-check.
    Sleep,
    /// Decode ahead: pull a video frame and/or an audio batch.
    Work { video: bool, audio: bool },
}

/// What the render loop should do this iteration.
#[derive(Clone, Debug)]
pub enum RenderAction {
    /// Nothing buffered: sleep briefly.
    NoFrame,
    /// Render and present this frame now.
    Render(VideoFrame),
    /// A late frame was dropped: continue immediately to catch up.
    Dropped,
    /// Sleep this many microseconds, then re-evaluate the same frame.
    Wait(i64),
    /// Re-present the previous frame (decoder starvation while
    /// playing).
    Repeat,
}

/// The one thing beyond state syncing an event asks of the embedder.
#[derive(Clone, Debug)]
pub enum WindowOp {
    /// Nothing; read the core's state for what changed.
    NoOp,
    /// Hide (minimize) the window.
    Hide,
    /// Open this dropped file.
    Open(String),
}

/// The volume after a wheel movement of `delta_milli` thousandths of a
/// notch at `step` per notch, clamped into [0, unity].
pub open spec fn wheel_volume(volume: int, delta_milli: int, step: int) -> int {
    let change = if delta_milli * step >= 0 {
        delta_milli * step / 1000
    } else {
        -((-(delta_milli * step)) / 1000)
    };
    let target = volume + change;
    if target < 0 {
        0
    } else if target > UNITY_GAIN {
        UNITY_GAIN as int
    } else {
        target
    }
}

/// Where a relative seek of `delta_secs` seconds lands from `pos`,
/// clamped into the valid position range.
pub open spec fn seek_target(pos: int, delta_secs: int) -> int {
    let target = pos + delta_secs * 1_000_000;
    if target < 0 {
        0
    } else if target > PTS_BOUND {
        PTS_BOUND as int
    } else {
        target
    }
}

/// The volume one step up, clamped at unity.
pub open spec fn clamped_volume_up(volume: int, step: int) -> int {
    if volume + step > UNITY_GAIN {
        UNITY_GAIN as int
    } else {
        volume + step
    }
}

/// The volume one step down, stopping at zero.
pub open spec fn saturated_volume_down(volume: int, step: int) -> int {
    if volume > step {
        volume - step
    } else {
        0
    }
}

/// The observable state of the decision core, as one mathematical
/// value.
#[verifier::ext_equal]
pub struct CoreModel {
    /// Playback state.
    pub state: PlaybackState,
    /// Position in microseconds.
    pub position_us: i64,
    /// Running flag of the three loops.
    pub running: bool,
    /// Pause flag of the three loops.
    pub paused: bool,
    /// Buffered video frames, in presentation order.
    pub video: Seq<VideoFrame>,
    /// Buffered audio batches, in arrival order.
    pub audio: Seq<AudioSamples>,
    /// Last seek target, if any.
    pub last_seek_us: Option<i64>,
}

/// What a seek to `target` leaves behind: the position moved, the
/// seek recorded, and both queues cleared so no stale frame survives.
pub open spec fn seek_model(m: CoreModel, target: int) -> CoreModel {
    CoreModel {
        position_us: target as i64,
        last_seek_us: Some(target as i64),
        video: Seq::empty(),
        audio: Seq::empty(),
        ..m
    }
}

/// What `stop` leaves behind: stopped, rewound, loops halted, queues
/// empty; the pause flag and the seek marker keep their values.
pub open spec fn core_stop(m: CoreModel) -> CoreModel {
    CoreModel {
        state: PlaybackState::Stopped,
        position_us: 0,
        running: false,
        video: Seq::empty(),
        audio: Seq::empty(),
        ..m
    }
}

/// Law (idempotent stop): stopping an already stopped player is a
/// no-op — the state stays `Stopped` and the queues stay empty.
pub proof fn lemma_core_stop_idempotent(m: CoreModel)
    ensures
        core_stop(core_stop(m)) == core_stop(m),
{
    assert(core_stop(core_stop(m)) =~= core_stop(m));
}

/// The player controller's decision core.
pub struct PlayerCore {
    /// Current playback state.
    pub state: PlaybackState,
    /// Loaded media, if any.
    pub media_info: Option<MediaInfo>,
    /// Current position in microseconds.
    pub position_us: i64,
    /// Playback speed in permille (1 to 4000).
    pub speed_permille: u32,
    /// Volume in millionths (0 to unity).
    pub volume: u32,
    /// Muted state.
    pub muted: bool,
    /// Fullscreen state.
    pub fullscreen: bool,
    /// Playlist.
    pub playlist: Playlist,
    /// Player configuration.
    pub config: PlayerConfig,
    /// Last seek target, if any.
    pub last_seek_us: Option<i64>,
    /// Whether the three loops should keep running.
    pub running: bool,
    /// Whether the loops are paused.
    pub paused: bool,
    /// Buffered decoded video frames, sorted by PTS.
    pub video_queue: FrameQueue,
    /// Buffered decoded audio batches.
    pub audio_queue: VecDeque<AudioSamples>,
    /// A/V synchronization controller.
    pub av_sync: AVSyncController,
    /// Frames rendered.
    pub frames_rendered: u64,
    /// Frames dropped by the render loop.
    pub frames_dropped: u64,
}

impl PlayerCore {
    pub open spec fn wf(&self) -> bool {
        &&& self.video_queue.wf()
        &&& self.av_sync.wf()
        &&& self.volume <= UNITY_GAIN
        &&& 1 <= self.speed_permille <= 4000
        &&& -PTS_BOUND <= self.position_us <= PTS_BOUND
        &&& self.config.seek_step <= 1_000_000_000
        &&& self.config.fast_seek_step <= 1_000_000_000
        &&& self.config.volume_step <= UNITY_GAIN
        &&& forall|i: int|
            0 <= i < self.audio_queue@.len() ==> -PTS_BOUND <= (
            #[trigger] self.audio_queue@[i]).pts <= PTS_BOUND
    }

    /// The observable state.
    pub open spec fn model(&self) -> CoreModel {
        CoreModel {
            state: self.state,
            position_us: self.position_us,
            running: self.running,
            paused: self.paused,
            video: self.video_queue@,
            audio: self.audio_queue@,
            last_seek_us: self.last_seek_us,
        }
    }

    /// A fresh, idle player core.
    pub fn new() -> (r: Self)
        ensures
            r.wf(),
            r.state == PlaybackState::Idle,
            r.media_info.is_none(),
            r.position_us == 0,
            r.speed_permille == 1000,
            r.volume == 700_000,
            !r.muted,
            !r.fullscreen,
            !r.running,
            !r.paused,
            r.video_queue@ == Seq::<VideoFrame>::empty(),
            r.audio_queue@ == Seq::<AudioSamples>::empty(),
            r.frames_rendered == 0,
            r.frames_dropped == 0,
    {
        PlayerCore {
            state: PlaybackState::Idle,
            media_info: None,
            position_us: 0,
            speed_permille: 1000,
            volume: 700_000,
            muted: false,
            fullscreen: false,
            playlist: Playlist::empty(),
            config: PlayerConfig::default(),
            last_seek_us: None,
            running: false,
            paused: false,
            video_queue: FrameQueue::new(VIDEO_QUEUE_DEPTH),
            audio_queue: VecDeque::new(),
            av_sync: AVSyncController::new(),
            frames_rendered: 0,
            frames_dropped: 0,
        }
    }

    /// Note that media was loaded (the embedder already opened it in
    /// the decoder): stopped at the start, with the old queues gone.
    pub fn on_media_loaded(&mut self, info: MediaInfo)
        requires
            old(self).wf(),
        ensures
            final(self).wf(),
            final(self).state == PlaybackState::Stopped,
            final(self).media_info == Some(info),
            final(self).position_us == 0,
            final(self).model() == (CoreModel {
                state: PlaybackState::Stopped,
                position_us: 0,
                video: Seq::<VideoFrame>::empty(),
                audio: Seq::<AudioSamples>::empty(),
                ..old(self).model()
            }),
    {
        self.media_info = Some(info);
        self.state = PlaybackState::Stopped;
        self.position_us = 0;
        self.video_queue.clear();
        self.audio_queue.clear();
    }

    /// Start or resume playback. Already playing is a no-op; with no
    /// media loaded the command is rejected; otherwise the state
    /// machine enters `Playing` and the loops run unpaused. The
    /// embedder resumes the audio output on `Ok`.
    pub fn play(&mut self) -> (r: Result<()>)
        requires
            old(self).wf(),
        ensures
            final(self).wf(),
            old(self).state == PlaybackState::Playing ==> (r is Ok && *final(self) == *old(self)),
            old(self).state == PlaybackState::Idle ==> ((r matches Err(e) && e is InvalidInput)
                && *final(self) == *old(self)),
            (old(self).state != PlaybackState::Playing && old(self).state != PlaybackState::Idle)
                ==> (r is Ok && *final(self) == (PlayerCore {
                state: PlaybackState::Playing,
                running: true,
                paused: false,
                ..*old(self)
            })),
    {
        match self.state {
            PlaybackState::Playing => Ok(()),
            PlaybackState::Idle => Err(
                CCPlayerError::InvalidInput(String::from_str("no media loaded")),
            ),
            _ => {
                self.state = PlaybackState::Playing;
                self.running = true;
                self.paused = false;
                Ok(())
            },
        }
    }

    /// Pause playback; only a playing player pauses. The embedder
    /// pauses the audio output when the state changed.
    pub fn pause(&mut self) -> (r: Result<()>)
        requires
            old(self).wf(),
        ensures
            final(self).wf(),
            r is Ok,
            old(self).state == PlaybackState::Playing ==> *final(self) == (PlayerCore {
                state: PlaybackState::Paused,
                paused: true,
                ..*old(self)
            }),
            old(self).state != PlaybackState::Playing ==> *final(self) == *old(self),
    {
        if self.state == PlaybackState::Playing {
            self.state = PlaybackState::Paused;
            self.paused = true;
        }
        Ok(())
    }

    /// Stop playback: exactly `core_stop` of the observable state (see
    /// `lemma_core_stop_idempotent` — stopping twice is stopping
    /// once). The embedder stops the audio output and joins the loops
    /// after this returns.
    pub fn stop(&mut self) -> (r: Result<()>)
        requires
            old(self).wf(),
        ensures
            final(self).wf(),
            r is Ok,
            final(self).model() == core_stop(old(self).model()),
            final(self).media_info == old(self).media_info,
            final(self).volume == old(self).volume,
            final(self).speed_permille == old(self).speed_permille,
            final(self).muted == old(self).muted,
            final(self).fullscreen == old(self).fullscreen,
    {
        self.state = PlaybackState::Stopped;
        self.position_us = 0;
        self.running = false;
        self.video_queue.clear();
        self.audio_queue.clear();
        proof {
            assert(final(self).model() =~= core_stop(old(self).model()));
        }
        Ok(())
    }

    /// Toggle between playing and paused (or start from stopped).
    pub fn toggle_play(&mut self) -> (r: Result<()>)
        requires
            old(self).wf(),
        ensures
            final(self).wf(),
            r is Ok,
            old(self).state == PlaybackState::Playing ==> final(self).state
                == PlaybackState::Paused,
            (old(self).state == PlaybackState::Paused || old(self).state
                == PlaybackState::Stopped) ==> final(self).state == PlaybackState::Playing,
    {
        match self.state {
            PlaybackState::Playing => self.pause(),
            PlaybackState::Paused => self.play(),
            PlaybackState::Stopped => self.play(),
            _ => Ok(()),
        }
    }

    /// Seek to an absolute position: both queues are cleared and the
    /// sync controller reset before consumption resumes, so no stale
    /// frame can be displayed. The embedder repositions the decoder on
    /// `Ok`.
    pub fn seek(&mut self, position_us: i64) -> (r: Result<()>)
        requires
            old(self).wf(),
            0 <= position_us <= PTS_BOUND,
        ensures
            final(self).wf(),
            r is Ok,
            final(self).model() == (CoreModel {
                position_us,
                last_seek_us: Some(position_us),
                video: Seq::<VideoFrame>::empty(),
                audio: Seq::<AudioSamples>::empty(),
                ..old(self).model()
            }),
            final(self).av_sync.stats == crate::sync::SyncStats::zeroed(),
            final(self).av_sync.master_clock.current_pts == 0,
    {
        self.last_seek_us = Some(position_us);
        self.position_us = position_us;
        self.video_queue.clear();
        self.audio_queue.clear();
        self.av_sync.reset();
        proof {
            assert(final(self).model() =~= (CoreModel {
                position_us,
                last_seek_us: Some(position_us),
                video: Seq::<VideoFrame>::empty(),
                audio: Seq::<AudioSamples>::empty(),
                ..old(self).model()
            }));
        }
        Ok(())
    }

    /// Seek by a signed number of seconds relative to the current
    /// position, clamped into the valid position range.
    pub fn seek_relative(&mut self, delta_secs: i64) -> (r: Result<()>)
        requires
            old(self).wf(),
            -1_000_000_000_000 <= delta_secs <= 1_000_000_000_000,
        ensures
            final(self).wf(),
            r is Ok,
            final(self).model() == seek_model(
                old(self).model(),
                seek_target(old(self).position_us as int, delta_secs as int),
            ),
    {
        let target: i128 = (self.position_us as i128) + (delta_secs as i128) * 1_000_000;
        let clamped: i64 = if target < 0 {
            0
        } else if target > PTS_BOUND as i128 {
            PTS_BOUND
        } else {
            target as i64
        };
        self.seek(clamped)
    }

    /// Set playback speed in permille; zero and anything above 4000
    /// (4x) are rejected. The sync controller's master clock follows,
    /// clamped to its own supported range.
    pub fn set_speed(&mut self, speed_permille: u32) -> (r: Result<()>)
        requires
            old(self).wf(),
        ensures
            final(self).wf(),
            (speed_permille == 0 || speed_permille > 4000) ==> ((r matches Err(e)
                && e is InvalidInput) && *final(self) == *old(self)),
            (1 <= speed_permille <= 4000) ==> {
                &&& r is Ok
                &&& final(self).speed_permille == speed_permille
                &&& final(self).model() == old(self).model()
            },
    {
        if speed_permille == 0 || speed_permille > 4000 {
            return Err(
                CCPlayerError::InvalidInput(
                    String::from_str("speed must be between 0 and 4"),
                ),
            );
        }
        self.speed_permille = speed_permille;
        self.av_sync.set_playback_speed(speed_permille);
        Ok(())
    }

    /// Set the volume in millionths, clamped to unity; returns the
    /// clamped value for the embedder to hand to the audio output.
    pub fn set_volume(&mut self, volume: u32) -> (r: u32)
        requires
            old(self).wf(),
        ensures
            final(self).wf(),
            r == clamp_unity(volume),
            final(self).volume == clamp_unity(volume),
            final(self).model() == old(self).model(),
    {
        let clamped: u32 = if volume > UNITY_GAIN {
            UNITY_GAIN
        } else {
            volume
        };
        self.volume = clamped;
        clamped
    }

    /// Toggle mute; returns the effective volume (zero when muted, the
    /// stored volume when not) for the embedder to apply.
    pub fn toggle_mute(&mut self) -> (r: u32)
        requires
            old(self).wf(),
        ensures
            final(self).wf(),
            final(self).muted == !old(self).muted,
            r == if old(self).muted {
                old(self).volume
            } else {
                0u32
            },
            final(self).volume == old(self).volume,
            final(self).model() == old(self).model(),
    {
        self.muted = !self.muted;
        if self.muted {
            0
        } else {
            self.volume
        }
    }

    /// Set fullscreen state; the embedder applies it to the window.
    pub fn set_fullscreen(&mut self, fullscreen: bool)
        requires
            old(self).wf(),
        ensures
            final(self).wf(),
            final(self).fullscreen == fullscreen,
            final(self).model() == old(self).model(),
    {
        self.fullscreen = fullscreen;
    }

    /// The decode loop's decision for this iteration: exit when the
    /// loops were told to stop; sleep when paused, or when both queues
    /// are over their high-water marks (credit-based backpressure);
    /// otherwise decode toward whichever queues still have room.
    pub fn decode_step(&self) -> (r: DecodeStep)
        requires
            self.wf(),
        ensures
            !self.running ==> r == DecodeStep::Exit,
            self.running && self.paused ==> r == DecodeStep::Sleep,
            (self.running && !self.paused && self.video_queue@.len() > VIDEO_HIGH_WATER
                && self.audio_queue@.len() > AUDIO_HIGH_WATER) ==> r == DecodeStep::Sleep,
            (self.running && !self.paused && !(self.video_queue@.len() > VIDEO_HIGH_WATER
                && self.audio_queue@.len() > AUDIO_HIGH_WATER)) ==> r == (DecodeStep::Work {
                video: self.video_queue@.len() < VIDEO_QUEUE_DEPTH,
                audio: self.audio_queue@.len() < AUDIO_QUEUE_DEPTH,
            }),
    {
        if !self.running {
            return DecodeStep::Exit;
        }
        if self.paused {
            return DecodeStep::Sleep;
        }
        let video_depth = self.video_queue.len();
        let audio_depth = self.audio_queue.len();
        if video_depth > VIDEO_HIGH_WATER && audio_depth > AUDIO_HIGH_WATER {
            return DecodeStep::Sleep;
        }
        DecodeStep::Work {
            video: video_depth < VIDEO_QUEUE_DEPTH,
            audio: audio_depth < AUDIO_QUEUE_DEPTH,
        }
    }

    /// Take the decoder's answer for one video pull: a frame joins the
    /// queue in PTS order (evicting the oldest if full); end of stream
    /// moves the player to `Ended` and tells the decode loop to exit.
    pub fn on_video_decoded(&mut self, frame: Option<VideoFrame>) -> (ended: bool)
        requires
            old(self).wf(),
            frame matches Some(f) ==> -PTS_BOUND <= f.pts <= PTS_BOUND,
        ensures
            final(self).wf(),
            match frame {
                Some(f) => {
                    &&& !ended
                    &&& final(self).video_queue@ == pushed(
                        old(self).video_queue@,
                        f,
                        old(self).video_queue.spec_max_frames() as nat,
                        old(self).video_queue.spec_max_size() as nat,
                    )
                    &&& final(self).state == old(self).state
                    &&& final(self).audio_queue@ == old(self).audio_queue@
                },
                None => {
                    &&& ended
                    &&& final(self).state == PlaybackState::Ended
                    &&& final(self).video_queue@ == old(self).video_queue@
                    &&& final(self).audio_queue@ == old(self).audio_queue@
                },
            },
    {
        match frame {
            Some(f) => {
                let _ = self.video_queue.push_frame(f);
                false
            },
            None => {
                // end of stream
                self.state = PlaybackState::Ended;
                true
            },
        }
    }

    /// Take the decoder's answer for one audio pull: a batch joins the
    /// audio queue; end of the audio stream changes nothing.
    pub fn on_audio_decoded(&mut self, samples: Option<AudioSamples>)
        requires
            old(self).wf(),
            samples matches Some(s) ==> -PTS_BOUND <= s.pts <= PTS_BOUND,
        ensures
            final(self).wf(),
            match samples {
                Some(s) => final(self).audio_queue@ == old(self).audio_queue@.push(s),
                None => final(self).audio_queue@ == old(self).audio_queue@,
            },
            final(self).video_queue@ == old(self).video_queue@,
            final(self).state == old(self).state,
    {
        match samples {
            Some(s) => {
                self.audio_queue.push_back(s);
            },
            None => {},
        }
    }

    /// The audio loop's step: take the next audio batch, drive the
    /// audio clock (the master clock in audio-master mode) and the
    /// authoritative position from its PTS, and hand the batch out for
    /// the embedder to play. `None` when the queue is empty (the loop
    /// sleeps briefly).
    pub fn audio_step(&mut self) -> (r: Option<AudioSamples>)
        requires
            old(self).wf(),
        ensures
            final(self).wf(),
            old(self).audio_queue@.len() == 0 ==> r.is_none() && final(self).model() == old(self).model() && final(self).av_sync == old(self).av_sync,
            old(self).audio_queue@.len() > 0 ==> {
                &&& r == Some(old(self).audio_queue@[0])
                &&& final(self).audio_queue@ == old(self).audio_queue@.drop_first()
                &&& final(self).position_us == old(self).audio_queue@[0].pts
                &&& (old(self).av_sync.mode == crate::sync::SyncMode::AudioMaster ==> final(self).av_sync.master_clock.current_pts == old(self).audio_queue@[0].pts)
                &&& final(self).video_queue@ == old(self).video_queue@
                &&& final(self).state == old(self).state
            },
    {
        match self.audio_queue.pop_front() {
            Some(samples) => {
                proof {
                    assert(self.audio_queue@ =~= old(self).audio_queue@.drop_first());
                }
                self.av_sync.update_audio(samples.pts, samples.sample_count as u64);
                self.position_us = samples.pts;
                Some(samples)
            },
            None => None,
        }
    }

    /// The render loop's step: peek the front frame and let the sync
    /// controller decide. Display pops and renders (the
    /// with-adjustment decision renders too, surfacing the residual
    /// error through the statistics); a late frame pops as dropped and
    /// the loop continues immediately to catch up; an early frame
    /// waits without being consumed; an empty queue while playing
    /// re-presents the previous frame once there was one, and
    /// otherwise the loop just sleeps.
    pub fn render_step(&mut self) -> (r: RenderAction)
        requires
            old(self).wf(),
        ensures
            final(self).wf(),
            old(self).video_queue@.len() == 0 ==> {
                &&& final(self).video_queue@ == old(self).video_queue@
                &&& final(self).audio_queue@ == old(self).audio_queue@
                &&& (old(self).state == PlaybackState::Playing && old(self).av_sync.video_clock.last_pts > 0 ==> (r is Repeat && final(self).av_sync.video_clock.repeated_frames == bump(
                    old(self).av_sync.video_clock.repeated_frames,
                )))
                &&& (!(old(self).state == PlaybackState::Playing && old(self).av_sync.video_clock.last_pts > 0) ==> (r is NoFrame && *final(self) == *old(self)))
            },
            old(self).video_queue@.len() > 0 ==> {
                let action = sync_decision(
                    old(self).video_queue@[0].pts - old(self).av_sync.master_clock.current_pts,
                );
                &&& ((action == FrameAction::Display || action matches
                    FrameAction::DisplayWithAdjustment(_)) ==> {
                    &&& r matches RenderAction::Render(f) && f == old(self).video_queue@[0]
                    &&& final(self).video_queue@ == old(self).video_queue@.drop_first()
                    &&& final(self).frames_rendered == bump(old(self).frames_rendered)
                })
                &&& (action == FrameAction::Drop ==> {
                    &&& r is Dropped
                    &&& final(self).video_queue@ == old(self).video_queue@.drop_first()
                    &&& final(self).frames_dropped == bump(old(self).frames_dropped)
                })
                &&& (action matches FrameAction::Wait(d) ==> {
                    &&& r == RenderAction::Wait(d)
                    &&& final(self).video_queue@ == old(self).video_queue@
                })
                &&& final(self).audio_queue@ == old(self).audio_queue@
                &&& final(self).state == old(self).state
            },
    {
        if self.video_queue.is_empty() {
            if self.state == PlaybackState::Playing && self.av_sync.video_clock.get_last_pts()
                > 0 {
                // decoder starvation while playing: repeat the frame
                if self.av_sync.video_clock.repeated_frames < u64::MAX {
                    self.av_sync.video_clock.repeated_frames =
                        self.av_sync.video_clock.repeated_frames + 1;
                }
                return RenderAction::Repeat;
            }
            return RenderAction::NoFrame;
        }

        let front_pts: i64 = match self.video_queue.peek_frame() {
            Some(f) => f.pts,
            None => 0,  // unreachable: the queue is nonempty
        };
        let action = self.av_sync.should_display_frame(front_pts);
        match action {
            FrameAction::Display => {
                let frame = self.pop_front_frame();
                if self.frames_rendered < u64::MAX {
                    self.frames_rendered = self.frames_rendered + 1;
                }
                RenderAction::Render(frame)
            },
            FrameAction::DisplayWithAdjustment(_) => {
                let frame = self.pop_front_frame();
                if self.frames_rendered < u64::MAX {
                    self.frames_rendered = self.frames_rendered + 1;
                }
                RenderAction::Render(frame)
            },
            FrameAction::Drop => {
                let _ = self.pop_front_frame();
                if self.frames_dropped < u64::MAX {
                    self.frames_dropped = self.frames_dropped + 1;
                }
                RenderAction::Dropped
            },
            FrameAction::Wait(d) => RenderAction::Wait(d),
            FrameAction::Repeat => {
                // the sync controller never asks for a repeat here;
                // repeats come from starvation handling above
                RenderAction::Repeat
            },
        }
    }

    /// Map a window event to its effect on the player, exactly as the
    /// keyboard and control bindings define it. The returned directive
    /// names the one thing the embedder must do beyond syncing state.
    pub fn handle_event(&mut self, event: WindowEvent) -> (r: Result<WindowOp>)
        requires
            old(self).wf(),
        ensures
            final(self).wf(),
            match event {
                WindowEvent::CloseRequested => r is Ok && final(self).model() == core_stop(
                    old(self).model(),
                ),
                WindowEvent::TitlebarControl(c) => match c {
                    ControlEvent::Close => r is Ok && final(self).model() == core_stop(
                        old(self).model(),
                    ),
                    ControlEvent::Minimize => r == Ok::<WindowOp, CCPlayerError>(WindowOp::Hide)
                        && final(self).model() == old(self).model(),
                    ControlEvent::Maximize => r is Ok && final(self).fullscreen == !old(self).fullscreen,
                },
                WindowEvent::MouseWheel { delta_milli } => r is Ok && final(self).volume
                    == wheel_volume(
                    old(self).volume as int,
                    delta_milli as int,
                    old(self).config.volume_step as int,
                ),
                WindowEvent::FilesDropped { paths } => if paths@.len() > 0 {
                    (r matches Ok(WindowOp::Open(p)) && p@ == paths@[0]@) && final(self).model()
                        == old(self).model()
                } else {
                    r is Ok && final(self).model() == old(self).model()
                },
                WindowEvent::KeyPressed { key, modifiers } => match key {
                    Key::Space => r is Ok && (old(self).state == PlaybackState::Playing
                        ==> final(self).state == PlaybackState::Paused) && ((old(self).state
                        == PlaybackState::Paused || old(self).state == PlaybackState::Stopped)
                        ==> final(self).state == PlaybackState::Playing),
                    Key::F => r is Ok && final(self).fullscreen == !old(self).fullscreen,
                    Key::Enter => r is Ok && (modifiers.alt ==> final(self).fullscreen == !old(self).fullscreen) && (!modifiers.alt ==> *final(self) == *old(self)),
                    Key::M => r is Ok && final(self).muted == !old(self).muted,
                    Key::Up => r is Ok && final(self).volume == clamped_volume_up(
                        old(self).volume as int,
                        old(self).config.volume_step as int,
                    ),
                    Key::Down => r is Ok && final(self).volume == saturated_volume_down(
                        old(self).volume as int,
                        old(self).config.volume_step as int,
                    ),
                    Key::Left => r is Ok && final(self).model() == seek_model(
                        old(self).model(),
                        seek_target(
                            old(self).position_us as int,
                            -(old(self).config.seek_step as int),
                        ),
                    ),
                    Key::Right => r is Ok && final(self).model() == seek_model(
                        old(self).model(),
                        seek_target(
                            old(self).position_us as int,
                            old(self).config.seek_step as int,
                        ),
                    ),
                    Key::PageUp => r is Ok && final(self).model() == seek_model(
                        old(self).model(),
                        seek_target(
                            old(self).position_us as int,
                            old(self).config.fast_seek_step as int,
                        ),
                    ),
                    Key::PageDown => r is Ok && final(self).model() == seek_model(
                        old(self).model(),
                        seek_target(
                            old(self).position_us as int,
                            -(old(self).config.fast_seek_step as int),
                        ),
                    ),
                    Key::Minus => r is Ok && final(self).speed_permille == (
                        if old(self).speed_permille >= 350 {
                            (old(self).speed_permille - 100) as u32
                        } else {
                            250u32
                        }
                    ),
                    Key::Plus => r is Ok && final(self).speed_permille == (
                        if old(self).speed_permille + 100 <= 4000 {
                            (old(self).speed_permille + 100) as u32
                        } else {
                            4000u32
                        }
                    ),
                    Key::Escape => r is Ok && (old(self).fullscreen ==> !final(self).fullscreen) && (!old(self).fullscreen ==> *final(self) == *old(self)),
                    Key::Q => r is Ok && (modifiers.ctrl ==> final(self).model() == core_stop(
                        old(self).model(),
                    )) && (!modifiers.ctrl ==> *final(self) == *old(self)),
                    _ => true,
                },
                _ => r is Ok && *final(self) == *old(self),
            },
    {
        match event {
            WindowEvent::CloseRequested => {
                self.stop()?;
                Ok(WindowOp::NoOp)
            },
            WindowEvent::KeyPressed { key, modifiers } => {
                match key {
                    Key::Space => {
                        self.toggle_play()?;
                        Ok(WindowOp::NoOp)
                    },
                    Key::Enter => {
                        if modifiers.alt {
                            let full = self.is_fullscreen();
                            self.set_fullscreen(!full);
                        }
                        Ok(WindowOp::NoOp)
                    },
                    Key::F => {
                        let full = self.is_fullscreen();
                        self.set_fullscreen(!full);
                        Ok(WindowOp::NoOp)
                    },
                    Key::M => {
                        let _ = self.toggle_mute();
                        Ok(WindowOp::NoOp)
                    },
                    Key::Left => {
                        let step = self.config.seek_step as i64;
                        self.seek_relative(-step)?;
                        Ok(WindowOp::NoOp)
                    },
                    Key::Right => {
                        let step = self.config.seek_step as i64;
                        self.seek_relative(step)?;
                        Ok(WindowOp::NoOp)
                    },
                    Key::Up => {
                        let target: u64 = (self.volume as u64) + (self.config.volume_step
                            as u64);
                        let clamped: u32 = if target > UNITY_GAIN as u64 {
                            UNITY_GAIN
                        } else {
                            target as u32
                        };
                        let _ = self.set_volume(clamped);
                        Ok(WindowOp::NoOp)
                    },
                    Key::Down => {
                        let step = self.config.volume_step;
                        let target: u32 = if self.volume > step {
                            self.volume - step
                        } else {
                            0
                        };
                        let _ = self.set_volume(target);
                        Ok(WindowOp::NoOp)
                    },
                    Key::PageUp => {
                        let step = self.config.fast_seek_step as i64;
                        self.seek_relative(step)?;
                        Ok(WindowOp::NoOp)
                    },
                    Key::PageDown => {
                        let step = self.config.fast_seek_step as i64;
                        self.seek_relative(-step)?;
                        Ok(WindowOp::NoOp)
                    },
                    Key::Minus => {
                        let new_speed: u32 = if self.speed_permille >= 350 {
                            self.speed_permille - 100
                        } else {
                            250
                        };
                        self.set_speed(new_speed)?;
                        Ok(WindowOp::NoOp)
                    },
                    Key::Plus => {
                        let new_speed: u32 = if self.speed_permille <= 3900 {
                            self.speed_permille + 100
                        } else {
                            4000
                        };
                        self.set_speed(new_speed)?;
                        Ok(WindowOp::NoOp)
                    },
                    Key::Escape => {
                        if self.is_fullscreen() {
                            self.set_fullscreen(false);
                        }
                        Ok(WindowOp::NoOp)
                    },
                    Key::Q => {
                        if modifiers.ctrl {
                            self.stop()?;
                        }
                        Ok(WindowOp::NoOp)
                    },
                    _ => Ok(WindowOp::NoOp),
                }
            },
            WindowEvent::MouseWheel { delta_milli } => {
                // one wheel notch moves the volume by one step
                let step = self.config.volume_step;
                proof {
                    assert(-(0x8000_0000 * 1_000_000) <= (delta_milli as int) * (step as int)
                        <= 0x8000_0000 * 1_000_000) by (nonlinear_arith)
                        requires
                            -0x8000_0000 <= delta_milli <= 0x8000_0000,
                            0 <= step <= 1_000_000,
                    ;
                }
                let prod: i64 = (delta_milli as i64) * (step as i64);
                let change: i64 = if prod >= 0 {
                    ((prod as u64) / 1000) as i64
                } else {
                    -((((-prod) as u64) / 1000) as i64)
                };
                let target: i64 = (self.volume as i64) + change;
                let clamped: u32 = if target < 0 {
                    0
                } else if target > UNITY_GAIN as i64 {
                    UNITY_GAIN
                } else {
                    target as u32
                };
                let _ = self.set_volume(clamped);
                Ok(WindowOp::NoOp)
            },
            WindowEvent::TitlebarControl(control) => {
                match control {
                    ControlEvent::Minimize => Ok(WindowOp::Hide),
                    ControlEvent::Maximize => {
                        let full = self.is_fullscreen();
                        self.set_fullscreen(!full);
                        Ok(WindowOp::NoOp)
                    },
                    ControlEvent::Close => {
                        self.stop()?;
                        Ok(WindowOp::NoOp)
                    },
                }
            },
            WindowEvent::FilesDropped { paths } => {
                let mut paths = paths;
                if paths.len() > 0 {
                    let mut rest = paths.split_off(0);
                    let first = rest.remove(0);
                    Ok(WindowOp::Open(first))
                } else {
                    Ok(WindowOp::NoOp)
                }
            },
            _ => Ok(WindowOp::NoOp),
        }
    }

    /// Pop the front frame of a nonempty video queue.
    fn pop_front_frame(&mut self) -> (r: VideoFrame)
        requires
            old(self).wf(),
            old(self).video_queue@.len() > 0,
        ensures
            final(self).wf(),
            r == old(self).video_queue@[0],
            final(self).video_queue@ == old(self).video_queue@.drop_first(),
            *final(self) == (PlayerCore { video_queue: final(self).video_queue, ..*old(self) }),
    {
        match self.video_queue.pop_frame() {
            Some(f) => f,
            None => {
                // unreachable: the queue is nonempty
                proof {
                    assert(false);
                }
                unreached()
            },
        }
    }

    /// Current playback state.
    pub fn get_state(&self) -> (r: PlaybackState)
        ensures
            r == self.state,
    {
        self.state
    }

    /// Current position in microseconds.
    pub fn position(&self) -> (r: i64)
        ensures
            r == self.position_us,
    {
        self.position_us
    }

    /// Duration of the loaded media in microseconds, zero when none.
    pub fn duration(&self) -> (r: i64)
        ensures
            r == match self.media_info {
                Some(info) => info.duration_us,
                None => 0i64,
            },
    {
        match &self.media_info {
            Some(info) => info.duration_us,
            None => 0,
        }
    }

    /// Playback speed in permille.
    pub fn speed(&self) -> (r: u32)
        ensures
            r == self.speed_permille,
    {
        self.speed_permille
    }

    /// Volume in millionths.
    pub fn get_volume(&self) -> (r: u32)
        ensures
            r == self.volume,
    {
        self.volume
    }

    /// Whether audio is muted.
    pub fn is_muted(&self) -> (r: bool)
        ensures
            r == self.muted,
    {
        self.muted
    }

    /// Whether the window is fullscreen.
    pub fn is_fullscreen(&self) -> (r: bool)
        ensures
            r == self.fullscreen,
    {
        self.fullscreen
    }
}

} // verus!
