//! Audio/video synchronization: master and video clocks plus the
//! per-frame display decision.
//!
//! All timestamps are microseconds (`i64`). Playback speed is a permille
//! factor (`1000` = normal speed). The sync statistics keep an exponential
//! moving average of the error with a 1/10 smoothing step, computed in
//! integer arithmetic with rounding toward zero.

use vstd::prelude::*;

verus! {

/// Maximum allowed sync deviation before correction (40 ms).
pub const MAX_SYNC_DEVIATION_US: i64 = 40_000;

/// Target sync accuracy (1 ms).
pub const SYNC_TARGET_US: i64 = 1_000;

/// Largest timestamp magnitude the pipeline accepts (about 2284 years),
/// so that differences and averages of timestamps never overflow `i64`.
pub const PTS_BOUND: i64 = 0x100_0000_0000_0000;

/// Synchronization mode.
#[derive(Clone, Copy, Debug, PartialEq, Eq, Structural)]
pub enum SyncMode {
    /// Audio is master clock (default).
    AudioMaster,
    /// Video is master clock.
    VideoMaster,
    /// External clock (e.g. system time).
    ExternalClock,
    /// Free running (no sync).
    FreeRunning,
}

/// Action to take for a video frame. Wait and adjustment payloads are
/// microseconds.
#[derive(Clone, Copy, Debug, PartialEq, Eq, Structural)]
pub enum FrameAction {
    /// Display the frame immediately.
    Display,
    /// Display with timing adjustment (microseconds).
    DisplayWithAdjustment(i64),
    /// Wait this many microseconds before displaying; the frame stays queued.
    Wait(i64),
    /// Drop the frame (too late).
    Drop,
    /// Repeat the previous frame.
    Repeat,
}

/// Master clock for synchronization: the reference other streams are
/// corrected against.
pub struct MasterClock {
    /// Current PTS in microseconds.
    pub current_pts: i64,
    /// Playback speed in permille, clamped to [100, 4000].
    pub speed_permille: u32,
    /// Anchor of the wall-clock measurement, microseconds on the caller's
    /// monotonic clock, if the clock was started.
    pub start_us: Option<i64>,
}

impl MasterClock {
    /// Clock state the rest of the pipeline relies on: a bounded timestamp
    /// and a speed within the supported range.
    pub open spec fn wf(&self) -> bool {
        &&& -PTS_BOUND <= self.current_pts <= PTS_BOUND
        &&& 100 <= self.speed_permille <= 4000
    }

    pub fn new() -> (r: Self)
        ensures
            r.wf(),
            r.current_pts == 0,
            r.speed_permille == 1000,
            r.start_us.is_none(),
    {
        MasterClock { current_pts: 0, speed_permille: 1000, start_us: None }
    }

    /// Set current PTS.
    pub fn set_pts(&mut self, pts: i64)
        requires
            old(self).wf(),
            -PTS_BOUND <= pts <= PTS_BOUND,
        ensures
            final(self).wf(),
            *final(self) == (MasterClock { current_pts: pts, ..*old(self) }),
    {
        self.current_pts = pts;
    }

    /// Get current PTS.
    pub fn get_pts(&self) -> (r: i64)
        ensures
            r == self.current_pts,
    {
        self.current_pts
    }

    /// Start the clock, anchored at the caller's current monotonic time.
    pub fn start(&mut self, now_us: i64)
        ensures
            *final(self) == (MasterClock { start_us: Some(now_us), ..*old(self) }),
    {
        self.start_us = Some(now_us);
    }

    /// Set playback speed in permille; values outside [100, 4000] are
    /// clamped to that range.
    pub fn set_speed(&mut self, speed_permille: u32)
        ensures
            final(self).speed_permille == (
                if speed_permille < 100 {
                    100u32
                } else if speed_permille > 4000 {
                    4000u32
                } else {
                    speed_permille
                }
            ),
            final(self).current_pts == old(self).current_pts,
            final(self).start_us == old(self).start_us,
    {
        let clamped: u32 = if speed_permille < 100 {
            100
        } else if speed_permille > 4000 {
            4000
        } else {
            speed_permille
        };
        self.speed_permille = clamped;
    }

    /// Get playback speed in permille.
    pub fn get_speed(&self) -> (r: u32)
        ensures
            r == self.speed_permille,
    {
        self.speed_permille
    }

    /// Wall-clock time elapsed since `start`, given the caller's current
    /// monotonic time; `None` if the clock was never started. A caller
    /// whose clock ran backwards is reported as zero elapsed time, and a
    /// difference beyond `i64` saturates.
    pub fn get_real_time(&self, now_us: i64) -> (r: Option<i64>)
        ensures
            match self.start_us {
                Some(s) => r == Some(elapsed_clamped(s as int, now_us as int) as i64),
                None => r.is_none(),
            },
    {
        match self.start_us {
            Some(s) => {
                if now_us < s {
                    Some(0)
                } else if s >= 0 || now_us <= s + i64::MAX {
                    Some(now_us - s)
                } else {
                    Some(i64::MAX)
                }
            },
            None => None,
        }
    }
}

/// Video clock: last and upcoming frame timestamps plus frame counters.
pub struct VideoClock {
    /// Last displayed frame PTS.
    pub last_pts: i64,
    /// Next frame PTS.
    pub next_pts: i64,
    /// Frame duration in microseconds.
    pub frame_duration: i64,
    /// Dropped frames counter.
    pub dropped_frames: u64,
    /// Repeated frames counter.
    pub repeated_frames: u64,
}

impl VideoClock {
    pub fn new() -> (r: Self)
        ensures
            r.last_pts == 0,
            r.next_pts == 0,
            r.frame_duration == 16_667,
            r.dropped_frames == 0,
            r.repeated_frames == 0,
    {
        VideoClock {
            last_pts: 0,
            next_pts: 0,
            frame_duration: 16_667,  // default to 60 FPS
            dropped_frames: 0,
            repeated_frames: 0,
        }
    }

    /// Get last displayed frame PTS.
    pub fn get_last_pts(&self) -> (r: i64)
        ensures
            r == self.last_pts,
    {
        self.last_pts
    }

    /// Set next frame PTS.
    pub fn set_next_pts(&mut self, pts: i64)
        ensures
            *final(self) == (VideoClock { next_pts: pts, ..*old(self) }),
    {
        self.next_pts = pts;
    }

    /// Get next frame PTS.
    pub fn get_next_pts(&self) -> (r: i64)
        ensures
            r == self.next_pts,
    {
        self.next_pts
    }

    /// Get frame duration.
    pub fn get_frame_duration(&self) -> (r: i64)
        ensures
            r == self.frame_duration,
    {
        self.frame_duration
    }
}

/// Synchronization statistics.
#[derive(Clone, Copy, Debug, PartialEq, Eq, Structural)]
pub struct SyncStats {
    /// Current sync error in microseconds.
    pub sync_error: i64,
    /// Exponential moving average of the sync error (1/10 smoothing).
    pub avg_sync_error: i64,
    /// Maximum absolute sync error observed.
    pub max_sync_error: i64,
    /// Number of sync corrections.
    pub corrections: u64,
    /// Number of dropped video frames.
    pub dropped_frames: u64,
    /// Number of repeated video frames.
    pub repeated_frames: u64,
    /// Audio buffer underruns.
    pub audio_underruns: u64,
}

impl SyncStats {
    /// Every recorded error magnitude stays below twice the timestamp
    /// bound, which keeps the average update free of overflow.
    pub open spec fn wf(&self) -> bool {
        &&& -2 * PTS_BOUND <= self.sync_error <= 2 * PTS_BOUND
        &&& -2 * PTS_BOUND <= self.avg_sync_error <= 2 * PTS_BOUND
        &&& 0 <= self.max_sync_error <= 2 * PTS_BOUND
    }

    pub open spec fn zeroed() -> Self {
        SyncStats {
            sync_error: 0,
            avg_sync_error: 0,
            max_sync_error: 0,
            corrections: 0,
            dropped_frames: 0,
            repeated_frames: 0,
            audio_underruns: 0,
        }
    }
}

impl Default for SyncStats {
    fn default() -> (r: Self)
        ensures
            r == SyncStats::zeroed(),
    {
        SyncStats {
            sync_error: 0,
            avg_sync_error: 0,
            max_sync_error: 0,
            corrections: 0,
            dropped_frames: 0,
            repeated_frames: 0,
            audio_underruns: 0,
        }
    }
}

/// Elapsed time from `start` to `now`, clamped into `[0, i64::MAX]`.
pub open spec fn elapsed_clamped(start: int, now: int) -> int {
    if now < start {
        0
    } else if now - start > i64::MAX {
        i64::MAX as int
    } else {
        now - start
    }
}

/// A saturating counter increment.
pub open spec fn bump(c: u64) -> u64 {
    if c < u64::MAX {
        (c + 1) as u64
    } else {
        u64::MAX
    }
}

/// One step of the exponential moving average with smoothing 1/10:
/// `(9 * avg + error) / 10`, rounding toward zero as the executable
/// integer division does.
pub open spec fn ema_step(avg: int, error: int) -> int {
    let s = 9 * avg + error;
    if s >= 0 {
        s / 10
    } else {
        -((-s) / 10)
    }
}

/// The decision for a frame whose sync error (frame PTS minus master PTS)
/// is `e` microseconds: unrecoverably late frames are dropped, clearly
/// early frames wait, frames within the target accuracy display as they
/// are, and everything in between displays with a timing adjustment.
pub open spec fn sync_decision(e: int) -> FrameAction {
    if e < -MAX_SYNC_DEVIATION_US {
        FrameAction::Drop
    } else if e > MAX_SYNC_DEVIATION_US {
        FrameAction::Wait(e as i64)
    } else if -SYNC_TARGET_US < e < SYNC_TARGET_US {
        FrameAction::Display
    } else {
        FrameAction::DisplayWithAdjustment(e as i64)
    }
}

/// Law (sync thresholds): for a master clock at `M` and a frame at
/// `pts` with error `e = pts - M`, the decision is `Drop` exactly when
/// `e < -40_000`, `Wait` exactly when `e > 40_000`, `Display` exactly
/// when `|e| < 1_000`, and `DisplayWithAdjustment` otherwise — with
/// the wait and adjustment payloads carrying `e` itself.
pub proof fn lemma_sync_decision_cases(e: int)
    requires
        -2 * PTS_BOUND <= e <= 2 * PTS_BOUND,
    ensures
        sync_decision(e) is Drop <==> e < -MAX_SYNC_DEVIATION_US,
        sync_decision(e) == FrameAction::Wait(e as i64) <==> e > MAX_SYNC_DEVIATION_US,
        sync_decision(e) is Display <==> -SYNC_TARGET_US < e < SYNC_TARGET_US,
        sync_decision(e) == FrameAction::DisplayWithAdjustment(e as i64) <==> (
        -MAX_SYNC_DEVIATION_US <= e <= -SYNC_TARGET_US || SYNC_TARGET_US <= e
            <= MAX_SYNC_DEVIATION_US),
        !(sync_decision(e) is Repeat),
{
}

/// Audio/video synchronization controller: owns both clocks and decides,
/// per candidate frame, whether to display, wait, drop or adjust.
pub struct AVSyncController {
    /// Master clock (fed by audio in `AudioMaster` mode).
    pub master_clock: MasterClock,
    /// Video clock.
    pub video_clock: VideoClock,
    /// Sync statistics.
    pub stats: SyncStats,
    /// Sync mode.
    pub mode: SyncMode,
    /// Sync correction enabled.
    pub correction_enabled: bool,
}

impl AVSyncController {
    pub open spec fn wf(&self) -> bool {
        &&& self.master_clock.wf()
        &&& self.stats.wf()
    }

    pub fn new() -> (r: Self)
        ensures
            r.wf(),
            r.mode == SyncMode::AudioMaster,
            r.master_clock.current_pts == 0,
            r.master_clock.speed_permille == 1000,
            r.video_clock.dropped_frames == 0,
            r.video_clock.repeated_frames == 0,
            r.stats == SyncStats::zeroed(),
            r.correction_enabled,
    {
        AVSyncController {
            master_clock: MasterClock::new(),
            video_clock: VideoClock::new(),
            stats: SyncStats::default(),
            mode: SyncMode::AudioMaster,
            correction_enabled: true,
        }
    }

    /// Record a sync error in the running statistics: the current error,
    /// its moving average, and the peak absolute error.
    pub fn update_sync_stats(&mut self, error: i64)
        requires
            old(self).wf(),
            -2 * PTS_BOUND <= error <= 2 * PTS_BOUND,
        ensures
            final(self).wf(),
            final(self).stats.sync_error == error,
            final(self).stats.avg_sync_error == ema_step(
                old(self).stats.avg_sync_error as int,
                error as int,
            ),
            final(self).stats.max_sync_error == (
                if abs_i64(error as int) > old(self).stats.max_sync_error {
                    abs_i64(error as int)
                } else {
                    old(self).stats.max_sync_error as int
                }
            ),
            final(self).stats.corrections == old(self).stats.corrections,
            final(self).stats.dropped_frames == old(self).stats.dropped_frames,
            final(self).stats.repeated_frames == old(self).stats.repeated_frames,
            final(self).stats.audio_underruns == old(self).stats.audio_underruns,
            final(self).master_clock == old(self).master_clock,
            final(self).video_clock == old(self).video_clock,
            final(self).mode == old(self).mode,
            final(self).correction_enabled == old(self).correction_enabled,
    {
        self.stats.sync_error = error;
        let s: i64 = 9 * self.stats.avg_sync_error + error;
        let avg: i64 = if s >= 0 {
            ((s as u64) / 10) as i64
        } else {
            -((((-s) as u64) / 10) as i64)
        };
        self.stats.avg_sync_error = avg;
        let magnitude: i64 = if error < 0 {
            -error
        } else {
            error
        };
        if magnitude > self.stats.max_sync_error {
            self.stats.max_sync_error = magnitude;
        }
    }

    /// Update the audio clock. In `AudioMaster` mode the audio PTS drives
    /// the master clock directly; in every other mode the update only
    /// feeds the statistics with the audio-versus-master error.
    pub fn update_audio(&mut self, pts: i64, samples: u64)
        requires
            old(self).wf(),
            -PTS_BOUND <= pts <= PTS_BOUND,
        ensures
            final(self).wf(),
            old(self).mode == SyncMode::AudioMaster ==> {
                &&& final(self).master_clock == (MasterClock {
                    current_pts: pts,
                    ..old(self).master_clock
                })
                &&& final(self).stats == old(self).stats
            },
            old(self).mode != SyncMode::AudioMaster ==> {
                &&& final(self).master_clock == old(self).master_clock
                &&& final(self).stats.sync_error == pts - old(self).master_clock.current_pts
            },
            final(self).video_clock == old(self).video_clock,
            final(self).mode == old(self).mode,
            final(self).correction_enabled == old(self).correction_enabled,
    {
        match self.mode {
            SyncMode::AudioMaster => {
                self.master_clock.set_pts(pts);
            },
            _ => {
                // audio follows the master clock
                let master_pts = self.master_clock.get_pts();
                let error = pts - master_pts;
                self.update_sync_stats(error);
            },
        }
    }

    /// Decide what to do with a video frame carrying `frame_pts`, against
    /// the current master clock position. Exactly `sync_decision` of the
    /// sync error; a dropped frame bumps the dropped counters, a displayed
    /// frame records its PTS as last displayed, and every call updates the
    /// running statistics.
    pub fn should_display_frame(&mut self, frame_pts: i64) -> (action: FrameAction)
        requires
            old(self).wf(),
            -PTS_BOUND <= frame_pts <= PTS_BOUND,
        ensures
            final(self).wf(),
            action == sync_decision(frame_pts - old(self).master_clock.current_pts),
            final(self).master_clock == old(self).master_clock,
            final(self).mode == old(self).mode,
            final(self).stats.sync_error == frame_pts - old(self).master_clock.current_pts,
            final(self).stats.avg_sync_error == ema_step(
                old(self).stats.avg_sync_error as int,
                frame_pts - old(self).master_clock.current_pts,
            ),
            final(self).stats.max_sync_error == (
                if abs_i64(frame_pts - old(self).master_clock.current_pts) > old(
                    self,
                ).stats.max_sync_error {
                    abs_i64(frame_pts - old(self).master_clock.current_pts)
                } else {
                    old(self).stats.max_sync_error as int
                }
            ),
            action == FrameAction::Drop ==> {
                &&& final(self).video_clock == (VideoClock {
                    dropped_frames: bump(old(self).video_clock.dropped_frames),
                    ..old(self).video_clock
                })
                &&& final(self).stats.dropped_frames == bump(old(self).stats.dropped_frames)
            },
            (action == FrameAction::Display || action matches FrameAction::DisplayWithAdjustment(_))
                ==> final(self).video_clock == (VideoClock {
                    last_pts: frame_pts,
                    ..old(self).video_clock
                }),
            action matches FrameAction::Wait(_) ==> final(self).video_clock == old(self).video_clock,
    {
        let master_pts = self.master_clock.get_pts();
        let sync_error = frame_pts - master_pts;

        self.update_sync_stats(sync_error);

        if sync_error < -MAX_SYNC_DEVIATION_US {
            // frame is unrecoverably late: drop it
            if self.video_clock.dropped_frames < u64::MAX {
                self.video_clock.dropped_frames = self.video_clock.dropped_frames + 1;
            } else {
                self.video_clock.dropped_frames = u64::MAX;
            }
            if self.stats.dropped_frames < u64::MAX {
                self.stats.dropped_frames = self.stats.dropped_frames + 1;
            } else {
                self.stats.dropped_frames = u64::MAX;
            }
            FrameAction::Drop
        } else if sync_error > MAX_SYNC_DEVIATION_US {
            // frame is early: let the caller sleep and re-evaluate
            FrameAction::Wait(sync_error)
        } else if -SYNC_TARGET_US < sync_error && sync_error < SYNC_TARGET_US {
            // frame is in sync
            self.video_clock.last_pts = frame_pts;
            FrameAction::Display
        } else {
            // small sync error: display with a timing adjustment
            self.video_clock.last_pts = frame_pts;
            FrameAction::DisplayWithAdjustment(sync_error)
        }
    }

    /// Set synchronization mode.
    pub fn set_mode(&mut self, mode: SyncMode)
        ensures
            *final(self) == (AVSyncController { mode, ..*old(self) }),
    {
        self.mode = mode;
    }

    /// Get current synchronization mode.
    pub fn get_mode(&self) -> (r: SyncMode)
        ensures
            r == self.mode,
    {
        self.mode
    }

    /// Enable or disable sync correction.
    pub fn set_correction_enabled(&mut self, enabled: bool)
        ensures
            *final(self) == (AVSyncController { correction_enabled: enabled, ..*old(self) }),
    {
        self.correction_enabled = enabled;
    }

    /// Get sync statistics, with the frame counters taken from the video
    /// clock.
    pub fn get_stats(&self) -> (r: SyncStats)
        ensures
            r == (SyncStats {
                dropped_frames: self.video_clock.dropped_frames,
                repeated_frames: self.video_clock.repeated_frames,
                ..self.stats
            }),
    {
        SyncStats {
            sync_error: self.stats.sync_error,
            avg_sync_error: self.stats.avg_sync_error,
            max_sync_error: self.stats.max_sync_error,
            corrections: self.stats.corrections,
            dropped_frames: self.video_clock.dropped_frames,
            repeated_frames: self.video_clock.repeated_frames,
            audio_underruns: self.stats.audio_underruns,
        }
    }

    /// Reset sync statistics and the frame counters.
    pub fn reset_stats(&mut self)
        ensures
            old(self).master_clock.wf() ==> final(self).wf(),
            final(self).stats == SyncStats::zeroed(),
            final(self).video_clock == (VideoClock {
                dropped_frames: 0,
                repeated_frames: 0,
                ..old(self).video_clock
            }),
            final(self).master_clock == old(self).master_clock,
            final(self).mode == old(self).mode,
            final(self).correction_enabled == old(self).correction_enabled,
    {
        self.stats = SyncStats::default();
        self.video_clock.dropped_frames = 0;
        self.video_clock.repeated_frames = 0;
    }

    /// Reset the whole controller after a seek: statistics, counters and
    /// the master clock position.
    pub fn reset(&mut self)
        requires
            old(self).wf(),
        ensures
            final(self).wf(),
            final(self).stats == SyncStats::zeroed(),
            final(self).master_clock == (MasterClock { current_pts: 0, ..old(self).master_clock }),
            final(self).video_clock == (VideoClock {
                dropped_frames: 0,
                repeated_frames: 0,
                ..old(self).video_clock
            }),
            final(self).mode == old(self).mode,
    {
        self.reset_stats();
        self.master_clock.set_pts(0);
    }

    /// Set the playback speed on the master clock (permille, clamped to
    /// [100, 4000]).
    pub fn set_playback_speed(&mut self, speed_permille: u32)
        requires
            old(self).wf(),
        ensures
            final(self).wf(),
            final(self).master_clock.speed_permille == (
                if speed_permille < 100 {
                    100u32
                } else if speed_permille > 4000 {
                    4000u32
                } else {
                    speed_permille
                }
            ),
            final(self).master_clock.current_pts == old(self).master_clock.current_pts,
            final(self).stats == old(self).stats,
            final(self).video_clock == old(self).video_clock,
            final(self).mode == old(self).mode,
    {
        self.master_clock.set_speed(speed_permille);
    }

    /// Set frame duration for the video clock.
    pub fn set_frame_duration(&mut self, duration_us: i64)
        ensures
            *final(self) == (AVSyncController {
                video_clock: VideoClock {
                    frame_duration: duration_us,
                    ..old(self).video_clock
                },
                ..*old(self)
            }),
    {
        self.video_clock.frame_duration = duration_us;
    }
}

/// Absolute value of a bounded `i64`, as a spec-level integer.
pub open spec fn abs_i64(x: int) -> int {
    if x < 0 {
        -x
    } else {
        x
    }
}

/// Sync adjustment calculator for smooth corrections: a proportional
/// controller whose speed is a factor in millionths.
pub struct SyncAdjuster {
    /// Target sync error (usually 0).
    pub target: i64,
    /// Current adjustment in microseconds.
    pub current_adjustment: i64,
    /// Adjustment speed in millionths (a proportional gain).
    pub speed_micro: u32,
}

/// The proportional adjustment for an error: `error * speed / 1_000_000`,
/// rounding toward zero.
pub open spec fn proportional_adjustment(error: int, speed_micro: int) -> int {
    if error >= 0 {
        (error * speed_micro) / 1_000_000
    } else {
        -(((-error) * speed_micro) / 1_000_000)
    }
}

impl SyncAdjuster {
    pub open spec fn wf(&self) -> bool {
        100 <= self.speed_micro <= 100_000
    }

    pub fn new() -> (r: Self)
        ensures
            r.wf(),
            r.target == 0,
            r.current_adjustment == 0,
            r.speed_micro == 1000,
    {
        SyncAdjuster { target: 0, current_adjustment: 0, speed_micro: 1000 }
    }

    /// Calculate the adjustment for a given error and remember it.
    pub fn calculate_adjustment(&mut self, error: i64) -> (r: i64)
        requires
            old(self).wf(),
            -PTS_BOUND <= error <= PTS_BOUND,
        ensures
            final(self).wf(),
            r == proportional_adjustment(error as int, old(self).speed_micro as int),
            *final(self) == (SyncAdjuster { current_adjustment: r, ..*old(self) }),
    {
        let e_abs: i128 = if error >= 0 {
            error as i128
        } else {
            -(error as i128)
        };
        proof {
            assert(0 <= (e_abs as int) * (self.speed_micro as int)
                <= (PTS_BOUND as int) * 100_000) by (nonlinear_arith)
                requires
                    0 <= e_abs <= PTS_BOUND as int,
                    0 <= self.speed_micro <= 100_000,
            ;
        }
        let scaled: i128 = e_abs * (self.speed_micro as i128);
        let q: i128 = scaled / 1_000_000;
        proof {
            assert(0 <= scaled / 1_000_000 <= (PTS_BOUND as int) * 100_000 / 1_000_000)
                by (nonlinear_arith)
                requires
                    0 <= scaled <= (PTS_BOUND as int) * 100_000,
            ;
        }
        let adjustment: i64 = if error >= 0 {
            q as i64
        } else {
            -(q as i64)
        };
        self.current_adjustment = adjustment;
        adjustment
    }

    /// Reset the remembered adjustment.
    pub fn reset(&mut self)
        ensures
            *final(self) == (SyncAdjuster { current_adjustment: 0, ..*old(self) }),
    {
        self.current_adjustment = 0;
    }

    /// Set adjustment speed in millionths, clamped to [100, 100_000]
    /// (0.0001 to 0.1 as a factor).
    pub fn set_speed(&mut self, speed_micro: u32)
        ensures
            final(self).wf(),
            final(self).speed_micro == (
                if speed_micro < 100 {
                    100u32
                } else if speed_micro > 100_000 {
                    100_000u32
                } else {
                    speed_micro
                }
            ),
            final(self).target == old(self).target,
            final(self).current_adjustment == old(self).current_adjustment,
    {
        let clamped: u32 = if speed_micro < 100 {
            100
        } else if speed_micro > 100_000 {
            100_000
        } else {
            speed_micro
        };
        self.speed_micro = clamped;
    }
}

/// External time source for custom clock implementations (the pluggable
/// reference of `SyncMode::ExternalClock`).
pub trait ExternalTimeSource {
    /// Current time in microseconds.
    fn get_time_us(&self) -> i64;

    /// Clock speed in permille (1000 = normal).
    fn get_speed_permille(&self) -> u32;
}

#[verifier::external_type_specification]
#[verifier::external_body]
pub struct ExInstant(std::time::Instant);

/// Relies on `std::time::Instant::now`: an opaque monotonic time point.
#[verifier::external_body]
fn instant_now() -> (r: std::time::Instant) {
    std::time::Instant::now()
}

/// Relies on `std::time::Instant::elapsed`: microseconds since `start` on
/// the monotonic clock. The result depends on the time of the call, so
/// nothing is promised about the value.
#[verifier::external_body]
fn elapsed_micros(start: &std::time::Instant) -> (r: u64) {
    start.elapsed().as_micros() as u64
}

/// System time source: monotonic microseconds since its creation.
pub struct SystemTimeSource {
    start_time: std::time::Instant,
}

impl SystemTimeSource {
    pub fn new() -> Self {
        SystemTimeSource { start_time: instant_now() }
    }
}

impl ExternalTimeSource for SystemTimeSource {
    fn get_time_us(&self) -> i64 {
        let us = elapsed_micros(&self.start_time);
        if us > i64::MAX as u64 {
            i64::MAX
        } else {
            us as i64
        }
    }

    fn get_speed_permille(&self) -> u32 {
        1000
    }
}

} // verus!
