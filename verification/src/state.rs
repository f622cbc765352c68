//! Player state management: the playback state machine's data, the
//! player configuration, statistics tracking and the resume-position
//! history.
//!
//! Wall-clock readings come in as explicit microsecond arguments;
//! persisting the history or the configuration to disk is the
//! embedder's concern.

use vstd::prelude::*;
use vstd::string::StringExecFns;
use crate::media::MediaInfo;
use crate::volume::UNITY_GAIN;
use crate::util::str_eq;

verus! {

/// Playback state.
#[derive(Clone, Copy, Debug, PartialEq, Eq, Structural)]
pub enum PlaybackState {
    /// No media loaded.
    Idle,
    /// Media loaded but not playing.
    Stopped,
    /// Currently playing.
    Playing,
    /// Playback paused.
    Paused,
    /// Buffering media.
    Buffering,
    /// Seeking to position.
    Seeking,
    /// End of media reached.
    Ended,
    /// Error occurred.
    Error,
}

/// Screenshot format.
#[derive(Clone, Copy, Debug, PartialEq, Eq, Structural)]
pub enum ScreenshotFormat {
    Png,
    Jpeg,
    Webp,
}

/// Repeat mode.
#[derive(Clone, Copy, Debug, PartialEq, Eq, Structural)]
pub enum RepeatMode {
    /// No repeat.
    Off,
    /// Repeat current item.
    One,
    /// Repeat entire playlist.
    All,
}

/// Playlist item.
#[derive(Clone, Debug)]
pub struct PlaylistItem {
    /// File path or URL.
    pub path: String,
    /// Display title.
    pub title: Option<String>,
    /// Duration in microseconds, if known.
    pub duration_us: Option<i64>,
}

/// Playlist management.
#[derive(Clone, Debug)]
pub struct Playlist {
    /// List of media items.
    pub items: Vec<PlaylistItem>,
    /// Current item index.
    pub current_index: Option<usize>,
    /// Shuffle mode.
    pub shuffle: bool,
    /// Repeat mode.
    pub repeat_mode: RepeatMode,
}

impl Playlist {
    pub fn empty() -> (r: Self)
        ensures
            r.items@.len() == 0,
            r.current_index.is_none(),
            !r.shuffle,
            r.repeat_mode == RepeatMode::Off,
    {
        Playlist {
            items: Vec::new(),
            current_index: None,
            shuffle: false,
            repeat_mode: RepeatMode::Off,
        }
    }
}

/// Player configuration. Volumes are factors in millionths, the sync
/// threshold is milliseconds.
#[derive(Clone, Copy, Debug, PartialEq, Eq, Structural)]
pub struct PlayerConfig {
    /// Auto-play when media is loaded.
    pub auto_play: bool,
    /// Remember playback position.
    pub remember_position: bool,
    /// Loop playback.
    pub loop_playback: bool,
    /// Default volume in millionths (0 to unity).
    pub default_volume: u32,
    /// Seek step in seconds.
    pub seek_step: u64,
    /// Fast seek step in seconds.
    pub fast_seek_step: u64,
    /// Volume step in millionths.
    pub volume_step: u32,
    /// Enable frame dropping for performance.
    pub allow_frame_drop: bool,
    /// A/V sync threshold in milliseconds.
    pub av_sync_threshold: i64,
    /// Subtitle settings.
    pub subtitle_enabled: bool,
    /// Screenshot format.
    pub screenshot_format: ScreenshotFormat,
    /// Screenshot quality.
    pub screenshot_quality: u8,
}

impl Default for PlayerConfig {
    fn default() -> (r: Self)
        ensures
            r == (PlayerConfig {
                auto_play: true,
                remember_position: false,
                loop_playback: false,
                default_volume: 700_000u32,
                seek_step: 10u64,
                fast_seek_step: 60u64,
                volume_step: 50_000u32,
                allow_frame_drop: true,
                av_sync_threshold: 40i64,
                subtitle_enabled: true,
                screenshot_format: ScreenshotFormat::Png,
                screenshot_quality: 90u8,
            }),
    {
        PlayerConfig {
            auto_play: true,
            remember_position: false,
            loop_playback: false,
            default_volume: 700_000,  // 0.7 of unity
            seek_step: 10,
            fast_seek_step: 60,
            volume_step: 50_000,  // 0.05 of unity
            allow_frame_drop: true,
            av_sync_threshold: 40,  // 40 ms
            subtitle_enabled: true,
            screenshot_format: ScreenshotFormat::Png,
            screenshot_quality: 90,
        }
    }
}

/// Playback statistics. Buffer health is in permille.
#[derive(Clone, Copy, Debug, PartialEq, Eq, Structural)]
pub struct PlaybackStats {
    /// Video frames rendered.
    pub frames_rendered: u64,
    /// Video frames dropped.
    pub frames_dropped: u64,
    /// Audio samples played.
    pub audio_samples_played: u64,
    /// Current video bitrate.
    pub video_bitrate: u32,
    /// Current audio bitrate.
    pub audio_bitrate: u32,
    /// Buffer health in permille (0 to 1000).
    pub buffer_health_permille: u32,
}

impl PlaybackStats {
    pub open spec fn zeroed() -> Self {
        PlaybackStats {
            frames_rendered: 0,
            frames_dropped: 0,
            audio_samples_played: 0,
            video_bitrate: 0,
            audio_bitrate: 0,
            buffer_health_permille: 0,
        }
    }
}

impl Default for PlaybackStats {
    fn default() -> (r: Self)
        ensures
            r == PlaybackStats::zeroed(),
    {
        PlaybackStats {
            frames_rendered: 0,
            frames_dropped: 0,
            audio_samples_played: 0,
            video_bitrate: 0,
            audio_bitrate: 0,
            buffer_health_permille: 0,
        }
    }
}

/// The player state data guarded by the state manager.
#[derive(Clone, Debug)]
pub struct PlayerStateData {
    /// Current playback state.
    pub playback_state: PlaybackState,
    /// Current media info.
    pub media_info: Option<MediaInfo>,
    /// Current position in microseconds.
    pub position_us: i64,
    /// Duration in microseconds.
    pub duration_us: i64,
    /// Playback speed in permille.
    pub speed_permille: u32,
    /// Volume in millionths (0 to unity).
    pub volume: u32,
    /// Previous volume (for mute/unmute), in millionths.
    pub previous_volume: u32,
    /// Muted state.
    pub muted: bool,
    /// Fullscreen state.
    pub fullscreen: bool,
    /// Current playlist.
    pub playlist: Playlist,
    /// Buffering level in permille.
    pub buffer_permille: u32,
    /// Last error message.
    pub last_error: Option<String>,
}

impl Default for PlayerStateData {
    fn default() -> (r: Self)
        ensures
            r.playback_state == PlaybackState::Idle,
            r.media_info.is_none(),
            r.position_us == 0,
            r.duration_us == 0,
            r.speed_permille == 1000,
            r.volume == 700_000,
            r.previous_volume == 700_000,
            !r.muted,
            !r.fullscreen,
            r.playlist.items@.len() == 0,
            r.buffer_permille == 0,
            r.last_error.is_none(),
    {
        PlayerStateData {
            playback_state: PlaybackState::Idle,
            media_info: None,
            position_us: 0,
            duration_us: 0,
            speed_permille: 1000,
            volume: 700_000,
            previous_volume: 700_000,
            muted: false,
            fullscreen: false,
            playlist: Playlist::empty(),
            buffer_permille: 0,
            last_error: None,
        }
    }
}

/// State change event.
#[derive(Clone, Debug)]
pub enum StateChangeEvent {
    PlaybackStateChanged(PlaybackState),
    MediaLoaded(MediaInfo),
    PositionChangedUs(i64),
    VolumeChanged(u32),
    SpeedChangedPermille(u32),
    BufferChangedPermille(u32),
    ErrorOccurred(String),
}

/// The sum of the bitrate samples in a list.
pub open spec fn bitrate_sum(s: Seq<(i64, u32)>) -> int
    decreases s.len(),
{
    if s.len() == 0 {
        0
    } else {
        s[0].1 + bitrate_sum(s.drop_first())
    }
}

/// The samples of `s` stamped after `cutoff`.
pub open spec fn retained_after(s: Seq<(i64, u32)>, cutoff: int) -> Seq<(i64, u32)> {
    s.filter(|e: (i64, u32)| e.0 > cutoff)
}

/// Statistics tracker: counters plus one minute of bitrate samples,
/// stamped with the caller's clock.
pub struct StatsTracker {
    /// When playback started, if it is running.
    pub playing_since_us: Option<i64>,
    /// Total accumulated playback time in microseconds.
    pub total_playback_us: i64,
    /// Frames rendered.
    pub frames_rendered: u64,
    /// Frames dropped.
    pub frames_dropped: u64,
    /// Audio samples played.
    pub audio_samples_played: u64,
    /// Audio underruns.
    pub audio_underruns: u64,
    /// Video bitrate samples: (timestamp in microseconds, bits/s).
    pub video_bitrate_samples: Vec<(i64, u32)>,
    /// Audio bitrate samples: (timestamp in microseconds, bits/s).
    pub audio_bitrate_samples: Vec<(i64, u32)>,
}

impl StatsTracker {
    pub fn new() -> (r: Self)
        ensures
            r.playing_since_us.is_none(),
            r.total_playback_us == 0,
            r.frames_rendered == 0,
            r.frames_dropped == 0,
            r.audio_samples_played == 0,
            r.audio_underruns == 0,
            r.video_bitrate_samples@.len() == 0,
            r.audio_bitrate_samples@.len() == 0,
    {
        StatsTracker {
            playing_since_us: None,
            total_playback_us: 0,
            frames_rendered: 0,
            frames_dropped: 0,
            audio_samples_played: 0,
            audio_underruns: 0,
            video_bitrate_samples: Vec::new(),
            audio_bitrate_samples: Vec::new(),
        }
    }

    /// Note that playback started at the caller's clock reading.
    pub fn start_playback(&mut self, now_us: i64)
        ensures
            *final(self) == (StatsTracker { playing_since_us: Some(now_us), ..*old(self) }),
    {
        self.playing_since_us = Some(now_us);
    }

    /// Note that playback stopped: the elapsed span joins the total
    /// (clamped at zero for a clock that ran backwards, saturating at
    /// the top).
    pub fn stop_playback(&mut self, now_us: i64)
        requires
            old(self).total_playback_us >= 0,
        ensures
            final(self).playing_since_us.is_none(),
            final(self).total_playback_us >= old(self).total_playback_us,
            old(self).playing_since_us.is_none() ==> *final(self) == *old(self),
            match old(self).playing_since_us {
                Some(start) => final(self).total_playback_us == (
                    if old(self).total_playback_us + crate::sync::elapsed_clamped(
                        start as int,
                        now_us as int,
                    ) > i64::MAX {
                        i64::MAX as int
                    } else {
                        old(self).total_playback_us + crate::sync::elapsed_clamped(
                            start as int,
                            now_us as int,
                        )
                    }
                ),
                None => true,
            },
    {
        match self.playing_since_us {
            Some(start) => {
                let elapsed: i64 = if now_us < start {
                    0
                } else if start >= 0 || now_us <= start + i64::MAX {
                    now_us - start
                } else {
                    i64::MAX
                };
                if self.total_playback_us <= i64::MAX - elapsed {
                    self.total_playback_us = self.total_playback_us + elapsed;
                } else {
                    self.total_playback_us = i64::MAX;
                }
                self.playing_since_us = None;
            },
            None => {},
        }
    }

    /// Record the frame counters reported by the render loop.
    pub fn update_frame_stats(&mut self, rendered: u64, dropped: u64)
        ensures
            *final(self) == (StatsTracker {
                frames_rendered: rendered,
                frames_dropped: dropped,
                ..*old(self)
            }),
    {
        self.frames_rendered = rendered;
        self.frames_dropped = dropped;
    }

    /// Add a bitrate sample at the caller's clock reading, keeping only
    /// the last 60 seconds of samples.
    pub fn add_bitrate_sample(&mut self, now_us: i64, video: u32, audio: u32)
        requires
            now_us >= i64::MIN + 60_000_000,
        ensures
            final(self).video_bitrate_samples@ == retained_after(
                old(self).video_bitrate_samples@,
                now_us - 60_000_000,
            ).push((now_us, video)),
            final(self).audio_bitrate_samples@ == retained_after(
                old(self).audio_bitrate_samples@,
                now_us - 60_000_000,
            ).push((now_us, audio)),
            final(self).playing_since_us == old(self).playing_since_us,
            final(self).total_playback_us == old(self).total_playback_us,
            final(self).frames_rendered == old(self).frames_rendered,
            final(self).frames_dropped == old(self).frames_dropped,
    {
        let cutoff: i64 = now_us - 60_000_000;
        self.video_bitrate_samples = retain_recent(&self.video_bitrate_samples, cutoff);
        self.audio_bitrate_samples = retain_recent(&self.audio_bitrate_samples, cutoff);
        self.video_bitrate_samples.push((now_us, video));
        self.audio_bitrate_samples.push((now_us, audio));
    }

    /// The average video and audio bitrates over the kept samples (zero
    /// with no samples).
    pub fn get_average_bitrates(&self) -> (r: (u32, u32))
        ensures
            self.video_bitrate_samples@.len() == 0 ==> r.0 == 0,
            self.video_bitrate_samples@.len() > 0 ==> r.0 == bitrate_sum(
                self.video_bitrate_samples@,
            ) / self.video_bitrate_samples@.len() as int,
            self.audio_bitrate_samples@.len() == 0 ==> r.1 == 0,
            self.audio_bitrate_samples@.len() > 0 ==> r.1 == bitrate_sum(
                self.audio_bitrate_samples@,
            ) / self.audio_bitrate_samples@.len() as int,
    {
        let video_avg = average_bitrate(&self.video_bitrate_samples);
        let audio_avg = average_bitrate(&self.audio_bitrate_samples);
        (video_avg, audio_avg)
    }

    /// The tracked counters as a statistics snapshot.
    pub fn to_playback_stats(&self) -> (r: PlaybackStats)
        ensures
            r.frames_rendered == self.frames_rendered,
            r.frames_dropped == self.frames_dropped,
            r.audio_samples_played == self.audio_samples_played,
            self.video_bitrate_samples@.len() > 0 ==> r.video_bitrate == bitrate_sum(
                self.video_bitrate_samples@,
            ) / self.video_bitrate_samples@.len() as int,
            self.audio_bitrate_samples@.len() > 0 ==> r.audio_bitrate == bitrate_sum(
                self.audio_bitrate_samples@,
            ) / self.audio_bitrate_samples@.len() as int,
            r.buffer_health_permille == 1000,
    {
        let (video_bitrate, audio_bitrate) = self.get_average_bitrates();
        PlaybackStats {
            frames_rendered: self.frames_rendered,
            frames_dropped: self.frames_dropped,
            audio_samples_played: self.audio_samples_played,
            video_bitrate,
            audio_bitrate,
            buffer_health_permille: 1000,
        }
    }
}

/// The samples stamped after `cutoff`, in their original order.
fn retain_recent(samples: &Vec<(i64, u32)>, cutoff: i64) -> (r: Vec<(i64, u32)>)
    ensures
        r@ == retained_after(samples@, cutoff as int),
{
    let mut out: Vec<(i64, u32)> = Vec::new();
    let mut i: usize = 0;
    proof {
        lemma_filter_take_empty(samples@, |e: (i64, u32)| e.0 > cutoff as int);
    }
    while i < samples.len()
        invariant
            i <= samples@.len(),
            out@ == samples@.take(i as int).filter(|e: (i64, u32)| e.0 > cutoff as int),
        decreases samples@.len() - i,
    {
        proof {
            lemma_filter_take_step(samples@, |e: (i64, u32)| e.0 > cutoff as int, i as int);
        }
        let (t, b) = samples[i];
        if t > cutoff {
            out.push((t, b));
        }
        i = i + 1;
    }
    proof {
        assert(samples@.take(samples@.len() as int) =~= samples@);
    }
    out
}

/// The average of the bitrate samples, zero when there are none.
fn average_bitrate(samples: &Vec<(i64, u32)>) -> (r: u32)
    ensures
        samples@.len() == 0 ==> r == 0,
        samples@.len() > 0 ==> r == bitrate_sum(samples@) / samples@.len() as int,
{
    if samples.len() == 0 {
        return 0;
    }
    let mut sum: u128 = 0;
    let mut i: usize = 0;
    while i < samples.len()
        invariant
            i <= samples@.len(),
            sum == bitrate_sum(samples@.subrange(0, i as int)),
            sum <= i * (u32::MAX as int),
        decreases samples@.len() - i,
    {
        proof {
            lemma_bitrate_sum_snoc(samples@.subrange(0, i + 1));
            assert(samples@.subrange(0, i + 1).drop_last() =~= samples@.subrange(0, i as int));
            assert(samples@.subrange(0, i + 1).last() == samples@[i as int]);
            assert((i + 1) * (u32::MAX as int) == i * (u32::MAX as int) + u32::MAX)
                by (nonlinear_arith);
        }
        sum = sum + (samples[i].1 as u128);
        i = i + 1;
    }
    proof {
        assert(samples@.subrange(0, samples@.len() as int) =~= samples@);
        assert(sum as int / samples@.len() as int <= u32::MAX as int) by (nonlinear_arith)
            requires
                0 <= sum <= samples@.len() * (u32::MAX as int),
                samples@.len() >= 1,
        ;
    }
    (sum / (samples.len() as u128)) as u32
}

/// Splitting off the last sample splits the sum.
proof fn lemma_bitrate_sum_snoc(s: Seq<(i64, u32)>)
    requires
        s.len() > 0,
    ensures
        bitrate_sum(s) == bitrate_sum(s.drop_last()) + s.last().1,
    decreases s.len(),
{
    if s.len() == 1 {
        assert(s.drop_last() =~= Seq::<(i64, u32)>::empty());
        assert(s.drop_first() =~= Seq::<(i64, u32)>::empty());
        assert(bitrate_sum(Seq::<(i64, u32)>::empty()) == 0);
        assert(bitrate_sum(s) == s[0].1 + bitrate_sum(s.drop_first()));
        assert(s.last() == s[0]);
    } else {
        lemma_bitrate_sum_snoc(s.drop_first());
        assert(s.drop_first().drop_last() =~= s.drop_last().drop_first());
        assert(s.drop_first().last() == s.last());
        assert(s.drop_last()[0] == s[0]);
        assert(s.drop_last().len() > 0);
        assert(bitrate_sum(s) == s[0].1 + bitrate_sum(s.drop_first()));
        assert(bitrate_sum(s.drop_last()) == s.drop_last()[0].1 + bitrate_sum(
            s.drop_last().drop_first(),
        ));
    }
}

/// Filtering an empty prefix gives the empty sequence.
proof fn lemma_filter_take_empty<A>(s: Seq<A>, pred: spec_fn(A) -> bool)
    ensures
        s.take(0).filter(pred) == Seq::<A>::empty(),
{
    reveal(Seq::filter);
    assert(s.take(0) =~= Seq::<A>::empty());
    assert(s.take(0).filter(pred) =~= Seq::<A>::empty());
}

/// Filtering one more element extends the filtered prefix by that
/// element exactly when it passes the predicate.
proof fn lemma_filter_take_step<A>(s: Seq<A>, pred: spec_fn(A) -> bool, i: int)
    requires
        0 <= i < s.len(),
    ensures
        s.take(i + 1).filter(pred) == if pred(s[i]) {
            s.take(i).filter(pred).push(s[i])
        } else {
            s.take(i).filter(pred)
        },
{
    reveal(Seq::filter);
    assert(s.take(i + 1).drop_last() =~= s.take(i));
    assert(s.take(i + 1).last() == s[i]);
}

/// A saved resume position for one source.
#[derive(Clone, Copy, Debug, PartialEq, Eq, Structural)]
pub struct PositionEntry {
    /// Last position in microseconds.
    pub position_us: i64,
    /// Total duration in microseconds.
    pub duration_us: i64,
}

/// All entries of `s` whose key differs from `key`.
pub open spec fn without_key(
    s: Seq<(String, PositionEntry)>,
    key: Seq<char>,
) -> Seq<(String, PositionEntry)> {
    s.filter(|e: (String, PositionEntry)| e.0@ != key)
}

/// The first entry with the given key, if any.
pub open spec fn lookup_position(
    s: Seq<(String, PositionEntry)>,
    key: Seq<char>,
) -> Option<PositionEntry>
    decreases s.len(),
{
    if s.len() == 0 {
        None
    } else if s[0].0@ == key {
        Some(s[0].1)
    } else {
        lookup_position(s.drop_first(), key)
    }
}

/// A position within the first twentieth of the stream or the last, so
/// near the beginning or the end that it is not worth resuming there.
pub open spec fn near_edge(position_us: int, duration_us: int) -> bool {
    20 * position_us < duration_us || 20 * position_us > 19 * duration_us
}

/// Position history for resume functionality: the last position per
/// source. The embedder persists it.
pub struct PositionHistory {
    /// Saved positions: source path paired with its entry.
    pub positions: Vec<(String, PositionEntry)>,
}

impl PositionHistory {
    pub fn new() -> (r: Self)
        ensures
            r.positions@.len() == 0,
    {
        PositionHistory { positions: Vec::new() }
    }

    /// Save the position for a source — unless it is near the
    /// beginning or the end of the stream (the first or last twentieth),
    /// in which case any saved entry is removed, so a finished or
    /// barely started stream restarts from the top.
    pub fn save_position(&mut self, path: &str, position_us: i64, duration_us: i64)
        ensures
            near_edge(position_us as int, duration_us as int) ==> final(self).positions@
                == without_key(old(self).positions@, path@),
            !near_edge(position_us as int, duration_us as int) ==> {
                let kept = without_key(old(self).positions@, path@);
                &&& final(self).positions@.len() == kept.len() + 1
                &&& final(self).positions@.take(kept.len() as int) == kept
                &&& final(self).positions@.last().0@ == path@
                &&& final(self).positions@.last().1 == (PositionEntry { position_us, duration_us })
            },
    {
        let scaled: i128 = 20 * (position_us as i128);
        let drop_entry: bool = scaled < duration_us as i128 || scaled > 19 * (
        duration_us as i128);

        let mut kept: Vec<(String, PositionEntry)> = Vec::new();
        let mut i: usize = 0;
        proof {
            lemma_filter_take_empty(
                self.positions@,
                |e: (String, PositionEntry)| e.0@ != path@,
            );
        }
        while i < self.positions.len()
            invariant
                i <= self.positions@.len(),
                kept@ == self.positions@.take(i as int).filter(
                    |e: (String, PositionEntry)| e.0@ != path@,
                ),
            decreases self.positions@.len() - i,
        {
            proof {
                lemma_filter_take_step(
                    self.positions@,
                    |e: (String, PositionEntry)| e.0@ != path@,
                    i as int,
                );
            }
            if !str_eq(self.positions[i].0.as_str(), path) {
                let entry = self.positions[i].1;
                let key = self.positions[i].0.clone();
                kept.push((key, entry));
            }
            i = i + 1;
        }
        proof {
            assert(self.positions@.take(self.positions@.len() as int) =~= self.positions@);
        }
        if !drop_entry {
            kept.push((String::from_str(path), PositionEntry { position_us, duration_us }));
        }
        self.positions = kept;
    }

    /// The saved position for a source, if one is kept.
    pub fn get_position(&self, path: &str) -> (r: Option<i64>)
        ensures
            r == match lookup_position(self.positions@, path@) {
                Some(e) => Some(e.position_us),
                None => None::<i64>,
            },
    {
        proof {
            assert(self.positions@.subrange(0, self.positions@.len() as int)
                =~= self.positions@);
        }
        let mut i: usize = 0;
        while i < self.positions.len()
            invariant
                i <= self.positions@.len(),
                lookup_position(self.positions@, path@) == lookup_position(
                    self.positions@.subrange(i as int, self.positions@.len() as int),
                    path@,
                ),
            decreases self.positions@.len() - i,
        {
            let ghost rest = self.positions@.subrange(i as int, self.positions@.len() as int);
            proof {
                assert(rest.drop_first() =~= self.positions@.subrange(
                    i + 1,
                    self.positions@.len() as int,
                ));
                assert(rest[0] == self.positions@[i as int]);
            }
            if str_eq(self.positions[i].0.as_str(), path) {
                return Some(self.positions[i].1.position_us);
            }
            i = i + 1;
        }
        proof {
            assert(self.positions@.subrange(
                self.positions@.len() as int,
                self.positions@.len() as int,
            ) =~= Seq::<(String, PositionEntry)>::empty());
        }
        None
    }
}

/// Player state manager: the single authoritative copy of the player's
/// state, its configuration, the statistics tracker and the resume
/// history. Command handlers mutate it; loops read it.
pub struct PlayerStateManager {
    /// Current state.
    pub state: PlayerStateData,
    /// Configuration.
    pub config: PlayerConfig,
    /// Statistics tracker.
    pub stats_tracker: StatsTracker,
    /// Position history for resuming.
    pub position_history: PositionHistory,
}

impl PlayerStateManager {
    pub open spec fn wf(&self) -> bool {
        &&& self.state.volume <= UNITY_GAIN
        &&& self.state.previous_volume <= UNITY_GAIN
        &&& 250 <= self.state.speed_permille <= 4000
        &&& self.stats_tracker.total_playback_us >= 0
    }

    /// Create a state manager with the given configuration.
    pub fn new(config: PlayerConfig) -> (r: Self)
        ensures
            r.wf(),
            r.config == config,
            r.state.playback_state == PlaybackState::Idle,
            r.state.volume == 700_000,
            r.state.speed_permille == 1000,
            !r.state.muted,
            !r.state.fullscreen,
            r.position_history.positions@.len() == 0,
    {
        PlayerStateManager {
            state: PlayerStateData::default(),
            config,
            stats_tracker: StatsTracker::new(),
            position_history: PositionHistory::new(),
        }
    }

    /// The current state.
    pub fn get_state(&self) -> (r: &PlayerStateData)
        ensures
            *r == self.state,
    {
        &self.state
    }

    /// Change the playback state; entering `Playing` starts the
    /// playback-time tracking, `Paused` and `Stopped` stop it.
    pub fn set_playback_state(&mut self, state: PlaybackState, now_us: i64)
        requires
            old(self).wf(),
        ensures
            final(self).wf(),
            final(self).state == (PlayerStateData { playback_state: state, ..old(self).state }),
            final(self).config == old(self).config,
            final(self).position_history == old(self).position_history,
            state == PlaybackState::Playing ==> final(self).stats_tracker.playing_since_us
                == Some(now_us),
            (state == PlaybackState::Paused || state == PlaybackState::Stopped) ==> final(self).stats_tracker.playing_since_us.is_none(),
    {
        self.state.playback_state = state;
        match state {
            PlaybackState::Playing => {
                self.stats_tracker.start_playback(now_us);
            },
            PlaybackState::Paused => {
                self.stats_tracker.stop_playback(now_us);
            },
            PlaybackState::Stopped => {
                self.stats_tracker.stop_playback(now_us);
            },
            _ => {},
        }
    }

    /// Record loaded media: the duration follows the media, and with
    /// position-resume enabled a remembered position is restored.
    pub fn set_media_info(&mut self, info: MediaInfo)
        requires
            old(self).wf(),
        ensures
            final(self).wf(),
            final(self).state.duration_us == info.duration_us,
            final(self).state.media_info == Some(info),
            final(self).state.position_us == (
                if old(self).config.remember_position {
                    match lookup_position(old(self).position_history.positions@, info.source@) {
                        Some(e) => e.position_us,
                        None => old(self).state.position_us,
                    }
                } else {
                    old(self).state.position_us
                }
            ),
            final(self).config == old(self).config,
            final(self).position_history == old(self).position_history,
    {
        self.state.duration_us = info.duration_us;
        if self.config.remember_position {
            match self.position_history.get_position(info.source.as_str()) {
                Some(position) => {
                    self.state.position_us = position;
                },
                None => {},
            }
        }
        self.state.media_info = Some(info);
    }

    /// Update the playback position. About every five seconds of
    /// stream time — whenever the position lands within the first
    /// tenth of a second past a five-second mark — the position is
    /// saved for resuming, if that is enabled and media is loaded.
    pub fn update_position(&mut self, position_us: i64)
        requires
            old(self).wf(),
        ensures
            final(self).wf(),
            final(self).state == (PlayerStateData {
                position_us,
                ..old(self).state
            }),
            final(self).config == old(self).config,
            !(old(self).config.remember_position && old(self).state.media_info.is_some()
                && position_us >= 0 && position_us as int % 5_000_000 < 100_000) ==> final(self).position_history == old(self).position_history,
            match old(self).state.media_info {
                Some(info) => (old(self).config.remember_position && position_us >= 0
                    && position_us as int % 5_000_000 < 100_000) ==> {
                    let kept = without_key(old(self).position_history.positions@, info.source@);
                    let entry = PositionEntry {
                        position_us,
                        duration_us: old(self).state.duration_us,
                    };
                    &&& (near_edge(position_us as int, old(self).state.duration_us as int)
                        ==> final(self).position_history.positions@ == kept)
                    &&& (!near_edge(position_us as int, old(self).state.duration_us as int)
                        ==> {
                        &&& final(self).position_history.positions@.len() == kept.len() + 1
                        &&& final(self).position_history.positions@.take(kept.len() as int)
                            == kept
                        &&& final(self).position_history.positions@.last().0@ == info.source@
                        &&& final(self).position_history.positions@.last().1 == entry
                    })
                },
                None => true,
            },
    {
        self.state.position_us = position_us;
        if self.config.remember_position && position_us >= 0 && (position_us as u64)
            % 5_000_000 < 100_000 {
            let source: Option<String> = match &self.state.media_info {
                Some(info) => Some(info.source.clone()),
                None => None,
            };
            match source {
                Some(path) => {
                    let duration = self.state.duration_us;
                    self.position_history.save_position(path.as_str(), position_us, duration);
                },
                None => {},
            }
        }
    }

    /// Set the volume in millionths (clamped to unity), remembering
    /// the previous volume while unmuted.
    pub fn set_volume(&mut self, volume: u32)
        requires
            old(self).wf(),
        ensures
            final(self).wf(),
            final(self).state.volume == crate::volume::clamp_unity(volume),
            final(self).state.previous_volume == (
                if old(self).state.muted {
                    old(self).state.previous_volume
                } else {
                    old(self).state.volume
                }
            ),
            final(self).state.muted == old(self).state.muted,
            final(self).state.playback_state == old(self).state.playback_state,
            final(self).config == old(self).config,
    {
        if !self.state.muted {
            self.state.previous_volume = self.state.volume;
        }
        self.state.volume = if volume > UNITY_GAIN {
            UNITY_GAIN
        } else {
            volume
        };
    }

    /// Toggle mute and return the resulting effective volume: muting
    /// remembers the volume and silences, unmuting restores it.
    pub fn toggle_mute(&mut self) -> (r: u32)
        requires
            old(self).wf(),
        ensures
            final(self).wf(),
            final(self).state.muted == !old(self).state.muted,
            !old(self).state.muted ==> {
                &&& r == 0
                &&& final(self).state.volume == 0
                &&& final(self).state.previous_volume == old(self).state.volume
            },
            old(self).state.muted ==> {
                &&& r == old(self).state.previous_volume
                &&& final(self).state.volume == old(self).state.previous_volume
            },
            final(self).config == old(self).config,
    {
        if !self.state.muted {
            self.state.muted = true;
            self.state.previous_volume = self.state.volume;
            self.state.volume = 0;
            0
        } else {
            self.state.muted = false;
            self.state.volume = self.state.previous_volume;
            self.state.volume
        }
    }

    /// Set playback speed in permille, clamped to [250, 4000].
    pub fn set_speed(&mut self, speed_permille: u32)
        requires
            old(self).wf(),
        ensures
            final(self).wf(),
            final(self).state.speed_permille == (
                if speed_permille < 250 {
                    250u32
                } else if speed_permille > 4000 {
                    4000u32
                } else {
                    speed_permille
                }
            ),
            final(self).state == (PlayerStateData {
                speed_permille: final(self).state.speed_permille,
                ..old(self).state
            }),
            final(self).config == old(self).config,
    {
        self.state.speed_permille = if speed_permille < 250 {
            250
        } else if speed_permille > 4000 {
            4000
        } else {
            speed_permille
        };
    }

    /// Set fullscreen state.
    pub fn set_fullscreen(&mut self, fullscreen: bool)
        requires
            old(self).wf(),
        ensures
            final(self).wf(),
            final(self).state == (PlayerStateData { fullscreen, ..old(self).state }),
            final(self).config == old(self).config,
    {
        self.state.fullscreen = fullscreen;
    }

    /// Update the buffering level, clamped to [0, 1000] permille.
    pub fn update_buffer(&mut self, permille: u32)
        requires
            old(self).wf(),
        ensures
            final(self).wf(),
            final(self).state.buffer_permille == (
                if permille > 1000 {
                    1000u32
                } else {
                    permille
                }
            ),
            final(self).state == (PlayerStateData {
                buffer_permille: final(self).state.buffer_permille,
                ..old(self).state
            }),
    {
        self.state.buffer_permille = if permille > 1000 {
            1000
        } else {
            permille
        };
    }

    /// Record an error: setting one moves the playback state to
    /// `Error`; clearing one leaves the state alone.
    pub fn set_error(&mut self, error: Option<String>)
        requires
            old(self).wf(),
        ensures
            final(self).wf(),
            final(self).state.last_error == error,
            error.is_some() ==> final(self).state.playback_state == PlaybackState::Error,
            error.is_none() ==> final(self).state.playback_state == old(self).state.playback_state,
            final(self).config == old(self).config,
    {
        let has_error = error.is_some();
        self.state.last_error = error;
        if has_error {
            self.state.playback_state = PlaybackState::Error;
        }
    }

    /// Record the frame counters reported by the render loop.
    pub fn update_stats(&mut self, frames_rendered: u64, frames_dropped: u64)
        requires
            old(self).wf(),
        ensures
            final(self).wf(),
            final(self).stats_tracker == (StatsTracker {
                frames_rendered,
                frames_dropped,
                ..old(self).stats_tracker
            }),
            final(self).state == old(self).state,
    {
        self.stats_tracker.update_frame_stats(frames_rendered, frames_dropped);
    }

    /// Add a bitrate sample at the caller's clock reading.
    pub fn add_bitrate_sample(&mut self, now_us: i64, video: u32, audio: u32)
        requires
            old(self).wf(),
            now_us >= i64::MIN + 60_000_000,
        ensures
            final(self).wf(),
            final(self).state == old(self).state,
            final(self).config == old(self).config,
    {
        self.stats_tracker.add_bitrate_sample(now_us, video, audio);
    }

    /// The tracked statistics as a snapshot.
    pub fn get_stats(&self) -> (r: PlaybackStats)
        ensures
            r.frames_rendered == self.stats_tracker.frames_rendered,
            r.frames_dropped == self.stats_tracker.frames_dropped,
    {
        self.stats_tracker.to_playback_stats()
    }

    /// The configuration.
    pub fn get_config(&self) -> (r: &PlayerConfig)
        ensures
            *r == self.config,
    {
        &self.config
    }

    /// Replace the configuration.
    pub fn set_config(&mut self, config: PlayerConfig)
        requires
            old(self).wf(),
        ensures
            final(self).wf(),
            final(self).config == config,
            final(self).state == old(self).state,
    {
        self.config = config;
    }
}

} // verus!
