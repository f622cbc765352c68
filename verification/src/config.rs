//! Application configuration: the typed settings and their validation
//! rules. Loading and saving the configuration (files, environment)
//! is the embedder's concern; it hands the parsed values in and gets
//! validated values back.

use vstd::prelude::*;
use vstd::string::StringExecFns;
use crate::error::{CCPlayerError, Result};
use crate::volume::UNITY_GAIN;
use crate::util::str_eq;

verus! {

/// Window configuration.
#[derive(Clone, Debug)]
pub struct WindowConfig {
    /// Initial window width.
    pub width: u32,
    /// Initial window height.
    pub height: u32,
    /// Start in fullscreen mode.
    pub fullscreen: bool,
    /// Window title.
    pub title: String,
    /// Always on top.
    pub always_on_top: bool,
    /// Start minimized.
    pub start_minimized: bool,
}

impl Default for WindowConfig {
    fn default() -> (r: Self)
        ensures
            r.width == 1280,
            r.height == 720,
            !r.fullscreen,
            r.title@ == "CCPlayer"@,
            !r.always_on_top,
            !r.start_minimized,
    {
        WindowConfig {
            width: 1280,
            height: 720,
            fullscreen: false,
            title: String::from_str("CCPlayer"),
            always_on_top: false,
            start_minimized: false,
        }
    }
}

/// Decoder configuration.
#[derive(Clone, Debug)]
pub struct DecoderConfig {
    /// Enable hardware acceleration.
    pub hardware_acceleration: bool,
    /// Number of threads for software decoding (0 = auto-detect).
    pub thread_count: usize,
    /// Frame buffer size.
    pub buffer_size: usize,
    /// Preferred video codec order.
    pub preferred_codecs: Vec<String>,
}

impl Default for DecoderConfig {
    fn default() -> (r: Self)
        ensures
            r.hardware_acceleration,
            r.thread_count == 0,
            r.buffer_size == 3,
            r.preferred_codecs@.len() == 4,
    {
        let mut preferred_codecs: Vec<String> = Vec::new();
        preferred_codecs.push(String::from_str("h264"));
        preferred_codecs.push(String::from_str("hevc"));
        preferred_codecs.push(String::from_str("vp9"));
        preferred_codecs.push(String::from_str("av1"));
        DecoderConfig {
            hardware_acceleration: true,
            thread_count: 0,  // 0 = auto-detect
            buffer_size: 3,
            preferred_codecs,
        }
    }
}

/// Audio configuration. Volume is a factor in millionths.
#[derive(Clone, Debug)]
pub struct AudioConfig {
    /// Initial volume in millionths (0 to unity).
    pub volume: u32,
    /// Audio buffer size in frames.
    pub buffer_size: usize,
    /// Sample rate (0 for auto-detect).
    pub sample_rate: u32,
    /// Enable audio normalization.
    pub normalize: bool,
}

impl Default for AudioConfig {
    fn default() -> (r: Self)
        ensures
            r.volume == 700_000,
            r.buffer_size == 512,
            r.sample_rate == 0,
            !r.normalize,
    {
        AudioConfig {
            volume: 700_000,  // 0.7 of unity
            buffer_size: 512,
            sample_rate: 0,  // 0 = auto-detect
            normalize: false,
        }
    }
}

/// Subtitle configuration. Opacity is in millionths.
#[derive(Clone, Debug)]
pub struct SubtitleConfig {
    /// Enable subtitles by default.
    pub enabled: bool,
    /// Font size.
    pub font_size: u32,
    /// Font color (hex).
    pub color: String,
    /// Background opacity in millionths (0 to unity).
    pub background_opacity: u32,
}

impl Default for SubtitleConfig {
    fn default() -> (r: Self)
        ensures
            r.enabled,
            r.font_size == 24,
            r.color@ == "#FFFFFF"@,
            r.background_opacity == 700_000,
    {
        SubtitleConfig {
            enabled: true,
            font_size: 24,
            color: String::from_str("#FFFFFF"),
            background_opacity: 700_000,
        }
    }
}

/// General application configuration.
#[derive(Clone, Debug)]
pub struct GeneralConfig {
    /// Remember window position and size.
    pub remember_window_state: bool,
    /// Log level (trace, debug, info, warn, error).
    pub log_level: String,
    /// Recent files list size.
    pub recent_files_limit: usize,
    /// Auto-play on file open.
    pub auto_play: bool,
    /// Subtitle settings.
    pub subtitles: SubtitleConfig,
}

impl Default for GeneralConfig {
    fn default() -> (r: Self)
        ensures
            r.remember_window_state,
            r.log_level@ == "info"@,
            r.recent_files_limit == 10,
            r.auto_play,
    {
        GeneralConfig {
            remember_window_state: true,
            log_level: String::from_str("info"),
            recent_files_limit: 10,
            auto_play: true,
            subtitles: SubtitleConfig::default(),
        }
    }
}

/// Main application configuration.
#[derive(Clone, Debug)]
pub struct Config {
    /// Window configuration.
    pub window: WindowConfig,
    /// Decoder configuration.
    pub decoder: DecoderConfig,
    /// Audio configuration.
    pub audio: AudioConfig,
    /// General application settings.
    pub general: GeneralConfig,
}

impl Default for Config {
    fn default() -> (r: Self)
        ensures
            r.window.width == 1280,
            r.window.height == 720,
            !r.window.fullscreen,
            r.audio.volume == 700_000,
            r.general.log_level@ == "info"@,
    {
        Config {
            window: WindowConfig::default(),
            decoder: DecoderConfig::default(),
            audio: AudioConfig::default(),
            general: GeneralConfig::default(),
        }
    }
}

/// Whether a log level name is one the player understands.
pub open spec fn valid_log_level(s: Seq<char>) -> bool {
    s == "trace"@ || s == "debug"@ || s == "info"@ || s == "warn"@ || s == "error"@
}

/// A configuration is valid when the window has a nonzero area, the
/// volume is at most unity, and the log level is known.
pub open spec fn config_valid(c: Config) -> bool {
    &&& c.window.width > 0
    &&& c.window.height > 0
    &&& c.audio.volume <= UNITY_GAIN
    &&& valid_log_level(c.general.log_level@)
}

impl Config {
    /// Validate the configuration: `Ok` exactly when the window
    /// dimensions are nonzero, the volume is at most unity and the log
    /// level is one of the known names; otherwise a configuration
    /// error naming the first violated rule.
    pub fn validate(&self) -> (r: Result<()>)
        ensures
            r is Ok <==> config_valid(*self),
            r matches Err(e) ==> e is Config,
    {
        if self.window.width == 0 || self.window.height == 0 {
            return Err(
                CCPlayerError::Config(String::from_str("window dimensions must be non-zero")),
            );
        }
        if self.audio.volume > UNITY_GAIN {
            return Err(
                CCPlayerError::Config(String::from_str("audio volume must be between 0 and 1")),
            );
        }
        let level = self.general.log_level.as_str();
        if str_eq(level, "trace") || str_eq(level, "debug") || str_eq(level, "info") || str_eq(
            level,
            "warn",
        ) || str_eq(level, "error") {
            Ok(())
        } else {
            Err(CCPlayerError::Config(String::from_str("invalid log level")))
        }
    }
}

} // verus!
