//! Media stream descriptions: what the demuxer/decoder reports about a
//! source. Container and codec parsing are the decoder capability's
//! concern; these types carry its answers through the player, with
//! rates and ratios as integers (frame rate in millihertz, chromaticity
//! coordinates in fifty-thousandths as in mastering-display metadata).

use vstd::prelude::*;
use vstd::string::StringExecFns;

verus! {

/// Color space information.
#[derive(Clone, Copy, Debug, PartialEq, Eq, Structural)]
pub enum ColorSpace {
    /// Standard dynamic range BT.709.
    Sdr,
    /// BT.2020 color space.
    Bt2020,
    /// DCI-P3 color space.
    DciP3,
    /// HDR10.
    Hdr10,
    /// HDR10+.
    Hdr10Plus,
    /// Dolby Vision.
    DolbyVision,
    /// Hybrid Log-Gamma.
    Hlg,
}

/// Hardware acceleration method.
#[derive(Clone, Copy, Debug, PartialEq, Eq, Structural)]
pub enum HwAccelMethod {
    /// No hardware acceleration.
    NoAccel,
    /// NVIDIA NVDEC/NVENC.
    Nvdec,
    /// Intel Quick Sync Video.
    Qsv,
    /// AMD VCE/VCN.
    Amf,
    /// Video Acceleration API (Linux).
    Vaapi,
    /// Video Decode Acceleration (macOS).
    Vda,
    /// VideoToolbox (macOS).
    VideoToolbox,
    /// Direct3D11 Video Acceleration (Windows).
    D3d11va,
    /// DirectX Video Acceleration 2 (Windows).
    Dxva2,
}

/// Hardware acceleration configuration.
#[derive(Clone, Debug)]
pub struct HwAccelConfig {
    /// Acceleration method to use.
    pub method: HwAccelMethod,
    /// Device name or index (if applicable).
    pub device: Option<String>,
    /// Additional options.
    pub options: Vec<(String, String)>,
}

/// Mastering display metadata; chromaticity coordinates in units of
/// 0.00002 and luminance in units of 0.0001 nits, as carried in the
/// container.
#[derive(Clone, Copy, Debug, PartialEq, Eq, Structural)]
pub struct MasteringDisplay {
    /// Red primary chromaticity.
    pub red_x: u32,
    pub red_y: u32,
    /// Green primary chromaticity.
    pub green_x: u32,
    pub green_y: u32,
    /// Blue primary chromaticity.
    pub blue_x: u32,
    pub blue_y: u32,
    /// White point chromaticity.
    pub white_x: u32,
    pub white_y: u32,
    /// Maximum luminance.
    pub max_luminance: u32,
    /// Minimum luminance.
    pub min_luminance: u32,
}

/// HDR metadata.
#[derive(Clone, Debug)]
pub struct HdrMetadata {
    /// Maximum content light level.
    pub max_cll: u32,
    /// Maximum frame average light level.
    pub max_fall: u32,
    /// Mastering display metadata.
    pub mastering_display: Option<MasteringDisplay>,
}

/// Video stream information. Frame rate is in millihertz.
#[derive(Clone, Debug)]
pub struct VideoStreamInfo {
    /// Stream index.
    pub index: usize,
    /// Codec name.
    pub codec: String,
    /// Video width.
    pub width: u32,
    /// Video height.
    pub height: u32,
    /// Frame rate in millihertz (frames per 1000 seconds).
    pub fps_milli: u32,
    /// Bitrate in bits per second.
    pub bitrate: Option<u32>,
    /// Pixel format.
    pub pixel_format: String,
    /// Color space.
    pub color_space: ColorSpace,
    /// HDR metadata if available.
    pub hdr_metadata: Option<HdrMetadata>,
}

/// Audio stream information.
#[derive(Clone, Debug)]
pub struct AudioStreamInfo {
    /// Stream index.
    pub index: usize,
    /// Codec name.
    pub codec: String,
    /// Sample rate in Hz.
    pub sample_rate: u32,
    /// Number of channels.
    pub channels: u32,
    /// Channel layout.
    pub channel_layout: String,
    /// Bitrate in bits per second.
    pub bitrate: Option<u32>,
    /// Sample format.
    pub sample_format: String,
    /// Language tag.
    pub language: Option<String>,
}

/// Subtitle stream information.
#[derive(Clone, Debug)]
pub struct SubtitleStreamInfo {
    /// Stream index.
    pub index: usize,
    /// Codec name.
    pub codec: String,
    /// Language tag.
    pub language: Option<String>,
    /// Title.
    pub title: Option<String>,
    /// Whether this is a forced subtitle.
    pub forced: bool,
}

/// Media metadata tags.
#[derive(Clone, Debug)]
pub struct MediaMetadata {
    /// Title.
    pub title: Option<String>,
    /// Artist/Author.
    pub artist: Option<String>,
    /// Album.
    pub album: Option<String>,
    /// Year.
    pub year: Option<u32>,
    /// Genre.
    pub genre: Option<String>,
    /// Comment.
    pub comment: Option<String>,
    /// Track number.
    pub track: Option<u32>,
    /// Custom tags.
    pub custom: Vec<(String, String)>,
}

impl Default for MediaMetadata {
    fn default() -> (r: Self)
        ensures
            r.title.is_none(),
            r.artist.is_none(),
            r.album.is_none(),
            r.year.is_none(),
            r.genre.is_none(),
            r.comment.is_none(),
            r.track.is_none(),
            r.custom@.len() == 0,
    {
        MediaMetadata {
            title: None,
            artist: None,
            album: None,
            year: None,
            genre: None,
            comment: None,
            track: None,
            custom: Vec::new(),
        }
    }
}

/// Media information for one source.
#[derive(Clone, Debug)]
pub struct MediaInfo {
    /// File path or URL.
    pub source: String,
    /// Total duration in microseconds.
    pub duration_us: i64,
    /// Video streams.
    pub video_streams: Vec<VideoStreamInfo>,
    /// Audio streams.
    pub audio_streams: Vec<AudioStreamInfo>,
    /// Subtitle streams.
    pub subtitle_streams: Vec<SubtitleStreamInfo>,
    /// Container format.
    pub format: String,
    /// File size in bytes (if available).
    pub file_size: Option<u64>,
    /// Bitrate in bits per second.
    pub bitrate: Option<u32>,
    /// Metadata tags.
    pub metadata: MediaMetadata,
}

/// Codec information.
#[derive(Clone, Debug)]
pub struct CodecInfo {
    /// Codec name.
    pub name: String,
    /// Codec long name.
    pub long_name: String,
    /// Whether hardware acceleration is available.
    pub hw_accel_available: bool,
}

/// Decoder capabilities.
#[derive(Clone, Debug)]
pub struct DecoderCapabilities {
    /// Supported video codecs.
    pub video_codecs: Vec<CodecInfo>,
    /// Supported audio codecs.
    pub audio_codecs: Vec<CodecInfo>,
    /// Available hardware acceleration methods.
    pub hw_accel_methods: Vec<HwAccelMethod>,
}

/// Metadata parser: the tag keys the player gives a dedicated field.
pub struct MetadataParser {
    /// Known metadata keys to extract.
    pub known_keys: Vec<String>,
}

impl MetadataParser {
    pub fn new() -> (r: Self)
        ensures
            r.known_keys@.len() == 14,
    {
        let mut known_keys: Vec<String> = Vec::new();
        known_keys.push(String::from_str("title"));
        known_keys.push(String::from_str("artist"));
        known_keys.push(String::from_str("album"));
        known_keys.push(String::from_str("date"));
        known_keys.push(String::from_str("year"));
        known_keys.push(String::from_str("genre"));
        known_keys.push(String::from_str("comment"));
        known_keys.push(String::from_str("track"));
        known_keys.push(String::from_str("albumartist"));
        known_keys.push(String::from_str("composer"));
        known_keys.push(String::from_str("copyright"));
        known_keys.push(String::from_str("description"));
        known_keys.push(String::from_str("encoder"));
        known_keys.push(String::from_str("language"));
        MetadataParser { known_keys }
    }
}

/// Stream information extractor: assembles the per-stream descriptions
/// the decoder capability reports into a `MediaInfo`.
pub struct StreamInfoExtractor {
    /// Metadata parser.
    pub metadata_parser: MetadataParser,
}

impl StreamInfoExtractor {
    /// Create a new stream info extractor.
    pub fn new() -> (r: Self)
        ensures
            r.metadata_parser.known_keys@.len() == 14,
    {
        StreamInfoExtractor { metadata_parser: MetadataParser::new() }
    }

    /// Assemble a `MediaInfo` from the pieces the decoder capability
    /// reported for one source.
    pub fn assemble_info(
        &self,
        source: String,
        format: String,
        duration_us: i64,
        bitrate: u32,
        file_size: Option<u64>,
        video_streams: Vec<VideoStreamInfo>,
        audio_streams: Vec<AudioStreamInfo>,
        subtitle_streams: Vec<SubtitleStreamInfo>,
        metadata: MediaMetadata,
    ) -> (r: MediaInfo)
        ensures
            r.source == source,
            r.format == format,
            r.duration_us == duration_us,
            r.bitrate == (
                if bitrate > 0 {
                    Some(bitrate)
                } else {
                    None::<u32>
                }
            ),
            r.file_size == file_size,
            r.video_streams == video_streams,
            r.audio_streams == audio_streams,
            r.subtitle_streams == subtitle_streams,
            r.metadata == metadata,
    {
        MediaInfo {
            source,
            duration_us,
            video_streams,
            audio_streams,
            subtitle_streams,
            format,
            file_size,
            bitrate: if bitrate > 0 {
                Some(bitrate)
            } else {
                None
            },
            metadata,
        }
    }
}

} // verus!
