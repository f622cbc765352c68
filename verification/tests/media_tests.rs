//! Tests for the media description types.

use ccplayer::media::{ColorSpace, HwAccelConfig, HwAccelMethod, MediaMetadata, MetadataParser,
    StreamInfoExtractor};

#[test]
fn test_color_space() {
    assert_ne!(ColorSpace::Sdr, ColorSpace::Hdr10);
    assert_eq!(ColorSpace::Hdr10, ColorSpace::Hdr10);
}

#[test]
fn test_media_metadata_default() {
    let metadata = MediaMetadata::default();
    assert!(metadata.title.is_none());
    assert!(metadata.artist.is_none());
    assert!(metadata.custom.is_empty());
}

#[test]
fn test_hw_accel_method() {
    assert_ne!(HwAccelMethod::NoAccel, HwAccelMethod::Nvdec);
    assert_eq!(HwAccelMethod::Nvdec, HwAccelMethod::Nvdec);
}

#[test]
fn test_hw_accel_config_creation() {
    let config = HwAccelConfig {
        method: HwAccelMethod::NoAccel,
        device: None,
        options: vec![],
    };

    assert_eq!(config.method, HwAccelMethod::NoAccel);
    assert!(config.device.is_none());
    assert!(config.options.is_empty());
}

#[test]
fn test_metadata_parser() {
    let parser = MetadataParser::new();
    assert!(!parser.known_keys.is_empty());
}

#[test]
fn test_stream_info_extractor_creation() {
    let extractor = StreamInfoExtractor::new();
    // just verify it can be created
    let _ = extractor;
}

#[test]
fn test_assemble_info() {
    let extractor = StreamInfoExtractor::new();
    let info = extractor.assemble_info(
        "movie.mkv".to_string(),
        "matroska".to_string(),
        90_000_000,
        0,
        Some(1_000_000),
        vec![],
        vec![],
        vec![],
        MediaMetadata::default(),
    );
    assert_eq!(info.source, "movie.mkv");
    assert_eq!(info.duration_us, 90_000_000);
    assert_eq!(info.bitrate, None); // zero reported means unknown
    assert_eq!(info.file_size, Some(1_000_000));
}
