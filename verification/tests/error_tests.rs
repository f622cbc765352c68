//! Tests for the error type, the context-wrapping helpers and the
//! retry policy.

use ccplayer::error::{CCPlayerError, ErrorRecovery, IntoPlayerError};

#[test]
fn test_error_display() {
    let err = CCPlayerError::Window("Failed to create window".to_string());
    assert_eq!(err.message(), "Window error: Failed to create window");

    let err = CCPlayerError::UnsupportedFormat("MP4".to_string());
    assert_eq!(err.message(), "Unsupported format: MP4");
}

#[test]
fn test_error_conversion() {
    let io_err = std::io::Error::new(std::io::ErrorKind::NotFound, "File not found");
    let player_err: CCPlayerError = io_err.into();
    assert!(matches!(player_err, CCPlayerError::FileIO(_)));
}

#[test]
fn test_into_player_error_trait() {
    let result: std::result::Result<(), &str> = Err("Something went wrong");
    let converted = result.window_err("Creating surface");

    match converted {
        Err(CCPlayerError::Window(msg)) => {
            assert_eq!(msg, "Creating surface: Something went wrong");
        }
        _ => panic!("Expected Window error"),
    }
}

#[test]
fn test_into_player_error_keeps_ok() {
    let result: std::result::Result<u32, String> = Ok(17);
    assert_eq!(result.audio_err("opening stream").unwrap(), 17);

    let result: std::result::Result<u32, String> = Err("gone".to_string());
    match result.decoder_err("reading packet") {
        Err(CCPlayerError::Decoder(msg)) => assert_eq!(msg, "reading packet: gone"),
        _ => panic!("Expected Decoder error"),
    }
}

#[test]
fn test_error_recovery() {
    let recovery = ErrorRecovery::new();

    let decoder_error = CCPlayerError::Decoder("Test error".to_string());
    assert!(recovery.should_retry(&decoder_error));

    let window_error = CCPlayerError::Window("Test error".to_string());
    assert!(!recovery.should_retry(&window_error));
}

#[test]
fn test_error_recovery_file_and_audio() {
    let recovery = ErrorRecovery::new();
    assert!(recovery.should_retry(&CCPlayerError::Audio("device lost".to_string())));
    assert!(recovery.should_retry(&CCPlayerError::FileIO("short read".to_string())));
    assert!(!recovery.should_retry(&CCPlayerError::InvalidInput("bad seek".to_string())));
    assert!(!recovery.should_retry(&CCPlayerError::Internal("bug".to_string())));
}

#[test]
fn test_context_wrappers_pick_their_variant() {
    let renderer: std::result::Result<(), String> = Err("lost surface".to_string());
    assert!(matches!(
        renderer.renderer_err("presenting"),
        Err(CCPlayerError::Renderer(_))
    ));

    let config: std::result::Result<(), String> = Err("bad key".to_string());
    assert!(matches!(config.config_err("loading"), Err(CCPlayerError::Config(_))));
}

#[test]
fn test_message_covers_all_variants() {
    assert_eq!(
        CCPlayerError::Sync("clock drift".to_string()).message(),
        "Synchronization error: clock drift"
    );
    assert_eq!(
        CCPlayerError::NotFound("stream 3".to_string()).message(),
        "Resource not found: stream 3"
    );
    assert_eq!(
        CCPlayerError::Internal("oops".to_string()).message(),
        "Internal error: oops"
    );
    assert_eq!(
        CCPlayerError::BufferFull("queue".to_string()).message(),
        "Buffer full: queue"
    );
}

#[test]
fn test_decoder_error_constructor() {
    let err = CCPlayerError::decoder_error("no stream");
    assert_eq!(err.message(), "Decoder error: no stream");
}
