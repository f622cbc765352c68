//! Tests for duration formatting and the generic clamp.

use ccplayer::util::{clamp, format_duration};

#[test]
fn test_format_duration() {
    assert_eq!(format_duration(0), "00:00");
    assert_eq!(format_duration(59), "00:59");
    assert_eq!(format_duration(60), "01:00");
    assert_eq!(format_duration(3599), "59:59");
    assert_eq!(format_duration(3600), "01:00:00");
    assert_eq!(format_duration(7325), "02:02:05");
}

#[test]
fn test_format_duration_long() {
    // hours beyond two digits print in full
    assert_eq!(format_duration(100 * 3600 + 5), "100:00:05");
}

#[test]
fn test_clamp() {
    assert_eq!(clamp(5, 0, 10), 5);
    assert_eq!(clamp(-5, 0, 10), 0);
    assert_eq!(clamp(15, 0, 10), 10);
    assert_eq!(clamp(0.5, 0.0, 1.0), 0.5);
    assert_eq!(clamp(-0.5, 0.0, 1.0), 0.0);
    assert_eq!(clamp(1.5, 0.0, 1.0), 1.0);
}
