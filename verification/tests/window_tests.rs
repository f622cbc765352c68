//! Tests for window input types and edge hit-testing.

use ccplayer::window::{KeyModifiers, ResizeEdge, ResizeHandler, WindowMetrics};

#[test]
fn test_key_modifiers_default() {
    let mods = KeyModifiers::default();
    assert!(!mods.shift);
    assert!(!mods.ctrl);
    assert!(!mods.alt);
    assert!(!mods.meta);
}

#[test]
fn test_window_metrics_default() {
    let metrics = WindowMetrics::default();
    assert_eq!(metrics.width, 1280);
    assert_eq!(metrics.height, 720);
    assert_eq!(metrics.titlebar_height, 32);
    assert_eq!(metrics.control_size, 46);
    assert_eq!(metrics.scale_factor_milli, 1000);
}

#[test]
fn test_resize_handler_creation() {
    let handler = ResizeHandler::new(10);
    assert!(!handler.is_resizing());
    assert!(handler.current_edge().is_none());
}

#[test]
fn test_hit_testing() {
    let handler = ResizeHandler::new(10);
    let metrics = WindowMetrics {
        width: 800,
        height: 600,
        titlebar_height: 32,
        control_size: 46,
        scale_factor_milli: 1000,
    };

    // edges
    assert_eq!(handler.hit_test(5, 40, &metrics), Some(ResizeEdge::Left));
    assert_eq!(handler.hit_test(795, 40, &metrics), Some(ResizeEdge::Right));
    assert_eq!(handler.hit_test(400, 5, &metrics), Some(ResizeEdge::Top));
    assert_eq!(handler.hit_test(400, 595, &metrics), Some(ResizeEdge::Bottom));

    // center (no edge)
    assert_eq!(handler.hit_test(400, 300, &metrics), None);

    // titlebar area (no resize allowed)
    assert_eq!(handler.hit_test(5, 20, &metrics), None);
}

#[test]
fn test_hit_testing_corners() {
    let handler = ResizeHandler::new(10);
    let metrics = WindowMetrics {
        width: 800,
        height: 600,
        titlebar_height: 2,
        control_size: 46,
        scale_factor_milli: 1000,
    };
    assert_eq!(handler.hit_test(5, 5, &metrics), Some(ResizeEdge::TopLeft));
    assert_eq!(handler.hit_test(795, 5, &metrics), Some(ResizeEdge::TopRight));
    assert_eq!(handler.hit_test(5, 595, &metrics), Some(ResizeEdge::BottomLeft));
    assert_eq!(handler.hit_test(795, 595, &metrics), Some(ResizeEdge::BottomRight));
}

#[test]
fn test_resize_drag_state() {
    let mut handler = ResizeHandler::new(10);
    handler.start_resize(ResizeEdge::Right, (790, 300), (800, 600), (0, 0));
    assert!(handler.is_resizing());
    assert_eq!(handler.current_edge(), Some(ResizeEdge::Right));

    handler.stop_resize();
    assert!(!handler.is_resizing());
}
