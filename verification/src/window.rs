//! Window input model: keys, mouse buttons, control events, window
//! metrics, and the edge hit-testing used to resize a borderless
//! window. Coordinates are pixels as integers; the platform event loop
//! converts and forwards.

use vstd::prelude::*;

verus! {

/// Mouse button types.
#[derive(Clone, Copy, Debug, PartialEq, Eq, Structural)]
pub enum MouseButton {
    Left,
    Right,
    Middle,
}

/// Keyboard key types.
#[derive(Clone, Debug)]
pub enum Key {
    // media controls
    Space,
    Enter,
    Escape,
    // navigation
    Left,
    Right,
    Up,
    Down,
    // seek
    PageUp,
    PageDown,
    Home,
    End,
    // volume
    VolumeUp,
    VolumeDown,
    VolumeMute,
    // playback speed
    Minus,
    Plus,
    // other
    F,  // fullscreen
    M,  // mute
    O,  // open file
    Q,  // quit
    S,  // subtitles
    // numbers 0-9
    Num0,
    Num1,
    Num2,
    Num3,
    Num4,
    Num5,
    Num6,
    Num7,
    Num8,
    Num9,
    // other keys can be added as needed
    Other(String),
}

/// Keyboard modifiers.
#[derive(Clone, Copy, Debug, PartialEq, Eq, Structural)]
pub struct KeyModifiers {
    pub shift: bool,
    pub ctrl: bool,
    pub alt: bool,
    pub meta: bool,  // Windows/Super/Command key
}

impl Default for KeyModifiers {
    fn default() -> (r: Self)
        ensures
            !r.shift && !r.ctrl && !r.alt && !r.meta,
    {
        KeyModifiers { shift: false, ctrl: false, alt: false, meta: false }
    }
}

/// Window control events (custom titlebar buttons).
#[derive(Clone, Copy, Debug, PartialEq, Eq, Structural)]
pub enum ControlEvent {
    Minimize,
    Maximize,
    Close,
}

/// Window metrics for layout calculations. The DPI scale factor is in
/// thousandths (1000 = 1.0).
#[derive(Clone, Copy, Debug, PartialEq, Eq, Structural)]
pub struct WindowMetrics {
    /// Total window width.
    pub width: u32,
    /// Total window height.
    pub height: u32,
    /// Titlebar height.
    pub titlebar_height: u32,
    /// Control button size.
    pub control_size: u32,
    /// DPI scale factor in thousandths.
    pub scale_factor_milli: u32,
}

impl Default for WindowMetrics {
    fn default() -> (r: Self)
        ensures
            r == (WindowMetrics {
                width: 1280u32,
                height: 720u32,
                titlebar_height: 32u32,
                control_size: 46u32,
                scale_factor_milli: 1000u32,
            }),
    {
        WindowMetrics {
            width: 1280,
            height: 720,
            titlebar_height: 32,
            control_size: 46,
            scale_factor_milli: 1000,
        }
    }
}

/// Events a window delivers to the player. Wheel deltas are in
/// thousandths of a notch; dropped files arrive as path strings.
#[derive(Clone, Debug)]
pub enum WindowEvent {
    /// The user asked to close the window.
    CloseRequested,
    /// The window was resized.
    Resized { width: u32, height: u32 },
    /// The window gained focus.
    Focused,
    /// The window lost focus.
    Unfocused,
    /// The mouse moved, in window pixels.
    MouseMove { x: i64, y: i64 },
    /// The mouse wheel scrolled, in thousandths of a notch.
    MouseWheel { delta_milli: i32 },
    /// A key went down.
    KeyPressed { key: Key, modifiers: KeyModifiers },
    /// A key went up.
    KeyReleased { key: Key, modifiers: KeyModifiers },
    /// Files were dropped onto the window.
    FilesDropped { paths: Vec<String> },
    /// A custom titlebar button was used.
    TitlebarControl(ControlEvent),
}

/// Resize edge enumeration.
#[derive(Clone, Copy, Debug, PartialEq, Eq, Structural)]
pub enum ResizeEdge {
    Top,
    TopRight,
    Right,
    BottomRight,
    Bottom,
    BottomLeft,
    Left,
    TopLeft,
}

/// The edge under a cursor at `(x, y)` in a window of the given
/// metrics, with a `border`-pixel-wide sensitive band: the titlebar
/// below the top band takes no resize, corners beat edges, and the
/// interior is `None`.
pub open spec fn edge_at(x: int, y: int, border: int, m: WindowMetrics) -> Option<ResizeEdge> {
    let w = m.width as int;
    let h = m.height as int;
    if y > border && y <= m.titlebar_height as int {
        None
    } else if x <= border && y <= border {
        Some(ResizeEdge::TopLeft)
    } else if x >= w - border && y <= border {
        Some(ResizeEdge::TopRight)
    } else if x <= border && y >= h - border {
        Some(ResizeEdge::BottomLeft)
    } else if x >= w - border && y >= h - border {
        Some(ResizeEdge::BottomRight)
    } else if x <= border {
        Some(ResizeEdge::Left)
    } else if x >= w - border {
        Some(ResizeEdge::Right)
    } else if y <= border {
        Some(ResizeEdge::Top)
    } else if y >= h - border {
        Some(ResizeEdge::Bottom)
    } else {
        None
    }
}

/// Handler for window edge-resize: detects which edge the cursor is
/// near and tracks an ongoing resize drag. The platform loop feeds it
/// cursor positions and applies the sizes it computes.
pub struct ResizeHandler {
    /// Border width for edge detection (in pixels).
    pub border_width: u32,
    /// Current resize edge (if any).
    pub current_edge: Option<ResizeEdge>,
    /// Whether a resize drag is in progress.
    pub resizing: bool,
    /// Cursor position when the resize started.
    pub resize_start_pos: Option<(i64, i64)>,
    /// Window size when the resize started.
    pub window_start_size: Option<(u32, u32)>,
    /// Window position when the resize started.
    pub window_start_pos: Option<(i64, i64)>,
}

impl ResizeHandler {
    /// Create a new resize handler with a sensitive band of
    /// `border_width` pixels.
    pub fn new(border_width: u32) -> (r: Self)
        ensures
            r.border_width == border_width,
            !r.resizing,
            r.current_edge.is_none(),
            r.resize_start_pos.is_none(),
            r.window_start_size.is_none(),
            r.window_start_pos.is_none(),
    {
        ResizeHandler {
            border_width,
            current_edge: None,
            resizing: false,
            resize_start_pos: None,
            window_start_size: None,
            window_start_pos: None,
        }
    }

    /// Hit-test a cursor position against the window edges.
    pub fn hit_test(&self, x: i64, y: i64, metrics: &WindowMetrics) -> (r: Option<ResizeEdge>)
        requires
            -0x1000_0000 <= x <= 0x1000_0000,
            -0x1000_0000 <= y <= 0x1000_0000,
        ensures
            r == edge_at(x as int, y as int, self.border_width as int, *metrics),
    {
        let width = metrics.width as i64;
        let height = metrics.height as i64;
        let border = self.border_width as i64;

        // no resize from the titlebar area (the top resize band,
        // within the border, stays live)
        if y > border && y <= metrics.titlebar_height as i64 {
            return None;
        }

        // corners take priority
        if x <= border && y <= border {
            return Some(ResizeEdge::TopLeft);
        }
        if x >= width - border && y <= border {
            return Some(ResizeEdge::TopRight);
        }
        if x <= border && y >= height - border {
            return Some(ResizeEdge::BottomLeft);
        }
        if x >= width - border && y >= height - border {
            return Some(ResizeEdge::BottomRight);
        }

        // then the edges
        if x <= border {
            return Some(ResizeEdge::Left);
        }
        if x >= width - border {
            return Some(ResizeEdge::Right);
        }
        if y <= border {
            return Some(ResizeEdge::Top);
        }
        if y >= height - border {
            return Some(ResizeEdge::Bottom);
        }

        None
    }

    /// Remember the state at the start of a resize drag.
    pub fn start_resize(&mut self, edge: ResizeEdge, cursor: (i64, i64), size: (u32, u32), pos: (
        i64,
        i64,
    ))
        ensures
            *final(self) == (ResizeHandler {
                resizing: true,
                current_edge: Some(edge),
                resize_start_pos: Some(cursor),
                window_start_size: Some(size),
                window_start_pos: Some(pos),
                ..*old(self)
            }),
    {
        self.resizing = true;
        self.current_edge = Some(edge);
        self.resize_start_pos = Some(cursor);
        self.window_start_size = Some(size);
        self.window_start_pos = Some(pos);
    }

    /// Forget the resize drag.
    pub fn stop_resize(&mut self)
        ensures
            *final(self) == (ResizeHandler {
                resizing: false,
                resize_start_pos: None,
                window_start_size: None,
                window_start_pos: None,
                ..*old(self)
            }),
    {
        self.resizing = false;
        self.resize_start_pos = None;
        self.window_start_size = None;
        self.window_start_pos = None;
    }

    /// Whether a resize drag is in progress.
    pub fn is_resizing(&self) -> (r: bool)
        ensures
            r == self.resizing,
    {
        self.resizing
    }

    /// The edge the cursor was last near, if any.
    pub fn current_edge(&self) -> (r: Option<ResizeEdge>)
        ensures
            r == self.current_edge,
    {
        self.current_edge
    }
}

} // verus!
