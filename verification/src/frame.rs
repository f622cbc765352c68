//! Decoded video frames: pixel data in one of several planar or packed
//! layouts, plus presentation timing.
//!
//! The pixel aspect ratio is carried as a rational number
//! (`par_num / par_den`), since the pipeline never does real arithmetic
//! on it — it is handed through to the renderer.

use vstd::prelude::*;

verus! {

/// Frame data formats.
#[derive(Clone, Debug)]
pub enum FrameData {
    /// YUV 4:2:0 planar format (most common for video).
    Yuv420 { y_plane: Vec<u8>, u_plane: Vec<u8>, v_plane: Vec<u8>, y_stride: usize, uv_stride: usize },
    /// YUV 4:2:2 planar format.
    Yuv422 { y_plane: Vec<u8>, u_plane: Vec<u8>, v_plane: Vec<u8>, y_stride: usize, uv_stride: usize },
    /// YUV 4:4:4 planar format.
    Yuv444 { y_plane: Vec<u8>, u_plane: Vec<u8>, v_plane: Vec<u8>, stride: usize },
    /// RGB format (3 bytes per pixel).
    Rgb { data: Vec<u8>, stride: usize },
    /// RGBA format (4 bytes per pixel).
    Rgba { data: Vec<u8>, stride: usize },
    /// NV12 format (Y plane + interleaved UV).
    Nv12 { y_plane: Vec<u8>, uv_plane: Vec<u8>, y_stride: usize, uv_stride: usize },
}

/// The number of bytes backing a frame's pixel data: the sum of the raw
/// lengths of all its planes or buffers.
pub open spec fn frame_data_bytes(d: FrameData) -> nat {
    match d {
        FrameData::Yuv420 { y_plane, u_plane, v_plane, .. } =>
            y_plane@.len() + u_plane@.len() + v_plane@.len(),
        FrameData::Yuv422 { y_plane, u_plane, v_plane, .. } =>
            y_plane@.len() + u_plane@.len() + v_plane@.len(),
        FrameData::Yuv444 { y_plane, u_plane, v_plane, .. } =>
            y_plane@.len() + u_plane@.len() + v_plane@.len(),
        FrameData::Rgb { data, .. } => data@.len(),
        FrameData::Rgba { data, .. } => data@.len(),
        FrameData::Nv12 { y_plane, uv_plane, .. } => y_plane@.len() + uv_plane@.len(),
    }
}

/// A decoded video frame. Immutable after creation; ownership is
/// transferred between pipeline stages, never shared.
#[derive(Clone, Debug)]
pub struct VideoFrame {
    /// Pixel data in YUV or RGB format.
    pub data: FrameData,
    /// Presentation timestamp in microseconds.
    pub pts: i64,
    /// Frame duration in microseconds.
    pub duration: i64,
    /// Frame width.
    pub width: u32,
    /// Frame height.
    pub height: u32,
    /// Pixel aspect ratio numerator.
    pub par_num: u32,
    /// Pixel aspect ratio denominator.
    pub par_den: u32,
}

/// The estimated memory footprint of a frame, in bytes.
pub open spec fn frame_bytes(f: VideoFrame) -> nat {
    frame_data_bytes(f.data)
}

/// Estimate a frame's size in bytes by summing the raw backing-store
/// lengths of its planes; saturates at `usize::MAX`.
pub fn estimate_frame_size(frame: &VideoFrame) -> (r: usize)
    ensures
        r == if frame_bytes(*frame) > usize::MAX {
            usize::MAX as nat
        } else {
            frame_bytes(*frame)
        },
{
    match &frame.data {
        FrameData::Yuv420 { y_plane, u_plane, v_plane, .. } => {
            sat_add(sat_add(y_plane.len(), u_plane.len()), v_plane.len())
        },
        FrameData::Yuv422 { y_plane, u_plane, v_plane, .. } => {
            sat_add(sat_add(y_plane.len(), u_plane.len()), v_plane.len())
        },
        FrameData::Yuv444 { y_plane, u_plane, v_plane, .. } => {
            sat_add(sat_add(y_plane.len(), u_plane.len()), v_plane.len())
        },
        FrameData::Rgb { data, .. } => data.len(),
        FrameData::Rgba { data, .. } => data.len(),
        FrameData::Nv12 { y_plane, uv_plane, .. } => sat_add(y_plane.len(), uv_plane.len()),
    }
}

/// Saturating addition on `usize`.
pub fn sat_add(a: usize, b: usize) -> (r: usize)
    ensures
        r == if a + b > usize::MAX {
            usize::MAX as int
        } else {
            a + b
        },
{
    if a <= usize::MAX - b {
        a + b
    } else {
        usize::MAX
    }
}

} // verus!
