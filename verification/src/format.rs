//! Value types for the capture device: pixel encodings, resolutions, the
//! negotiated camera format, the device's native stream-format representation,
//! device metadata, and the error kinds every operation can surface.

use vstd::prelude::*;

verus! {

/// Pixel encoding of a delivered frame.
#[derive(Clone, Copy, Debug, PartialEq, Eq, Structural, Hash)]
pub enum FrameFormat {
    MJPEG,
    YUYV,
}

/// A width/height pair, compared by value.
#[derive(Clone, Copy, Debug, PartialEq, Eq, Structural, Hash)]
pub struct Resolution {
    pub width_x: u32,
    pub height_y: u32,
}

impl Resolution {
    pub fn new(x: u32, y: u32) -> (r: Resolution)
        ensures
            r.width_x == x,
            r.height_y == y,
    {
        Resolution { width_x: x, height_y: y }
    }

    pub fn width(&self) -> (r: u32)
        ensures
            r == self.width_x,
    {
        self.width_x
    }

    pub fn height(&self) -> (r: u32)
        ensures
            r == self.height_y,
    {
        self.height_y
    }
}

/// The format a stream is negotiated for: resolution, pixel encoding and
/// frame rate. Immutable once constructed and compared by value.
#[derive(Clone, Copy, Debug, PartialEq, Eq, Structural, Hash)]
pub struct CameraFormat {
    pub resolution: Resolution,
    pub format: FrameFormat,
    pub frame_rate: u32,
}

impl CameraFormat {
    pub fn new(resolution: Resolution, format: FrameFormat, frame_rate: u32) -> (r: CameraFormat)
        ensures
            r == (CameraFormat { resolution, format, frame_rate }),
    {
        CameraFormat { resolution, format, frame_rate }
    }

    pub fn new_from(width: u32, height: u32, fourcc: FrameFormat, fps: u32) -> (r: CameraFormat)
        ensures
            r.resolution.width_x == width,
            r.resolution.height_y == height,
            r.format == fourcc,
            r.frame_rate == fps,
    {
        CameraFormat {
            resolution: Resolution { width_x: width, height_y: height },
            format: fourcc,
            frame_rate: fps,
        }
    }

    pub fn width(&self) -> (r: u32)
        ensures
            r == self.resolution.width_x,
    {
        self.resolution.width_x
    }

    pub fn height(&self) -> (r: u32)
        ensures
            r == self.resolution.height_y,
    {
        self.resolution.height_y
    }

    pub fn resolution(&self) -> (r: Resolution)
        ensures
            r == self.resolution,
    {
        self.resolution
    }

    pub fn framerate(&self) -> (r: u32)
        ensures
            r == self.frame_rate,
    {
        self.frame_rate
    }

    pub fn format(&self) -> (r: FrameFormat)
        ensures
            r == self.format,
    {
        self.format
    }

    /// Number of bytes in one interleaved RGB frame of this format:
    /// one byte per channel, three channels per pixel.
    pub open spec fn frame_bytes(self) -> int {
        self.resolution.width_x * self.resolution.height_y * 3
    }
}

impl Default for CameraFormat {
    /// 640x480 at 15 frames per second, MJPEG.
    fn default() -> (r: Self)
        ensures
            r == CameraFormat::default_spec(),
    {
        CameraFormat {
            resolution: Resolution { width_x: 640, height_y: 480 },
            format: FrameFormat::MJPEG,
            frame_rate: 15,
        }
    }
}

impl CameraFormat {
    pub open spec fn default_spec() -> CameraFormat {
        CameraFormat {
            resolution: Resolution { width_x: 640, height_y: 480 },
            format: FrameFormat::MJPEG,
            frame_rate: 15,
        }
    }
}

/// The hardware layer's native description of a stream, kept as plain values:
/// what the format-negotiation primitive is handed.
#[derive(Clone, Copy, Debug, PartialEq, Eq, Structural)]
pub struct StreamFormat {
    pub width: u32,
    pub height: u32,
    pub fps: u32,
    pub format: FrameFormat,
}

impl From<CameraFormat> for StreamFormat {
    /// The conversion is lossless: every field of the camera format is
    /// carried over unchanged.
    fn from(cf: CameraFormat) -> (r: Self) {
        StreamFormat {
            width: cf.width(),
            height: cf.height(),
            fps: cf.framerate(),
            format: cf.format(),
        }
    }
}

impl vstd::std_specs::convert::FromSpecImpl<CameraFormat> for StreamFormat {
    open spec fn obeys_from_spec() -> bool {
        true
    }

    open spec fn from_spec(cf: CameraFormat) -> StreamFormat {
        StreamFormat {
            width: cf.resolution.width_x,
            height: cf.resolution.height_y,
            fps: cf.frame_rate,
            format: cf.format,
        }
    }
}

/// Metadata describing an enumerated device.
#[derive(Clone, Debug)]
pub struct CameraInfo {
    pub human_name: String,
    pub description: String,
    pub misc: String,
    pub index: usize,
}

impl CameraInfo {
    pub fn new(human_name: String, description: String, misc: String, index: usize) -> (r:
        CameraInfo)
        ensures
            r == (CameraInfo { human_name, description, misc, index }),
    {
        CameraInfo { human_name, description, misc, index }
    }

    /// A field-wise copy, equal to the original.
    pub fn duplicate(&self) -> (r: CameraInfo)
        ensures
            r == *self,
    {
        CameraInfo {
            human_name: self.human_name.clone(),
            description: self.description.clone(),
            misc: self.misc.clone(),
            index: self.index,
        }
    }
}

/// Everything a capture operation can fail with.
#[derive(Clone, Copy, Debug, PartialEq, Eq, Structural, Hash)]
pub enum CaptureError {
    /// The requested index or selector matched no enumerated device.
    DeviceNotFound,
    /// The hardware refused the exclusive claim on the device.
    OpenFailed,
    /// The hardware refused the requested stream format.
    NegotiationFailed,
    /// The negotiated stream could not be started.
    StreamStartFailed,
    /// A frame was requested while no stream is active.
    NotStreaming,
    /// No new frame has arrived since the last poll.
    TooFast,
    /// A delivered frame's length does not match the current format.
    FrameSizeMismatch,
}

} // verus!
