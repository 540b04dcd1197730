//! Verified core of a USB video-class capture session.
//!
//! The library owns the part of a camera backend that is worth proving: the
//! lifecycle state machine over the nested handle chain (context, device,
//! device handle, stream handle, active stream), the single-producer /
//! single-consumer frame channel with its latest-wins drain policy, and the
//! reshaping of a raw frame into an RGB image of the negotiated format.
//!
//! The hardware itself is out of reach of a verifier: every call that asks
//! the driver a question (negotiate a format, start a stream) is represented
//! by the answer it gave, handed in as a plain value, so that every decision
//! taken on such an answer is verified for both outcomes. The frame channel
//! is a real channel of the `flume` crate, used through a small set of
//! trusted wrappers.

mod channel;
mod device;
mod format;

pub use channel::FrameChannel;
pub use device::CaptureDevice;
pub use device::FrameImage;
pub use device::StreamState;
pub use format::CameraFormat;
pub use format::CameraInfo;
pub use format::CaptureError;
pub use format::FrameFormat;
pub use format::Resolution;
pub use format::StreamFormat;
