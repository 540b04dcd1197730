//! The capture device facade: the lifecycle state machine over the nested
//! handle chain, and the pull-based latest-wins frame interface.
//!
//! The handle chain (context, device, device handle, stream handle, active
//! stream) is strictly nested: each level may exist only while its parent
//! does, and teardown must run from the top. The three upper levels live
//! exactly as long as the device itself, so the changing part of the chain
//! is which of the two optional levels exist; [`StreamState`] holds exactly
//! that, and by construction it cannot describe an active stream without its
//! parent handle, so no interleaving of calls can leave the chain inverted.
//!
//! The hardware's verdicts (did it accept the format? did the stream start?)
//! are answers of a driver that a verifier cannot see into; each lifecycle
//! operation takes the verdict it depends on as a plain boolean, and its
//! contract pins the outcome for both answers. The caller that talks to real
//! hardware performs the matching driver call between the steps and hands
//! the verdict in; a test hands in the verdict it wants to exercise.

use vstd::prelude::*;

use crate::channel::FrameChannel;
use crate::format::CameraFormat;
use crate::format::CameraInfo;
use crate::format::CaptureError;
use crate::format::FrameFormat;
use crate::format::Resolution;

verus! {

/// Which of the two optional levels of the handle chain exist. The states
/// are ordered: each is reached from the previous by constructing one level
/// and left by destroying it again.
#[derive(Clone, Copy, Debug, PartialEq, Eq, Structural)]
pub enum StreamState {
    /// Neither a stream handle nor an active stream exists.
    Idle,
    /// A stream handle is negotiated; no capture session runs on it.
    Negotiated,
    /// A capture session runs on the negotiated handle.
    Streaming,
}

/// The state after the top level of the chain, the active stream, is
/// destroyed. Every other level is untouched.
pub open spec fn without_active(s: StreamState) -> StreamState {
    if s is Streaming {
        StreamState::Negotiated
    } else {
        s
    }
}

/// The state after the stream handle is destroyed. Meaningful only once the
/// active stream is gone: the chain forbids destroying a parent first.
pub open spec fn without_handle(s: StreamState) -> StreamState {
    if s is Negotiated {
        StreamState::Idle
    } else {
        s
    }
}

/// A full teardown: active stream first, then the stream handle.
pub open spec fn torn_down(s: StreamState) -> StreamState {
    without_handle(without_active(s))
}

/// The state a negotiation attempt yields: a fresh handle on acceptance,
/// but only from the idle chain — negotiation never runs over an existing
/// handle.
pub open spec fn negotiated_from(s: StreamState, accepted: bool) -> StreamState {
    if s is Idle && accepted {
        StreamState::Negotiated
    } else {
        s
    }
}

/// The state a start attempt yields: a running session on success, but only
/// on a negotiated handle.
pub open spec fn started_from(s: StreamState, started: bool) -> StreamState {
    if s is Negotiated && started {
        StreamState::Streaming
    } else {
        s
    }
}

/// Whether a stream handle exists in state `s`.
pub open spec fn handle_exists(s: StreamState) -> bool {
    s !is Idle
}

/// Whether an active stream exists in state `s`.
pub open spec fn active_exists(s: StreamState) -> bool {
    s is Streaming
}

/// What one raw-frame poll returns, as a function of the lifecycle state and
/// of the queued frames (oldest first): no active stream is reported before
/// the queue is even looked at, an empty queue means the consumer polled too
/// fast, and otherwise the newest queued frame wins.
pub open spec fn raw_poll_result(s: StreamState, pending: Seq<Seq<u8>>) -> Result<
    Seq<u8>,
    CaptureError,
> {
    if !(s is Streaming) {
        Err(CaptureError::NotStreaming)
    } else if pending.len() == 0 {
        Err(CaptureError::TooFast)
    } else {
        Ok(pending.last())
    }
}

/// One decoded frame reshaped into an interleaved RGB image: three bytes per
/// pixel, row-major.
#[derive(Debug)]
pub struct FrameImage {
    pub width: u32,
    pub height: u32,
    pub data: Vec<u8>,
}

impl FrameImage {
    /// The buffer holds exactly one byte per channel of every pixel.
    pub open spec fn wf(self) -> bool {
        self.data@.len() == self.width * self.height * 3
    }
}

/// The capture device: metadata, the current format, the lifecycle state of
/// the optional chain levels, and the frame queue. Created together with its
/// queue; both live until the device is dropped, while the two optional
/// levels come and go with every reconfiguration.
pub struct CaptureDevice {
    info: CameraInfo,
    format: CameraFormat,
    state: StreamState,
    channel: FrameChannel,
}

impl CaptureDevice {
    /// The device metadata recorded at creation.
    pub closed spec fn cur_info(self) -> CameraInfo {
        self.info
    }

    /// The format the device is configured for.
    pub closed spec fn cur_format(self) -> CameraFormat {
        self.format
    }

    /// Which optional levels of the handle chain exist.
    pub closed spec fn cur_state(self) -> StreamState {
        self.state
    }

    /// The frames queued for the consumer, oldest first.
    pub closed spec fn pending(self) -> Seq<Seq<u8>> {
        self.channel.frames()
    }

    /// A fresh device: no stream levels exist, the queue is empty, and the
    /// format is the one asked for, or 640x480 MJPEG at 15 frames per second
    /// when none is.
    pub fn create(info: CameraInfo, format: Option<CameraFormat>) -> (d: CaptureDevice)
        ensures
            d.cur_info() == info,
            d.cur_state() is Idle,
            d.pending() == Seq::<Seq<u8>>::empty(),
            d.cur_format() == (match format {
                Some(f) => f,
                None => CameraFormat::default_spec(),
            }),
    {
        let fmt = match format {
            Some(f) => f,
            None => CameraFormat::default(),
        };
        CaptureDevice { info, format: fmt, state: StreamState::Idle, channel: FrameChannel::new() }
    }

    /// A fresh device with the format given field by field.
    pub fn create_with(info: CameraInfo, width: u32, height: u32, fps: u32, fourcc: FrameFormat)
        -> (d: CaptureDevice)
        ensures
            d.cur_info() == info,
            d.cur_state() is Idle,
            d.pending() == Seq::<Seq<u8>>::empty(),
            d.cur_format() == (CameraFormat {
                resolution: Resolution { width_x: width, height_y: height },
                format: fourcc,
                frame_rate: fps,
            }),
    {
        let fmt = CameraFormat::new_from(width, height, fourcc, fps);
        CaptureDevice::create(info, Some(fmt))
    }

    /// The device metadata, by value.
    pub fn get_info(&self) -> (r: CameraInfo)
        ensures
            r == self.cur_info(),
    {
        self.info.duplicate()
    }

    /// The format the device is configured for.
    pub fn get_camera_format(&self) -> (r: CameraFormat)
        ensures
            r == self.cur_format(),
    {
        self.format
    }

    /// The configured resolution.
    pub fn get_resolution(&self) -> (r: Resolution)
        ensures
            r == self.cur_format().resolution,
    {
        self.format.resolution()
    }

    /// The configured frame rate.
    pub fn get_framerate(&self) -> (r: u32)
        ensures
            r == self.cur_format().frame_rate,
    {
        self.format.framerate()
    }

    /// The configured pixel encoding.
    pub fn get_frameformat(&self) -> (r: FrameFormat)
        ensures
            r == self.cur_format().format,
    {
        self.format.format()
    }

    /// Which optional levels of the handle chain exist right now. A pure
    /// query: callers use it to know which lifecycle steps are legal.
    pub fn stream_state(&self) -> (r: StreamState)
        ensures
            r == self.cur_state(),
    {
        self.state
    }

    /// Whether a capture session is running.
    pub fn is_stream_open(&self) -> (r: bool)
        ensures
            r == (self.cur_state() is Streaming),
    {
        self.state == StreamState::Streaming
    }

    /// Destroys the top level of the chain, the active stream, if it exists.
    /// The driver's stream-stop call quiesces the callback before returning,
    /// so once this step is done no further frame can be pushed for the old
    /// session.
    pub fn release_active_stream(&mut self)
        ensures
            final(self).cur_state() == without_active(old(self).cur_state()),
            final(self).cur_format() == old(self).cur_format(),
            final(self).cur_info() == old(self).cur_info(),
            final(self).pending() == old(self).pending(),
    {
        if self.state == StreamState::Streaming {
            self.state = StreamState::Negotiated;
        }
    }

    /// Destroys the stream handle, if it exists. Destroying it under a live
    /// active stream is illegal in the hardware interface, so this step
    /// refuses to run until the active stream is gone.
    pub fn release_stream_handle(&mut self)
        requires
            old(self).cur_state() !is Streaming,
        ensures
            final(self).cur_state() == without_handle(old(self).cur_state()),
            final(self).cur_format() == old(self).cur_format(),
            final(self).cur_info() == old(self).cur_info(),
            final(self).pending() == old(self).pending(),
    {
        if self.state == StreamState::Negotiated {
            self.state = StreamState::Idle;
        }
    }

    /// Tears the optional chain levels down in reverse construction order:
    /// active stream first, stream handle second. Idempotent, and safe to
    /// call from any state.
    pub fn teardown_stream(&mut self)
        ensures
            final(self).cur_state() == torn_down(old(self).cur_state()),
            final(self).cur_state() is Idle,
            final(self).cur_format() == old(self).cur_format(),
            final(self).cur_info() == old(self).cur_info(),
            final(self).pending() == old(self).pending(),
    {
        self.release_active_stream();
        self.release_stream_handle();
    }

    /// Negotiates a stream handle for the current format. `accepted` is the
    /// hardware's verdict on the request; negotiation starts only once no
    /// handle from an earlier session is left, so a fresh open can never
    /// leak the previous session's claim.
    pub fn negotiate_stream(&mut self, accepted: bool) -> (r: Result<(), CaptureError>)
        requires
            old(self).cur_state() is Idle,
        ensures
            final(self).cur_state() == negotiated_from(old(self).cur_state(), accepted),
            accepted ==> r is Ok && final(self).cur_state() is Negotiated,
            !accepted ==> r == Err::<(), CaptureError>(CaptureError::NegotiationFailed)
                && final(self).cur_state() is Idle,
            final(self).cur_format() == old(self).cur_format(),
            final(self).cur_info() == old(self).cur_info(),
            final(self).pending() == old(self).pending(),
    {
        if accepted {
            self.state = StreamState::Negotiated;
            Ok(())
        } else {
            Err(CaptureError::NegotiationFailed)
        }
    }

    /// Starts the capture session on the negotiated handle. `started` is the
    /// hardware's verdict; on failure the handle stays negotiated.
    pub fn start_stream(&mut self, started: bool) -> (r: Result<(), CaptureError>)
        requires
            old(self).cur_state() is Negotiated,
        ensures
            final(self).cur_state() == started_from(old(self).cur_state(), started),
            started ==> r is Ok && final(self).cur_state() is Streaming,
            !started ==> r == Err::<(), CaptureError>(CaptureError::StreamStartFailed)
                && final(self).cur_state() is Negotiated,
            final(self).cur_format() == old(self).cur_format(),
            final(self).cur_info() == old(self).cur_info(),
            final(self).pending() == old(self).pending(),
    {
        if started {
            self.state = StreamState::Streaming;
            Ok(())
        } else {
            Err(CaptureError::StreamStartFailed)
        }
    }

    /// Opens the stream for the current format: any prior session is torn
    /// down fully (active stream, then handle), a fresh handle is negotiated,
    /// and capture is started on it. `negotiated` and `started` are the
    /// hardware's two verdicts, in the order the driver is asked. The state
    /// clause spells the order out: the negotiation runs from the torn-down
    /// state, never over a handle of the prior session.
    pub fn open_stream(&mut self, negotiated: bool, started: bool) -> (r: Result<(), CaptureError>)
        ensures
            final(self).cur_state() == started_from(
                negotiated_from(torn_down(old(self).cur_state()), negotiated),
                started,
            ),
            negotiated && started ==> r is Ok && final(self).cur_state() is Streaming,
            !negotiated ==> r == Err::<(), CaptureError>(CaptureError::NegotiationFailed)
                && final(self).cur_state() is Idle,
            negotiated && !started ==> r == Err::<(), CaptureError>(CaptureError::StreamStartFailed)
                && final(self).cur_state() is Negotiated,
            final(self).cur_format() == old(self).cur_format(),
            final(self).cur_info() == old(self).cur_info(),
            final(self).pending() == old(self).pending(),
    {
        self.teardown_stream();
        match self.negotiate_stream(negotiated) {
            Ok(()) => {},
            Err(e) => {
                return Err(e);
            },
        }
        match self.start_stream(started) {
            Ok(()) => {},
            Err(e) => {
                return Err(e);
            },
        }
        Ok(())
    }

    /// Stops any running session and releases the handle: always succeeds,
    /// always leaves the chain idle, and calling it again changes nothing.
    pub fn stop_stream(&mut self) -> (r: Result<(), CaptureError>)
        ensures
            r is Ok,
            final(self).cur_state() == torn_down(old(self).cur_state()),
            final(self).cur_state() is Idle,
            final(self).cur_format() == old(self).cur_format(),
            final(self).cur_info() == old(self).cur_info(),
            final(self).pending() == old(self).pending(),
    {
        self.teardown_stream();
        Ok(())
    }

    /// Reconfigures the device. While no handle exists the new format is
    /// only recorded. Otherwise the stream is reopened for the new format;
    /// if the hardware refuses either step, the device is left idle and the
    /// format rolled back to its previous value, so a failed reconfiguration
    /// never leaves a half-adopted format behind.
    pub fn set_camera_format(&mut self, new_fmt: CameraFormat, negotiated: bool, started: bool)
        -> (r: Result<(), CaptureError>)
        ensures
            final(self).cur_info() == old(self).cur_info(),
            final(self).pending() == old(self).pending(),
            old(self).cur_state() is Idle ==> r is Ok && final(self).cur_format() == new_fmt
                && final(self).cur_state() is Idle,
            old(self).cur_state() !is Idle && negotiated && started ==> r is Ok
                && final(self).cur_format() == new_fmt && final(self).cur_state() is Streaming,
            old(self).cur_state() !is Idle && !negotiated ==> r == Err::<(), CaptureError>(
                CaptureError::NegotiationFailed,
            ) && final(self).cur_format() == old(self).cur_format() && final(self).cur_state()
                is Idle,
            old(self).cur_state() !is Idle && negotiated && !started ==> r == Err::<(),
                CaptureError,
            >(CaptureError::StreamStartFailed) && final(self).cur_format() == old(
                self,
            ).cur_format() && final(self).cur_state() is Idle,
            r is Ok <==> (old(self).cur_state() is Idle || (negotiated && started)),
    {
        let prev = self.format;
        self.format = new_fmt;
        if self.state == StreamState::Idle {
            return Ok(());
        }
        match self.open_stream(negotiated, started) {
            Ok(()) => Ok(()),
            Err(e) => {
                self.teardown_stream();
                self.format = prev;
                Err(e)
            },
        }
    }

    /// Producer side of the hand-off: the capture callback appends one
    /// converted RGB frame to the queue. Never blocks and never fails.
    pub fn push_frame(&mut self, frame: Vec<u8>)
        ensures
            final(self).pending() == old(self).pending().push(frame@),
            final(self).cur_state() == old(self).cur_state(),
            final(self).cur_format() == old(self).cur_format(),
            final(self).cur_info() == old(self).cur_info(),
    {
        self.channel.push(frame);
    }

    /// Non-blocking poll for the newest raw frame. Drains the whole queue
    /// and keeps only the most recent buffer; every older frame is
    /// discarded. The result is exactly [`raw_poll_result`] of the state
    /// and queue before the call.
    pub fn get_frame_raw(&mut self) -> (r: Result<Vec<u8>, CaptureError>)
        ensures
            match raw_poll_result(old(self).cur_state(), old(self).pending()) {
                Ok(f) => r matches Ok(v) && v@ == f,
                Err(e) => r == Err::<Vec<u8>, CaptureError>(e),
            },
            old(self).cur_state() is Streaming ==> final(self).pending() == Seq::<Seq<u8>>::empty(),
            old(self).cur_state() !is Streaming ==> *final(self) == *old(self),
            final(self).cur_state() == old(self).cur_state(),
            final(self).cur_format() == old(self).cur_format(),
            final(self).cur_info() == old(self).cur_info(),
    {
        if self.state != StreamState::Streaming {
            return Err(CaptureError::NotStreaming);
        }
        match self.channel.take_latest() {
            Some(frame) => Ok(frame),
            None => Err(CaptureError::TooFast),
        }
    }

    /// Polls for the newest raw frame and reshapes it into an RGB image of
    /// the current format's resolution. A buffer whose length does not match
    /// that resolution is rejected: it signals a frame that raced with a
    /// reconfiguration.
    pub fn get_frame(&mut self) -> (r: Result<FrameImage, CaptureError>)
        ensures
            match raw_poll_result(old(self).cur_state(), old(self).pending()) {
                Ok(f) => {
                    if f.len() == old(self).cur_format().frame_bytes() {
                        r matches Ok(img) && img.width == old(self).cur_format().resolution.width_x
                            && img.height == old(self).cur_format().resolution.height_y
                            && img.data@ == f && img.wf()
                    } else {
                        r == Err::<FrameImage, CaptureError>(CaptureError::FrameSizeMismatch)
                    }
                },
                Err(e) => r == Err::<FrameImage, CaptureError>(e),
            },
            old(self).cur_state() is Streaming ==> final(self).pending() == Seq::<Seq<u8>>::empty(),
            old(self).cur_state() !is Streaming ==> *final(self) == *old(self),
            final(self).cur_state() == old(self).cur_state(),
            final(self).cur_format() == old(self).cur_format(),
            final(self).cur_info() == old(self).cur_info(),
    {
        let data = match self.get_frame_raw() {
            Ok(d) => d,
            Err(e) => {
                return Err(e);
            },
        };
        let width = self.format.resolution.width_x;
        let height = self.format.resolution.height_y;
        proof {
            assert((width as int) * (height as int) <= 0xffff_ffff * 0xffff_ffff)
                by (nonlinear_arith)
                requires
                    width <= 0xffff_ffffu32,
                    height <= 0xffff_ffffu32,
            ;
        }
        let expected: u128 = (width as u128) * (height as u128) * 3;
        if data.len() as u128 == expected {
            Ok(FrameImage { width, height, data })
        } else {
            Err(CaptureError::FrameSizeMismatch)
        }
    }
}

/// A delivered image that is well formed and matches a format's resolution
/// holds exactly `width * height * 3` bytes of that format: the byte length
/// of every frame that a stream opened for a format hands out is fixed by
/// the format alone.
pub proof fn lemma_frame_len_matches_format(fmt: CameraFormat, img: FrameImage)
    requires
        img.wf(),
        img.width == fmt.resolution.width_x,
        img.height == fmt.resolution.height_y,
    ensures
        img.data@.len() == fmt.frame_bytes(),
{
}

/// The nesting invariant of the handle chain: in every reachable state, an
/// active stream exists only while its parent stream handle does, so the
/// parent can never be destroyed out from under it.
pub proof fn lemma_chain_nesting(s: StreamState)
    ensures
        active_exists(s) ==> handle_exists(s),
{
}

/// A reopen releases before it reacquires: whatever was open before, the
/// state the fresh negotiation starts from holds no handle and no active
/// stream of the prior session, so nothing leaked remains claimable; and
/// the reopened state depends on the hardware's two verdicts alone, never
/// on what was open before.
pub proof fn lemma_reopen_releases_first(s: StreamState, negotiated: bool, started: bool)
    ensures
        !handle_exists(torn_down(s)),
        !active_exists(torn_down(s)),
        started_from(negotiated_from(torn_down(s), negotiated), started) == (if negotiated
            && started {
            StreamState::Streaming
        } else if negotiated {
            StreamState::Negotiated
        } else {
            StreamState::Idle
        }),
{
}

/// Tearing the chain down is idempotent: a second teardown finds the chain
/// idle and changes nothing.
pub proof fn lemma_teardown_idempotent(s: StreamState)
    ensures
        torn_down(torn_down(s)) == torn_down(s),
        torn_down(s) is Idle,
{
}

/// After a teardown a raw-frame poll always reports the missing stream,
/// whatever is still queued: it can never claim the consumer was merely too
/// fast.
pub proof fn lemma_poll_after_teardown(s: StreamState, pending: Seq<Seq<u8>>)
    ensures
        raw_poll_result(torn_down(s), pending) == Err::<Seq<u8>, CaptureError>(
            CaptureError::NotStreaming,
        ),
        raw_poll_result(torn_down(s), pending) != Err::<Seq<u8>, CaptureError>(
            CaptureError::TooFast,
        ),
{
}

/// Latest wins: however many frames are queued before the consumer reads,
/// a poll while streaming returns exactly the newest one; and once the
/// queue has been drained, the next poll reports the consumer as too fast.
pub proof fn lemma_latest_wins(pending: Seq<Seq<u8>>, newest: Seq<u8>)
    ensures
        raw_poll_result(StreamState::Streaming, pending.push(newest)) == Ok::<Seq<u8>, CaptureError>(
            newest,
        ),
        raw_poll_result(StreamState::Streaming, Seq::<Seq<u8>>::empty()) == Err::<
            Seq<u8>,
            CaptureError,
        >(CaptureError::TooFast),
{
    assert(pending.push(newest).last() == newest);
}

} // verus!
