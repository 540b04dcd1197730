use uvc_capture::CameraFormat;
use uvc_capture::CameraInfo;
use uvc_capture::CaptureDevice;
use uvc_capture::CaptureError;
use uvc_capture::FrameChannel;
use uvc_capture::FrameFormat;
use uvc_capture::Resolution;
use uvc_capture::StreamFormat;
use uvc_capture::StreamState;

fn info() -> CameraInfo {
    CameraInfo::new(
        "Test Camera".to_string(),
        "".to_string(),
        "1234:5678".to_string(),
        0,
    )
}

fn device_640() -> CaptureDevice {
    CaptureDevice::create_with(info(), 640, 480, 15, FrameFormat::MJPEG)
}

#[test]
fn frame_after_open_has_format_length() {
    let mut d = device_640();
    assert!(d.open_stream(true, true).is_ok());
    d.push_frame(vec![7u8; 640 * 480 * 3]);
    let img = d.get_frame().unwrap();
    assert_eq!(img.width, 640);
    assert_eq!(img.height, 480);
    assert_eq!(img.data.len(), 640 * 480 * 3);
}

#[test]
fn stop_stream_twice_is_idle() {
    let mut d = device_640();
    assert!(d.open_stream(true, true).is_ok());
    assert!(d.stop_stream().is_ok());
    assert!(d.stop_stream().is_ok());
    assert!(!d.is_stream_open());
}

#[test]
fn stopped_device_reports_not_streaming_never_too_fast() {
    let mut d = device_640();
    assert!(d.open_stream(true, true).is_ok());
    d.push_frame(vec![1u8; 640 * 480 * 3]);
    assert!(d.stop_stream().is_ok());
    assert_eq!(d.get_frame_raw(), Err(CaptureError::NotStreaming));
    assert_eq!(d.get_frame_raw(), Err(CaptureError::NotStreaming));
}

#[test]
fn latest_frame_wins_then_too_fast() {
    let mut d = device_640();
    assert!(d.open_stream(true, true).is_ok());
    d.push_frame(vec![1u8, 1, 1]);
    d.push_frame(vec![2u8, 2, 2]);
    d.push_frame(vec![3u8, 3, 3]);
    assert_eq!(d.get_frame_raw(), Ok(vec![3u8, 3, 3]));
    assert_eq!(d.get_frame_raw(), Err(CaptureError::TooFast));
}

#[test]
fn reopen_fully_releases_previous_stream() {
    let mut d = device_640();
    assert!(d.open_stream(true, true).is_ok());
    assert!(d.is_stream_open());
    // A second open while streaming succeeds: the first session's handle is
    // released before the new one is negotiated.
    assert!(d.open_stream(true, true).is_ok());
    assert!(d.is_stream_open());
    // A reopen whose start fails leaves no running session behind.
    assert_eq!(d.open_stream(true, false), Err(CaptureError::StreamStartFailed));
    assert!(!d.is_stream_open());
}

#[test]
fn scenario_reconfigure_mid_stream() {
    let mut d = device_640();
    assert!(d.open_stream(true, true).is_ok());
    d.push_frame(vec![10u8; 640 * 480 * 3]);
    d.push_frame(vec![20u8; 640 * 480 * 3]);
    d.push_frame(vec![30u8; 640 * 480 * 3]);
    assert_eq!(d.get_frame_raw(), Ok(vec![30u8; 640 * 480 * 3]));
    let new_fmt = CameraFormat::new_from(320, 240, FrameFormat::YUYV, 30);
    assert!(d.set_camera_format(new_fmt, true, true).is_ok());
    assert_eq!(d.get_camera_format(), new_fmt);
    d.push_frame(vec![40u8; 320 * 240 * 3]);
    let img = d.get_frame().unwrap();
    assert_eq!(img.width, 320);
    assert_eq!(img.height, 240);
}

#[test]
fn scenario_frame_before_any_open() {
    let mut d = device_640();
    assert_eq!(d.get_frame().unwrap_err(), CaptureError::NotStreaming);
    assert_eq!(d.get_frame_raw(), Err(CaptureError::NotStreaming));
}

#[test]
fn scenario_rejected_reconfigure_restores_format() {
    let mut d = device_640();
    let original = d.get_camera_format();
    assert!(d.open_stream(true, true).is_ok());
    let rejected = CameraFormat::new_from(4096, 4096, FrameFormat::YUYV, 120);
    assert_eq!(
        d.set_camera_format(rejected, false, false),
        Err(CaptureError::NegotiationFailed)
    );
    assert_eq!(d.get_camera_format(), original);
    // The chosen reconfiguration policy: a failed reopen leaves the device idle.
    assert!(!d.is_stream_open());
}

#[test]
fn set_format_while_idle_touches_no_hardware() {
    let mut d = device_640();
    let new_fmt = CameraFormat::new_from(1920, 1080, FrameFormat::YUYV, 60);
    // The hardware verdicts are refusals, but while idle nothing is asked of it.
    assert!(d.set_camera_format(new_fmt, false, false).is_ok());
    assert_eq!(d.get_camera_format(), new_fmt);
    assert!(!d.is_stream_open());
}

#[test]
fn start_failure_leaves_no_running_session() {
    let mut d = device_640();
    assert_eq!(d.open_stream(true, false), Err(CaptureError::StreamStartFailed));
    assert!(!d.is_stream_open());
    assert_eq!(d.get_frame_raw(), Err(CaptureError::NotStreaming));
}

#[test]
fn negotiation_failure_is_reported() {
    let mut d = device_640();
    assert_eq!(d.open_stream(false, true), Err(CaptureError::NegotiationFailed));
    assert!(!d.is_stream_open());
}

#[test]
fn wrong_sized_frame_is_a_size_mismatch() {
    let mut d = device_640();
    assert!(d.open_stream(true, true).is_ok());
    d.push_frame(vec![5u8; 100]);
    assert_eq!(d.get_frame().unwrap_err(), CaptureError::FrameSizeMismatch);
}

#[test]
fn stream_format_conversion_is_lossless() {
    let cf = CameraFormat::new_from(1280, 720, FrameFormat::YUYV, 30);
    let sf = StreamFormat::from(cf);
    assert_eq!(
        sf,
        StreamFormat {
            width: 1280,
            height: 720,
            fps: 30,
            format: FrameFormat::YUYV,
        }
    );
}

#[test]
fn default_format_is_vga_mjpeg_fifteen() {
    let d = CaptureDevice::create(info(), None);
    assert_eq!(
        d.get_camera_format(),
        CameraFormat::new_from(640, 480, FrameFormat::MJPEG, 15)
    );
}

#[test]
fn format_getters_report_the_configured_values() {
    let d = device_640();
    assert_eq!(d.get_resolution(), Resolution::new(640, 480));
    assert_eq!(d.get_resolution().width(), 640);
    assert_eq!(d.get_resolution().height(), 480);
    assert_eq!(d.get_framerate(), 15);
    assert_eq!(d.get_frameformat(), FrameFormat::MJPEG);
}

#[test]
fn info_is_returned_as_recorded() {
    let d = CaptureDevice::create(info(), None);
    let i = d.get_info();
    assert_eq!(i.human_name, "Test Camera");
    assert_eq!(i.description, "");
    assert_eq!(i.misc, "1234:5678");
    assert_eq!(i.index, 0);
}

#[test]
fn step_protocol_builds_and_tears_down_in_order() {
    let mut d = device_640();
    assert_eq!(d.stream_state(), StreamState::Idle);
    assert!(d.negotiate_stream(true).is_ok());
    assert_eq!(d.stream_state(), StreamState::Negotiated);
    assert!(d.start_stream(true).is_ok());
    assert_eq!(d.stream_state(), StreamState::Streaming);
    d.release_active_stream();
    assert_eq!(d.stream_state(), StreamState::Negotiated);
    d.release_stream_handle();
    assert_eq!(d.stream_state(), StreamState::Idle);
}

#[test]
fn failed_negotiation_step_stays_idle() {
    let mut d = device_640();
    assert_eq!(d.negotiate_stream(false), Err(CaptureError::NegotiationFailed));
    assert_eq!(d.stream_state(), StreamState::Idle);
}

#[test]
fn channel_drains_to_the_newest_push() {
    let mut c = FrameChannel::new();
    assert_eq!(c.take_latest(), None);
    c.push(vec![1u8, 2, 3]);
    c.push(vec![4u8, 5, 6]);
    assert_eq!(c.take_latest(), Some(vec![4u8, 5, 6]));
    assert_eq!(c.take_latest(), None);
}
