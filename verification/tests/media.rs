use flutter_realtime_player::engine::fluttersink::types::{Orientation, OrientationState};
use flutter_realtime_player::engine::fluttersink::{apply_tsdp_ffmpeg_defaults, create_tsdp_playable, finish_tsdp_playable};
use flutter_realtime_player::engine::session::registry::SessionRegistry;
use flutter_realtime_player::engine::fluttersink::video_sink::{
    flow_after_send, show_frame_step, FrameSend, ShowFrameStep, SinkFlow, WindowSettings,
};
use flutter_realtime_player::engine::platform::{new_sample_action, GstD3D11ConverterBackend, SampleAction};
use flutter_realtime_player::engine::texture::flutter::{copy_rows_into, fill_black_rows, FlutterPixelBufferSink, WriteDecision};
use flutter_realtime_player::engine::texture::payload::{pack_rows, PayloadHolder, RawRgbaFrame};
use flutter_realtime_player::engine::types::{TsdpEndpoint, VideoDimensions, VideoInfo};
use flutter_realtime_player::text::{parse_unsigned, str_contains, to_decimal};
use flutter_realtime_player::utils::{is_gst_result_ok, LogErr};
use std::sync::Arc;

fn s(x: &str) -> String {
    x.to_string()
}

#[test]
fn gst_result_is_ok_only_for_one() {
    assert!(is_gst_result_ok(1));
    assert!(!is_gst_result_ok(0));
    assert!(!is_gst_result_ok(2));
}

#[test]
fn log_err_keeps_values_and_drops_errors() {
    let ok: Result<u8, String> = Ok(3);
    let err: Result<u8, String> = Err(s("bad"));
    assert_eq!(ok.log_err(), Some(3));
    assert_eq!(err.log_err(), None);
}

#[test]
fn black_frame_is_opaque_black() {
    let f = RawRgbaFrame::black(2, 1);
    assert_eq!(f.data, vec![0, 0, 0, 255, 0, 0, 0, 255]);
    assert_eq!((f.width, f.height), (2, 1));
}

#[test]
fn padded_rows_are_packed() {
    let data = [1, 2, 9, 3, 4, 9, 5, 6];
    assert_eq!(pack_rows(&data, 2, 3, 3), vec![1, 2, 3, 4, 5, 6]);
    let f = RawRgbaFrame::from_padded_rows(1, 2, 6, &[1, 2, 3, 4, 0, 0, 5, 6, 7, 8]);
    assert_eq!(f.data, vec![1, 2, 3, 4, 5, 6, 7, 8]);
}

#[test]
fn payload_holder_shows_current_then_previous_then_black() {
    let mut h = PayloadHolder::new();
    let empty = h.get_payload();
    assert_eq!((empty.width, empty.height, empty.data.len()), (640, 480, 640 * 480 * 4));
    h.set_payload(Arc::new(RawRgbaFrame::black(1, 1)));
    h.set_payload(Arc::new(RawRgbaFrame::black(2, 2)));
    assert_eq!(h.get_payload().width, 2);
    assert_eq!(h.previous_frame().map(|f| f.width), Some(1));
}

#[test]
fn tsdp_defaults_keep_caller_values() {
    let mut options = vec![(s("fflags"), s("genpts"))];
    apply_tsdp_ffmpeg_defaults(&mut options);
    assert_eq!(
        options,
        vec![
            (s("fflags"), s("genpts")),
            (s("protocol_whitelist"), s("file,udp,rtp")),
            (s("flags"), s("low_delay")),
            (s("analyzeduration"), s("0")),
            (s("probesize"), s("32")),
        ]
    );
}

#[test]
fn tsdp_playable_settings() {
    let endpoint = TsdpEndpoint { base_url: s("http://relay:8080"), source_id: s("cam1"), client_port: None };
    let info = VideoInfo::new(s("ignored"), VideoDimensions { width: 1, height: 1 }, Some(25), None, Some(true));
    let (info, options) = create_tsdp_playable(&endpoint, info, None, 5004);
    assert_eq!(info.uri, "tsdp://http://relay:8080/cam1");
    assert_eq!((info.framerate, info.mute, info.auto_restart), (Some(25), false, true));
    assert!(options.contains(&(s("local_rtpport"), s("5004"))));
    assert!(options.contains(&(s("local_rtcpport"), s("5005"))));
    assert_eq!(options.len(), 7);
}

#[test]
fn orientation_tags() {
    assert_eq!(Orientation::from_tag_value("rotate-90"), Some(Orientation::Rotate90));
    assert_eq!(Orientation::from_tag_value("flip-rotate-180"), Some(Orientation::FlipRotate180));
    assert_eq!(Orientation::from_tag_value("sideways"), None);
    assert!(Orientation::Rotate270.is_flip_width_height());
    assert!(Orientation::FlipRotate90.is_flip_width_height());
    assert!(!Orientation::Rotate180.is_flip_width_height());
    assert!(!Orientation::default().is_flip_width_height());
}

#[test]
fn orientation_state_prefers_stream_tags() {
    let mut st = OrientationState::new();
    assert_eq!(st.effective(), Orientation::Rotate0);
    st.on_stream_start();
    assert_eq!(st.effective(), Orientation::Rotate0);
    st.on_tag(true, Some(Orientation::Rotate90));
    assert_eq!(st.effective(), Orientation::Rotate90);
    st.on_tag(false, Some(Orientation::Rotate180));
    assert_eq!(st.effective(), Orientation::Rotate180);
    st.on_tag(true, None);
    assert_eq!(st.global_orientation, Orientation::Rotate0);
}

#[test]
fn converter_backend_flags() {
    assert_eq!(GstD3D11ConverterBackend::GST_D3D11_CONVERTER_BACKEND_SHADER.flag(), 1);
    assert_eq!(GstD3D11ConverterBackend::GST_D3D11_CONVERTER_BACKEND_VIDEO_PROCESSOR.flag(), 2);
}

#[test]
fn rows_are_copied_into_texture_buffer() {
    let mut pixels = vec![7u8; 12];
    copy_rows_into(&mut pixels, 6, &[1, 2, 3, 4, 5, 6, 7, 8], 4, 2);
    assert_eq!(pixels, vec![1, 2, 3, 4, 7, 7, 5, 6, 7, 8, 7, 7]);
    let mut black = vec![9u8; 12];
    fill_black_rows(&mut black, 6, 4, 2);
    assert_eq!(black, vec![0, 0, 0, 255, 9, 9, 0, 0, 0, 255, 9, 9]);
}

#[test]
fn pixel_buffer_resizes_once_at_a_time() {
    let mut sink = FlutterPixelBufferSink::new(4, 4);
    assert_eq!(sink.write_frame(4, 4), WriteDecision::Write);
    assert_eq!(sink.write_frame(8, 8), WriteDecision::StartResize { width: 8, height: 8 });
    assert_eq!(sink.write_frame(8, 8), WriteDecision::Drop);
    sink.finish_resize(Some((8, 8)));
    assert_eq!(sink.write_frame(8, 8), WriteDecision::Write);
    assert_eq!(sink.write_frame(2, 2), WriteDecision::StartResize { width: 2, height: 2 });
    sink.finish_resize(None);
    assert_eq!(sink.write_frame(8, 8), WriteDecision::Write);
}

#[test]
fn decimal_text() {
    assert_eq!(to_decimal(0), "0");
    assert_eq!(to_decimal(65535), "65535");
    assert_eq!(parse_unsigned("+96", 255), Some(96));
    assert_eq!(parse_unsigned("256", 255), None);
    assert_eq!(parse_unsigned("", 255), None);
    assert_eq!(parse_unsigned("+", 255), None);
    assert_eq!(parse_unsigned("9a", 255), None);
    assert_eq!(parse_unsigned("00000000000000000000000000000000000007", 255), Some(7));
    assert_eq!(parse_unsigned("99999999999999999999999999", 4294967295), None);
    assert!(str_contains("abcabd", "abd"));
    assert!(!str_contains("ab", "abc"));
    assert!(str_contains("ab", ""));
}

#[test]
fn window_resize_is_reported_once() {
    let mut w = WindowSettings::new();
    assert!(!w.take_resized());
    w.set_window_width(0);
    assert!(!w.take_resized());
    w.set_window_width(640);
    w.set_window_height(480);
    assert_eq!((w.window_width, w.window_height), (640, 480));
    assert!(w.take_resized());
    assert!(!w.take_resized());
    w.set_window_height(480);
    assert!(!w.take_resized());
}

#[test]
fn show_frame_steps() {
    assert_eq!(show_frame_step(0, false, false), ShowFrameStep::Empty);
    assert_eq!(show_frame_step(1, false, true), ShowFrameStep::NotNegotiated);
    assert_eq!(show_frame_step(1, true, false), ShowFrameStep::Convert);
    assert_eq!(show_frame_step(2, true, true), ShowFrameStep::Render);
    assert_eq!(flow_after_send(FrameSend::Sent), SinkFlow::Proceed);
    assert_eq!(flow_after_send(FrameSend::QueueFull), SinkFlow::Proceed);
    assert_eq!(flow_after_send(FrameSend::Disconnected), SinkFlow::Flushing);
}

#[test]
fn new_sample_actions() {
    assert_eq!(new_sample_action(false, true), SampleAction::Notify);
    assert_eq!(new_sample_action(true, true), SampleAction::Reconvert);
    assert_eq!(new_sample_action(true, false), SampleAction::Skip);
}

#[test]
fn tsdp_playable_is_registered_or_cleaned_up() {
    let mut r: SessionRegistry<&str, u8> = SessionRegistry::new();
    assert!(finish_tsdp_playable(&mut r, 3, 9, 100, None));
    assert!(r.get_session(3).is_none());
    assert!(!finish_tsdp_playable(&mut r, 3, 9, 100, Some("decoder")));
    let e = r.get_session(3).expect("registered");
    assert_eq!((e.engine_handle, e.last_alive_mark_ms, e.handle), (9, 100, "decoder"));
    assert!(e.events_sink.is_none());
}
