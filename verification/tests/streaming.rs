use flutter_realtime_player::dart_types::StreamState;
use flutter_realtime_player::engine::input::ffmpeg::{
    CommandEffect, FfmpegVideoSession, FrameReceive, PacketRead, PassStep, RestartStep, SampleAction,
    ScalerPlan, ScalingAlgorithm, StreamExitResult, StreamPassState,
};
use flutter_realtime_player::engine::input::{InputCommand, InputEvent};
use flutter_realtime_player::engine::output::android_surface::{install_video_size_watch, set_video_size};
use flutter_realtime_player::engine::output::flutter_pixelbuffer::{
    finalize_should_wait, handle_command, handle_event, next_wait, on_channel_closed, EventAction, OutputCommand,
    OutputLoopState, OutputWait,
};
use flutter_realtime_player::engine::software_decoder::DimensionError;
use flutter_realtime_player::engine::texture::payload::{PayloadHolder, RawRgbaFrame};
use flutter_realtime_player::engine::types::{VideoDimensions, VideoInfo};

fn info(uri: &str, auto_restart: bool) -> VideoInfo {
    VideoInfo { uri: uri.to_string(), framerate: None, mute: false, auto_restart }
}

fn session(uri: &str) -> FfmpegVideoSession {
    FfmpegVideoSession::new(info(uri, true), 1, None, VideoDimensions { width: 640, height: 480 })
}

#[test]
fn opening_a_stream_plans_the_scaler() {
    let mut s = session("https://cdn/live.m3u8");
    assert_eq!(
        s.initialize_stream(1920, 1080),
        Ok(ScalerPlan::Build { src_width: 1920, src_height: 1080, dst: VideoDimensions { width: 640, height: 480 } })
    );
    assert!(!s.is_seekable());
    assert_eq!(s.seek(5), None);
    s.commit_stream(30);
    assert!(s.is_seekable());
    assert_eq!(s.seek(5), Some(5));
    let mut t = session("file.mp4");
    assert_eq!(t.initialize_stream(0, 1080), Ok(ScalerPlan::Deferred));
    t.commit_stream(30);
    assert!(!t.is_seekable());
    assert!(FfmpegVideoSession::validate_stream_compatibility(0, 10).is_err());
}

#[test]
fn scaler_fallback_order() {
    assert_eq!(FfmpegVideoSession::create_scaler_with_fallbacks(0), Some(ScalingAlgorithm::FastBilinear));
    assert_eq!(FfmpegVideoSession::create_scaler_with_fallbacks(1), Some(ScalingAlgorithm::Bilinear));
    assert_eq!(FfmpegVideoSession::create_scaler_with_fallbacks(2), Some(ScalingAlgorithm::Point));
    assert_eq!(FfmpegVideoSession::create_scaler_with_fallbacks(3), None);
}

#[test]
fn resize_validation() {
    let s = session("file.mp4");
    assert_eq!(s.resize_stream(640, 480), Ok(None));
    assert_eq!(s.resize_stream(641, 481), Ok(None));
    assert_eq!(s.resize_stream(1280, 721), Ok(Some(VideoDimensions { width: 1280, height: 720 })));
    assert_eq!(s.resize_stream(0, 1), Err(DimensionError::Invalid { width: 0, height: 1 }));
}

#[test]
fn draining_commands_reports_termination() {
    let mut s = session("file.mp4");
    let (stop, effects) = s.drain_commands(vec![
        InputCommand::Seek { ts: 5 },
        InputCommand::Resize { width: 320, height: 240 },
    ]);
    assert!(!stop);
    assert!(matches!(effects[0], CommandEffect::Seek(None)));
    assert!(matches!(effects[1], CommandEffect::Resize(Ok(Some(VideoDimensions { width: 320, height: 240 })))));
    assert!(!s.asked_for_termination());
    s.commit_stream(25);
    let (stop, effects) = s.drain_commands(vec![
        InputCommand::Seek { ts: 7 },
        InputCommand::Resize { width: 640, height: 480 },
        InputCommand::Resize { width: 0, height: 480 },
    ]);
    assert!(!stop);
    assert!(matches!(effects[0], CommandEffect::Seek(Some(7))));
    assert!(matches!(effects[1], CommandEffect::Resize(Ok(None))));
    assert!(matches!(effects[2], CommandEffect::Resize(Err(_))));
    let (stop, _) = s.drain_commands(vec![InputCommand::Terminate]);
    assert!(stop);
    assert!(s.asked_for_termination());
    assert!(s.pass_should_exit(false));
}

#[test]
fn packet_reads_drive_the_pass() {
    let mut s = session("http://x/video.mp4");
    s.initialize_stream(640, 480).unwrap();
    s.commit_stream(25);
    let mut st = StreamPassState { is_playing: false, stalled: false };
    let first = s.on_packet(&mut st, PacketRead::Video, 9);
    assert!(first.decode);
    assert_eq!(first.step, PassStep::Continue { sleep_nanos: Some(40_000_000) });
    assert!(matches!(first.event, Some(InputEvent::State(StreamState::Playing { texture_id: 9, seekable: false }))));
    assert!(s.on_packet(&mut st, PacketRead::Video, 9).event.is_none());
    let stall = s.on_packet(&mut st, PacketRead::TimedOut, 9);
    assert!(matches!(stall.event, Some(InputEvent::State(StreamState::Loading))));
    assert_eq!(stall.step, PassStep::Continue { sleep_nanos: Some(200_000_000) });
    assert!(s.on_packet(&mut st, PacketRead::TimedOut, 9).event.is_none());
    assert!(s.on_packet(&mut st, PacketRead::Video, 9).event.is_some());
    assert_eq!(s.on_packet(&mut st, PacketRead::Eof, 9).step, PassStep::Exit(StreamExitResult::EOF));
    let failed = s.on_packet(&mut st, PacketRead::Failed, 9);
    match failed.event {
        Some(InputEvent::State(StreamState::Error(m))) => assert_eq!(m, "Stream corrupted"),
        _ => panic!("expected an error"),
    }
}

#[test]
fn rtsp_streams_are_not_paced() {
    let mut s = session("rtsp://cam/1");
    s.initialize_stream(640, 480).unwrap();
    s.commit_stream(25);
    assert_eq!(s.frame_sleep_nanos(), None);
}

#[test]
fn restart_decisions() {
    let s = session("file.mp4");
    assert_eq!(s.after_pass(StreamExitResult::LegalExit), RestartStep::Stop);
    assert_eq!(s.after_pass(StreamExitResult::EOF), RestartStep::Restart { report_stopped: true, delay_ms: 100 });
    assert_eq!(s.after_pass(StreamExitResult::Error), RestartStep::Restart { report_stopped: false, delay_ms: 100 });
    let once = FfmpegVideoSession::new(info("f", false), 1, None, VideoDimensions { width: 2, height: 2 });
    assert_eq!(once.after_pass(StreamExitResult::EOF), RestartStep::Stop);
    assert_eq!(once.exit_reason(), "loop-exit");
    assert_eq!(s.log_stream_exit("eof"), "Stream exit (eof) file.mp4");
}

#[test]
fn sample_decisions() {
    let s = session("file.mp4");
    assert_eq!(s.on_new_sample(FrameReceive::Frame, true), SampleAction::Scale { build_scaler_to: None });
    assert_eq!(
        s.on_new_sample(FrameReceive::Frame, false),
        SampleAction::Scale { build_scaler_to: Some(VideoDimensions { width: 640, height: 480 }) }
    );
    assert_eq!(s.on_new_sample(FrameReceive::InputChanged, true), SampleAction::FlushAndResetScaler);
    assert_eq!(s.on_new_sample(FrameReceive::Again, true), SampleAction::Stop);
}

#[test]
fn placeholder_after_resize() {
    let mut h = PayloadHolder::new();
    assert!(FfmpegVideoSession::update_texture_with_placeholder(&mut h, 4, 2, Some(RawRgbaFrame::black(4, 2))));
    assert!(!FfmpegVideoSession::update_texture_with_placeholder(&mut h, 4, 2, Some(RawRgbaFrame::black(2, 2))));
    let shown = h.get_payload();
    assert_eq!((shown.width, shown.height), (4, 2));
    assert!(!FfmpegVideoSession::update_texture_with_placeholder(&mut h, 2, 2, None));
}

#[test]
fn output_commands_and_events() {
    let t = handle_command(1, OutputCommand::Terminate);
    assert!(t.finished && t.terminate_texture);
    assert!(matches!(t.forward, InputCommand::Terminate));
    let s = handle_command(1, OutputCommand::Seek { ts: 77 });
    assert!(!s.finished && !s.terminate_texture);
    assert!(matches!(s.forward, InputCommand::Seek { ts: 77 }));
    assert!(matches!(handle_event(InputEvent::FrameAvailable), EventAction::MarkFrameAvailable));
    assert!(matches!(handle_event(InputEvent::State(StreamState::Stopped)), EventAction::ReportState(StreamState::Stopped)));
}

#[test]
fn output_loop_waits_on_open_channels() {
    let st = OutputLoopState { commands_closed: false, events_closed: false };
    assert_eq!(next_wait(st), OutputWait::Either);
    let st = on_channel_closed(st, true);
    assert_eq!(next_wait(st), OutputWait::EventsOnly);
    let st = on_channel_closed(st, false);
    assert_eq!(next_wait(st), OutputWait::Finish);
    assert!(finalize_should_wait(0, 2));
    assert!(!finalize_should_wait(0, 1));
    assert!(!finalize_should_wait(50, 2));
}

#[test]
fn surface_size_watch() {
    let mut last = None;
    assert!(install_video_size_watch(&mut last, 640, 480));
    assert!(!install_video_size_watch(&mut last, 640, 480));
    assert!(install_video_size_watch(&mut last, 1280, 720));
    assert!(!set_video_size(0, 480));
    assert!(set_video_size(1, 1));
}
