use flutter_realtime_player::engine::input::playbin::{
    bus_error_text, bus_warning_text, frame_from_sample, playbin_loop_step, seek_position_ns, GstBusEvent,
    PlaybinControlError, PlaybinStep,
};
use flutter_realtime_player::engine::input::trtp::{
    build_trtp_url, command_message, decode_message, ping_due, pick_ephemeral_rtp_port, read_step, ClientMessage,
    CommandStep, FrameHandling, FrameKind, ReadOutcome, ReadStep, ServerMessage, TrtpCommand, TrtpEvent, TrtpState,
};
use flutter_realtime_player::engine::input::wsc_rtp::{
    build_pipeline_str, build_wsc_rtp_handshake_request, control_request_url, control_response_mode,
    handle_server_message, handshake_line, is_expected_reply, parse_rtp_caps_from_sdp, pipeline_eos_text,
    pipeline_error_text, resolve_server_udp_addr, session_loop_step, status_is_success, ControlError,
    HandshakeState, ReconnectDecision, ReconnectState, ServerMessageEffect, SessionLoopAction, SessionLoopError,
    SessionLoopEvent, SessionMode, UdpHandshake, UdpHandshakePhase, WscRtpServerMessage, WscRtpSession,
};
use flutter_realtime_player::engine::tsdp::{
    announce_port, build_url, ensure_sdp_line_endings, holepunch_decision, holepunch_payload, is_loopback_host,
    log_sdp_preview, refresh_after_wait, refresh_interval_secs, HolepunchDecision, RefreshWait,
};
use flutter_realtime_player::engine::types::WscRtpSessionConfig;
use flutter_realtime_player::engine::urls::{edit_fits_exec, UrlError};

const SDP: &str = "v=0\r\no=- 0 0 IN IP4 127.0.0.1\r\ns=stream\r\nc=IN IP4 127.0.0.1\r\nt=0 0\r\nm=video 5004 RTP/AVP 96\r\na=rtpmap:96 h264/90000\r\na=fmtp:96 packetization-mode=1; sprop-parameter-sets=Z0IAH5WoFAFuQA==,aM48gA==\r\n";

#[test]
fn rtp_caps_are_read_from_sdp() {
    let (encoding, pt, clock, sprop) = parse_rtp_caps_from_sdp(SDP).expect("caps");
    assert_eq!(encoding, "H264");
    assert_eq!(pt, 96);
    assert_eq!(clock, 90000);
    assert_eq!(sprop.as_deref(), Some("Z0IAH5WoFAFuQA==,aM48gA=="));
}

#[test]
fn rtp_caps_need_rtpmap_and_clock() {
    let no_rtpmap = "v=0\r\no=- 0 0 IN IP4 127.0.0.1\r\ns=x\r\nt=0 0\r\nm=video 5004 RTP/AVP 96\r\n";
    assert!(parse_rtp_caps_from_sdp(no_rtpmap).is_none());
    let no_clock = "v=0\r\no=- 0 0 IN IP4 127.0.0.1\r\ns=x\r\nt=0 0\r\nm=video 5004 RTP/AVP 26\r\na=rtpmap:26 JPEG\r\n";
    assert!(parse_rtp_caps_from_sdp(no_clock).is_none());
    assert!(parse_rtp_caps_from_sdp("not an sdp").is_none());
}

#[test]
fn pipeline_description() {
    assert_eq!(
        build_pipeline_str("H264", 96, 90000, &Some("abc".to_string())),
        "appsrc name=src caps=\"application/x-rtp,media=video,payload=96,clock-rate=90000,encoding-name=H264,sprop-parameter-sets=\\\"abc\\\"\" format=time is-live=true ! rtpjitterbuffer ! rtph264depay ! h264parse ! avdec_h264 ! videoconvert ! video/x-raw,format=RGBA ! appsink name=sink sync=false emit-signals=true"
    );
    let vp8 = build_pipeline_str("VP8", 97, 90000, &Some("ignored".to_string()));
    assert!(vp8.contains("encoding-name=VP8\" format"));
    assert!(vp8.contains("rtpvp8depay ! vp8dec"));
    assert!(build_pipeline_str("MJPG", 26, 90000, &None).contains("rtpjpegdepay ! jpegdec"));
}

#[test]
fn handshake_url_switches_to_websocket() {
    assert_eq!(
        build_wsc_rtp_handshake_request("https://media.example:8443/api?x=1", "cam 1", false).unwrap(),
        "wss://media.example:8443/streams/cam%201/wsc-rtp"
    );
    assert_eq!(
        build_wsc_rtp_handshake_request("http://media.example", "c", true).unwrap(),
        "ws://media.example/streams/c/wsc-rtp?force_websocket_transport=true"
    );
    assert_eq!(build_wsc_rtp_handshake_request("not a url", "c", true), Err(UrlError::InvalidUrl));
    assert_eq!(build_trtp_url("http://relay/", "s1").unwrap(), "ws://relay/streams/s1/trtp");
}

#[test]
fn control_requests() {
    assert_eq!(
        control_request_url("http://m:80/", &Some("abc".to_string()), "seek").unwrap(),
        "http://m/client-session-control/abc/seek"
    );
    assert_eq!(control_request_url("http://m", &None, "seek"), Err(ControlError::Reconnecting));
    let mut s = WscRtpSession::new(WscRtpSessionConfig {
        base_url: "http://m".to_string(),
        source_id: "s".to_string(),
        client_port: None,
        force_websocket_transport: false,
        auto_restart: true,
    });
    assert_eq!(s.go_live(), Err(ControlError::Reconnecting));
    s.set_active_session("id9".to_string());
    assert_eq!(s.set_speed().unwrap(), "http://m/client-session-control/id9/speed");
    s.clear_active_session();
    assert_eq!(s.seek(), Err(ControlError::Reconnecting));
    assert!(status_is_success(204));
    assert!(!status_is_success(404));
    assert_eq!(control_response_mode(false, None), (false, 0));
    assert_eq!(control_response_mode(true, Some(12)), (true, 12));
}

#[test]
fn server_messages() {
    assert!(matches!(
        handle_server_message(WscRtpServerMessage::SessionMode(SessionMode::Dvr { timestamp: 1500 })),
        ServerMessageEffect::ReportMode { is_live: false, current_time_ms: 1500 }
    ));
    assert!(matches!(
        handle_server_message(WscRtpServerMessage::SessionMode(SessionMode::Live)),
        ServerMessageEffect::ReportMode { is_live: true, current_time_ms: 0 }
    ));
    match handle_server_message(WscRtpServerMessage::Error { message: "boom".to_string() }) {
        ServerMessageEffect::ReportError(m) => assert_eq!(m, "boom"),
        _ => panic!("expected an error"),
    }
    assert!(matches!(handle_server_message(WscRtpServerMessage::Pong), ServerMessageEffect::PongReceived));
}

#[test]
fn handshake_needs_init_and_sdp() {
    let mut h = HandshakeState::new();
    h.on_message(WscRtpServerMessage::Sdp { sdp: "v=0".to_string() });
    assert!(!h.is_complete());
    h.on_message(WscRtpServerMessage::Pong);
    h.on_message(WscRtpServerMessage::Init { session_id: "s1".to_string(), holepunch_port: 4000 });
    assert!(h.is_complete());
    assert_eq!(h.init, Some(("s1".to_string(), 4000)));
}

#[test]
fn reconnect_backoff_doubles_and_caps() {
    let mut r = ReconnectState::new();
    let mut delays = vec![];
    for _ in 0..8 {
        match r.after_connect_failure(false, true) {
            ReconnectDecision::RetryAfter { delay_ms, .. } => delays.push(delay_ms),
            other => panic!("unexpected {:?}", other),
        }
    }
    assert_eq!(delays, vec![500, 1000, 2000, 4000, 8000, 16000, 30000, 30000]);
    r.on_connected();
    assert_eq!(r.after_connect_failure(false, true), ReconnectDecision::RetryAfter { delay_ms: 500, delay_secs: 0 });
    assert_eq!(r.after_connect_failure(true, true), ReconnectDecision::Stop { failed: true });
    assert_eq!(r.after_connect_failure(false, false), ReconnectDecision::Stop { failed: true });
    assert_eq!(r.after_session(true, true), ReconnectDecision::Stop { failed: false });
    assert_eq!(r.after_session(false, false), ReconnectDecision::Stop { failed: true });
}

#[test]
fn lost_connection_waits_the_backoff() {
    let mut r = ReconnectState::new();
    r.on_connected();
    assert_eq!(r.after_session(false, true), ReconnectDecision::RetryAfter { delay_ms: 500, delay_secs: 0 });
    assert_eq!(r.after_session(false, true), ReconnectDecision::RetryAfter { delay_ms: 1000, delay_secs: 1 });
    assert_eq!(r.after_session(true, true), ReconnectDecision::Stop { failed: false });
    assert_eq!(r.after_session(false, true), ReconnectDecision::RetryAfter { delay_ms: 2000, delay_secs: 2 });
    r.on_connected();
    assert_eq!(r.after_session(false, true), ReconnectDecision::RetryAfter { delay_ms: 500, delay_secs: 0 });
}

#[test]
fn session_loop_and_pipeline_texts() {
    assert_eq!(session_loop_step(SessionLoopEvent::Shutdown), SessionLoopAction::ExitShutdown);
    assert_eq!(session_loop_step(SessionLoopEvent::WsClose), SessionLoopAction::ExitError(SessionLoopError::CloseFrame));
    assert_eq!(session_loop_step(SessionLoopEvent::WsBinary), SessionLoopAction::PushBuffer);
    assert_eq!(session_loop_step(SessionLoopEvent::PingTick { ms_since_last_pong: 0 }), SessionLoopAction::SendPing);
    assert_eq!(session_loop_step(SessionLoopEvent::PingTick { ms_since_last_pong: 10_000 }), SessionLoopAction::SendPing);
    assert_eq!(
        session_loop_step(SessionLoopEvent::PingTick { ms_since_last_pong: 10_001 }),
        SessionLoopAction::ExitError(SessionLoopError::PongTimeout)
    );
    assert_eq!(session_loop_step(SessionLoopEvent::PingFailed), SessionLoopAction::ExitError(SessionLoopError::PingFailed));
    assert_eq!(pipeline_error_text("cam", "bad"), "GStreamer error [cam]: bad");
    assert_eq!(pipeline_eos_text("cam"), "GStreamer EOS [cam]");
    assert_eq!(bus_error_text(-3, "x"), "GStreamer error [-3]: x");
    assert_eq!(bus_warning_text(12, "w"), "GStreamer warning [12]: w");
}

#[test]
fn udp_handshake_text() {
    assert_eq!(handshake_line("HP", "s1"), "HP s1");
    assert!(is_expected_reply("  DUMMY s1\n", "DUMMY s1"));
    assert!(!is_expected_reply("DUMMY s2", "DUMMY s1"));
    assert_eq!(resolve_server_udp_addr(&vec![false, true, true]), Ok(1));
    assert_eq!(resolve_server_udp_addr(&vec![false, false]), Ok(0));
    assert!(resolve_server_udp_addr(&vec![]).is_err());
}

#[test]
fn sdp_line_endings() {
    assert_eq!(ensure_sdp_line_endings("v=0\nm=x\n\n"), b"v=0\r\nm=x\r\n".to_vec());
    assert_eq!(ensure_sdp_line_endings(""), b"\r\n".to_vec());
    assert_eq!(ensure_sdp_line_endings("a\r\nb\r"), b"a\r\r\nb\r\n".to_vec());
}

#[test]
fn sdp_preview_lines() {
    assert_eq!(log_sdp_preview(""), None);
    assert_eq!(log_sdp_preview("a\r\nb\n"), Some("a\nb".to_string()));
    let many = "1\n2\n3\n4\n5\n6\n7\n8\n9\n";
    assert_eq!(log_sdp_preview(many), Some("1\n2\n3\n4\n5\n6\n7\n8".to_string()));
}

#[test]
fn relay_setup_decisions() {
    assert_eq!(announce_port(Some(5000), 6000), 5000);
    assert_eq!(announce_port(None, 6000), 6000);
    assert_eq!(refresh_interval_secs(None), 10);
    assert_eq!(refresh_interval_secs(Some(0)), 1);
    assert_eq!(refresh_interval_secs(Some(30)), 30);
    assert!(refresh_after_wait(RefreshWait::TimedOut));
    assert!(!refresh_after_wait(RefreshWait::Stopped));
    assert_eq!(holepunch_payload("tok", 5004), "t5rtp tok 5004");
    assert!(is_loopback_host("http://localhost:8080/x"));
    assert!(is_loopback_host("http://127.0.0.1/"));
    assert!(!is_loopback_host("http://relay.example/"));
    assert!(is_loopback_host("http://[::1]:8080/"));
    assert!(!is_loopback_host("http://10.0.0.5"));
    assert!(!is_loopback_host("not a url"));
    assert_eq!(holepunch_decision(true, true), HolepunchDecision::SkipLoopback);
    assert_eq!(holepunch_decision(true, false), HolepunchDecision::Send);
    assert_eq!(holepunch_decision(false, false), HolepunchDecision::NotRequired);
    assert_eq!(build_url("http://relay/base/", "s1", Some("sdp")).unwrap(), "http://relay/base/streams/s1/rtp/sdp");
    assert_eq!(build_url("http://relay", "s1", None).unwrap(), "http://relay/streams/s1/rtp");
}

#[test]
fn trtp_commands_and_frames() {
    assert_eq!(command_message(TrtpCommand::Seek { timestamp_ms: -5 }), CommandStep::Send(ClientMessage::Seek { timestamp: 0 }));
    assert_eq!(command_message(TrtpCommand::Seek { timestamp_ms: 5 }), CommandStep::Send(ClientMessage::Seek { timestamp: 5 }));
    assert_eq!(command_message(TrtpCommand::Terminate), CommandStep::Close);
    assert_eq!(decode_message(FrameKind::Pong), FrameHandling::ServerPong);
    assert_eq!(read_step(ReadOutcome::Closed), ReadStep::EndOk);
    assert_eq!(read_step(ReadOutcome::Frame(FrameKind::Ping)), ReadStep::Handle(FrameHandling::AnswerPing));
    assert!(ping_due(15000));
    assert!(!ping_due(14999));
    assert!(pick_ephemeral_rtp_port(0, 5004));
    assert!(!pick_ephemeral_rtp_port(3, 5005));
    assert!(pick_ephemeral_rtp_port(20, 5005));
}

#[test]
fn trtp_server_messages() {
    let mut st = TrtpState::new();
    let e = st.handle_server_message(ServerMessage::Init { token: "t".to_string(), server_port: 7000, udp_holepunch_required: true });
    assert_eq!(e.holepunch, Some(("t".to_string(), 7000)));
    let e = st.handle_server_message(ServerMessage::Sdp { sdp: "v=0".to_string() });
    assert_eq!(e.deliver_sdp, Some(Ok("v=0".to_string())));
    let e = st.handle_server_message(ServerMessage::Sdp { sdp: "v=1".to_string() });
    assert_eq!(e.deliver_sdp, None);
    let e = st.handle_server_message(ServerMessage::Error { message: "late".to_string() });
    assert_eq!(e.deliver_sdp, None);
    assert!(matches!(e.event, Some(TrtpEvent::Error(ref m)) if m == "late"));
    let mut fresh = TrtpState::new();
    let e = fresh.handle_server_message(ServerMessage::Error { message: "denied".to_string() });
    assert_eq!(e.deliver_sdp, Some(Err("TRTP error: denied".to_string())));
    let e = fresh.handle_server_message(ServerMessage::SessionMode { is_live: true, current_time_ms: 9 });
    assert!(matches!(e.event, Some(TrtpEvent::SessionMode { is_live: true, current_time_ms: 9 })));
}

#[test]
fn playbin_decisions() {
    let mut last = (0, 0);
    let (frame, report) = frame_from_sample(1, 2, 8, &[1, 2, 3, 4, 0, 0, 0, 0, 5, 6, 7, 8], &mut last);
    assert_eq!(frame.data, vec![1, 2, 3, 4, 5, 6, 7, 8]);
    assert_eq!(report, Some((1, 2)));
    let (_, again) = frame_from_sample(1, 2, 4, &[0; 8], &mut last);
    assert_eq!(again, None);
    assert!(matches!(playbin_loop_step(true, false, None), PlaybinStep::StopPipeline));
    assert!(matches!(playbin_loop_step(false, false, Some(GstBusEvent::Eos)), PlaybinStep::StopAtEnd));
    assert!(matches!(playbin_loop_step(false, false, Some(GstBusEvent::Buffering(50))), PlaybinStep::Pause));
    assert!(matches!(playbin_loop_step(false, true, Some(GstBusEvent::Buffering(50))), PlaybinStep::Continue));
    assert!(matches!(playbin_loop_step(false, true, Some(GstBusEvent::Buffering(100))), PlaybinStep::Resume));
    assert!(matches!(playbin_loop_step(false, false, Some(GstBusEvent::Buffering(100))), PlaybinStep::Continue));
    match playbin_loop_step(false, false, Some(GstBusEvent::Error("e".to_string()))) {
        PlaybinStep::Fail(m) => assert_eq!(m, "e"),
        _ => panic!("expected failure"),
    }
    assert_eq!(seek_position_ns(true, 3), Ok(3_000_000));
    assert_eq!(seek_position_ns(false, 3), Err(PlaybinControlError::NoActivePipeline));
}

#[test]
fn trtp_error_before_sdp_fails_the_setup_once() {
    let mut st = TrtpState::new();
    let e = st.handle_server_message(ServerMessage::Error { message: "boom".to_string() });
    assert!(st.sdp_sent);
    assert_eq!(e.deliver_sdp, Some(Err("TRTP error: boom".to_string())));
    assert!(st.token.is_none() && st.server_port.is_none());
    let again = st.handle_server_message(ServerMessage::Error { message: "boom".to_string() });
    assert_eq!(again.deliver_sdp, None);
    let mut st = TrtpState::new();
    st.handle_server_message(ServerMessage::Init { token: "t".to_string(), server_port: 7000, udp_holepunch_required: false });
    st.handle_server_message(ServerMessage::Error { message: "x".to_string() });
    st.handle_server_message(ServerMessage::Pong);
    assert_eq!(st.token.as_deref(), Some("t"));
    assert_eq!(st.server_port, Some(7000));
}

#[test]
fn udp_handshake_order_and_retries() {
    let mut h = UdpHandshake::new();
    assert_eq!(h.phase(), UdpHandshakePhase::SendHolepunch);
    h.on_sent();
    assert_eq!(h.phase(), UdpHandshakePhase::AwaitDummy);
    h.on_reply(" dummy s1\n", "dummy s1");
    assert_eq!(h.phase(), UdpHandshakePhase::SendAck);
    h.on_sent();
    assert_eq!(h.phase(), UdpHandshakePhase::Confirmed);

    let mut h = UdpHandshake::new();
    let mut attempts = 0;
    while h.phase() != UdpHandshakePhase::Failed {
        assert_eq!(h.phase(), UdpHandshakePhase::SendHolepunch);
        attempts += 1;
        h.on_sent();
        h.on_reply("noise", "dummy s1");
    }
    assert_eq!(attempts, 5);

    let mut h = UdpHandshake::new();
    for _ in 0..5 {
        h.on_io_error();
    }
    assert_eq!(h.phase(), UdpHandshakePhase::Failed);
}

#[test]
fn url_edits_need_room_below_four_gib() {
    assert!(edit_fits_exec("http://a", 10));
    assert!(edit_fits_exec("x", 268_435_450));
    assert!(!edit_fits_exec("x", 268_435_451));
    assert!(!edit_fits_exec("x", 268_435_456));
}
