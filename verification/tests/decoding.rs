use flutter_realtime_player::engine::software_decoder::{after_seek_attempt, clears_unseekable_flag, SeekStep};
use flutter_realtime_player::engine::ffmpeg_private::{HLSContext, Playlist, Segment};
use flutter_realtime_player::engine::software_decoder::{
    frame_interval_nanos, plan_seek, sanitize_dimensions, stream_is_seekable, time_base_to_us, uri_is_hls,
    uri_is_rtsp, DimensionError, FFmpegFrameWrapper, HLSTimelineContext, PayloadHolder, SeekError,
    StandardTimelineContext, TimelineContext, AV_NOPTS_VALUE,
};

fn playlist(durations: &[Option<i64>], cur: i64, start: i64) -> Playlist {
    Playlist {
        n_segments: durations.len() as i32,
        segments: Some(durations.iter().map(|d| d.map(|duration| Segment { duration })).collect()),
        cur_seq_no: cur,
        start_seq_no: start,
    }
}

fn context(p: Playlist, first_timestamp: i64) -> HLSContext {
    HLSContext { n_playlists: 1, playlists: Some(vec![Some(p)]), first_timestamp }
}

#[test]
fn total_duration_skips_missing_segments() {
    let p = playlist(&[Some(2_000_000), None, Some(3_000_000)], 0, 0);
    assert_eq!(p.calculate_total_duration(), 5_000_000);
}

#[test]
fn total_duration_of_unset_array_is_zero() {
    let p = Playlist { n_segments: 3, segments: None, cur_seq_no: 0, start_seq_no: 0 };
    assert_eq!(p.calculate_total_duration(), 0);
    assert!(p.get_segment(0).is_none());
}

#[test]
fn duration_until_sequence_counts_segments_before_it() {
    let p = playlist(&[Some(1_000_000), Some(2_000_000), Some(4_000_000)], 12, 10);
    assert_eq!(p.calculate_duration_until_seq(10), 0);
    assert_eq!(p.calculate_duration_until_seq(11), 1_000_000);
    assert_eq!(p.calculate_duration_until_seq(12), 3_000_000);
    assert_eq!(p.calculate_duration_until_seq(9), 0);
    assert_eq!(p.calculate_duration_until_seq(i64::MIN), 0);
}

#[test]
fn duration_until_sequence_past_end_is_total() {
    let p = playlist(&[Some(1_000_000), Some(2_000_000), Some(4_000_000)], 0, 10);
    assert_eq!(p.calculate_duration_until_seq(100), p.calculate_total_duration());
}

#[test]
fn playlist_lookup_respects_declared_count() {
    let ctx = HLSContext {
        n_playlists: 1,
        playlists: Some(vec![None, Some(playlist(&[], 0, 0))]),
        first_timestamp: AV_NOPTS_VALUE,
    };
    assert!(ctx.get_first_playlist().is_none());
    assert!(ctx.get_playlist(1).is_none());
    let p = playlist(&[Some(5)], 0, 0);
    assert_eq!(p.get_segment(0).map(|s| s.duration), Some(5));
    assert!(p.get_segment(1).is_none());
}

#[test]
fn time_base_conversion_is_identity_in_microseconds() {
    assert_eq!(time_base_to_us(1_234_567), 1_234_567);
    assert_eq!(time_base_to_us(-42), -42);
}

#[test]
fn sanitize_rounds_odd_sides_down() {
    assert_eq!(sanitize_dimensions(1921, 1081), Ok((1920, 1080)));
    assert_eq!(sanitize_dimensions(1, 3), Ok((2, 2)));
    assert_eq!(sanitize_dimensions(640, 480), Ok((640, 480)));
}

#[test]
fn sanitize_refuses_zero_and_too_large() {
    assert_eq!(sanitize_dimensions(0, 480), Err(DimensionError::Invalid { width: 0, height: 480 }));
    assert_eq!(sanitize_dimensions(7682, 480), Err(DimensionError::TooLarge { width: 7682, height: 480 }));
    assert_eq!(sanitize_dimensions(7681, 7681), Ok((7680, 7680)));
}

#[test]
fn frame_with_padded_rows_is_packed() {
    // 1x2 image, stride 8: each row has 4 bytes of padding.
    let data = vec![1, 2, 3, 4, 0, 0, 0, 0, 5, 6, 7, 8, 0, 0, 0, 0];
    let f = FFmpegFrameWrapper::from_frame(1, 2, 8, data.clone());
    assert_eq!(f.get(), &[1, 2, 3, 4, 5, 6, 7, 8]);
    assert_eq!(f.frame_data, data);
}

#[test]
fn frame_without_padding_is_used_as_is() {
    let data = vec![9; 8];
    let f = FFmpegFrameWrapper::from_frame(1, 2, 4, data.clone());
    assert!(f.packed.is_none());
    assert_eq!(f.get(), data.as_slice());
}

#[test]
fn decoder_payload_holder_keeps_previous_frame() {
    let mut h = PayloadHolder::new();
    assert_eq!(h.get_payload().width, 640);
    h.set_payload(Box::new(FFmpegFrameWrapper::from_frame(1, 1, 4, vec![1, 1, 1, 1])));
    h.set_payload(Box::new(FFmpegFrameWrapper::from_frame(2, 1, 8, vec![2; 8])));
    assert_eq!(h.get_payload().width, 2);
    assert_eq!(h.previous_frame().map(|f| f.width), Some(1));
}

#[test]
fn hls_timeline_becomes_seekable_after_playlist_and_packet() {
    let hls = context(playlist(&[Some(2_000_000), Some(3_000_000), Some(4_000_000)], 12, 10), AV_NOPTS_VALUE);
    let mut t = HLSTimelineContext::new("hls", Some(&hls)).expect("hls context");
    assert!(!t.is_seekable());
    t.update_timeline(&hls);
    assert!(t.is_initialized);
    assert_eq!(t.hls_cur_duration, 5_000_000);
    assert!(!t.is_seekable());
    t.update_start_time_from_packet(20_000_000);
    assert!(t.is_seekable());
    assert_eq!(t.get_time_offset(), 15_000_000);
    assert_eq!(t.adjust_seek_timestamp(1_000_000, &hls), 16_000_000);
}

#[test]
fn hls_timeline_uses_first_timestamp_when_available() {
    let hls = context(playlist(&[Some(2_000_000), Some(3_000_000)], 11, 10), 7_000_000);
    let mut t = HLSTimelineContext::new("hls", Some(&hls)).unwrap();
    t.update_timeline(&hls);
    assert_eq!(t.hls_start_time, 5_000_000);
    assert_eq!(t.adjust_seek_timestamp(1_000, &hls), 1_000 + 5_000_000 - 7_000_000);
}

#[test]
fn hls_sequence_change_forgets_start() {
    let mut hls = context(playlist(&[Some(2_000_000), Some(3_000_000)], 11, 10), AV_NOPTS_VALUE);
    let mut t = HLSTimelineContext::new("hls", Some(&hls)).unwrap();
    t.update_timeline(&hls);
    t.update_start_time_from_packet(9_000_000);
    assert!(t.is_seekable());
    hls.playlists.as_mut().unwrap()[0].as_mut().unwrap().cur_seq_no = 12;
    t.update_timeline(&hls);
    assert!(!t.is_seekable());
    assert_eq!(t.hls_prev_seq_no, 12);
}

#[test]
fn hls_context_refused_for_other_formats() {
    let hls = context(playlist(&[], 0, 0), AV_NOPTS_VALUE);
    assert!(HLSTimelineContext::new("mpegts", Some(&hls)).is_none());
    assert!(HLSTimelineContext::new("hls", None).is_none());
}

#[test]
fn timeline_choice_follows_uri_and_demuxer() {
    let hls = context(playlist(&[Some(1)], 0, 0), AV_NOPTS_VALUE);
    match TimelineContext::for_stream("http://x/live.m3u8", "hls", Some(&hls), AV_NOPTS_VALUE) {
        TimelineContext::Hls(_) => {}
        other => panic!("unexpected {:?}", other),
    }
    assert_eq!(
        TimelineContext::for_stream("rtsp://cam", "rtsp", None, 3_000),
        TimelineContext::Standard(StandardTimelineContext { start_time: 3_000 })
    );
    assert_eq!(
        TimelineContext::for_stream("file.mp4", "mov", None, AV_NOPTS_VALUE),
        TimelineContext::Standard(StandardTimelineContext { start_time: 0 })
    );
}

#[test]
fn seek_plan_clamps_and_refuses_unready_timeline() {
    let hls = context(playlist(&[], 0, 0), AV_NOPTS_VALUE);
    let standard = TimelineContext::Standard(StandardTimelineContext::new(-5_000));
    assert_eq!(plan_seek(Some(&standard), &hls, -10), Ok(0));
    assert_eq!(plan_seek(Some(&standard), &hls, 10_000), Ok(5_000));
    let fresh = TimelineContext::Hls(HLSTimelineContext::new("hls", Some(&context(playlist(&[Some(1)], 0, 0), AV_NOPTS_VALUE))).unwrap());
    assert_eq!(plan_seek(Some(&fresh), &hls, 10), Err(SeekError::TimelineNotReady));
    assert_eq!(plan_seek(None, &hls, 10), Err(SeekError::NoContext));
}

#[test]
fn uri_classification() {
    assert!(uri_is_hls("https://cdn/x/index.m3u8"));
    assert!(uri_is_hls("https://cdn/hls/stream"));
    assert!(!uri_is_hls("https://cdn/x.mp4"));
    assert!(uri_is_rtsp("rtsp://camera/1"));
    assert!(!uri_is_rtsp("http://rtsp"));
    assert!(stream_is_seekable("rtsp://camera/1"));
    assert!(!stream_is_seekable("file.mp4"));
}

#[test]
fn frame_interval_from_rate() {
    assert_eq!(frame_interval_nanos(25), Some(40_000_000));
    assert_eq!(frame_interval_nanos(0), None);
}

#[test]
fn seek_retries_backward_once() {
    let first = SeekStep::FlushThenForward(42);
    assert_eq!(after_seek_attempt(first, true), SeekStep::Done);
    let retry = after_seek_attempt(first, false);
    assert_eq!(retry, SeekStep::Backward(42));
    assert_eq!(after_seek_attempt(retry, true), SeekStep::Done);
    assert_eq!(after_seek_attempt(retry, false), SeekStep::Failed);
    assert_eq!(after_seek_attempt(SeekStep::Failed, true), SeekStep::Failed);
    assert!(clears_unseekable_flag("hls"));
    assert!(!clears_unseekable_flag("mov,mp4,m4a,3gp,3g2,mj2"));
}
