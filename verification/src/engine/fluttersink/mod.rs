//! Bookkeeping of texture-backed decoding sessions: the session table
//! operations and the stream settings of relayed RTP sessions.
pub mod types;
pub mod utils;
pub mod video_sink;

use crate::engine::session::registry::{
    self as reg, owned_by, SessionEntry, SessionRegistry,
};
use crate::engine::software_decoder::{sanitize_dimensions, sanitized, DimensionError};
use crate::engine::types::{TsdpEndpoint, VideoInfo};
use crate::text::{decimal, insert_if_absent, insert_string_if_absent, pairs_view, to_decimal, with_default};
use vstd::prelude::*;

verus! {

/// `options` with the low-latency defaults for relayed RTP filled in where
/// the caller set nothing.
pub open spec fn tsdp_defaults(options: Seq<(Seq<char>, Seq<char>)>) -> Seq<(Seq<char>, Seq<char>)> {
    let o1 = with_default(options, "protocol_whitelist"@, "file,udp,rtp"@);
    let o2 = with_default(o1, "fflags"@, "nobuffer"@);
    let o3 = with_default(o2, "flags"@, "low_delay"@);
    let o4 = with_default(o3, "analyzeduration"@, "0"@);
    with_default(o4, "probesize"@, "32"@)
}

/// Fills in the demuxer options relayed RTP needs, keeping every value the
/// caller already set.
pub fn apply_tsdp_ffmpeg_defaults(options: &mut Vec<(String, String)>)
    ensures
        pairs_view(final(options)@) == tsdp_defaults(pairs_view(old(options)@)),
{
    insert_if_absent(options, "protocol_whitelist", "file,udp,rtp");
    insert_if_absent(options, "fflags", "nobuffer");
    insert_if_absent(options, "flags", "low_delay");
    insert_if_absent(options, "analyzeduration", "0");
    insert_if_absent(options, "probesize", "32");
}

/// The URI under which a relayed stream is opened.
pub open spec fn tsdp_uri(base_url: Seq<char>, source_id: Seq<char>) -> Seq<char> {
    "tsdp://"@ + base_url + "/"@ + source_id
}

/// The settings of a relayed RTP session on local port `client_port`: the
/// stream opened under its relay URI, the low-latency defaults, and the RTP
/// and RTCP ports (`client_port` and the next one) unless set already.
pub open spec fn tsdp_options(options: Seq<(Seq<char>, Seq<char>)>, client_port: u16) -> Seq<(Seq<char>, Seq<char>)> {
    let d = tsdp_defaults(options);
    let r = with_default(d, "local_rtpport"@, decimal(client_port as nat));
    with_default(r, "local_rtcpport"@, decimal(client_port as nat + 1))
}

/// The stream description and demuxer options of a relayed RTP session
/// whose local port is `client_port`.
pub fn create_tsdp_playable(
    endpoint: &TsdpEndpoint,
    video_info: VideoInfo,
    ffmpeg_options: Option<Vec<(String, String)>>,
    client_port: u16,
) -> (r: (VideoInfo, Vec<(String, String)>))
    requires
        client_port < u16::MAX,
    ensures
        r.0.uri@ == tsdp_uri(endpoint.base_url@, endpoint.source_id@),
        r.0.framerate == video_info.framerate,
        r.0.mute == video_info.mute,
        r.0.auto_restart == video_info.auto_restart,
        pairs_view(r.1@) == tsdp_options(
            match ffmpeg_options {
                Some(o) => pairs_view(o@),
                None => Seq::empty(),
            },
            client_port,
        ),
{
    let mut uri = String::from_str("tsdp://");
    uri.append(endpoint.base_url.as_str());
    uri.append("/");
    uri.append(endpoint.source_id.as_str());
    let mut options = match ffmpeg_options {
        Some(o) => o,
        None => Vec::new(),
    };
    proof {
        if ffmpeg_options is None {
            assert(pairs_view(options@) =~= Seq::empty());
        }
    }
    apply_tsdp_ffmpeg_defaults(&mut options);
    let rtp_port = to_decimal(client_port as u64);
    let rtcp_port = to_decimal(client_port as u64 + 1);
    insert_string_if_absent(&mut options, "local_rtpport", rtp_port);
    insert_string_if_absent(&mut options, "local_rtcpport", rtcp_port);
    let info = VideoInfo {
        uri,
        framerate: video_info.framerate,
        mute: video_info.mute,
        auto_restart: video_info.auto_restart,
    };
    (info, options)
}

/// Ends creating a relayed session once its decoder was built (`Some`
/// handle) or not: a built session is recorded, owned by `engine_handle`
/// and marked alive at `now_ms`, and the relay registration is kept; when
/// the build failed the table is left unchanged and the answer is `true`:
/// the relay registration is to be cleaned up and the failure returned.
pub fn finish_tsdp_playable<H, E>(
    registry: &mut SessionRegistry<H, E>,
    session_id: i64,
    engine_handle: i64,
    now_ms: u64,
    built: Option<H>,
) -> (cleanup: bool)
    ensures
        match built {
            Some(handle) => !cleanup && final(registry)@ == old(registry)@.insert(
                session_id,
                SessionEntry { engine_handle, last_alive_mark_ms: now_ms, events_sink: None, handle },
            ),
            None => cleanup && final(registry)@ == old(registry)@,
        },
{
    match built {
        Some(handle) => {
            create_new_playable(registry, session_id, engine_handle, now_ms, handle);
            false
        },
        None => true,
    }
}

/// Records a new session owned by `engine_handle`, marked alive at `now_ms`.
pub fn create_new_playable<H, E>(
    registry: &mut SessionRegistry<H, E>,
    session_id: i64,
    engine_handle: i64,
    now_ms: u64,
    handle: H,
)
    ensures
        final(registry)@ == old(registry)@.insert(
            session_id,
            SessionEntry { engine_handle, last_alive_mark_ms: now_ms, events_sink: None, handle },
        ),
{
    registry.insert_session(
        session_id,
        SessionEntry { engine_handle, last_alive_mark_ms: now_ms, events_sink: None, handle },
    );
}

/// Marks session `session_id` alive at `now_ms`; unknown ids are ignored.
pub fn mark_session_alive<H, E>(registry: &mut SessionRegistry<H, E>, session_id: i64, now_ms: u64)
    ensures
        old(registry)@.contains_key(session_id) ==> final(registry)@ == old(registry)@.insert(
            session_id,
            SessionEntry { last_alive_mark_ms: now_ms, ..old(registry)@[session_id] },
        ),
        !old(registry)@.contains_key(session_id) ==> final(registry)@ == old(registry)@,
{
    reg::mark_session_alive(registry, session_id, now_ms)
}

/// Removes every session owned by `engine_handle` and hands back their ids
/// and handles so that the caller can stop them.
pub fn destroy_engine_streams<H, E>(registry: &mut SessionRegistry<H, E>, engine_handle: i64) -> (removed: Vec<(i64, H)>)
    ensures
        final(registry)@ == old(registry)@.remove_keys(owned_by(old(registry)@, engine_handle)),
        removed@.map_values(|p: (i64, H)| p.0).to_set() == owned_by(old(registry)@, engine_handle),
        removed@.map_values(|p: (i64, H)| p.0).no_duplicates(),
        forall|j: int| 0 <= j < removed@.len() ==> #[trigger] removed@[j].1 == old(registry)@[removed@[j].0].handle,
{
    reg::destroy_engine_streams(registry, engine_handle)
}

/// Removes session `session_id` and hands back its handle.
pub fn destroy_stream_session<H, E>(registry: &mut SessionRegistry<H, E>, session_id: i64) -> (r: Option<H>)
    ensures
        final(registry)@ == old(registry)@.remove(session_id),
        match r {
            Some(h) => old(registry)@.contains_key(session_id) && h == old(registry)@[session_id].handle,
            None => !old(registry)@.contains_key(session_id),
        },
{
    reg::destroy_stream_session(registry, session_id)
}

/// Why a resize request was refused.
#[derive(Debug, Clone, Copy, PartialEq, Eq, Structural)]
pub enum ResizeError {
    /// No session has this id.
    SessionNotFound(i64),
    /// The requested size is not acceptable.
    Dimensions(DimensionError),
}

/// Looks up the session to resize and validates the size; the caller hands
/// the returned size to that session's decoder.
pub fn resize_stream_session<'a, H, E>(
    registry: &'a SessionRegistry<H, E>,
    session_id: i64,
    width: u32,
    height: u32,
) -> (r: Result<(&'a H, (u32, u32)), ResizeError>)
    ensures
        !registry@.contains_key(session_id) ==> r == Err::<(&'a H, (u32, u32)), ResizeError>(ResizeError::SessionNotFound(session_id)),
        registry@.contains_key(session_id) ==> match sanitized(width, height) {
            Err(e) => r == Err::<(&'a H, (u32, u32)), ResizeError>(ResizeError::Dimensions(e)),
            Ok(d) => (r matches Ok((h, d2)) && *h == registry@[session_id].handle && d2 == d),
        },
{
    match registry.get_session(session_id) {
        None => Err(ResizeError::SessionNotFound(session_id)),
        Some(entry) => match sanitize_dimensions(width, height) {
            Err(e) => Err(ResizeError::Dimensions(e)),
            Ok(d) => Ok((&entry.handle, d)),
        },
    }
}

} // verus!
