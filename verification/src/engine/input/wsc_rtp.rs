//! Logic of WebSocket-controlled RTP sessions: reading the RTP caps out of
//! the SDP offer, describing the decoding pipeline, building the endpoints,
//! and the decisions of the connection, handshake and session loops.
use crate::text::{
    after_first, before_first, chars_of, decimal, find_char, first_index_of, parse_unsigned,
    parsed_unsigned, str_equals, substring, trim_bounds, trimmed, to_decimal,
};
use crate::engine::texture::payload::{packed_rows, rows_in_bounds, RawRgbaFrame};
use crate::engine::types::WscRtpSessionConfig;
use crate::engine::urls::{
    build_websocket_endpoint, edit_fits, edit_fits_exec, host_of, url_host, url_with_path, websocket_endpoint, with_path,
    UrlError,
};
use vstd::prelude::*;
use vstd::string::StrSliceExecFns;

verus! {

// ---------------------------------------------------------------------------
// SDP
// ---------------------------------------------------------------------------

/// What the caps logic reads of one media section of an SDP description:
/// its payload formats and its attributes, in order.
#[derive(Debug, Clone)]
pub struct SdpMedia {
    pub formats: Vec<String>,
    pub attributes: Vec<(String, Option<String>)>,
}

/// An attribute as characters.
pub type AttrView = (Seq<char>, Option<Seq<char>>);

/// A media section as characters: formats and attributes.
pub type MediaView = (Seq<Seq<char>>, Seq<AttrView>);

pub open spec fn attr_view(a: (String, Option<String>)) -> AttrView {
    (a.0@, match a.1 { Some(v) => Some(v@), None => None })
}

pub open spec fn media_view(m: SdpMedia) -> MediaView {
    (m.formats@.map_values(|f: String| f@), m.attributes@.map_values(|a: (String, Option<String>)| attr_view(a)))
}

/// The media sections the SDP parser finds in `text`, or `None` when it
/// rejects the text.
pub uninterp spec fn sdp_media_descriptions(text: Seq<char>) -> Option<Seq<MediaView>>;

/// Parses an SDP description with the `sdp` crate
/// (`SessionDescription::unmarshal`) and keeps, for each media section, its
/// formats and attributes. Claimed: the result is the parser's media
/// sections of `text`, in order, or `None` when the parser fails.
#[verifier::external_body]
fn parse_sdp_media(text: &str) -> (r: Option<Vec<SdpMedia>>)
    ensures
        match r {
            Some(v) => sdp_media_descriptions(text@) == Some(v@.map_values(|m: SdpMedia| media_view(m))),
            None => sdp_media_descriptions(text@) is None,
        },
{
    let mut reader = std::io::Cursor::new(text);
    let desc = sdp::description::session::SessionDescription::unmarshal(&mut reader).ok()?;
    Some(desc.media_descriptions.into_iter().map(|m| SdpMedia {
        formats: m.media_name.formats,
        attributes: m.attributes.into_iter().map(|a| (a.key, a.value)).collect(),
    }).collect())
}

/// Upper-case mapping of a string.
pub uninterp spec fn uppercased(s: Seq<char>) -> Seq<char>;

/// `str::to_uppercase` of the standard library. Claimed: the result is the
/// upper-case mapping of the argument, a function of the argument alone.
#[verifier::external_body]
fn to_uppercase(s: &str) -> (r: String)
    ensures
        r@ == uppercased(s@),
{
    s.to_uppercase()
}

/// The value of the first attribute named `key`: `Some(None)` for a flag
/// attribute, `None` when there is none.
pub open spec fn attribute_of(attrs: Seq<AttrView>, key: Seq<char>) -> Option<Option<Seq<char>>>
    decreases attrs.len(),
{
    if attrs.len() == 0 {
        None
    } else if attrs[0].0 == key {
        Some(attrs[0].1)
    } else {
        attribute_of(attrs.drop_first(), key)
    }
}

proof fn lemma_attribute_of_skip(attrs: Seq<AttrView>, key: Seq<char>, i: int)
    requires
        0 <= i <= attrs.len(),
        forall|j: int| 0 <= j < i ==> (#[trigger] attrs[j]).0 != key,
    ensures
        attribute_of(attrs, key) == attribute_of(attrs.skip(i), key),
    decreases i,
{
    if i > 0 {
        assert(attrs[0].0 != key);
        assert forall|j: int| 0 <= j < i - 1 implies (#[trigger] attrs.drop_first()[j]).0 != key by {
            assert(attrs.drop_first()[j] == attrs[j + 1]);
        }
        lemma_attribute_of_skip(attrs.drop_first(), key, i - 1);
        assert(attrs.drop_first().skip(i - 1) =~= attrs.skip(i));
    } else {
        assert(attrs.skip(0) =~= attrs);
    }
}

/// The value of the first attribute of `attrs` named `key`.
pub fn media_attribute<'a>(attrs: &'a Vec<(String, Option<String>)>, key: &str) -> (r: Option<Option<&'a String>>)
    ensures
        match attribute_of(attrs@.map_values(|a: (String, Option<String>)| attr_view(a)), key@) {
            None => r is None,
            Some(None) => r == Some(None::<&String>),
            Some(Some(v)) => (r matches Some(Some(s)) && s@ == v),
        },
{
    let ghost av = attrs@.map_values(|a: (String, Option<String>)| attr_view(a));
    let mut i: usize = 0;
    while i < attrs.len()
        invariant
            i <= attrs@.len(),
            av == attrs@.map_values(|a: (String, Option<String>)| attr_view(a)),
            forall|j: int| 0 <= j < i ==> (#[trigger] av[j]).0 != key@,
        decreases attrs@.len() - i,
    {
        if str_equals(attrs[i].0.as_str(), key) {
            proof {
                lemma_attribute_of_skip(av, key@, i as int);
                assert(av.skip(i as int)[0] == av[i as int]);
            }
            return match &attrs[i].1 {
                Some(v) => Some(Some(v)),
                None => Some(None),
            };
        }
        assert(av[i as int].0 != key@);
        i = i + 1;
    }
    proof {
        lemma_attribute_of_skip(av, key@, i as int);
        assert(av.skip(i as int).len() == 0);
    }
    None
}

/// The part of `s` after the first `c`, as a string.
pub fn split_after(s: &str, c: char) -> (r: Option<String>)
    ensures
        match after_first(s@, c) {
            Some(t) => (r matches Some(x) && x@ == t),
            None => r is None,
        },
{
    let chars = chars_of(s);
    match find_char(&chars, c) {
        Some(i) => {
            let len = chars.len();
            let t = substring(s, i + 1, len);
            assert(t@ =~= s@.skip(i + 1));
            Some(t)
        },
        None => None,
    }
}

/// The part of `s` before the first `c`, or all of `s`, as a string.
pub fn split_before(s: &str, c: char) -> (r: String)
    ensures
        r@ == before_first(s@, c),
{
    let chars = chars_of(s);
    let found = find_char(&chars, c);
    match found {
        Some(i) => {
            let t = substring(s, 0, i);
            assert(chars@ == s@);
            assert(first_index_of(chars@, c) == Some(i as int));
            assert(t@ =~= s@.take(i as int));
            t
        },
        None => {
            let len = chars.len();
            let t = substring(s, 0, len);
            assert(t@ =~= s@);
            assert(first_index_of(s@, c) is None);
            t
        },
    }
}

/// The key of the parameter that carries the H.264/H.265 parameter sets.
pub open spec fn sprop_key() -> Seq<char> {
    "sprop-parameter-sets="@
}

/// The parameter-set value of one `;`-separated format parameter, if it is
/// that parameter and has a value.
pub open spec fn sprop_candidate(piece: Seq<char>) -> Option<Seq<char>> {
    let t = trimmed(piece);
    if sprop_key().is_prefix_of(t) && t.len() > sprop_key().len() {
        Some(t.skip(sprop_key().len() as int))
    } else {
        None
    }
}

/// What follows the first `c` is shorter than `s`.
pub proof fn lemma_after_first_shorter(s: Seq<char>, c: char)
    ensures
        after_first(s, c) matches Some(t) ==> t.len() < s.len(),
{
    crate::text::lemma_first_index_of_bounds(s, c);
}

/// The first parameter-set value among the `;`-separated parameters.
pub open spec fn sprop_in(params: Seq<char>) -> Option<Seq<char>>
    decreases params.len(),
{
    match sprop_candidate(before_first(params, ';')) {
        Some(v) => Some(v),
        None => match after_first(params, ';') {
            Some(rest) => {
                proof {
                    lemma_after_first_shorter(params, ';');
                }
                sprop_in(rest)
            },
            None => None,
        },
    }
}

/// The parameter sets announced by the format parameters of a media
/// section: the first `sprop-parameter-sets=` among the parameters after the
/// first space of the first `fmtp` attribute.
pub open spec fn sprop_of(attrs: Seq<AttrView>) -> Option<Seq<char>> {
    match attribute_of(attrs, "fmtp"@) {
        Some(Some(f)) => match after_first(f, ' ') {
            Some(params) => sprop_in(params),
            None => None,
        },
        _ => None,
    }
}

/// The RTP caps fields of an SDP description's media sections: encoding
/// name as written, payload type, clock rate and parameter sets.
pub open spec fn rtp_caps_of(medias: Seq<MediaView>) -> Option<(Seq<char>, u8, u32, Option<Seq<char>>)> {
    if medias.len() == 0 || medias[0].0.len() == 0 {
        None
    } else {
        let m = medias[0];
        match parsed_unsigned(m.0[0]) {
            Some(pt) => if pt > 255 {
                None
            } else {
                let rtpmap: Option<Seq<char>> = match attribute_of(m.1, "rtpmap"@) {
                    None => None,
                    Some(None) => Some(Seq::empty()),
                    Some(Some(v)) => Some(v),
                };
                match rtpmap {
                    None => None,
                    Some(rm) => match after_first(rm, ' ') {
                        None => None,
                        Some(codec) => match after_first(codec, '/') {
                            None => None,
                            Some(rest) => match parsed_unsigned(rest) {
                                Some(clock) => if clock > u32::MAX {
                                    None
                                } else {
                                    Some((before_first(codec, '/'), pt as u8, clock as u32, sprop_of(m.1)))
                                },
                                None => None,
                            },
                        },
                    },
                }
            },
            None => None,
        }
    }
}

/// The caps come from the first media section: the payload type is the
/// number of its first payload format, the clock rate the number after the
/// `/` of its first `rtpmap` attribute, and the encoding name the text
/// between that attribute's first space and that `/`.
pub proof fn lemma_rtp_caps_come_from_first_format(medias: Seq<MediaView>)
    ensures
        rtp_caps_of(medias) matches Some((enc, pt, clock, _sprop)) ==> {
            &&& medias.len() > 0
            &&& medias[0].0.len() > 0
            &&& parsed_unsigned(medias[0].0[0]) == Some(pt as nat)
            &&& exists|rm: Seq<char>, codec: Seq<char>, rest: Seq<char>| {
                &&& (attribute_of(medias[0].1, "rtpmap"@) == Some(Some(rm))
                    || (attribute_of(medias[0].1, "rtpmap"@) == Some(None::<Seq<char>>) && rm == Seq::<char>::empty()))
                &&& after_first(rm, ' ') == Some(codec)
                &&& after_first(codec, '/') == Some(rest)
                &&& parsed_unsigned(rest) == Some(clock as nat)
                &&& enc == before_first(codec, '/')
            }
        },
{
    if let Some((enc, pt, clock, _sprop)) = rtp_caps_of(medias) {
        let m = medias[0];
        let rm: Seq<char> = match attribute_of(m.1, "rtpmap"@) {
            Some(Some(v)) => v,
            _ => Seq::empty(),
        };
        let codec = after_first(rm, ' ')->0;
        let rest = after_first(codec, '/')->0;
        assert(after_first(rm, ' ') == Some(codec));
        assert(after_first(codec, '/') == Some(rest));
    }
}

/// The parameter-set value of one format parameter, if it is one.
fn sprop_from_piece(piece: &str) -> (r: Option<String>)
    ensures
        match sprop_candidate(piece@) {
            Some(v) => (r matches Some(x) && x@ == v),
            None => r is None,
        },
{
    let chars = chars_of(piece);
    let (a, b) = trim_bounds(&chars);
    let t = substring(piece, a, b);
    let key = "sprop-parameter-sets=";
    proof {
        reveal_strlit("sprop-parameter-sets=");
    }
    let klen: usize = 21;
    assert(key@.len() == 21);
    let tc = chars_of(t.as_str());
    if tc.len() <= klen {
        return None;
    }
    let head = substring(t.as_str(), 0, klen);
    if !str_equals(head.as_str(), key) {
        proof {
            if sprop_key().is_prefix_of(t@) {
                assert(t@.subrange(0, 21) =~= sprop_key());
            }
        }
        return None;
    }
    let tlen = tc.len();
    let v = substring(t.as_str(), klen, tlen);
    proof {
        assert(sprop_key().is_prefix_of(t@)) by {
            assert forall|i: int| 0 <= i < sprop_key().len() implies sprop_key()[i] == t@[i] by {
                assert(head@[i] == t@[i]);
            }
        }
        assert(v@ =~= t@.skip(21));
    }
    Some(v)
}

/// The first parameter-set value among `;`-separated parameters.
fn sprop_from_params(params: &str) -> (r: Option<String>)
    ensures
        match sprop_in(params@) {
            Some(v) => (r matches Some(x) && x@ == v),
            None => r is None,
        },
    decreases params@.len(),
{
    let piece = split_before(params, ';');
    match sprop_from_piece(piece.as_str()) {
        Some(v) => Some(v),
        None => match split_after(params, ';') {
            Some(rest) => {
                proof {
                    lemma_after_first_shorter(params@, ';');
                }
                sprop_from_params(rest.as_str())
            },
            None => None,
        },
    }
}

/// The RTP caps fields of the media sections of an SDP description: the
/// encoding name as written (not yet upper-cased), the payload type, the
/// clock rate and the parameter sets. `None` when a field is missing or
/// malformed.
pub fn rtp_caps_fields(medias: &Vec<SdpMedia>) -> (r: Option<(String, u8, u32, Option<String>)>)
    ensures
        match rtp_caps_of(medias@.map_values(|m: SdpMedia| media_view(m))) {
            Some((enc, pt, clock, sprop)) => (r matches Some((e, p, c, s)) && e@ == enc && p == pt && c == clock
                && match sprop {
                    Some(v) => (s matches Some(x) && x@ == v),
                    None => s is None,
                }),
            None => r is None,
        },
{
    let ghost mv = medias@.map_values(|m: SdpMedia| media_view(m));
    if medias.len() == 0 {
        return None;
    }
    let media = &medias[0];
    assert(mv[0] == media_view(*media));
    if media.formats.len() == 0 {
        return None;
    }
    assert(mv[0].0[0] == media.formats@[0]@);
    let pt = match parse_unsigned(media.formats[0].as_str(), 255) {
        Some(v) => v as u8,
        None => return None,
    };
    let rtpmap: String = match media_attribute(&media.attributes, "rtpmap") {
        None => return None,
        Some(None) => String::new(),
        Some(Some(v)) => crate::text::copy_string(v),
    };
    let codec = match split_after(rtpmap.as_str(), ' ') {
        Some(c) => c,
        None => return None,
    };
    let encoding = split_before(codec.as_str(), '/');
    let rest = match split_after(codec.as_str(), '/') {
        Some(r) => r,
        None => return None,
    };
    let clock = match parse_unsigned(rest.as_str(), 4294967295) {
        Some(v) => v as u32,
        None => return None,
    };
    let sprop = match media_attribute(&media.attributes, "fmtp") {
        Some(Some(f)) => match split_after(f.as_str(), ' ') {
            Some(params) => sprop_from_params(params.as_str()),
            None => None,
        },
        _ => None,
    };
    Some((encoding, pt, clock, sprop))
}

/// The RTP caps of an SDP description: encoding name in upper case,
/// payload type, clock rate and parameter sets; `None` when the description
/// does not parse or a field is missing or malformed.
pub fn parse_rtp_caps_from_sdp(sdp_text: &str) -> (r: Option<(String, u8, u32, Option<String>)>)
    ensures
        match sdp_media_descriptions(sdp_text@) {
            None => r is None,
            Some(medias) => match rtp_caps_of(medias) {
                None => r is None,
                Some((enc, pt, clock, sprop)) => (r matches Some((e, p, c, s)) && e@ == uppercased(enc) && p == pt
                    && c == clock && match sprop {
                        Some(v) => (s matches Some(x) && x@ == v),
                        None => s is None,
                    }),
            },
        },
{
    let medias = match parse_sdp_media(sdp_text) {
        Some(m) => m,
        None => return None,
    };
    match rtp_caps_fields(&medias) {
        Some((encoding, pt, clock, sprop)) => {
            let upper = to_uppercase(encoding.as_str());
            Some((upper, pt, clock, sprop))
        },
        None => None,
    }
}

// ---------------------------------------------------------------------------
// Decoding pipeline
// ---------------------------------------------------------------------------

/// The depayload-and-decode stage for an encoding name; JPEG for any name
/// not listed.
pub open spec fn depay_decode(encoding: Seq<char>) -> Seq<char> {
    if encoding == "H264"@ {
        "rtph264depay ! h264parse ! avdec_h264"@
    } else if encoding == "H265"@ || encoding == "HEVC"@ {
        "rtph265depay ! h265parse ! avdec_h265"@
    } else if encoding == "VP8"@ {
        "rtpvp8depay ! vp8dec"@
    } else if encoding == "VP9"@ {
        "rtpvp9depay ! vp9dec"@
    } else {
        "rtpjpegdepay ! jpegdec"@
    }
}

/// The caps field carrying H.264/H.265 parameter sets, quoted; empty for
/// other encodings or without parameter sets.
pub open spec fn sprop_cap(encoding: Seq<char>, sprop: Option<Seq<char>>) -> Seq<char> {
    match sprop {
        Some(s) => if encoding == "H264"@ || encoding == "H265"@ || encoding == "HEVC"@ {
            ",sprop-parameter-sets=\\\""@ + s + "\\\""@
        } else {
            Seq::empty()
        },
        None => Seq::empty(),
    }
}

/// The pipeline description: RTP from an app source, jitter buffer,
/// depayloader and decoder, conversion to RGBA, into an app sink.
pub open spec fn pipeline_text(encoding: Seq<char>, pt: u8, clock_rate: u32, sprop: Option<Seq<char>>) -> Seq<char> {
    "appsrc name=src caps=\"application/x-rtp,media=video,payload="@ + decimal(pt as nat)
        + ",clock-rate="@ + decimal(clock_rate as nat) + ",encoding-name="@ + encoding
        + sprop_cap(encoding, sprop)
        + "\" format=time is-live=true ! rtpjitterbuffer ! "@ + depay_decode(encoding)
        + " ! videoconvert ! video/x-raw,format=RGBA ! appsink name=sink sync=false emit-signals=true"@
}

/// The decoding end of the pipeline: after the jitter buffer comes the
/// depayloader, parser and decoder of the stream's codec — H.264 for
/// `H264`, H.265 for `H265` and `HEVC`, VP8 and VP9 for theirs, JPEG for any
/// other name — then conversion to RGBA into the app sink.
pub proof fn lemma_pipeline_decodes_the_named_codec(encoding: Seq<char>, pt: u8, clock_rate: u32, sprop: Option<Seq<char>>)
    ensures
        ({
            let stage: Seq<char> = if encoding == "H264"@ {
                "rtph264depay ! h264parse ! avdec_h264"@
            } else if encoding == "H265"@ || encoding == "HEVC"@ {
                "rtph265depay ! h265parse ! avdec_h265"@
            } else if encoding == "VP8"@ {
                "rtpvp8depay ! vp8dec"@
            } else if encoding == "VP9"@ {
                "rtpvp9depay ! vp9dec"@
            } else {
                "rtpjpegdepay ! jpegdec"@
            };
            ("rtpjitterbuffer ! "@ + stage
                + " ! videoconvert ! video/x-raw,format=RGBA ! appsink name=sink sync=false emit-signals=true"@)
                .is_suffix_of(pipeline_text(encoding, pt, clock_rate, sprop))
        }),
{
    let stage = depay_decode(encoding);
    let tail = " ! videoconvert ! video/x-raw,format=RGBA ! appsink name=sink sync=false emit-signals=true"@;
    let head = "appsrc name=src caps=\"application/x-rtp,media=video,payload="@ + decimal(pt as nat)
        + ",clock-rate="@ + decimal(clock_rate as nat) + ",encoding-name="@ + encoding
        + sprop_cap(encoding, sprop);
    reveal_strlit("\" format=time is-live=true ! rtpjitterbuffer ! ");
    reveal_strlit("\" format=time is-live=true ! ");
    reveal_strlit("rtpjitterbuffer ! ");
    assert("\" format=time is-live=true ! rtpjitterbuffer ! "@ =~= "\" format=time is-live=true ! "@ + "rtpjitterbuffer ! "@);
    let front = head + "\" format=time is-live=true ! "@;
    let suffix = "rtpjitterbuffer ! "@ + stage + tail;
    assert(pipeline_text(encoding, pt, clock_rate, sprop) =~= front + suffix);
    let whole = front + suffix;
    assert(whole.subrange(whole.len() - suffix.len(), whole.len() as int) =~= suffix);
}

/// The depayload-and-decode stage for an encoding name.
fn depay_decode_stage(encoding: &str) -> (r: &'static str)
    ensures
        r@ == depay_decode(encoding@),
{
    if str_equals(encoding, "H264") {
        "rtph264depay ! h264parse ! avdec_h264"
    } else if str_equals(encoding, "H265") || str_equals(encoding, "HEVC") {
        "rtph265depay ! h265parse ! avdec_h265"
    } else if str_equals(encoding, "VP8") {
        "rtpvp8depay ! vp8dec"
    } else if str_equals(encoding, "VP9") {
        "rtpvp9depay ! vp9dec"
    } else {
        "rtpjpegdepay ! jpegdec"
    }
}

/// Builds the pipeline description for the given RTP caps.
pub fn build_pipeline_str(encoding: &str, pt: u8, clock_rate: u32, sprop: &Option<String>) -> (r: String)
    ensures
        r@ == pipeline_text(encoding@, pt, clock_rate, match sprop {
            Some(s) => Some(s@),
            None => None,
        }),
{
    let mut out = String::from_str("appsrc name=src caps=\"application/x-rtp,media=video,payload=");
    out.append(to_decimal(pt as u64).as_str());
    out.append(",clock-rate=");
    out.append(to_decimal(clock_rate as u64).as_str());
    out.append(",encoding-name=");
    out.append(encoding);
    let ghost before_cap = out@;
    match sprop {
        Some(s) => {
            if str_equals(encoding, "H264") || str_equals(encoding, "H265") || str_equals(encoding, "HEVC") {
                out.append(",sprop-parameter-sets=\\\"");
                out.append(s.as_str());
                out.append("\\\"");
            }
        },
        None => {},
    }
    out.append("\" format=time is-live=true ! rtpjitterbuffer ! ");
    out.append(depay_decode_stage(encoding));
    out.append(" ! videoconvert ! video/x-raw,format=RGBA ! appsink name=sink sync=false emit-signals=true");
    let ghost sv = match sprop {
        Some(s) => Some(s@),
        None => None,
    };
    assert(out@ =~= pipeline_text(encoding@, pt, clock_rate, sv));
    out
}

// ---------------------------------------------------------------------------
// Endpoints
// ---------------------------------------------------------------------------

/// Path of the WSC-RTP WebSocket of a source.
pub open spec fn wsc_rtp_path(source_id: Seq<char>) -> Seq<char> {
    "/streams/"@ + source_id + "/wsc-rtp"@
}

/// The query that asks for RTP over the WebSocket from the start.
pub open spec fn force_websocket_query(force: bool) -> Option<Seq<char>> {
    if force { Some("force_websocket_transport=true"@) } else { None }
}

/// The WSC-RTP WebSocket URL of a source on the server at `base_url`: the
/// scheme switched to its WebSocket counterpart, the source's path, and the
/// query that forces WebSocket transport when asked for.
pub fn build_wsc_rtp_handshake_request(base_url: &str, source_id: &str, force_websocket_transport: bool) -> (r: Result<String, UrlError>)
    ensures
        match websocket_endpoint(base_url@, wsc_rtp_path(source_id@), force_websocket_query(force_websocket_transport)) {
            Ok(u) => (r matches Ok(s) && s@ == u),
            Err(e) => r == Err::<String, UrlError>(e),
        },
{
    let mut path = String::from_str("/streams/");
    path.append(source_id);
    path.append("/wsc-rtp");
    let query: Option<&str> = if force_websocket_transport { Some("force_websocket_transport=true") } else { None };
    proof {
        let qv = match query { Some(q) => Some(q@), None => None };
        assert(qv == force_websocket_query(force_websocket_transport));
    }
    build_websocket_endpoint(base_url, path.as_str(), query)
}

/// Path of a session control request.
pub open spec fn control_path(session_id: Seq<char>, endpoint: Seq<char>) -> Seq<char> {
    "/client-session-control/"@ + session_id + "/"@ + endpoint
}

/// The URL of a control request: the server URL with the control path, or
/// `None` when the URL does not parse or is too long to edit.
pub open spec fn control_url(base_url: Seq<char>, session_id: Seq<char>, endpoint: Seq<char>) -> Option<Seq<char>> {
    let path = control_path(session_id, endpoint);
    if edit_fits(base_url, path.len() as int) {
        url_with_path(base_url, path)
    } else {
        None
    }
}

/// Why a control request could not be made.
#[derive(Debug, Clone, Copy, PartialEq, Eq, Structural)]
pub enum ControlError {
    /// The session is between connections and has no server session.
    Reconnecting,
    /// The server URL could not be edited.
    InvalidUrl,
}

/// The URL a control request for `endpoint` goes to: the server URL with
/// the path of the active server session; refused while reconnecting.
pub fn control_request_url(base_url: &str, active_session_id: &Option<String>, endpoint: &str) -> (r: Result<String, ControlError>)
    ensures
        match active_session_id {
            None => r == Err::<String, ControlError>(ControlError::Reconnecting),
            Some(sid) => match control_url(base_url@, sid@, endpoint@) {
                Some(u) => (r matches Ok(s) && s@ == u),
                None => r == Err::<String, ControlError>(ControlError::InvalidUrl),
            },
        },
{
    let sid = match active_session_id {
        Some(s) => s,
        None => return Err(ControlError::Reconnecting),
    };
    let mut path = String::from_str("/client-session-control/");
    path.append(sid.as_str());
    path.append("/");
    path.append(endpoint);
    proof {
        reveal_strlit("/client-session-control/");
        reveal_strlit("/");
    }
    assert(path@ == control_path(sid@, endpoint@));
    if !edit_fits_exec(base_url, path.unicode_len()) {
        return Err(ControlError::InvalidUrl);
    }
    match with_path(base_url, path.as_str()) {
        Some(u) => Ok(u),
        None => Err(ControlError::InvalidUrl),
    }
}

/// Whether an HTTP status code reports success (2xx).
pub fn status_is_success(status: u16) -> (r: bool)
    ensures
        r == (200 <= status <= 299),
{
    200 <= status && status <= 299
}

/// The playback mode the server reports after a control request: whether
/// it is live, and the position in milliseconds (0 when not given).
pub fn control_response_mode(is_live: bool, current_time_ms: Option<u64>) -> (r: (bool, i64))
    ensures
        r.0 == is_live,
        r.1 == (match current_time_ms {
            Some(t) => t as i64,
            None => 0i64,
        }),
{
    let t: u64 = match current_time_ms {
        Some(t) => t,
        None => 0,
    };
    (is_live, t as i64)
}

/// Why a server address could not be found.
#[derive(Debug, Clone, Copy, PartialEq, Eq, Structural)]
pub enum AddressError {
    /// The server URL has no host.
    MissingHost,
    /// The host resolved to no address.
    NoAddress,
}

/// The host to resolve for the server's UDP endpoint.
pub fn server_host(base_url: &str) -> (r: Result<String, AddressError>)
    ensures
        match url_host(base_url@) {
            Some(h) => (r matches Ok(s) && s@ == h),
            None => r == Err::<String, AddressError>(AddressError::MissingHost),
        },
{
    match host_of(base_url) {
        Some(h) => Ok(h),
        None => Err(AddressError::MissingHost),
    }
}

/// Picks the address to use among those the host resolved to, given which
/// are IPv4: the first IPv4 one, else the first one.
pub fn resolve_server_udp_addr(is_ipv4: &Vec<bool>) -> (r: Result<usize, AddressError>)
    ensures
        match r {
            Ok(i) => i < is_ipv4@.len() && (is_ipv4@[i as int] || forall|j: int| 0 <= j < is_ipv4@.len() ==> !is_ipv4@[j])
                && forall|j: int| 0 <= j < i ==> !is_ipv4@[j],
            Err(e) => e == AddressError::NoAddress && is_ipv4@.len() == 0,
        },
{
    match crate::engine::urls::preferred_address_index(is_ipv4) {
        Some(i) => Ok(i),
        None => Err(AddressError::NoAddress),
    }
}

// ---------------------------------------------------------------------------
// Server messages
// ---------------------------------------------------------------------------

/// The playback mode of a server session.
#[derive(Debug, Clone, Copy, PartialEq, Eq, Structural)]
pub enum SessionMode {
    Live,
    Dvr { timestamp: u64 },
}

/// Messages the server sends over the WSC-RTP WebSocket.
#[derive(Debug, Clone)]
pub enum WscRtpServerMessage {
    Init { session_id: String, holepunch_port: u16 },
    Sdp { sdp: String },
    SessionMode(SessionMode),
    Error { message: String },
    FallingBackRtpToWs,
    Pong,
}

/// What a server message leads to.
pub enum ServerMessageEffect {
    /// Nothing to report.
    Nothing,
    /// Report the playback mode to the UI.
    ReportMode { is_live: bool, current_time_ms: i64 },
    /// Report an error to the UI.
    ReportError(String),
    /// The server answered a ping: the connection is alive.
    PongReceived,
}

/// A mode change is reported (a live session at position 0, a recorded one
/// at its timestamp), a server error is reported, a pong is noted, anything
/// else is ignored.
pub fn handle_server_message(message: WscRtpServerMessage) -> (r: ServerMessageEffect)
    ensures
        match message {
            WscRtpServerMessage::SessionMode(SessionMode::Live) =>
                (r matches ServerMessageEffect::ReportMode { is_live: l, current_time_ms: t } && l && t == 0),
            WscRtpServerMessage::SessionMode(SessionMode::Dvr { timestamp }) =>
                (r matches ServerMessageEffect::ReportMode { is_live: l, current_time_ms: t } && !l && t == timestamp as i64),
            WscRtpServerMessage::Error { message: m } => (r matches ServerMessageEffect::ReportError(e) && e@ == m@),
            WscRtpServerMessage::Pong => r is PongReceived,
            _ => r is Nothing,
        },
{
    match message {
        WscRtpServerMessage::SessionMode(SessionMode::Live) => ServerMessageEffect::ReportMode { is_live: true, current_time_ms: 0 },
        WscRtpServerMessage::SessionMode(SessionMode::Dvr { timestamp }) =>
            ServerMessageEffect::ReportMode { is_live: false, current_time_ms: timestamp as i64 },
        WscRtpServerMessage::Error { message } => ServerMessageEffect::ReportError(message),
        WscRtpServerMessage::Pong => ServerMessageEffect::PongReceived,
        _ => ServerMessageEffect::Nothing,
    }
}

/// What the connection handshake has received so far: the server session
/// and hole-punch port, and the SDP offer.
pub struct HandshakeState {
    pub init: Option<(String, u16)>,
    pub sdp: Option<String>,
}

impl HandshakeState {
    /// Nothing received yet.
    pub fn new() -> (s: Self)
        ensures
            s.init is None,
            s.sdp is None,
    {
        HandshakeState { init: None, sdp: None }
    }

    /// Takes a message: the latest `Init` and `Sdp` are kept, others ignored.
    pub fn on_message(&mut self, message: WscRtpServerMessage)
        ensures
            match message {
                WscRtpServerMessage::Init { session_id, holepunch_port } =>
                    (final(self).init matches Some((s, p)) && s@ == session_id@ && p == holepunch_port)
                    && final(self).sdp == old(self).sdp,
                WscRtpServerMessage::Sdp { sdp } => (final(self).sdp matches Some(s) && s@ == sdp@)
                    && final(self).init == old(self).init,
                _ => final(self).init == old(self).init && final(self).sdp == old(self).sdp,
            },
    {
        match message {
            WscRtpServerMessage::Init { session_id, holepunch_port } => {
                self.init = Some((session_id, holepunch_port));
            },
            WscRtpServerMessage::Sdp { sdp } => {
                self.sdp = Some(sdp);
            },
            _ => {},
        }
    }

    /// The handshake is over once both the session and the offer arrived.
    pub fn is_complete(&self) -> (r: bool)
        ensures
            r == (self.init is Some && self.sdp is Some),
    {
        self.init.is_some() && self.sdp.is_some()
    }
}

/// Whether RTP is first tried over UDP: unless WebSocket transport is forced.
pub fn use_udp_transport(config: &WscRtpSessionConfig) -> (r: bool)
    ensures
        r == !config.force_websocket_transport,
{
    !config.force_websocket_transport
}

// ---------------------------------------------------------------------------
// UDP handshake
// ---------------------------------------------------------------------------

/// Attempts made to confirm UDP transport.
pub const UDP_HANDSHAKE_TRIES: u32 = 5;

/// A handshake line: a header, a space and the server session id.
pub fn handshake_line(header: &str, session_id: &str) -> (r: String)
    ensures
        r@ == header@ + " "@ + session_id@,
{
    let mut r = String::from_str(header);
    r.append(" ");
    r.append(session_id);
    r
}

/// Whether a UDP reply, white space at its ends ignored, is the expected line.
pub fn is_expected_reply(payload: &str, expected: &str) -> (r: bool)
    ensures
        r == (trimmed(payload@) == expected@),
{
    let chars = chars_of(payload);
    let (a, b) = trim_bounds(&chars);
    let t = substring(payload, a, b);
    str_equals(t.as_str(), expected)
}

/// Whether another UDP handshake attempt is made after `tries` failed ones.
pub fn handshake_should_retry(tries: u32) -> (r: bool)
    ensures
        r == (tries < UDP_HANDSHAKE_TRIES),
{
    tries < UDP_HANDSHAKE_TRIES
}

/// Where the UDP transport check stands: each attempt sends the hole-punch
/// line, waits for the server's dummy line and answers with the ack line.
#[derive(Debug, Clone, Copy, PartialEq, Eq, Structural)]
pub enum UdpHandshakePhase {
    /// Send the hole-punch line, starting an attempt.
    SendHolepunch,
    /// Wait for the server's dummy line.
    AwaitDummy,
    /// Send the ack line.
    SendAck,
    /// UDP transport is confirmed.
    Confirmed,
    /// Every attempt failed.
    Failed,
}

/// The phase after an attempt failed, when `tries` attempts were started:
/// another attempt while some are left, else failure.
pub open spec fn after_failed_try(tries: u32) -> UdpHandshakePhase {
    if tries < UDP_HANDSHAKE_TRIES { UdpHandshakePhase::SendHolepunch } else { UdpHandshakePhase::Failed }
}

/// The UDP transport check of a connection.
pub struct UdpHandshake {
    phase: UdpHandshakePhase,
    tries: u32,
}

impl UdpHandshake {
    pub closed spec fn phase_of(&self) -> UdpHandshakePhase {
        self.phase
    }

    /// Attempts started so far.
    pub closed spec fn tries_of(&self) -> u32 {
        self.tries
    }

    /// No more attempts are started than allowed, and starting one is only
    /// asked for while some are left.
    pub closed spec fn wf(&self) -> bool {
        &&& self.tries <= UDP_HANDSHAKE_TRIES
        &&& self.phase == UdpHandshakePhase::SendHolepunch ==> self.tries < UDP_HANDSHAKE_TRIES
    }

    /// Before the first attempt.
    pub fn new() -> (h: Self)
        ensures
            h.wf(),
            h.phase_of() == UdpHandshakePhase::SendHolepunch,
            h.tries_of() == 0,
    {
        UdpHandshake { phase: UdpHandshakePhase::SendHolepunch, tries: 0 }
    }

    /// What to do next.
    pub fn phase(&self) -> (r: UdpHandshakePhase)
        ensures
            r == self.phase_of(),
    {
        self.phase
    }

    /// The line the current phase sent went out: a sent hole punch starts an
    /// attempt and waits for the dummy line; a sent ack confirms the
    /// transport.
    pub fn on_sent(&mut self)
        requires
            old(self).wf(),
        ensures
            final(self).wf(),
            old(self).phase_of() == UdpHandshakePhase::SendHolepunch ==> final(self).phase_of()
                == UdpHandshakePhase::AwaitDummy && final(self).tries_of() == old(self).tries_of() + 1,
            old(self).phase_of() == UdpHandshakePhase::SendAck ==> final(self).phase_of()
                == UdpHandshakePhase::Confirmed && final(self).tries_of() == old(self).tries_of(),
            !(old(self).phase_of() == UdpHandshakePhase::SendHolepunch || old(self).phase_of()
                == UdpHandshakePhase::SendAck) ==> *final(self) == *old(self),
    {
        match self.phase {
            UdpHandshakePhase::SendHolepunch => {
                self.tries = self.tries + 1;
                self.phase = UdpHandshakePhase::AwaitDummy;
            },
            UdpHandshakePhase::SendAck => {
                self.phase = UdpHandshakePhase::Confirmed;
            },
            _ => {},
        }
    }

    /// A UDP datagram arrived while waiting: the expected dummy line (white
    /// space at its ends ignored) leads to the ack; anything else fails the
    /// attempt.
    pub fn on_reply(&mut self, payload: &str, expected: &str)
        requires
            old(self).wf(),
        ensures
            final(self).wf(),
            final(self).tries_of() == old(self).tries_of(),
            old(self).phase_of() == UdpHandshakePhase::AwaitDummy ==> final(self).phase_of() == (if trimmed(payload@)
                == expected@ {
                UdpHandshakePhase::SendAck
            } else {
                after_failed_try(old(self).tries_of())
            }),
            old(self).phase_of() != UdpHandshakePhase::AwaitDummy ==> *final(self) == *old(self),
    {
        if self.phase == UdpHandshakePhase::AwaitDummy {
            if is_expected_reply(payload, expected) {
                self.phase = UdpHandshakePhase::SendAck;
            } else {
                self.phase = if handshake_should_retry(self.tries) {
                    UdpHandshakePhase::SendHolepunch
                } else {
                    UdpHandshakePhase::Failed
                };
            }
        }
    }

    /// Sending or receiving failed: the attempt under way fails (a hole
    /// punch that could not be sent still used up its attempt).
    pub fn on_io_error(&mut self)
        requires
            old(self).wf(),
        ensures
            final(self).wf(),
            old(self).phase_of() == UdpHandshakePhase::SendHolepunch ==> final(self).tries_of()
                == old(self).tries_of() + 1 && final(self).phase_of() == after_failed_try(
                (old(self).tries_of() + 1) as u32,
            ),
            (old(self).phase_of() == UdpHandshakePhase::AwaitDummy || old(self).phase_of() == UdpHandshakePhase::SendAck)
                ==> final(self).tries_of() == old(self).tries_of() && final(self).phase_of() == after_failed_try(
                old(self).tries_of(),
            ),
            (old(self).phase_of() == UdpHandshakePhase::Confirmed || old(self).phase_of()
                == UdpHandshakePhase::Failed) ==> *final(self) == *old(self),
    {
        match self.phase {
            UdpHandshakePhase::Confirmed | UdpHandshakePhase::Failed => {},
            _ => {
                if self.phase == UdpHandshakePhase::SendHolepunch {
                    self.tries = self.tries + 1;
                }
                self.phase = if handshake_should_retry(self.tries) {
                    UdpHandshakePhase::SendHolepunch
                } else {
                    UdpHandshakePhase::Failed
                };
            },
        }
    }
}

/// The check ends after at most the allowed number of attempts: once that
/// many were started, a failed attempt fails the check.
pub proof fn lemma_udp_handshake_gives_up(tries: u32)
    requires
        tries >= UDP_HANDSHAKE_TRIES,
    ensures
        after_failed_try(tries) == UdpHandshakePhase::Failed,
{
}

// ---------------------------------------------------------------------------
// Reconnection
// ---------------------------------------------------------------------------

/// First wait before reconnecting, in milliseconds.
pub const INITIAL_BACKOFF_MS: u64 = 500;

/// Longest wait before reconnecting, in milliseconds.
pub const MAX_BACKOFF_MS: u64 = 30000;

/// The wait before the next reconnection attempt.
pub struct ReconnectState {
    backoff_ms: u64,
}

/// What the connection loop does next.
#[derive(Debug, Clone, Copy, PartialEq, Eq, Structural)]
pub enum ReconnectDecision {
    /// Leave the loop; `failed` says whether the session ends with an error.
    Stop { failed: bool },
    /// Report loading and connect again after waiting this long.
    RetryAfter { delay_ms: u64, delay_secs: u64 },
}

/// The wait that follows a wait of `b`: twice as long, at most the longest.
pub open spec fn next_backoff(b: u64) -> u64 {
    if b * 2 < MAX_BACKOFF_MS { (b * 2) as u64 } else { MAX_BACKOFF_MS }
}

/// The wait after `failures` failed connection attempts in a row.
pub open spec fn backoff_after(failures: nat) -> u64
    decreases failures,
{
    if failures == 0 {
        INITIAL_BACKOFF_MS
    } else {
        next_backoff(backoff_after((failures - 1) as nat))
    }
}

impl ReconnectState {
    pub closed spec fn backoff(&self) -> u64 {
        self.backoff_ms
    }

    /// The waits are always between the first and the longest.
    pub closed spec fn wf(&self) -> bool {
        INITIAL_BACKOFF_MS <= self.backoff_ms <= MAX_BACKOFF_MS
    }

    /// Before the first attempt.
    pub fn new() -> (s: Self)
        ensures
            s.backoff() == INITIAL_BACKOFF_MS,
            s.wf(),
    {
        ReconnectState { backoff_ms: INITIAL_BACKOFF_MS }
    }

    /// A connection succeeded: the next failure waits the first wait again.
    pub fn on_connected(&mut self)
        ensures
            final(self).backoff() == INITIAL_BACKOFF_MS,
            final(self).wf(),
    {
        self.backoff_ms = INITIAL_BACKOFF_MS;
    }

    /// After a connected session ended: a requested shutdown stops the loop
    /// cleanly; a lost connection ends the session with an error when it does
    /// not restart automatically, and otherwise is retried after reporting
    /// loading and waiting the current backoff, which then doubles up to the
    /// longest wait.
    pub fn after_session(&mut self, shutdown: bool, auto_restart: bool) -> (r: ReconnectDecision)
        requires
            old(self).wf(),
        ensures
            final(self).wf(),
            shutdown ==> r == (ReconnectDecision::Stop { failed: false }),
            !shutdown && !auto_restart ==> r == (ReconnectDecision::Stop { failed: true }),
            (shutdown || !auto_restart) ==> final(self).backoff() == old(self).backoff(),
            !shutdown && auto_restart ==> r == (ReconnectDecision::RetryAfter {
                delay_ms: old(self).backoff(),
                delay_secs: old(self).backoff() / 1000,
            }),
            !shutdown && auto_restart ==> final(self).backoff() == next_backoff(old(self).backoff()),
    {
        if shutdown {
            ReconnectDecision::Stop { failed: false }
        } else if !auto_restart {
            ReconnectDecision::Stop { failed: true }
        } else {
            let delay = self.backoff_ms;
            let doubled = self.backoff_ms * 2;
            self.backoff_ms = if doubled < MAX_BACKOFF_MS { doubled } else { MAX_BACKOFF_MS };
            ReconnectDecision::RetryAfter { delay_ms: delay, delay_secs: delay / 1000 }
        }
    }

    /// After a failed connection attempt: stop with an error when a
    /// shutdown is pending or the session does not restart automatically;
    /// otherwise wait the current backoff, which then doubles up to the
    /// longest wait.
    pub fn after_connect_failure(&mut self, shutdown_requested: bool, auto_restart: bool) -> (r: ReconnectDecision)
        requires
            old(self).wf(),
        ensures
            final(self).wf(),
            (shutdown_requested || !auto_restart) ==> r == (ReconnectDecision::Stop { failed: true }),
            (shutdown_requested || !auto_restart) ==> final(self).backoff() == old(self).backoff(),
            (!shutdown_requested && auto_restart) ==> r == (ReconnectDecision::RetryAfter {
                delay_ms: old(self).backoff(),
                delay_secs: old(self).backoff() / 1000,
            }),
            (!shutdown_requested && auto_restart) ==> final(self).backoff() == next_backoff(old(self).backoff()),
    {
        if shutdown_requested || !auto_restart {
            return ReconnectDecision::Stop { failed: true };
        }
        let delay = self.backoff_ms;
        let doubled = self.backoff_ms * 2;
        self.backoff_ms = if doubled < MAX_BACKOFF_MS { doubled } else { MAX_BACKOFF_MS };
        ReconnectDecision::RetryAfter { delay_ms: delay, delay_secs: delay / 1000 }
    }
}

/// The wait grows from the first wait by doubling with each failure in a
/// row and never exceeds the longest wait.
pub proof fn lemma_backoff_bounded(failures: nat)
    ensures
        INITIAL_BACKOFF_MS <= backoff_after(failures) <= MAX_BACKOFF_MS,
    decreases failures,
{
    if failures > 0 {
        lemma_backoff_bounded((failures - 1) as nat);
    }
}

/// After enough failures in a row the wait settles at the longest wait.
pub proof fn lemma_backoff_reaches_max(failures: nat)
    requires
        failures >= 6,
    ensures
        backoff_after(failures) == MAX_BACKOFF_MS,
    decreases failures,
{
    reveal_with_fuel(backoff_after, 7);
    if failures > 6 {
        lemma_backoff_reaches_max((failures - 1) as nat);
    }
}

// ---------------------------------------------------------------------------
// Session loop
// ---------------------------------------------------------------------------

/// What the session loop of a connected session woke up for.
#[derive(Debug, Clone, Copy, PartialEq, Eq, Structural)]
pub enum SessionLoopEvent {
    /// A shutdown was requested.
    Shutdown,
    /// Time to ping the server; the last pong came this many milliseconds
    /// ago (or the loop started that long ago, before any pong).
    PingTick { ms_since_last_pong: u64 },
    /// Sending a ping failed.
    PingFailed,
    /// The WebSocket stream ended.
    WsEnded,
    /// The WebSocket reported an error.
    WsError,
    /// The server pinged.
    WsPing,
    /// An RTP packet arrived over the WebSocket.
    WsBinary,
    /// A text message arrived.
    WsText,
    /// The server closed the WebSocket.
    WsClose,
    /// Any other WebSocket frame.
    WsOther,
    /// The decoding pipeline reported an error or the end of stream.
    PipelineError,
}

/// Why a connected session ended with an error.
#[derive(Debug, Clone, Copy, PartialEq, Eq, Structural)]
pub enum SessionLoopError {
    StreamClosed,
    WebSocketError,
    CloseFrame,
    Pipeline,
    /// No pong for longer than the pong timeout.
    PongTimeout,
    /// A ping could not be sent.
    PingFailed,
}

/// Milliseconds between pings of a connected session.
pub const PING_INTERVAL_MS: u64 = 2000;

/// Milliseconds without a pong after which the connection counts as lost.
pub const PONG_TIMEOUT_MS: u64 = 10000;

/// What the session loop does.
#[derive(Debug, Clone, Copy, PartialEq, Eq, Structural)]
pub enum SessionLoopAction {
    /// Stop receiving, stop the pipeline, and end for the shutdown.
    ExitShutdown,
    /// Stop receiving, stop the pipeline, and end with this error.
    ExitError(SessionLoopError),
    /// Send a ping to the server.
    SendPing,
    /// Answer the server's ping.
    SendPong,
    /// Hand the packet to the pipeline.
    PushBuffer,
    /// Decode the message and handle it.
    HandleText,
    /// Nothing to do.
    Ignore,
}

/// The decision of the session loop for one wake-up: a ping tick ends the
/// session once more than the pong timeout has passed since the last pong,
/// and a failed ping ends it at once.
pub fn session_loop_step(event: SessionLoopEvent) -> (r: SessionLoopAction)
    ensures
        r == match event {
            SessionLoopEvent::Shutdown => SessionLoopAction::ExitShutdown,
            SessionLoopEvent::PingTick { ms_since_last_pong } => if ms_since_last_pong > PONG_TIMEOUT_MS {
                SessionLoopAction::ExitError(SessionLoopError::PongTimeout)
            } else {
                SessionLoopAction::SendPing
            },
            SessionLoopEvent::PingFailed => SessionLoopAction::ExitError(SessionLoopError::PingFailed),
            SessionLoopEvent::WsEnded => SessionLoopAction::ExitError(SessionLoopError::StreamClosed),
            SessionLoopEvent::WsError => SessionLoopAction::ExitError(SessionLoopError::WebSocketError),
            SessionLoopEvent::WsPing => SessionLoopAction::SendPong,
            SessionLoopEvent::WsBinary => SessionLoopAction::PushBuffer,
            SessionLoopEvent::WsText => SessionLoopAction::HandleText,
            SessionLoopEvent::WsClose => SessionLoopAction::ExitError(SessionLoopError::CloseFrame),
            SessionLoopEvent::WsOther => SessionLoopAction::Ignore,
            SessionLoopEvent::PipelineError => SessionLoopAction::ExitError(SessionLoopError::Pipeline),
        },
{
    match event {
        SessionLoopEvent::Shutdown => SessionLoopAction::ExitShutdown,
        SessionLoopEvent::PingTick { ms_since_last_pong } => if ms_since_last_pong > PONG_TIMEOUT_MS {
            SessionLoopAction::ExitError(SessionLoopError::PongTimeout)
        } else {
            SessionLoopAction::SendPing
        },
        SessionLoopEvent::PingFailed => SessionLoopAction::ExitError(SessionLoopError::PingFailed),
        SessionLoopEvent::WsEnded => SessionLoopAction::ExitError(SessionLoopError::StreamClosed),
        SessionLoopEvent::WsError => SessionLoopAction::ExitError(SessionLoopError::WebSocketError),
        SessionLoopEvent::WsPing => SessionLoopAction::SendPong,
        SessionLoopEvent::WsBinary => SessionLoopAction::PushBuffer,
        SessionLoopEvent::WsText => SessionLoopAction::HandleText,
        SessionLoopEvent::WsClose => SessionLoopAction::ExitError(SessionLoopError::CloseFrame),
        SessionLoopEvent::WsOther => SessionLoopAction::Ignore,
        SessionLoopEvent::PipelineError => SessionLoopAction::ExitError(SessionLoopError::Pipeline),
    }
}

/// The text a pipeline error is reported with.
pub fn pipeline_error_text(source_id: &str, error: &str) -> (r: String)
    ensures
        r@ == "GStreamer error ["@ + source_id@ + "]: "@ + error@,
{
    let mut r = String::from_str("GStreamer error [");
    r.append(source_id);
    r.append("]: ");
    r.append(error);
    r
}

/// The text the end of the pipeline's stream is reported with.
pub fn pipeline_eos_text(source_id: &str) -> (r: String)
    ensures
        r@ == "GStreamer EOS ["@ + source_id@ + "]"@,
{
    let mut r = String::from_str("GStreamer EOS [");
    r.append(source_id);
    r.append("]");
    r
}

/// A decoded RGBA frame from the pipeline's sink, with the size to report
/// when it is the first one: rows `stride` bytes apart are packed when the
/// stride has padding, the plane is taken as is otherwise.
pub fn frame_from_sample(width: u32, height: u32, stride: usize, plane: &[u8], origin_size_sent: &mut bool) -> (r: (RawRgbaFrame, Option<(u64, u64)>))
    requires
        width * 4 <= usize::MAX,
        rows_in_bounds(plane@.len(), width as nat * 4, stride as nat, height as nat),
    ensures
        r.0.width == width,
        r.0.height == height,
        stride == width * 4 ==> r.0.data@ == plane@,
        stride != width * 4 ==> r.0.data@ == packed_rows(plane@, width as nat * 4, stride as nat, height as nat),
        !*old(origin_size_sent) ==> r.1 == Some((width as u64, height as u64)),
        *old(origin_size_sent) ==> r.1 is None,
        *final(origin_size_sent),
{
    let origin = if !*origin_size_sent {
        *origin_size_sent = true;
        Some((width as u64, height as u64))
    } else {
        None
    };
    let expected_stride = width as usize * 4;
    let frame = if stride == expected_stride {
        RawRgbaFrame { width, height, data: vstd::slice::slice_to_vec(plane) }
    } else {
        RawRgbaFrame::from_padded_rows(width, height, stride, plane)
    };
    (frame, origin)
}

// ---------------------------------------------------------------------------
// Session
// ---------------------------------------------------------------------------

/// A WSC-RTP session: its configuration and the server session it is
/// connected to, if any.
pub struct WscRtpSession {
    config: WscRtpSessionConfig,
    active_session_id: Option<String>,
}

impl WscRtpSession {
    pub closed spec fn active(&self) -> Option<Seq<char>> {
        match self.active_session_id {
            Some(s) => Some(s@),
            None => None,
        }
    }

    pub closed spec fn base_url(&self) -> Seq<char> {
        self.config.base_url@
    }

    pub closed spec fn source(&self) -> Seq<char> {
        self.config.source_id@
    }

    pub closed spec fn restarts(&self) -> bool {
        self.config.auto_restart
    }

    pub closed spec fn forces_websocket(&self) -> bool {
        self.config.force_websocket_transport
    }

    /// A session that is not connected yet.
    pub fn new(config: WscRtpSessionConfig) -> (s: Self)
        ensures
            s.active() is None,
            s.base_url() == config.base_url@,
            s.source() == config.source_id@,
            s.restarts() == config.auto_restart,
            s.forces_websocket() == config.force_websocket_transport,
    {
        WscRtpSession { config, active_session_id: None }
    }

    /// The WebSocket URL to connect to.
    pub fn handshake_url(&self) -> (r: Result<String, UrlError>)
        ensures
            match websocket_endpoint(self.base_url(), wsc_rtp_path(self.source()), force_websocket_query(self.forces_websocket())) {
                Ok(u) => (r matches Ok(s) && s@ == u),
                Err(e) => r == Err::<String, UrlError>(e),
            },
    {
        build_wsc_rtp_handshake_request(
            self.config.base_url.as_str(),
            self.config.source_id.as_str(),
            self.config.force_websocket_transport,
        )
    }

    /// Records the server session of a new connection.
    pub fn set_active_session(&mut self, session_id: String)
        ensures
            final(self).active() == Some(session_id@),
            final(self).base_url() == old(self).base_url(),
            final(self).source() == old(self).source(),
            final(self).restarts() == old(self).restarts(),
            final(self).forces_websocket() == old(self).forces_websocket(),
    {
        self.active_session_id = Some(session_id);
    }

    /// Forgets the server session when the connection ends.
    pub fn clear_active_session(&mut self)
        ensures
            final(self).active() is None,
            final(self).base_url() == old(self).base_url(),
            final(self).source() == old(self).source(),
            final(self).restarts() == old(self).restarts(),
            final(self).forces_websocket() == old(self).forces_websocket(),
    {
        self.active_session_id = None;
    }

    /// The URL of a control request for `endpoint`; refused while
    /// reconnecting.
    pub fn send_control_request(&self, endpoint: &str) -> (r: Result<String, ControlError>)
        ensures
            match self.active() {
                None => r == Err::<String, ControlError>(ControlError::Reconnecting),
                Some(sid) => match control_url(self.base_url(), sid, endpoint@) {
                    Some(u) => (r matches Ok(s) && s@ == u),
                    None => r == Err::<String, ControlError>(ControlError::InvalidUrl),
                },
            },
    {
        control_request_url(self.config.base_url.as_str(), &self.active_session_id, endpoint)
    }

    /// The URL of a seek request.
    pub fn seek(&self) -> (r: Result<String, ControlError>)
        ensures
            match self.active() {
                None => r == Err::<String, ControlError>(ControlError::Reconnecting),
                Some(sid) => match control_url(self.base_url(), sid, "seek"@) {
                    Some(u) => (r matches Ok(s) && s@ == u),
                    None => r == Err::<String, ControlError>(ControlError::InvalidUrl),
                },
            },
    {
        self.send_control_request("seek")
    }

    /// The URL of a request to go back to the live edge.
    pub fn go_live(&self) -> (r: Result<String, ControlError>)
        ensures
            match self.active() {
                None => r == Err::<String, ControlError>(ControlError::Reconnecting),
                Some(sid) => match control_url(self.base_url(), sid, "live"@) {
                    Some(u) => (r matches Ok(s) && s@ == u),
                    None => r == Err::<String, ControlError>(ControlError::InvalidUrl),
                },
            },
    {
        self.send_control_request("live")
    }

    /// The URL of a playback speed request.
    pub fn set_speed(&self) -> (r: Result<String, ControlError>)
        ensures
            match self.active() {
                None => r == Err::<String, ControlError>(ControlError::Reconnecting),
                Some(sid) => match control_url(self.base_url(), sid, "speed"@) {
                    Some(u) => (r matches Ok(s) && s@ == u),
                    None => r == Err::<String, ControlError>(ControlError::InvalidUrl),
                },
            },
    {
        self.send_control_request("speed")
    }
}

} // verus!
