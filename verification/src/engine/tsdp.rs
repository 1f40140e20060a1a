//! Logic of relayed RTP sessions set up over HTTP: SDP normalization, the
//! relay endpoints, the hole-punch message and the refresh schedule.
use crate::engine::urls::{edit_fits, edit_fits_exec, host_of, segments_chars, url_host, url_with_segments, with_segments};
use crate::text::{chars_of, decimal, find_char, first_index_of, str_equals, substring, to_decimal};
use vstd::prelude::*;
use vstd::string::StrSliceExecFns;
use vstd::string::StringSliceAdditionalSpecFns;

verus! {

/// `b` without the carriage returns and line feeds at its end.
pub open spec fn trim_line_breaks(b: Seq<u8>) -> Seq<u8>
    decreases b.len(),
{
    if b.len() > 0 && (b.last() == 13 || b.last() == 10) {
        trim_line_breaks(b.drop_last())
    } else {
        b
    }
}

/// Trimming keeps a prefix of `b` that does not end in a line break, and
/// removes only line breaks.
pub proof fn lemma_trim_removes_only_trailing_breaks(b: Seq<u8>)
    ensures
        trim_line_breaks(b).len() <= b.len(),
        trim_line_breaks(b) =~= b.take(trim_line_breaks(b).len() as int),
        trim_line_breaks(b).len() > 0 ==> trim_line_breaks(b).last() != 13 && trim_line_breaks(b).last() != 10,
        forall|j: int| trim_line_breaks(b).len() <= j < b.len() ==> (#[trigger] b[j] == 13 || b[j] == 10),
    decreases b.len(),
{
    if b.len() > 0 && (b.last() == 13 || b.last() == 10) {
        lemma_trim_removes_only_trailing_breaks(b.drop_last());
        let t = trim_line_breaks(b.drop_last());
        assert(b.drop_last().take(t.len() as int) =~= b.take(t.len() as int));
        assert forall|j: int| t.len() <= j < b.len() implies (#[trigger] b[j] == 13 || b[j] == 10) by {
            if j < b.len() - 1 {
                assert(b[j] == b.drop_last()[j]);
            }
        }
    } else {
        assert(b.take(b.len() as int) =~= b);
    }
}

/// `b` with every line feed written as carriage return and line feed.
pub open spec fn crlf_expanded(b: Seq<u8>) -> Seq<u8>
    decreases b.len(),
{
    if b.len() == 0 {
        Seq::empty()
    } else {
        crlf_expanded(b.drop_last()) + if b.last() == 10 { seq![13u8, 10u8] } else { seq![b.last()] }
    }
}

/// The SDP bytes handed to the demuxer: the text's bytes without trailing
/// line breaks, every line feed written as CRLF, and one final CRLF.
pub open spec fn normalized_sdp(text: Seq<u8>) -> Seq<u8> {
    crlf_expanded(trim_line_breaks(text)) + seq![13u8, 10u8]
}

proof fn lemma_trim_prefix(b: Seq<u8>, e: int)
    requires
        0 <= e <= b.len(),
        forall|j: int| e <= j < b.len() ==> (b[j] == 13 || b[j] == 10),
    ensures
        trim_line_breaks(b) == trim_line_breaks(b.take(e)),
    decreases b.len() - e,
{
    if e < b.len() {
        assert(b.drop_last().take(e) =~= b.take(e));
        lemma_trim_prefix(b.drop_last(), e);
    } else {
        assert(b.take(e) =~= b);
    }
}

proof fn lemma_expanded_last(b: Seq<u8>)
    requires
        b.len() > 0,
        b.last() != 10,
    ensures
        crlf_expanded(b).len() > 0,
        crlf_expanded(b).last() == b.last(),
{
}

/// Normalizes SDP text for the demuxer: trailing line breaks dropped, line
/// feeds written as CRLF, and the text ended with one CRLF.
pub fn ensure_sdp_line_endings(sdp_text: &str) -> (r: Vec<u8>)
    ensures
        r@ == normalized_sdp(sdp_text.spec_bytes()),
{
    let b = sdp_text.as_bytes();
    let mut e: usize = b.len();
    while e > 0 && (b[e - 1] == 13 || b[e - 1] == 10)
        invariant
            e <= b@.len(),
            forall|j: int| e <= j < b@.len() ==> (b@[j] == 13 || b@[j] == 10),
        decreases e,
    {
        e = e - 1;
    }
    proof {
        lemma_trim_prefix(b@, e as int);
        assert(trim_line_breaks(b@.take(e as int)) == b@.take(e as int)) by {
            if e > 0 {
                assert(b@.take(e as int).last() == b@[e - 1]);
            }
        }
    }
    let mut out: Vec<u8> = Vec::new();
    let mut i: usize = 0;
    while i < e
        invariant
            i <= e <= b@.len(),
            out@ == crlf_expanded(b@.take(i as int)),
        decreases e - i,
    {
        assert(b@.take(i + 1).drop_last() =~= b@.take(i as int));
        if b[i] == 10 {
            out.push(13);
            out.push(10);
        } else {
            out.push(b[i]);
        }
        assert(out@ =~= crlf_expanded(b@.take(i + 1)));
        i = i + 1;
    }
    let n = out.len();
    let ends_crlf = n >= 2 && out[n - 2] == 13 && out[n - 1] == 10;
    proof {
        if e > 0 {
            lemma_expanded_last(b@.take(e as int));
        }
        assert(!ends_crlf);
    }
    if !ends_crlf {
        out.push(13);
        out.push(10);
    }
    out
}

/// Number of line feed bytes in `b`.
pub open spec fn line_feeds(b: Seq<u8>) -> nat
    decreases b.len(),
{
    if b.len() == 0 {
        0
    } else {
        line_feeds(b.drop_last()) + if b.last() == 10 { 1nat } else { 0nat }
    }
}

proof fn lemma_line_feeds_concat(x: Seq<u8>, y: Seq<u8>)
    ensures
        line_feeds(x + y) == line_feeds(x) + line_feeds(y),
    decreases y.len(),
{
    if y.len() == 0 {
        assert(x + y =~= x);
    } else {
        assert((x + y).drop_last() =~= x + y.drop_last());
        lemma_line_feeds_concat(x, y.drop_last());
    }
}

/// In `b` with line feeds written as CRLF, every line feed follows a
/// carriage return, and there are as many line feeds as in `b`.
proof fn lemma_expanded_line_feeds(b: Seq<u8>)
    ensures
        forall|i: int| 0 <= i < crlf_expanded(b).len() && #[trigger] crlf_expanded(b)[i] == 10
            ==> i > 0 && crlf_expanded(b)[i - 1] == 13,
        line_feeds(crlf_expanded(b)) == line_feeds(b),
    decreases b.len(),
{
    if b.len() > 0 {
        let prev = crlf_expanded(b.drop_last());
        let tail: Seq<u8> = if b.last() == 10 { seq![13u8, 10u8] } else { seq![b.last()] };
        lemma_expanded_line_feeds(b.drop_last());
        lemma_line_feeds_concat(prev, tail);
        reveal_with_fuel(line_feeds, 3);
        assert(tail.drop_last().drop_last() =~= Seq::<u8>::empty() || tail.drop_last() =~= Seq::<u8>::empty());
        let e = crlf_expanded(b);
        assert(e =~= prev + tail);
        assert forall|i: int| 0 <= i < e.len() && #[trigger] e[i] == 10 implies i > 0 && e[i - 1] == 13 by {
            if i < prev.len() {
                assert(e[i] == prev[i]);
                assert(e[i - 1] == prev[i - 1]);
            } else if b.last() == 10 {
                if i == prev.len() {
                    assert(e[i] == 13);
                } else {
                    assert(e[i - 1] == tail[0]);
                }
            } else {
                assert(e[i] == b.last());
            }
        }
    }
}

/// `b` with its carriage returns left out.
pub open spec fn without_cr(b: Seq<u8>) -> Seq<u8>
    decreases b.len(),
{
    if b.len() == 0 {
        Seq::empty()
    } else {
        without_cr(b.drop_last()) + if b.last() == 13 { Seq::<u8>::empty() } else { seq![b.last()] }
    }
}

proof fn lemma_without_cr_concat(x: Seq<u8>, y: Seq<u8>)
    ensures
        without_cr(x + y) == without_cr(x) + without_cr(y),
    decreases y.len(),
{
    if y.len() == 0 {
        assert(x + y =~= x);
        assert(without_cr(x) + without_cr(y) =~= without_cr(x));
    } else {
        assert((x + y).drop_last() =~= x + y.drop_last());
        lemma_without_cr_concat(x, y.drop_last());
        let t: Seq<u8> = if y.last() == 13 { Seq::<u8>::empty() } else { seq![y.last()] };
        assert(without_cr(x) + without_cr(y.drop_last()) + t =~= without_cr(x) + (without_cr(y.drop_last()) + t));
    }
}

proof fn lemma_expanded_keeps_other_bytes(b: Seq<u8>)
    ensures
        without_cr(crlf_expanded(b)) == without_cr(b),
    decreases b.len(),
{
    if b.len() > 0 {
        let prev = crlf_expanded(b.drop_last());
        let tail: Seq<u8> = if b.last() == 10 { seq![13u8, 10u8] } else { seq![b.last()] };
        lemma_expanded_keeps_other_bytes(b.drop_last());
        lemma_without_cr_concat(prev, tail);
        reveal_with_fuel(without_cr, 3);
        assert(tail.drop_last().drop_last() =~= Seq::<u8>::empty() || tail.drop_last() =~= Seq::<u8>::empty());
        if b.last() == 10 {
            assert(tail.drop_last() =~= seq![13u8]);
            assert(seq![13u8].drop_last() =~= Seq::<u8>::empty());
            assert(without_cr(tail) =~= seq![10u8]);
        } else {
            assert(tail.drop_last() =~= Seq::<u8>::empty());
        }
    }
}

/// Normalizing only inserts carriage returns: with every carriage return
/// left out, the normalized SDP is the text without its trailing line
/// breaks, followed by one line feed.
pub proof fn lemma_normalized_sdp_keeps_the_text(text: Seq<u8>)
    ensures
        without_cr(normalized_sdp(text)) == without_cr(trim_line_breaks(text)).push(10u8),
{
    let core = crlf_expanded(trim_line_breaks(text));
    let end: Seq<u8> = seq![13u8, 10u8];
    lemma_expanded_keeps_other_bytes(trim_line_breaks(text));
    lemma_without_cr_concat(core, end);
    reveal_with_fuel(without_cr, 3);
    assert(end.drop_last() =~= seq![13u8]);
    assert(seq![13u8].drop_last() =~= Seq::<u8>::empty());
    assert(without_cr(end) =~= seq![10u8]);
    assert(normalized_sdp(text) =~= core + end);
}

/// In the normalized SDP every line feed follows a carriage return, and it
/// holds exactly one line feed more than the text without its trailing line
/// breaks: each of those line feeds, and the final one.
pub proof fn lemma_normalized_sdp_uses_crlf(text: Seq<u8>)
    ensures
        forall|i: int| 0 <= i < normalized_sdp(text).len() && #[trigger] normalized_sdp(text)[i] == 10
            ==> i > 0 && normalized_sdp(text)[i - 1] == 13,
        line_feeds(normalized_sdp(text)) == line_feeds(trim_line_breaks(text)) + 1,
{
    let core = crlf_expanded(trim_line_breaks(text));
    let end: Seq<u8> = seq![13u8, 10u8];
    lemma_expanded_line_feeds(trim_line_breaks(text));
    lemma_line_feeds_concat(core, end);
    reveal_with_fuel(line_feeds, 3);
    assert(end.drop_last().drop_last() =~= Seq::<u8>::empty());
    let r = normalized_sdp(text);
    assert(r =~= core + end);
    assert forall|i: int| 0 <= i < r.len() && #[trigger] r[i] == 10 implies i > 0 && r[i - 1] == 13 by {
        if i < core.len() {
            assert(r[i] == core[i]);
            assert(r[i - 1] == core[i - 1]);
        } else if i == core.len() {
            assert(r[i] == 13);
        } else {
            assert(r[i - 1] == 13);
        }
    }
}

/// The normalized SDP always ends with CRLF.
pub proof fn lemma_normalized_sdp_ends_with_crlf(text: Seq<u8>)
    ensures
        normalized_sdp(text).len() >= 2,
        normalized_sdp(text)[normalized_sdp(text).len() - 2] == 13,
        normalized_sdp(text).last() == 10,
{
}

/// Port announced for the relay: the configured one, else a port picked
/// by the caller.
pub fn announce_port(client_port: Option<u16>, picked: u16) -> (r: u16)
    ensures
        r == (match client_port {
            Some(p) => p,
            None => picked,
        }),
{
    match client_port {
        Some(p) => p,
        None => picked,
    }
}

/// Seconds between refreshes of the relay registration: as announced by
/// the relay, 10 when it announces nothing, and at least 1.
pub fn refresh_interval_secs(announced: Option<u64>) -> (r: u64)
    ensures
        r == (match announced {
            Some(s) => if s >= 1 { s } else { 1 },
            None => 10,
        }),
{
    let secs: u64 = match announced {
        Some(s) => s,
        None => 10,
    };
    if secs >= 1 { secs } else { 1 }
}

/// What the refresh loop does when its wait ends.
#[derive(Debug, Clone, Copy, PartialEq, Eq, Structural)]
pub enum RefreshWait {
    /// The wait ran out: refresh the registration.
    TimedOut,
    /// Stop was requested.
    Stopped,
    /// The session went away.
    Disconnected,
}

/// Whether the refresh loop refreshes (rather than ending) after a wait.
pub fn refresh_after_wait(wait: RefreshWait) -> (refresh: bool)
    ensures
        refresh == (wait == RefreshWait::TimedOut),
{
    match wait {
        RefreshWait::TimedOut => true,
        _ => false,
    }
}

/// The message that opens the NAT mapping towards the relay.
pub open spec fn holepunch_text(token: Seq<char>, client_port: u16) -> Seq<char> {
    "t5rtp "@ + token + " "@ + decimal(client_port as nat)
}

/// The hole-punch message for `token` from local port `client_port`.
pub fn holepunch_payload(token: &str, client_port: u16) -> (r: String)
    ensures
        r@ == holepunch_text(token@, client_port),
{
    let mut r = String::from_str("t5rtp ");
    r.append(token);
    r.append(" ");
    r.append(to_decimal(client_port as u64).as_str());
    r
}

/// Whether a host, as a URL serializes it (an IPv6 address in brackets),
/// designates this machine.
pub open spec fn is_loopback_name(host: Seq<char>) -> bool {
    host == "localhost"@ || host == "127.0.0.1"@ || host == "[::1]"@
}

/// Whether the relay's base URL points at this machine.
pub fn is_loopback_host(base_url: &str) -> (r: bool)
    ensures
        r == (match url_host(base_url@) {
            Some(h) => is_loopback_name(h),
            None => false,
        }),
{
    match host_of(base_url) {
        Some(h) => str_equals(h.as_str(), "localhost") || str_equals(h.as_str(), "127.0.0.1")
            || str_equals(h.as_str(), "[::1]"),
        None => false,
    }
}

/// What to do about the hole punch the relay may ask for.
#[derive(Debug, Clone, Copy, PartialEq, Eq, Structural)]
pub enum HolepunchDecision {
    /// Not asked for.
    NotRequired,
    /// Asked for, but the relay is on this machine.
    SkipLoopback,
    /// Send it.
    Send,
}

/// Sends the hole punch only when asked for and the relay is not local.
pub fn holepunch_decision(required: bool, loopback: bool) -> (r: HolepunchDecision)
    ensures
        !required ==> r == HolepunchDecision::NotRequired,
        required && loopback ==> r == HolepunchDecision::SkipLoopback,
        required && !loopback ==> r == HolepunchDecision::Send,
{
    if !required {
        HolepunchDecision::NotRequired
    } else if loopback {
        HolepunchDecision::SkipLoopback
    } else {
        HolepunchDecision::Send
    }
}

/// Path segments of a relay resource of a source: `streams/<id>/rtp`, then
/// `tail` when given.
pub open spec fn relay_segments(source_id: Seq<char>, tail: Option<Seq<char>>) -> Seq<Seq<char>> {
    match tail {
        Some(t) => seq!["streams"@, source_id, "rtp"@, t],
        None => seq!["streams"@, source_id, "rtp"@],
    }
}

/// The URL of a relay resource of a source: the base URL with the relay
/// segments appended; `None` when the base URL does not parse, cannot take
/// path segments, or is too long to edit.
pub open spec fn relay_url(base_url: Seq<char>, source_id: Seq<char>, tail: Option<Seq<char>>) -> Option<Seq<char>> {
    let segments = relay_segments(source_id, tail);
    if edit_fits(base_url, segments_chars(segments)) {
        url_with_segments(base_url, segments)
    } else {
        None
    }
}

/// The relay segments write `streams/`, the source id, `/rtp/` and the tail
/// with its separator.
proof fn lemma_relay_segments_chars(source_id: Seq<char>, tail: Option<Seq<char>>)
    ensures
        segments_chars(relay_segments(source_id, tail)) == 13 + source_id.len() + match tail {
            Some(t) => t.len() + 1,
            None => 0,
        },
{
    reveal_strlit("streams");
    reveal_strlit("rtp");
    let segs = relay_segments(source_id, tail);
    reveal_with_fuel(segments_chars, 5);
    match tail {
        Some(t) => {
            assert(segs.drop_last() =~= seq!["streams"@, source_id, "rtp"@]);
            assert(segs.drop_last().drop_last() =~= seq!["streams"@, source_id]);
            assert(segs.drop_last().drop_last().drop_last() =~= seq!["streams"@]);
            assert(segs.drop_last().drop_last().drop_last().drop_last() =~= Seq::<Seq<char>>::empty());
        },
        None => {
            assert(segs.drop_last() =~= seq!["streams"@, source_id]);
            assert(segs.drop_last().drop_last() =~= seq!["streams"@]);
            assert(segs.drop_last().drop_last().drop_last() =~= Seq::<Seq<char>>::empty());
        },
    }
}

/// The URL of a relay resource of a source: the base URL with the relay
/// segments appended.
pub fn build_url(base_url: &str, source_id: &str, tail: Option<&str>) -> (r: Option<String>)
    ensures
        match relay_url(base_url@, source_id@, match tail { Some(t) => Some(t@), None => None }) {
            Some(u) => (r matches Some(s) && s@ == u),
            None => r is None,
        },
{
    let mut segments: Vec<String> = Vec::new();
    segments.push(String::from_str("streams"));
    segments.push(String::from_str(source_id));
    segments.push(String::from_str("rtp"));
    match tail {
        Some(t) => segments.push(String::from_str(t)),
        None => {},
    }
    let ghost tv = match tail { Some(t) => Some(t@), None => None };
    proof {
        reveal_strlit("streams");
        reveal_strlit("rtp");
        assert(segments@.map_values(|x: String| x@) =~= relay_segments(source_id@, tv));
        lemma_relay_segments_chars(source_id@, tv);
    }
    let id_len = source_id.unicode_len();
    let tail_len: usize = match tail {
        Some(t) => t.unicode_len(),
        None => 0,
    };
    if id_len >= 268435456 || tail_len >= 268435456 {
        return None;
    }
    let added: usize = match tail {
        Some(_) => 13 + id_len + tail_len + 1,
        None => 13 + id_len,
    };
    if !edit_fits_exec(base_url, added) {
        return None;
    }
    with_segments(base_url, &segments)
}

/// A line without the carriage return that ended it.
pub open spec fn strip_cr(l: Seq<char>) -> Seq<char> {
    if l.len() > 0 && l.last() == '\r' { l.drop_last() } else { l }
}

/// The lines of `s` as the standard library splits them: at each line
/// feed, dropping a carriage return just before it; a final line feed
/// starts no further line.
pub open spec fn lines_of(s: Seq<char>) -> Seq<Seq<char>>
    decreases s.len(),
{
    if s.len() == 0 {
        Seq::empty()
    } else {
        match first_index_of(s, '\n') {
            Some(i) => {
                proof {
                    crate::text::lemma_first_index_of_bounds(s, '\n');
                }
                seq![strip_cr(s.take(i))] + lines_of(s.skip(i + 1))
            },
            None => seq![s],
        }
    }
}

/// Lines joined with line feeds.
pub open spec fn joined(ls: Seq<Seq<char>>) -> Seq<char>
    decreases ls.len(),
{
    if ls.len() == 0 {
        Seq::empty()
    } else if ls.len() == 1 {
        ls[0]
    } else {
        ls[0] + "\n"@ + joined(ls.drop_first())
    }
}

/// Lines of an SDP shown in the log.
pub const PREVIEW_LINES: usize = 8;

/// The first lines of the SDP, joined; `None` when it has no line.
pub open spec fn sdp_preview_text(s: Seq<char>) -> Option<Seq<char>> {
    let ls = lines_of(s);
    if ls.len() == 0 {
        None
    } else {
        Some(joined(ls.take(if ls.len() < PREVIEW_LINES { ls.len() as int } else { PREVIEW_LINES as int })))
    }
}

proof fn lemma_joined_push(ls: Seq<Seq<char>>, l: Seq<char>)
    requires
        ls.len() > 0,
    ensures
        joined(ls.push(l)) == joined(ls) + "\n"@ + l,
    decreases ls.len(),
{
    if ls.len() == 1 {
        assert(ls.push(l).drop_first() =~= seq![l]);
        assert(joined(seq![l]) == l);
        assert(ls.push(l)[0] == ls[0]);
    } else {
        assert(ls.push(l).drop_first() =~= ls.drop_first().push(l));
        lemma_joined_push(ls.drop_first(), l);
        assert(ls.push(l)[0] == ls[0]);
        let a = ls[0];
        let b = joined(ls.drop_first());
        assert(a + "\n"@ + (b + "\n"@ + l) =~= (a + "\n"@ + b) + "\n"@ + l);
    }
}

proof fn lemma_lines_take(ls: Seq<Seq<char>>, rest: Seq<Seq<char>>, n: int)
    requires
        0 <= n,
        ls.len() == n,
    ensures
        (ls + rest).take(n) == ls,
{
    assert((ls + rest).take(n) =~= ls);
}

/// The first lines of an SDP text joined for the log; `None` when the text
/// has no line.
pub fn log_sdp_preview(sdp_text: &str) -> (r: Option<String>)
    ensures
        match sdp_preview_text(sdp_text@) {
            Some(t) => (r matches Some(x) && x@ == t),
            None => r is None,
        },
{
    let mut rest = String::from_str(sdp_text);
    let mut out = String::new();
    let mut count: usize = 0;
    let ghost mut taken: Seq<Seq<char>> = Seq::empty();
    while count < PREVIEW_LINES
        invariant
            count <= PREVIEW_LINES,
            taken.len() == count,
            lines_of(sdp_text@) == taken + lines_of(rest@),
            count > 0 ==> out@ == joined(taken),
            count == 0 ==> out@ == Seq::<char>::empty(),
        ensures
            count <= PREVIEW_LINES,
            taken.len() == count,
            lines_of(sdp_text@) == taken + lines_of(rest@),
            count > 0 ==> out@ == joined(taken),
            count == PREVIEW_LINES || rest@.len() == 0,
        decreases PREVIEW_LINES - count, rest@.len(),
    {
        let chars = chars_of(rest.as_str());
        if chars.len() == 0 {
            assert(rest@.len() == 0);
            break;
        }
        let len = chars.len();
        let (line, next) = match find_char(&chars, '\n') {
            Some(i) => {
                let mut line_end = i;
                if i > 0 && chars[i - 1] == '\r' {
                    line_end = i - 1;
                }
                let line = substring(rest.as_str(), 0, line_end);
                let next = substring(rest.as_str(), i + 1, len);
                proof {
                    assert(line@ =~= strip_cr(rest@.take(i as int)));
                    assert(next@ =~= rest@.skip(i + 1));
                    assert(lines_of(rest@) == seq![line@] + lines_of(next@));
                }
                (line, next)
            },
            None => {
                let line = substring(rest.as_str(), 0, len);
                let next = String::new();
                proof {
                    assert(line@ =~= rest@);
                    assert(lines_of(rest@) == seq![line@]);
                    assert(lines_of(next@) =~= Seq::<Seq<char>>::empty());
                    assert(seq![line@] + lines_of(next@) =~= seq![line@]);
                }
                (line, next)
            },
        };
        if count > 0 {
            out.append("\n");
        }
        out.append(line.as_str());
        proof {
            if count > 0 {
                lemma_joined_push(taken, line@);
            } else {
                assert(taken.push(line@) =~= seq![line@]);
            }
            assert(taken + lines_of(rest@) =~= taken.push(line@) + lines_of(next@));
            taken = taken.push(line@);
        }
        rest = next;
        count = count + 1;
    }
    proof {
        let ls = lines_of(sdp_text@);
        if count < PREVIEW_LINES {
            assert(rest@.len() == 0);
            assert(lines_of(rest@).len() == 0);
            assert(ls =~= taken);
            assert(ls.take(ls.len() as int) =~= ls);
        } else {
            lemma_lines_take(taken, lines_of(rest@), PREVIEW_LINES as int);
            assert(ls.len() >= PREVIEW_LINES);
            assert(ls.take(PREVIEW_LINES as int) == taken);
        }
    }
    if count == 0 {
        None
    } else {
        Some(out)
    }
}

} // verus!
