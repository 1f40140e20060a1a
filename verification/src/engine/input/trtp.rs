//! Logic of relayed RTP sessions controlled over a WebSocket: the endpoint,
//! the messages sent for commands, and the state kept from server messages.
use crate::engine::urls::{build_websocket_endpoint, websocket_endpoint, UrlError};
use vstd::prelude::*;

verus! {

/// Path of the TRTP WebSocket of a source.
pub open spec fn trtp_path(source_id: Seq<char>) -> Seq<char> {
    "/streams/"@ + source_id + "/trtp"@
}

/// The TRTP WebSocket URL of a source on the server at `base_url`: the
/// scheme switched to its WebSocket counterpart, the source's path, no query.
pub fn build_trtp_url(base_url: &str, source_id: &str) -> (r: Result<String, UrlError>)
    ensures
        match websocket_endpoint(base_url@, trtp_path(source_id@), None) {
            Ok(u) => (r matches Ok(s) && s@ == u),
            Err(e) => r == Err::<String, UrlError>(e),
        },
{
    let mut path = String::from_str("/streams/");
    path.append(source_id);
    path.append("/trtp");
    build_websocket_endpoint(base_url, path.as_str(), None)
}

/// Commands a TRTP session takes from the UI.
#[derive(Debug, Clone, Copy, PartialEq, Eq, Structural)]
pub enum TrtpCommand {
    Seek { timestamp_ms: i64 },
    Live,
    Terminate,
}

/// Messages sent to the server.
#[derive(Debug, Clone, Copy, PartialEq, Eq, Structural)]
pub enum ClientMessage {
    Init { client_port: Option<u16> },
    Seek { timestamp: u64 },
    Live,
    Ping,
}

/// What a command leads to.
#[derive(Debug, Clone, Copy, PartialEq, Eq, Structural)]
pub enum CommandStep {
    /// Send this message.
    Send(ClientMessage),
    /// Close the socket and end the session.
    Close,
}

/// A seek is sent with its timestamp clamped at 0; live is sent as is;
/// terminate closes the session.
pub fn command_message(command: TrtpCommand) -> (r: CommandStep)
    ensures
        r == match command {
            TrtpCommand::Seek { timestamp_ms } => CommandStep::Send(ClientMessage::Seek {
                timestamp: if timestamp_ms < 0 { 0u64 } else { timestamp_ms as u64 },
            }),
            TrtpCommand::Live => CommandStep::Send(ClientMessage::Live),
            TrtpCommand::Terminate => CommandStep::Close,
        },
{
    match command {
        TrtpCommand::Seek { timestamp_ms } => {
            let t: u64 = if timestamp_ms < 0 { 0 } else { timestamp_ms as u64 };
            CommandStep::Send(ClientMessage::Seek { timestamp: t })
        },
        TrtpCommand::Live => CommandStep::Send(ClientMessage::Live),
        TrtpCommand::Terminate => CommandStep::Close,
    }
}

/// The first message of a session: the port announced for RTP.
pub fn init_message(announce_port: u16) -> (r: ClientMessage)
    ensures
        r == (ClientMessage::Init { client_port: Some(announce_port) }),
{
    ClientMessage::Init { client_port: Some(announce_port) }
}

/// Messages the server sends.
#[derive(Debug, Clone)]
pub enum ServerMessage {
    Init { token: String, server_port: u16, udp_holepunch_required: bool },
    Sdp { sdp: String },
    StreamState { state: String },
    SessionMode { is_live: bool, current_time_ms: u64 },
    Error { message: String },
    Pong,
}

/// Events reported to the UI.
#[derive(Debug, Clone)]
pub enum TrtpEvent {
    StreamState(String),
    SessionMode { is_live: bool, current_time_ms: i64 },
    Error(String),
}

/// What the session has learnt from the server.
pub struct TrtpState {
    pub token: Option<String>,
    pub server_port: Option<u16>,
    pub sdp_sent: bool,
}

/// What a server message leads to: a hole punch to send (token, server
/// port), an SDP outcome to hand to the waiting setup, an event to report.
pub struct ServerEffect {
    pub holepunch: Option<(String, u16)>,
    pub deliver_sdp: Option<Result<String, String>>,
    pub event: Option<TrtpEvent>,
}

/// Prefix of the error handed to the setup when the server fails first.
pub open spec fn trtp_error_text(message: Seq<char>) -> Seq<char> {
    "TRTP error: "@ + message
}

impl TrtpState {
    /// Nothing learnt yet.
    pub fn new() -> (s: Self)
        ensures
            s.token is None,
            s.server_port is None,
            !s.sdp_sent,
    {
        TrtpState { token: None, server_port: None, sdp_sent: false }
    }

    /// Takes a server message. `Init` records the token and port and asks
    /// for a hole punch when the server wants one; the first `Sdp` is handed
    /// on; states and modes are reported; an error is reported and, before
    /// any SDP was handed on, handed on as the setup's failure.
    pub fn handle_server_message(&mut self, message: ServerMessage) -> (r: ServerEffect)
        ensures
            old(self).sdp_sent ==> final(self).sdp_sent && r.deliver_sdp is None,
            r.deliver_sdp is Some ==> !old(self).sdp_sent && final(self).sdp_sent,
            !(message is Init) ==> final(self).token == old(self).token && final(self).server_port == old(self).server_port,
            match message {
                ServerMessage::Init { token, server_port, udp_holepunch_required } => {
                    &&& (final(self).token matches Some(t) && t@ == token@)
                    &&& final(self).server_port == Some(server_port)
                    &&& final(self).sdp_sent == old(self).sdp_sent
                    &&& udp_holepunch_required ==> (r.holepunch matches Some((t, p)) && t@ == token@ && p == server_port)
                    &&& !udp_holepunch_required ==> r.holepunch is None
                    &&& r.deliver_sdp is None && r.event is None
                },
                ServerMessage::Sdp { sdp } => {
                    &&& final(self).sdp_sent
                    &&& final(self).token == old(self).token && final(self).server_port == old(self).server_port
                    &&& !old(self).sdp_sent ==> (r.deliver_sdp matches Some(Ok(s)) && s@ == sdp@)
                    &&& old(self).sdp_sent ==> r.deliver_sdp is None
                    &&& r.holepunch is None && r.event is None
                },
                ServerMessage::StreamState { state } => {
                    &&& final(self).sdp_sent == old(self).sdp_sent
                    &&& (r.event matches Some(TrtpEvent::StreamState(s)) && s@ == state@)
                    &&& r.holepunch is None && r.deliver_sdp is None
                },
                ServerMessage::SessionMode { is_live, current_time_ms } => {
                    &&& final(self).sdp_sent == old(self).sdp_sent
                    &&& (r.event matches Some(TrtpEvent::SessionMode { is_live: l, current_time_ms: t })
                        && l == is_live && t == current_time_ms as i64)
                    &&& r.holepunch is None && r.deliver_sdp is None
                },
                ServerMessage::Error { message } => {
                    &&& final(self).sdp_sent
                    &&& (r.event matches Some(TrtpEvent::Error(m)) && m@ == message@)
                    &&& !old(self).sdp_sent ==> (r.deliver_sdp matches Some(Err(e)) && e@ == trtp_error_text(message@))
                    &&& old(self).sdp_sent ==> r.deliver_sdp is None
                    &&& r.holepunch is None
                },
                ServerMessage::Pong => {
                    &&& final(self).sdp_sent == old(self).sdp_sent
                    &&& r.holepunch is None && r.deliver_sdp is None && r.event is None
                },
            },
    {
        match message {
            ServerMessage::Init { token, server_port, udp_holepunch_required } => {
                let copy = crate::text::copy_string(&token);
                self.token = Some(token);
                self.server_port = Some(server_port);
                let holepunch = if udp_holepunch_required { Some((copy, server_port)) } else { None };
                ServerEffect { holepunch, deliver_sdp: None, event: None }
            },
            ServerMessage::Sdp { sdp } => {
                if !self.sdp_sent {
                    self.sdp_sent = true;
                    ServerEffect { holepunch: None, deliver_sdp: Some(Ok(sdp)), event: None }
                } else {
                    ServerEffect { holepunch: None, deliver_sdp: None, event: None }
                }
            },
            ServerMessage::StreamState { state } => ServerEffect {
                holepunch: None,
                deliver_sdp: None,
                event: Some(TrtpEvent::StreamState(state)),
            },
            ServerMessage::SessionMode { is_live, current_time_ms } => ServerEffect {
                holepunch: None,
                deliver_sdp: None,
                event: Some(TrtpEvent::SessionMode { is_live, current_time_ms: current_time_ms as i64 }),
            },
            ServerMessage::Error { message } => {
                let mut deliver: Option<Result<String, String>> = None;
                if !self.sdp_sent {
                    let mut text = String::from_str("TRTP error: ");
                    text.append(message.as_str());
                    deliver = Some(Err(text));
                    self.sdp_sent = true;
                }
                ServerEffect { holepunch: None, deliver_sdp: deliver, event: Some(TrtpEvent::Error(message)) }
            },
            ServerMessage::Pong => ServerEffect { holepunch: None, deliver_sdp: None, event: None },
        }
    }
}

/// Kinds of WebSocket frames.
#[derive(Debug, Clone, Copy, PartialEq, Eq, Structural)]
pub enum FrameKind {
    Text,
    Binary,
    Ping,
    Pong,
    Close,
    Other,
}

/// What is done with a received frame.
#[derive(Debug, Clone, Copy, PartialEq, Eq, Structural)]
pub enum FrameHandling {
    /// Answer with a pong carrying the same payload.
    AnswerPing,
    /// Parse the text as a server message.
    ParseText,
    /// Parse the payload as a server message.
    ParseBinary,
    /// A pong from the server.
    ServerPong,
    /// Nothing to do.
    Nothing,
}

/// How a received frame is handled.
pub fn decode_message(kind: FrameKind) -> (r: FrameHandling)
    ensures
        r == match kind {
            FrameKind::Text => FrameHandling::ParseText,
            FrameKind::Binary => FrameHandling::ParseBinary,
            FrameKind::Ping => FrameHandling::AnswerPing,
            FrameKind::Pong => FrameHandling::ServerPong,
            FrameKind::Close => FrameHandling::Nothing,
            FrameKind::Other => FrameHandling::Nothing,
        },
{
    match kind {
        FrameKind::Text => FrameHandling::ParseText,
        FrameKind::Binary => FrameHandling::ParseBinary,
        FrameKind::Ping => FrameHandling::AnswerPing,
        FrameKind::Pong => FrameHandling::ServerPong,
        FrameKind::Close => FrameHandling::Nothing,
        FrameKind::Other => FrameHandling::Nothing,
    }
}

/// The outcome of a non-blocking read.
#[derive(Debug, Clone, Copy, PartialEq, Eq, Structural)]
pub enum ReadOutcome {
    Frame(FrameKind),
    WouldBlock,
    Closed,
    Failed,
}

/// What the session loop does after a read.
#[derive(Debug, Clone, Copy, PartialEq, Eq, Structural)]
pub enum ReadStep {
    Handle(FrameHandling),
    Idle,
    EndOk,
    EndWithError,
}

/// A frame is handled, nothing to read idles, a closed socket ends the
/// session normally and any other error ends it with that error.
pub fn read_step(outcome: ReadOutcome) -> (r: ReadStep)
    ensures
        r == match outcome {
            ReadOutcome::Frame(k) => ReadStep::Handle(match k {
                FrameKind::Text => FrameHandling::ParseText,
                FrameKind::Binary => FrameHandling::ParseBinary,
                FrameKind::Ping => FrameHandling::AnswerPing,
                FrameKind::Pong => FrameHandling::ServerPong,
                FrameKind::Close => FrameHandling::Nothing,
                FrameKind::Other => FrameHandling::Nothing,
            }),
            ReadOutcome::WouldBlock => ReadStep::Idle,
            ReadOutcome::Closed => ReadStep::EndOk,
            ReadOutcome::Failed => ReadStep::EndWithError,
        },
{
    match outcome {
        ReadOutcome::Frame(k) => ReadStep::Handle(decode_message(k)),
        ReadOutcome::WouldBlock => ReadStep::Idle,
        ReadOutcome::Closed => ReadStep::EndOk,
        ReadOutcome::Failed => ReadStep::EndWithError,
    }
}

/// Milliseconds between pings.
pub const PING_INTERVAL_MS: u64 = 15000;

/// Whether a ping is due after `elapsed_ms` since the last one.
pub fn ping_due(elapsed_ms: u64) -> (r: bool)
    ensures
        r == (elapsed_ms >= PING_INTERVAL_MS),
{
    elapsed_ms >= PING_INTERVAL_MS
}

/// Ports picked before settling for an odd one.
pub const EVEN_PORT_TRIES: u32 = 20;

/// Whether the port picked at attempt `attempt` (from 0) is used: RTP wants
/// an even port; after the allowed attempts any port is taken.
pub fn pick_ephemeral_rtp_port(attempt: u32, port: u16) -> (accept: bool)
    ensures
        accept == (port % 2 == 0 || attempt >= EVEN_PORT_TRIES),
{
    port % 2 == 0 || attempt >= EVEN_PORT_TRIES
}

} // verus!
