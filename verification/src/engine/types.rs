use vstd::prelude::*;

verus! {

/// Width and height of a video surface, in pixels.
#[derive(Debug, Clone, Copy, PartialEq, Eq, Structural)]
pub struct VideoDimensions {
    pub width: u32,
    pub height: u32,
}

/// What a decoding session needs to know about the stream it plays.
#[derive(Debug, Clone)]
pub struct VideoInfo {
    pub uri: String,
    pub framerate: Option<i32>,
    pub mute: bool,
    pub auto_restart: bool,
}

impl VideoInfo {
    /// Builds the description; the dimensions argument is accepted and
    /// ignored, and absent flags default to `false`.
    pub fn new(
        uri: String,
        dimensions: VideoDimensions,
        framerate: Option<i32>,
        mute: Option<bool>,
        auto_restart: Option<bool>,
    ) -> (v: Self)
        ensures
            v.uri@ == uri@,
            v.framerate == framerate,
            v.mute == (mute == Some(true)),
            v.auto_restart == (auto_restart == Some(true)),
    {
        let _ = dimensions;
        VideoInfo {
            uri,
            framerate,
            mute: match mute {
                Some(m) => m,
                None => false,
            },
            auto_restart: match auto_restart {
                Some(a) => a,
                None => false,
            },
        }
    }
}

/// Configuration of a WebSocket-controlled RTP session.
#[derive(Debug, Clone)]
pub struct WscRtpSessionConfig {
    pub base_url: String,
    pub source_id: String,
    pub client_port: Option<u16>,
    /// Skip UDP negotiation and use WebSocket for RTP delivery from the start.
    pub force_websocket_transport: bool,
    pub auto_restart: bool,
}

/// Configuration of a session played by a generic media pipeline.
#[derive(Debug, Clone)]
pub struct PlaybinConfig {
    pub uri: String,
    pub mute: bool,
}

/// Where a relayed RTP stream is registered and fetched.
#[derive(Debug, Clone)]
pub struct TsdpEndpoint {
    pub base_url: String,
    pub source_id: String,
    pub client_port: Option<u16>,
}

/// The kinds of session a client can ask for.
#[derive(Debug, Clone)]
pub enum VideoConfig {
    WscRtp(WscRtpSessionConfig),
    Playbin(PlaybinConfig),
}

} // verus!
