//! Messages of the JSON signaling protocol between the host and the Android client.
use vstd::prelude::*;

verus! {

/// The signaling protocol version that this host speaks.
pub const PROTOCOL_VERSION: u32 = 1;

/// A message from the client. Floating-point statistics travel as the IEEE-754
/// bit patterns of their `f64` values.
#[derive(Debug, Clone, PartialEq)]
pub enum ClientMessage {
    ClientHello {
        protocol: u32,
        token: String,
        device: String,
        max_width: u32,
        max_height: u32,
        max_fps: u32,
    },
    Answer { sdp: String },
    IceCandidate { candidate: String, sdp_mid: Option<String>, sdp_mline_index: u32 },
    Ping { nonce: u64 },
    Pong { nonce: u64 },
    ClientStats {
        rendered_fps_bits: u64,
        frames_decoded: Option<u64>,
        frames_dropped: u64,
        bitrate_kbps_bits: Option<u64>,
        jitter_ms_bits: Option<u64>,
        rtt_ms_bits: Option<u64>,
        packets_received: Option<u64>,
        packets_lost: Option<i64>,
        decoder: Option<String>,
    },
}

/// A message from the host.
#[derive(Debug, Clone, PartialEq)]
pub enum ServerMessage {
    HelloAck { protocol: u32 },
    Offer { sdp: String },
    IceCandidate { candidate: String, sdp_mid: Option<String>, sdp_mline_index: u32 },
    StreamConfig {
        source_width: u32,
        source_height: u32,
        encoded_width: u32,
        encoded_height: u32,
        fps: u32,
        bitrate_kbps: u32,
    },
    Ping { nonce: u64 },
    Pong { nonce: u64 },
    Error { code: String, message: String },
}

/// Whether `m` is an `error` message with this code and text.
pub open spec fn is_error(m: ServerMessage, code: Seq<char>, message: Seq<char>) -> bool {
    match m {
        ServerMessage::Error { code: c, message: t } => c@ == code && t@ == message,
        _ => false,
    }
}

/// The code of an `error` message.
pub open spec fn error_code(m: ServerMessage) -> Option<Seq<char>> {
    match m {
        ServerMessage::Error { code, .. } => Some(code@),
        _ => None,
    }
}

impl ServerMessage {
    /// An `error` message with the given code and human-readable text.
    pub fn error(code: &str, message: &str) -> (m: ServerMessage)
        ensures
            is_error(m, code@, message@),
    {
        ServerMessage::Error { code: String::from_str(code), message: String::from_str(message) }
    }
}

} // verus!
