use auxscreen_host::cli::{EncoderArg, PortRange, ServeArgs, SourceArg};
use auxscreen_host::net::{IpAddress, SocketAddress};
use auxscreen_host::portal::CaptureInfo;
use auxscreen_host::protocol::{ClientMessage, ServerMessage, PROTOCOL_VERSION};
use auxscreen_host::server::{
    bus_error_action, check_client_hello, generate_session_token, handle_client_message, handshake_messages,
    token_from_bytes, validate_client_hello,
    AuthLimiter, BusErrorAction, ClientAction, HeartbeatState, ServerState, Session, SessionAction, SessionEvent,
    AUTH_WINDOW_NANOS, MAX_AUTH_FAILURES, TOKEN_LENGTH,
};

fn code_of(message: &ServerMessage) -> Option<&str> {
    match message {
        ServerMessage::Error { code, .. } => Some(code.as_str()),
        _ => None,
    }
}

fn hello(protocol: u32, token: &str) -> ClientMessage {
    ClientMessage::ClientHello {
        protocol,
        token: token.into(),
        device: "SM-X400".into(),
        max_width: 2112,
        max_height: 1320,
        max_fps: 60,
    }
}

#[test]
fn heartbeat_requires_matching_pong_and_times_out_after_three_misses() {
    let mut heartbeat = HeartbeatState::default();
    let first = heartbeat.next_ping().unwrap();
    heartbeat.acknowledge(first.wrapping_add(1));
    assert!(heartbeat.next_ping().is_some());
    assert!(heartbeat.next_ping().is_some());
    assert!(heartbeat.next_ping().is_none());

    heartbeat.acknowledge(heartbeat.nonce);
    assert!(heartbeat.next_ping().is_some());
}

#[test]
fn heartbeat_nonce_wraps() {
    let mut heartbeat = HeartbeatState { nonce: u64::MAX, missed: 0 };
    assert_eq!(heartbeat.next_ping(), Some(0));
    assert_eq!(heartbeat.missed, 1);
    heartbeat.acknowledge(0);
    assert_eq!(heartbeat.missed, 0);
}

#[test]
fn rate_limits_only_the_failing_peer() {
    let mut limiter = AuthLimiter::default();
    let noisy = IpAddress::v4(192, 168, 1, 7);
    let other = IpAddress::v4(192, 168, 1, 8);
    let now = 1_000_000u64;
    for _ in 0..MAX_AUTH_FAILURES {
        limiter.record_failure(noisy, now);
    }
    assert!(limiter.is_limited(noisy, now));
    assert!(!limiter.is_limited(other, now));
}

#[test]
fn rate_limit_forgets_failures_after_a_minute() {
    let mut limiter = AuthLimiter::new();
    let peer = IpAddress::V6(0xfe80_0000_0000_0000_0000_0000_0000_0007);
    for i in 0..MAX_AUTH_FAILURES as u64 {
        limiter.record_failure(peer, 10 + i);
    }
    assert!(limiter.is_limited(peer, 10 + AUTH_WINDOW_NANOS - 1));
    assert!(!limiter.is_limited(peer, 14 + AUTH_WINDOW_NANOS));
    // Four failures are not enough.
    let mut four = AuthLimiter::new();
    for _ in 0..4 {
        four.record_failure(peer, 5);
    }
    assert!(!four.is_limited(peer, 5));
    // IPv4 and IPv6 peers are told apart.
    let v4 = IpAddress::V4(7);
    assert!(!limiter.is_limited(v4, 20));
}

#[test]
fn validates_first_message_token_and_protocol() {
    let message = hello(PROTOCOL_VERSION, "secret");
    assert!(validate_client_hello(message.clone(), "secret").is_ok());
    assert!(matches!(
        validate_client_hello(message.clone(), "wrong"),
        Err(ServerMessage::Error { code, .. }) if code == "unauthorized"
    ));
    assert!(matches!(
        validate_client_hello(ClientMessage::Ping { nonce: 1 }, "secret"),
        Err(ServerMessage::Error { code, .. }) if code == "hello_required"
    ));
    let incompatible = hello(999, "secret");
    assert!(matches!(
        validate_client_hello(incompatible, "secret"),
        Err(ServerMessage::Error { code, .. }) if code == "protocol_mismatch"
    ));
}

#[test]
fn hello_errors_carry_their_texts() {
    assert_eq!(
        validate_client_hello(hello(2, "secret"), "secret").unwrap_err(),
        ServerMessage::error("protocol_mismatch", "host requires protocol 1")
    );
    // A wrong token is reported before a wrong protocol.
    assert_eq!(
        validate_client_hello(hello(2, "nope"), "secret").unwrap_err(),
        ServerMessage::error("unauthorized", "invalid session token")
    );
    assert_eq!(
        validate_client_hello(ClientMessage::Answer { sdp: "v=0".into() }, "secret").unwrap_err(),
        ServerMessage::error("hello_required", "first message must be client_hello")
    );
    let caps = validate_client_hello(hello(1, "secret"), "secret").unwrap();
    assert_eq!(caps.device, "SM-X400");
    assert_eq!((caps.max_width, caps.max_height, caps.max_fps), (2112, 1320, 60));
}

#[test]
fn admits_one_client_at_a_time_and_releases_the_slot() {
    let mut state = ServerState::new("secret".to_string(), false);
    let peer = IpAddress::v4(192, 168, 1, 20);
    assert!(state.try_connect(peer, 0).is_ok());
    assert!(state.is_connected());
    let busy = state.try_connect(IpAddress::v4(192, 168, 1, 21), 0).unwrap_err();
    assert_eq!(code_of(&busy), Some("busy"));
    state.disconnect();
    assert!(!state.is_connected());
    assert!(state.try_connect(peer, 1).is_ok());
}

#[test]
fn rejected_handshakes_count_only_when_unauthorized() {
    let mut state = ServerState::new("secret".to_string(), false);
    let peer = IpAddress::v4(192, 168, 1, 7);
    for payload in [ClientMessage::Ping { nonce: 1 }, hello(99, "secret")] {
        assert!(state.try_connect(peer, 0).is_ok());
        assert!(state.authenticate(peer, 0, payload).is_err());
        state.disconnect();
    }
    assert!(state.try_connect(peer, 0).is_ok());
    state.disconnect();
    for _ in 0..MAX_AUTH_FAILURES {
        assert!(state.try_connect(peer, 0).is_ok());
        let response = state.authenticate(peer, 0, hello(1, "wrong")).unwrap_err();
        assert_eq!(code_of(&response), Some("unauthorized"));
        state.disconnect();
    }
    let limited = state.try_connect(peer, 0).unwrap_err();
    assert_eq!(
        limited,
        ServerMessage::error("rate_limited", "too many invalid tokens; retry in one minute")
    );
    assert!(!state.is_connected());
    // Another peer is still welcome, and the right token still works.
    let other = IpAddress::v4(192, 168, 1, 8);
    assert!(state.try_connect(other, 0).is_ok());
    assert!(state.authenticate(other, 0, hello(1, "secret")).is_ok());
}

#[test]
fn busy_host_answers_busy_before_reading_a_hello() {
    let mut state = ServerState::new("secret".to_string(), false);
    assert!(state.try_connect(IpAddress::v4(10, 0, 0, 2), 0).is_ok());
    let response = state.try_connect(IpAddress::v4(10, 0, 0, 3), 0).unwrap_err();
    assert_eq!(response, ServerMessage::error("busy", "another tablet is already connected"));
}

#[test]
fn session_tokens_are_alphanumeric() {
    let a = generate_session_token().unwrap();
    let b = generate_session_token().unwrap();
    assert_eq!(a.chars().count(), TOKEN_LENGTH);
    assert!(a.chars().all(|c| c.is_ascii_alphanumeric()));
    assert!(b.chars().all(|c| c.is_ascii_alphanumeric()));
    assert_ne!(a, b);
}

#[test]
fn client_messages_map_to_actions() {
    assert!(matches!(
        handle_client_message(ClientMessage::Answer { sdp: "v=0".into() }),
        ClientAction::ApplyAnswer(s) if s == "v=0"
    ));
    assert!(matches!(
        handle_client_message(ClientMessage::IceCandidate {
            candidate: "c".into(),
            sdp_mid: None,
            sdp_mline_index: 2
        }),
        ClientAction::AddIceCandidate { index: 2, candidate } if candidate == "c"
    ));
    assert!(matches!(
        handle_client_message(ClientMessage::Ping { nonce: 9 }),
        ClientAction::Reply(ServerMessage::Pong { nonce: 9 })
    ));
    assert!(matches!(handle_client_message(ClientMessage::Pong { nonce: 4 }), ClientAction::Acknowledge(4)));
    assert!(matches!(
        handle_client_message(hello(1, "secret")),
        ClientAction::Reply(ServerMessage::Error { code, .. }) if code == "duplicate_hello"
    ));
    let stats = ClientMessage::ClientStats {
        rendered_fps_bits: 29.5f64.to_bits(),
        frames_decoded: None,
        frames_dropped: 0,
        bitrate_kbps_bits: None,
        jitter_ms_bits: None,
        rtt_ms_bits: None,
        packets_received: None,
        packets_lost: None,
        decoder: None,
    };
    assert!(matches!(handle_client_message(stats.clone()), ClientAction::LogStats(m) if m == stats));
}

#[test]
fn session_steps_follow_the_heartbeat() {
    let mut session = Session::new();
    let first = match session.step(SessionEvent::HeartbeatTick) {
        SessionAction::Send(ServerMessage::Ping { nonce }) => nonce,
        other => panic!("unexpected {other:?}"),
    };
    assert_eq!(first, 1);
    assert!(matches!(session.step(SessionEvent::Text(ClientMessage::Pong { nonce: first })), SessionAction::Nothing));
    assert_eq!(session.heartbeat.missed, 0);
    for _ in 0..3 {
        assert!(matches!(session.step(SessionEvent::HeartbeatTick), SessionAction::Send(ServerMessage::Ping { .. })));
    }
    match session.step(SessionEvent::HeartbeatTick) {
        SessionAction::Fail { reply, reason } => {
            assert_eq!(reply, ServerMessage::error("heartbeat_timeout", "client stopped responding"));
            assert_eq!(reason, "client heartbeat timed out");
        },
        other => panic!("unexpected {other:?}"),
    }
}

#[test]
fn session_steps_for_frames() {
    let mut session = Session::new();
    assert!(matches!(session.step(SessionEvent::Ping(vec![1, 2])), SessionAction::SendPong(d) if d == vec![1, 2]));
    assert!(matches!(session.step(SessionEvent::Pong), SessionAction::Nothing));
    assert!(matches!(session.step(SessionEvent::Close), SessionAction::Stop));
    assert!(matches!(session.step(SessionEvent::Ended), SessionAction::Stop));
    assert!(matches!(
        session.step(SessionEvent::Binary),
        SessionAction::Send(ServerMessage::Error { code, .. }) if code == "text_only"
    ));
    assert!(matches!(
        session.step(SessionEvent::Outbound(ServerMessage::Offer { sdp: "v=0".into() })),
        SessionAction::Send(ServerMessage::Offer { sdp }) if sdp == "v=0"
    ));
    assert!(matches!(
        session.step(SessionEvent::Text(ClientMessage::Ping { nonce: 3 })),
        SessionAction::Send(ServerMessage::Pong { nonce: 3 })
    ));
    assert!(matches!(
        session.step(SessionEvent::Text(ClientMessage::Answer { sdp: "v=0".into() })),
        SessionAction::ApplyAnswer(s) if s == "v=0"
    ));
}

#[test]
fn negotiation_failures_retry_with_the_gl_bridge_once() {
    assert!(matches!(
        bus_error_action("Internal data stream error: not-negotiated", false),
        BusErrorAction::RebuildWithGl
    ));
    assert!(matches!(bus_error_action("caps not negotiated", false), BusErrorAction::RebuildWithGl));
    match bus_error_action("caps not negotiated", true) {
        BusErrorAction::Fail(message) => {
            assert_eq!(message, ServerMessage::error("media_pipeline", "caps not negotiated"))
        },
        _ => panic!("expected failure"),
    }
    assert!(matches!(bus_error_action("device busy", false), BusErrorAction::Fail(_)));
}

#[test]
fn handshake_announces_the_stream() {
    let config = ServeArgs {
        source: SourceArg::Test,
        listen: SocketAddress { ip: IpAddress::v4(127, 0, 0, 1), port: 0 },
        ice_ip: "192.168.1.254".into(),
        ice_ports: PortRange { min: 9900, max: 9910 },
        encode_max_size: (1920, 1200),
        fps: 30,
        bitrate_kbps: 6000,
        encoder: EncoderArg::Auto,
        use_gl_fallback: false,
        no_auth: false,
    };
    let (ack, stream) = handshake_messages(&config, &CaptureInfo::test_pattern((2560, 1440)), (1920, 1080));
    assert_eq!(ack, ServerMessage::HelloAck { protocol: PROTOCOL_VERSION });
    assert_eq!(
        stream,
        ServerMessage::StreamConfig {
            source_width: 2560,
            source_height: 1440,
            encoded_width: 1920,
            encoded_height: 1080,
            fps: 30,
            bitrate_kbps: 6000,
        }
    );
}

#[test]
fn no_auth_accepts_any_token_and_counts_no_failure() {
    let mut state = ServerState::new("secret".to_string(), true);
    let peer = IpAddress::v4(192, 168, 1, 9);
    for _ in 0..(MAX_AUTH_FAILURES + 1) {
        assert!(state.try_connect(peer, 0).is_ok());
        let caps = state.authenticate(peer, 0, hello(1, "anything")).unwrap();
        assert_eq!(caps.device, "SM-X400");
        state.disconnect();
    }
    assert!(state.try_connect(peer, 0).is_ok());
    state.disconnect();
    // The protocol version is still checked.
    assert!(state.try_connect(peer, 0).is_ok());
    assert_eq!(
        state.authenticate(peer, 0, hello(7, "anything")).unwrap_err(),
        ServerMessage::error("protocol_mismatch", "host requires protocol 1")
    );
    assert!(check_client_hello(hello(1, "x"), "secret", true).is_ok());
    assert!(check_client_hello(hello(1, "x"), "secret", false).is_err());
}

#[test]
fn tokens_are_built_from_the_drawn_bytes() {
    assert_eq!(token_from_bytes(&b"aZ09".to_vec()), "aZ09");
    assert_eq!(token_from_bytes(&Vec::new()), "");
}

#[test]
fn only_the_last_minute_counts() {
    let mut limiter = AuthLimiter::default();
    let peer = IpAddress::v4(10, 0, 0, 5);
    // Five old failures, then four recent ones: not limited.
    for t in 0..5u64 {
        limiter.record_failure(peer, t);
    }
    for t in 0..4u64 {
        limiter.record_failure(peer, AUTH_WINDOW_NANOS + 10 + t);
    }
    assert!(!limiter.is_limited(peer, AUTH_WINDOW_NANOS + 20));
    // A fifth recent one: limited.
    limiter.record_failure(peer, AUTH_WINDOW_NANOS + 30);
    assert!(limiter.is_limited(peer, AUTH_WINDOW_NANOS + 40));
    // A minute after the earliest recent failure it no longer counts.
    assert!(!limiter.is_limited(peer, 2 * AUTH_WINDOW_NANOS + 10));
}
