use buzz::connection::NextFrame;
use buzz::fips_mobile::{
    input, session_outcome, Bridge, BridgeStatus, ReceiveStep, SessionError, SessionStatus,
};
use buzz::fips_runtime::{
    discovery_config, local_advert, run, serve_stream, spawn, FipsConfig, OverlayTransportKind,
    ResponderAction, ResponderEvent, StreamAction, StreamEvent,
};
use buzz::transport::RelayFrame;

const NOT_CONNECTED: SessionError = SessionError::Status(SessionStatus::NotConnected);

/// The buffer of `len` bytes behind a pointer that is null.
fn null_buffer(len: usize) -> Option<Vec<u8>> {
    if input(true, len) {
        Some(Vec::new())
    } else {
        None
    }
}

#[test]
fn start_creates_an_idle_session() {
    let mut bridge = Bridge::new();
    assert_eq!(bridge.buzz_fips_mobile_stop(true), BridgeStatus::Stopped);
    assert_eq!(
        bridge.buzz_fips_mobile_start(true, SessionStatus::Idle).code(),
        BridgeStatus::Running.code()
    );
    assert_eq!(
        bridge.buzz_fips_mobile_status(SessionStatus::Idle),
        BridgeStatus::Running
    );
}

#[test]
fn stop_is_idempotent() {
    let mut bridge = Bridge::new();
    assert_eq!(bridge.buzz_fips_mobile_stop(true), BridgeStatus::Stopped);
    assert_eq!(bridge.buzz_fips_mobile_stop(true), BridgeStatus::Stopped);
    assert_eq!(
        bridge.buzz_fips_mobile_status(SessionStatus::Stopped),
        BridgeStatus::Stopped
    );
}

#[test]
fn frame_io_requires_a_connected_session() {
    let mut bridge = Bridge::new();
    assert_eq!(
        bridge.buzz_fips_mobile_start(true, SessionStatus::Idle),
        BridgeStatus::Running
    );
    assert_eq!(bridge.buzz_fips_mobile_send(null_buffer(0)), Ok(Vec::new()));
    assert_eq!(
        session_outcome(Err(NOT_CONNECTED)),
        BridgeStatus::NotConnected
    );
    assert_eq!(
        bridge.buzz_fips_mobile_receive(false, 8, false),
        ReceiveStep::Poll
    );
    assert_eq!(
        bridge.on_received(Err(NOT_CONNECTED)),
        Some(BridgeStatus::NotConnected)
    );
    assert_eq!(
        bridge.buzz_fips_mobile_submit_frame(null_buffer(1)),
        Err(BridgeStatus::InvalidInput)
    );
    assert_eq!(bridge.buzz_fips_mobile_stop(true), BridgeStatus::Stopped);
}

#[test]
fn connect_validates_the_peer_before_network_io() {
    let mut bridge = Bridge::new();
    assert_eq!(bridge.buzz_fips_mobile_stop(true), BridgeStatus::Stopped);
    assert_eq!(
        bridge.buzz_fips_mobile_connect(null_buffer(1)),
        Err(BridgeStatus::InvalidInput)
    );
    for bad in [vec![], vec![0xff]] {
        assert_eq!(
            bridge.buzz_fips_mobile_connect(Some(bad)),
            Err(BridgeStatus::InvalidInput)
        );
    }
    let peer = || Some(b"npub1".to_vec());
    assert_eq!(
        bridge.buzz_fips_mobile_connect(peer()),
        Err(BridgeStatus::Stopped)
    );
    bridge.buzz_fips_mobile_start(true, SessionStatus::Idle);
    assert_eq!(
        bridge.buzz_fips_mobile_connect(peer()),
        Ok("npub1".to_string())
    );
    assert_eq!(session_outcome(Ok(())), BridgeStatus::Connected);
}

#[test]
fn a_short_buffer_leaves_the_frame_pending() {
    let mut bridge = Bridge::new();
    bridge.buzz_fips_mobile_start(true, SessionStatus::Connected);
    assert_eq!(bridge.on_received(Ok(vec![1, 2, 3])), None);
    assert_eq!(
        bridge.buzz_fips_mobile_receive(false, 2, false),
        ReceiveStep::HandOver
    );
    let delivery = bridge.hand_over(2);
    assert_eq!(delivery.status, BridgeStatus::BufferTooSmall);
    assert_eq!(delivery.len, 3);
    assert_eq!(delivery.frame, None);
    let delivery = bridge.hand_over(3);
    assert_eq!(delivery.status, BridgeStatus::Connected);
    assert_eq!(delivery.len, 3);
    assert_eq!(delivery.frame, Some(vec![1, 2, 3]));
    assert_eq!(
        bridge.buzz_fips_mobile_receive(false, 3, false),
        ReceiveStep::Poll
    );
}

#[test]
fn receive_checks_its_pointers() {
    let bridge = Bridge::new();
    assert_eq!(
        bridge.buzz_fips_mobile_receive(false, 3, true),
        ReceiveStep::Report(BridgeStatus::InvalidInput)
    );
    assert_eq!(
        bridge.buzz_fips_mobile_receive(true, 3, false),
        ReceiveStep::Report(BridgeStatus::InvalidInput)
    );
    assert_eq!(
        bridge.buzz_fips_mobile_receive(true, 0, false),
        ReceiveStep::Report(BridgeStatus::Stopped)
    );
}

#[test]
fn failures_are_reported() {
    let mut bridge = Bridge::new();
    assert_eq!(
        bridge.buzz_fips_mobile_start(false, SessionStatus::Idle),
        BridgeStatus::Failed
    );
    bridge.buzz_fips_mobile_start(true, SessionStatus::Idle);
    assert_eq!(bridge.buzz_fips_mobile_stop(false), BridgeStatus::Failed);
    assert_eq!(bridge.buzz_fips_mobile_stop(false), BridgeStatus::Stopped);
    assert_eq!(session_outcome(Err(SessionError::Other)), BridgeStatus::Failed);
    assert_eq!(
        session_outcome(Err(SessionError::Status(SessionStatus::Idle))),
        BridgeStatus::Failed
    );
    assert_eq!(
        session_outcome(Err(SessionError::Status(SessionStatus::Connected))),
        BridgeStatus::Connected
    );
    assert_eq!(
        session_outcome(Err(SessionError::Status(SessionStatus::Stopped))),
        BridgeStatus::Stopped
    );
}

#[test]
fn status_codes_are_stable() {
    let codes = [
        (BridgeStatus::Stopped, 0),
        (BridgeStatus::Running, 1),
        (BridgeStatus::Connected, 2),
        (BridgeStatus::InvalidInput, 3),
        (BridgeStatus::NotConnected, 4),
        (BridgeStatus::BufferTooSmall, 5),
        (BridgeStatus::Failed, 6),
    ];
    for (status, code) in codes {
        assert_eq!(status.code(), code);
    }
}

#[test]
fn discovery_config_advertises_on_the_configured_public_relays() {
    let config = FipsConfig {
        private_key: "key".to_string(),
        nostr_relays: vec!["wss://relay.example/".to_string()],
        stun_servers: vec!["stun:stun.example:3478".to_string()],
    };
    let discovery = discovery_config(&config);

    assert!(discovery.enabled && discovery.advertise);
    assert_eq!(discovery.advert_relays, discovery.dm_relays);
    assert_eq!(discovery.stun_servers, ["stun:stun.example:3478"]);
    assert_eq!(discovery.app, "buzz-relay");

    let advert = local_advert(&discovery, "overlay".to_string(), 1);
    assert_eq!(advert.endpoints.len(), 1);
    assert_eq!(advert.endpoints[0].transport, OverlayTransportKind::Udp);
    assert_eq!(advert.endpoints[0].addr, "nat");
    assert_eq!(
        advert.signal_relays,
        Some(vec!["wss://relay.example/".to_string()])
    );
    assert_eq!(
        advert.stun_servers,
        Some(vec!["stun:stun.example:3478".to_string()])
    );
    assert_eq!(advert.stun_services, None);
}

#[test]
fn the_responder_ends_only_before_it_is_advertised() {
    assert_eq!(run(ResponderEvent::Started(false)), ResponderAction::End);
    assert_eq!(run(ResponderEvent::Started(true)), ResponderAction::Advertise);
    assert_eq!(
        run(ResponderEvent::Advertised(false)),
        ResponderAction::ShutDown
    );
    assert_eq!(run(ResponderEvent::Advertised(true)), ResponderAction::Poll);
    assert_eq!(
        run(ResponderEvent::Established(true)),
        ResponderAction::Accept
    );
    assert_eq!(run(ResponderEvent::TraversalFailed), ResponderAction::Next);
    assert_eq!(run(ResponderEvent::Drained), ResponderAction::Wait);
    assert_eq!(
        spawn(Err("bad".to_string())),
        Err("invalid FIPS key after config validation: bad".to_string())
    );
    assert_eq!(spawn(Ok(())), Ok(()));
}

#[test]
fn streams_carry_text_frames() {
    let payload = "[\"REQ\",\"é\",{}]";
    let sent = serve_stream(StreamEvent::Outbound(NextFrame::Frame(RelayFrame::Text(
        payload.to_string(),
    ))));
    let StreamAction::Send(bytes) = sent else {
        panic!("expected bytes to send");
    };
    assert_eq!(bytes, payload.as_bytes());
    assert_eq!(
        serve_stream(StreamEvent::Inbound(Some(bytes))),
        StreamAction::Receive(RelayFrame::Text(payload.to_string()))
    );
}

#[test]
fn streams_end_with_what_they_cannot_carry() {
    for event in [
        StreamEvent::Inbound(Some(vec![0xff])),
        StreamEvent::Inbound(None),
        StreamEvent::Sent(false),
        StreamEvent::Outbound(NextFrame::Ended),
        StreamEvent::Outbound(NextFrame::Frame(RelayFrame::Close {
            code: 1000,
            reason: String::new(),
        })),
    ] {
        assert_eq!(serve_stream(event), StreamAction::Close);
    }
    for event in [
        StreamEvent::Sent(true),
        StreamEvent::Outbound(NextFrame::Wait),
        StreamEvent::Outbound(NextFrame::Frame(RelayFrame::Ping)),
        StreamEvent::Outbound(NextFrame::Frame(RelayFrame::Pong)),
    ] {
        assert_eq!(serve_stream(event), StreamAction::Wait);
    }
    assert_eq!(
        serve_stream(StreamEvent::Outbound(NextFrame::Frame(RelayFrame::Binary(
            vec![9]
        )))),
        StreamAction::Send(vec![9])
    );
}
