use buzz::envelope::{Keys, PublicKey};
use buzz::native_websocket::{
    connection_config, disconnect_handle, open_connection, outbound_message, run_connection,
    send_message, serve_relay_socket, unwrap_nip17_frame, wrap_nip17_frame, ClosePayload,
    Handshake, Nip17Connection, OutboundMessage, QueueOutcome, Registration, RelaySocketAction,
    RelaySocketEvent, ReplyOutcome, Shutdown, SocketAction, SocketConfig, SocketEvent,
    SocketMessage, TunnelAction, TunnelEvent, TunnelOpening, WebSocketManager, WebSocketMessage,
    WriteOutcome,
};
use futures_util::FutureExt;
use nostr::nips::nip59::extract_rumor;
use nostr::{Event, EventBuilder, JsonUtil, Kind, Tag};

const SESSION_TAG_PREFIX: &str = "buzz-nip17-session:";

fn library_keys(keys: &nostr::Keys) -> Keys {
    Keys::parse(&keys.secret_key().to_secret_hex()).expect("usable keys")
}

fn library_key(keys: &nostr::Keys) -> PublicKey {
    PublicKey {
        bytes: keys.public_key().to_bytes(),
    }
}

fn frame(wrap: &Event) -> String {
    format!("[\"EVENT\",\"gift-wraps\",{}]", wrap.as_json())
}

#[test]
fn nip17_only_accepts_frames_wrapped_by_the_configured_gateway() {
    let recipient = nostr::Keys::generate();
    let gateway = nostr::Keys::generate();
    let attacker = nostr::Keys::generate();
    let session_id = "current-session";
    let recipient_tag = Tag::parse(vec!["p", &recipient.public_key().to_hex()]).unwrap();
    let session_tag =
        Tag::parse(vec!["t", &format!("{SESSION_TAG_PREFIX}{session_id}")]).unwrap();

    let response = EventBuilder::new(Kind::from(14_u16), "[\"NOTICE\",\"gateway\"]")
        .tags([recipient_tag.clone(), session_tag])
        .build(gateway.public_key());
    let gateway_wrap = EventBuilder::gift_wrap(&gateway, &recipient.public_key(), response, [])
        .now_or_never()
        .unwrap()
        .unwrap();
    let attacker_response = EventBuilder::new(Kind::from(14_u16), "[\"NOTICE\",\"attacker\"]")
        .tags([recipient_tag])
        .build(attacker.public_key());
    let attacker_wrap =
        EventBuilder::gift_wrap(&attacker, &recipient.public_key(), attacker_response, [])
            .now_or_never()
            .unwrap()
            .unwrap();

    let keys = library_keys(&recipient);
    assert_eq!(
        unwrap_nip17_frame(&keys, &library_key(&gateway), session_id, &frame(&gateway_wrap)),
        Some("[\"NOTICE\",\"gateway\"]".to_string())
    );
    assert_eq!(
        unwrap_nip17_frame(&keys, &library_key(&gateway), session_id, &frame(&attacker_wrap)),
        None
    );
}

#[test]
fn nip17_wraps_outbound_relay_frames_for_the_gateway() {
    let client = nostr::Keys::generate();
    let gateway = nostr::Keys::generate();

    let wrapped = wrap_nip17_frame(
        &library_keys(&client),
        &library_key(&gateway),
        "test-session",
        "[\"REQ\",\"sub\",{\"kinds\":[9]}]",
    )
    .unwrap();
    let event = Event::from_json(wrapped).unwrap();
    let rumor = extract_rumor(&gateway, &event).now_or_never().unwrap().unwrap();

    assert_eq!(event.kind, Kind::GiftWrap);
    assert_eq!(rumor.sender, client.public_key());
    assert_eq!(rumor.rumor.kind, Kind::from(14_u16));
    assert_eq!(rumor.rumor.content, "[\"REQ\",\"sub\",{\"kinds\":[9]}]");
}

#[test]
fn what_is_no_event_message_is_passed_over() {
    let keys = Keys::generate();
    let gateway = Keys::generate().public_key();
    for message in ["", "{}", "[]", "[\"EOSE\",\"sub\"]", "[\"EVENT\",\"sub\",{}]", "[1,2,3]"] {
        assert_eq!(unwrap_nip17_frame(&keys, &gateway, "s", message), None);
    }
}

#[test]
fn tunneled_connections_carry_text_through_public_relays() {
    let client = nostr::Keys::generate();
    let gateway = nostr::Keys::generate();
    let connection = Nip17Connection::start(42, library_keys(&client), library_key(&gateway));
    let hex = client.public_key().to_hex();
    assert_eq!(
        connection.subscription(),
        format!("[\"REQ\",\"buzz-nip17-42\",{{\"#p\":[\"{hex}\"],\"kinds\":[1059]}}]")
    );
    assert_eq!(connection.session_id.len(), 32);

    let open = |command: &str| {
        let command: serde_json::Value = serde_json::from_str(command).unwrap();
        assert_eq!(command[0], "EVENT");
        let event = Event::from_json(command[1].to_string()).unwrap();
        extract_rumor(&gateway, &event).now_or_never().unwrap().unwrap()
    };
    let bootstrap = open(&connection.bootstrap().unwrap());
    assert_eq!(bootstrap.rumor.content, "[\"CLOSE\",\"__buzz_nip17_bootstrap\"]");
    assert_eq!(bootstrap.sender, client.public_key());

    let action = connection.run_nip17_connection(TunnelEvent::Send(SocketMessage::Text(
        "[\"REQ\"]".to_string(),
    )));
    let TunnelAction::Deliver(command) = action else {
        panic!("expected a delivery");
    };
    assert_eq!(open(&command).rumor.content, "[\"REQ\"]");

    assert_eq!(
        connection.run_nip17_connection(TunnelEvent::Send(SocketMessage::Binary(vec![1]))),
        TunnelAction::Answer(Err(
            "NIP-17 relay transport only supports text frames".to_string()
        ))
    );
    assert_eq!(
        connection.run_nip17_connection(TunnelEvent::Delivered(vec![false, true])),
        TunnelAction::Answer(Ok(()))
    );
    for taken in [vec![], vec![false, false]] {
        assert_eq!(
            connection.run_nip17_connection(TunnelEvent::Delivered(taken)),
            TunnelAction::Answer(Err("NIP-17 public relays are disconnected".to_string()))
        );
    }
    assert_eq!(
        connection.run_nip17_connection(TunnelEvent::Incoming("[\"EOSE\",\"x\"]".to_string())),
        TunnelAction::Wait
    );
    assert_eq!(
        connection.run_nip17_connection(TunnelEvent::Cancelled),
        TunnelAction::End
    );
    assert_eq!(
        connection.run_nip17_connection(TunnelEvent::SenderClosed),
        TunnelAction::End
    );
}

#[test]
fn tunneled_connections_tell_what_the_gateway_answers() {
    let client = Keys::generate();
    let gateway = Keys::generate();
    let connection = Nip17Connection::start(1, client, gateway.public_key());
    let answer = wrap_nip17_frame(
        &gateway,
        &client.public_key(),
        &connection.session_id,
        "[\"AUTH\",\"c\"]",
    )
    .unwrap();
    assert_eq!(
        connection.run_nip17_connection(TunnelEvent::Incoming(format!(
            "[\"EVENT\",\"sub\",{answer}]"
        ))),
        TunnelAction::Tell(OutboundMessage::Text("[\"AUTH\",\"c\"]".to_string()))
    );
}

#[test]
fn launches_have_identities_of_their_own() {
    let keys = Keys::generate();
    let gateway = Keys::generate().public_key();
    let first = Nip17Connection::start(1, keys, gateway);
    let second = Nip17Connection::start(1, keys, gateway);
    assert_ne!(first.session_id, second.session_id);
}

#[test]
fn tunnel_configurations_are_checked_before_connecting() {
    let gateway = nostr::Keys::generate().public_key().to_hex();
    let urls = |list: &[&str]| -> Vec<String> { list.iter().map(|url| url.to_string()).collect() };
    let refused = |gateway: &str, list: &[&str]| {
        TunnelOpening::open_nip17_connection(gateway, &urls(list)).expect_err("refused")
    };
    assert_eq!(
        refused("xyz", &["wss://a.example"]),
        "NIP-17 gateway pubkey must be 64 hexadecimal characters"
    );
    assert_eq!(
        refused(&gateway, &[]),
        "NIP-17 requires at least one public relay"
    );
    for bad in ["https://a.example", "nonsense", "ws:"] {
        assert_eq!(
            refused(&gateway, &["wss://a.example", bad]),
            "NIP-17 public relays must use ws:// or wss:// URLs"
        );
    }
    let mut opening =
        TunnelOpening::open_nip17_connection(&gateway, &urls(&["ws://a.example", "wss://b/x?y"]))
            .expect("accepted");
    assert_eq!(opening.gateway.to_hex(), gateway);
    assert_eq!(
        opening.finish(),
        Err("Unable to connect to any configured NIP-17 public relay".to_string())
    );
    assert_eq!(opening.on_handshake(&Handshake::TimedOut), Ok(()));
    assert_eq!(opening.on_handshake(&Handshake::Failed("no".to_string())), Ok(()));
    assert!(opening.finish().is_err());
    assert_eq!(opening.on_handshake(&Handshake::Connected), Ok(()));
    assert_eq!(opening.finish(), Ok(()));
    assert_eq!(
        opening.on_handshake(&Handshake::Cancelled),
        Err("WebSocket connection cancelled".to_string())
    );
}

#[test]
fn handshakes_are_reported() {
    assert_eq!(open_connection(Handshake::Connected), Ok(()));
    assert_eq!(
        open_connection(Handshake::Failed("refused".to_string())),
        Err("refused".to_string())
    );
    assert_eq!(
        open_connection(Handshake::TimedOut),
        Err("WebSocket connection timed out".to_string())
    );
    assert_eq!(
        open_connection(Handshake::Cancelled),
        Err("WebSocket connection cancelled".to_string())
    );
    assert_eq!(connection_config(None), SocketConfig::Direct);
}

#[test]
fn eof_removes_connection() {
    let mut manager = WebSocketManager::new();
    assert_eq!(manager.register_as(0, 1), Registration::Registered(1));
    let (action, ended) = run_connection(SocketEvent::Ended);
    assert_eq!(action, SocketAction::Tell(OutboundMessage::Close(None)));
    assert!(ended);
    assert!(manager.remove(1));
    assert!(!manager.connections.contains(&1));
}

#[test]
fn disconnect_removes_and_drops_task_before_returning() {
    let mut manager = WebSocketManager::new();
    assert_eq!(manager.register_as(0, 7), Registration::Registered(7));
    assert!(manager.remove(7));
    assert_eq!(disconnect_handle(true, None), Shutdown::Await);
    assert_eq!(disconnect_handle(true, Some(false)), Shutdown::Abort);
    assert_eq!(disconnect_handle(true, Some(true)), Shutdown::Over);
    assert_eq!(disconnect_handle(false, None), Shutdown::Over);
    assert!(!manager.connections.contains(&7));
    assert!(!manager.remove(7));
}

#[test]
fn teardown_gate_stays_closed_until_tasks_stop() {
    let mut manager = WebSocketManager::new();
    assert_eq!(manager.register_as(0, 1), Registration::Registered(1));
    manager.disconnect_all();
    assert_eq!(manager.register_as(1, 2), Registration::Wait);
    assert_eq!(manager.register(1), Registration::Wait);
    assert_eq!(disconnect_handle(true, Some(false)), Shutdown::Abort);
    manager.on_stopped();
    assert_eq!(manager.register_as(1, 2), Registration::Registered(2));
}

#[test]
fn teardown_calls_off_what_was_under_way() {
    let mut manager = WebSocketManager::new();
    let started = manager.epoch;
    assert!(matches!(
        manager.register(started),
        Registration::Registered(_)
    ));
    assert_eq!(manager.register_as(started, 5), Registration::Registered(5));
    assert_eq!(manager.register_as(started, 5), Registration::Taken);
    manager.disconnect_all();
    assert!(manager.connections.is_empty());
    manager.on_stopped();
    manager.on_stopped();
    assert_eq!(manager.register(started), Registration::Cancelled);
    assert_eq!(
        manager.register_as(manager.epoch, 5),
        Registration::Registered(5)
    );
}

#[test]
fn messages_keep_their_content_across_the_boundary() {
    let close = ClosePayload {
        code: 4001,
        reason: "bye".to_string(),
    };
    let messages = vec![
        (
            WebSocketMessage::Text("t".to_string()),
            OutboundMessage::Text("t".to_string()),
        ),
        (
            WebSocketMessage::Binary(vec![1]),
            OutboundMessage::Binary(vec![1]),
        ),
        (WebSocketMessage::Ping(vec![2]), OutboundMessage::Ping(vec![2])),
        (WebSocketMessage::Pong(vec![3]), OutboundMessage::Pong(vec![3])),
        (
            WebSocketMessage::Close(Some(close.clone())),
            OutboundMessage::Close(Some(close)),
        ),
    ];
    for (sent, told) in messages {
        assert_eq!(outbound_message(sent.into_socket_message()), told);
    }
    assert_eq!(
        outbound_message(SocketMessage::Frame),
        OutboundMessage::Error("unexpected raw WebSocket frame".to_string())
    );
}

#[test]
fn direct_connections_end_with_a_goodbye_or_an_error() {
    let (action, ended) = run_connection(SocketEvent::Cancelled);
    assert_eq!(
        action,
        SocketAction::Write(SocketMessage::Close(Some(ClosePayload {
            code: 1000,
            reason: "disconnect".to_string()
        })))
    );
    assert!(ended);
    assert_eq!(
        run_connection(SocketEvent::SenderClosed),
        (SocketAction::Nothing, true)
    );
    assert_eq!(
        run_connection(SocketEvent::Send(SocketMessage::Text("x".to_string()))),
        (SocketAction::Write(SocketMessage::Text("x".to_string())), false)
    );
    assert_eq!(
        run_connection(SocketEvent::Wrote(WriteOutcome::Written)),
        (SocketAction::Answer(Ok(())), false)
    );
    assert_eq!(
        run_connection(SocketEvent::Wrote(WriteOutcome::TimedOut)),
        (
            SocketAction::Answer(Err("WebSocket send timed out".to_string())),
            true
        )
    );
    assert_eq!(
        run_connection(SocketEvent::Wrote(WriteOutcome::Failed("e".to_string()))),
        (SocketAction::Answer(Err("e".to_string())), true)
    );
    assert_eq!(
        run_connection(SocketEvent::Failed("e".to_string())),
        (SocketAction::Tell(OutboundMessage::Error("e".to_string())), true)
    );
    assert_eq!(
        run_connection(SocketEvent::Incoming(SocketMessage::Ping(vec![]))),
        (SocketAction::Tell(OutboundMessage::Ping(vec![])), false)
    );
    assert!(run_connection(SocketEvent::Incoming(SocketMessage::Frame)).1);
}

#[test]
fn relay_sockets_forward_text_only() {
    let text = SocketMessage::Text("[]".to_string());
    assert_eq!(
        serve_relay_socket(RelaySocketEvent::Incoming(Some(text))),
        RelaySocketAction::Forward("[]".to_string())
    );
    assert_eq!(
        serve_relay_socket(RelaySocketEvent::Incoming(Some(SocketMessage::Ping(vec![])))),
        RelaySocketAction::Wait
    );
    for event in [
        RelaySocketEvent::Cancelled,
        RelaySocketEvent::Command(None),
        RelaySocketEvent::Written(false),
        RelaySocketEvent::Incoming(None),
    ] {
        assert_eq!(serve_relay_socket(event), RelaySocketAction::End);
    }
    assert_eq!(
        serve_relay_socket(RelaySocketEvent::Command(Some("x".to_string()))),
        RelaySocketAction::Write("x".to_string())
    );
}

#[test]
fn senders_are_told_what_became_of_their_message() {
    let manager = WebSocketManager::new();
    assert_eq!(
        manager.find(12),
        Err("WebSocket connection 12 not found".to_string())
    );
    let answered = || ReplyOutcome::Answered(Ok(()));
    assert_eq!(send_message(QueueOutcome::Queued, answered()), Ok(()));
    assert_eq!(
        send_message(QueueOutcome::TimedOut, answered()),
        Err("WebSocket send queue timed out".to_string())
    );
    assert_eq!(
        send_message(QueueOutcome::Closed, answered()),
        Err("WebSocket connection closed".to_string())
    );
    assert_eq!(
        send_message(QueueOutcome::Queued, ReplyOutcome::TimedOut),
        Err("WebSocket send timed out".to_string())
    );
    assert_eq!(
        send_message(QueueOutcome::Queued, ReplyOutcome::Closed),
        Err("WebSocket connection closed".to_string())
    );
    assert_eq!(
        send_message(
            QueueOutcome::Queued,
            ReplyOutcome::Answered(Err("e".to_string()))
        ),
        Err("e".to_string())
    );
}
