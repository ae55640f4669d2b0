use buzz::auth::{AuthContext, AuthState};
use buzz::connection::{NextFrame, TenantContext, VirtualConnection, VirtualOpening};
use buzz::envelope::{delivered_event, event_command, Keys, PublicKey};
use buzz::native_websocket::{unwrap_nip17_frame, wrap_nip17_frame};
use buzz::nip17_gateway::{GatewayError, GatewayRequest, Nip17Gateway};
use buzz::nip17_gateway_runtime::{
    route_envelope, spawn, subscription_request, EncryptedResponse, RelayAction, RelayEvent,
    RelayLoop, RelayState, Route, RouteAction, Session, SessionAction, SessionEvent, SessionInput,
    SessionKey, SessionTable, SESSION_DEDUP_CAPACITY,
};
use buzz::transport::RelayFrame;
use futures_util::FutureExt;
use nostr::nips::nip59;
use nostr::{EventBuilder, Kind, Tag};

const MAX_FRAME_BYTES: usize = 1024;

fn library_keys(keys: &nostr::Keys) -> Keys {
    Keys::parse(&keys.secret_key().to_secret_hex()).expect("usable keys")
}

fn gateway(keys: &nostr::Keys) -> Nip17Gateway {
    match Nip17Gateway::new(library_keys(keys), MAX_FRAME_BYTES) {
        Ok(gateway) => gateway,
        Err(error) => panic!("gateway: {error:?}"),
    }
}

fn wrap(sender: &nostr::Keys, recipient: &nostr::Keys, rumor: EventBuilder) -> String {
    let rumor = rumor.build(sender.public_key());
    let event = EventBuilder::gift_wrap(sender, &recipient.public_key(), rumor, [])
        .now_or_never()
        .expect("a local signer answers at once")
        .expect("build real NIP-59 gift wrap");
    serde_json::to_string(&event).expect("serialize gift wrap")
}

fn open(keys: &nostr::Keys, json: &str) -> nip59::UnwrappedGift {
    let event: nostr::Event = serde_json::from_str(json).expect("deserialize gift wrap");
    nip59::extract_rumor(keys, &event)
        .now_or_never()
        .expect("a local signer answers at once")
        .expect("unwrap real NIP-59 response")
}

fn request_builder(recipient: &nostr::Keys, request: &str, session_id: &str) -> EventBuilder {
    EventBuilder::new(Kind::PrivateDirectMessage, request).tags([
        Tag::parse(vec!["p", &recipient.public_key().to_hex()]).expect("recipient tag"),
        Tag::parse(vec!["t", &format!("buzz-nip17-session:{session_id}")]).expect("session tag"),
    ])
}

fn tenant(community: u128, host: &str) -> TenantContext {
    TenantContext {
        community,
        host: host.to_string(),
    }
}

#[test]
fn unwraps_a_real_nip17_gift_wrap_request() {
    let sender = nostr::Keys::generate();
    let recipient = nostr::Keys::generate();
    let request = r#"["REQ","inbox",{"kinds":[1]}]"#;
    let session_id = "test-session";
    let gift_wrap = wrap(
        &sender,
        &recipient,
        request_builder(&recipient, request, session_id),
    );

    let decoded = gateway(&recipient)
        .unwrap_request(RelayFrame::Text(gift_wrap))
        .expect("unwrap request");

    assert_eq!(decoded.sender.bytes, sender.public_key().to_bytes());
    assert_eq!(decoded.frame, RelayFrame::Text(request.to_string()));
    assert_eq!(decoded.session_id, session_id);
}

#[test]
fn wraps_a_real_nip17_gift_wrap_response() {
    let sender = nostr::Keys::generate();
    let gateway_keys = nostr::Keys::generate();
    let request = GatewayRequest {
        sender: PublicKey {
            bytes: sender.public_key().to_bytes(),
        },
        session_id: "test-session".to_string(),
        frame: RelayFrame::Text(r#"["REQ","inbox",{}]"#.to_string()),
    };
    let response = r#"["EOSE","inbox"]"#;

    let wrapped = gateway(&gateway_keys)
        .wrap_response(&request, RelayFrame::Text(response.to_string()))
        .expect("wrap response");
    let RelayFrame::Text(json) = wrapped else {
        panic!("response must be text");
    };
    let unwrapped = open(&sender, &json);

    assert_eq!(unwrapped.sender, gateway_keys.public_key());
    assert_eq!(unwrapped.rumor.kind, Kind::PrivateDirectMessage);
    assert_eq!(unwrapped.rumor.content, response);
    let tags: Vec<Vec<String>> = unwrapped
        .rumor
        .tags
        .iter()
        .map(|tag| tag.as_slice().to_vec())
        .collect();
    assert_eq!(
        tags,
        vec![
            vec!["p".to_string(), sender.public_key().to_hex()],
            vec!["t".to_string(), "buzz-nip17-session:test-session".to_string()],
        ]
    );
}

#[test]
fn rejects_non_nip17_rumors_after_decryption() {
    let sender = nostr::Keys::generate();
    let recipient = nostr::Keys::generate();
    let gift_wrap = wrap(
        &sender,
        &recipient,
        EventBuilder::new(Kind::TextNote, "not a relay request"),
    );

    let error = gateway(&recipient)
        .unwrap_request(RelayFrame::Text(gift_wrap))
        .expect_err("kind 1 rumor must be rejected");

    assert!(matches!(error, GatewayError::InvalidRumorKind));
    assert_eq!(error.message(), "NIP-17 gift-wrap rumor must be kind 14");
}

#[test]
fn rejects_frames_that_exceed_the_configured_limit() {
    let sender = nostr::Keys::generate();
    let recipient = nostr::Keys::generate();
    let request = "x".repeat(MAX_FRAME_BYTES + 1);
    let gift_wrap = wrap(
        &sender,
        &recipient,
        EventBuilder::private_msg_rumor(recipient.public_key(), request),
    );

    let error = gateway(&recipient)
        .unwrap_request(RelayFrame::Text(gift_wrap))
        .expect_err("oversize plaintext frame must be rejected");

    assert!(matches!(error, GatewayError::FrameTooLarge { .. }));
    assert_eq!(
        error.message(),
        "NIP-17 gateway frame exceeds 1024 bytes (got 1025)"
    );
}

#[test]
fn rejects_requests_without_a_session() {
    let sender = nostr::Keys::generate();
    let recipient = nostr::Keys::generate();
    for tags in [
        vec![],
        vec![vec!["t", "buzz-nip17-session:"]],
        vec![vec!["t", "other"], vec!["x", "buzz-nip17-session:a"], vec!["t"]],
    ] {
        let tags: Vec<Tag> = tags
            .into_iter()
            .map(|tag| Tag::parse(tag).expect("tag"))
            .collect();
        let gift_wrap = wrap(
            &sender,
            &recipient,
            EventBuilder::new(Kind::PrivateDirectMessage, "[]").tags(tags),
        );
        let error = gateway(&recipient)
            .unwrap_request(RelayFrame::Text(gift_wrap))
            .expect_err("no session");
        assert_eq!(error, GatewayError::MissingSessionTag);
    }
}

#[test]
fn rejects_what_is_no_envelope_for_the_gateway() {
    let sender = nostr::Keys::generate();
    let recipient = nostr::Keys::generate();
    let stranger = nostr::Keys::generate();
    let gateway = gateway(&recipient);

    assert_eq!(
        gateway.unwrap_request(RelayFrame::Binary(vec![1])),
        Err(GatewayError::NonTextFrame)
    );
    assert!(matches!(
        gateway.unwrap_request(RelayFrame::Text("{}".to_string())),
        Err(GatewayError::InvalidEnvelope(_))
    ));
    let for_stranger = wrap(&sender, &stranger, request_builder(&stranger, "[]", "s"));
    assert!(matches!(
        gateway.unwrap_request(RelayFrame::Text(for_stranger)),
        Err(GatewayError::GiftWrap(_))
    ));
    let request = GatewayRequest {
        sender: PublicKey {
            bytes: sender.public_key().to_bytes(),
        },
        session_id: "s".to_string(),
        frame: RelayFrame::Ping,
    };
    assert_eq!(
        gateway.wrap_response(&request, RelayFrame::Ping),
        Err(GatewayError::NonTextFrame)
    );
    assert_eq!(
        gateway.wrap_response(&request, RelayFrame::Text("x".repeat(1025))),
        Err(GatewayError::FrameTooLarge {
            max: 1024,
            got: 1025
        })
    );
}

fn virtual_connection() -> VirtualConnection {
    let Ok(opening) = VirtualOpening::begin(true) else {
        panic!("expected an opening");
    };
    let tenant = tenant(1, "a.test");
    let addr = "0.0.0.0:0".to_string();
    let opened =
        VirtualConnection::open(opening, Some(true), false, addr, tenant, "c".to_string(), 4, 3);
    match opened {
        Ok(connection) => connection,
        Err(_) => panic!("expected a connection"),
    }
}

#[test]
fn a_gateway_needs_room_for_a_frame() {
    let keys = library_keys(&nostr::Keys::generate());
    assert!(matches!(
        Nip17Gateway::new(keys, 0),
        Err(GatewayError::InvalidFrameLimit)
    ));
}

#[test]
fn an_authenticated_session_serves_its_owner_only() {
    let sender = nostr::Keys::generate();
    let recipient = nostr::Keys::generate();
    let gateway = gateway(&recipient);
    let envelope =
        || RelayFrame::Text(wrap(&sender, &recipient, request_builder(&recipient, "[]", "s")));
    let owner = |bytes: [u8; 32]| {
        AuthState::Authenticated(AuthContext {
            pubkey: PublicKey { bytes },
            agent_owner_pubkey: None,
        })
    };

    let mut connection = virtual_connection();
    let Ok((request, message)) = gateway.dispatch_envelope(&mut connection, envelope(), 1024)
    else {
        panic!("a session without an owner serves anybody");
    };
    assert_eq!(request.sender.bytes, sender.public_key().to_bytes());
    assert_eq!(message, Some("[]".to_string()));

    connection.conn.auth_state = owner(sender.public_key().to_bytes());
    assert!(gateway.dispatch_envelope(&mut connection, envelope(), 1024).is_ok());

    connection.conn.auth_state = owner([9; 32]);
    assert_eq!(
        gateway.dispatch_envelope(&mut connection, envelope(), 1024),
        Err(GatewayError::SenderMismatch)
    );
    assert!(!connection.conn.cancelled);
}

#[test]
fn a_dispatched_frame_over_the_connection_limit_is_refused() {
    let sender = nostr::Keys::generate();
    let recipient = nostr::Keys::generate();
    let gateway = gateway(&recipient);
    let envelope =
        RelayFrame::Text(wrap(&sender, &recipient, request_builder(&recipient, "[1,2]", "s")));
    let mut connection = virtual_connection();

    let Ok((_, message)) = gateway.dispatch_envelope(&mut connection, envelope, 4) else {
        panic!("the gateway reads the request");
    };
    assert_eq!(message, None);
    assert!(connection.conn.cancelled);
    assert_eq!(
        connection.next_frame(),
        NextFrame::Frame(RelayFrame::Text(r#"["AUTH","c"]"#.to_string()))
    );
    assert_eq!(
        connection.next_frame(),
        NextFrame::Frame(RelayFrame::Text(
            r#"["NOTICE","error: frame too large (5 bytes, limit 4)"]"#.to_string()
        ))
    );
    assert_eq!(connection.next_frame(), NextFrame::Ended);
}

#[test]
fn responses_are_refused_by_the_encryption_beyond_its_bound_only() {
    let keys = Keys::generate();
    let client = Keys::generate();
    let Ok(gateway) = Nip17Gateway::new(keys, 1_000_000) else {
        panic!("expected a gateway");
    };
    let request = GatewayRequest {
        sender: client.public_key(),
        session_id: "s".repeat(40),
        frame: RelayFrame::Text(String::new()),
    };
    let response = |content: String| gateway.wrap_response(&request, RelayFrame::Text(content));
    // Up to the year 2286 a time has ten of the twenty digits that are left room for.
    assert!(response("x".repeat(40_604)).is_ok());
    assert!(response("x".repeat(40_614)).is_ok());
    assert!(matches!(response("x".repeat(40_615)), Err(GatewayError::GiftWrap(_))));
    assert!(matches!(response("x".repeat(70_000)), Err(GatewayError::GiftWrap(_))));
    assert!(response("\u{1}".repeat(6_767)).is_ok());
    assert!(matches!(response("\u{1}".repeat(6_770)), Err(GatewayError::GiftWrap(_))));
    assert!(response("\"".repeat(20_302)).is_ok());
    assert!(response("\u{1f600}".repeat(10_151)).is_ok());
    assert!(matches!(response("\u{1f600}".repeat(10_155)), Err(GatewayError::GiftWrap(_))));

    let nobody = GatewayRequest {
        sender: PublicKey { bytes: [0xff; 32] },
        ..request.clone()
    };
    assert!(matches!(
        gateway.wrap_response(&nobody, RelayFrame::Text("[]".to_string())),
        Err(GatewayError::GiftWrap(_))
    ));
}

#[test]
fn gift_wraps_verify_and_name_their_receiver() {
    let client = Keys::generate();
    let gateway = Keys::generate();
    let json = wrap_nip17_frame(&client, &gateway.public_key(), "s", "[]").expect("an envelope");
    let event: nostr::Event = serde_json::from_str(&json).expect("event");
    assert!(event.verify().is_ok());
    assert_eq!(event.kind, Kind::GiftWrap);
    assert_ne!(event.pubkey.to_bytes(), client.public_key().bytes);
    assert!(event
        .tags
        .iter()
        .any(|tag| tag.as_slice() == ["p", gateway.public_key().to_hex().as_str()]));
}

#[test]
fn what_a_client_wraps_the_gateway_reads_and_back() {
    let client = Keys::generate();
    let gateway_keys = Keys::generate();
    let gateway = match Nip17Gateway::new(gateway_keys, MAX_FRAME_BYTES) {
        Ok(gateway) => gateway,
        Err(error) => panic!("gateway: {error:?}"),
    };
    let wrapped = wrap_nip17_frame(&client, &gateway.public_key(), "launch", "[\"REQ\",\"a\",{}]")
        .expect("wrap");
    let request = gateway
        .unwrap_request(RelayFrame::Text(wrapped))
        .expect("unwrap");
    assert_eq!(request.sender, client.public_key());
    assert_eq!(request.session_id, "launch");
    assert_eq!(request.frame.as_text(), Some("[\"REQ\",\"a\",{}]"));

    let RelayFrame::Text(json) = gateway
        .wrap_response(&request, RelayFrame::Text("[\"EOSE\",\"a\"]".to_string()))
        .expect("wrap response")
    else {
        panic!("response must be text");
    };
    let message = format!("[\"EVENT\",\"sub\",{json}]");
    let read = |session: &str| {
        unwrap_nip17_frame(&client, &gateway.public_key(), session, &message)
    };
    assert_eq!(read("launch"), Some("[\"EOSE\",\"a\"]".to_string()));
    assert_eq!(read("other-launch"), None);
}

#[test]
fn sessions_are_scoped_by_verified_sender_and_tenant() {
    let sender = Keys::generate().public_key();
    let tenant_a = tenant(1, "a.test");
    let tenant_b = tenant(2, "b.test");
    assert_ne!(
        SessionKey::new(&tenant_a, sender),
        SessionKey::new(&tenant_b, sender)
    );
    assert_eq!(
        SessionKey::new(&tenant_a, PublicKey { bytes: [0xab; 32] }),
        SessionKey {
            community: "00000000-0000-0000-0000-000000000001".to_string(),
            sender: "ab".repeat(32),
        }
    );
    assert_eq!(
        SessionKey::new(&tenant(0x0123_4567_89ab_cdef_0011_2233_4455_6677, "c"), sender).community,
        "01234567-89ab-cdef-0011-223344556677"
    );
}

#[test]
fn envelopes_lead_to_the_session_of_their_sealer() {
    let sender = nostr::Keys::generate();
    let recipient = nostr::Keys::generate();
    let json = wrap(&sender, &recipient, request_builder(&recipient, "[1]", "s"));
    let event: nostr::Event = serde_json::from_str(&json).expect("event");
    let tenant = tenant(3, "a.test");
    let (key, input) = route_envelope(&gateway(&recipient), &tenant, "wss://relay", json)
        .expect("a request for a session");
    assert_eq!(key.sender, sender.public_key().to_hex());
    assert_eq!(input.event_id, event.id.to_hex());
    assert_eq!(input.relay_url, "wss://relay");
    assert_eq!(input.request.frame, RelayFrame::Text("[1]".to_string()));
    assert!(route_envelope(&gateway(&sender), &tenant, "wss://relay", "{}".to_string()).is_none());
}

#[test]
fn dead_sessions_are_replaced_once() {
    let key = |n: u128| SessionKey::new(&tenant(n, "a"), PublicKey { bytes: [1; 32] });
    let mut sessions = SessionTable::new();

    let (mut route, action) = Route::set_out(key(1), &mut sessions, 10);
    assert_eq!(
        action,
        RouteAction::Deliver {
            channel: 10,
            start: true
        }
    );
    assert_eq!(route.on_delivery(true, &mut sessions, 11), RouteAction::Done);

    let (mut route, action) = Route::set_out(key(1), &mut sessions, 11);
    assert_eq!(
        action,
        RouteAction::Deliver {
            channel: 10,
            start: false
        }
    );
    assert_eq!(
        route.on_delivery(false, &mut sessions, 12),
        RouteAction::Deliver {
            channel: 12,
            start: true
        }
    );
    assert_eq!(route.on_delivery(false, &mut sessions, 13), RouteAction::GiveUp);
    assert!(sessions.entries.is_empty());
}

#[test]
fn a_session_that_was_replaced_meanwhile_is_kept() {
    let key = SessionKey::new(&tenant(1, "a"), PublicKey { bytes: [1; 32] });
    let mut sessions = SessionTable::new();
    assert_eq!(sessions.acquire(&key, 1), (1, true));
    sessions.release(&key, 2);
    assert_eq!(sessions.acquire(&key, 3), (1, false));
    sessions.release(&key, 1);
    assert_eq!(sessions.acquire(&key, 3), (3, true));
    let other = SessionKey::new(&tenant(2, "a"), PublicKey { bytes: [1; 32] });
    assert_eq!(sessions.acquire(&other, 4), (4, true));
    assert_eq!(sessions.acquire(&key, 5), (3, false));
}

fn serve(session: &mut Session, gateway: &Nip17Gateway, input: SessionInput) -> Option<RelayFrame> {
    match session.run_session(gateway, SessionEvent::Request(Some(input))) {
        SessionAction::Receive(frame) => Some(frame),
        SessionAction::Wait => None,
        other => panic!("unexpected action: {other:?}"),
    }
}

fn input(id: &str, relay: &str, session: &str, sender: u8) -> SessionInput {
    SessionInput {
        event_id: id.to_string(),
        relay_url: relay.to_string(),
        request: GatewayRequest {
            sender: PublicKey {
                bytes: [sender; 32],
            },
            session_id: session.to_string(),
            frame: RelayFrame::Text(format!("frame {id}")),
        },
    }
}

#[test]
fn sessions_serve_their_owner_and_no_envelope_twice() {
    let gateway = gateway(&nostr::Keys::generate());
    let (mut session, frame) = Session::start(input("e0", "wss://one", "launch", 1));
    assert_eq!(frame, RelayFrame::Text("frame e0".to_string()));
    assert_eq!(serve(&mut session, &gateway, input("e0", "wss://two", "launch", 1)), None);
    assert_eq!(serve(&mut session, &gateway, input("e1", "wss://two", "launch", 2)), None);
    assert_eq!(session.relay_url, "wss://one");
    assert_eq!(
        serve(&mut session, &gateway, input("e1", "wss://two", "relaunch", 1)),
        Some(RelayFrame::Text("frame e1".to_string()))
    );
    assert_eq!(session.relay_url, "wss://two");
    assert_eq!(session.session_id, "relaunch");
}

#[test]
fn sessions_remember_1024_envelopes() {
    let (mut session, _) = Session::start(input("e0", "r", "s", 1));
    let mut fresh = |id: String| session.dispatch_request(id, RelayFrame::Ping).is_some();
    for i in 1..SESSION_DEDUP_CAPACITY {
        assert!(fresh(format!("e{i}")));
    }
    assert!(!fresh("e0".to_string()));
    assert!(fresh("new".to_string()));
    assert!(!fresh("e1".to_string()));
    assert!(fresh("e0".to_string()));
    assert_eq!(session.seen.ids.len(), SESSION_DEDUP_CAPACITY);
    assert_eq!(session.seen.ids[0], "e2");
    assert_eq!(session.seen.ids[1023], "e0");
    assert_eq!(session.relay_url, "r");
}

#[test]
fn sessions_answer_where_the_latest_request_came_from() {
    let client = nostr::Keys::generate();
    let gateway_keys = nostr::Keys::generate();
    let gateway = gateway(&gateway_keys);
    let mut first = input("e0", "wss://one", "launch", 1);
    first.request.sender = PublicKey {
        bytes: client.public_key().to_bytes(),
    };
    let (mut session, _) = Session::start(first);

    let response = RelayFrame::Text("[\"NOTICE\",\"hi\"]".to_string());
    let action = session.run_session(&gateway, SessionEvent::Response(NextFrame::Frame(response)));
    let SessionAction::Publish(encrypted) = action else {
        panic!("expected a response to publish");
    };
    assert_eq!(encrypted.relay_url, "wss://one");
    assert_eq!(open(&client, &encrypted.event).rumor.content, "[\"NOTICE\",\"hi\"]");

    assert!(matches!(
        session.run_session(&gateway, SessionEvent::Response(NextFrame::Frame(RelayFrame::Pong))),
        SessionAction::Wait
    ));
    assert!(matches!(
        session.run_session(&gateway, SessionEvent::Response(NextFrame::Ended)),
        SessionAction::Close
    ));
    assert!(matches!(
        session.run_session(&gateway, SessionEvent::Request(None)),
        SessionAction::Close
    ));
}

#[test]
fn relay_loops_subscribe_publish_and_reconnect() {
    let identity = PublicKey { bytes: [0x11; 32] };
    let hex = "11".repeat(32);
    let (mut relay, action) = RelayLoop::start("wss://one".to_string(), identity);
    assert_eq!(action, RelayAction::Connect);
    assert_eq!(
        relay.run_public_relay(RelayEvent::Connected(false)),
        RelayAction::Wait(2)
    );
    assert_eq!(
        relay.run_public_relay(RelayEvent::DelayOver),
        RelayAction::Connect
    );
    let RelayAction::Subscribe(request) = relay.run_public_relay(RelayEvent::Connected(true))
    else {
        panic!("expected a subscription");
    };
    assert_eq!(request, subscription_request(&identity));
    assert_eq!(
        request,
        format!(
            "[\"REQ\",\"buzz-nip17-{hex}\",{{\"#p\":[\"{hex}\"],\"kinds\":[1059]}}]"
        )
    );
    assert_eq!(
        relay.run_public_relay(RelayEvent::Subscribed(true)),
        RelayAction::Listen
    );

    let response = |url: &str| {
        RelayEvent::Response(EncryptedResponse {
            relay_url: url.to_string(),
            event: "{\"id\":1}".to_string(),
        })
    };
    assert_eq!(relay.run_public_relay(response("wss://two")), RelayAction::Listen);
    assert_eq!(
        relay.run_public_relay(response("wss://one")),
        RelayAction::Publish("[\"EVENT\",{\"id\":1}]".to_string())
    );
    assert_eq!(
        relay.run_public_relay(RelayEvent::Published(true)),
        RelayAction::Listen
    );
    assert_eq!(
        relay.run_public_relay(RelayEvent::ResponsesLagged),
        RelayAction::Listen
    );
    assert_eq!(
        relay.run_public_relay(RelayEvent::OtherMessage),
        RelayAction::Listen
    );
    assert_eq!(
        relay.run_public_relay(RelayEvent::Disconnected),
        RelayAction::Wait(2)
    );
    assert_eq!(relay.state, RelayState::Waiting);
}

#[test]
fn relay_loops_route_gift_wraps_only() {
    let sender = nostr::Keys::generate();
    let recipient = nostr::Keys::generate();
    let (mut relay, _) = RelayLoop::start("wss://one".to_string(), PublicKey { bytes: [1; 32] });
    relay.state = RelayState::Listening;
    let gift_wrap = wrap(&sender, &recipient, request_builder(&recipient, "[]", "s"));
    assert_eq!(
        relay.run_public_relay(RelayEvent::Delivered(gift_wrap.clone())),
        RelayAction::Route(gift_wrap)
    );
    let note = EventBuilder::text_note("hello")
        .sign_with_keys(&sender)
        .expect("sign");
    let note = serde_json::to_string(&note).expect("serialize");
    assert_eq!(
        relay.run_public_relay(RelayEvent::Delivered(note)),
        RelayAction::Listen
    );
    assert_eq!(
        relay.run_public_relay(RelayEvent::ResponsesClosed),
        RelayAction::End
    );
}

#[test]
fn the_runtime_needs_a_usable_configuration() {
    let keys = nostr::Keys::generate();
    let hex = keys.secret_key().to_secret_hex();
    match spawn(&hex, 10) {
        Ok((identity, gateway)) => {
            assert_eq!(identity.public_key().bytes, keys.public_key().to_bytes());
            assert_eq!(gateway.public_key(), identity.public_key());
        }
        Err(error) => panic!("{error}"),
    }
    match spawn("nonsense", 10) {
        Ok(_) => panic!("nonsense is no key"),
        Err(error) => assert!(
            error.starts_with("invalid NIP-17 gateway key after config validation: ")
        ),
    }
    match spawn(&hex, 0) {
        Ok(_) => panic!("no room for a frame"),
        Err(error) => assert_eq!(
            error,
            "invalid NIP-17 gateway: NIP-17 gateway frame limit must be greater than zero"
        ),
    }
}

#[test]
fn events_are_framed_and_read_by_their_position() {
    assert_eq!(
        event_command("{ \"kind\": 1,\n \"id\": \"x\" }"),
        Ok("[\"EVENT\",{\"id\":\"x\",\"kind\":1}]".to_string())
    );
    assert!(event_command("{").is_err());
    assert_eq!(
        delivered_event("[\"EVENT\", \"sub\", {\"id\": 1}]"),
        Some("{\"id\":1}".to_string())
    );
    for other in [
        "[\"NOTICE\",\"sub\",{}]",
        "[\"EVENT\",\"sub\"]",
        "[1,2,3]",
        "{\"0\":\"EVENT\"}",
        "nonsense",
    ] {
        assert_eq!(delivered_event(other), None);
    }

    let json = wrap(
        &nostr::Keys::generate(),
        &nostr::Keys::generate(),
        EventBuilder::new(Kind::PrivateDirectMessage, "[]"),
    );
    let command = event_command(&json).expect("a command");
    let parts: Vec<serde_json::Value> = serde_json::from_str(&command).expect("an array");
    let published: nostr::Event = serde_json::from_value(parts[1].clone()).expect("an event");
    assert_eq!(published, serde_json::from_str(&json).expect("the same event"));
}
