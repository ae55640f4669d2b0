use buzz::auth::{AuthContext, AuthState};
use buzz::connection::{
    choose_frame, classify_frame, control_outcome, topic_for_subscription, topics_to_release,
    ConnectionState, EventTopic, FrameAction, FrameOutcome, Lifecycle, LifecycleAction,
    LifecycleEvent, NextFrame, Offer, Phase, Received, TenantContext, VirtualConnection,
    VirtualConnectionError, VirtualOpening,
};
use buzz::dispatch::{
    request_rejection_message, AdmissionCheck, AdmissionError, FlowAction, LimitType, MessageFlow,
    RateLimits,
};
use buzz::envelope::PublicKey;
use buzz::protocol::ClientMessage;
use buzz::send_loop::{SendAction, SendEvent, SendLoop, SendState, MAX_WS_SEND_BATCH};
use buzz::transport::RelayFrame;

const LIMITS: RateLimits = RateLimits {
    ws_window_secs: 10,
    ws_limit: 50,
    human_messages_per_min: 60,
    agent_standard_messages_per_min: 120,
};

fn tenant() -> TenantContext {
    TenantContext {
        community: 0,
        host: "test.local".to_string(),
    }
}

fn connection(
    send_tx: tokio::sync::mpsc::Sender<RelayFrame>,
    ctrl_tx: tokio::sync::mpsc::Sender<RelayFrame>,
    keepalive: bool,
) -> ConnectionState {
    ConnectionState::pending(
        1,
        tenant(),
        "127.0.0.1:5000".to_string(),
        "test-challenge".to_string(),
        send_tx,
        ctrl_tx,
        3,
        keepalive,
    )
}

fn member(owner: Option<PublicKey>) -> AuthState {
    AuthState::Authenticated(AuthContext {
        pubkey: PublicKey { bytes: [7; 32] },
        agent_owner_pubkey: owner,
    })
}

#[test]
fn transport_neutral_dispatch_returns_the_normal_parse_notice() {
    let (send_tx, mut send_rx) = tokio::sync::mpsc::channel(1);
    let (ctrl_tx, _ctrl_rx) = tokio::sync::mpsc::channel(1);
    let mut conn = connection(send_tx, ctrl_tx, false);

    let course =
        conn.handle_relay_frame(RelayFrame::Text("not valid relay json".to_string()), 1024);
    assert_eq!(
        course,
        FrameOutcome::Dispatch("not valid relay json".to_string())
    );
    let (flow, action) = MessageFlow::handle_text_message(
        Err("expected ident at line 1 column 2".to_string()),
        &conn.auth_state,
        LIMITS,
    );
    assert_eq!(flow, MessageFlow::Finished);
    let FlowAction::Reply(reply) = action else {
        panic!("expected a reply");
    };
    assert!(conn.send(reply));

    let RelayFrame::Text(response) = send_rx.try_recv().expect("parse notice") else {
        panic!("expected text protocol response");
    };
    assert!(response.starts_with("[\"NOTICE\",\"invalid message:"));
}

#[test]
fn req_rejections_are_subscription_scoped() {
    let reason = "rate-limited: too many concurrent requests";
    let closed: serde_json::Value =
        serde_json::from_str(&request_rejection_message(Some("history-123"), reason))
            .expect("parse CLOSED");
    assert_eq!(
        closed,
        serde_json::Value::from(vec!["CLOSED", "history-123", reason])
    );

    let notice: serde_json::Value =
        serde_json::from_str(&request_rejection_message(None, reason)).expect("parse NOTICE");
    assert_eq!(notice, serde_json::Value::from(vec!["NOTICE", reason]));
}

#[test]
fn rejections_escape_what_the_client_sent() {
    let hostile = "a\"b\\c\nd\te\u{1}f\u{7f}\u{1f600}";
    let closed: serde_json::Value =
        serde_json::from_str(&request_rejection_message(Some(hostile), "no")).expect("parse");
    assert_eq!(closed, serde_json::Value::from(vec!["CLOSED", hostile, "no"]));
    assert_eq!(
        request_rejection_message(None, "a\"\\\n\u{8}\u{c}\r\t\u{1f}z"),
        "[\"NOTICE\",\"a\\\"\\\\\\n\\b\\f\\r\\t\\u001fz\"]"
    );
}

#[test]
fn oversize_frames_are_refused_with_a_notice() {
    assert_eq!(
        classify_frame(RelayFrame::Text("abcdef".to_string()), 5),
        FrameAction::Reject(
            "[\"NOTICE\",\"error: frame too large (6 bytes, limit 5)\"]".to_string()
        )
    );
    assert_eq!(
        classify_frame(RelayFrame::Binary(vec![0; 1234]), 1000),
        FrameAction::Reject(
            "[\"NOTICE\",\"error: binary frame too large (1234 bytes, limit 1000)\"]".to_string()
        )
    );
    assert_eq!(
        classify_frame(RelayFrame::Text("abcde".to_string()), 5),
        FrameAction::Dispatch("abcde".to_string())
    );
    assert_eq!(
        classify_frame(RelayFrame::Binary(b"[]".to_vec()), 5),
        FrameAction::Dispatch("[]".to_string())
    );
    assert_eq!(classify_frame(RelayFrame::Binary(vec![0xff]), 5), FrameAction::Ignore);
}

#[test]
fn oversize_frames_close_the_connection() {
    let (send_tx, mut send_rx) = tokio::sync::mpsc::channel(1);
    let (ctrl_tx, _ctrl_rx) = tokio::sync::mpsc::channel(1);
    let mut conn = connection(send_tx, ctrl_tx, false);

    assert_eq!(
        conn.handle_relay_frame(RelayFrame::Text("abcdef".to_string()), 5),
        FrameOutcome::Close
    );
    assert_eq!(
        send_rx.try_recv().expect("notice"),
        RelayFrame::Text(
            "[\"NOTICE\",\"error: frame too large (6 bytes, limit 5)\"]".to_string()
        )
    );
}

#[test]
fn a_ping_is_answered_until_the_control_queue_is_full() {
    let (send_tx, _send_rx) = tokio::sync::mpsc::channel(1);
    let (ctrl_tx, mut ctrl_rx) = tokio::sync::mpsc::channel(1);
    let mut conn = connection(send_tx, ctrl_tx, false);

    assert_eq!(conn.handle_relay_frame(RelayFrame::Ping, 10), FrameOutcome::Continue);
    assert_eq!(conn.handle_relay_frame(RelayFrame::Ping, 10), FrameOutcome::Close);
    assert_eq!(ctrl_rx.try_recv().expect("pong"), RelayFrame::Pong);
    assert_eq!(conn.receive(Received::Ended, 10), FrameOutcome::Close);
    assert_eq!(conn.receive(Received::Failed, 10), FrameOutcome::Close);
    assert_eq!(conn.receive(Received::Cancelled, 10), FrameOutcome::Close);
    assert_eq!(
        conn.receive(Received::Frame(RelayFrame::Binary(vec![0xff])), 10),
        FrameOutcome::Continue
    );
    assert_eq!(
        conn.handle_relay_frame(
            RelayFrame::Close {
                code: 1000,
                reason: String::new()
            },
            10
        ),
        FrameOutcome::Close
    );
    assert_eq!(control_outcome(&Offer::Queued), FrameOutcome::Continue);
    assert_eq!(
        control_outcome(&Offer::Closed(RelayFrame::Pong)),
        FrameOutcome::Close
    );
}

#[test]
fn sustained_backpressure_ends_the_connection_after_the_grace_limit() {
    let (send_tx, mut send_rx) = tokio::sync::mpsc::channel(1);
    let (ctrl_tx, _ctrl_rx) = tokio::sync::mpsc::channel(1);
    let mut conn = connection(send_tx, ctrl_tx, false);

    assert!(conn.send("first".to_string()));
    assert!(!conn.send("second".to_string()));
    assert!(!conn.send("third".to_string()));
    assert_eq!(conn.backpressure_count, 2);
    assert!(!conn.cancelled);
    assert_eq!(
        send_rx.try_recv().expect("queued"),
        RelayFrame::Text("first".to_string())
    );
    assert!(conn.send("fourth".to_string()));
    assert_eq!(conn.backpressure_count, 0);
    for _ in 0..3 {
        assert!(!conn.send("more".to_string()));
        assert!(!conn.cancelled);
    }
    assert!(!conn.send("more".to_string()));
    assert!(conn.cancelled);
}

#[test]
fn frames_within_the_limit_are_taken_whatever_the_backpressure() {
    let (send_tx, _send_rx) = tokio::sync::mpsc::channel(1);
    let (ctrl_tx, _ctrl_rx) = tokio::sync::mpsc::channel(1);
    let mut conn = connection(send_tx, ctrl_tx, false);
    conn.backpressure_count = u8::MAX;

    assert_eq!(
        conn.handle_relay_frame(RelayFrame::Text("[]".to_string()), 10),
        FrameOutcome::Dispatch("[]".to_string())
    );
    assert_eq!(
        conn.receive(Received::Frame(RelayFrame::Ping), 10),
        FrameOutcome::Continue
    );
    assert_eq!(conn.backpressure_count, u8::MAX);
    assert_eq!(conn.remote_addr, "127.0.0.1:5000");
}

#[test]
fn what_is_sent_to_a_virtual_connection_comes_out_of_it() {
    let Ok(mut session) = VirtualConnection::open(
        opening(),
        Some(true),
        false,
        "0.0.0.0:0".to_string(),
        tenant(),
        "c".to_string(),
        2,
        1,
    ) else {
        panic!("expected a session");
    };
    assert!(session.conn.send("data".to_string()));
    assert!(!session.conn.send("dropped".to_string()));
    assert!(session.conn.ctrl_tx.try_send(RelayFrame::Ping).is_ok());
    let mut frames = Vec::new();
    while let NextFrame::Frame(frame) = session.next_frame() {
        frames.push(frame);
    }
    assert_eq!(
        frames,
        vec![
            RelayFrame::Ping,
            RelayFrame::Text("[\"AUTH\",\"c\"]".to_string()),
            RelayFrame::Text("data".to_string()),
        ]
    );
    assert_eq!(session.next_frame(), NextFrame::Wait);
}

#[test]
fn nothing_but_notices_and_answers_is_sent() {
    let (send_tx, mut send_rx) = tokio::sync::mpsc::channel(8);
    let (ctrl_tx, mut ctrl_rx) = tokio::sync::mpsc::channel(8);
    let mut conn = connection(send_tx, ctrl_tx, true);

    for silent in [
        RelayFrame::Text("[]".to_string()),
        RelayFrame::Binary(b"[]".to_vec()),
        RelayFrame::Binary(vec![0xff]),
        RelayFrame::Pong,
        RelayFrame::Close {
            code: 1000,
            reason: String::new(),
        },
    ] {
        conn.handle_relay_frame(silent, 10);
    }
    conn.receive(Received::Ended, 10);
    conn.on_auth_timeout();
    conn.cancel();
    assert!(send_rx.try_recv().is_err());
    assert!(ctrl_rx.try_recv().is_err());

    assert!(conn.send("once".to_string()));
    conn.handle_relay_frame(RelayFrame::Binary(vec![0; 11]), 10);
    conn.handle_relay_frame(RelayFrame::Ping, 10);
    assert!(!conn.heartbeat_tick());
    let notice = "[\"NOTICE\",\"error: binary frame too large (11 bytes, limit 10)\"]";
    assert_eq!(send_rx.try_recv(), Ok(RelayFrame::Text("once".to_string())));
    assert_eq!(send_rx.try_recv(), Ok(RelayFrame::Text(notice.to_string())));
    assert!(send_rx.try_recv().is_err());
    assert_eq!(ctrl_rx.try_recv(), Ok(RelayFrame::Pong));
    assert_eq!(ctrl_rx.try_recv(), Ok(RelayFrame::Ping));
    assert!(ctrl_rx.try_recv().is_err());
}

#[test]
fn a_closed_queue_is_no_backpressure() {
    let (send_tx, send_rx) = tokio::sync::mpsc::channel(1);
    let (ctrl_tx, _ctrl_rx) = tokio::sync::mpsc::channel(1);
    let mut conn = connection(send_tx, ctrl_tx, false);
    drop(send_rx);

    assert!(!conn.send("lost".to_string()));
    assert_eq!(conn.backpressure_count, 0);
    assert!(!conn.cancelled);
}

#[test]
fn three_missed_pongs_disconnect() {
    let (send_tx, _send_rx) = tokio::sync::mpsc::channel(1);
    let (ctrl_tx, mut ctrl_rx) = tokio::sync::mpsc::channel(8);
    let mut conn = connection(send_tx, ctrl_tx, true);

    assert!(!conn.heartbeat_tick());
    assert!(!conn.heartbeat_tick());
    assert_eq!(
        conn.handle_relay_frame(RelayFrame::Pong, 10),
        FrameOutcome::Continue
    );
    assert_eq!(conn.missed_pongs, Some(0));
    assert!(!conn.heartbeat_tick());
    assert!(!conn.heartbeat_tick());
    assert!(!conn.cancelled);
    assert!(conn.heartbeat_tick());
    assert!(conn.cancelled);
    let mut pings = 0;
    while let Ok(frame) = ctrl_rx.try_recv() {
        assert_eq!(frame, RelayFrame::Ping);
        pings += 1;
    }
    assert_eq!(pings, 4);
}

#[test]
fn a_stalled_control_queue_stops_the_heartbeat() {
    let (send_tx, _send_rx) = tokio::sync::mpsc::channel(1);
    let (ctrl_tx, _ctrl_rx) = tokio::sync::mpsc::channel(1);
    let mut conn = connection(send_tx, ctrl_tx, true);

    assert!(!conn.heartbeat_tick());
    assert!(conn.heartbeat_tick());
    assert!(conn.cancelled);
}

#[test]
fn only_unauthenticated_connections_time_out() {
    let (send_tx, _send_rx) = tokio::sync::mpsc::channel(1);
    let (ctrl_tx, _ctrl_rx) = tokio::sync::mpsc::channel(1);
    let mut conn = connection(send_tx.clone(), ctrl_tx.clone(), false);
    conn.on_auth_timeout();
    assert!(conn.cancelled);

    let mut conn = connection(send_tx, ctrl_tx, false);
    conn.auth_state = member(None);
    conn.on_auth_timeout();
    assert!(!conn.cancelled);
    assert_eq!(
        conn.presence_to_clear(0),
        Some(PublicKey { bytes: [7; 32] })
    );
    assert_eq!(conn.presence_to_clear(1), None);
}

fn opening() -> VirtualOpening {
    VirtualOpening::begin(true).expect("a slot")
}

#[test]
fn virtual_connections_need_a_slot_and_an_active_community() {
    assert_eq!(
        VirtualOpening::begin(false),
        Err(VirtualConnectionError::ConnectionLimitReached)
    );
    let open = |active: Option<bool>, cancelled: bool| {
        VirtualConnection::open(
            opening(),
            active,
            cancelled,
            "127.0.0.1:5000".to_string(),
            tenant(),
            "c".to_string(),
            4,
            3,
        )
    };
    for (active, cancelled) in [(None, false), (Some(false), false), (Some(true), true)] {
        assert!(matches!(
            open(active, cancelled),
            Err(VirtualConnectionError::CommunityUnavailable)
        ));
    }
    assert!(open(Some(true), false).is_ok());
}

#[test]
fn connections_have_identifiers_of_their_own() {
    assert_ne!(opening().conn_id, opening().conn_id);
    assert_ne!(
        Lifecycle::handle_connection().conn_id,
        Lifecycle::handle_connection().conn_id
    );
}

#[test]
fn virtual_connections_begin_with_the_challenge() {
    let opening = opening();
    let Ok(mut session) = VirtualConnection::open(
        opening,
        Some(true),
        false,
        "0.0.0.0:0".to_string(),
        tenant(),
        "test-challenge".to_string(),
        4,
        3,
    ) else {
        panic!("expected a session");
    };
    assert_eq!(session.conn.conn_id, opening.conn_id);
    assert_eq!(session.conn.remote_addr, "0.0.0.0:0");
    assert!(session.conn.subscriptions.is_empty());
    assert!(!session.is_authenticated());
    assert_eq!(
        session.next_frame(),
        NextFrame::Frame(RelayFrame::Text("[\"AUTH\",\"test-challenge\"]".to_string()))
    );
    assert_eq!(session.next_frame(), NextFrame::Wait);
    assert_eq!(
        session.receive_frame(RelayFrame::Text("[\"CLOSE\",\"x\"]".to_string()), 100),
        Some("[\"CLOSE\",\"x\"]".to_string())
    );

    assert!(session.conn.send("data".to_string()));
    assert_eq!(session.receive_frame(RelayFrame::Ping, 100), None);
    assert_eq!(session.next_frame(), NextFrame::Frame(RelayFrame::Pong));
    assert_eq!(
        session.next_frame(),
        NextFrame::Frame(RelayFrame::Text("data".to_string()))
    );

    session.conn.auth_state = member(None);
    assert!(session.is_authenticated());
    assert!(session.is_authenticated_as(&[7; 32]));
    assert!(!session.is_authenticated_as(&[8; 32]));
    assert!(!session.is_authenticated_as(&[7; 31]));

    assert_eq!(
        session.receive_frame(
            RelayFrame::Close {
                code: 1000,
                reason: String::new()
            },
            100
        ),
        None
    );
    assert_eq!(session.next_frame(), NextFrame::Ended);
    let (conn, topics) = session.close(&vec![Some(5), None]);
    assert!(conn.cancelled);
    assert_eq!(topics, vec![EventTopic::Channel(5), EventTopic::Global]);
}

#[test]
fn control_frames_come_before_data() {
    let control = RelayFrame::Pong;
    let data = RelayFrame::Text("data".to_string());
    assert_eq!(
        choose_frame(Some(control), Some(data), true),
        NextFrame::Frame(RelayFrame::Pong)
    );
    assert_eq!(
        choose_frame(None, Some(RelayFrame::Ping), true),
        NextFrame::Frame(RelayFrame::Ping)
    );
    assert_eq!(choose_frame(None, None, true), NextFrame::Ended);
    assert_eq!(choose_frame(None, None, false), NextFrame::Wait);
}

#[test]
fn released_topics_follow_the_subscriptions() {
    assert_eq!(topic_for_subscription(None), EventTopic::Global);
    assert_eq!(
        topics_to_release(&vec![None, Some(2), Some(1)]),
        vec![
            EventTopic::Global,
            EventTopic::Channel(2),
            EventTopic::Channel(1)
        ]
    );
}

#[test]
fn a_whole_connection_gives_everything_back() {
    let mut life = Lifecycle::handle_connection();
    let course = [
        (
            LifecycleEvent::CommunityLookup(Some(true)),
            LifecycleAction::ReserveSlot,
        ),
        (LifecycleEvent::Slot(true), LifecycleAction::QueueChallenge),
        (LifecycleEvent::Challenge(true), LifecycleAction::Start),
        (LifecycleEvent::ReceiveEnded, LifecycleAction::StopTasks),
        (LifecycleEvent::TasksEnded, LifecycleAction::CleanUp),
        (LifecycleEvent::CleanedUp, LifecycleAction::Release),
    ];
    for (event, action) in course {
        assert_eq!(life.handle_active_connection(event), action);
    }
    assert_eq!(life.phase, Phase::Closed);
    assert!(!life.has_slot && !life.registered && !life.counted && !life.in_community);
}

#[test]
fn early_disconnects_are_not_counted() {
    for events in [
        vec![LifecycleEvent::CommunityLookup(Some(false))],
        vec![LifecycleEvent::CommunityLookup(None)],
        vec![
            LifecycleEvent::CommunityLookup(Some(true)),
            LifecycleEvent::Slot(false),
        ],
        vec![
            LifecycleEvent::CommunityLookup(Some(true)),
            LifecycleEvent::Slot(true),
            LifecycleEvent::Challenge(false),
        ],
    ] {
        let mut life = Lifecycle::handle_connection();
        let mut last = LifecycleAction::Start;
        for event in events {
            last = life.handle_active_connection(event);
            assert!(!life.counted && !life.registered);
        }
        assert_eq!(last, LifecycleAction::Release);
        assert!(!life.has_slot && !life.in_community);
    }
}

#[test]
fn events_draw_on_both_quotas() {
    let msg = ClientMessage::Event("{}".to_string());
    let (flow, action) =
        MessageFlow::handle_text_message(Ok(msg.clone()), &member(None), LIMITS);
    let key = PublicKey { bytes: [7; 32] };
    assert_eq!(
        action,
        FlowAction::Check(AdmissionCheck {
            pubkey: key,
            limit_type: LimitType::WsEvents,
            window_secs: 10,
            limit: 50
        })
    );
    let (flow, action) = flow.enforce_ws_admission(Ok(()));
    assert_eq!(
        action,
        FlowAction::Check(AdmissionCheck {
            pubkey: key,
            limit_type: LimitType::Messages,
            window_secs: 60,
            limit: 60
        })
    );
    let (flow, action) = flow.enforce_ws_admission(Ok(()));
    assert_eq!(action, FlowAction::ReserveHandler);
    let (flow, action) = flow.on_handler(true);
    assert_eq!(flow, MessageFlow::Finished);
    assert_eq!(action, FlowAction::Serve(msg));
}

#[test]
fn agents_have_their_own_message_quota() {
    let (flow, _) = MessageFlow::handle_text_message(
        Ok(ClientMessage::Event("{}".to_string())),
        &member(Some(PublicKey { bytes: [1; 32] })),
        LIMITS,
    );
    let (_, action) = flow.enforce_ws_admission(Ok(()));
    let FlowAction::Check(check) = action else {
        panic!("expected a check");
    };
    assert_eq!(check.limit, 120);
}

#[test]
fn refusals_say_why() {
    let req = ClientMessage::Req {
        sub_id: "s".to_string(),
        filters: "[]".to_string(),
    };
    let (flow, _) = MessageFlow::handle_text_message(Ok(req.clone()), &member(None), LIMITS);
    let (_, action) =
        flow.enforce_ws_admission(Err(AdmissionError::Exceeded { reset_in_secs: 17 }));
    assert_eq!(
        action,
        FlowAction::Reply(
            "[\"CLOSED\",\"s\",\"rate-limited: quota exceeded; retry in 17s\"]".to_string()
        )
    );

    let count = ClientMessage::Count {
        sub_id: "s".to_string(),
        filters: "[]".to_string(),
    };
    let (flow, _) = MessageFlow::handle_text_message(Ok(count), &member(None), LIMITS);
    let (_, action) = flow.enforce_ws_admission(Err(AdmissionError::Unavailable));
    assert_eq!(
        action,
        FlowAction::Reply(
            "[\"NOTICE\",\"rate-limited: shared admission unavailable\"]".to_string()
        )
    );

    let (flow, action) = MessageFlow::handle_text_message(Ok(req), &AuthState::Failed, LIMITS);
    assert_eq!(action, FlowAction::ReserveHandler);
    let (_, action) = flow.on_handler(false);
    assert_eq!(
        action,
        FlowAction::Reply(
            "[\"CLOSED\",\"s\",\"rate-limited: too many concurrent requests\"]".to_string()
        )
    );
}

#[test]
fn auth_and_close_need_no_handler() {
    let (flow, action) = MessageFlow::handle_text_message(
        Ok(ClientMessage::Auth("{}".to_string())),
        &member(None),
        LIMITS,
    );
    assert_eq!(
        (flow, action),
        (MessageFlow::Finished, FlowAction::Authenticate("{}".to_string()))
    );
    let (_, action) = MessageFlow::handle_text_message(
        Ok(ClientMessage::Close("s".to_string())),
        &member(None),
        LIMITS,
    );
    assert_eq!(action, FlowAction::CloseSubscription("s".to_string()));
}

/// Drives a send loop over queues and a sink that fails at the given flush.
fn drive(
    mut data: Vec<RelayFrame>,
    mut control: Vec<RelayFrame>,
    cancelled: bool,
    fail_at_flush: Option<usize>,
) -> (Vec<String>, usize) {
    data.reverse();
    control.reverse();
    let (mut send_loop, mut action) = SendLoop::new();
    let mut messages: Vec<String> = Vec::new();
    let mut flushes = 0;
    let text = |frame: RelayFrame| match frame {
        RelayFrame::Text(text) => text,
        other => panic!("unexpected frame {other:?}"),
    };
    loop {
        let mut flush = || {
            flushes += 1;
            SendEvent::Sink(fail_at_flush.map_or(true, |limit| flushes < limit))
        };
        let event = match action {
            SendAction::PollControl => SendEvent::Control(control.pop()),
            SendAction::PollData => SendEvent::Data(data.pop()),
            SendAction::Select => {
                if cancelled {
                    SendEvent::Cancelled
                } else if let Some(frame) = control.pop() {
                    SendEvent::Control(Some(frame))
                } else {
                    SendEvent::Data(Some(data.pop().expect("a frame to wait for")))
                }
            }
            SendAction::Write(frame) => {
                messages.push(text(frame));
                flush()
            }
            SendAction::Feed(frame) => {
                messages.push(text(frame));
                SendEvent::Sink(true)
            }
            SendAction::Flush => flush(),
            SendAction::WriteClose => {
                messages.push("<close>".to_string());
                flush()
            }
            SendAction::Stop => return (messages, flushes),
        };
        action = send_loop.send_loop_inner(event);
    }
}

fn texts(names: &[&str]) -> Vec<RelayFrame> {
    names.iter().map(|name| RelayFrame::Text(name.to_string())).collect()
}

#[test]
fn send_loop_batches_queued_data_frames_into_one_flush() {
    let frames = texts(&["data-0", "data-1", "data-2", "data-3", "data-4"]);
    let (messages, flushes) = drive(frames, Vec::new(), false, Some(1));
    assert_eq!(flushes, 1);
    assert_eq!(
        messages,
        vec!["data-0", "data-1", "data-2", "data-3", "data-4"]
    );
}

#[test]
fn send_loop_batch_one_preserves_single_frame_flush_behavior() {
    let (messages, flushes) = drive(texts(&["single"]), Vec::new(), false, Some(1));
    assert_eq!(flushes, 1);
    assert_eq!(messages, vec!["single"]);
}

#[test]
fn send_loop_drains_control_before_batched_data_without_reordering() {
    let (messages, flushes) =
        drive(texts(&["data-0", "data-1"]), texts(&["control"]), false, Some(2));
    assert_eq!(flushes, 2);
    assert_eq!(messages, vec!["control", "data-0", "data-1"]);
}

#[test]
fn send_loop_flushes_queued_control_before_close_on_cancel() {
    let (messages, _) = drive(Vec::new(), texts(&["blocked: you are banned"]), true, None);
    assert_eq!(messages, vec!["blocked: you are banned", "<close>"]);
}

#[test]
fn send_loop_batches_are_bounded() {
    let frames = (0..100).map(|i| RelayFrame::Text(format!("data-{i}"))).collect();
    let (messages, flushes) = drive(frames, Vec::new(), false, Some(1));
    assert_eq!(flushes, 1);
    assert_eq!(messages.len(), MAX_WS_SEND_BATCH);
    assert_eq!(messages[63], "data-63");
}

#[test]
fn a_control_frame_that_cannot_be_written_does_not_keep_the_close_back() {
    let mut send_loop = SendLoop {
        state: SendState::Selecting,
    };
    assert_eq!(
        send_loop.send_loop_inner(SendEvent::Cancelled),
        SendAction::PollControl
    );
    assert_eq!(
        send_loop.send_loop_inner(SendEvent::Control(Some(RelayFrame::Pong))),
        SendAction::Write(RelayFrame::Pong)
    );
    assert_eq!(
        send_loop.send_loop_inner(SendEvent::Sink(false)),
        SendAction::WriteClose
    );
    assert_eq!(
        send_loop.send_loop_inner(SendEvent::Sink(false)),
        SendAction::Stop
    );
    assert_eq!(send_loop.state, SendState::Stopped);
}
