use buzz::connection::{
    relay_frame_to_ws_message, ws_message_to_relay_frame, CloseFrame, WsMessage,
};
use buzz::transport::RelayFrame;

#[test]
fn text_frames_preserve_the_nostr_wire_payload() {
    let frame = RelayFrame::Text("[\"REQ\",\"sub\",{}]".to_string());

    assert_eq!(frame.as_text(), Some("[\"REQ\",\"sub\",{}]"));
}

#[test]
fn binary_frames_are_not_text_frames() {
    assert_eq!(RelayFrame::Binary(vec![0xff]).as_text(), None);
}

#[test]
fn close_frames_keep_restart_details_transport_neutral() {
    let frame = RelayFrame::Close {
        code: 1012,
        reason: "relay restarting".to_string(),
    };

    assert_eq!(
        frame,
        RelayFrame::Close {
            code: 1012,
            reason: "relay restarting".to_string(),
        }
    );
}

#[test]
fn restart_close_frame_keeps_its_code_and_reason_at_the_axum_boundary() {
    let message = relay_frame_to_ws_message(RelayFrame::Close {
        code: 1012,
        reason: "relay restarting".to_string(),
    });

    let WsMessage::Close(Some(close)) = message else {
        panic!("expected a close message");
    };
    assert_eq!(close.code, 1012);
    assert_eq!(close.reason.as_str(), "relay restarting");
}

#[test]
fn frames_survive_the_websocket_boundary() {
    let frames = vec![
        RelayFrame::Text("text".to_string()),
        RelayFrame::Binary(vec![1, 2, 3]),
        RelayFrame::Ping,
        RelayFrame::Pong,
        RelayFrame::Close {
            code: 4000,
            reason: "bye".to_string(),
        },
    ];
    for frame in frames {
        let copy = frame.duplicate();
        assert_eq!(ws_message_to_relay_frame(relay_frame_to_ws_message(frame)), copy);
    }
}

#[test]
fn a_close_without_details_is_a_normal_closure() {
    assert_eq!(
        ws_message_to_relay_frame(WsMessage::Close(None)),
        RelayFrame::Close {
            code: 1000,
            reason: String::new(),
        }
    );
    assert_eq!(ws_message_to_relay_frame(WsMessage::Ping(vec![1])), RelayFrame::Ping);
    assert_eq!(ws_message_to_relay_frame(WsMessage::Pong(vec![1])), RelayFrame::Pong);
    assert_eq!(
        relay_frame_to_ws_message(RelayFrame::Close {
            code: 1000,
            reason: String::new(),
        }),
        WsMessage::Close(Some(CloseFrame {
            code: 1000,
            reason: String::new(),
        }))
    );
}
