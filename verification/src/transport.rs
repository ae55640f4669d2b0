//! Transport-neutral frames.

use vstd::prelude::*;

verus! {

/// A transport-neutral client frame.
///
/// Relay protocol handling consumes text messages. Binary and control frames
/// remain explicit so WebSocket and tunneled transports share the same
/// lifecycle rules.
#[derive(Debug, Clone, PartialEq, Eq)]
pub enum RelayFrame {
    /// A UTF-8 protocol message.
    Text(String),
    /// A binary frame. WebSocket adapters may decode valid UTF-8 payloads.
    Binary(Vec<u8>),
    /// A transport keepalive request.
    Ping,
    /// A transport keepalive response.
    Pong,
    /// A transport close signal with its WebSocket-compatible status details.
    Close {
        /// WebSocket-compatible close status code.
        code: u16,
        /// Human-readable close status reason.
        reason: String,
    },
}

/// The value of a [`RelayFrame`].
pub enum FrameView {
    Text(Seq<char>),
    Binary(Seq<u8>),
    Ping,
    Pong,
    Close { code: u16, reason: Seq<char> },
}

impl View for RelayFrame {
    type V = FrameView;

    open spec fn view(&self) -> FrameView {
        match self {
            RelayFrame::Text(text) => FrameView::Text(text@),
            RelayFrame::Binary(bytes) => FrameView::Binary(bytes@),
            RelayFrame::Ping => FrameView::Ping,
            RelayFrame::Pong => FrameView::Pong,
            RelayFrame::Close { code, reason } => FrameView::Close { code: *code, reason: reason@ },
        }
    }
}

impl RelayFrame {
    /// Returns the frame payload when this is a text protocol message.
    pub fn as_text(&self) -> (text: Option<&str>)
        ensures
            match self@ {
                FrameView::Text(payload) => text matches Some(text) && text@ == payload,
                _ => text is None,
            },
    {
        match self {
            RelayFrame::Text(text) => Some(text.as_str()),
            _ => None,
        }
    }

    /// A frame with the same payload.
    pub fn duplicate(&self) -> (copy: RelayFrame)
        ensures
            copy@ == self@,
    {
        match self {
            RelayFrame::Text(text) => RelayFrame::Text(text.clone()),
            RelayFrame::Binary(bytes) => RelayFrame::Binary(
                vstd::slice::slice_to_vec(bytes.as_slice()),
            ),
            RelayFrame::Ping => RelayFrame::Ping,
            RelayFrame::Pong => RelayFrame::Pong,
            RelayFrame::Close { code, reason } => RelayFrame::Close {
                code: *code,
                reason: reason.clone(),
            },
        }
    }
}

}
