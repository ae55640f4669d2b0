//! Relay connection lifecycle: permit, challenge, receive, keepalive, cleanup.
//!
//! The rules here are those that WebSocket connections and tunneled virtual
//! connections share. An adapter owns the sockets, timers and locks; it asks
//! this module what to do and reports back what happened.

use vstd::prelude::*;
use vstd::string::*;
use vstd::utf8::*;

use crate::auth::AuthState;
use crate::envelope::PublicKey;
use crate::identifiers;
use crate::protocol;
use crate::text;
use crate::transport::{FrameView, RelayFrame};

verus! {

/// Seconds that a new socket may hold a connection slot without completing
/// authentication.
pub const AUTH_TIMEOUT_SECS: u64 = 5;

/// Seconds between two keepalive requests.
pub const HEARTBEAT_SECS: u64 = 30;

/// Control frames that wait for the writer at most.
pub const CONTROL_QUEUE_CAPACITY: usize = 8;

/// The tenant that a connection is bound to, resolved before any frame is read
/// and never overridable by client-supplied input.
#[derive(Debug, Clone, PartialEq, Eq)]
pub struct TenantContext {
    /// Community identifier.
    pub community: u128,
    /// Host that the community was resolved from.
    pub host: String,
}

/// Why a virtual connection could not be opened.
#[derive(Debug, Clone, Copy, PartialEq, Eq)]
pub enum VirtualConnectionError {
    /// The relay has reached its configured connection limit.
    ConnectionLimitReached,
    /// The tenant was archived or could not be revalidated.
    CommunityUnavailable,
}

/// A bounded queue of outbound frames.
#[verifier::external_type_specification]
#[verifier::external_body]
#[verifier::reject_recursive_types(T)]
pub struct ExSender<T>(tokio::sync::mpsc::Sender<T>);

/// What became of a frame offered to an outbound queue.
#[derive(Debug, Clone, PartialEq, Eq)]
pub enum Offer {
    /// The frame was queued.
    Queued,
    /// The queue was full; the frame is handed back.
    Full(RelayFrame),
    /// The reader is gone; the frame is handed back.
    Closed(RelayFrame),
}

/// The receiving end of a queue of frames.
#[verifier::external_type_specification]
#[verifier::external_body]
#[verifier::reject_recursive_types(T)]
pub struct ExReceiver<T>(tokio::sync::mpsc::Receiver<T>);

/// A number for the queue that this end writes to, the same for all its ends.
pub uninterp spec fn queue_written(queue: tokio::sync::mpsc::Sender<RelayFrame>) -> int;

/// A number for the queue that this end reads from, the same for all its ends.
pub uninterp spec fn queue_read(queue: tokio::sync::mpsc::Receiver<RelayFrame>) -> int;

/// Whether `frame` is among the frames that go through a queue during its life.
pub uninterp spec fn carries(queue: int, frame: FrameView) -> bool;

/// Whether `frame` is among the frames that `queue` takes in during its life.
pub open spec fn takes_in(
    queue: tokio::sync::mpsc::Sender<RelayFrame>,
    frame: FrameView,
) -> bool {
    carries(queue_written(queue), frame)
}

/// Whether `frame` is among the frames that `queue` may give out: those that
/// the queue took in.
pub open spec fn may_give(
    queue: tokio::sync::mpsc::Receiver<RelayFrame>,
    frame: FrameView,
) -> bool {
    carries(queue_read(queue), frame)
}

/// Whether the two are the ends of one queue, so that what goes in at the first
/// comes out at the second.
pub open spec fn joined(
    writer: tokio::sync::mpsc::Sender<RelayFrame>,
    reader: tokio::sync::mpsc::Receiver<RelayFrame>,
) -> bool {
    queue_written(writer) == queue_read(reader)
}

/// The frames that went into its queue through this end, in order.
pub uninterp spec fn sent(queue: tokio::sync::mpsc::Sender<RelayFrame>) -> Seq<FrameView>;

/// Whether a queue has no room left at some time in its life.
pub uninterp spec fn fills_up(queue: int) -> bool;

/// Whether a queue loses its reader at some time in its life.
pub uninterp spec fn loses_reader(queue: int) -> bool;

/// Whether `queue` has reason, at some time in its life, to refuse a frame.
pub open spec fn refuses(queue: tokio::sync::mpsc::Sender<RelayFrame>) -> bool {
    fills_up(queue_written(queue)) || loses_reader(queue_written(queue))
}

/// Whether `after` is `before` after `frame` was offered to it: the frame, and
/// nothing else, went in if it was queued, and nothing went in if it was not.
pub open spec fn appended(
    before: tokio::sync::mpsc::Sender<RelayFrame>,
    after: tokio::sync::mpsc::Sender<RelayFrame>,
    frame: FrameView,
    queued: bool,
) -> bool {
    &&& queue_written(after) == queue_written(before)
    &&& sent(after) == if queued {
        sent(before).push(frame)
    } else {
        sent(before)
    }
}

/// Offers a frame to an outbound queue without waiting.
///
/// Calls `tokio::sync::mpsc::Sender::try_send`. Which outcome comes depends on
/// what other tasks have queued and read. A frame that is reported as queued went
/// in once, after those that went in through this end before, and is among those
/// that the queue carries. One that was not queued is handed back as it was, as
/// full only by a queue that has no room left, and as closed only by one that has
/// lost its reader; nothing went in.
#[verifier::external_body]
fn offer(queue: &mut tokio::sync::mpsc::Sender<RelayFrame>, frame: RelayFrame) -> (outcome: Offer)
    ensures
        queue_written(*final(queue)) == queue_written(*old(queue)),
        sent(*final(queue)) == if outcome is Queued {
            sent(*old(queue)).push(frame@)
        } else {
            sent(*old(queue))
        },
        match outcome {
            Offer::Queued => carries(queue_written(*old(queue)), frame@),
            Offer::Full(back) => back@ == frame@ && fills_up(queue_written(*old(queue))),
            Offer::Closed(back) => back@ == frame@ && loses_reader(queue_written(*old(queue))),
        },
{
    match queue.try_send(frame) {
        Ok(()) => Offer::Queued,
        Err(tokio::sync::mpsc::error::TrySendError::Full(frame)) => Offer::Full(frame),
        Err(tokio::sync::mpsc::error::TrySendError::Closed(frame)) => Offer::Closed(frame),
    }
}

/// A subscription of a connection.
#[derive(Debug, Clone, PartialEq, Eq)]
pub struct Subscription {
    /// Subscription identifier.
    pub sub_id: String,
    /// Its filters, as JSON.
    pub filters: Vec<String>,
}

/// Per-connection state.
pub struct ConnectionState {
    /// Unique identifier for this connection.
    pub conn_id: u128,
    /// The community this connection is bound to.
    pub tenant: TenantContext,
    /// Remote socket address of the client.
    pub remote_addr: String,
    /// Current authentication state.
    pub auth_state: AuthState,
    /// Active subscriptions.
    pub subscriptions: Vec<Subscription>,
    /// Queue of outbound data messages (EVENT, NOTICE, OK, etc.).
    pub send_tx: tokio::sync::mpsc::Sender<RelayFrame>,
    /// Queue of outbound control frames. Separate, with priority drain: if it
    /// fills too, the writer is completely stalled and the connection ends.
    pub ctrl_tx: tokio::sync::mpsc::Sender<RelayFrame>,
    /// Whether the connection's tasks have been told to stop.
    pub cancelled: bool,
    /// Consecutive buffer-full events. The connection ends only after
    /// `grace_limit` of them.
    pub backpressure_count: u8,
    /// Buffer-full events in a row that the connection survives.
    pub grace_limit: u8,
    /// Keepalive requests without an answer, for transports that emit them.
    pub missed_pongs: Option<u8>,
}

/// The part of a [`ConnectionState`] that frames and queues move.
pub struct Health {
    pub cancelled: bool,
    pub backpressure_count: u8,
    pub missed_pongs: Option<u8>,
}

impl ConnectionState {
    /// The part of the state that frames and queues move.
    pub open spec fn health(&self) -> Health {
        Health {
            cancelled: self.cancelled,
            backpressure_count: self.backpressure_count,
            missed_pongs: self.missed_pongs,
        }
    }

    /// Whether everything but the health is as in `other`, and the outbound
    /// queues are the same ones.
    pub open spec fn same_identity(&self, other: &ConnectionState) -> bool {
        &&& self.conn_id == other.conn_id
        &&& self.tenant == other.tenant
        &&& self.remote_addr == other.remote_addr
        &&& self.auth_state == other.auth_state
        &&& self.subscriptions == other.subscriptions
        &&& queue_written(self.send_tx) == queue_written(other.send_tx)
        &&& queue_written(self.ctrl_tx) == queue_written(other.ctrl_tx)
        &&& self.grace_limit == other.grace_limit
    }

    /// Whether nothing was sent since `other`.
    pub open spec fn sent_nothing_since(&self, other: &ConnectionState) -> bool {
        self.send_tx == other.send_tx && self.ctrl_tx == other.ctrl_tx
    }

    /// Whether the data message `text`, and nothing else, was offered since
    /// `other`, and was `queued`.
    pub open spec fn sent_data_since(
        &self,
        other: &ConnectionState,
        text: Seq<char>,
        queued: bool,
    ) -> bool {
        &&& appended(other.send_tx, self.send_tx, FrameView::Text(text), queued)
        &&& self.ctrl_tx == other.ctrl_tx
    }

    /// Whether the control frame `frame`, and nothing else, was offered since
    /// `other`, and was `queued`.
    pub open spec fn sent_control_since(
        &self,
        other: &ConnectionState,
        frame: FrameView,
        queued: bool,
    ) -> bool {
        &&& appended(other.ctrl_tx, self.ctrl_tx, frame, queued)
        &&& self.send_tx == other.send_tx
    }
}

/// The health of a connection after a data message met a full buffer.
///
/// The run of buffer-full events grows; one more than `grace_limit` of them tell
/// the connection to stop.
pub open spec fn health_after_full(before: Health, grace_limit: u8) -> Health {
    let count = (before.backpressure_count + 1) as u8;
    Health {
        backpressure_count: count,
        cancelled: before.cancelled || count > grace_limit,
        ..before
    }
}

/// The health of a connection after a data message was offered to its queue.
///
/// A message that goes through ends the run of buffer-full events.
pub open spec fn health_after_offer(before: Health, grace_limit: u8, outcome: Offer) -> Health {
    match outcome {
        Offer::Queued => Health { backpressure_count: 0, ..before },
        Offer::Full(_) => health_after_full(before, grace_limit),
        Offer::Closed(_) => before,
    }
}

/// Whether offering the data message `text` to `queue` may take a connection
/// from one health to another: the queue takes the message in, or it is full
/// and that is counted, or its reader is gone and nothing changes.
pub open spec fn offered(
    queue: tokio::sync::mpsc::Sender<RelayFrame>,
    text: Seq<char>,
    before: Health,
    after: Health,
    grace_limit: u8,
    queued: bool,
) -> bool {
    if queued {
        &&& takes_in(queue, FrameView::Text(text))
        &&& after == Health { backpressure_count: 0, ..before }
    } else {
        ||| fills_up(queue_written(queue)) && after == health_after_full(before, grace_limit)
        ||| loses_reader(queue_written(queue)) && after == before
    }
}

/// What becomes of a data message touches the run of buffer-full events and
/// nothing else, but that a run over the grace limit ends the connection: one
/// more for a full buffer, none for a message that goes through, and no change
/// when the reader is gone.
pub proof fn offers_are_counted(before: Health, grace_limit: u8, outcome: Offer)
    requires
        outcome is Full ==> before.backpressure_count < u8::MAX,
    ensures
        ({
            let after = health_after_offer(before, grace_limit, outcome);
            &&& after.missed_pongs == before.missed_pongs
            &&& outcome is Closed ==> after == before
            &&& outcome is Queued ==> after.backpressure_count == 0 && after.cancelled
                == before.cancelled
            &&& outcome is Full ==> after.backpressure_count == before.backpressure_count + 1
            &&& outcome is Full ==> (after.cancelled <==> before.cancelled
                || before.backpressure_count + 1 > grace_limit)
        }),
{
}

/// A message that was sent is in the queue and ends the run of buffer-full events;
/// one that was not is counted or found its reader gone. Nothing else changes but
/// that a run over the grace limit ends the connection.
pub proof fn sent_messages_are_queued_or_counted(
    queue: tokio::sync::mpsc::Sender<RelayFrame>,
    text: Seq<char>,
    before: Health,
    after: Health,
    grace_limit: u8,
    queued: bool,
)
    requires
        before.backpressure_count < u8::MAX,
        offered(queue, text, before, after, grace_limit, queued),
    ensures
        after.missed_pongs == before.missed_pongs,
        queued ==> after.backpressure_count == 0 && after.cancelled == before.cancelled
            && takes_in(queue, FrameView::Text(text)),
        !queued ==> refuses(queue),
        !queued && after.backpressure_count != before.backpressure_count
            ==> after.backpressure_count == before.backpressure_count + 1 && (after.cancelled
            <==> before.cancelled || before.backpressure_count + 1 > grace_limit),
        !queued && after.backpressure_count == before.backpressure_count ==> after == before,
{
}

/// The health of a connection after a keepalive answer arrived.
pub open spec fn health_after_pong(before: Health) -> Health {
    Health {
        missed_pongs: match before.missed_pongs {
            Some(_) => Some(0u8),
            None => None,
        },
        ..before
    }
}

impl ConnectionState {
    /// A connection that has been challenged and has not answered.
    pub fn pending(
        conn_id: u128,
        tenant: TenantContext,
        remote_addr: String,
        challenge: String,
        send_tx: tokio::sync::mpsc::Sender<RelayFrame>,
        ctrl_tx: tokio::sync::mpsc::Sender<RelayFrame>,
        grace_limit: u8,
        keepalive: bool,
    ) -> (state: ConnectionState)
        ensures
            state.conn_id == conn_id,
            state.tenant == tenant,
            state.remote_addr == remote_addr,
            state.subscriptions@ == Seq::<Subscription>::empty(),
            state.auth_state == (AuthState::Pending { challenge }),
            state.send_tx == send_tx,
            state.ctrl_tx == ctrl_tx,
            state.grace_limit == grace_limit,
            state.health() == (Health {
                cancelled: false,
                backpressure_count: 0,
                missed_pongs: if keepalive {
                    Some(0u8)
                } else {
                    None
                },
            }),
    {
        let missed_pongs: Option<u8> = if keepalive {
            Some(0)
        } else {
            None
        };
        ConnectionState {
            conn_id,
            tenant,
            remote_addr,
            auth_state: AuthState::Pending { challenge },
            subscriptions: Vec::new(),
            send_tx,
            ctrl_tx,
            cancelled: false,
            backpressure_count: 0,
            grace_limit,
            missed_pongs,
        }
    }

    /// Records what became of a data message that was offered to the queue.
    /// Returns whether it was queued.
    pub fn record_offer(&mut self, outcome: &Offer) -> (queued: bool)
        requires
            outcome is Full ==> old(self).backpressure_count < u8::MAX,
        ensures
            queued == (outcome is Queued),
            final(self).health() == health_after_offer(
                old(self).health(),
                old(self).grace_limit,
                *outcome,
            ),
            final(self).same_identity(old(self)),
            final(self).sent_nothing_since(old(self)),
    {
        match outcome {
            Offer::Queued => {
                self.backpressure_count = 0;
                true
            },
            Offer::Full(_) => {
                let count: u8 = self.backpressure_count + 1;
                self.backpressure_count = count;
                if count > self.grace_limit {
                    self.cancelled = true;
                }
                false
            },
            Offer::Closed(_) => false,
        }
    }

    /// Sends a data message to this connection's outbound queue.
    ///
    /// On a full buffer, the run of buffer-full events grows. The first
    /// `grace_limit` of them are survived; sustained backpressure ends the
    /// connection to prevent unbounded memory growth. A message is dropped
    /// without being counted only once the reader is gone.
    pub fn send(&mut self, msg: String) -> (queued: bool)
        requires
            old(self).backpressure_count < u8::MAX,
        ensures
            offered(
                old(self).send_tx,
                msg@,
                old(self).health(),
                final(self).health(),
                old(self).grace_limit,
                queued,
            ),
            final(self).sent_data_since(old(self), msg@, queued),
            final(self).same_identity(old(self)),
    {
        let outcome = offer(&mut self.send_tx, RelayFrame::Text(msg));
        self.record_offer(&outcome)
    }
}

/// The health of a connection after its time to authenticate is over.
pub open spec fn health_after_auth_timeout(before: Health, auth: AuthState) -> Health {
    Health { cancelled: before.cancelled || auth.identity() is None, ..before }
}

/// A connection that has authenticated in time goes on as it was, and any other is
/// told to stop, a failed attempt as well as none.
pub proof fn unauthenticated_connections_are_stopped(before: Health, auth: AuthState)
    ensures
        auth is Authenticated ==> health_after_auth_timeout(before, auth) == before,
        auth !is Authenticated ==> health_after_auth_timeout(before, auth) == (Health {
            cancelled: true,
            ..before
        }),
{
}

/// What an inbound frame asks of its connection.
#[derive(Debug, Clone, PartialEq, Eq)]
pub enum FrameAction {
    /// Hand the text to the protocol dispatcher.
    Dispatch(String),
    /// Send this notice and close.
    Reject(String),
    /// Answer a keepalive request.
    Answer,
    /// Note a keepalive answer.
    Refresh,
    /// Nothing.
    Ignore,
    /// Close.
    Close,
}

/// The value of a [`FrameAction`].
pub enum FrameActionView {
    Dispatch(Seq<char>),
    Reject(Seq<char>),
    Answer,
    Refresh,
    Ignore,
    Close,
}

impl View for FrameAction {
    type V = FrameActionView;

    open spec fn view(&self) -> FrameActionView {
        match self {
            FrameAction::Dispatch(text) => FrameActionView::Dispatch(text@),
            FrameAction::Reject(notice) => FrameActionView::Reject(notice@),
            FrameAction::Answer => FrameActionView::Answer,
            FrameAction::Refresh => FrameActionView::Refresh,
            FrameAction::Ignore => FrameActionView::Ignore,
            FrameAction::Close => FrameActionView::Close,
        }
    }
}

/// The notice for a frame of `size` bytes over the limit of `limit` bytes.
pub open spec fn oversize_notice(what: Seq<char>, size: nat, limit: nat) -> Seq<char> {
    "[\"NOTICE\",\"error: "@ + what + " too large ("@ + text::decimal(size) + " bytes, limit "@
        + text::decimal(limit) + ")\"]"@
}

/// What `frame` asks of its connection, with frames limited to `limit` bytes.
///
/// Text goes to the dispatcher, and so do binary frames that hold UTF-8;
/// whatever exceeds the limit is refused before it is looked at.
pub open spec fn frame_action(frame: FrameView, limit: nat) -> FrameActionView {
    match frame {
        FrameView::Text(payload) => if text::utf8_len(payload) > limit {
            FrameActionView::Reject(oversize_notice("frame"@, text::utf8_len(payload), limit))
        } else {
            FrameActionView::Dispatch(payload)
        },
        FrameView::Binary(bytes) => if bytes.len() > limit {
            FrameActionView::Reject(oversize_notice("binary frame"@, bytes.len(), limit))
        } else if valid_utf8(bytes) {
            FrameActionView::Dispatch(decode_utf8(bytes))
        } else {
            FrameActionView::Ignore
        },
        FrameView::Pong => FrameActionView::Refresh,
        FrameView::Ping => FrameActionView::Answer,
        FrameView::Close { .. } => FrameActionView::Close,
    }
}

/// Whatever text a frame holds is dispatched as that text, be the frame textual or
/// binary, as long as it keeps the limit in bytes; over the limit either is
/// refused with a notice of its size and the limit. Bytes that are no text are
/// passed over. Keepalives and closes have no limit.
pub proof fn texts_within_the_limit_are_dispatched(
    payload: Seq<char>,
    bytes: Seq<u8>,
    code: u16,
    reason: Seq<char>,
    limit: nat,
)
    ensures
        ({
            let size = text::utf8_len(payload);
            let text_frame = frame_action(FrameView::Text(payload), limit);
            let binary_frame = frame_action(FrameView::Binary(encode_utf8(payload)), limit);
            &&& size <= limit ==> text_frame == FrameActionView::Dispatch(payload)
            &&& size <= limit ==> binary_frame == FrameActionView::Dispatch(payload)
            &&& size > limit ==> text_frame == FrameActionView::Reject(
                "[\"NOTICE\",\"error: "@ + "frame"@ + " too large ("@ + text::decimal(size)
                    + " bytes, limit "@ + text::decimal(limit) + ")\"]"@,
            )
            &&& size > limit ==> binary_frame == FrameActionView::Reject(
                "[\"NOTICE\",\"error: "@ + "binary frame"@ + " too large ("@ + text::decimal(size)
                    + " bytes, limit "@ + text::decimal(limit) + ")\"]"@,
            )
        }),
        bytes.len() <= limit && !valid_utf8(bytes) ==> frame_action(FrameView::Binary(bytes), limit)
            is Ignore,
        bytes.len() > limit ==> frame_action(FrameView::Binary(bytes), limit)
            == FrameActionView::Reject(
            "[\"NOTICE\",\"error: "@ + "binary frame"@ + " too large ("@ + text::decimal(
                bytes.len(),
            ) + " bytes, limit "@ + text::decimal(limit) + ")\"]"@,
        ),
        frame_action(FrameView::Ping, limit) is Answer,
        frame_action(FrameView::Pong, limit) is Refresh,
        frame_action(FrameView::Close { code, reason }, limit) is Close,
{
    encode_utf8_valid_utf8(payload);
    encode_utf8_decode_utf8(payload);
}

fn oversize_notice_text(what: &str, size: usize, limit: usize) -> (notice: String)
    ensures
        notice@ == oversize_notice(what@, size as nat, limit as nat),
{
    let mut notice = text::join3("[\"NOTICE\",\"error: ", what, " too large (");
    notice.append(text::decimal_text(size as u64).as_str());
    notice.append(" bytes, limit ");
    notice.append(text::decimal_text(limit as u64).as_str());
    notice.append(")\"]");
    notice
}

/// Decides what `frame` asks of its connection.
pub fn classify_frame(frame: RelayFrame, max_frame_bytes: usize) -> (action: FrameAction)
    ensures
        action@ == frame_action(frame@, max_frame_bytes as nat),
{
    match frame {
        RelayFrame::Text(payload) => {
            let size = text::byte_len(payload.as_str());
            if size > max_frame_bytes {
                FrameAction::Reject(oversize_notice_text("frame", size, max_frame_bytes))
            } else {
                FrameAction::Dispatch(payload)
            }
        },
        RelayFrame::Binary(bytes) => {
            let size = bytes.len();
            if size > max_frame_bytes {
                FrameAction::Reject(oversize_notice_text("binary frame", size, max_frame_bytes))
            } else {
                match text::text_from_utf8(bytes) {
                    Some(payload) => FrameAction::Dispatch(payload),
                    None => FrameAction::Ignore,
                }
            }
        },
        RelayFrame::Pong => FrameAction::Refresh,
        RelayFrame::Ping => FrameAction::Answer,
        RelayFrame::Close { .. } => FrameAction::Close,
    }
}

/// How a connection goes on after a frame.
#[derive(Debug, Clone, PartialEq, Eq)]
pub enum FrameOutcome {
    /// Hand the text to the protocol dispatcher and go on.
    Dispatch(String),
    /// Go on.
    Continue,
    /// Close.
    Close,
}

/// What a receive loop wakes up for.
#[derive(Debug, Clone, PartialEq, Eq)]
pub enum Received {
    /// A frame arrived.
    Frame(RelayFrame),
    /// The transport failed.
    Failed,
    /// The peer is gone.
    Ended,
    /// The connection was told to stop.
    Cancelled,
}

/// Whether `before` may become `after`, with this outcome, on a frame that asks
/// for `action`.
///
/// Nothing is sent but the notice of a refusal and the answer to a ping.
///
/// A connection goes on after a ping only if its control queue takes the answer
/// in, and closes only if that queue is full or has lost its reader.
pub open spec fn frame_handled(
    action: FrameActionView,
    before: ConnectionState,
    after: ConnectionState,
    course: FrameOutcome,
) -> bool {
    match action {
        FrameActionView::Dispatch(payload) => {
            &&& course matches FrameOutcome::Dispatch(message)
            &&& message@ == payload
            &&& after.health() == before.health()
            &&& after.sent_nothing_since(&before)
        },
        FrameActionView::Reject(notice) => {
            &&& course is Close
            &&& refused(before, notice, after.health(), after)
        },
        FrameActionView::Answer => {
            &&& after.health() == before.health()
            &&& course is Continue || course is Close
            &&& course is Continue ==> takes_in(before.ctrl_tx, FrameView::Pong)
            &&& course is Close ==> refuses(before.ctrl_tx)
            &&& after.sent_control_since(&before, FrameView::Pong, course is Continue)
        },
        FrameActionView::Refresh => {
            &&& course is Continue
            &&& after.health() == health_after_pong(before.health())
            &&& after.sent_nothing_since(&before)
        },
        FrameActionView::Ignore => {
            &&& course is Continue
            &&& after.health() == before.health()
            &&& after.sent_nothing_since(&before)
        },
        FrameActionView::Close => {
            &&& course is Close
            &&& after.health() == before.health()
            &&& after.sent_nothing_since(&before)
        },
    }
}

/// A socket hands a text on to the handlers exactly if it keeps the limit, and
/// nothing but a text; it closes for a frame that is refused or closes it, or
/// when a ping cannot be answered, and goes on after any other.
pub proof fn sockets_close_for_what_they_refuse(
    frame: FrameView,
    limit: nat,
    before: ConnectionState,
    after: ConnectionState,
    course: FrameOutcome,
)
    requires
        frame_handled(frame_action(frame, limit), before, after, course),
    ensures
        frame matches FrameView::Text(payload) ==> {
            if text::utf8_len(payload) <= limit {
                &&& course matches FrameOutcome::Dispatch(message)
                &&& message@ == payload
                &&& after.health() == before.health()
                &&& after.sent_nothing_since(&before)
                &&& after.send_tx == before.send_tx && after.ctrl_tx == before.ctrl_tx
            } else {
                &&& course is Close
                &&& {
                    ||| sent(after.send_tx) == sent(before.send_tx)
                    ||| sent(after.send_tx) == sent(before.send_tx).push(
                        FrameView::Text(
                            oversize_notice("frame"@, text::utf8_len(payload), limit),
                        ),
                    )
                }
            }
        },
        frame matches FrameView::Binary(bytes) ==> bytes.len() <= limit && !valid_utf8(bytes) ==> {
            &&& course is Continue
            &&& after.health() == before.health()
            &&& after.send_tx == before.send_tx
        },
        frame matches FrameView::Binary(bytes) ==> bytes.len() <= limit && valid_utf8(bytes) ==> {
            &&& course matches FrameOutcome::Dispatch(message)
            &&& message@ == decode_utf8(bytes)
            &&& after.health() == before.health()
            &&& after.send_tx == before.send_tx
        },
        frame matches FrameView::Binary(bytes) ==> bytes.len() > limit ==> course is Close,
        frame is Pong || frame is Close ==> after.send_tx == before.send_tx,
        frame is Close ==> course is Close && after.health() == before.health(),
        frame is Pong ==> {
            &&& course is Continue
            &&& after.missed_pongs is Some <==> before.missed_pongs is Some
            &&& after.missed_pongs matches Some(missed) ==> missed == 0
            &&& after.cancelled == before.cancelled
            &&& after.backpressure_count == before.backpressure_count
        },
        frame is Ping ==> {
            &&& after.health() == before.health()
            &&& course is Continue <==> course !is Close
            &&& after.send_tx == before.send_tx
            &&& course is Continue ==> sent(after.ctrl_tx) == sent(before.ctrl_tx).push(
                FrameView::Pong,
            )
            &&& course is Close ==> sent(after.ctrl_tx) == sent(before.ctrl_tx)
        },
        frame !is Ping ==> after.ctrl_tx == before.ctrl_tx,
        course is Dispatch ==> frame is Text || frame is Binary,
{
}

/// Whether offering `notice`, once and nothing else, may take a connection from
/// `before` to `health` and to the queues of `after`.
pub open spec fn refused(
    before: ConnectionState,
    notice: Seq<char>,
    health: Health,
    after: ConnectionState,
) -> bool {
    exists|queued: bool| #[trigger] refused_as(before, notice, health, after, queued)
}

/// [`refused`], with the notice queued or not.
pub open spec fn refused_as(
    before: ConnectionState,
    notice: Seq<char>,
    health: Health,
    after: ConnectionState,
    queued: bool,
) -> bool {
    &&& offered(before.send_tx, notice, before.health(), health, before.grace_limit, queued)
    &&& after.sent_data_since(&before, notice, queued)
}

/// How a connection goes on after a control frame was offered to its queue.
///
/// A queue that refuses means that the writer is stalled or gone.
pub fn control_outcome(outcome: &Offer) -> (course: FrameOutcome)
    ensures
        course == (if outcome is Queued {
            FrameOutcome::Continue
        } else {
            FrameOutcome::Close
        }),
{
    match outcome {
        Offer::Queued => FrameOutcome::Continue,
        _ => FrameOutcome::Close,
    }
}

impl ConnectionState {
    /// Applies transport-neutral frame validation.
    ///
    /// A [`FrameOutcome::Dispatch`] carries a message for the protocol handlers.
    /// A full control queue keeps a ping from being answered;
    /// [`control_outcome`] tells what follows.
    pub fn handle_relay_frame(&mut self, frame: RelayFrame, max_frame_bytes: usize) -> (course:
        FrameOutcome)
        requires
            frame_action(frame@, max_frame_bytes as nat) is Reject
                ==> old(self).backpressure_count < u8::MAX,
        ensures
            frame_handled(
                frame_action(frame@, max_frame_bytes as nat),
                *old(self),
                *final(self),
                course,
            ),
            final(self).same_identity(old(self)),
    {
        match classify_frame(frame, max_frame_bytes) {
            FrameAction::Dispatch(message) => FrameOutcome::Dispatch(message),
            FrameAction::Reject(notice) => {
                let queued = self.send(notice);
                assert(refused_as(*old(self), notice@, self.health(), *self, queued));
                FrameOutcome::Close
            },
            FrameAction::Answer => {
                let outcome = offer(&mut self.ctrl_tx, RelayFrame::Pong);
                control_outcome(&outcome)
            },
            FrameAction::Refresh => {
                if self.missed_pongs.is_some() {
                    self.missed_pongs = Some(0);
                }
                FrameOutcome::Continue
            },
            FrameAction::Ignore => FrameOutcome::Continue,
            FrameAction::Close => FrameOutcome::Close,
        }
    }

    /// One turn of the receive loop.
    pub fn receive(&mut self, received: Received, max_frame_bytes: usize) -> (course: FrameOutcome)
        requires
            received matches Received::Frame(frame) ==> frame_action(
                frame@,
                max_frame_bytes as nat,
            ) is Reject ==> old(self).backpressure_count < u8::MAX,
        ensures
            match received {
                Received::Frame(frame) => frame_handled(
                    frame_action(frame@, max_frame_bytes as nat),
                    *old(self),
                    *final(self),
                    course,
                ),
                _ => {
                    &&& course is Close
                    &&& final(self).health() == old(self).health()
                    &&& final(self).sent_nothing_since(old(self))
                },
            },
            final(self).same_identity(old(self)),
    {
        match received {
            Received::Frame(frame) => self.handle_relay_frame(frame, max_frame_bytes),
            _ => FrameOutcome::Close,
        }
    }

    /// Tells the connection's tasks to stop.
    pub fn cancel(&mut self)
        ensures
            final(self).health() == (Health { cancelled: true, ..old(self).health() }),
            final(self).same_identity(old(self)),
            final(self).sent_nothing_since(old(self)),
    {
        self.cancelled = true;
    }

    /// Ends the connection if its client has not authenticated in time.
    pub fn on_auth_timeout(&mut self)
        ensures
            final(self).health() == health_after_auth_timeout(
                old(self).health(),
                old(self).auth_state,
            ),
            final(self).health() == (Health {
                cancelled: old(self).cancelled || old(self).auth_state.identity() is None,
                ..old(self).health()
            }),
            final(self).same_identity(old(self)),
            final(self).sent_nothing_since(old(self)),
    {
        if !self.auth_state.is_authenticated() {
            self.cancelled = true;
        }
    }

    /// Records what became of a keepalive request. Returns whether the
    /// heartbeat stops.
    pub fn record_ping(&mut self, outcome: &Offer) -> (stop: bool)
        ensures
            stop == !(outcome is Queued),
            final(self).health() == (Health {
                cancelled: old(self).cancelled || stop,
                ..old(self).health()
            }),
            final(self).same_identity(old(self)),
            final(self).sent_nothing_since(old(self)),
    {
        match outcome {
            Offer::Queued => false,
            _ => {
                self.cancelled = true;
                true
            },
        }
    }

    /// One tick of the heartbeat. Returns whether the heartbeat stops.
    ///
    /// Counts a miss until a keepalive answer arrives. The third miss in a row
    /// ends the connection; before that a keepalive request is queued, and a
    /// queue that refuses it ends the connection too.
    pub fn heartbeat_tick(&mut self) -> (stop: bool)
        requires
            old(self).missed_pongs is Some,
        ensures
            heartbeat(old(self).health(), final(self).health(), stop),
            !stop ==> takes_in(old(self).ctrl_tx, FrameView::Ping),
            stop && old(self).missed_pongs->Some_0 < 2 ==> refuses(old(self).ctrl_tx),
            final(self).sent_control_since(old(self), FrameView::Ping, !stop),
            final(self).same_identity(old(self)),
    {
        let missed: u8 = self.missed_pongs.unwrap();
        self.missed_pongs = Some(missed.wrapping_add(1));
        if missed >= 2 {
            self.cancelled = true;
            return true;
        }
        let outcome = offer(&mut self.ctrl_tx, RelayFrame::Ping);
        self.record_ping(&outcome)
    }
}

/// Whether one tick of the heartbeat may take a connection from one health to
/// another.
pub open spec fn heartbeat(before: Health, after: Health, stop: bool) -> bool {
    &&& before.missed_pongs matches Some(missed)
    &&& after == Health {
        missed_pongs: Some(missed.wrapping_add(1)),
        cancelled: before.cancelled || stop,
        ..before
    }
    &&& missed >= 2 ==> stop
}

/// A tick of the heartbeat counts one miss and, if it stops, ends the connection;
/// it changes nothing else. It stops at the third miss in a row at the latest.
pub proof fn heartbeats_count_misses(before: Health, after: Health, stop: bool)
    requires
        heartbeat(before, after, stop),
        before.missed_pongs->Some_0 < u8::MAX,
    ensures
        before.missed_pongs is Some && after.missed_pongs is Some,
        after.missed_pongs->Some_0 == before.missed_pongs->Some_0 + 1,
        after.missed_pongs->Some_0 >= 3 ==> stop,
        after.cancelled <==> before.cancelled || stop,
        after.backpressure_count == before.backpressure_count,
{
}

/// Three ticks of the heartbeat without an answer in between end a connection.
pub proof fn three_missed_pongs_disconnect(
    start: Health,
    first: Health,
    second: Health,
    third: Health,
    stop: bool,
)
    requires
        start.missed_pongs == Some(0u8),
        heartbeat(start, first, false),
        heartbeat(first, second, false),
        heartbeat(second, third, stop),
    ensures
        stop,
        third.cancelled,
{
}

/// An answered keepalive request starts the count of misses anew: the next two
/// ticks end the connection only if its control queue refuses a request.
pub proof fn pong_restarts_the_count(before: Health, first: Health)
    requires
        before.missed_pongs is Some,
        heartbeat(health_after_pong(before), first, false),
    ensures
        health_after_pong(before).missed_pongs == Some(0u8),
        first.missed_pongs == Some(1u8),
        first.cancelled == before.cancelled,
        heartbeat(
            first,
            (Health { missed_pongs: Some(2u8), ..first }),
            false,
        ),
{
}

/// The health of a connection after `n` messages in a row met a full buffer.
pub open spec fn health_after_full_buffers(
    before: Health,
    grace_limit: u8,
    outcome: Offer,
    n: nat,
) -> Health
    decreases n,
{
    if n == 0 {
        before
    } else {
        health_after_offer(
            health_after_full_buffers(before, grace_limit, outcome, (n - 1) as nat),
            grace_limit,
            outcome,
        )
    }
}

/// A connection survives a run of full buffers up to the grace limit, and the
/// next one ends it; one message that goes through ends the run.
pub proof fn sustained_backpressure_disconnects(
    start: Health,
    grace_limit: u8,
    full: Offer,
    n: nat,
)
    requires
        full is Full,
        start.backpressure_count == 0,
        !start.cancelled,
        n <= u8::MAX,
    ensures
        health_after_full_buffers(start, grace_limit, full, n).backpressure_count == n,
        health_after_full_buffers(start, grace_limit, full, n).cancelled <==> n > grace_limit,
        health_after_offer(
            health_after_full_buffers(start, grace_limit, full, n),
            grace_limit,
            Offer::Queued,
        ).backpressure_count == 0,
    decreases n,
{
    if n > 0 {
        sustained_backpressure_disconnects(start, grace_limit, full, (n - 1) as nat);
    }
}

/// What a subscription listens to.
#[derive(Debug, Clone, Copy, PartialEq, Eq)]
pub enum EventTopic {
    /// One channel.
    Channel(u128),
    /// Everything that is not in a channel.
    Global,
}

/// The topic of a subscription to `channel_id`.
pub open spec fn subscription_topic(channel_id: Option<u128>) -> EventTopic {
    match channel_id {
        Some(channel_id) => EventTopic::Channel(channel_id),
        None => EventTopic::Global,
    }
}

/// The topic of a subscription to `channel_id`.
pub fn topic_for_subscription(channel_id: Option<u128>) -> (topic: EventTopic)
    ensures
        topic == subscription_topic(channel_id),
{
    match channel_id {
        Some(channel_id) => EventTopic::Channel(channel_id),
        None => EventTopic::Global,
    }
}

/// A subscription to a channel listens to that channel, and one without to what
/// is in none; no two of them share a topic.
pub proof fn topics_tell_channels_apart(a: Option<u128>, b: Option<u128>)
    ensures
        a matches Some(channel) ==> subscription_topic(a) == EventTopic::Channel(channel),
        a is None ==> subscription_topic(a) == EventTopic::Global,
        subscription_topic(a) == subscription_topic(b) <==> a == b,
{
}

/// The topics to release for the subscriptions that a connection leaves, one
/// for each of them and in their order.
pub fn topics_to_release(removed: &Vec<Option<u128>>) -> (topics: Vec<EventTopic>)
    ensures
        topics@ == removed@.map_values(|channel_id: Option<u128>| subscription_topic(channel_id)),
{
    let mut topics: Vec<EventTopic> = Vec::new();
    let mut i: usize = 0;
    while i < removed.len()
        invariant
            i <= removed.len(),
            topics@ == removed@.take(i as int).map_values(
                |channel_id: Option<u128>| subscription_topic(channel_id),
            ),
        decreases removed.len() - i,
    {
        topics.push(topic_for_subscription(removed[i]));
        proof {
            assert(removed@.take(i + 1) =~= removed@.take(i as int).push(removed@[i as int]));
        }
        i += 1;
    }
    assert(removed@.take(i as int) =~= removed@);
    topics
}

/// The key whose presence ends with a connection in the state `auth`, given how
/// many other connections it still has in the community.
pub open spec fn presence_ends(auth: AuthState, remaining: usize) -> Option<Seq<u8>> {
    if remaining == 0 {
        auth.identity()
    } else {
        None
    }
}

/// Whoever has authenticated is present until their last connection is gone; a
/// connection that nobody authenticated ends nobody's presence.
pub proof fn presence_lasts_as_long_as_a_connection(auth: AuthState, remaining: usize)
    ensures
        presence_ends(auth, remaining) is Some <==> auth is Authenticated && remaining == 0,
        auth matches AuthState::Authenticated(context) ==> presence_ends(auth, 0) == Some(
            context.pubkey@,
        ),
{
}

impl ConnectionState {
    /// The key whose presence ends with this connection, given how many other
    /// connections it still has in the community.
    pub fn presence_to_clear(&self, remaining: usize) -> (pubkey: Option<PublicKey>)
        ensures
            presence_ends(self.auth_state, remaining) == match pubkey {
                Some(pubkey) => Some(pubkey@),
                None => None,
            },
            pubkey is Some <==> self.auth_state.identity() is Some && remaining == 0,
            pubkey matches Some(pubkey) ==> self.auth_state.identity() == Some(pubkey@),
    {
        match &self.auth_state {
            AuthState::Authenticated(context) => {
                if remaining == 0 {
                    Some(context.pubkey)
                } else {
                    None
                }
            },
            _ => None,
        }
    }
}

/// How far a socket connection has come.
#[derive(Debug, Clone, Copy, PartialEq, Eq)]
pub enum Phase {
    /// Counted among the community's connections; its community is looked up.
    Registering,
    /// Tries to reserve a connection slot.
    Reserving,
    /// Queues the authentication challenge.
    Challenging,
    /// Receives frames.
    Running,
    /// Waits for its tasks to end.
    Joining,
    /// Gives up its subscriptions and its presence.
    CleaningUp,
    /// Gone.
    Closed,
}

/// What happened to a socket connection.
#[derive(Debug, Clone, Copy, PartialEq, Eq)]
pub enum LifecycleEvent {
    /// The lookup found the community active (`Some(true)`), archived or
    /// nothing (`None`).
    CommunityLookup(Option<bool>),
    /// A connection slot was reserved, or none was free.
    Slot(bool),
    /// The challenge was queued, or the client was gone.
    Challenge(bool),
    /// The receive loop has ended.
    ReceiveEnded,
    /// All tasks have ended.
    TasksEnded,
    /// Subscriptions and presence are released.
    CleanedUp,
}

/// What to do next for a socket connection.
#[derive(Debug, Clone, Copy, PartialEq, Eq)]
pub enum LifecycleAction {
    /// Try to reserve a connection slot.
    ReserveSlot,
    /// Queue the authentication challenge.
    QueueChallenge,
    /// Count the connection, register it, start its tasks and its receive loop.
    Start,
    /// Tell the tasks to stop and wait for them.
    StopTasks,
    /// Release subscriptions and presence, and deregister.
    CleanUp,
    /// Count the connection out and give back what it holds.
    Release,
}

/// The course of one socket connection and what it holds.
#[derive(Debug, Clone, Copy, PartialEq, Eq)]
pub struct Lifecycle {
    /// Unique identifier for this connection.
    pub conn_id: u128,
    /// How far the connection has come.
    pub phase: Phase,
    /// Whether it is among the community's connections.
    pub in_community: bool,
    /// Whether it holds a connection slot.
    pub has_slot: bool,
    /// Whether it is registered for delivery.
    pub registered: bool,
    /// Whether it counts as active.
    pub counted: bool,
    /// Whether its tasks were told to stop.
    pub cancelled: bool,
}

impl Lifecycle {
    /// Whether the connection holds what its phase says.
    pub open spec fn wf(self) -> bool {
        let running = self.phase is Running || self.phase is Joining || self.phase is CleaningUp;
        &&& self.in_community == !(self.phase is Closed)
        &&& self.has_slot == (self.phase is Challenging || running)
        &&& self.registered == running
        &&& self.counted == running
        &&& self.phase is Joining || self.phase is CleaningUp ==> self.cancelled
    }

    /// Whether the connection holds nothing.
    pub open spec fn holds_nothing(self) -> bool {
        !self.in_community && !self.has_slot && !self.registered && !self.counted
    }

    /// Whether `event` can happen now.
    pub open spec fn awaits(self, event: LifecycleEvent) -> bool {
        match self.phase {
            Phase::Registering => event is CommunityLookup,
            Phase::Reserving => event is Slot,
            Phase::Challenging => event is Challenge,
            Phase::Running => event is ReceiveEnded,
            Phase::Joining => event is TasksEnded,
            Phase::CleaningUp => event is CleanedUp,
            Phase::Closed => false,
        }
    }

    /// The connection after it gave back all it held.
    pub open spec fn released(self) -> Lifecycle {
        Lifecycle {
            conn_id: self.conn_id,
            phase: Phase::Closed,
            in_community: false,
            has_slot: false,
            registered: false,
            counted: false,
            cancelled: true,
        }
    }
}

/// Where a connection goes from `life` on `event`, and what is done.
///
/// Counting and registration come after the challenge was queued, so that a
/// client that leaves at once is not left behind in either.
pub open spec fn lifecycle_step(life: Lifecycle, event: LifecycleEvent) -> (
    Lifecycle,
    LifecycleAction,
) {
    match event {
        LifecycleEvent::CommunityLookup(active) => if active == Some(true) && !life.cancelled {
            (Lifecycle { phase: Phase::Reserving, ..life }, LifecycleAction::ReserveSlot)
        } else {
            (life.released(), LifecycleAction::Release)
        },
        LifecycleEvent::Slot(reserved) => if reserved {
            (
                Lifecycle { phase: Phase::Challenging, has_slot: true, ..life },
                LifecycleAction::QueueChallenge,
            )
        } else {
            (life.released(), LifecycleAction::Release)
        },
        LifecycleEvent::Challenge(queued) => if queued {
            (
                Lifecycle { phase: Phase::Running, registered: true, counted: true, ..life },
                LifecycleAction::Start,
            )
        } else {
            (life.released(), LifecycleAction::Release)
        },
        LifecycleEvent::ReceiveEnded => (
            Lifecycle { phase: Phase::Joining, cancelled: true, ..life },
            LifecycleAction::StopTasks,
        ),
        LifecycleEvent::TasksEnded => (
            Lifecycle { phase: Phase::CleaningUp, ..life },
            LifecycleAction::CleanUp,
        ),
        LifecycleEvent::CleanedUp => (life.released(), LifecycleAction::Release),
    }
}

impl Lifecycle {
    /// A connection that was just accepted, under a random identifier.
    pub fn handle_connection() -> (life: Lifecycle)
        ensures
            life.wf(),
            life.phase is Registering,
            !life.cancelled,
    {
        Lifecycle {
            conn_id: identifiers::random_uuid(),
            phase: Phase::Registering,
            in_community: true,
            has_slot: false,
            registered: false,
            counted: false,
            cancelled: false,
        }
    }

    fn release(self) -> (life: Lifecycle)
        ensures
            life == self.released(),
    {
        Lifecycle {
            conn_id: self.conn_id,
            phase: Phase::Closed,
            in_community: false,
            has_slot: false,
            registered: false,
            counted: false,
            cancelled: true,
        }
    }

    /// Goes on after `event`.
    pub fn handle_active_connection(&mut self, event: LifecycleEvent) -> (action: LifecycleAction)
        requires
            old(self).wf(),
            old(self).awaits(event),
        ensures
            final(self).wf(),
            (*final(self), action) == lifecycle_step(*old(self), event),
    {
        match event {
            LifecycleEvent::CommunityLookup(active) => {
                let active = match active {
                    Some(active) => active,
                    None => false,
                };
                if active && !self.cancelled {
                    self.phase = Phase::Reserving;
                    LifecycleAction::ReserveSlot
                } else {
                    *self = self.release();
                    LifecycleAction::Release
                }
            },
            LifecycleEvent::Slot(reserved) => {
                if reserved {
                    self.phase = Phase::Challenging;
                    self.has_slot = true;
                    LifecycleAction::QueueChallenge
                } else {
                    *self = self.release();
                    LifecycleAction::Release
                }
            },
            LifecycleEvent::Challenge(queued) => {
                if queued {
                    self.phase = Phase::Running;
                    self.registered = true;
                    self.counted = true;
                    LifecycleAction::Start
                } else {
                    *self = self.release();
                    LifecycleAction::Release
                }
            },
            LifecycleEvent::ReceiveEnded => {
                self.phase = Phase::Joining;
                self.cancelled = true;
                LifecycleAction::StopTasks
            },
            LifecycleEvent::TasksEnded => {
                self.phase = Phase::CleaningUp;
                LifecycleAction::CleanUp
            },
            LifecycleEvent::CleanedUp => {
                *self = self.release();
                LifecycleAction::Release
            },
        }
    }
}

/// Where a connection that was at `life` stands after `events`.
pub open spec fn life_after(life: Lifecycle, events: Seq<LifecycleEvent>) -> Lifecycle
    decreases events.len(),
{
    if events.len() == 0 {
        life
    } else {
        lifecycle_step(life_after(life, events.drop_last()), events.last()).0
    }
}

/// Whether `events` can happen, one after the other, to a connection at `life`.
pub open spec fn life_allows(life: Lifecycle, events: Seq<LifecycleEvent>) -> bool
    decreases events.len(),
{
    events.len() == 0 || {
        &&& life_allows(life, events.drop_last())
        &&& life_after(life, events.drop_last()).awaits(events.last())
    }
}

/// A connection of an active community that gets a slot and takes its challenge
/// is started, and after its receive loop its tasks are stopped, it is cleaned up
/// and released, in this order. It is counted and registered from its start until
/// its release, and holds a slot from before its challenge.
pub proof fn connections_run_their_course(life: Lifecycle)
    requires
        life.wf(),
        life.phase is Registering,
        !life.cancelled,
    ensures
        ({
            let found = lifecycle_step(life, LifecycleEvent::CommunityLookup(Some(true)));
            let reserved = lifecycle_step(found.0, LifecycleEvent::Slot(true));
            let challenged = lifecycle_step(reserved.0, LifecycleEvent::Challenge(true));
            let ended = lifecycle_step(challenged.0, LifecycleEvent::ReceiveEnded);
            let joined = lifecycle_step(ended.0, LifecycleEvent::TasksEnded);
            let over = lifecycle_step(joined.0, LifecycleEvent::CleanedUp);
            &&& found.0.phase is Reserving
            &&& reserved.0.phase is Challenging
            &&& challenged.0.phase is Running
            &&& ended.0.phase is Joining
            &&& joined.0.phase is CleaningUp
            &&& found.1 is ReserveSlot
            &&& !found.0.has_slot && !found.0.counted && !found.0.registered
            &&& reserved.1 is QueueChallenge
            &&& reserved.0.has_slot && !reserved.0.counted && !reserved.0.registered
            &&& challenged.1 is Start
            &&& challenged.0.has_slot && challenged.0.counted && challenged.0.registered
            &&& !challenged.0.cancelled
            &&& ended.1 is StopTasks
            &&& ended.0.cancelled && ended.0.registered
            &&& joined.1 is CleanUp
            &&& joined.0.registered && joined.0.has_slot
            &&& over.1 is Release
            &&& over.0.phase is Closed && over.0.holds_nothing()
        }),
{
}

/// A connection whose community is not active or was told to stop, that gets no
/// slot, or whose client is gone before its challenge, is released at once and
/// holds nothing.
pub proof fn refused_connections_are_released(life: Lifecycle, event: LifecycleEvent)
    requires
        life.wf(),
        life.awaits(event),
        match event {
            LifecycleEvent::CommunityLookup(active) => active != Some(true) || life.cancelled,
            LifecycleEvent::Slot(reserved) => !reserved,
            LifecycleEvent::Challenge(queued) => !queued,
            _ => false,
        },
    ensures
        lifecycle_step(life, event).1 is Release,
        lifecycle_step(life, event).0.phase is Closed,
        lifecycle_step(life, event).0.holds_nothing(),
        lifecycle_step(life, event).0.cancelled,
        lifecycle_step(life, event).0.conn_id == life.conn_id,
{
}

/// Whatever its course, a connection that is gone has given back its slot, its
/// place in the community and its registration, and counts no more; one that
/// is registered holds a slot. It keeps its identifier throughout.
pub proof fn closed_connections_hold_nothing(life: Lifecycle, events: Seq<LifecycleEvent>)
    requires
        life.wf(),
        life_allows(life, events),
    ensures
        life_after(life, events).wf(),
        life_after(life, events).phase is Closed ==> life_after(life, events).holds_nothing(),
        life_after(life, events).registered ==> life_after(life, events).has_slot,
        life_after(life, events).conn_id == life.conn_id,
    decreases events.len(),
{
    if events.len() > 0 {
        closed_connections_hold_nothing(life, events.drop_last());
    }
}

/// Whether `queue` has nothing to give at some time in its life.
pub uninterp spec fn runs_dry(queue: tokio::sync::mpsc::Receiver<RelayFrame>) -> bool;

/// Frames that are known to come out of a queue next, in this order. Others may
/// wait behind them.
///
/// Only the receiving end takes frames out, so that what other tasks queue
/// comes after these.
pub uninterp spec fn front(queue: tokio::sync::mpsc::Receiver<RelayFrame>) -> Seq<FrameView>;

/// Makes an empty queue for `capacity` frames.
///
/// Calls `tokio::sync::mpsc::channel`, which panics without capacity or with
/// more than `usize::MAX >> 3`. The two are the ends of one queue, no frame has
/// gone in, and none is known to come out.
#[verifier::external_body]
fn frame_queue(capacity: usize) -> (ends: (
    tokio::sync::mpsc::Sender<RelayFrame>,
    tokio::sync::mpsc::Receiver<RelayFrame>,
))
    requires
        0 < capacity <= usize::MAX / 8,
    ensures
        front(ends.1).len() == 0,
        sent(ends.0) == Seq::<FrameView>::empty(),
        queue_written(ends.0) == queue_read(ends.1),
{
    tokio::sync::mpsc::channel(capacity)
}

/// Makes a queue for `capacity` frames that holds `first`.
///
/// Calls `tokio::sync::mpsc::channel`, as [`frame_queue`] does, and
/// `tokio::sync::mpsc::Sender::try_send` on the sending end before anybody else
/// has it. The queue has room, so the frame went in, alone, and is the first to
/// come out at the other end.
#[verifier::external_body]
fn frame_queue_from(first: RelayFrame, capacity: usize) -> (ends: (
    tokio::sync::mpsc::Sender<RelayFrame>,
    tokio::sync::mpsc::Receiver<RelayFrame>,
))
    requires
        0 < capacity <= usize::MAX / 8,
    ensures
        front(ends.1) == seq![first@],
        sent(ends.0) == seq![first@],
        queue_written(ends.0) == queue_read(ends.1),
{
    let (sender, receiver) = tokio::sync::mpsc::channel(capacity);
    let _ = sender.try_send(first);
    (sender, receiver)
}

/// Takes the next frame of a queue without waiting.
///
/// Calls `tokio::sync::mpsc::Receiver::try_recv`. A queue hands its frames out
/// in the order in which they came in, and no others. Behind those that are known
/// to come next, what it gives depends on what other tasks have queued: which of
/// the frames that the queue took in comes is left open. It gives none only when
/// nothing waits in it.
#[verifier::external_body]
fn take_frame(queue: &mut tokio::sync::mpsc::Receiver<RelayFrame>) -> (frame: Option<RelayFrame>)
    ensures
        front(*old(queue)).len() > 0 ==> {
            &&& frame matches Some(frame)
            &&& frame@ == front(*old(queue))[0]
            &&& front(*final(queue)) == front(*old(queue)).drop_first()
        },
        match frame {
            Some(frame) => carries(queue_read(*old(queue)), frame@),
            None => runs_dry(*old(queue)),
        },
        queue_read(*final(queue)) == queue_read(*old(queue)),
{
    queue.try_recv().ok()
}

/// What a virtual connection has for its adapter.
#[derive(Debug, Clone, PartialEq, Eq)]
pub enum NextFrame {
    /// A response to deliver.
    Frame(RelayFrame),
    /// The connection has ended.
    Ended,
    /// Nothing yet.
    Wait,
}

/// What an adapter gets of what waits for it.
pub open spec fn chosen_frame(
    control: Option<RelayFrame>,
    data: Option<RelayFrame>,
    cancelled: bool,
) -> NextFrame {
    match (control, data) {
        (Some(frame), _) => NextFrame::Frame(frame),
        (None, Some(frame)) => NextFrame::Frame(frame),
        (None, None) => if cancelled {
            NextFrame::Ended
        } else {
            NextFrame::Wait
        },
    }
}

/// A control frame comes before any data, and data whenever there is no control
/// frame; a connection that was told to stop ends when nothing waits, and not
/// before, and any other waits for more.
pub proof fn what_waits_is_delivered(
    control: Option<RelayFrame>,
    data: Option<RelayFrame>,
    cancelled: bool,
)
    ensures
        control matches Some(frame) ==> chosen_frame(control, data, cancelled)
            == NextFrame::Frame(frame),
        control is None ==> (data matches Some(frame) ==> chosen_frame(control, data, cancelled)
            == NextFrame::Frame(frame)),
        chosen_frame(control, data, cancelled) is Ended <==> control is None && data is None
            && cancelled,
        chosen_frame(control, data, cancelled) is Wait <==> control is None && data is None
            && !cancelled,
{
}

/// Chooses what an adapter gets: control frames first, then data, and the end
/// of the connection only when neither is left.
pub fn choose_frame(control: Option<RelayFrame>, data: Option<RelayFrame>, cancelled: bool) -> (next:
    NextFrame)
    ensures
        next == chosen_frame(control, data, cancelled),
        next == match (control, data) {
            (Some(frame), _) => NextFrame::Frame(frame),
            (None, Some(frame)) => NextFrame::Frame(frame),
            (None, None) => if cancelled {
                NextFrame::Ended
            } else {
                NextFrame::Wait
            },
        },
{
    match control {
        Some(frame) => NextFrame::Frame(frame),
        None => match data {
            Some(frame) => NextFrame::Frame(frame),
            None => if cancelled {
                NextFrame::Ended
            } else {
                NextFrame::Wait
            },
        },
    }
}

/// An in-process connection which uses the normal relay dispatcher.
///
/// Tunnel adapters supply and consume [`RelayFrame`] values. Call
/// [`Self::close`] when the adapter session ends so subscriptions and presence
/// are released just as they are for a socket disconnect.
pub struct VirtualConnection {
    /// The state that the protocol handlers share.
    pub conn: ConnectionState,
    /// Data frames for the adapter.
    pub data_rx: tokio::sync::mpsc::Receiver<RelayFrame>,
    /// Control frames for the adapter.
    pub ctrl_rx: tokio::sync::mpsc::Receiver<RelayFrame>,
}

impl VirtualConnection {
    /// Whether what is sent to the connection comes out of it: its queues of
    /// data and of control frames are those that it reads.
    pub open spec fn joined(&self) -> bool {
        &&& joined(self.conn.send_tx, self.data_rx)
        &&& joined(self.conn.ctrl_tx, self.ctrl_rx)
    }
}

/// The frame that a virtual connection begins with.
pub open spec fn challenge_frame(challenge: Seq<char>) -> FrameView {
    FrameView::Text(protocol::json_pair("AUTH"@, challenge))
}

/// A virtual connection that holds a slot and has yet to be opened.
#[derive(Debug, Clone, Copy, PartialEq, Eq)]
pub struct VirtualOpening {
    /// Unique identifier for the connection.
    pub conn_id: u128,
}

impl VirtualOpening {
    /// Begins to open a virtual connection, under a random identifier, if a
    /// connection slot was reserved. The connection is to be put among those of
    /// its community before the community is looked up.
    pub fn begin(slot: bool) -> (opening: Result<VirtualOpening, VirtualConnectionError>)
        ensures
            match opening {
                Ok(_) => slot,
                Err(error) => !slot && error is ConnectionLimitReached,
            },
    {
        if !slot {
            return Err(VirtualConnectionError::ConnectionLimitReached);
        }
        Ok(VirtualOpening { conn_id: identifiers::random_uuid() })
    }
}

/// Whether a virtual connection may go from `before` to `after` on a frame that
/// asks for `action`, with this text for the protocol handlers.
///
/// Nothing is sent but the notice of a refusal and the answer to a ping.
/// A frame that closes the connection, one that is refused, and a ping that
/// cannot be answered tell its tasks to stop.
pub open spec fn received_by(
    action: FrameActionView,
    before: ConnectionState,
    after: ConnectionState,
    message: Option<String>,
) -> bool {
    let stopped = Health { cancelled: true, ..before.health() };
    match action {
        FrameActionView::Dispatch(payload) => {
            &&& message matches Some(message)
            &&& message@ == payload
            &&& after.health() == before.health()
            &&& after.sent_nothing_since(&before)
        },
        FrameActionView::Reject(notice) => {
            &&& message is None
            &&& after.cancelled
            &&& {
                ||| refused(before, notice, after.health(), after)
                ||| refused(before, notice, (Health { cancelled: false, ..after.health() }), after)
            }
        },
        FrameActionView::Answer => {
            &&& message is None
            &&& {
                ||| {
                    &&& after.health() == before.health()
                    &&& takes_in(before.ctrl_tx, FrameView::Pong)
                    &&& after.sent_control_since(&before, FrameView::Pong, true)
                }
                ||| {
                    &&& after.health() == stopped
                    &&& refuses(before.ctrl_tx)
                    &&& after.sent_control_since(&before, FrameView::Pong, false)
                }
            }
        },
        FrameActionView::Refresh => {
            &&& message is None
            &&& after.health() == health_after_pong(before.health())
            &&& after.sent_nothing_since(&before)
        },
        FrameActionView::Ignore => {
            &&& message is None
            &&& after.health() == before.health()
            &&& after.sent_nothing_since(&before)
        },
        FrameActionView::Close => {
            &&& message is None
            &&& after.health() == stopped
            &&& after.sent_nothing_since(&before)
        },
    }
}

/// A virtual connection follows the rules of sockets: it hands a text that keeps
/// the limit on to the handlers, and is told to stop by a frame that closes it, by
/// one over the limit, and by a ping that cannot be answered.
pub proof fn tunnels_follow_the_rules_of_sockets(
    frame: FrameView,
    limit: nat,
    before: ConnectionState,
    after: ConnectionState,
    message: Option<String>,
)
    requires
        received_by(frame_action(frame, limit), before, after, message),
    ensures
        frame matches FrameView::Text(payload) ==> {
            if text::utf8_len(payload) <= limit {
                &&& message matches Some(message)
                &&& message@ == payload
                &&& after.health() == before.health()
                &&& after.sent_nothing_since(&before)
                &&& after.send_tx == before.send_tx && after.ctrl_tx == before.ctrl_tx
            } else {
                &&& message is None && after.cancelled
                &&& {
                    ||| sent(after.send_tx) == sent(before.send_tx)
                    ||| sent(after.send_tx) == sent(before.send_tx).push(
                        FrameView::Text(
                            oversize_notice("frame"@, text::utf8_len(payload), limit),
                        ),
                    )
                }
            }
        },
        frame matches FrameView::Binary(bytes) ==> bytes.len() <= limit && valid_utf8(bytes) ==> {
            &&& message matches Some(message)
            &&& message@ == decode_utf8(bytes)
        },
        frame matches FrameView::Binary(bytes) ==> bytes.len() <= limit && !valid_utf8(bytes)
            ==> message is None && after.send_tx == before.send_tx,
        frame is Pong ==> {
            &&& message is None
            &&& after.missed_pongs is Some <==> before.missed_pongs is Some
            &&& after.missed_pongs matches Some(missed) ==> missed == 0
            &&& after.backpressure_count == before.backpressure_count
        },
        message is Some ==> frame is Text || frame is Binary,
        frame is Close ==> after.health() == (Health { cancelled: true, ..before.health() }),
        frame is Ping ==> {
            ||| after.health() == before.health() && sent(after.ctrl_tx) == sent(
                before.ctrl_tx,
            ).push(FrameView::Pong)
            ||| after.cancelled && sent(after.ctrl_tx) == sent(before.ctrl_tx)
        },
        frame is Ping ==> message is None && after.send_tx == before.send_tx,
        frame is Pong ==> after.cancelled == before.cancelled && after.sent_nothing_since(&before),
        frame matches FrameView::Binary(bytes) ==> bytes.len() > limit ==> message is None
            && after.cancelled,
        frame matches FrameView::Binary(bytes) ==> bytes.len() <= limit ==> after.health()
            == before.health(),
{
}

/// Whether `session` is what opening a virtual connection gives.
pub open spec fn opened(
    opening: VirtualOpening,
    active: Option<bool>,
    cancelled: bool,
    addr: String,
    tenant: TenantContext,
    challenge: String,
    grace_limit: u8,
    session: Result<VirtualConnection, VirtualConnectionError>,
) -> bool {
    match session {
        Err(error) => {
            &&& active != Some(true) || cancelled
            &&& error is CommunityUnavailable
        },
        Ok(session) => {
            &&& active == Some(true) && !cancelled
            &&& session.conn.conn_id == opening.conn_id
            &&& session.conn.remote_addr == addr
            &&& session.conn.tenant == tenant
            &&& session.conn.subscriptions@ == Seq::<Subscription>::empty()
            &&& session.joined()
            &&& session.conn.auth_state == (AuthState::Pending { challenge })
            &&& session.conn.grace_limit == grace_limit
            &&& session.conn.health() == (Health {
                cancelled: false,
                backpressure_count: 0,
                missed_pongs: None,
            })
            &&& sent(session.conn.send_tx) == seq![challenge_frame(challenge@)]
            &&& sent(session.conn.ctrl_tx) == Seq::<FrameView>::empty()
            &&& front(session.data_rx) == seq![challenge_frame(challenge@)]
        },
    }
}

/// A virtual connection opens exactly if its community is active and was not told
/// to stop. It then is nobody's yet and not told to stop, and the first data frame
/// that comes out of it is the challenge, as an `AUTH` message.
pub proof fn virtual_connections_begin_with_their_challenge(
    opening: VirtualOpening,
    active: Option<bool>,
    cancelled: bool,
    addr: String,
    tenant: TenantContext,
    challenge: String,
    grace_limit: u8,
    session: Result<VirtualConnection, VirtualConnectionError>,
)
    requires
        opened(opening, active, cancelled, addr, tenant, challenge, grace_limit, session),
    ensures
        session is Ok <==> active == Some(true) && !cancelled,
        session matches Err(error) ==> error is CommunityUnavailable,
        session matches Ok(session) ==> {
            &&& session.conn.conn_id == opening.conn_id
            &&& session.conn.tenant == tenant
            &&& session.conn.auth_state.identity() is None
            &&& !session.conn.cancelled
            &&& session.conn.backpressure_count == 0
            &&& session.conn.missed_pongs is None
            &&& session.conn.grace_limit == grace_limit
            &&& session.conn.remote_addr == addr
            &&& session.conn.subscriptions@.len() == 0
            &&& sent(session.conn.send_tx) == front(session.data_rx)
            &&& sent(session.conn.ctrl_tx).len() == 0
            &&& front(session.data_rx).len() == 1
            &&& front(session.data_rx)[0] == FrameView::Text(
                "["@ + protocol::json_quoted("AUTH"@) + ","@ + protocol::json_quoted(challenge@)
                    + "]"@,
            )
            &&& queue_written(session.conn.send_tx) == queue_read(session.data_rx)
            &&& queue_written(session.conn.ctrl_tx) == queue_read(session.ctrl_rx)
        },
{
}

impl VirtualConnection {
    /// Opens a transport-neutral relay session and queues its challenge.
    ///
    /// `active` is what the lookup of the community found; `cancelled` tells
    /// whether the community's connections were told to stop meanwhile.
    pub fn open(
        opening: VirtualOpening,
        active: Option<bool>,
        cancelled: bool,
        addr: String,
        tenant: TenantContext,
        challenge: String,
        send_buffer_size: usize,
        grace_limit: u8,
    ) -> (session: Result<VirtualConnection, VirtualConnectionError>)
        requires
            0 < send_buffer_size <= usize::MAX / 8,
        ensures
            opened(
                opening,
                active,
                cancelled,
                addr,
                tenant,
                challenge,
                grace_limit,
                session,
            ),
            match session {
                Err(error) => {
                    &&& active != Some(true) || cancelled
                    &&& error is CommunityUnavailable
                },
                Ok(session) => {
                    &&& active == Some(true) && !cancelled
                    &&& session.conn.conn_id == opening.conn_id
                    &&& session.conn.remote_addr == addr
                    &&& session.conn.tenant == tenant
                    &&& session.conn.subscriptions@ == Seq::<Subscription>::empty()
                    &&& session.joined()
                    &&& session.conn.auth_state == (AuthState::Pending { challenge })
                    &&& session.conn.grace_limit == grace_limit
                    &&& session.conn.health() == (Health {
                        cancelled: false,
                        backpressure_count: 0,
                        missed_pongs: None,
                    })
                    &&& sent(session.conn.send_tx) == seq![challenge_frame(challenge@)]
                    &&& sent(session.conn.ctrl_tx) == Seq::<FrameView>::empty()
                    &&& front(session.data_rx) == seq![challenge_frame(challenge@)]
                },
            },
    {
        let active = match active {
            Some(active) => active,
            None => false,
        };
        if !active || cancelled {
            return Err(VirtualConnectionError::CommunityUnavailable);
        }
        let greeting = RelayFrame::Text(protocol::auth_challenge(challenge.as_str()));
        let (send_tx, data_rx) = frame_queue_from(greeting, send_buffer_size);
        let (ctrl_tx, ctrl_rx) = frame_queue(CONTROL_QUEUE_CAPACITY);
        let conn = ConnectionState::pending(
            opening.conn_id,
            tenant,
            addr,
            challenge,
            send_tx,
            ctrl_tx,
            grace_limit,
            false,
        );
        Ok(VirtualConnection { conn, data_rx, ctrl_rx })
    }

    /// Takes in one incoming frame under the rules of socket connections, and
    /// gives the text that the protocol handlers are to serve.
    ///
    /// A frame that closes the connection tells its tasks to stop.
    pub fn receive_frame(&mut self, frame: RelayFrame, max_frame_bytes: usize) -> (message: Option<
        String,
    >)
        requires
            frame_action(frame@, max_frame_bytes as nat) is Reject
                ==> old(self).conn.backpressure_count < u8::MAX,
        ensures
            received_by(
                frame_action(frame@, max_frame_bytes as nat),
                old(self).conn,
                final(self).conn,
                message,
            ),
            final(self).conn.same_identity(&old(self).conn),
            final(self).data_rx == old(self).data_rx,
            final(self).ctrl_rx == old(self).ctrl_rx,
            old(self).joined() ==> final(self).joined(),
    {
        let ghost before = self.conn;
        match self.conn.handle_relay_frame(frame, max_frame_bytes) {
            FrameOutcome::Dispatch(message) => Some(message),
            FrameOutcome::Continue => None,
            FrameOutcome::Close => {
                let ghost refusing = self.conn;
                self.conn.cancel();
                proof {
                    let action = frame_action(frame@, max_frame_bytes as nat);
                    if let FrameActionView::Reject(notice) = action {
                        let queued = choose|queued: bool| #[trigger]
                            refused_as(before, notice, refusing.health(), refusing, queued);
                        let health = Health {
                            cancelled: refusing.cancelled,
                            ..self.conn.health()
                        };
                        assert(health == refusing.health());
                        assert(refused_as(before, notice, health, self.conn, queued));
                        assert(refused(before, notice, health, self.conn));
                    }
                }
                None
            },
        }
    }

    /// Returns whether the session has authenticated as `pubkey`.
    pub fn is_authenticated_as(&self, pubkey: &[u8]) -> (yes: bool)
        ensures
            yes == (self.conn.auth_state.identity() == Some(pubkey@)),
    {
        self.conn.auth_state.is_authenticated_as(pubkey)
    }

    /// Returns whether authentication has completed successfully.
    pub fn is_authenticated(&self) -> (yes: bool)
        ensures
            yes == self.conn.auth_state.identity() is Some,
    {
        self.conn.auth_state.is_authenticated()
    }

    /// Takes the next relay response, prioritizing control frames.
    ///
    /// Which frames wait in the queues is up to other tasks, but for those that
    /// are known to; [`choose_frame`] tells which of them comes first. Only what
    /// a queue took in comes out of it, so that a response is what was sent to
    /// this connection. A data frame comes only when no control
    /// frame waits, and nothing comes only when no frame waits.
    pub fn next_frame(&mut self) -> (next: NextFrame)
        ensures
            final(self).conn == old(self).conn,
            next is Ended ==> old(self).conn.cancelled,
            next is Wait ==> !old(self).conn.cancelled,
            match next {
                NextFrame::Frame(frame) => {
                    ||| may_give(old(self).ctrl_rx, frame@)
                    ||| runs_dry(old(self).ctrl_rx) && may_give(old(self).data_rx, frame@)
                },
                _ => runs_dry(old(self).ctrl_rx) && runs_dry(old(self).data_rx),
            },
            old(self).joined() ==> {
                &&& final(self).joined()
                &&& next matches NextFrame::Frame(frame) ==> takes_in(
                    old(self).conn.ctrl_tx,
                    frame@,
                ) || takes_in(old(self).conn.send_tx, frame@)
            },
            queue_read(final(self).ctrl_rx) == queue_read(old(self).ctrl_rx),
            queue_read(final(self).data_rx) == queue_read(old(self).data_rx),
            front(old(self).ctrl_rx).len() > 0 ==> {
                &&& next matches NextFrame::Frame(frame)
                &&& frame@ == front(old(self).ctrl_rx)[0]
                &&& front(final(self).ctrl_rx) == front(old(self).ctrl_rx).drop_first()
                &&& final(self).data_rx == old(self).data_rx
            },
            front(old(self).data_rx).len() > 0 ==> {
                &&& next matches NextFrame::Frame(frame)
                &&& {
                    ||| {
                        &&& may_give(old(self).ctrl_rx, frame@)
                        &&& final(self).data_rx == old(self).data_rx
                    }
                    ||| {
                        &&& runs_dry(old(self).ctrl_rx)
                        &&& frame@ == front(old(self).data_rx)[0]
                        &&& front(final(self).data_rx) == front(old(self).data_rx).drop_first()
                    }
                }
            },
    {
        let control = take_frame(&mut self.ctrl_rx);
        let data = if control.is_none() {
            take_frame(&mut self.data_rx)
        } else {
            None
        };
        choose_frame(control, data, self.conn.cancelled)
    }

    /// Closes the session, and gives the topics to release for the
    /// subscriptions that it leaves. Once they are released and the connection
    /// is deregistered, [`ConnectionState::presence_to_clear`] tells whether
    /// its presence ends too.
    pub fn close(self, removed: &Vec<Option<u128>>) -> (left: (ConnectionState, Vec<EventTopic>))
        ensures
            left.0.same_identity(&self.conn),
            left.0.sent_nothing_since(&self.conn),
            left.0.health() == (Health { cancelled: true, ..self.conn.health() }),
            left.1@ == removed@.map_values(
                |channel_id: Option<u128>| subscription_topic(channel_id),
            ),
    {
        let mut conn = self.conn;
        conn.cancel();
        (conn, topics_to_release(removed))
    }
}

/// Details of a close message.
#[derive(Debug, Clone, PartialEq, Eq)]
pub struct CloseFrame {
    /// Close status code.
    pub code: u16,
    /// Close status reason.
    pub reason: String,
}

/// A message of a WebSocket transport.
#[derive(Debug, Clone, PartialEq, Eq)]
pub enum WsMessage {
    /// A text message.
    Text(String),
    /// A binary message.
    Binary(Vec<u8>),
    /// A keepalive request.
    Ping(Vec<u8>),
    /// A keepalive answer.
    Pong(Vec<u8>),
    /// A close message.
    Close(Option<CloseFrame>),
}

/// The frame that a WebSocket message stands for.
///
/// Keepalive payloads are dropped; a close message without details is a normal
/// closure.
pub open spec fn frame_of_message(message: WsMessage) -> FrameView {
    match message {
        WsMessage::Text(payload) => FrameView::Text(payload@),
        WsMessage::Binary(bytes) => FrameView::Binary(bytes@),
        WsMessage::Ping(_) => FrameView::Ping,
        WsMessage::Pong(_) => FrameView::Pong,
        WsMessage::Close(Some(close)) => FrameView::Close {
            code: close.code,
            reason: close.reason@,
        },
        WsMessage::Close(None) => FrameView::Close { code: 1000, reason: seq![] },
    }
}

/// Texts, bytes and the details of a close enter the relay as they are, whatever
/// they hold; keepalives enter without their payload, and a close without details
/// as a normal closure.
pub proof fn messages_enter_as_they_are(
    payload: String,
    bytes: Vec<u8>,
    code: u16,
    reason: String,
)
    ensures
        frame_of_message(WsMessage::Text(payload)) == FrameView::Text(payload@),
        frame_of_message(WsMessage::Binary(bytes)) == FrameView::Binary(bytes@),
        frame_of_message(WsMessage::Ping(bytes)) == FrameView::Ping,
        frame_of_message(WsMessage::Pong(bytes)) == FrameView::Pong,
        frame_of_message(WsMessage::Close(Some(CloseFrame { code, reason }))) == (FrameView::Close {
            code,
            reason: reason@,
        }),
        frame_of_message(WsMessage::Close(None)) == (FrameView::Close {
            code: 1000,
            reason: Seq::<char>::empty(),
        }),
{
}

/// Converts a WebSocket message as it enters the transport-neutral relay.
pub fn ws_message_to_relay_frame(message: WsMessage) -> (frame: RelayFrame)
    ensures
        frame@ == frame_of_message(message),
{
    match message {
        WsMessage::Text(payload) => RelayFrame::Text(payload),
        WsMessage::Binary(bytes) => RelayFrame::Binary(bytes),
        WsMessage::Ping(_) => RelayFrame::Ping,
        WsMessage::Pong(_) => RelayFrame::Pong,
        WsMessage::Close(Some(close)) => RelayFrame::Close {
            code: close.code,
            reason: close.reason,
        },
        WsMessage::Close(None) => RelayFrame::Close { code: 1000, reason: String::new() },
    }
}

/// Converts a relay frame as it leaves through a WebSocket.
///
/// The message stands for the frame again, keepalive payloads are empty, and a
/// close message keeps its details.
pub fn relay_frame_to_ws_message(frame: RelayFrame) -> (message: WsMessage)
    ensures
        frame_of_message(message) == frame@,
        message matches WsMessage::Ping(payload) ==> payload@.len() == 0,
        message matches WsMessage::Pong(payload) ==> payload@.len() == 0,
        message matches WsMessage::Close(close) ==> close is Some,
{
    match frame {
        RelayFrame::Text(payload) => WsMessage::Text(payload),
        RelayFrame::Binary(bytes) => WsMessage::Binary(bytes),
        RelayFrame::Ping => WsMessage::Ping(Vec::new()),
        RelayFrame::Pong => WsMessage::Pong(Vec::new()),
        RelayFrame::Close { code, reason } => WsMessage::Close(Some(CloseFrame { code, reason })),
    }
}

}
