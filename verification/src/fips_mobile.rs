//! Mobile bridge for FIPS sessions.
//!
//! One bridge owns one session. The adapter performs the network operations and
//! reports back; this module decides which status the caller sees, and keeps a
//! received frame until it has been handed over.

use vstd::prelude::*;
use vstd::string::*;
use vstd::utf8::*;

use crate::text;

verus! {

/// The result of a bridge operation visible to the caller.
#[derive(Clone, Copy, Debug, Eq, PartialEq)]
pub enum BridgeStatus {
    /// The bridge has not been started or has been stopped.
    Stopped,
    /// A FIPS session has started and is ready to connect.
    Running,
    /// A persistent QUIC stream is ready for frame I/O.
    Connected,
    /// A caller supplied a null, malformed, or invalid UTF-8 buffer.
    InvalidInput,
    /// Frame I/O was requested before a connection was established.
    NotConnected,
    /// The receive buffer cannot hold the pending frame.
    BufferTooSmall,
    /// FIPS could not complete the requested operation.
    Failed,
}

impl BridgeStatus {
    /// The numeric code of a status.
    pub open spec fn code_of(self) -> u32 {
        match self {
            BridgeStatus::Stopped => 0,
            BridgeStatus::Running => 1,
            BridgeStatus::Connected => 2,
            BridgeStatus::InvalidInput => 3,
            BridgeStatus::NotConnected => 4,
            BridgeStatus::BufferTooSmall => 5,
            BridgeStatus::Failed => 6,
        }
    }

    /// The numeric code of the status.
    pub fn code(self) -> (code: u32)
        ensures
            code == self.code_of(),
    {
        match self {
            BridgeStatus::Stopped => 0,
            BridgeStatus::Running => 1,
            BridgeStatus::Connected => 2,
            BridgeStatus::InvalidInput => 3,
            BridgeStatus::NotConnected => 4,
            BridgeStatus::BufferTooSmall => 5,
            BridgeStatus::Failed => 6,
        }
    }
}

/// The codes that callers know: none for a stopped bridge, then those of a
/// running and of a connected one, then the failures.
pub proof fn status_codes_are_fixed()
    ensures
        BridgeStatus::Stopped.code_of() == 0,
        BridgeStatus::Running.code_of() == 1,
        BridgeStatus::Connected.code_of() == 2,
        BridgeStatus::InvalidInput.code_of() == 3,
        BridgeStatus::NotConnected.code_of() == 4,
        BridgeStatus::BufferTooSmall.code_of() == 5,
        BridgeStatus::Failed.code_of() == 6,
{
}

/// Different statuses have different codes.
pub proof fn status_codes_are_distinct(a: BridgeStatus, b: BridgeStatus)
    requires
        a.code_of() == b.code_of(),
    ensures
        a == b,
{
}

/// The state of a session.
#[derive(Clone, Copy, Debug, Eq, PartialEq)]
pub enum SessionStatus {
    /// Ready to connect.
    Idle,
    /// Connected.
    Connected,
    /// Not connected.
    NotConnected,
    /// Stopped.
    Stopped,
}

/// Why a session operation failed.
#[derive(Clone, Copy, Debug, Eq, PartialEq)]
pub enum SessionError {
    /// The session was in this state.
    Status(SessionStatus),
    /// Anything else.
    Other,
}

/// The status of a bridge whose session, if there is one, is in `session`.
pub open spec fn status_of(session: Option<SessionStatus>) -> BridgeStatus {
    match session {
        Some(SessionStatus::Connected) => BridgeStatus::Connected,
        Some(SessionStatus::Idle) => BridgeStatus::Running,
        _ => BridgeStatus::Stopped,
    }
}

/// The status that a session error is reported as.
pub open spec fn error_status(error: SessionError) -> BridgeStatus {
    match error {
        SessionError::Status(SessionStatus::NotConnected) => BridgeStatus::NotConnected,
        SessionError::Status(SessionStatus::Connected) => BridgeStatus::Connected,
        SessionError::Status(SessionStatus::Stopped) => BridgeStatus::Stopped,
        _ => BridgeStatus::Failed,
    }
}

/// The status that the outcome of a session operation is reported as.
pub open spec fn outcome_status(outcome: Result<(), SessionError>) -> BridgeStatus {
    match outcome {
        Ok(_) => BridgeStatus::Connected,
        Err(error) => error_status(error),
    }
}

/// A bridge reports a connected session as connected and one that is ready as
/// running; without a session, or with one in any other state, it is stopped. An
/// operation that went well leaves it connected; one that failed is reported as
/// the state that the session was in, if that is one to report, and else as
/// failed.
pub proof fn statuses_tell_of_the_session(session: SessionStatus, error: SessionError)
    ensures
        status_of(None) is Stopped,
        status_of(Some(session)) is Connected <==> session is Connected,
        status_of(Some(session)) is Running <==> session is Idle,
        status_of(Some(session)) is Stopped <==> session is NotConnected || session is Stopped,
        outcome_status(Ok(())) is Connected,
        outcome_status(Err(error)) == error_status(error),
        error_status(SessionError::Other) is Failed,
        error_status(SessionError::Status(SessionStatus::Idle)) is Failed,
        error_status(SessionError::Status(SessionStatus::NotConnected)) is NotConnected,
        error_status(SessionError::Status(SessionStatus::Connected)) is Connected,
        error_status(SessionError::Status(SessionStatus::Stopped)) is Stopped,
{
}

/// The status of a bridge.
pub fn bridge_status(session: Option<SessionStatus>) -> (status: BridgeStatus)
    ensures
        status == status_of(session),
{
    match session {
        Some(SessionStatus::Connected) => BridgeStatus::Connected,
        Some(SessionStatus::Idle) => BridgeStatus::Running,
        _ => BridgeStatus::Stopped,
    }
}

/// The status that a session error is reported as.
pub fn session_error_status(error: SessionError) -> (status: BridgeStatus)
    ensures
        status == error_status(error),
{
    match error {
        SessionError::Status(SessionStatus::NotConnected) => BridgeStatus::NotConnected,
        SessionError::Status(SessionStatus::Connected) => BridgeStatus::Connected,
        SessionError::Status(SessionStatus::Stopped) => BridgeStatus::Stopped,
        _ => BridgeStatus::Failed,
    }
}

/// The status that the outcome of a session operation is reported as.
pub fn session_outcome(outcome: Result<(), SessionError>) -> (status: BridgeStatus)
    ensures
        status == outcome_status(outcome),
{
    match outcome {
        Ok(_) => BridgeStatus::Connected,
        Err(error) => session_error_status(error),
    }
}

/// Whether a caller's buffer of `len` bytes may be read: a null pointer is only
/// accepted for an empty buffer.
pub fn input(is_null: bool, len: usize) -> (usable: bool)
    ensures
        usable == (!is_null || len == 0),
{
    !is_null || len == 0
}

/// The bridge.
#[derive(Debug)]
pub struct Bridge {
    /// Whether there is a session.
    pub started: bool,
    /// A frame that was received and not yet handed over.
    pub pending_frame: Option<Vec<u8>>,
}

/// The value of a [`Bridge`].
pub struct BridgeView {
    pub started: bool,
    pub pending: Option<Seq<u8>>,
}

impl View for Bridge {
    type V = BridgeView;

    open spec fn view(&self) -> BridgeView {
        BridgeView {
            started: self.started,
            pending: match self.pending_frame {
                Some(frame) => Some(frame@),
                None => None,
            },
        }
    }
}

/// What to do about a receive request.
#[derive(Clone, Copy, Debug, Eq, PartialEq)]
pub enum ReceiveStep {
    /// Report this status.
    Report(BridgeStatus),
    /// Receive a frame from the session.
    Poll,
    /// Hand over the pending frame.
    HandOver,
}

/// A frame that is handed over, and what is reported.
#[derive(Debug)]
pub struct Delivery {
    /// The status to report.
    pub status: BridgeStatus,
    /// The length to report.
    pub len: usize,
    /// The bytes to copy into the caller's buffer.
    pub frame: Option<Vec<u8>>,
}

impl BridgeView {
    /// Whether a pending frame has a session that it came from.
    pub open spec fn wf(self) -> bool {
        self.pending is Some ==> self.started
    }
}

/// A bridge after a request to start it.
pub open spec fn after_start(bridge: BridgeView, created: bool) -> BridgeView {
    if !bridge.started && created {
        BridgeView { started: true, pending: None }
    } else {
        bridge
    }
}

/// A bridge after a request to stop it.
pub open spec fn after_stop(bridge: BridgeView) -> BridgeView {
    if bridge.started {
        BridgeView { started: false, pending: None }
    } else {
        bridge
    }
}

/// A bridge after its pending frame was asked for with room for `capacity`
/// bytes, and the frame if it was handed over.
pub open spec fn after_hand_over(bridge: BridgeView, capacity: nat) -> (
    BridgeView,
    Option<Seq<u8>>,
) {
    match bridge.pending {
        Some(frame) if frame.len() <= capacity => (
            BridgeView { started: bridge.started, pending: None },
            Some(frame),
        ),
        _ => (bridge, None),
    }
}

/// Starting a started bridge and stopping a stopped one change nothing, and a
/// start after a stop begins without a pending frame.
pub proof fn start_and_stop_are_idempotent(bridge: BridgeView, created: bool)
    ensures
        after_start(after_start(bridge, true), created) == after_start(bridge, true),
        after_stop(after_stop(bridge)) == after_stop(bridge),
        !after_stop(bridge).started,
        after_start(after_stop(bridge), true) == (BridgeView { started: true, pending: None }),
{
}

/// A buffer that is too small loses no frame: the same frame is handed over to
/// the first buffer that holds it, and only once.
pub proof fn short_buffers_lose_no_frame(
    bridge: BridgeView,
    frame: Seq<u8>,
    short: nat,
    enough: nat,
)
    requires
        bridge.pending == Some(frame),
        short < frame.len() <= enough,
    ensures
        after_hand_over(bridge, short) == (bridge, None::<Seq<u8>>),
        after_hand_over(after_hand_over(bridge, short).0, enough).1 == Some(frame),
        after_hand_over(after_hand_over(bridge, enough).0, enough).1 is None,
{
}

/// A bridge has a session after a start that could set one up, and after one that
/// could not exactly if it had one before, whose pending frame it keeps. After a
/// stop it has neither.
pub proof fn starts_and_stops_take_effect(bridge: BridgeView, created: bool)
    ensures
        after_start(bridge, created).started <==> bridge.started || created,
        bridge.started || !created ==> after_start(bridge, created) == bridge,
        !bridge.started && created ==> after_start(bridge, created).pending is None,
        bridge.wf() ==> after_stop(bridge) == (BridgeView { started: false, pending: None }),
{
}

/// A frame is handed over exactly if it is pending and fits, whole, and then is
/// pending no more; else it stays. A session goes on either way.
pub proof fn frames_that_fit_are_handed_over(bridge: BridgeView, capacity: nat, frame: Seq<u8>)
    ensures
        after_hand_over(bridge, capacity).1 == Some(frame) <==> bridge.pending == Some(frame)
            && frame.len() <= capacity,
        after_hand_over(bridge, capacity).1 is Some ==> after_hand_over(bridge, capacity).0.pending
            is None,
        after_hand_over(bridge, capacity).1 is None ==> after_hand_over(bridge, capacity).0
            == bridge,
        after_hand_over(bridge, capacity).0.started == bridge.started,
{
}

/// What is reported of a request to start a bridge.
pub open spec fn start_status(bridge: BridgeView, created: bool, session: SessionStatus) -> BridgeStatus {
    if bridge.started || created {
        status_of(Some(session))
    } else {
        BridgeStatus::Failed
    }
}

/// What is reported of a request to stop a bridge.
pub open spec fn stop_status(bridge: BridgeView, ended: bool) -> BridgeStatus {
    if bridge.started && !ended {
        BridgeStatus::Failed
    } else {
        BridgeStatus::Stopped
    }
}

/// The peer that a request to connect names, or what is reported of it.
pub open spec fn connect_request(bridge: BridgeView, peer: Option<Seq<u8>>) -> Result<
    Seq<char>,
    BridgeStatus,
> {
    match peer {
        Some(bytes) if valid_utf8(bytes) && decode_utf8(bytes).len() > 0 => if bridge.started {
            Ok(decode_utf8(bytes))
        } else {
            Err(BridgeStatus::Stopped)
        },
        _ => Err(BridgeStatus::InvalidInput),
    }
}

/// The frame of a request to send, or what is reported of it.
pub open spec fn send_request(bridge: BridgeView, frame: Option<Vec<u8>>) -> Result<
    Vec<u8>,
    BridgeStatus,
> {
    match frame {
        None => Err(BridgeStatus::InvalidInput),
        Some(bytes) => if bridge.started {
            Ok(bytes)
        } else {
            Err(BridgeStatus::Stopped)
        },
    }
}

/// What is done about a request to receive.
pub open spec fn receive_request(
    bridge: BridgeView,
    frame_is_null: bool,
    capacity: usize,
    len_is_null: bool,
) -> ReceiveStep {
    if len_is_null || (capacity != 0 && frame_is_null) {
        ReceiveStep::Report(BridgeStatus::InvalidInput)
    } else if !bridge.started {
        ReceiveStep::Report(BridgeStatus::Stopped)
    } else if bridge.pending is None {
        ReceiveStep::Poll
    } else {
        ReceiveStep::HandOver
    }
}

/// Whether what a session received turns `before` into `after` and is reported as
/// `report`.
pub open spec fn received_into(
    before: BridgeView,
    received: Result<Vec<u8>, SessionError>,
    after: BridgeView,
    report: Option<BridgeStatus>,
) -> bool {
    match received {
        Ok(frame) => report is None && after == (BridgeView {
            started: true,
            pending: Some(frame@),
        }),
        Err(error) => report == Some(error_status(error)) && after == before,
    }
}

/// A start fails exactly if there is no session and none can be set up; a stop
/// fails exactly if there was a session that did not end well, and leaves no
/// session even so.
pub proof fn starts_and_stops_are_reported(
    bridge: BridgeView,
    created: bool,
    session: SessionStatus,
    ended: bool,
)
    ensures
        start_status(bridge, created, session) is Failed <==> !bridge.started && !created,
        start_status(bridge, created, session) is Running <==> (bridge.started || created)
            && session is Idle,
        start_status(bridge, created, session) is Connected <==> (bridge.started || created)
            && session is Connected,
        stop_status(bridge, ended) is Failed <==> bridge.started && !ended,
        stop_status(bridge, ended) !is Failed ==> stop_status(bridge, ended) is Stopped,
        !after_stop(bridge).started,
{
}

/// What is asked of a started bridge with readable input is done: it connects to
/// the very peer that is named, and sends the very frame. Unreadable input is
/// reported before a bridge that is stopped, and a peer needs a name.
pub proof fn readable_requests_are_carried_out(
    bridge: BridgeView,
    peer: Seq<char>,
    bytes: Seq<u8>,
    frame: Vec<u8>,
)
    ensures
        peer.len() > 0 && bridge.started ==> connect_request(bridge, Some(encode_utf8(peer)))
            == Ok::<Seq<char>, BridgeStatus>(peer),
        peer.len() > 0 && !bridge.started ==> connect_request(bridge, Some(encode_utf8(peer)))
            == Err::<Seq<char>, BridgeStatus>(BridgeStatus::Stopped),
        !valid_utf8(bytes) || bytes.len() == 0 ==> connect_request(bridge, Some(bytes)) == Err::<
            Seq<char>,
            BridgeStatus,
        >(BridgeStatus::InvalidInput),
        connect_request(bridge, None) == Err::<Seq<char>, BridgeStatus>(BridgeStatus::InvalidInput),
        bridge.started ==> send_request(bridge, Some(frame)) == Ok::<Vec<u8>, BridgeStatus>(frame),
        !bridge.started ==> send_request(bridge, Some(frame)) == Err::<Vec<u8>, BridgeStatus>(
            BridgeStatus::Stopped,
        ),
        send_request(bridge, None) == Err::<Vec<u8>, BridgeStatus>(BridgeStatus::InvalidInput),
{
    encode_utf8_valid_utf8(peer);
    encode_utf8_decode_utf8(peer);
}

/// What a session receives is what the next receive request hands over, to a
/// buffer that it fits: the session is polled only while nothing is pending, and a
/// failure is reported and leaves nothing pending.
pub proof fn received_frames_reach_the_caller(
    bridge: BridgeView,
    frame_is_null: bool,
    capacity: usize,
    received: Result<Vec<u8>, SessionError>,
    after: BridgeView,
    report: Option<BridgeStatus>,
)
    requires
        bridge.started,
        bridge.pending is None,
        capacity == 0 || !frame_is_null,
        received_into(bridge, received, after, report),
    ensures
        receive_request(bridge, frame_is_null, capacity, false) is Poll,
        received matches Ok(frame) ==> {
            &&& report is None
            &&& receive_request(after, frame_is_null, capacity, false) is HandOver
            &&& frame@.len() <= capacity ==> after_hand_over(after, capacity as nat).1
                == Some(frame@)
            &&& frame@.len() > capacity ==> after_hand_over(after, capacity as nat).0 == after
        },
        received matches Err(error) ==> report == Some(error_status(error)) && after == bridge,
{
}

/// A receive request without a place for the length, or without a buffer for its
/// capacity, is refused; a stopped bridge is reported otherwise.
pub proof fn receive_requests_need_a_buffer(
    bridge: BridgeView,
    frame_is_null: bool,
    capacity: usize,
    len_is_null: bool,
)
    ensures
        receive_request(bridge, frame_is_null, capacity, len_is_null) == ReceiveStep::Report(
            BridgeStatus::InvalidInput,
        ) <==> len_is_null || (capacity > 0 && frame_is_null),
        receive_request(bridge, frame_is_null, capacity, len_is_null) == ReceiveStep::Report(
            BridgeStatus::Stopped,
        ) <==> !bridge.started && !len_is_null && (capacity == 0 || !frame_is_null),
{
}

/// Whether `status` and `len` are what is reported of a frame of `frame_len` bytes
/// that was asked for with room for `capacity`.
pub open spec fn hand_over_reported(
    frame_len: nat,
    capacity: nat,
    status: BridgeStatus,
    len: nat,
) -> bool {
    &&& len == frame_len
    &&& status == if frame_len > capacity {
        BridgeStatus::BufferTooSmall
    } else {
        BridgeStatus::Connected
    }
}

/// The length of a frame is reported whether it fits or not, so that a caller whose
/// buffer is too small knows what to ask for: with that capacity it fits.
pub proof fn reported_lengths_are_enough(
    frame_len: nat,
    capacity: nat,
    status: BridgeStatus,
    len: nat,
    again: BridgeStatus,
    len_again: nat,
)
    requires
        hand_over_reported(frame_len, capacity, status, len),
    ensures
        len == frame_len,
        status is BufferTooSmall <==> capacity < frame_len,
        status is Connected <==> frame_len <= capacity,
        hand_over_reported(frame_len, len, again, len_again) ==> again is Connected,
{
}

impl Bridge {
    /// A bridge without a session.
    pub fn new() -> (bridge: Bridge)
        ensures
            bridge@ == (BridgeView { started: false, pending: None }),
            bridge@.wf(),
    {
        Bridge { started: false, pending_frame: None }
    }

    /// Starts an idle session. This operation is idempotent.
    ///
    /// `created` tells whether a session could be set up, where there is none;
    /// `session` is its state, or that of the one that runs.
    pub fn buzz_fips_mobile_start(&mut self, created: bool, session: SessionStatus) -> (status:
        BridgeStatus)
        requires
            old(self)@.wf(),
        ensures
            final(self)@.wf(),
            final(self)@ == after_start(old(self)@, created),
            status == start_status(old(self)@, created, session),
            status == (if old(self)@.started || created {
                status_of(Some(session))
            } else {
                BridgeStatus::Failed
            }),
    {
        if !self.started {
            if !created {
                return BridgeStatus::Failed;
            }
            self.started = true;
            self.pending_frame = None;
        }
        bridge_status(Some(session))
    }

    /// Stops the session, whose end went well or not. This operation is
    /// idempotent.
    pub fn buzz_fips_mobile_stop(&mut self, ended: bool) -> (status: BridgeStatus)
        ensures
            final(self)@ == after_stop(old(self)@),
            status == stop_status(old(self)@, ended),
            status == (if old(self)@.started && !ended {
                BridgeStatus::Failed
            } else {
                BridgeStatus::Stopped
            }),
    {
        if self.started {
            self.started = false;
            self.pending_frame = None;
            if !ended {
                return BridgeStatus::Failed;
            }
        }
        BridgeStatus::Stopped
    }

    /// The session's state, without starting it.
    pub fn buzz_fips_mobile_status(&self, session: SessionStatus) -> (status: BridgeStatus)
        ensures
            status == status_of(
                if self@.started {
                    Some(session)
                } else {
                    None
                },
            ),
    {
        if self.started {
            bridge_status(Some(session))
        } else {
            bridge_status(None)
        }
    }

    /// Checks a request to connect, and gives the peer to connect to. `peer`
    /// holds the caller's buffer, if it may be read; the outcome of the attempt
    /// is reported by [`session_outcome`].
    pub fn buzz_fips_mobile_connect(&self, peer: Option<Vec<u8>>) -> (result: Result<
        String,
        BridgeStatus,
    >)
        ensures
            ({
                let request = connect_request(
                    self@,
                    match peer {
                        Some(bytes) => Some(bytes@),
                        None => None,
                    },
                );
                match result {
                    Ok(npub) => request == Ok::<Seq<char>, BridgeStatus>(npub@),
                    Err(status) => request == Err::<Seq<char>, BridgeStatus>(status),
                }
            }),
            match peer {
                Some(bytes) if valid_utf8(bytes@) && decode_utf8(bytes@).len() > 0 => if self@.started {
                    result matches Ok(npub) && npub@ == decode_utf8(bytes@)
                } else {
                    result == Err::<String, BridgeStatus>(BridgeStatus::Stopped)
                },
                _ => result == Err::<String, BridgeStatus>(BridgeStatus::InvalidInput),
            },
    {
        let npub = match peer {
            Some(bytes) => match text::text_from_utf8(bytes) {
                Some(npub) => npub,
                None => {
                    return Err(BridgeStatus::InvalidInput);
                },
            },
            None => {
                return Err(BridgeStatus::InvalidInput);
            },
        };
        if npub.as_str().is_empty() {
            return Err(BridgeStatus::InvalidInput);
        }
        if !self.started {
            return Err(BridgeStatus::Stopped);
        }
        Ok(npub)
    }

    /// Checks a request to send, and gives the frame to send. `frame` holds the
    /// caller's buffer, if it may be read; the outcome of the attempt is
    /// reported by [`session_outcome`].
    pub fn buzz_fips_mobile_send(&self, frame: Option<Vec<u8>>) -> (result: Result<
        Vec<u8>,
        BridgeStatus,
    >)
        ensures
            result == send_request(self@, frame),
            result == (match frame {
                None => Err::<Vec<u8>, BridgeStatus>(BridgeStatus::InvalidInput),
                Some(bytes) => if self@.started {
                    Ok(bytes)
                } else {
                    Err(BridgeStatus::Stopped)
                },
            }),
    {
        match frame {
            None => Err(BridgeStatus::InvalidInput),
            Some(bytes) => if self.started {
                Ok(bytes)
            } else {
                Err(BridgeStatus::Stopped)
            },
        }
    }

    /// Alias for [`Self::buzz_fips_mobile_send`].
    pub fn buzz_fips_mobile_submit_frame(&self, frame: Option<Vec<u8>>) -> (result: Result<
        Vec<u8>,
        BridgeStatus,
    >)
        ensures
            result == send_request(self@, frame),
            result == (match frame {
                None => Err::<Vec<u8>, BridgeStatus>(BridgeStatus::InvalidInput),
                Some(bytes) => if self@.started {
                    Ok(bytes)
                } else {
                    Err(BridgeStatus::Stopped)
                },
            }),
    {
        self.buzz_fips_mobile_send(frame)
    }

    /// Checks a request to receive. `len_is_null` and `frame_is_null` tell of
    /// the caller's pointers.
    pub fn buzz_fips_mobile_receive(
        &self,
        frame_is_null: bool,
        capacity: usize,
        len_is_null: bool,
    ) -> (step: ReceiveStep)
        ensures
            step == receive_request(self@, frame_is_null, capacity, len_is_null),
            step == (if len_is_null || (capacity != 0 && frame_is_null) {
                ReceiveStep::Report(BridgeStatus::InvalidInput)
            } else if !self@.started {
                ReceiveStep::Report(BridgeStatus::Stopped)
            } else if self@.pending is None {
                ReceiveStep::Poll
            } else {
                ReceiveStep::HandOver
            }),
    {
        if len_is_null || (capacity != 0 && frame_is_null) {
            return ReceiveStep::Report(BridgeStatus::InvalidInput);
        }
        if !self.started {
            return ReceiveStep::Report(BridgeStatus::Stopped);
        }
        if self.pending_frame.is_none() {
            return ReceiveStep::Poll;
        }
        ReceiveStep::HandOver
    }

    /// Takes in what the session received. Returns the status to report, if
    /// there is no frame to hand over.
    pub fn on_received(&mut self, received: Result<Vec<u8>, SessionError>) -> (report: Option<
        BridgeStatus,
    >)
        requires
            old(self)@.started,
            old(self)@.pending is None,
        ensures
            final(self)@.wf(),
            received_into(old(self)@, received, final(self)@, report),
            match received {
                Ok(frame) => report is None && final(self)@ == (BridgeView {
                    started: true,
                    pending: Some(frame@),
                }),
                Err(error) => report == Some(error_status(error)) && final(self)@ == old(self)@,
            },
    {
        match received {
            Ok(frame) => {
                self.pending_frame = Some(frame);
                None
            },
            Err(error) => Some(session_error_status(error)),
        }
    }

    /// Hands the pending frame over to a buffer of `capacity` bytes. A buffer
    /// that is too small leaves the frame pending so the caller can retry; its
    /// length is reported either way.
    pub fn hand_over(&mut self, capacity: usize) -> (delivery: Delivery)
        requires
            old(self)@.started,
            old(self)@.pending is Some,
        ensures
            final(self)@.wf(),
            hand_over_reported(
                old(self)@.pending->Some_0.len(),
                capacity as nat,
                delivery.status,
                delivery.len as nat,
            ),
            delivery.len == old(self)@.pending->Some_0.len(),
            delivery.status == (if delivery.len > capacity {
                BridgeStatus::BufferTooSmall
            } else {
                BridgeStatus::Connected
            }),
            (
                final(self)@,
                match delivery.frame {
                    Some(frame) => Some(frame@),
                    None => None,
                },
            ) == after_hand_over(old(self)@, capacity as nat),
    {
        let frame = self.pending_frame.take().unwrap();
        let len = frame.len();
        if len > capacity {
            self.pending_frame = Some(frame);
            return Delivery { status: BridgeStatus::BufferTooSmall, len, frame: None };
        }
        Delivery { status: BridgeStatus::Connected, len, frame: Some(frame) }
    }
}

}
