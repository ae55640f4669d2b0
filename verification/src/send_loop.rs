//! Outbound send loop with control-frame priority.
//!
//! Control frames are drained first on every iteration, giving them priority
//! over data frames, which are fed to the sink in batches with one flush each.
//! When the connection is told to stop, queued control frames still go out
//! before the close frame, so that "queue a reason, then cancel" is safe.

use vstd::prelude::*;

use crate::transport::{FrameView, RelayFrame};

verus! {

/// Maximum outbound data frames buffered into the sink before one flush.
pub const MAX_WS_SEND_BATCH: usize = 64;

/// Where the send loop stands.
#[derive(Debug, Clone, Copy, PartialEq, Eq)]
pub enum SendState {
    /// Looks for a pending control frame.
    Polling,
    /// Writes a control frame.
    Writing,
    /// Waits for cancellation, a control frame or a data frame, in this order
    /// of precedence.
    Selecting,
    /// Feeds the last of `batched` data frames.
    Feeding {
        /// Data frames in this batch.
        batched: usize,
    },
    /// Looks for a further data frame after `batched` of them.
    Filling {
        /// Data frames in this batch.
        batched: usize,
    },
    /// Flushes a batch.
    Flushing,
    /// Was told to stop, looks for a pending control frame.
    Draining,
    /// Was told to stop, writes a control frame.
    DrainWriting,
    /// Writes the close frame.
    Closing,
    /// Has ended.
    Stopped,
}

impl SendState {
    /// Whether the size of the batch keeps its bounds.
    pub open spec fn wf(self) -> bool {
        match self {
            SendState::Feeding { batched } => 1 <= batched <= MAX_WS_SEND_BATCH,
            SendState::Filling { batched } => 1 <= batched < MAX_WS_SEND_BATCH,
            _ => true,
        }
    }
}

/// What happened.
#[derive(Debug, Clone, PartialEq, Eq)]
pub enum SendEvent {
    /// The control queue gave a frame, or had none.
    Control(Option<RelayFrame>),
    /// The data queue gave a frame, or had none.
    Data(Option<RelayFrame>),
    /// The connection was told to stop.
    Cancelled,
    /// The sink has finished the last action, successfully or not.
    Sink(bool),
}

/// What to do next.
#[derive(Debug, Clone, PartialEq, Eq)]
pub enum SendAction {
    /// Look for a pending control frame without waiting.
    PollControl,
    /// Look for a pending data frame without waiting.
    PollData,
    /// Wait for cancellation, a control frame or a data frame.
    Select,
    /// Write a frame and flush.
    Write(RelayFrame),
    /// Buffer a frame.
    Feed(RelayFrame),
    /// Flush what was buffered.
    Flush,
    /// Write a close frame without details.
    WriteClose,
    /// End the loop.
    Stop,
}

/// The value of a [`SendEvent`].
pub enum SendEventView {
    Control(Option<FrameView>),
    Data(Option<FrameView>),
    Cancelled,
    Sink(bool),
}

/// The value of a [`SendAction`].
pub enum SendActionView {
    PollControl,
    PollData,
    Select,
    Write(FrameView),
    Feed(FrameView),
    Flush,
    WriteClose,
    Stop,
}

/// The value of an optional frame.
pub open spec fn opt_frame(frame: Option<RelayFrame>) -> Option<FrameView> {
    match frame {
        Some(frame) => Some(frame@),
        None => None,
    }
}

impl View for SendEvent {
    type V = SendEventView;

    open spec fn view(&self) -> SendEventView {
        match self {
            SendEvent::Control(frame) => SendEventView::Control(opt_frame(*frame)),
            SendEvent::Data(frame) => SendEventView::Data(opt_frame(*frame)),
            SendEvent::Cancelled => SendEventView::Cancelled,
            SendEvent::Sink(ok) => SendEventView::Sink(*ok),
        }
    }
}

impl View for SendAction {
    type V = SendActionView;

    open spec fn view(&self) -> SendActionView {
        match self {
            SendAction::PollControl => SendActionView::PollControl,
            SendAction::PollData => SendActionView::PollData,
            SendAction::Select => SendActionView::Select,
            SendAction::Write(frame) => SendActionView::Write(frame@),
            SendAction::Feed(frame) => SendActionView::Feed(frame@),
            SendAction::Flush => SendActionView::Flush,
            SendAction::WriteClose => SendActionView::WriteClose,
            SendAction::Stop => SendActionView::Stop,
        }
    }
}

/// Whether `event` can answer what the loop asked for in `state`.
pub open spec fn answers(state: SendState, event: SendEventView) -> bool {
    match state {
        SendState::Polling | SendState::Draining => event is Control,
        SendState::Filling { .. } => event is Data,
        SendState::Selecting => event !is Sink,
        SendState::Stopped => false,
        _ => event is Sink,
    }
}

/// Where the loop goes from `state` on `event`, and what it does.
pub open spec fn send_step(state: SendState, event: SendEventView) -> (SendState, SendActionView) {
    match (state, event) {
        (SendState::Polling, SendEventView::Control(Some(frame)))
        | (SendState::Selecting, SendEventView::Control(Some(frame))) => (
            SendState::Writing,
            SendActionView::Write(frame),
        ),
        (SendState::Polling, _) => (SendState::Selecting, SendActionView::Select),
        (SendState::Selecting, SendEventView::Cancelled) => (
            SendState::Draining,
            SendActionView::PollControl,
        ),
        (SendState::Selecting, SendEventView::Data(Some(frame))) => (
            SendState::Feeding { batched: 1 },
            SendActionView::Feed(frame),
        ),
        (SendState::Selecting, _) => (SendState::Selecting, SendActionView::Select),
        (SendState::Writing, SendEventView::Sink(true))
        | (SendState::Flushing, SendEventView::Sink(true)) => (
            SendState::Polling,
            SendActionView::PollControl,
        ),
        (SendState::Feeding { batched }, SendEventView::Sink(true)) => if batched
            < MAX_WS_SEND_BATCH {
            (SendState::Filling { batched }, SendActionView::PollData)
        } else {
            (SendState::Flushing, SendActionView::Flush)
        },
        (SendState::Filling { batched }, SendEventView::Data(Some(frame))) => (
            SendState::Feeding { batched: (batched + 1) as usize },
            SendActionView::Feed(frame),
        ),
        (SendState::Filling { .. }, _) => (SendState::Flushing, SendActionView::Flush),
        (SendState::Draining, SendEventView::Control(Some(frame))) => (
            SendState::DrainWriting,
            SendActionView::Write(frame),
        ),
        (SendState::Draining, _) => (SendState::Closing, SendActionView::WriteClose),
        (SendState::DrainWriting, SendEventView::Sink(true)) => (
            SendState::Draining,
            SendActionView::PollControl,
        ),
        (SendState::DrainWriting, _) => (SendState::Closing, SendActionView::WriteClose),
        _ => (SendState::Stopped, SendActionView::Stop),
    }
}

/// The outbound send loop of one connection.
#[derive(Debug)]
pub struct SendLoop {
    /// Where the loop stands.
    pub state: SendState,
}

impl SendLoop {
    /// A loop that starts by looking for a pending control frame.
    pub fn new() -> (step: (SendLoop, SendAction))
        ensures
            step.0.state == SendState::Polling,
            step.0.state.wf(),
            step.1@ == SendActionView::PollControl,
    {
        (SendLoop { state: SendState::Polling }, SendAction::PollControl)
    }

    /// Goes on after `event`.
    pub fn send_loop_inner(&mut self, event: SendEvent) -> (action: SendAction)
        requires
            old(self).state.wf(),
            answers(old(self).state, event@),
        ensures
            final(self).state.wf(),
            (final(self).state, action@) == send_step(old(self).state, event@),
    {
        match (self.state, event) {
            (SendState::Polling, SendEvent::Control(Some(frame))) => {
                self.state = SendState::Writing;
                SendAction::Write(frame)
            },
            (SendState::Selecting, SendEvent::Control(Some(frame))) => {
                self.state = SendState::Writing;
                SendAction::Write(frame)
            },
            (SendState::Polling, _) => {
                self.state = SendState::Selecting;
                SendAction::Select
            },
            (SendState::Selecting, SendEvent::Cancelled) => {
                self.state = SendState::Draining;
                SendAction::PollControl
            },
            (SendState::Selecting, SendEvent::Data(Some(frame))) => {
                self.state = SendState::Feeding { batched: 1 };
                SendAction::Feed(frame)
            },
            (SendState::Selecting, _) => SendAction::Select,
            (SendState::Writing, SendEvent::Sink(true)) => {
                self.state = SendState::Polling;
                SendAction::PollControl
            },
            (SendState::Flushing, SendEvent::Sink(true)) => {
                self.state = SendState::Polling;
                SendAction::PollControl
            },
            (SendState::Feeding { batched }, SendEvent::Sink(true)) => {
                if batched < MAX_WS_SEND_BATCH {
                    self.state = SendState::Filling { batched };
                    SendAction::PollData
                } else {
                    self.state = SendState::Flushing;
                    SendAction::Flush
                }
            },
            (SendState::Filling { batched }, SendEvent::Data(Some(frame))) => {
                self.state = SendState::Feeding { batched: batched + 1 };
                SendAction::Feed(frame)
            },
            (SendState::Filling { .. }, _) => {
                self.state = SendState::Flushing;
                SendAction::Flush
            },
            (SendState::Draining, SendEvent::Control(Some(frame))) => {
                self.state = SendState::DrainWriting;
                SendAction::Write(frame)
            },
            (SendState::Draining, _) => {
                self.state = SendState::Closing;
                SendAction::WriteClose
            },
            (SendState::DrainWriting, SendEvent::Sink(true)) => {
                self.state = SendState::Draining;
                SendAction::PollControl
            },
            (SendState::DrainWriting, _) => {
                self.state = SendState::Closing;
                SendAction::WriteClose
            },
            _ => {
                self.state = SendState::Stopped;
                SendAction::Stop
            },
        }
    }
}

/// Whether `events` can happen, one after the other, to a loop in `state`.
pub open spec fn answered(state: SendState, events: Seq<SendEventView>) -> bool
    decreases events.len(),
{
    events.len() == 0 || {
        &&& answered(state, events.drop_last())
        &&& answers(state_after(state, events.drop_last()), events.last())
    }
}

/// Where a loop that was in `state` stands after `events`.
pub open spec fn state_after(state: SendState, events: Seq<SendEventView>) -> SendState
    decreases events.len(),
{
    if events.len() == 0 {
        state
    } else {
        send_step(state_after(state, events.drop_last()), events.last()).0
    }
}

/// What a loop that was in `state` does on `events`.
pub open spec fn actions_on(state: SendState, events: Seq<SendEventView>) -> Seq<SendActionView>
    decreases events.len(),
{
    if events.len() == 0 {
        seq![]
    } else {
        actions_on(state, events.drop_last()).push(
            send_step(state_after(state, events.drop_last()), events.last()).1,
        )
    }
}

/// The frames that the queues gave.
pub open spec fn frames_given(events: Seq<SendEventView>) -> Seq<FrameView>
    decreases events.len(),
{
    if events.len() == 0 {
        seq![]
    } else {
        let before = frames_given(events.drop_last());
        match events.last() {
            SendEventView::Control(Some(frame)) => before.push(frame),
            SendEventView::Data(Some(frame)) => before.push(frame),
            _ => before,
        }
    }
}

/// The frames that went to the sink.
pub open spec fn frames_sent(actions: Seq<SendActionView>) -> Seq<FrameView>
    decreases actions.len(),
{
    if actions.len() == 0 {
        seq![]
    } else {
        let before = frames_sent(actions.drop_last());
        match actions.last() {
            SendActionView::Write(frame) => before.push(frame),
            SendActionView::Feed(frame) => before.push(frame),
            _ => before,
        }
    }
}

/// How many frames were fed since the last flush.
pub open spec fn unflushed(actions: Seq<SendActionView>) -> nat
    decreases actions.len(),
{
    if actions.len() == 0 {
        0
    } else {
        match actions.last() {
            SendActionView::Feed(_) => unflushed(actions.drop_last()) + 1,
            SendActionView::Flush | SendActionView::Write(_) => 0,
            _ => unflushed(actions.drop_last()),
        }
    }
}

/// Every frame that the queues give goes to the sink, once and in that order.
pub proof fn frames_are_sent_once_in_order(state: SendState, events: Seq<SendEventView>)
    requires
        answered(state, events),
    ensures
        frames_sent(actions_on(state, events)) == frames_given(events),
    decreases events.len(),
{
    if events.len() > 0 {
        let before = events.drop_last();
        frames_are_sent_once_in_order(state, before);
        let actions = actions_on(state, events);
        assert(actions.drop_last() =~= actions_on(state, before));
    }
}

/// No more than [`MAX_WS_SEND_BATCH`] frames are fed without a flush.
pub proof fn batches_are_bounded(events: Seq<SendEventView>)
    requires
        answered(SendState::Polling, events),
    ensures
        state_after(SendState::Polling, events).wf(),
        unflushed(actions_on(SendState::Polling, events)) <= MAX_WS_SEND_BATCH,
        state_after(SendState::Polling, events) is Polling ==> unflushed(
            actions_on(SendState::Polling, events),
        ) == 0,
{
    lemma_batch_size(events);
}

proof fn lemma_batch_size(events: Seq<SendEventView>)
    requires
        answered(SendState::Polling, events),
    ensures
        state_after(SendState::Polling, events).wf(),
        ({
            let open = unflushed(actions_on(SendState::Polling, events));
            match state_after(SendState::Polling, events) {
                SendState::Feeding { batched } => open == batched,
                SendState::Filling { batched } => open == batched,
                SendState::Stopped => open <= MAX_WS_SEND_BATCH,
                _ => open == 0,
            }
        }),
    decreases events.len(),
{
    if events.len() > 0 {
        let before = events.drop_last();
        lemma_batch_size(before);
        let actions = actions_on(SendState::Polling, events);
        assert(actions.drop_last() =~= actions_on(SendState::Polling, before));
    }
}

/// Control frames go first: a batch of data frames is begun only while the loop
/// waits, which it does only after the control queue had nothing to give.
pub proof fn control_frames_precede_data(state: SendState, event: SendEventView)
    requires
        answers(state, event),
    ensures
        send_step(state, event).1 is Select && state !is Selecting ==> event
            == SendEventView::Control(None),
        send_step(state, event).1 is Feed ==> state is Selecting || state is Filling,
{
}

/// A frame that a queue gives is sent at once, and the loop never stops for want
/// of frames: it waits for the next one. After each control frame and after each
/// batch the control queue comes first again.
pub proof fn what_the_queues_give_is_sent(state: SendState, frame: FrameView)
    ensures
        send_step(SendState::Polling, SendEventView::Control(Some(frame))).1
            == SendActionView::Write(frame),
        send_step(SendState::Selecting, SendEventView::Control(Some(frame))).1
            == SendActionView::Write(frame),
        send_step(SendState::Draining, SendEventView::Control(Some(frame))).1
            == SendActionView::Write(frame),
        send_step(SendState::Selecting, SendEventView::Data(Some(frame))).1
            == SendActionView::Feed(frame),
        state is Filling ==> send_step(state, SendEventView::Data(Some(frame))).1
            == SendActionView::Feed(frame),
        send_step(SendState::Polling, SendEventView::Control(Some(frame))).0 is Writing,
        send_step(SendState::Selecting, SendEventView::Control(Some(frame))).0 is Writing,
        send_step(SendState::Selecting, SendEventView::Data(Some(frame))).0
            == (SendState::Feeding { batched: 1 }),
        send_step(SendState::Polling, SendEventView::Control(None)) == (
            SendState::Selecting,
            SendActionView::Select,
        ),
        send_step(SendState::Selecting, SendEventView::Control(None)) == (
            SendState::Selecting,
            SendActionView::Select,
        ),
        send_step(SendState::Selecting, SendEventView::Data(None)) == (
            SendState::Selecting,
            SendActionView::Select,
        ),
        state is Writing || state is Flushing ==> send_step(state, SendEventView::Sink(true)) == (
            SendState::Polling,
            SendActionView::PollControl,
        ),
        send_step(SendState::Closing, SendEventView::Sink(true)) == (
            SendState::Stopped,
            SendActionView::Stop,
        ),
{
}

/// A batch goes on with each data frame that waits until it holds 64 of them, and
/// is flushed then or as soon as none waits.
pub proof fn batches_are_filled_and_flushed(batched: usize, frame: FrameView)
    requires
        1 <= batched <= 64,
    ensures
        batched < 64 ==> send_step(SendState::Feeding { batched }, SendEventView::Sink(true)) == (
            SendState::Filling { batched },
            SendActionView::PollData,
        ),
        batched == 64 ==> send_step(SendState::Feeding { batched }, SendEventView::Sink(true)) == (
            SendState::Flushing,
            SendActionView::Flush,
        ),
        batched < 64 ==> send_step(
            SendState::Filling { batched },
            SendEventView::Data(Some(frame)),
        ).0 == (SendState::Feeding { batched: (batched + 1) as usize }),
        send_step(SendState::Filling { batched }, SendEventView::Data(None)) == (
            SendState::Flushing,
            SendActionView::Flush,
        ),
{
}

/// A loop that is told to stop while it waits writes each control frame that is
/// left and, when none is, the close frame.
pub proof fn stopping_loops_write_what_is_left(frame: FrameView)
    ensures
        send_step(SendState::Selecting, SendEventView::Cancelled) == (
            SendState::Draining,
            SendActionView::PollControl,
        ),
        send_step(SendState::Draining, SendEventView::Control(Some(frame))) == (
            SendState::DrainWriting,
            SendActionView::Write(frame),
        ),
        send_step(SendState::DrainWriting, SendEventView::Sink(true)) == (
            SendState::Draining,
            SendActionView::PollControl,
        ),
        send_step(SendState::Draining, SendEventView::Control(None)) == (
            SendState::Closing,
            SendActionView::WriteClose,
        ),
{
}

/// Whether a loop has been told to stop.
pub open spec fn ending(state: SendState) -> bool {
    state is Draining || state is DrainWriting || state is Closing || state is Stopped
}

/// Once told to stop, a loop sends no more data. It writes the close frame
/// after the last pending control frame, or after one that could not be
/// written, and nothing after the close frame.
pub proof fn cancellation_drains_control_and_closes(later: Seq<SendEventView>)
    requires
        answered(SendState::Selecting, seq![SendEventView::Cancelled] + later),
    ensures
        ({
            let all = seq![SendEventView::Cancelled] + later;
            let state = state_after(SendState::Selecting, all);
            let actions = actions_on(SendState::Selecting, all);
            &&& ending(state)
            &&& forall|i: int|
                0 <= i < actions.len() ==> #[trigger] actions[i] !is Feed && actions[i] !is Flush
            &&& later.len() > 0 && actions.last() is WriteClose ==> later.last()
                == SendEventView::Control(None) || later.last() == SendEventView::Sink(false)
            &&& state is Stopped ==> actions.last() is Stop
        }),
    decreases later.len(),
{
    let all = seq![SendEventView::Cancelled] + later;
    if later.len() > 0 {
        let before = seq![SendEventView::Cancelled] + later.drop_last();
        assert(all.drop_last() =~= before);
        cancellation_drains_control_and_closes(later.drop_last());
        assert(all.last() == later.last());
        let actions = actions_on(SendState::Selecting, all);
        assert(actions.drop_last() =~= actions_on(SendState::Selecting, before));
        assert forall|i: int| 0 <= i < actions.len() implies #[trigger] actions[i] !is Feed
            && actions[i] !is Flush by {
            if i < actions.len() - 1 {
                assert(actions[i] == actions.drop_last()[i]);
            }
        }
    } else {
        assert(all.drop_last() =~= seq![]);
        assert(all.last() is Cancelled);
        reveal_with_fuel(state_after, 3);
        reveal_with_fuel(actions_on, 3);
    }
}

/// A sink that fails ends the loop at once, unless the loop is about to close
/// anyway: that is still attempted.
pub proof fn sink_failure_ends_the_loop(state: SendState)
    requires
        answers(state, SendEventView::Sink(false)),
    ensures
        send_step(state, SendEventView::Sink(false)) == if state is DrainWriting {
            (SendState::Closing, SendActionView::WriteClose)
        } else {
            (SendState::Stopped, SendActionView::Stop)
        },
{
}

}
