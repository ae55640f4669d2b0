//! From protocol text to handlers: parsing, admission, permits.
//!
//! A [`MessageFlow`] takes one client message from its arrival to the handler
//! that serves it or to the reply that refuses it. The adapter performs each
//! [`FlowAction`] and reports back.

use vstd::prelude::*;
use vstd::string::*;

use crate::auth::{AuthContext, AuthState};
use crate::envelope::PublicKey;
use crate::protocol;
use crate::protocol::ClientMessage;
use crate::text;

verus! {

/// Window of the per-principal message quota, in seconds.
pub const MESSAGE_WINDOW_SECS: u64 = 60;

/// Reason given when all handlers are busy.
pub const TOO_MANY_REQUESTS: &'static str = "rate-limited: too many concurrent requests";

/// Reason given when the quota service does not answer.
pub const ADMISSION_UNAVAILABLE: &'static str = "rate-limited: shared admission unavailable";

/// Which quota a check draws on.
#[derive(Debug, Clone, Copy, PartialEq, Eq)]
pub enum LimitType {
    /// Commands over a socket.
    WsEvents,
    /// Published messages.
    Messages,
}

/// Quotas of a relay.
#[derive(Debug, Clone, Copy, PartialEq, Eq)]
pub struct RateLimits {
    /// Window of the command quota, in seconds.
    pub ws_window_secs: u64,
    /// Commands per window.
    pub ws_limit: u32,
    /// Messages per minute for a human.
    pub human_messages_per_min: u32,
    /// Messages per minute for an agent.
    pub agent_standard_messages_per_min: u32,
}

/// A quota check for one principal.
#[derive(Debug, Clone, Copy, PartialEq, Eq)]
pub struct AdmissionCheck {
    /// The principal.
    pub pubkey: PublicKey,
    /// Which quota.
    pub limit_type: LimitType,
    /// Window, in seconds.
    pub window_secs: u64,
    /// Uses per window.
    pub limit: u32,
}

/// Why a quota check refused.
#[derive(Debug, Clone, Copy, PartialEq, Eq)]
pub enum AdmissionError {
    /// The quota is used up.
    Exceeded {
        /// Seconds until it starts anew.
        reset_in_secs: u64,
    },
    /// The quota service does not answer.
    Unavailable,
}

/// How far a message has come.
#[derive(Debug, PartialEq, Eq)]
pub enum MessageFlow {
    /// Waits for the command quota.
    AwaitingCommandQuota {
        /// The message.
        msg: ClientMessage,
        /// Who sent it.
        sender: AuthContext,
        /// The relay's quotas.
        limits: RateLimits,
    },
    /// Waits for the message quota.
    AwaitingMessageQuota {
        /// The message.
        msg: ClientMessage,
    },
    /// Waits for a free handler.
    AwaitingHandler {
        /// The message.
        msg: ClientMessage,
    },
    /// Served or refused.
    Finished,
}

/// What to do next with a message.
#[derive(Debug, PartialEq, Eq)]
pub enum FlowAction {
    /// Send this reply.
    Reply(String),
    /// Draw on a quota.
    Check(AdmissionCheck),
    /// Try to reserve a handler.
    ReserveHandler,
    /// Verify this authentication event.
    Authenticate(String),
    /// End this subscription.
    CloseSubscription(String),
    /// Serve the message on the reserved handler.
    Serve(ClientMessage),
}

/// Whether a message draws on quotas.
pub open spec fn draws_on_quota(msg: ClientMessage) -> bool {
    msg is Event || msg is Req || msg is Count
}

/// The subscription that a refusal of `msg` is addressed to.
pub open spec fn refused_subscription(msg: ClientMessage) -> Option<Seq<char>> {
    match msg {
        ClientMessage::Req { sub_id, .. } => Some(sub_id@),
        _ => None,
    }
}

/// The refusal of a request, addressed to its subscription if it has one.
pub open spec fn rejection(sub_id: Option<Seq<char>>, reason: Seq<char>) -> Seq<char> {
    match sub_id {
        Some(sub_id) => protocol::json_triple("CLOSED"@, sub_id, reason),
        None => protocol::json_pair("NOTICE"@, reason),
    }
}

/// The reason given when a quota check refused.
pub open spec fn admission_reason(error: AdmissionError) -> Seq<char> {
    match error {
        AdmissionError::Exceeded { reset_in_secs } => "rate-limited: quota exceeded; retry in "@
            + text::decimal(reset_in_secs as nat) + "s"@,
        AdmissionError::Unavailable => ADMISSION_UNAVAILABLE@,
    }
}

/// The check of the command quota.
pub open spec fn command_check(sender: AuthContext, limits: RateLimits) -> AdmissionCheck {
    AdmissionCheck {
        pubkey: sender.pubkey,
        limit_type: LimitType::WsEvents,
        window_secs: limits.ws_window_secs,
        limit: limits.ws_limit,
    }
}

/// The check of the message quota: agents and humans have their own.
pub open spec fn message_check(sender: AuthContext, limits: RateLimits) -> AdmissionCheck {
    AdmissionCheck {
        pubkey: sender.pubkey,
        limit_type: LimitType::Messages,
        window_secs: MESSAGE_WINDOW_SECS,
        limit: if sender.agent_owner_pubkey is Some {
            limits.agent_standard_messages_per_min
        } else {
            limits.human_messages_per_min
        },
    }
}

/// What follows for an admitted message.
pub open spec fn routed(msg: ClientMessage) -> (MessageFlow, FlowAction) {
    match msg {
        ClientMessage::Auth(event) => (MessageFlow::Finished, FlowAction::Authenticate(event)),
        ClientMessage::Close(sub_id) => (
            MessageFlow::Finished,
            FlowAction::CloseSubscription(sub_id),
        ),
        _ => (MessageFlow::AwaitingHandler { msg }, FlowAction::ReserveHandler),
    }
}

/// Whether a message was refused with `reply`.
pub open spec fn refused(step: (MessageFlow, FlowAction), reply: Seq<char>) -> bool {
    &&& step.0 is Finished
    &&& step.1 matches FlowAction::Reply(message)
    &&& message@ == reply
}

/// How a message, or the error that its text did not parse with, is taken in.
///
/// Quotas are drawn on for authenticated senders only.
pub open spec fn taken_in(
    parsed: Result<ClientMessage, String>,
    auth: AuthState,
    limits: RateLimits,
    step: (MessageFlow, FlowAction),
) -> bool {
    match parsed {
        Err(error) => refused(
            step,
            protocol::json_pair("NOTICE"@, "invalid message: "@ + error@),
        ),
        Ok(msg) => match auth {
            AuthState::Authenticated(sender) if draws_on_quota(msg) => step == (
                MessageFlow::AwaitingCommandQuota { msg, sender, limits },
                FlowAction::Check(command_check(sender, limits)),
            ),
            _ => step == routed(msg),
        },
    }
}

/// How a flow goes on after a quota check.
pub open spec fn checked(
    flow: MessageFlow,
    result: Result<(), AdmissionError>,
    step: (MessageFlow, FlowAction),
) -> bool {
    match flow {
        MessageFlow::AwaitingCommandQuota { msg, sender, limits } => match result {
            Err(error) => refused(
                step,
                rejection(refused_subscription(msg), admission_reason(error)),
            ),
            Ok(()) => if msg is Event {
                step == (
                    MessageFlow::AwaitingMessageQuota { msg },
                    FlowAction::Check(message_check(sender, limits)),
                )
            } else {
                step == routed(msg)
            },
        },
        MessageFlow::AwaitingMessageQuota { msg } => match result {
            Err(error) => refused(
                step,
                rejection(refused_subscription(msg), admission_reason(error)),
            ),
            Ok(()) => step == routed(msg),
        },
        _ => false,
    }
}

/// How a flow goes on after the attempt to reserve a handler.
pub open spec fn assigned(
    flow: MessageFlow,
    reserved: bool,
    step: (MessageFlow, FlowAction),
) -> bool {
    match flow {
        MessageFlow::AwaitingHandler { msg } => if reserved {
            step == (MessageFlow::Finished, FlowAction::Serve(msg))
        } else {
            refused(step, rejection(refused_subscription(msg), TOO_MANY_REQUESTS@))
        },
        _ => false,
    }
}

/// The refusal of a request, addressed to its subscription if it has one.
pub fn request_rejection_message(sub_id: Option<&str>, reason: &str) -> (message: String)
    ensures
        message@ == rejection(
            match sub_id {
                Some(sub_id) => Some(sub_id@),
                None => None,
            },
            reason@,
        ),
{
    match sub_id {
        Some(sub_id) => protocol::closed(sub_id, reason),
        None => protocol::notice(reason),
    }
}

/// The reason given when a quota check refused.
pub fn admission_reason_text(error: AdmissionError) -> (reason: String)
    ensures
        reason@ == admission_reason(error),
{
    match error {
        AdmissionError::Exceeded { reset_in_secs } => text::join3(
            "rate-limited: quota exceeded; retry in ",
            text::decimal_text(reset_in_secs).as_str(),
            "s",
        ),
        AdmissionError::Unavailable => ADMISSION_UNAVAILABLE.to_owned(),
    }
}

fn refuse(msg: &ClientMessage, reason: &str) -> (step: (MessageFlow, FlowAction))
    ensures
        refused(step, rejection(refused_subscription(*msg), reason@)),
{
    let message = match msg {
        ClientMessage::Req { sub_id, .. } => request_rejection_message(
            Some(sub_id.as_str()),
            reason,
        ),
        _ => request_rejection_message(None, reason),
    };
    (MessageFlow::Finished, FlowAction::Reply(message))
}

fn route(msg: ClientMessage) -> (step: (MessageFlow, FlowAction))
    ensures
        step == routed(msg),
{
    match msg {
        ClientMessage::Auth(event) => (MessageFlow::Finished, FlowAction::Authenticate(event)),
        ClientMessage::Close(sub_id) => (
            MessageFlow::Finished,
            FlowAction::CloseSubscription(sub_id),
        ),
        _ => (MessageFlow::AwaitingHandler { msg }, FlowAction::ReserveHandler),
    }
}

fn needs_quota(msg: &ClientMessage) -> (yes: bool)
    ensures
        yes == draws_on_quota(*msg),
{
    match msg {
        ClientMessage::Event(_) => true,
        ClientMessage::Req { .. } => true,
        ClientMessage::Count { .. } => true,
        _ => false,
    }
}

impl MessageFlow {
    /// Takes in a message, or the error that its text did not parse with.
    ///
    /// Quotas are drawn on for authenticated senders; the handlers refuse what
    /// an unauthenticated one may not do.
    pub fn handle_text_message(
        parsed: Result<ClientMessage, String>,
        auth: &AuthState,
        limits: RateLimits,
    ) -> (step: (MessageFlow, FlowAction))
        ensures
            taken_in(parsed, *auth, limits, step),
    {
        match parsed {
            Err(error) => {
                let reason = text::join2("invalid message: ", error.as_str());
                (MessageFlow::Finished, FlowAction::Reply(protocol::notice(reason.as_str())))
            },
            Ok(msg) => {
                if needs_quota(&msg) {
                    if let AuthState::Authenticated(sender) = auth {
                        let sender = *sender;
                        let check = AdmissionCheck {
                            pubkey: sender.pubkey,
                            limit_type: LimitType::WsEvents,
                            window_secs: limits.ws_window_secs,
                            limit: limits.ws_limit,
                        };
                        return (
                            MessageFlow::AwaitingCommandQuota { msg, sender, limits },
                            FlowAction::Check(check),
                        );
                    }
                }
                route(msg)
            },
        }
    }

    /// Goes on after a quota check.
    ///
    /// A message of the `EVENT` command draws on the message quota once the
    /// command quota has admitted it. A refusal is answered, and ends the flow.
    pub fn enforce_ws_admission(self, result: Result<(), AdmissionError>) -> (step: (
        MessageFlow,
        FlowAction,
    ))
        requires
            self is AwaitingCommandQuota || self is AwaitingMessageQuota,
        ensures
            checked(self, result, step),
    {
        match self {
            MessageFlow::AwaitingCommandQuota { msg, sender, limits } => {
                if let Err(error) = result {
                    return refuse(&msg, admission_reason_text(error).as_str());
                }
                if let ClientMessage::Event(_) = &msg {
                    let limit: u32 = if sender.agent_owner_pubkey.is_some() {
                        limits.agent_standard_messages_per_min
                    } else {
                        limits.human_messages_per_min
                    };
                    let check = AdmissionCheck {
                        pubkey: sender.pubkey,
                        limit_type: LimitType::Messages,
                        window_secs: MESSAGE_WINDOW_SECS,
                        limit,
                    };
                    return (
                        MessageFlow::AwaitingMessageQuota { msg },
                        FlowAction::Check(check),
                    );
                }
                route(msg)
            },
            MessageFlow::AwaitingMessageQuota { msg } => {
                if let Err(error) = result {
                    return refuse(&msg, admission_reason_text(error).as_str());
                }
                route(msg)
            },
            other => (other, FlowAction::ReserveHandler),
        }
    }

    /// Goes on after the attempt to reserve a handler.
    pub fn on_handler(self, reserved: bool) -> (step: (MessageFlow, FlowAction))
        requires
            self is AwaitingHandler,
        ensures
            assigned(self, reserved, step),
    {
        match self {
            MessageFlow::AwaitingHandler { msg } => {
                if reserved {
                    (MessageFlow::Finished, FlowAction::Serve(msg))
                } else {
                    refuse(&msg, TOO_MANY_REQUESTS)
                }
            },
            other => (other, FlowAction::ReserveHandler),
        }
    }
}

/// An event of an authenticated sender is served when both quotas admit it and
/// a handler is free, and is refused with one notice at the first of the three
/// that says no.
///
/// The command quota is that of the relay; the message quota is per minute, and
/// that of agents for a sender who has an owner.
pub proof fn events_draw_on_both_quotas(
    msg: ClientMessage,
    sender: AuthContext,
    limits: RateLimits,
    commands: Result<(), AdmissionError>,
    messages: Result<(), AdmissionError>,
    reserved: bool,
    first: (MessageFlow, FlowAction),
    second: (MessageFlow, FlowAction),
    third: (MessageFlow, FlowAction),
    fourth: (MessageFlow, FlowAction),
)
    requires
        msg is Event,
        taken_in(Ok(msg), AuthState::Authenticated(sender), limits, first),
        checked(first.0, commands, second),
        commands is Ok ==> checked(second.0, messages, third),
        commands is Ok && messages is Ok ==> assigned(third.0, reserved, fourth),
    ensures
        first.1 == FlowAction::Check(command_check(sender, limits)),
        commands matches Err(error) ==> refused(second, rejection(None, admission_reason(error))),
        commands is Ok ==> second.1 == FlowAction::Check(message_check(sender, limits)),
        commands is Ok && messages is Err ==> refused(
            third,
            rejection(None, admission_reason(messages->Err_0)),
        ),
        commands is Ok && messages is Ok && !reserved ==> refused(
            fourth,
            rejection(None, TOO_MANY_REQUESTS@),
        ),
        first.1 == FlowAction::Check(
            AdmissionCheck {
                pubkey: sender.pubkey,
                limit_type: LimitType::WsEvents,
                window_secs: limits.ws_window_secs,
                limit: limits.ws_limit,
            },
        ),
        commands matches Err(error) ==> refused_in_words(
            msg,
            second,
            admission_reason(error),
        ),
        commands is Ok ==> second.1 == FlowAction::Check(
            AdmissionCheck {
                pubkey: sender.pubkey,
                limit_type: LimitType::Messages,
                window_secs: 60,
                limit: match sender.agent_owner_pubkey {
                    Some(_) => limits.agent_standard_messages_per_min,
                    None => limits.human_messages_per_min,
                },
            },
        ),
        commands is Ok && messages is Err ==> refused_in_words(
            msg,
            third,
            admission_reason(messages->Err_0),
        ),
        commands is Ok && messages is Ok ==> third.1 is ReserveHandler,
        commands is Ok && messages is Ok && reserved ==> fourth.1 == FlowAction::Serve(msg),
        commands is Ok && messages is Ok && !reserved ==> refused_in_words(
            msg,
            fourth,
            "rate-limited: too many concurrent requests"@,
        ),
{
}

/// An event of an authenticated sender goes from the command quota to the message
/// quota and from there to a handler, and nowhere else, as long as each says yes.
pub proof fn events_go_from_quota_to_quota(
    msg: ClientMessage,
    sender: AuthContext,
    limits: RateLimits,
    first: (MessageFlow, FlowAction),
    second: (MessageFlow, FlowAction),
    third: (MessageFlow, FlowAction),
    fourth: (MessageFlow, FlowAction),
)
    requires
        msg is Event,
        taken_in(Ok(msg), AuthState::Authenticated(sender), limits, first),
    ensures
        first.0 == (MessageFlow::AwaitingCommandQuota { msg, sender, limits }),
        first.1 is Check && first.1->Check_0.limit_type is WsEvents,
        checked(first.0, Ok(()), second) ==> {
            &&& second.0 == (MessageFlow::AwaitingMessageQuota { msg })
            &&& second.1 is Check && second.1->Check_0.limit_type is Messages
        },
        checked(MessageFlow::AwaitingMessageQuota { msg }, Ok(()), third) ==> third == (
            MessageFlow::AwaitingHandler { msg },
            FlowAction::ReserveHandler,
        ),
        assigned(MessageFlow::AwaitingHandler { msg }, true, fourth) ==> fourth == (
            MessageFlow::Finished,
            FlowAction::Serve(msg),
        ),
{
}

/// A subscription or a count of an authenticated sender draws on the command
/// quota alone. Once that admits it a handler is reserved, and with a handler
/// that very message is served. What says no is answered: to the subscription if
/// it is one, in a notice if it is a count.
pub proof fn requests_draw_on_the_command_quota(
    msg: ClientMessage,
    sender: AuthContext,
    limits: RateLimits,
    commands: Result<(), AdmissionError>,
    reserved: bool,
    first: (MessageFlow, FlowAction),
    second: (MessageFlow, FlowAction),
    third: (MessageFlow, FlowAction),
)
    requires
        msg is Req || msg is Count,
        taken_in(Ok(msg), AuthState::Authenticated(sender), limits, first),
    ensures
        first == (
            MessageFlow::AwaitingCommandQuota { msg, sender, limits },
            FlowAction::Check(
                AdmissionCheck {
                    pubkey: sender.pubkey,
                    limit_type: LimitType::WsEvents,
                    window_secs: limits.ws_window_secs,
                    limit: limits.ws_limit,
                },
            ),
        ),
        checked(first.0, commands, second) ==> {
            &&& commands is Ok ==> second == (
                MessageFlow::AwaitingHandler { msg },
                FlowAction::ReserveHandler,
            )
            &&& commands matches Err(error) ==> refused_in_words(
                msg,
                second,
                admission_reason(error),
            )
        },
        assigned(MessageFlow::AwaitingHandler { msg }, reserved, third) ==> {
            &&& reserved ==> third == (MessageFlow::Finished, FlowAction::Serve(msg))
            &&& !reserved ==> refused_in_words(
                msg,
                third,
                "rate-limited: too many concurrent requests"@,
            )
        },
{
}

/// Whether a message was refused for `reason`: a subscription with `CLOSED` and
/// its identifier, any other message with `NOTICE`.
pub open spec fn refused_in_words(
    msg: ClientMessage,
    step: (MessageFlow, FlowAction),
    reason: Seq<char>,
) -> bool {
    &&& step.0 is Finished
    &&& step.1 matches FlowAction::Reply(reply)
    &&& reply@ == match msg {
        ClientMessage::Req { sub_id, .. } => "["@ + protocol::json_quoted("CLOSED"@) + ","@
            + protocol::json_quoted(sub_id@) + ","@ + protocol::json_quoted(reason) + "]"@,
        _ => "["@ + protocol::json_quoted("NOTICE"@) + ","@ + protocol::json_quoted(reason) + "]"@,
    }
}

/// Whoever has not authenticated draws on no quota: their events, subscriptions
/// and counts need a handler only, and are served with one.
pub proof fn unauthenticated_messages_draw_on_no_quota(
    msg: ClientMessage,
    auth: AuthState,
    limits: RateLimits,
    reserved: bool,
    first: (MessageFlow, FlowAction),
    second: (MessageFlow, FlowAction),
)
    requires
        msg is Event || msg is Req || msg is Count,
        auth.identity() is None,
        taken_in(Ok(msg), auth, limits, first),
    ensures
        first == (MessageFlow::AwaitingHandler { msg }, FlowAction::ReserveHandler),
        assigned(first.0, reserved, second) ==> {
            &&& reserved ==> second == (MessageFlow::Finished, FlowAction::Serve(msg))
            &&& !reserved ==> refused_in_words(
                msg,
                second,
                "rate-limited: too many concurrent requests"@,
            )
        },
{
}

/// Authentication and the end of a subscription wait for nothing, whoever sends
/// them: the event is verified, and the subscription that is named ends. A text
/// that is no message is answered with why.
pub proof fn other_messages_are_acted_on_at_once(
    parsed: Result<ClientMessage, String>,
    auth: AuthState,
    limits: RateLimits,
    step: (MessageFlow, FlowAction),
)
    requires
        taken_in(parsed, auth, limits, step),
    ensures
        parsed matches Ok(ClientMessage::Auth(event)) ==> step == (
            MessageFlow::Finished,
            FlowAction::Authenticate(event),
        ),
        parsed matches Ok(ClientMessage::Close(sub_id)) ==> step == (
            MessageFlow::Finished,
            FlowAction::CloseSubscription(sub_id),
        ),
        parsed matches Err(error) ==> {
            &&& step.0 is Finished
            &&& step.1 matches FlowAction::Reply(reply)
            &&& reply@ == "["@ + protocol::json_quoted("NOTICE"@) + ","@ + protocol::json_quoted(
                "invalid message: "@ + error@,
            ) + "]"@
        },
{
}

/// A used-up quota is reported with the seconds until it starts anew, and a
/// quota service that does not answer as such; different waits read differently.
pub proof fn refusals_tell_when_to_retry(reset_in_secs: u64)
    ensures
        admission_reason(AdmissionError::Exceeded { reset_in_secs })
            == "rate-limited: quota exceeded; retry in "@ + text::decimal(reset_in_secs as nat)
            + "s"@,
        admission_reason(AdmissionError::Unavailable)
            == "rate-limited: shared admission unavailable"@,
{
}

/// A refused subscription is answered with a `CLOSED` for that subscription,
/// whatever refused it.
pub proof fn req_rejections_are_subscription_scoped(
    msg: ClientMessage,
    flow: MessageFlow,
    result: Result<(), AdmissionError>,
    step: (MessageFlow, FlowAction),
)
    requires
        msg is Req,
        flow matches MessageFlow::AwaitingCommandQuota { msg: held, .. } ==> held == msg && result
            is Err && checked(flow, result, step),
        flow matches MessageFlow::AwaitingHandler { msg: held } ==> held == msg && assigned(
            flow,
            false,
            step,
        ),
        flow is AwaitingCommandQuota || flow is AwaitingHandler,
    ensures
        step.0 is Finished,
        step.1 is Reply,
        exists|reason: Seq<char>|
            step.1->Reply_0@ == #[trigger] protocol::json_triple(
                "CLOSED"@,
                msg->Req_sub_id@,
                reason,
            ),
{
    match flow {
        MessageFlow::AwaitingCommandQuota { .. } => {
            let reason = admission_reason(result->Err_0);
            assert(step.1->Reply_0@ == protocol::json_triple("CLOSED"@, msg->Req_sub_id@, reason));
        },
        _ => {
            let reason = TOO_MANY_REQUESTS@;
            assert(step.1->Reply_0@ == protocol::json_triple("CLOSED"@, msg->Req_sub_id@, reason));
        },
    }
}

}
