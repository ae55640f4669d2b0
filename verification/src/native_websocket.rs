//! Native sockets of the desktop client: direct, or tunneled through a NIP-17
//! gateway behind public relays.
//!
//! The adapter owns the sockets, the tasks and the timers. This module decides
//! what is registered, what is sent and what is told to the client.

use std::collections::HashSet;
use vstd::prelude::*;
use vstd::string::*;

use crate::envelope;
use crate::envelope::{Keys, PublicKey};
use crate::identifiers;
use crate::nip17_gateway;
use crate::nip17_gateway::{GatewayFailure, RequestView};
use crate::protocol;
use crate::relay_url;
use crate::text;
use crate::transport::FrameView;

verus! {

broadcast use vstd::std_specs::hash::group_hash_axioms;

/// Seconds that a handshake may take.
pub const CONNECT_TIMEOUT_SECS: u64 = 10;

/// Seconds that a write may take.
pub const WRITE_TIMEOUT_SECS: u64 = 10;

/// Milliseconds that a task may take to end.
pub const SHUTDOWN_TIMEOUT_MILLIS: u64 = 250;

/// Messages that wait for a socket at most.
pub const SEND_QUEUE_CAPACITY: usize = 64;

/// What a caller is told when its connection attempt was called off.
pub const CANCELLED: &'static str = "WebSocket connection cancelled";

/// What a caller is told when the connection is gone.
pub const CLOSED: &'static str = "WebSocket connection closed";

/// What a caller is told when a write took too long.
pub const SEND_TIMED_OUT: &'static str = "WebSocket send timed out";

/// The frame that prompts the gateway's first challenge.
///
/// A store-and-forward gateway has no connection until it receives a relay
/// frame.
pub const BOOTSTRAP_FRAME: &'static str = "[\"CLOSE\",\"__buzz_nip17_bootstrap\"]";

/// Details of a close message.
#[derive(Debug, Clone, PartialEq, Eq)]
pub struct ClosePayload {
    /// Close status code.
    pub code: u16,
    /// Close status reason.
    pub reason: String,
}

/// A message that the client asks to send.
#[derive(Debug, Clone, PartialEq, Eq)]
pub enum WebSocketMessage {
    /// A text message.
    Text(String),
    /// A binary message.
    Binary(Vec<u8>),
    /// A keepalive request.
    Ping(Vec<u8>),
    /// A keepalive answer.
    Pong(Vec<u8>),
    /// A close message.
    Close(Option<ClosePayload>),
}

/// A message of a socket.
#[derive(Debug, Clone, PartialEq, Eq)]
pub enum SocketMessage {
    /// A text message.
    Text(String),
    /// A binary message.
    Binary(Vec<u8>),
    /// A keepalive request.
    Ping(Vec<u8>),
    /// A keepalive answer.
    Pong(Vec<u8>),
    /// A close message.
    Close(Option<ClosePayload>),
    /// A raw frame.
    Frame,
}

/// A message that the client is told.
#[derive(Debug, Clone, PartialEq, Eq)]
pub enum OutboundMessage {
    /// A text message.
    Text(String),
    /// A binary message.
    Binary(Vec<u8>),
    /// A keepalive request.
    Ping(Vec<u8>),
    /// A keepalive answer.
    Pong(Vec<u8>),
    /// The connection was closed.
    Close(Option<ClosePayload>),
    /// The connection failed.
    Error(String),
}

/// How a client connects.
#[derive(Debug, Clone, PartialEq, Eq)]
pub enum SocketConfig {
    /// To the relay itself.
    Direct,
    /// To a gateway behind public relays.
    Nip17 {
        /// Key of the gateway.
        gateway_pubkey: String,
        /// Addresses of the public relays.
        public_relay_urls: Vec<String>,
    },
}

/// The socket message that a client's message stands for.
pub open spec fn socket_message(message: WebSocketMessage) -> SocketMessage {
    match message {
        WebSocketMessage::Text(value) => SocketMessage::Text(value),
        WebSocketMessage::Binary(value) => SocketMessage::Binary(value),
        WebSocketMessage::Ping(value) => SocketMessage::Ping(value),
        WebSocketMessage::Pong(value) => SocketMessage::Pong(value),
        WebSocketMessage::Close(close) => SocketMessage::Close(close),
    }
}

/// Whether `told` is what the client is told of `message`.
pub open spec fn tells(told: OutboundMessage, message: SocketMessage) -> bool {
    match message {
        SocketMessage::Text(value) => told == OutboundMessage::Text(value),
        SocketMessage::Binary(value) => told == OutboundMessage::Binary(value),
        SocketMessage::Ping(value) => told == OutboundMessage::Ping(value),
        SocketMessage::Pong(value) => told == OutboundMessage::Pong(value),
        SocketMessage::Close(close) => told == OutboundMessage::Close(close),
        SocketMessage::Frame => told matches OutboundMessage::Error(error) && error@
            == "unexpected raw WebSocket frame"@,
    }
}

/// What the client sends goes out as it is, of the same kind, and the client is
/// told what comes in as it is, of the same kind; of a raw frame it is told an
/// error.
pub proof fn messages_are_carried_as_they_are(
    value: String,
    bytes: Vec<u8>,
    close: Option<ClosePayload>,
    told: OutboundMessage,
)
    ensures
        socket_message(WebSocketMessage::Text(value)) == SocketMessage::Text(value),
        socket_message(WebSocketMessage::Binary(bytes)) == SocketMessage::Binary(bytes),
        socket_message(WebSocketMessage::Ping(bytes)) == SocketMessage::Ping(bytes),
        socket_message(WebSocketMessage::Pong(bytes)) == SocketMessage::Pong(bytes),
        socket_message(WebSocketMessage::Close(close)) == SocketMessage::Close(close),
        tells(told, SocketMessage::Text(value)) <==> told == OutboundMessage::Text(value),
        tells(told, SocketMessage::Binary(bytes)) <==> told == OutboundMessage::Binary(bytes),
        tells(told, SocketMessage::Ping(bytes)) <==> told == OutboundMessage::Ping(bytes),
        tells(told, SocketMessage::Pong(bytes)) <==> told == OutboundMessage::Pong(bytes),
        tells(told, SocketMessage::Close(close)) <==> told == OutboundMessage::Close(close),
        tells(told, SocketMessage::Frame) ==> {
            &&& told matches OutboundMessage::Error(error)
            &&& error@ == "unexpected raw WebSocket frame"@
        },
{
}

impl WebSocketMessage {
    /// The socket message to send.
    pub fn into_socket_message(self) -> (message: SocketMessage)
        ensures
            message == socket_message(self),
    {
        match self {
            WebSocketMessage::Text(value) => SocketMessage::Text(value),
            WebSocketMessage::Binary(value) => SocketMessage::Binary(value),
            WebSocketMessage::Ping(value) => SocketMessage::Ping(value),
            WebSocketMessage::Pong(value) => SocketMessage::Pong(value),
            WebSocketMessage::Close(close) => SocketMessage::Close(close),
        }
    }
}

/// What the client is told of a socket message.
pub fn outbound_message(message: SocketMessage) -> (told: OutboundMessage)
    ensures
        tells(told, message),
{
    match message {
        SocketMessage::Text(value) => OutboundMessage::Text(value),
        SocketMessage::Binary(value) => OutboundMessage::Binary(value),
        SocketMessage::Ping(value) => OutboundMessage::Ping(value),
        SocketMessage::Pong(value) => OutboundMessage::Pong(value),
        SocketMessage::Close(close) => OutboundMessage::Close(close),
        SocketMessage::Frame => OutboundMessage::Error(
            "unexpected raw WebSocket frame".to_owned(),
        ),
    }
}

/// The configuration of a connection; direct unless said otherwise.
pub fn connection_config(config: Option<SocketConfig>) -> (chosen: SocketConfig)
    ensures
        chosen == (match config {
            Some(config) => config,
            None => SocketConfig::Direct,
        }),
{
    match config {
        Some(config) => config,
        None => SocketConfig::Direct,
    }
}

/// What became of a handshake.
#[derive(Debug, Clone, PartialEq, Eq)]
pub enum Handshake {
    /// The socket is open.
    Connected,
    /// The peer refused, or could not be reached.
    Failed(String),
    /// It took too long.
    TimedOut,
    /// It was called off.
    Cancelled,
}

/// What the caller of a direct connection is told of its handshake.
pub open spec fn handshake_error(handshake: Handshake) -> Option<Seq<char>> {
    match handshake {
        Handshake::Connected => None,
        Handshake::Failed(error) => Some(error@),
        Handshake::TimedOut => Some("WebSocket connection timed out"@),
        Handshake::Cancelled => Some(CANCELLED@),
    }
}

/// A direct connection opens exactly if its handshake went through; else the
/// caller is told what the peer said, or that it took too long or was called off.
pub proof fn failed_handshakes_are_told(handshake: Handshake, error: String)
    ensures
        handshake_error(handshake) is None <==> handshake is Connected,
        handshake_error(Handshake::Failed(error)) == Some(error@),
        handshake_error(Handshake::TimedOut) == Some("WebSocket connection timed out"@),
        handshake_error(Handshake::Cancelled) == Some("WebSocket connection cancelled"@),
{
}

/// Goes on with a direct connection after its handshake.
pub fn open_connection(handshake: Handshake) -> (result: Result<(), String>)
    ensures
        match result {
            Ok(_) => handshake_error(handshake) is None,
            Err(error) => handshake_error(handshake) == Some(error@),
        },
{
    match handshake {
        Handshake::Connected => Ok(()),
        Handshake::Failed(error) => Err(error),
        Handshake::TimedOut => Err("WebSocket connection timed out".to_owned()),
        Handshake::Cancelled => Err(CANCELLED.to_owned()),
    }
}

/// The open connections of a client.
///
/// Closing all of them begins a new epoch: an attempt to connect that was begun
/// in an earlier one is called off. Until the tasks of the closed connections
/// have ended, no connection is registered.
#[derive(Debug)]
pub struct WebSocketManager {
    /// Identifiers of the open connections.
    pub connections: HashSet<u32>,
    /// How often all connections were closed.
    pub epoch: u64,
    /// Closed connections whose tasks have not ended.
    pub stopping: usize,
}

/// What became of an attempt to register a connection.
#[derive(Debug, Clone, Copy, PartialEq, Eq)]
pub enum Registration {
    /// Registered under this identifier.
    Registered(u32),
    /// The identifier is taken: draw another.
    Taken,
    /// The attempt to connect was called off.
    Cancelled,
    /// Connections are being closed: try again when that is over.
    Wait,
}

/// What becomes of an attempt, begun in epoch `started`, to register a
/// connection as `candidate`.
pub open spec fn registration(
    connections: Set<u32>,
    epoch: u64,
    stopping: usize,
    started: u64,
    candidate: u32,
) -> Registration {
    if stopping > 0 {
        Registration::Wait
    } else if started != epoch {
        Registration::Cancelled
    } else if connections.contains(candidate) {
        Registration::Taken
    } else {
        Registration::Registered(candidate)
    }
}

/// The open connections after an attempt to register one.
pub open spec fn connections_after(connections: Set<u32>, outcome: Registration) -> Set<u32> {
    match outcome {
        Registration::Registered(id) => connections.insert(id),
        _ => connections,
    }
}

/// Whether closing all `connections` leaves `after`, begins `epoch_after` and has
/// `stopping` tasks to wait for.
pub open spec fn closed_all(
    connections: Set<u32>,
    epoch: u64,
    after: Set<u32>,
    epoch_after: u64,
    stopping: usize,
) -> bool {
    &&& after == Set::<u32>::empty()
    &&& epoch_after == epoch + 1
    &&& stopping == connections.len()
}

/// A connection is registered exactly if none are being closed, none were since
/// it was begun, and its identifier is free. It is open afterwards, under that
/// identifier and beside all that were; in any other case nothing changes.
pub proof fn registered_connections_are_open(
    connections: Set<u32>,
    epoch: u64,
    stopping: usize,
    started: u64,
    candidate: u32,
    other: u32,
)
    requires
        other != candidate,
    ensures
        ({
            let outcome = registration(connections, epoch, stopping, started, candidate);
            let after = connections_after(connections, outcome);
            &&& outcome is Registered <==> stopping == 0 && started == epoch
                && !connections.contains(candidate)
            &&& outcome matches Registration::Registered(id) ==> id == candidate && after.contains(id)
            &&& outcome !is Registered ==> after == connections
            &&& after.contains(other) <==> connections.contains(other)
            &&& outcome is Wait <==> stopping > 0
            &&& outcome is Cancelled <==> stopping == 0 && started != epoch
            &&& outcome is Taken <==> stopping == 0 && started == epoch && connections.contains(
                candidate,
            )
        }),
{
}

/// Closing all connections leaves none open, and an attempt that was begun before
/// never comes to be registered, however many tasks have yet to end. While there
/// was a connection, there is a task to wait for.
pub proof fn teardown_calls_off_what_is_under_way(
    connections: Set<u32>,
    epoch: u64,
    after: Set<u32>,
    epoch_after: u64,
    stopping: usize,
    left: usize,
    started: u64,
    candidate: u32,
)
    requires
        connections.finite(),
        closed_all(connections, epoch, after, epoch_after, stopping),
        started <= epoch,
    ensures
        epoch_after == epoch + 1,
        !after.contains(candidate),
        registration(after, epoch_after, left, started, candidate) !is Registered,
        connections.contains(candidate) ==> stopping > 0,
        registration(after, epoch_after, 0, epoch_after, candidate) == Registration::Registered(
            candidate,
        ),
{
    if connections.contains(candidate) {
        assert(connections.remove(candidate).len() + 1 == connections.len());
    }
}

impl WebSocketManager {
    /// A client without connections.
    pub fn new() -> (manager: WebSocketManager)
        ensures
            manager.connections@ == Set::<u32>::empty(),
            manager.epoch == 0,
            manager.stopping == 0,
    {
        WebSocketManager { connections: HashSet::new(), epoch: 0, stopping: 0 }
    }

    /// Registers a connection as `candidate`, unless connections are being
    /// closed, the attempt was called off or the identifier is taken.
    pub fn register_as(&mut self, started: u64, candidate: u32) -> (outcome: Registration)
        ensures
            outcome == registration(
                old(self).connections@,
                old(self).epoch,
                old(self).stopping,
                started,
                candidate,
            ),
            final(self).epoch == old(self).epoch,
            final(self).stopping == old(self).stopping,
            final(self).connections@ == connections_after(old(self).connections@, outcome),
            final(self).connections@ == match outcome {
                Registration::Registered(id) => old(self).connections@.insert(id),
                _ => old(self).connections@,
            },
    {
        if self.stopping > 0 {
            return Registration::Wait;
        }
        if started != self.epoch {
            return Registration::Cancelled;
        }
        if self.connections.contains(&candidate) {
            return Registration::Taken;
        }
        self.connections.insert(candidate);
        Registration::Registered(candidate)
    }

    /// Registers a connection under a random identifier.
    pub fn register(&mut self, started: u64) -> (outcome: Registration)
        ensures
            exists|candidate: u32|
                outcome == #[trigger] registration(
                    old(self).connections@,
                    old(self).epoch,
                    old(self).stopping,
                    started,
                    candidate,
                ),
            final(self).epoch == old(self).epoch,
            final(self).stopping == old(self).stopping,
            final(self).connections@ == connections_after(old(self).connections@, outcome),
            final(self).connections@ == match outcome {
                Registration::Registered(id) => old(self).connections@.insert(id),
                _ => old(self).connections@,
            },
    {
        let candidate: u32 = #[verifier::truncate]
        (identifiers::random_uuid() as u32);
        self.register_as(started, candidate)
    }

    /// Forgets a connection. Returns whether it was there; forgetting it again
    /// changes nothing.
    pub fn remove(&mut self, id: u32) -> (found: bool)
        ensures
            found == old(self).connections@.contains(id),
            final(self).connections@ == old(self).connections@.remove(id),
            final(self).epoch == old(self).epoch,
            final(self).stopping == old(self).stopping,
    {
        self.connections.remove(&id)
    }

    /// Forgets all connections, and calls off the attempts that are under way.
    /// The tasks of the forgotten connections are to be stopped.
    pub fn disconnect_all(&mut self)
        requires
            old(self).epoch < u64::MAX,
            old(self).stopping == 0,
        ensures
            closed_all(
                old(self).connections@,
                old(self).epoch,
                final(self).connections@,
                final(self).epoch,
                final(self).stopping,
            ),
            final(self).connections@ == Set::<u32>::empty(),
            final(self).epoch == old(self).epoch + 1,
            final(self).stopping == old(self).connections@.len(),
    {
        self.epoch = self.epoch + 1;
        self.stopping = self.connections.len();
        self.connections.clear();
    }

    /// Notes that the task of a closed connection has ended.
    pub fn on_stopped(&mut self)
        requires
            old(self).stopping > 0,
        ensures
            final(self).stopping == old(self).stopping - 1,
            final(self).connections@ == old(self).connections@,
            final(self).epoch == old(self).epoch,
    {
        self.stopping = self.stopping - 1;
    }
}

/// A connection whose handshake was under way when all connections were closed
/// is not registered afterwards: its attempt waits until the tasks of the
/// closed ones have ended, and is called off.
pub proof fn teardown_misses_no_connection(
    connections: Set<u32>,
    started: u64,
    epoch: u64,
    stopping: usize,
    candidate: u32,
)
    requires
        started < epoch,
    ensures
        registration(connections, epoch, stopping, started, candidate) == if stopping > 0 {
            Registration::Wait
        } else {
            Registration::Cancelled
        },
{
}

/// No connection is registered until the last task of those that were closed
/// has ended; after that, a connection that was begun since is registered under
/// any identifier that is free.
pub proof fn registration_waits_until_tasks_stop(
    connections: Set<u32>,
    epoch: u64,
    stopping: usize,
    started: u64,
    candidate: u32,
)
    ensures
        registration(connections, epoch, stopping, started, candidate) is Registered ==> stopping
            == 0,
        stopping == 0 && started == epoch && !connections.contains(candidate) ==> registration(
            connections,
            epoch,
            stopping,
            started,
            candidate,
        ) == Registration::Registered(candidate),
{
}

/// What a caller is told when no public relay is configured.
pub const NO_PUBLIC_RELAYS: &'static str = "NIP-17 requires at least one public relay";

/// What a caller is told of an address that is not a WebSocket's.
pub const BAD_PUBLIC_RELAY: &'static str = "NIP-17 public relays must use ws:// or wss:// URLs";

/// What a caller is told of a gateway key that cannot be read.
pub const BAD_GATEWAY_KEY: &'static str =
    "NIP-17 gateway pubkey must be 64 hexadecimal characters";

/// What a caller is told when no public relay could be reached.
pub const NO_REACHABLE_RELAY: &'static str =
    "Unable to connect to any configured NIP-17 public relay";

/// Whether every address is that of a WebSocket host.
pub open spec fn all_websocket_addresses(urls: Seq<Seq<char>>) -> bool {
    forall|i: int| 0 <= i < urls.len() ==> relay_url::is_websocket_address(#[trigger] urls[i])
}

/// The gateway of a tunneled connection, or why its configuration does not do.
pub open spec fn tunnel_plan(gateway: Seq<char>, urls: Seq<Seq<char>>) -> Result<
    Seq<u8>,
    Seq<char>,
> {
    match envelope::public_key_of_text(gateway) {
        None => Err(BAD_GATEWAY_KEY@),
        Some(key) => if urls.len() == 0 {
            Err(NO_PUBLIC_RELAYS@)
        } else if !all_websocket_addresses(urls) {
            Err(BAD_PUBLIC_RELAY@)
        } else {
            Ok(key)
        },
    }
}

/// A tunnel needs the key of a gateway and one public relay or more, each with the
/// address of a WebSocket host; then it leads to that key. The first of these that
/// is missing is told.
pub proof fn tunnels_need_a_gateway_and_relays(gateway: Seq<char>, urls: Seq<Seq<char>>)
    ensures
        ({
            let key = envelope::public_key_of_text(gateway);
            let relays = forall|i: int|
                0 <= i < urls.len() ==> relay_url::is_websocket_address(#[trigger] urls[i]);
            let plan = tunnel_plan(gateway, urls);
            &&& plan is Ok <==> key is Some && urls.len() > 0 && relays
            &&& plan matches Ok(leads_to) ==> key == Some(leads_to)
            &&& key is None ==> plan == Err::<Seq<u8>, Seq<char>>(
                "NIP-17 gateway pubkey must be 64 hexadecimal characters"@,
            )
            &&& key is Some && urls.len() == 0 ==> plan == Err::<Seq<u8>, Seq<char>>(
                "NIP-17 requires at least one public relay"@,
            )
            &&& key is Some && urls.len() > 0 && !relays ==> plan == Err::<Seq<u8>, Seq<char>>(
                "NIP-17 public relays must use ws:// or wss:// URLs"@,
            )
        }),
{
}

/// Whether a tunnel with `connected` public relays reached has `after` of them
/// after a handshake, and goes on as `result` says.
pub open spec fn handshake_noted(
    connected: usize,
    handshake: Handshake,
    after: usize,
    result: Result<(), String>,
) -> bool {
    &&& after == connected + if handshake is Connected {
        1int
    } else {
        0
    }
    &&& match result {
        Ok(_) => handshake !is Cancelled,
        Err(error) => handshake is Cancelled && error@ == CANCELLED@,
    }
}

/// Whether a tunnel with `connected` public relays reached does, as `result` says.
pub open spec fn tunnel_finished(connected: usize, result: Result<(), String>) -> bool {
    match result {
        Ok(_) => connected > 0,
        Err(error) => connected == 0 && error@ == NO_REACHABLE_RELAY@,
    }
}

/// One public relay that is reached is enough, whichever else are not; none at all
/// is not. Only an attempt that was called off is not gone on with.
pub proof fn one_reached_relay_is_enough(
    connected: usize,
    handshake: Handshake,
    after: usize,
    result: Result<(), String>,
    finished: Result<(), String>,
)
    requires
        handshake_noted(connected, handshake, after, result),
        tunnel_finished(after, finished),
    ensures
        handshake is Connected || connected > 0 ==> finished is Ok,
        handshake !is Connected && connected == 0 ==> {
            &&& finished matches Err(error)
            &&& error@ == "Unable to connect to any configured NIP-17 public relay"@
        },
        result is Err <==> handshake is Cancelled,
        result matches Err(error) ==> error@ == "WebSocket connection cancelled"@,
{
}

fn all_websocket_urls(urls: &Vec<String>) -> (yes: bool)
    ensures
        yes == all_websocket_addresses(text::texts(urls@)),
{
    let ghost addresses = text::texts(urls@);
    let mut i: usize = 0;
    while i < urls.len()
        invariant
            i <= urls.len(),
            addresses == text::texts(urls@),
            forall|j: int|
                0 <= j < i ==> relay_url::is_websocket_address(#[trigger] addresses[j]),
        decreases urls.len() - i,
    {
        assert(addresses[i as int] == urls@[i as int]@);
        if !relay_url::is_websocket_url(urls[i].as_str()) {
            return false;
        }
        i += 1;
    }
    true
}

/// A tunneled connection while it is being opened.
#[derive(Debug, Clone, Copy, PartialEq, Eq)]
pub struct TunnelOpening {
    /// Key of the gateway.
    pub gateway: PublicKey,
    /// Public relays that were reached.
    pub connected: usize,
}

impl TunnelOpening {
    /// Checks the configuration of a tunneled connection.
    pub fn open_nip17_connection(gateway_pubkey: &str, public_relay_urls: &Vec<String>) -> (opening:
        Result<TunnelOpening, String>)
        ensures
            match opening {
                Ok(opening) => tunnel_plan(gateway_pubkey@, text::texts(public_relay_urls@))
                    == Ok::<Seq<u8>, Seq<char>>(opening.gateway@) && opening.connected == 0,
                Err(error) => tunnel_plan(gateway_pubkey@, text::texts(public_relay_urls@))
                    == Err::<Seq<u8>, Seq<char>>(error@),
            },
    {
        let gateway = match PublicKey::parse(gateway_pubkey) {
            Some(gateway) => gateway,
            None => {
                return Err(BAD_GATEWAY_KEY.to_owned());
            },
        };
        if public_relay_urls.len() == 0 {
            return Err(NO_PUBLIC_RELAYS.to_owned());
        }
        if !all_websocket_urls(public_relay_urls) {
            return Err(BAD_PUBLIC_RELAY.to_owned());
        }
        Ok(TunnelOpening { gateway, connected: 0 })
    }

    /// Goes on after the handshake with one of the public relays. A relay that
    /// cannot be reached is passed over.
    pub fn on_handshake(&mut self, handshake: &Handshake) -> (result: Result<(), String>)
        requires
            old(self).connected < usize::MAX,
        ensures
            final(self).gateway == old(self).gateway,
            handshake_noted(old(self).connected, *handshake, final(self).connected, result),
            final(self).connected == old(self).connected + if handshake is Connected {
                1int
            } else {
                0
            },
            match result {
                Ok(_) => handshake !is Cancelled,
                Err(error) => handshake is Cancelled && error@ == CANCELLED@,
            },
    {
        match handshake {
            Handshake::Connected => {
                self.connected = self.connected + 1;
                Ok(())
            },
            Handshake::Cancelled => Err(CANCELLED.to_owned()),
            _ => Ok(()),
        }
    }

    /// Whether the connection can do, after all public relays were tried.
    pub fn finish(&self) -> (result: Result<(), String>)
        ensures
            tunnel_finished(self.connected, result),
            match result {
                Ok(_) => self.connected > 0,
                Err(error) => self.connected == 0 && error@ == NO_REACHABLE_RELAY@,
            },
    {
        if self.connected == 0 {
            return Err(NO_REACHABLE_RELAY.to_owned());
        }
        Ok(())
    }
}

/// Whether a tag list names `recipient`, in hexadecimal of either case.
pub open spec fn tags_name(tags: Seq<Seq<Seq<char>>>, recipient: Seq<char>) -> bool {
    exists|i: int|
        0 <= i < tags.len() && (#[trigger] tags[i]).len() >= 2 && tags[i][0] == "p"@
            && text::same_ignoring_ascii_case(tags[i][1], recipient)
}

/// Whether a tag list names the client launch `session`.
pub open spec fn tags_carry(tags: Seq<Seq<Seq<char>>>, session: Seq<char>) -> bool {
    exists|i: int|
        0 <= i < tags.len() && (#[trigger] tags[i]).len() >= 2 && tags[i][0] == "t"@ && tags[i][1]
            == nip17_gateway::SESSION_TAG_PREFIX@ + session
}

/// A tag list names a key by any `p` tag with its digits in either case, wherever
/// it stands, and by nothing else; and a client launch by any `t` tag that names
/// its session.
pub proof fn tags_name_by_p_and_t(
    tags: Seq<Seq<Seq<char>>>,
    recipient: Seq<char>,
    session: Seq<char>,
)
    requires
        session.len() > 0,
    ensures
        tags_name(tags, recipient) <==> exists|i: int|
            0 <= i < tags.len() && (#[trigger] tags[i]).len() >= 2 && tags[i][0] == "p"@
                && text::same_ignoring_ascii_case(tags[i][1], recipient),
        tags_carry(tags, session) <==> exists|i: int|
            0 <= i < tags.len() && nip17_gateway::names_session(#[trigger] tags[i], session),
{
    if exists|i: int| 0 <= i < tags.len() && nip17_gateway::names_session(#[trigger] tags[i], session) {
        let i = choose|i: int|
            0 <= i < tags.len() && nip17_gateway::names_session(#[trigger] tags[i], session);
        assert(tags[i].len() >= 2);
    }
    if tags_carry(tags, session) {
        let i = choose|i: int|
            0 <= i < tags.len() && (#[trigger] tags[i]).len() >= 2 && tags[i][0] == "t"@
                && tags[i][1] == nip17_gateway::SESSION_TAG_PREFIX@ + session;
        assert(nip17_gateway::names_session(tags[i], session));
    }
}

/// Whether a tag list names `recipient`.
pub fn has_recipient(tags: &Vec<Vec<String>>, recipient: &str) -> (yes: bool)
    ensures
        yes == tags_name(envelope::tag_views(tags@), recipient@),
{
    let ghost views = envelope::tag_views(tags@);
    let mut i: usize = 0;
    while i < tags.len()
        invariant
            i <= tags.len(),
            views == envelope::tag_views(tags@),
            forall|j: int|
                0 <= j < i ==> !((#[trigger] views[j]).len() >= 2 && views[j][0] == "p"@
                    && text::same_ignoring_ascii_case(views[j][1], recipient@)),
        decreases tags.len() - i,
    {
        let tag = &tags[i];
        assert(views[i as int] == text::texts(tag@));
        if tag.len() >= 2 {
            assert(views[i as int][0] == tag@[0]@);
            assert(views[i as int][1] == tag@[1]@);
            if text::text_eq(tag[0].as_str(), "p") && text::eq_ignore_ascii_case(
                tag[1].as_str(),
                recipient,
            ) {
                return true;
            }
        }
        i += 1;
    }
    false
}

/// Whether a tag list names the client launch `session_id`.
pub fn has_session(tags: &Vec<Vec<String>>, session_id: &str) -> (yes: bool)
    ensures
        yes == tags_carry(envelope::tag_views(tags@), session_id@),
{
    let expected = text::join2(nip17_gateway::SESSION_TAG_PREFIX, session_id);
    let ghost views = envelope::tag_views(tags@);
    let mut i: usize = 0;
    while i < tags.len()
        invariant
            i <= tags.len(),
            views == envelope::tag_views(tags@),
            expected@ == nip17_gateway::SESSION_TAG_PREFIX@ + session_id@,
            forall|j: int|
                0 <= j < i ==> !((#[trigger] views[j]).len() >= 2 && views[j][0] == "t"@
                    && views[j][1] == nip17_gateway::SESSION_TAG_PREFIX@ + session_id@),
        decreases tags.len() - i,
    {
        let tag = &tags[i];
        assert(views[i as int] == text::texts(tag@));
        if tag.len() >= 2 {
            assert(views[i as int][0] == tag@[0]@);
            assert(views[i as int][1] == tag@[1]@);
            if text::text_eq(tag[0].as_str(), "t") && text::text_eq(
                tag[1].as_str(),
                expected.as_str(),
            ) {
                return true;
            }
        }
        i += 1;
    }
    false
}

/// Wraps a relay frame for the gateway, as the JSON of a kind `1059` event.
///
/// A frame is sure to be wrapped for a key unless it is too large for NIP-44.
pub fn wrap_nip17_frame(keys: &Keys, gateway: &PublicKey, session_id: &str, frame: &str) -> (wrapped:
    Result<String, String>)
    ensures
        wrapped matches Ok(json) ==> envelope::wrapped_for(
            keys.secret(),
            gateway@,
            nip17_gateway::frame_rumor(gateway@, session_id@, frame@),
            json@,
        ),
        envelope::surely_wrapped(
            gateway@,
            nip17_gateway::frame_rumor(gateway@, session_id@, frame@),
        ) ==> wrapped is Ok,
        wrapped is Ok ==> envelope::ever_wrapped(
            keys.public(),
            gateway@,
            nip17_gateway::frame_rumor(gateway@, session_id@, frame@),
        ),
{
    let rumor = nip17_gateway::build_frame_rumor(gateway, session_id, frame.to_owned());
    keys.wrap(gateway, &rumor)
}

/// The relay frame that an opened gift wrap holds for `recipient`, if the
/// gateway sealed it for this client launch.
pub open spec fn frame_of_gift(
    gift: envelope::GiftView,
    gateway: Seq<u8>,
    recipient: Seq<char>,
    session: Seq<char>,
) -> Option<Seq<char>> {
    if gift.sender == gateway && gift.rumor.kind == envelope::PRIVATE_DIRECT_MESSAGE_KIND
        && tags_name(gift.rumor.tags, recipient) && tags_carry(gift.rumor.tags, session) {
        Some(gift.rumor.content)
    } else {
        None
    }
}

/// The relay frame that the holder of `secret` reads from a public relay's
/// message.
pub open spec fn frame_of_message(
    secret: Seq<u8>,
    gateway: Seq<u8>,
    session: Seq<char>,
    message: Seq<char>,
) -> Option<Seq<char>> {
    let recipient = text::hex(envelope::public_key_of(secret)->Some_0);
    match envelope::element_of(message, envelope::EVENT_POSITION as nat) {
        Some(json) => match envelope::event_of_json(json) {
            Ok(event) if event.kind == envelope::GIFT_WRAP_KIND && tags_name(
                event.tags,
                recipient,
            ) => match envelope::gift_of(secret, event) {
                Ok(gift) => frame_of_gift(gift, gateway, recipient, session),
                Err(_) => None,
            },
            _ => None,
        },
        None => None,
    }
}

/// A gift is heard exactly if the gateway sealed it, as a private direct message
/// that names the client and this launch of it; what is heard is its content.
pub proof fn gifts_of_the_gateway_are_heard(
    gift: envelope::GiftView,
    gateway: Seq<u8>,
    recipient: Seq<char>,
    session: Seq<char>,
)
    ensures
        frame_of_gift(gift, gateway, recipient, session) is Some <==> {
            &&& gift.sender == gateway
            &&& gift.rumor.kind == 14
            &&& tags_name(gift.rumor.tags, recipient)
            &&& tags_carry(gift.rumor.tags, session)
        },
        frame_of_gift(gift, gateway, recipient, session) matches Some(frame) ==> frame
            == gift.rumor.content,
{
}

/// Whatever gift wrap a public relay delivers, in third place of its message, is
/// opened if it is for this client, and heard as its gift is.
pub proof fn delivered_gift_wraps_are_opened(
    secret: Seq<u8>,
    gateway: Seq<u8>,
    session: Seq<char>,
    message: Seq<char>,
    json: Seq<char>,
    event: envelope::EventView,
    gift: envelope::GiftView,
)
    requires
        envelope::element_of(message, 2) == Some(json),
        envelope::event_of_json(json) == Ok::<envelope::EventView, Seq<char>>(event),
        event.kind == 1059,
        tags_name(event.tags, text::hex(envelope::public_key_of(secret)->Some_0)),
        envelope::gift_of(secret, event) == Ok::<envelope::GiftView, Seq<char>>(gift),
    ensures
        frame_of_message(secret, gateway, session, message) == frame_of_gift(
            gift,
            gateway,
            text::hex(envelope::public_key_of(secret)->Some_0),
            session,
        ),
{
}

/// The relay frame that an opened gift wrap holds for `recipient`.
pub fn accept_gift(
    gift: envelope::UnwrappedGift,
    gateway: &PublicKey,
    recipient: &str,
    session_id: &str,
) -> (frame: Option<String>)
    ensures
        text::opt_text(frame) == frame_of_gift(gift@, gateway@, recipient@, session_id@),
{
    if !gift.sender.same(gateway) || gift.rumor.kind != envelope::PRIVATE_DIRECT_MESSAGE_KIND {
        return None;
    }
    if has_recipient(&gift.rumor.tags, recipient) && has_session(&gift.rumor.tags, session_id) {
        Some(gift.rumor.content)
    } else {
        None
    }
}

/// The relay frame that a public relay's message holds for this client launch,
/// if the configured gateway sealed it.
pub fn unwrap_nip17_frame(
    keys: &Keys,
    gateway: &PublicKey,
    session_id: &str,
    message: &str,
) -> (frame: Option<String>)
    ensures
        text::opt_text(frame) == frame_of_message(
            keys.secret(),
            gateway@,
            session_id@,
            message@,
        ),
{
    let recipient = keys.public_key().to_hex();
    let json = match envelope::array_element(message, envelope::EVENT_POSITION) {
        Some(json) => json,
        None => {
            return None;
        },
    };
    match envelope::parse_event(json.as_str()) {
        Ok(event) => {
            if event.kind != envelope::GIFT_WRAP_KIND || !has_recipient(
                &event.tags,
                recipient.as_str(),
            ) {
                return None;
            }
        },
        Err(_) => {
            return None;
        },
    }
    match keys.open(json.as_str()) {
        Ok(gift) => accept_gift(gift, gateway, recipient.as_str(), session_id),
        Err(_) => None,
    }
}

/// A frame rumor keeps its session tag, and it keeps its recipient tag unless
/// its author is the recipient.
proof fn lemma_built_frame_tags(recipient: Seq<u8>, session: Seq<char>, author: Seq<u8>)
    ensures
        envelope::built_tags(
            nip17_gateway::frame_rumor(recipient, session, seq![]).tags,
            author,
        ) == if author == recipient {
            seq![nip17_gateway::session_tag(session)]
        } else {
            seq![envelope::recipient_tag(recipient), nip17_gateway::session_tag(session)]
        },
        envelope::built_tags(seq![envelope::recipient_tag(recipient)], author) == if author
            == recipient {
            seq![]
        } else {
            seq![envelope::recipient_tag(recipient)]
        },
{
    let first = envelope::recipient_tag(recipient);
    let second = nip17_gateway::session_tag(session);
    let kept = |tag: Seq<Seq<char>>| !envelope::names_key(tag, author);
    reveal_strlit("p");
    reveal_strlit("t");
    assert("p"@[0] != "t"@[0]);
    assert(kept(second));
    assert(kept(first) == (author != recipient)) by {
        if text::hex(recipient) == text::hex(author) {
            text::hex_is_injective(recipient, author);
        }
    }
    reveal(Seq::filter);
    let one = seq![first];
    let both = seq![first, second];
    let none: Seq<Seq<Seq<char>>> = seq![];
    assert(one.drop_last() =~= none);
    assert(both.drop_last() =~= one);
    assert(none.filter(kept) =~= none);
    assert(one.filter(kept) =~= if author == recipient {
        none
    } else {
        one
    });
    assert(both.filter(kept) =~= one.filter(kept).push(second));
    assert(none.push(second) =~= seq![second]);
    assert(one.push(second) =~= both);
}

proof fn lemma_session_of_frame_tags(recipient: Seq<u8>, session: Seq<char>)
    requires
        session.len() > 0,
    ensures
        nip17_gateway::session_of(seq![nip17_gateway::session_tag(session)]) == Some(session),
        nip17_gateway::session_of(
            seq![envelope::recipient_tag(recipient), nip17_gateway::session_tag(session)],
        ) == Some(session),
{
    let prefix = nip17_gateway::SESSION_TAG_PREFIX@;
    let first = envelope::recipient_tag(recipient);
    let second = nip17_gateway::session_tag(session);
    reveal_strlit("p");
    reveal_strlit("t");
    assert("p"@[0] != "t"@[0]);
    assert((prefix + session).take(prefix.len() as int) =~= prefix);
    assert((prefix + session).skip(prefix.len() as int) =~= session);
    assert(nip17_gateway::session_of_tag(second) == Some(session));
    assert(nip17_gateway::session_of_tag(first) is None);
    assert(seq![first, second].drop_first() =~= seq![second]);
    assert(seq![second][0] == second);
}

/// The gateway reads what a client wraps: an envelope of a frame within the
/// limit opens to that frame, in the client's session and under its key.
pub proof fn gateway_reads_what_the_client_wraps(
    client_secret: Seq<u8>,
    gateway_secret: Seq<u8>,
    session: Seq<char>,
    frame: Seq<char>,
    max: nat,
    json: Seq<char>,
)
    requires
        envelope::public_key_of(client_secret) is Some,
        envelope::public_key_of(gateway_secret) is Some,
        envelope::wrapped_for(
            client_secret,
            envelope::public_key_of(gateway_secret)->Some_0,
            nip17_gateway::frame_rumor(
                envelope::public_key_of(gateway_secret)->Some_0,
                session,
                frame,
            ),
            json,
        ),
        session.len() > 0,
        text::utf8_len(frame) <= max,
    ensures
        nip17_gateway::request_of_envelope(gateway_secret, max, FrameView::Text(json)) == Ok::<
            RequestView,
            GatewayFailure,
        >(
            RequestView {
                sender: envelope::public_key_of(client_secret)->Some_0,
                session_id: session,
                frame: FrameView::Text(frame),
            },
        ),
{
    let gateway = envelope::public_key_of(gateway_secret)->Some_0;
    let client = envelope::public_key_of(client_secret)->Some_0;
    let event = envelope::event_of_json(json)->Ok_0;
    assert(envelope::gift_of(gateway_secret, event) is Ok);
    lemma_built_frame_tags(gateway, session, client);
    lemma_session_of_frame_tags(gateway, session);
    assert(nip17_gateway::frame_rumor(gateway, session, frame).tags
        == nip17_gateway::frame_rumor(gateway, session, seq![]).tags);
}

/// The client reads what the gateway wraps, from any message that holds the
/// envelope's event in third place.
///
/// The keys of client and gateway differ, and so does the one-time key of the
/// envelope from the client's: an event does not name its own author.
pub proof fn client_reads_what_the_gateway_wraps(
    gateway_secret: Seq<u8>,
    client_secret: Seq<u8>,
    session: Seq<char>,
    response: Seq<char>,
    json: Seq<char>,
    message: Seq<char>,
)
    requires
        envelope::public_key_of(client_secret) is Some,
        envelope::public_key_of(gateway_secret) is Some,
        envelope::public_key_of(client_secret) != envelope::public_key_of(gateway_secret),
        envelope::wrapped_for(
            gateway_secret,
            envelope::public_key_of(client_secret)->Some_0,
            nip17_gateway::frame_rumor(
                envelope::public_key_of(client_secret)->Some_0,
                session,
                response,
            ),
            json,
        ),
        Some(envelope::event_of_json(json)->Ok_0.pubkey) != envelope::public_key_of(client_secret),
        envelope::element_of(message, envelope::EVENT_POSITION as nat) is Some,
        envelope::event_of_json(envelope::element_of(message, envelope::EVENT_POSITION as nat)->Some_0)
            == envelope::event_of_json(json),
    ensures
        frame_of_message(
            client_secret,
            envelope::public_key_of(gateway_secret)->Some_0,
            session,
            message,
        ) == Some(response),
{
    let gateway = envelope::public_key_of(gateway_secret)->Some_0;
    let client = envelope::public_key_of(client_secret)->Some_0;
    let event = envelope::event_of_json(json)->Ok_0;
    let named = envelope::recipient_tag(client);
    assert(envelope::gift_of(client_secret, event) is Ok);
    lemma_built_frame_tags(client, session, gateway);
    lemma_built_frame_tags(client, session, event.pubkey);
    assert(nip17_gateway::frame_rumor(client, session, response).tags
        == nip17_gateway::frame_rumor(client, session, seq![]).tags);
    assert(seq![named][0] == named);
    assert(tags_name(event.tags, text::hex(client)));
    let tags = envelope::gift_of(client_secret, event)->Ok_0.rumor.tags;
    assert(tags[0] == named);
    assert(tags[1] == nip17_gateway::session_tag(session));
    assert(tags_name(tags, text::hex(client)));
    assert(tags_carry(tags, session));
}

/// A client accepts only frames that the configured gateway sealed, for this
/// client and for this client launch.
pub proof fn only_the_gateway_is_heard(
    secret: Seq<u8>,
    gateway: Seq<u8>,
    session: Seq<char>,
    message: Seq<char>,
)
    requires
        frame_of_message(secret, gateway, session, message) is Some,
    ensures
        ({
            let event = envelope::event_of_json(envelope::element_of(message, envelope::EVENT_POSITION as nat)->Some_0)->Ok_0;
            let gift = envelope::gift_of(secret, event)->Ok_0;
            &&& event.kind == envelope::GIFT_WRAP_KIND
            &&& envelope::gift_of(secret, event) is Ok
            &&& gift.sender == gateway
            &&& tags_name(gift.rumor.tags, text::hex(envelope::public_key_of(secret)->Some_0))
            &&& tags_carry(gift.rumor.tags, session)
            &&& frame_of_message(secret, gateway, session, message) == Some(gift.rumor.content)
        }),
{
}

/// A response that the gateway wrapped for one client launch is not accepted in
/// another.
pub proof fn responses_stay_in_their_session(
    gateway_secret: Seq<u8>,
    client_secret: Seq<u8>,
    session: Seq<char>,
    other: Seq<char>,
    response: Seq<char>,
    json: Seq<char>,
    message: Seq<char>,
)
    requires
        envelope::public_key_of(client_secret) is Some,
        envelope::public_key_of(gateway_secret) is Some,
        envelope::wrapped_for(
            gateway_secret,
            envelope::public_key_of(client_secret)->Some_0,
            nip17_gateway::frame_rumor(
                envelope::public_key_of(client_secret)->Some_0,
                session,
                response,
            ),
            json,
        ),
        envelope::element_of(message, envelope::EVENT_POSITION as nat) is Some,
        envelope::event_of_json(envelope::element_of(message, envelope::EVENT_POSITION as nat)->Some_0)
            == envelope::event_of_json(json),
        session != other,
    ensures
        frame_of_message(
            client_secret,
            envelope::public_key_of(gateway_secret)->Some_0,
            other,
            message,
        ) is None,
{
    let gateway = envelope::public_key_of(gateway_secret)->Some_0;
    let client = envelope::public_key_of(client_secret)->Some_0;
    let event = envelope::event_of_json(json)->Ok_0;
    let prefix = nip17_gateway::SESSION_TAG_PREFIX@;
    assert(envelope::gift_of(client_secret, event) is Ok);
    lemma_built_frame_tags(client, session, gateway);
    assert(nip17_gateway::frame_rumor(client, session, response).tags
        == nip17_gateway::frame_rumor(client, session, seq![]).tags);
    let tags = envelope::gift_of(client_secret, event)->Ok_0.rumor.tags;
    reveal_strlit("p");
    reveal_strlit("t");
    assert("p"@[0] != "t"@[0]);
    assert(prefix + session != prefix + other) by {
        assert((prefix + session).skip(prefix.len() as int) =~= session);
        assert((prefix + other).skip(prefix.len() as int) =~= other);
    }
    assert(!tags_carry(tags, other));
}

/// What a tunneled connection wakes up for.
#[derive(Debug, Clone, PartialEq, Eq)]
pub enum TunnelEvent {
    /// The connection was told to stop.
    Cancelled,
    /// There will be no more messages to send.
    SenderClosed,
    /// The client asks to send a message.
    Send(SocketMessage),
    /// The public relays took, or did not take, the delivery, one by one.
    Delivered(Vec<bool>),
    /// A public relay sent a text message.
    Incoming(String),
}

/// What to do next for a tunneled connection.
#[derive(Debug, PartialEq, Eq)]
pub enum TunnelAction {
    /// Forget the connection and end.
    End,
    /// Offer this command to every public relay.
    Deliver(String),
    /// Tell the client what became of its message.
    Answer(Result<(), String>),
    /// Tell the client this message.
    Tell(OutboundMessage),
    /// Wait.
    Wait,
}

/// What a caller is told of a message that a tunnel cannot carry.
pub const TEXT_ONLY: &'static str = "NIP-17 relay transport only supports text frames";

/// What a caller is told when no public relay took its message.
pub const RELAYS_GONE: &'static str = "NIP-17 public relays are disconnected";

/// A connection that is tunneled through public relays.
#[derive(Clone)]
pub struct Nip17Connection {
    /// Identifier of the connection.
    pub id: u32,
    /// The client's key pair.
    pub keys: Keys,
    /// Key of the gateway.
    pub gateway: PublicKey,
    /// Identity of this client launch.
    pub session_id: String,
}

/// Whether any delivery was taken.
pub fn any_delivered(taken: &Vec<bool>) -> (any: bool)
    ensures
        any == taken@.contains(true),
{
    let mut i: usize = 0;
    while i < taken.len()
        invariant
            i <= taken.len(),
            forall|j: int| 0 <= j < i ==> !#[trigger] taken@[j],
        decreases taken.len() - i,
    {
        if taken[i] {
            assert(taken@[i as int] == true);
            return true;
        }
        i += 1;
    }
    false
}

/// The command that publishes an envelope, if there is one.
pub fn delivery_of(wrapped: Result<String, String>) -> (delivery: Result<String, String>)
    ensures
        match wrapped {
            Ok(json) => match envelope::publish_command(json@) {
                Ok(command) => delivery matches Ok(delivery) && delivery@ == command,
                Err(reason) => delivery matches Err(error) && error@ == reason,
            },
            Err(error) => delivery == Err::<String, String>(error),
        },
{
    match wrapped {
        Ok(json) => envelope::event_command(json.as_str()),
        Err(error) => Err(error),
    }
}

/// What follows for a message that the client asked to send: it is delivered,
/// or the client is told why not.
pub fn on_delivery(delivery: Result<String, String>) -> (action: TunnelAction)
    ensures
        match delivery {
            Ok(command) => action == TunnelAction::Deliver(command),
            Err(error) => action == TunnelAction::Answer(Err(error)),
        },
{
    match delivery {
        Ok(command) => TunnelAction::Deliver(command),
        Err(error) => TunnelAction::Answer(Err(error)),
    }
}

/// Whether `delivery` publishes an envelope of `frame` for the gateway, or is
/// an error. For a frame to a key it is an error only if the frame is too large
/// for NIP-44.
pub open spec fn delivers(
    secret: Seq<u8>,
    gateway: Seq<u8>,
    session: Seq<char>,
    frame: Seq<char>,
    delivery: Result<String, String>,
) -> bool {
    let rumor = nip17_gateway::frame_rumor(gateway, session, frame);
    match delivery {
        Ok(command) => {
            &&& exists|json: Seq<char>|
                {
                    &&& #[trigger] envelope::wrapped_for(secret, gateway, rumor, json)
                    &&& envelope::publish_command(json) == Ok::<Seq<char>, Seq<char>>(command@)
                }
            &&& envelope::ever_wrapped(
                envelope::public_key_of(secret)->Some_0,
                gateway,
                rumor,
            )
        },
        Err(_) => !envelope::surely_wrapped(gateway, rumor),
    }
}

/// A frame for a key that is not too large for NIP-44 is delivered, and so is
/// the frame that a connection begins with.
pub proof fn frames_within_the_bound_are_delivered(
    secret: Seq<u8>,
    gateway: Seq<u8>,
    session: Seq<char>,
    frame: Seq<char>,
    delivery: Result<String, String>,
)
    requires
        envelope::is_key(gateway),
        gateway.len() == 32,
        delivers(secret, gateway, session, frame, delivery),
    ensures
        protocol::json_size(session) + protocol::json_size(frame) <= 40_648 ==> delivery is Ok,
        text::utf8_len(session) <= 40 && frame == BOOTSTRAP_FRAME@ ==> delivery is Ok,
{
    nip17_gateway::frames_within_the_bound_are_wrapped(gateway, session, frame);
    if text::utf8_len(session) <= 40 && frame == BOOTSTRAP_FRAME@ {
        reveal_strlit("[\"CLOSE\",\"__buzz_nip17_bootstrap\"]");
        assert(vstd::utf8::is_ascii_chars(frame));
        vstd::utf8::is_ascii_chars_encode_utf8(frame);
        nip17_gateway::short_frames_are_wrapped(gateway, session, frame);
    }
}

/// What a client has delivered is an `EVENT` command around an envelope from which
/// the gateway reads the very frame, in the session of this launch and under the
/// client's key.
pub proof fn delivered_frames_reach_the_gateway(
    secret: Seq<u8>,
    gateway_secret: Seq<u8>,
    session: Seq<char>,
    frame: Seq<char>,
    command: String,
    max: nat,
)
    requires
        envelope::public_key_of(secret) is Some,
        envelope::public_key_of(gateway_secret) is Some,
        delivers(
            secret,
            envelope::public_key_of(gateway_secret)->Some_0,
            session,
            frame,
            Ok(command),
        ),
        session.len() > 0,
        text::utf8_len(frame) <= max,
    ensures
        exists|json: Seq<char>|
            {
                &&& #[trigger] envelope::compact_json(json) is Ok
                &&& command@ == "[\"EVENT\","@ + envelope::compact_json(json)->Ok_0 + "]"@
                &&& nip17_gateway::request_of_envelope(gateway_secret, max, FrameView::Text(json))
                    == Ok::<RequestView, GatewayFailure>(
                    RequestView {
                        sender: envelope::public_key_of(secret)->Some_0,
                        session_id: session,
                        frame: FrameView::Text(frame),
                    },
                )
            },
{
    let gateway = envelope::public_key_of(gateway_secret)->Some_0;
    let rumor = nip17_gateway::frame_rumor(gateway, session, frame);
    let json = choose|json: Seq<char>|
        {
            &&& #[trigger] envelope::wrapped_for(secret, gateway, rumor, json)
            &&& envelope::publish_command(json) == Ok::<Seq<char>, Seq<char>>(command@)
        };
    gateway_reads_what_the_client_wraps(secret, gateway_secret, session, frame, max, json);
    assert(envelope::compact_json(json) is Ok);
}

/// Whether `action` is what a tunneled connection does on `event`.
pub open spec fn tunnel_turn(
    secret: Seq<u8>,
    gateway: Seq<u8>,
    session: Seq<char>,
    event: TunnelEvent,
    action: TunnelAction,
) -> bool {
    match event {
        TunnelEvent::Cancelled | TunnelEvent::SenderClosed => action is End,
        TunnelEvent::Send(SocketMessage::Text(frame)) => match action {
            TunnelAction::Deliver(command) => delivers(
                secret,
                gateway,
                session,
                frame@,
                Ok(command),
            ),
            TunnelAction::Answer(Err(error)) => delivers(
                secret,
                gateway,
                session,
                frame@,
                Err(error),
            ),
            _ => false,
        },
        TunnelEvent::Send(_) => {
            &&& action matches TunnelAction::Answer(Err(error))
            &&& error@ == TEXT_ONLY@
        },
        TunnelEvent::Delivered(taken) => {
            &&& action matches TunnelAction::Answer(result)
            &&& match result {
                Ok(_) => taken@.contains(true),
                Err(error) => !taken@.contains(true) && error@ == RELAYS_GONE@,
            }
        },
        TunnelEvent::Incoming(message) => match frame_of_message(
            secret,
            gateway,
            session,
            message@,
        ) {
            Some(frame) => {
                &&& action matches TunnelAction::Tell(OutboundMessage::Text(told))
                &&& told@ == frame
            },
            None => action is Wait,
        },
    }
}

/// A tunnel ends when it is told to stop or has no more to send, and never for
/// what a relay sends or does not take. It delivers texts alone, each that is not
/// too large; a message was sent if one relay or more took it; and the client is
/// told each frame that its gateway sent, and nothing else.
pub proof fn tunnels_carry_texts(
    secret: Seq<u8>,
    gateway: Seq<u8>,
    session: Seq<char>,
    event: TunnelEvent,
    action: TunnelAction,
)
    requires
        tunnel_turn(secret, gateway, session, event, action),
    ensures
        action is End <==> event is Cancelled || event is SenderClosed,
        event matches TunnelEvent::Send(message) ==> message !is Text ==> {
            &&& action matches TunnelAction::Answer(Err(error))
            &&& error@ == "NIP-17 relay transport only supports text frames"@
        },
        event matches TunnelEvent::Send(SocketMessage::Text(frame)) ==> envelope::is_key(gateway)
            && gateway.len() == 32 && protocol::json_size(session) + protocol::json_size(frame@)
            <= 40_648 ==> action is Deliver,
        action is Deliver ==> event is Send,
        event matches TunnelEvent::Delivered(taken) ==> {
            let some_took_it = exists|i: int| 0 <= i < taken@.len() && #[trigger] taken@[i];
            &&& some_took_it ==> action == TunnelAction::Answer(Ok(()))
            &&& !some_took_it ==> {
                &&& action matches TunnelAction::Answer(Err(error))
                &&& error@ == "NIP-17 public relays are disconnected"@
            }
        },
        event matches TunnelEvent::Incoming(message) ==> {
            let heard = frame_of_message(secret, gateway, session, message@);
            &&& heard is None ==> action is Wait
            &&& heard matches Some(frame) ==> {
                &&& action matches TunnelAction::Tell(OutboundMessage::Text(told))
                &&& told@ == frame
            }
        },
        action is Tell ==> event is Incoming,
{
    if let TunnelEvent::Send(SocketMessage::Text(frame)) = event {
        if let TunnelAction::Answer(Err(error)) = action {
            if envelope::is_key(gateway) && gateway.len() == 32 {
                frames_within_the_bound_are_delivered(
                    secret,
                    gateway,
                    session,
                    frame@,
                    Err(error),
                );
            }
        }
    }
    if let TunnelEvent::Delivered(taken) = event {
        if exists|i: int| 0 <= i < taken@.len() && #[trigger] taken@[i] {
            let i = choose|i: int| 0 <= i < taken@.len() && #[trigger] taken@[i];
            assert(taken@[i] == true);
        }
        if taken@.contains(true) {
            let i = choose|i: int| 0 <= i < taken@.len() && taken@[i] == true;
            assert(taken@[i]);
        }
        if let TunnelAction::Answer(Ok(unit)) = action {
            assert(unit == ());
        }
    }
}

impl Nip17Connection {
    /// Starts a connection under a new launch identity.
    pub fn start(id: u32, keys: Keys, gateway: PublicKey) -> (connection: Nip17Connection)
        ensures
            connection.id == id,
            connection.keys == keys,
            connection.gateway == gateway,
            exists|launch: u128|
                connection.session_id@ == #[trigger] identifiers::hex_digits(launch as nat, 32),
            connection.session_id@.len() == 32,
    {
        let launch = identifiers::random_uuid();
        proof {
            identifiers::lemma_hex_digits_len(launch as nat, 32);
        }
        Nip17Connection { id, keys, gateway, session_id: identifiers::uuid_digits(launch) }
    }

    /// The subscription to send to every public relay first.
    pub fn subscription(&self) -> (request: String)
        ensures
            request@ == protocol::gift_wrap_filter(
                "buzz-nip17-"@ + text::decimal(self.id as nat),
                text::hex(self.keys.public()),
            ),
    {
        let hex = self.keys.public_key().to_hex();
        let name = text::join2("buzz-nip17-", text::decimal_text(self.id as u64).as_str());
        protocol::gift_wrap_request(name.as_str(), hex.as_str())
    }

    /// The command that publishes an envelope of `frame` for the gateway.
    pub fn delivery(&self, frame: &str) -> (delivery: Result<String, String>)
        ensures
            delivers(
                self.keys.secret(),
                self.gateway@,
                self.session_id@,
                frame@,
                delivery,
            ),
    {
        delivery_of(
            wrap_nip17_frame(&self.keys, &self.gateway, self.session_id.as_str(), frame),
        )
    }

    /// The command that prompts the gateway's first challenge, to be offered to
    /// every public relay after the subscription.
    pub fn bootstrap(&self) -> (delivery: Result<String, String>)
        ensures
            delivers(
                self.keys.secret(),
                self.gateway@,
                self.session_id@,
                BOOTSTRAP_FRAME@,
                delivery,
            ),
    {
        self.delivery(BOOTSTRAP_FRAME)
    }

    /// Goes on after `event`.
    ///
    /// Only text messages are tunneled. A message was sent if any of the public
    /// relays took it. Of what the public relays send, the client is told what
    /// the gateway sealed for this launch.
    pub fn run_nip17_connection(&self, event: TunnelEvent) -> (action: TunnelAction)
        ensures
            tunnel_turn(self.keys.secret(), self.gateway@, self.session_id@, event, action),
            match event {
                TunnelEvent::Cancelled | TunnelEvent::SenderClosed => action is End,
                TunnelEvent::Send(SocketMessage::Text(frame)) => match action {
                    TunnelAction::Deliver(command) => delivers(
                        self.keys.secret(),
                        self.gateway@,
                        self.session_id@,
                        frame@,
                        Ok(command),
                    ),
                    TunnelAction::Answer(Err(error)) => delivers(
                        self.keys.secret(),
                        self.gateway@,
                        self.session_id@,
                        frame@,
                        Err(error),
                    ),
                    _ => false,
                },
                TunnelEvent::Send(_) => {
                    &&& action matches TunnelAction::Answer(Err(error))
                    &&& error@ == TEXT_ONLY@
                },
                TunnelEvent::Delivered(taken) => {
                    &&& action matches TunnelAction::Answer(result)
                    &&& match result {
                        Ok(_) => taken@.contains(true),
                        Err(error) => !taken@.contains(true) && error@ == RELAYS_GONE@,
                    }
                },
                TunnelEvent::Incoming(message) => match frame_of_message(
                    self.keys.secret(),
                    self.gateway@,
                    self.session_id@,
                    message@,
                ) {
                    Some(frame) => action matches TunnelAction::Tell(OutboundMessage::Text(told))
                        && told@ == frame,
                    None => action is Wait,
                },
            },
    {
        match event {
            TunnelEvent::Cancelled => TunnelAction::End,
            TunnelEvent::SenderClosed => TunnelAction::End,
            TunnelEvent::Send(SocketMessage::Text(frame)) => on_delivery(
                self.delivery(frame.as_str()),
            ),
            TunnelEvent::Send(_) => TunnelAction::Answer(Err(TEXT_ONLY.to_owned())),
            TunnelEvent::Delivered(taken) => {
                if any_delivered(&taken) {
                    TunnelAction::Answer(Ok(()))
                } else {
                    TunnelAction::Answer(Err(RELAYS_GONE.to_owned()))
                }
            },
            TunnelEvent::Incoming(message) => {
                match unwrap_nip17_frame(
                    &self.keys,
                    &self.gateway,
                    self.session_id.as_str(),
                    message.as_str(),
                ) {
                    Some(frame) => TunnelAction::Tell(OutboundMessage::Text(frame)),
                    None => TunnelAction::Wait,
                }
            },
        }
    }
}

/// What the socket of a public relay wakes up for.
#[derive(Debug, Clone, PartialEq, Eq)]
pub enum RelaySocketEvent {
    /// The connection was told to stop.
    Cancelled,
    /// A command to send; `None` if there will be no more.
    Command(Option<String>),
    /// The last command was written, or could not be.
    Written(bool),
    /// The relay sent a message; `None` if it is gone or failed.
    Incoming(Option<SocketMessage>),
}

/// What to do next with the socket of a public relay.
#[derive(Debug, Clone, PartialEq, Eq)]
pub enum RelaySocketAction {
    /// End.
    End,
    /// Write this text.
    Write(String),
    /// Hand this text to the connection.
    Forward(String),
    /// Wait.
    Wait,
}

/// What the task that serves the socket of a public relay does on `event`.
pub open spec fn relay_socket_action(event: RelaySocketEvent) -> RelaySocketAction {
    match event {
        RelaySocketEvent::Cancelled => RelaySocketAction::End,
        RelaySocketEvent::Command(Some(command)) => RelaySocketAction::Write(command),
        RelaySocketEvent::Command(None) => RelaySocketAction::End,
        RelaySocketEvent::Written(true) => RelaySocketAction::Wait,
        RelaySocketEvent::Written(false) => RelaySocketAction::End,
        RelaySocketEvent::Incoming(Some(SocketMessage::Text(message))) =>
            RelaySocketAction::Forward(message),
        RelaySocketEvent::Incoming(Some(_)) => RelaySocketAction::Wait,
        RelaySocketEvent::Incoming(None) => RelaySocketAction::End,
    }
}

/// Every command is written to the relay, and every text of the relay is handed
/// on, as they are. The socket is served until it is told to stop, there are no
/// more commands, one cannot be written, or the relay is gone.
pub proof fn relay_sockets_pass_texts_on(
    event: RelaySocketEvent,
    command: String,
    message: SocketMessage,
)
    ensures
        relay_socket_action(RelaySocketEvent::Command(Some(command))) == RelaySocketAction::Write(
            command,
        ),
        message matches SocketMessage::Text(text) ==> relay_socket_action(
            RelaySocketEvent::Incoming(Some(message)),
        ) == RelaySocketAction::Forward(text),
        message !is Text ==> relay_socket_action(RelaySocketEvent::Incoming(Some(message)))
            is Wait,
        relay_socket_action(RelaySocketEvent::Written(true)) is Wait,
        relay_socket_action(event) is End <==> event is Cancelled || event
            == RelaySocketEvent::Command(None) || event == RelaySocketEvent::Written(false)
            || event == RelaySocketEvent::Incoming(None),
{
    if let RelaySocketEvent::Written(ok) = event {
        assert(ok || !ok);
    }
}

/// One turn of the task that serves the socket of a public relay.
pub fn serve_relay_socket(event: RelaySocketEvent) -> (action: RelaySocketAction)
    ensures
        action == relay_socket_action(event),
        action == (match event {
            RelaySocketEvent::Cancelled => RelaySocketAction::End,
            RelaySocketEvent::Command(Some(command)) => RelaySocketAction::Write(command),
            RelaySocketEvent::Command(None) => RelaySocketAction::End,
            RelaySocketEvent::Written(true) => RelaySocketAction::Wait,
            RelaySocketEvent::Written(false) => RelaySocketAction::End,
            RelaySocketEvent::Incoming(Some(SocketMessage::Text(message))) =>
                RelaySocketAction::Forward(message),
            RelaySocketEvent::Incoming(Some(_)) => RelaySocketAction::Wait,
            RelaySocketEvent::Incoming(None) => RelaySocketAction::End,
        }),
{
    match event {
        RelaySocketEvent::Command(Some(command)) => RelaySocketAction::Write(command),
        RelaySocketEvent::Written(true) => RelaySocketAction::Wait,
        RelaySocketEvent::Incoming(Some(SocketMessage::Text(message))) =>
            RelaySocketAction::Forward(message),
        RelaySocketEvent::Incoming(Some(_)) => RelaySocketAction::Wait,
        _ => RelaySocketAction::End,
    }
}

/// What became of a write.
#[derive(Debug, Clone, PartialEq, Eq)]
pub enum WriteOutcome {
    /// It was written.
    Written,
    /// It failed.
    Failed(String),
    /// It took too long.
    TimedOut,
}

/// What a direct connection wakes up for.
#[derive(Debug, Clone, PartialEq, Eq)]
pub enum SocketEvent {
    /// The connection was told to stop.
    Cancelled,
    /// There will be no more messages to send.
    SenderClosed,
    /// The client asks to send a message.
    Send(SocketMessage),
    /// The last message was written, or not.
    Wrote(WriteOutcome),
    /// The peer sent a message.
    Incoming(SocketMessage),
    /// The socket failed.
    Failed(String),
    /// The peer is gone.
    Ended,
}

/// What to do next for a direct connection.
#[derive(Debug, PartialEq, Eq)]
pub enum SocketAction {
    /// Write this message.
    Write(SocketMessage),
    /// Tell the client what became of its message.
    Answer(Result<(), String>),
    /// Tell the client this message.
    Tell(OutboundMessage),
    /// Nothing.
    Nothing,
}

/// Whether the client is answered as a write turned out.
pub open spec fn answers_write(result: Result<(), String>, outcome: WriteOutcome) -> bool {
    match outcome {
        WriteOutcome::Written => result is Ok,
        WriteOutcome::Failed(reason) => result == Err::<(), String>(reason),
        WriteOutcome::TimedOut => result matches Err(error) && error@ == SEND_TIMED_OUT@,
    }
}

/// Whether `step` is what a direct connection does on `event`, and whether it ends
/// after that.
pub open spec fn connection_turn(event: SocketEvent, step: (SocketAction, bool)) -> bool {
    match event {
        SocketEvent::Cancelled => {
            &&& step.1
            &&& step.0 matches SocketAction::Write(SocketMessage::Close(Some(close)))
            &&& close.code == 1000
            &&& close.reason@ == "disconnect"@
        },
        SocketEvent::SenderClosed => step == (SocketAction::Nothing, true),
        SocketEvent::Send(message) => step == (SocketAction::Write(message), false),
        SocketEvent::Wrote(outcome) => {
            &&& step.1 == !(outcome is Written)
            &&& step.0 matches SocketAction::Answer(result)
            &&& answers_write(result, outcome)
        },
        SocketEvent::Incoming(message) => {
            &&& step.0 matches SocketAction::Tell(told)
            &&& tells(told, message)
            &&& step.1 == (message is Close || message is Frame)
        },
        SocketEvent::Failed(error) => step == (
            SocketAction::Tell(OutboundMessage::Error(error)),
            true,
        ),
        SocketEvent::Ended => step == (SocketAction::Tell(OutboundMessage::Close(None)), true),
    }
}

/// A direct connection writes every message as it is and answers each as its write
/// turned out; it tells the client every message as it is. It ends exactly when
/// it is told to stop, has no more to send, could not write, was closed or met a
/// raw frame, failed, or lost its peer; whatever the peer did, the client is told.
pub proof fn connections_end_with_their_peer(event: SocketEvent, step: (SocketAction, bool))
    requires
        connection_turn(event, step),
    ensures
        step.1 <==> match event {
            SocketEvent::Send(_) => false,
            SocketEvent::Wrote(outcome) => outcome is Failed || outcome is TimedOut,
            SocketEvent::Incoming(message) => message is Close || message is Frame,
            _ => true,
        },
        event matches SocketEvent::Send(message) ==> step.0 == SocketAction::Write(message),
        event matches SocketEvent::Wrote(WriteOutcome::Written) ==> step.0 matches SocketAction::Answer(
            Ok(_),
        ),
        event matches SocketEvent::Wrote(WriteOutcome::Failed(reason)) ==> step.0
            == SocketAction::Answer(Err(reason)),
        event matches SocketEvent::Wrote(WriteOutcome::TimedOut) ==> {
            &&& step.0 matches SocketAction::Answer(Err(error))
            &&& error@ == "WebSocket send timed out"@
        },
        event matches SocketEvent::Incoming(SocketMessage::Text(text)) ==> step.0
            == SocketAction::Tell(OutboundMessage::Text(text)),
        event matches SocketEvent::Incoming(SocketMessage::Binary(bytes)) ==> step.0
            == SocketAction::Tell(OutboundMessage::Binary(bytes)),
        event matches SocketEvent::Incoming(SocketMessage::Close(close)) ==> step.0
            == SocketAction::Tell(OutboundMessage::Close(close)),
        event matches SocketEvent::Failed(error) ==> step.0 == SocketAction::Tell(
            OutboundMessage::Error(error),
        ),
        event is Ended ==> step.0 == SocketAction::Tell(OutboundMessage::Close(None)),
        event is Cancelled ==> {
            &&& step.0 matches SocketAction::Write(SocketMessage::Close(Some(close)))
            &&& close.code == 1000
            &&& close.reason@ == "disconnect"@
        },
        event is SenderClosed ==> step.0 is Nothing,
{
}

/// One turn of a direct connection. Returns what to do, and whether the
/// connection ends after that and is forgotten.
///
/// A connection that is told to stop says goodbye. It ends with a write that
/// did not go through, and with a close or an error that it tells the client.
pub fn run_connection(event: SocketEvent) -> (step: (SocketAction, bool))
    ensures
        connection_turn(event, step),
        match event {
            SocketEvent::Cancelled => {
                &&& step.1
                &&& step.0 matches SocketAction::Write(SocketMessage::Close(Some(close)))
                &&& close.code == 1000
                &&& close.reason@ == "disconnect"@
            },
            SocketEvent::SenderClosed => step == (SocketAction::Nothing, true),
            SocketEvent::Send(message) => step == (SocketAction::Write(message), false),
            SocketEvent::Wrote(outcome) => {
                &&& step.1 == !(outcome is Written)
                &&& step.0 matches SocketAction::Answer(result)
                &&& answers_write(result, outcome)
            },
            SocketEvent::Incoming(message) => {
                &&& step.0 matches SocketAction::Tell(told)
                &&& tells(told, message)
                &&& step.1 == (message is Close || message is Frame)
            },
            SocketEvent::Failed(error) => step == (
                SocketAction::Tell(OutboundMessage::Error(error)),
                true,
            ),
            SocketEvent::Ended => step == (SocketAction::Tell(OutboundMessage::Close(None)), true),
        },
{
    match event {
        SocketEvent::Cancelled => {
            let close = ClosePayload { code: 1000, reason: "disconnect".to_owned() };
            (SocketAction::Write(SocketMessage::Close(Some(close))), true)
        },
        SocketEvent::SenderClosed => (SocketAction::Nothing, true),
        SocketEvent::Send(message) => (SocketAction::Write(message), false),
        SocketEvent::Wrote(outcome) => {
            let result = match outcome {
                WriteOutcome::Written => Ok(()),
                WriteOutcome::Failed(reason) => Err(reason),
                WriteOutcome::TimedOut => Err(SEND_TIMED_OUT.to_owned()),
            };
            let failed = result.is_err();
            (SocketAction::Answer(result), failed)
        },
        SocketEvent::Incoming(message) => {
            let told = outbound_message(message);
            let terminal = match &told {
                OutboundMessage::Close(_) => true,
                OutboundMessage::Error(_) => true,
                _ => false,
            };
            (SocketAction::Tell(told), terminal)
        },
        SocketEvent::Failed(error) => (SocketAction::Tell(OutboundMessage::Error(error)), true),
        SocketEvent::Ended => (SocketAction::Tell(OutboundMessage::Close(None)), true),
    }
}

/// What became of a message that was to be queued for a connection.
#[derive(Debug, Clone, Copy, PartialEq, Eq)]
pub enum QueueOutcome {
    /// It was queued.
    Queued,
    /// The queue stayed full for too long.
    TimedOut,
    /// The connection is gone.
    Closed,
}

/// What a connection answered about a queued message.
#[derive(Debug, PartialEq, Eq)]
pub enum ReplyOutcome {
    /// It answered.
    Answered(Result<(), String>),
    /// It took too long.
    TimedOut,
    /// It ended without an answer.
    Closed,
}

/// What a caller is told when there is no such connection.
pub open spec fn not_found(id: u32) -> Seq<char> {
    "WebSocket connection "@ + text::decimal(id as nat) + " not found"@
}

impl WebSocketManager {
    /// Whether a message can be sent to connection `id`.
    pub fn find(&self, id: u32) -> (result: Result<(), String>)
        ensures
            match result {
                Ok(_) => self.connections@.contains(id),
                Err(error) => !self.connections@.contains(id) && error@ == not_found(id),
            },
    {
        if self.connections.contains(&id) {
            Ok(())
        } else {
            Err(
                text::join3(
                    "WebSocket connection ",
                    text::decimal_text(id as u64).as_str(),
                    " not found",
                ),
            )
        }
    }
}

/// Whether `result` is what a caller is told of its message.
pub open spec fn caller_told(
    queued: QueueOutcome,
    reply: ReplyOutcome,
    result: Result<(), String>,
) -> bool {
    match queued {
        QueueOutcome::TimedOut => {
            &&& result matches Err(error)
            &&& error@ == "WebSocket send queue timed out"@
        },
        QueueOutcome::Closed => result matches Err(error) && error@ == CLOSED@,
        QueueOutcome::Queued => match reply {
            ReplyOutcome::Answered(answer) => result == answer,
            ReplyOutcome::TimedOut => result matches Err(error) && error@ == SEND_TIMED_OUT@,
            ReplyOutcome::Closed => result matches Err(error) && error@ == CLOSED@,
        },
    }
}

/// A message was sent exactly if it was queued and the connection answered so. A
/// refusal of the connection is told as it is; else the caller is told what took
/// too long, or that the connection is gone. Who asks for a connection that is not
/// there is told its number.
pub proof fn callers_are_told_how_it_went(
    queued: QueueOutcome,
    reply: ReplyOutcome,
    result: Result<(), String>,
    id: u32,
)
    requires
        caller_told(queued, reply, result),
    ensures
        result is Ok <==> queued is Queued && reply is Answered && reply->Answered_0 is Ok,
        queued is Queued && reply is Answered ==> result == reply->Answered_0,
        queued is TimedOut ==> result->Err_0@ == "WebSocket send queue timed out"@,
        queued is Closed || (queued is Queued && reply is Closed) ==> result->Err_0@
            == "WebSocket connection closed"@,
        queued is Queued && reply is TimedOut ==> result->Err_0@ == "WebSocket send timed out"@,
        not_found(id) == "WebSocket connection "@ + text::decimal(id as nat) + " not found"@,
{
}

/// What a caller is told of its message: the connection's answer, once the
/// message was queued and the answer came in time.
pub fn send_message(queued: QueueOutcome, reply: ReplyOutcome) -> (result: Result<(), String>)
    ensures
        caller_told(queued, reply, result),
        match queued {
            QueueOutcome::TimedOut => result matches Err(error) && error@
                == "WebSocket send queue timed out"@,
            QueueOutcome::Closed => result matches Err(error) && error@ == CLOSED@,
            QueueOutcome::Queued => match reply {
                ReplyOutcome::Answered(answer) => result == answer,
                ReplyOutcome::TimedOut => result matches Err(error) && error@ == SEND_TIMED_OUT@,
                ReplyOutcome::Closed => result matches Err(error) && error@ == CLOSED@,
            },
        },
{
    match queued {
        QueueOutcome::TimedOut => Err("WebSocket send queue timed out".to_owned()),
        QueueOutcome::Closed => Err(CLOSED.to_owned()),
        QueueOutcome::Queued => match reply {
            ReplyOutcome::Answered(answer) => answer,
            ReplyOutcome::TimedOut => Err(SEND_TIMED_OUT.to_owned()),
            ReplyOutcome::Closed => Err(CLOSED.to_owned()),
        },
    }
}

/// How a connection's task is brought to its end.
#[derive(Debug, Clone, Copy, PartialEq, Eq)]
pub enum Shutdown {
    /// There is no task, or it has ended.
    Over,
    /// Wait [`SHUTDOWN_TIMEOUT_MILLIS`] for it.
    Await,
    /// Abort it and wait for that.
    Abort,
}

/// What to do with the task of a connection that was told to stop.
pub open spec fn shutdown_of(has_task: bool, ended_in_time: Option<bool>) -> Shutdown {
    if !has_task || ended_in_time == Some(true) {
        Shutdown::Over
    } else if ended_in_time == Some(false) {
        Shutdown::Abort
    } else {
        Shutdown::Await
    }
}

/// A task is waited for before it is aborted, and aborted only if it has not ended
/// in time; where there is none, nothing is done.
pub proof fn tasks_are_waited_for_first(ended_in_time: Option<bool>)
    ensures
        shutdown_of(false, ended_in_time) is Over,
        shutdown_of(true, None) is Await,
        shutdown_of(true, Some(true)) is Over,
        shutdown_of(true, Some(false)) is Abort,
{
}

/// What to do with the task of a connection that was told to stop: it is waited
/// for at first, and aborted if it has not ended in time.
pub fn disconnect_handle(has_task: bool, ended_in_time: Option<bool>) -> (shutdown: Shutdown)
    ensures
        shutdown == shutdown_of(has_task, ended_in_time),
        shutdown == (if !has_task || ended_in_time == Some(true) {
            Shutdown::Over
        } else if ended_in_time == Some(false) {
            Shutdown::Abort
        } else {
            Shutdown::Await
        }),
{
    if !has_task {
        return Shutdown::Over;
    }
    match ended_in_time {
        Some(true) => Shutdown::Over,
        Some(false) => Shutdown::Abort,
        None => Shutdown::Await,
    }
}

}
