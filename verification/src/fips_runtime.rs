//! Opt-in FIPS rendezvous responder for persistent relay streams.
//!
//! The adapter owns the discovery service, the QUIC connections and the virtual
//! connections behind them.

use vstd::prelude::*;
use vstd::string::*;
use vstd::utf8::*;

use crate::connection::NextFrame;
use crate::text;
use crate::transport::{FrameView, RelayFrame};

verus! {

/// Milliseconds between two looks at the discovery service.
pub const POLL_INTERVAL_MILLIS: u64 = 25;

/// Configuration of the responder.
#[derive(Debug, Clone, PartialEq, Eq)]
pub struct FipsConfig {
    /// Secret key of the responder.
    pub private_key: String,
    /// Public relays for adverts and rendezvous.
    pub nostr_relays: Vec<String>,
    /// STUN servers.
    pub stun_servers: Vec<String>,
}

/// Configuration of the discovery service.
#[derive(Debug, Clone, PartialEq, Eq)]
pub struct NostrDiscoveryConfig {
    /// Whether discovery is on.
    pub enabled: bool,
    /// Whether the responder is advertised.
    pub advertise: bool,
    /// Relays that adverts go to.
    pub advert_relays: Vec<String>,
    /// Relays that rendezvous messages go through.
    pub dm_relays: Vec<String>,
    /// STUN servers.
    pub stun_servers: Vec<String>,
    /// Application name.
    pub app: String,
}

/// How an endpoint is reached.
#[derive(Debug, Clone, Copy, PartialEq, Eq)]
pub enum OverlayTransportKind {
    /// Over UDP.
    Udp,
}

/// An advertised endpoint.
#[derive(Debug, Clone, PartialEq, Eq)]
pub struct OverlayEndpointAdvert {
    /// How it is reached.
    pub transport: OverlayTransportKind,
    /// Where it is reached.
    pub addr: String,
}

/// The advert of a responder.
#[derive(Debug, Clone, PartialEq, Eq)]
pub struct OverlayAdvert {
    /// What kind of advert this is.
    pub identifier: String,
    /// Version of its format.
    pub version: u32,
    /// Where the responder is reached.
    pub endpoints: Vec<OverlayEndpointAdvert>,
    /// Relays for rendezvous.
    pub signal_relays: Option<Vec<String>>,
    /// STUN servers.
    pub stun_servers: Option<Vec<String>>,
    /// STUN services of the responder's own.
    pub stun_services: Option<Vec<String>>,
}

/// Whether `discovery` is the discovery configuration of a responder.
pub open spec fn discovers_by(config: FipsConfig, discovery: NostrDiscoveryConfig) -> bool {
    &&& discovery.enabled
    &&& discovery.advertise
    &&& discovery.advert_relays@ == config.nostr_relays@
    &&& discovery.dm_relays@ == config.nostr_relays@
    &&& discovery.stun_servers@ == config.stun_servers@
    &&& discovery.app@ == "buzz-relay"@
}

/// Whether `advert` is the advert of a responder with that configuration.
pub open spec fn advertised_by(
    discovery: NostrDiscoveryConfig,
    identifier: String,
    version: u32,
    advert: OverlayAdvert,
) -> bool {
    &&& advert.identifier == identifier
    &&& advert.version == version
    &&& advert.endpoints@.len() == 1
    &&& advert.endpoints@[0].transport is Udp
    &&& advert.endpoints@[0].addr@ == "nat"@
    &&& advert.signal_relays matches Some(relays)
    &&& relays@ == discovery.dm_relays@
    &&& advert.stun_servers matches Some(servers)
    &&& servers@ == discovery.stun_servers@
    &&& advert.stun_services is None
}

/// A responder advertises the relays and STUN servers that are configured, all of
/// them in their order and no others, through those same relays; it is found
/// behind NAT over UDP.
pub proof fn adverts_name_what_is_configured(
    config: FipsConfig,
    discovery: NostrDiscoveryConfig,
    identifier: String,
    version: u32,
    advert: OverlayAdvert,
)
    requires
        discovers_by(config, discovery),
        advertised_by(discovery, identifier, version, advert),
    ensures
        discovery.enabled && discovery.advertise,
        discovery.advert_relays@ == config.nostr_relays@,
        advert.signal_relays is Some && advert.signal_relays->Some_0@ == config.nostr_relays@,
        advert.stun_servers is Some && advert.stun_servers->Some_0@ == config.stun_servers@,
        advert.stun_services is None,
        advert.identifier == identifier && advert.version == version,
        advert.endpoints@.len() == 1 && advert.endpoints@[0].addr@ == "nat"@,
        advert.endpoints@[0].transport is Udp,
        discovery.app@ == "buzz-relay"@,
        discovery.dm_relays@ == config.nostr_relays@,
        discovery.stun_servers@ == config.stun_servers@,
{
}

/// The discovery configuration of a responder: it advertises itself, and the
/// configured relays serve both purposes.
pub fn discovery_config(config: &FipsConfig) -> (discovery: NostrDiscoveryConfig)
    ensures
        discovers_by(*config, discovery),
        discovery.enabled,
        discovery.advertise,
        discovery.advert_relays@ == config.nostr_relays@,
        discovery.dm_relays@ == config.nostr_relays@,
        discovery.stun_servers@ == config.stun_servers@,
        discovery.app@ == "buzz-relay"@,
{
    NostrDiscoveryConfig {
        enabled: true,
        advertise: true,
        advert_relays: text::clone_texts(&config.nostr_relays),
        dm_relays: text::clone_texts(&config.nostr_relays),
        stun_servers: text::clone_texts(&config.stun_servers),
        app: "buzz-relay".to_owned(),
    }
}

/// The advert of a responder: one UDP endpoint behind NAT, found through the
/// relays and STUN servers of its discovery configuration.
pub fn local_advert(discovery: &NostrDiscoveryConfig, identifier: String, version: u32) -> (advert:
    OverlayAdvert)
    ensures
        advertised_by(*discovery, identifier, version, advert),
        advert.identifier == identifier,
        advert.version == version,
        advert.endpoints@.len() == 1,
        advert.endpoints@[0].transport is Udp,
        advert.endpoints@[0].addr@ == "nat"@,
        advert.signal_relays matches Some(relays) && relays@ == discovery.dm_relays@,
        advert.stun_servers matches Some(servers) && servers@ == discovery.stun_servers@,
        advert.stun_services is None,
{
    let mut endpoints: Vec<OverlayEndpointAdvert> = Vec::new();
    endpoints.push(
        OverlayEndpointAdvert { transport: OverlayTransportKind::Udp, addr: "nat".to_owned() },
    );
    OverlayAdvert {
        identifier,
        version,
        endpoints,
        signal_relays: Some(text::clone_texts(&discovery.dm_relays)),
        stun_servers: Some(text::clone_texts(&discovery.stun_servers)),
        stun_services: None,
    }
}

/// Starts the responder if its key could be read, and says why not otherwise.
pub fn spawn(identity: Result<(), String>) -> (result: Result<(), String>)
    ensures
        match identity {
            Ok(_) => result is Ok,
            Err(reason) => result matches Err(error) && error@
                == "invalid FIPS key after config validation: "@ + reason@,
        },
{
    match identity {
        Ok(_) => Ok(()),
        Err(reason) => Err(
            text::join2("invalid FIPS key after config validation: ", reason.as_str()),
        ),
    }
}

/// What happened to the responder.
#[derive(Debug, Clone, Copy, PartialEq, Eq)]
pub enum ResponderEvent {
    /// The discovery service runs, or failed to start.
    Started(bool),
    /// The advert was published, or could not be.
    Advertised(bool),
    /// A peer was reached; the responder's key can be read again, or not.
    Established(bool),
    /// A peer could not be reached.
    TraversalFailed,
    /// All news of the discovery service were handled.
    Drained,
}

/// What to do next for the responder.
#[derive(Debug, Clone, Copy, PartialEq, Eq)]
pub enum ResponderAction {
    /// Publish the advert.
    Advertise,
    /// Look for news of the discovery service.
    Poll,
    /// Accept the peer's connection in a task of its own.
    Accept,
    /// Go on with the next news.
    Next,
    /// Wait [`POLL_INTERVAL_MILLIS`] and look again.
    Wait,
    /// Shut the discovery service down and end.
    ShutDown,
    /// End.
    End,
}

/// What the responder does on `event`.
pub open spec fn responder_action(event: ResponderEvent) -> ResponderAction {
    match event {
        ResponderEvent::Started(true) => ResponderAction::Advertise,
        ResponderEvent::Started(false) => ResponderAction::End,
        ResponderEvent::Advertised(true) => ResponderAction::Poll,
        ResponderEvent::Advertised(false) => ResponderAction::ShutDown,
        ResponderEvent::Established(true) => ResponderAction::Accept,
        ResponderEvent::Established(false) => ResponderAction::End,
        ResponderEvent::TraversalFailed => ResponderAction::Next,
        ResponderEvent::Drained => ResponderAction::Wait,
    }
}

/// A responder that runs is advertised, and once it is, it looks for peers for as
/// long as its key can be read: each that is reached is accepted, one that cannot
/// be is passed over, and when all news are handled it waits for more. It shuts
/// discovery down if it cannot be advertised.
pub proof fn responders_accept_every_peer(event: ResponderEvent, ok: bool)
    ensures
        responder_action(ResponderEvent::Started(ok)) is Advertise <==> ok,
        responder_action(ResponderEvent::Advertised(ok)) is Poll <==> ok,
        responder_action(ResponderEvent::Established(ok)) is Accept <==> ok,
        responder_action(ResponderEvent::TraversalFailed) is Next,
        responder_action(ResponderEvent::Drained) is Wait,
        responder_action(event) is ShutDown <==> event == ResponderEvent::Advertised(false),
        responder_action(event) is End <==> event == ResponderEvent::Started(false) || event
            == ResponderEvent::Established(false),
{
    match event {
        ResponderEvent::Started(yes) => assert(yes || !yes),
        ResponderEvent::Advertised(yes) => assert(yes || !yes),
        ResponderEvent::Established(yes) => assert(yes || !yes),
        _ => {},
    }
}

/// One turn of the responder. It ends only before it was advertised, or when
/// its key has become unusable.
pub fn run(event: ResponderEvent) -> (action: ResponderAction)
    ensures
        action == responder_action(event),
        action == (match event {
            ResponderEvent::Started(true) => ResponderAction::Advertise,
            ResponderEvent::Started(false) => ResponderAction::End,
            ResponderEvent::Advertised(true) => ResponderAction::Poll,
            ResponderEvent::Advertised(false) => ResponderAction::ShutDown,
            ResponderEvent::Established(true) => ResponderAction::Accept,
            ResponderEvent::Established(false) => ResponderAction::End,
            ResponderEvent::TraversalFailed => ResponderAction::Next,
            ResponderEvent::Drained => ResponderAction::Wait,
        }),
{
    match event {
        ResponderEvent::Started(true) => ResponderAction::Advertise,
        ResponderEvent::Started(false) => ResponderAction::End,
        ResponderEvent::Advertised(true) => ResponderAction::Poll,
        ResponderEvent::Advertised(false) => ResponderAction::ShutDown,
        ResponderEvent::Established(true) => ResponderAction::Accept,
        ResponderEvent::Established(false) => ResponderAction::End,
        ResponderEvent::TraversalFailed => ResponderAction::Next,
        ResponderEvent::Drained => ResponderAction::Wait,
    }
}

/// What the stream of a peer wakes up for.
#[derive(Debug, Clone, PartialEq, Eq)]
pub enum StreamEvent {
    /// The peer sent a frame; `None` if the stream has failed.
    Inbound(Option<Vec<u8>>),
    /// The virtual connection has something.
    Outbound(NextFrame),
    /// The last frame was sent, or could not be.
    Sent(bool),
}

/// What to do next for the stream of a peer.
#[derive(Debug, Clone, PartialEq, Eq)]
pub enum StreamAction {
    /// Hand this frame to the virtual connection.
    Receive(RelayFrame),
    /// Send this frame to the peer.
    Send(Vec<u8>),
    /// Wait.
    Wait,
    /// Close the virtual connection and end.
    Close,
}

/// The value of a [`StreamAction`].
pub enum StreamActionView {
    Receive(FrameView),
    Send(Seq<u8>),
    Wait,
    Close,
}

impl View for StreamAction {
    type V = StreamActionView;

    open spec fn view(&self) -> StreamActionView {
        match self {
            StreamAction::Receive(frame) => StreamActionView::Receive(frame@),
            StreamAction::Send(bytes) => StreamActionView::Send(bytes@),
            StreamAction::Wait => StreamActionView::Wait,
            StreamAction::Close => StreamActionView::Close,
        }
    }
}

/// What is done with the bytes of an inbound frame: they are a text frame, or
/// the stream is closed.
pub open spec fn on_inbound(bytes: Seq<u8>) -> StreamActionView {
    if valid_utf8(bytes) {
        StreamActionView::Receive(FrameView::Text(decode_utf8(bytes)))
    } else {
        StreamActionView::Close
    }
}

/// What is done with an outbound frame: text and binary frames are sent as
/// bytes, keepalives stay behind, and a close ends the stream.
pub open spec fn on_outbound(frame: FrameView) -> StreamActionView {
    match frame {
        FrameView::Text(payload) => StreamActionView::Send(encode_utf8(payload)),
        FrameView::Binary(bytes) => StreamActionView::Send(bytes),
        FrameView::Ping | FrameView::Pong => StreamActionView::Wait,
        FrameView::Close { .. } => StreamActionView::Close,
    }
}

/// What is done on `event`.
pub open spec fn stream_step(event: StreamEvent) -> StreamActionView {
    match event {
        StreamEvent::Inbound(Some(bytes)) => on_inbound(bytes@),
        StreamEvent::Inbound(None) => StreamActionView::Close,
        StreamEvent::Outbound(NextFrame::Frame(frame)) => on_outbound(frame@),
        StreamEvent::Outbound(NextFrame::Ended) => StreamActionView::Close,
        StreamEvent::Outbound(NextFrame::Wait) => StreamActionView::Wait,
        StreamEvent::Sent(true) => StreamActionView::Wait,
        StreamEvent::Sent(false) => StreamActionView::Close,
    }
}

/// One turn of the stream of a peer.
pub fn serve_stream(event: StreamEvent) -> (action: StreamAction)
    ensures
        action@ == stream_step(event),
{
    match event {
        StreamEvent::Inbound(Some(bytes)) => match text::text_from_utf8(bytes) {
            Some(payload) => StreamAction::Receive(RelayFrame::Text(payload)),
            None => StreamAction::Close,
        },
        StreamEvent::Inbound(None) => StreamAction::Close,
        StreamEvent::Outbound(NextFrame::Frame(frame)) => match frame {
            RelayFrame::Text(payload) => {
                let bytes = vstd::slice::slice_to_vec(payload.as_str().as_bytes());
                StreamAction::Send(bytes)
            },
            RelayFrame::Binary(bytes) => StreamAction::Send(bytes),
            RelayFrame::Ping => StreamAction::Wait,
            RelayFrame::Pong => StreamAction::Wait,
            RelayFrame::Close { .. } => StreamAction::Close,
        },
        StreamEvent::Outbound(NextFrame::Ended) => StreamAction::Close,
        StreamEvent::Outbound(NextFrame::Wait) => StreamAction::Wait,
        StreamEvent::Sent(true) => StreamAction::Wait,
        StreamEvent::Sent(false) => StreamAction::Close,
    }
}

/// A stream closes when it fails, when a frame could not be sent or is no text,
/// and when its connection has ended or closes, and goes on after anything else.
/// Binary frames are sent as they are, and keepalives are not sent.
pub proof fn streams_close_with_their_connection(
    bytes: Vec<u8>,
    frame: RelayFrame,
    ok: bool,
)
    ensures
        stream_step(StreamEvent::Inbound(None)) is Close,
        stream_step(StreamEvent::Inbound(Some(bytes))) is Close <==> !valid_utf8(bytes@),
        valid_utf8(bytes@) ==> stream_step(StreamEvent::Inbound(Some(bytes)))
            == StreamActionView::Receive(FrameView::Text(decode_utf8(bytes@))),
        stream_step(StreamEvent::Outbound(NextFrame::Ended)) is Close,
        stream_step(StreamEvent::Outbound(NextFrame::Wait)) is Wait,
        stream_step(StreamEvent::Outbound(NextFrame::Frame(frame))) is Close <==> frame@ is Close,
        stream_step(StreamEvent::Outbound(NextFrame::Frame(frame))) is Wait <==> frame@ is Ping
            || frame@ is Pong,
        frame@ matches FrameView::Binary(sent) ==> stream_step(
            StreamEvent::Outbound(NextFrame::Frame(frame)),
        ) == StreamActionView::Send(sent),
        frame@ matches FrameView::Text(sent) ==> stream_step(
            StreamEvent::Outbound(NextFrame::Frame(frame)),
        ) == StreamActionView::Send(encode_utf8(sent)),
        stream_step(StreamEvent::Sent(ok)) is Wait <==> ok,
        stream_step(StreamEvent::Sent(ok)) is Close <==> !ok,
{
}

/// A text frame that one end of a stream sends is the text frame that the other
/// end receives.
pub proof fn streams_carry_text_frames(payload: Seq<char>)
    ensures
        on_outbound(FrameView::Text(payload)) matches StreamActionView::Send(bytes)
            && on_inbound(bytes) == StreamActionView::Receive(FrameView::Text(payload)),
{
    encode_utf8_valid_utf8(payload);
    encode_utf8_decode_utf8(payload);
}

}
