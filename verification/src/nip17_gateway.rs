//! NIP-17 gateway boundary for tunneled relay frames.
//!
//! A transport adapter supplies serialized kind `1059` events as text frames,
//! dispatches their plaintext through a virtual relay connection, then sends
//! encrypted response frames through a public relay.

use vstd::prelude::*;
use vstd::string::*;

use crate::connection;
use crate::connection::VirtualConnection;
use crate::envelope;
use crate::envelope::{Keys, PublicKey, Rumor, UnwrappedGift};
use crate::protocol;
use crate::text;
use crate::transport::{FrameView, RelayFrame};

verus! {

/// Prefix for the per-client-launch NIP-17 session tag.
pub const SESSION_TAG_PREFIX: &'static str = "buzz-nip17-session:";

/// Decrypted request delivered by a NIP-17 gateway client.
#[derive(Debug, Clone, PartialEq, Eq)]
pub struct GatewayRequest {
    /// Verified public key that authored the inner NIP-59 seal and rumor.
    pub sender: PublicKey,
    /// Per-client-launch identity used to isolate replayed public envelopes.
    pub session_id: String,
    /// The plaintext request frame for the relay dispatcher.
    pub frame: RelayFrame,
}

/// The value of a [`GatewayRequest`].
pub struct RequestView {
    pub sender: Seq<u8>,
    pub session_id: Seq<char>,
    pub frame: FrameView,
}

impl View for GatewayRequest {
    type V = RequestView;

    open spec fn view(&self) -> RequestView {
        RequestView {
            sender: self.sender@,
            session_id: self.session_id@,
            frame: self.frame@,
        }
    }
}

/// Errors returned while translating NIP-17 envelopes to relay frames.
#[derive(Debug, Clone, PartialEq, Eq)]
pub enum GatewayError {
    /// The tunnel only carries text relay protocol frames.
    NonTextFrame,
    /// The configured frame limit cannot represent a relay frame.
    InvalidFrameLimit,
    /// A serialized outer event was invalid.
    InvalidEnvelope(String),
    /// Gift-wrap encryption or decryption failed.
    GiftWrap(String),
    /// The decrypted rumor was not a NIP-17 private direct message.
    InvalidRumorKind,
    /// The NIP-17 envelope did not identify a client launch session.
    MissingSessionTag,
    /// A decrypted or outgoing plaintext frame exceeded the configured limit.
    FrameTooLarge {
        /// Configured maximum frame size in bytes.
        max: usize,
        /// Actual UTF-8 byte size of the frame.
        got: usize,
    },
    /// A request arrived from a different NIP-17 sender than the session owner.
    SenderMismatch,
}

/// The value of a [`GatewayError`].
pub enum GatewayFailure {
    NonTextFrame,
    InvalidFrameLimit,
    InvalidEnvelope(Seq<char>),
    GiftWrap(Seq<char>),
    InvalidRumorKind,
    MissingSessionTag,
    FrameTooLarge { max: nat, got: nat },
    SenderMismatch,
}

impl View for GatewayError {
    type V = GatewayFailure;

    open spec fn view(&self) -> GatewayFailure {
        match self {
            GatewayError::NonTextFrame => GatewayFailure::NonTextFrame,
            GatewayError::InvalidFrameLimit => GatewayFailure::InvalidFrameLimit,
            GatewayError::InvalidEnvelope(error) => GatewayFailure::InvalidEnvelope(error@),
            GatewayError::GiftWrap(error) => GatewayFailure::GiftWrap(error@),
            GatewayError::InvalidRumorKind => GatewayFailure::InvalidRumorKind,
            GatewayError::MissingSessionTag => GatewayFailure::MissingSessionTag,
            GatewayError::FrameTooLarge { max, got } => GatewayFailure::FrameTooLarge {
                max: *max as nat,
                got: *got as nat,
            },
            GatewayError::SenderMismatch => GatewayFailure::SenderMismatch,
        }
    }
}

/// What a reader is told of a gateway failure.
pub open spec fn failure_message(failure: GatewayFailure) -> Seq<char> {
    match failure {
        GatewayFailure::NonTextFrame => "NIP-17 gateway requires a text relay frame"@,
        GatewayFailure::InvalidFrameLimit =>
            "NIP-17 gateway frame limit must be greater than zero"@,
        GatewayFailure::InvalidEnvelope(error) => "invalid NIP-17 envelope: "@ + error,
        GatewayFailure::GiftWrap(error) => "NIP-59 gift-wrap error: "@ + error,
        GatewayFailure::InvalidRumorKind => "NIP-17 gift-wrap rumor must be kind 14"@,
        GatewayFailure::MissingSessionTag => "NIP-17 gift-wrap rumor is missing a session tag"@,
        GatewayFailure::FrameTooLarge { max, got } => "NIP-17 gateway frame exceeds "@
            + text::decimal(max) + " bytes (got "@ + text::decimal(got) + ")"@,
        GatewayFailure::SenderMismatch =>
            "NIP-17 gateway sender does not match the authenticated session"@,
    }
}

/// A reader is told what failed, with the reason of what was called and with both
/// sizes of a frame that is too large.
pub proof fn failures_are_told_with_their_reason(error: Seq<char>, max: nat, got: nat)
    ensures
        failure_message(GatewayFailure::NonTextFrame)
            == "NIP-17 gateway requires a text relay frame"@,
        failure_message(GatewayFailure::InvalidFrameLimit)
            == "NIP-17 gateway frame limit must be greater than zero"@,
        failure_message(GatewayFailure::InvalidEnvelope(error)) == "invalid NIP-17 envelope: "@
            + error,
        failure_message(GatewayFailure::GiftWrap(error)) == "NIP-59 gift-wrap error: "@ + error,
        failure_message(GatewayFailure::InvalidRumorKind)
            == "NIP-17 gift-wrap rumor must be kind 14"@,
        failure_message(GatewayFailure::MissingSessionTag)
            == "NIP-17 gift-wrap rumor is missing a session tag"@,
        failure_message(GatewayFailure::FrameTooLarge { max, got })
            == "NIP-17 gateway frame exceeds "@ + text::decimal(max) + " bytes (got "@
            + text::decimal(got) + ")"@,
        failure_message(GatewayFailure::SenderMismatch)
            == "NIP-17 gateway sender does not match the authenticated session"@,
{
}

impl GatewayError {
    /// What a reader is told of the failure.
    pub fn message(&self) -> (message: String)
        ensures
            message@ == failure_message(self@),
    {
        match self {
            GatewayError::NonTextFrame => "NIP-17 gateway requires a text relay frame".to_owned(),
            GatewayError::InvalidFrameLimit =>
                "NIP-17 gateway frame limit must be greater than zero".to_owned(),
            GatewayError::InvalidEnvelope(error) => text::join2(
                "invalid NIP-17 envelope: ",
                error.as_str(),
            ),
            GatewayError::GiftWrap(error) => text::join2("NIP-59 gift-wrap error: ", error.as_str()),
            GatewayError::InvalidRumorKind => "NIP-17 gift-wrap rumor must be kind 14".to_owned(),
            GatewayError::MissingSessionTag =>
                "NIP-17 gift-wrap rumor is missing a session tag".to_owned(),
            GatewayError::FrameTooLarge { max, got } => {
                let mut message = text::join2(
                    "NIP-17 gateway frame exceeds ",
                    text::decimal_text(*max as u64).as_str(),
                );
                message.append(" bytes (got ");
                message.append(text::decimal_text(*got as u64).as_str());
                message.append(")");
                message
            },
            GatewayError::SenderMismatch =>
                "NIP-17 gateway sender does not match the authenticated session".to_owned(),
        }
    }
}

/// The value of a gateway operation's outcome.
pub open spec fn outcome(result: Result<GatewayRequest, GatewayError>) -> Result<
    RequestView,
    GatewayFailure,
> {
    match result {
        Ok(request) => Ok(request@),
        Err(error) => Err(error@),
    }
}

/// The session that a tag names: a `t` tag whose value carries the session
/// prefix followed by a non-empty identifier.
pub open spec fn session_of_tag(tag: Seq<Seq<char>>) -> Option<Seq<char>> {
    if tag.len() >= 2 && tag[0] == "t"@ && text::has_prefix(tag[1], SESSION_TAG_PREFIX@)
        && text::after_prefix(tag[1], SESSION_TAG_PREFIX@).len() > 0 {
        Some(text::after_prefix(tag[1], SESSION_TAG_PREFIX@))
    } else {
        None
    }
}

/// The session that the first session tag names.
pub open spec fn session_of(tags: Seq<Seq<Seq<char>>>) -> Option<Seq<char>>
    decreases tags.len(),
{
    if tags.len() == 0 {
        None
    } else if session_of_tag(tags[0]) is Some {
        session_of_tag(tags[0])
    } else {
        session_of(tags.drop_first())
    }
}

/// The `t` tag that names `session`.
pub open spec fn session_tag(session: Seq<char>) -> Seq<Seq<char>> {
    seq!["t"@, SESSION_TAG_PREFIX@ + session]
}

/// The rumor that carries `content` to `recipient` in `session`.
pub open spec fn frame_rumor(
    recipient: Seq<u8>,
    session: Seq<char>,
    content: Seq<char>,
) -> envelope::RumorView {
    envelope::RumorView {
        kind: envelope::PRIVATE_DIRECT_MESSAGE_KIND,
        tags: seq![envelope::recipient_tag(recipient), session_tag(session)],
        content,
    }
}

/// The request that an opened gift wrap carries, under a frame limit.
pub open spec fn request_of_gift(gift: envelope::GiftView, max: nat) -> Result<
    RequestView,
    GatewayFailure,
> {
    let size = text::utf8_len(gift.rumor.content);
    if gift.rumor.kind != envelope::PRIVATE_DIRECT_MESSAGE_KIND {
        Err(GatewayFailure::InvalidRumorKind)
    } else if size > max {
        Err(GatewayFailure::FrameTooLarge { max, got: size })
    } else {
        match session_of(gift.rumor.tags) {
            Some(session_id) => Ok(
                RequestView {
                    sender: gift.sender,
                    session_id,
                    frame: FrameView::Text(gift.rumor.content),
                },
            ),
            None => Err(GatewayFailure::MissingSessionTag),
        }
    }
}

/// The request that the holder of `secret` reads from an envelope.
pub open spec fn request_of_envelope(secret: Seq<u8>, max: nat, envelope: FrameView) -> Result<
    RequestView,
    GatewayFailure,
> {
    match envelope {
        FrameView::Text(json) => match envelope::event_of_json(json) {
            Ok(event) => match envelope::gift_of(secret, event) {
                Ok(gift) => request_of_gift(gift, max),
                Err(error) => Err(GatewayFailure::GiftWrap(error)),
            },
            Err(error) => Err(GatewayFailure::InvalidEnvelope(error)),
        },
        _ => Err(GatewayFailure::NonTextFrame),
    }
}

/// What an authenticated session makes of a request: once a session has an
/// owner, requests of other senders are refused.
pub open spec fn admitted(
    owner: Option<Seq<u8>>,
    request: Result<RequestView, GatewayFailure>,
) -> Result<RequestView, GatewayFailure> {
    match request {
        Ok(request) if owner is Some && owner != Some(request.sender) => Err(
            GatewayFailure::SenderMismatch,
        ),
        _ => request,
    }
}

/// What the holder of `secret` may make of a response to `sender` in
/// `session`: an envelope of the response frame for that sender, or an error.
/// A response to a key is sure to be wrapped unless it is too large for NIP-44,
/// and one that is too large never is.
pub open spec fn response_wrapped(
    secret: Seq<u8>,
    max: nat,
    sender: Seq<u8>,
    session: Seq<char>,
    response: FrameView,
    envelope: Result<RelayFrame, GatewayError>,
) -> bool {
    match response {
        FrameView::Text(content) => {
            let size = text::utf8_len(content);
            if size > max {
                envelope matches Err(error) && error@ == (GatewayFailure::FrameTooLarge {
                    max,
                    got: size,
                })
            } else {
                match envelope {
                    Ok(frame) => {
                        &&& frame@ matches FrameView::Text(json)
                        &&& envelope::wrapped_for(
                            secret,
                            sender,
                            frame_rumor(sender, session, content),
                            json,
                        )
                        &&& envelope::ever_wrapped(
                            envelope::public_key_of(secret)->Some_0,
                            sender,
                            frame_rumor(sender, session, content),
                        )
                    },
                    Err(error) => {
                        &&& error@ is GiftWrap
                        &&& !envelope::surely_wrapped(
                            sender,
                            frame_rumor(sender, session, content),
                        )
                    },
                }
            }
        },
        _ => envelope matches Err(error) && error@ == GatewayFailure::NonTextFrame,
    }
}

/// Whether `tag` names the session `id`: a `t` tag with the session prefix and
/// that identifier, which is not empty.
pub open spec fn names_session(tag: Seq<Seq<char>>, id: Seq<char>) -> bool {
    tag.len() >= 2 && tag[0] == "t"@ && tag[1] == "buzz-nip17-session:"@ + id && id.len() > 0
}

/// The first tag that names a session counts, wherever it stands and whatever
/// else is tagged; without one there is no session.
pub proof fn the_first_session_tag_counts(tags: Seq<Seq<Seq<char>>>)
    ensures
        session_of(tags) matches Some(id) ==> exists|i: int|
            {
                &&& 0 <= i < tags.len()
                &&& #[trigger] names_session(tags[i], id)
                &&& forall|j: int, other: Seq<char>|
                    0 <= j < i ==> !#[trigger] names_session(tags[j], other)
            },
        session_of(tags) is None ==> forall|j: int, other: Seq<char>|
            0 <= j < tags.len() ==> !#[trigger] names_session(tags[j], other),
    decreases tags.len(),
{
    if tags.len() > 0 {
        lemma_session_tag(tags[0]);
        let rest = tags.drop_first();
        the_first_session_tag_counts(rest);
        if session_of_tag(tags[0]) is None {
            assert forall|j: int, other: Seq<char>| 0 < j < tags.len() implies names_session(
                tags[j],
                other,
            ) == #[trigger] names_session(rest[j - 1], other) by {}
            if let Some(id) = session_of(tags) {
                let i = choose|i: int|
                    {
                        &&& 0 <= i < rest.len()
                        &&& #[trigger] names_session(rest[i], id)
                        &&& forall|j: int, other: Seq<char>|
                            0 <= j < i ==> !#[trigger] names_session(rest[j], other)
                    };
                assert(names_session(tags[i + 1], id));
                assert forall|j: int, other: Seq<char>| 0 <= j < i + 1 implies !#[trigger]
                names_session(tags[j], other) by {
                    if j > 0 {
                        assert(!names_session(rest[j - 1], other));
                    }
                }
            } else {
                assert forall|j: int, other: Seq<char>| 0 <= j < tags.len() implies !#[trigger]
                names_session(tags[j], other) by {
                    if j > 0 {
                        assert(!names_session(rest[j - 1], other));
                    }
                }
            }
        } else {
            assert(names_session(tags[0], session_of(tags)->Some_0));
        }
    }
}

proof fn lemma_session_tag(tag: Seq<Seq<char>>)
    ensures
        session_of_tag(tag) matches Some(id) ==> names_session(tag, id),
        session_of_tag(tag) is None ==> forall|id: Seq<char>| !#[trigger] names_session(tag, id),
{
    let prefix = "buzz-nip17-session:"@;
    reveal_strlit("buzz-nip17-session:");
    if tag.len() >= 2 {
        if text::has_prefix(tag[1], prefix) {
            assert(tag[1] =~= prefix + tag[1].skip(prefix.len() as int));
        }
        assert forall|id: Seq<char>| #[trigger] names_session(tag, id) implies session_of_tag(tag)
            == Some(id) by {
            assert((prefix + id).take(prefix.len() as int) =~= prefix);
            assert((prefix + id).skip(prefix.len() as int) =~= id);
        }
    }
}

/// A gift is a request exactly if it is a private direct message, keeps the
/// frame limit in bytes and names a session; it then is the sender's, in that
/// session, with the content as it is. Else the first of the three that is
/// missing is reported.
pub proof fn requests_are_read_from_gifts(gift: envelope::GiftView, max: nat)
    ensures
        ({
            let request = request_of_gift(gift, max);
            let size = text::utf8_len(gift.rumor.content);
            let session = session_of(gift.rumor.tags);
            &&& request is Ok <==> gift.rumor.kind == 14 && size <= max && session is Some
            &&& request matches Ok(request) ==> {
                &&& request.sender == gift.sender
                &&& Some(request.session_id) == session
                &&& request.frame == FrameView::Text(gift.rumor.content)
            }
            &&& gift.rumor.kind != 14 ==> request == Err::<RequestView, GatewayFailure>(
                GatewayFailure::InvalidRumorKind,
            )
            &&& gift.rumor.kind == 14 && size > max ==> request == Err::<
                RequestView,
                GatewayFailure,
            >(GatewayFailure::FrameTooLarge { max, got: size })
            &&& gift.rumor.kind == 14 && size <= max && session is None ==> request == Err::<
                RequestView,
                GatewayFailure,
            >(GatewayFailure::MissingSessionTag)
        }),
{
}

/// An envelope is read by the holder of the key that it was wrapped for, and
/// what keeps it from being read is reported as it is: that it is no text, no
/// event, or no gift for this key.
pub proof fn envelopes_are_opened_before_they_are_read(
    secret: Seq<u8>,
    max: nat,
    json: Seq<char>,
    other: FrameView,
)
    requires
        other !is Text,
    ensures
        request_of_envelope(secret, max, other) == Err::<RequestView, GatewayFailure>(
            GatewayFailure::NonTextFrame,
        ),
        ({
            let request = request_of_envelope(secret, max, FrameView::Text(json));
            match envelope::event_of_json(json) {
                Err(error) => request == Err::<RequestView, GatewayFailure>(
                    GatewayFailure::InvalidEnvelope(error),
                ),
                Ok(event) => match envelope::gift_of(secret, event) {
                    Err(error) => request == Err::<RequestView, GatewayFailure>(
                        GatewayFailure::GiftWrap(error),
                    ),
                    Ok(gift) => request == request_of_gift(gift, max),
                },
            }
        }),
{
}

/// Anybody is served before a session has an owner, and its owner alone from
/// then on; a request that could not be read stays unread.
pub proof fn owners_alone_are_admitted(
    owner: Option<Seq<u8>>,
    request: Result<RequestView, GatewayFailure>,
)
    ensures
        request matches Ok(read) ==> (admitted(owner, request) is Ok <==> owner is None || owner
            == Some(read.sender)),
        admitted(owner, request) is Ok ==> admitted(owner, request) == request,
        request matches Ok(read) ==> admitted(owner, request) is Err ==> admitted(owner, request)
            == Err::<RequestView, GatewayFailure>(GatewayFailure::SenderMismatch),
        request is Err ==> admitted(owner, request) == request,
{
}

/// A response that is no text, or is over the frame limit in bytes, is refused
/// as such; any other is wrapped for the sender with its content and session, or
/// fails for its encryption alone.
pub proof fn responses_are_refused_by_form_and_size(
    secret: Seq<u8>,
    max: nat,
    sender: Seq<u8>,
    session: Seq<char>,
    response: FrameView,
    envelope: Result<RelayFrame, GatewayError>,
)
    requires
        response_wrapped(secret, max, sender, session, response, envelope),
    ensures
        response !is Text ==> {
            &&& envelope matches Err(error)
            &&& error@ == GatewayFailure::NonTextFrame
        },
        response matches FrameView::Text(content) ==> {
            let size = text::utf8_len(content);
            &&& size > max ==> {
                &&& envelope matches Err(error)
                &&& error@ == (GatewayFailure::FrameTooLarge { max, got: size })
            }
            &&& size <= max ==> (envelope matches Err(error) ==> error@ is GiftWrap)
            &&& envelope matches Ok(frame) ==> {
                &&& frame@ matches FrameView::Text(json)
                &&& envelope::wrapped_for(
                    secret,
                    sender,
                    (envelope::RumorView {
                        kind: 14,
                        tags: seq![
                            seq!["p"@, text::hex(sender)],
                            seq!["t"@, "buzz-nip17-session:"@ + session],
                        ],
                        content,
                    }),
                    json,
                )
            }
        },
{
    if let FrameView::Text(content) = response {
        assert(frame_rumor(sender, session, content).tags =~= seq![
            seq!["p"@, text::hex(sender)],
            seq!["t"@, "buzz-nip17-session:"@ + session],
        ]);
    }
}

/// The session that a tag names.
fn tag_session(tag: &Vec<String>) -> (session: Option<String>)
    ensures
        text::opt_text(session) == session_of_tag(text::texts(tag@)),
{
    if tag.len() < 2 {
        return None;
    }
    assert(text::texts(tag@)[0] == tag@[0]@);
    assert(text::texts(tag@)[1] == tag@[1]@);
    if !text::text_eq(tag[0].as_str(), "t") {
        return None;
    }
    match text::strip_prefix(tag[1].as_str(), SESSION_TAG_PREFIX) {
        Some(value) => {
            if value.is_empty() {
                None
            } else {
                Some(value.to_owned())
            }
        },
        None => None,
    }
}

/// The session that the first session tag names.
pub fn find_session(tags: &Vec<Vec<String>>) -> (session: Option<String>)
    ensures
        text::opt_text(session) == session_of(envelope::tag_views(tags@)),
{
    let ghost views = envelope::tag_views(tags@);
    let mut i: usize = 0;
    assert(views.skip(0) =~= views);
    while i < tags.len()
        invariant
            i <= tags.len(),
            views == envelope::tag_views(tags@),
            session_of(views.skip(i as int)) == session_of(views),
        decreases tags.len() - i,
    {
        assert(views.skip(i as int)[0] == text::texts(tags@[i as int]@));
        assert(views.skip(i as int).drop_first() =~= views.skip(i + 1));
        let session = tag_session(&tags[i]);
        if session.is_some() {
            return session;
        }
        i += 1;
    }
    None
}

/// The rumor that carries `content` to `recipient` in `session_id`.
pub fn build_frame_rumor(recipient: &PublicKey, session_id: &str, content: String) -> (rumor: Rumor)
    ensures
        rumor@ == frame_rumor(recipient@, session_id@, content@),
{
    let mut recipient_tag: Vec<String> = Vec::new();
    recipient_tag.push("p".to_owned());
    recipient_tag.push(recipient.to_hex());
    assert(text::texts(recipient_tag@) =~= envelope::recipient_tag(recipient@));
    let mut session_tag: Vec<String> = Vec::new();
    session_tag.push("t".to_owned());
    session_tag.push(text::join2(SESSION_TAG_PREFIX, session_id));
    assert(text::texts(session_tag@) =~= self::session_tag(session_id@));
    let mut tags: Vec<Vec<String>> = Vec::new();
    tags.push(recipient_tag);
    tags.push(session_tag);
    assert(envelope::tag_views(tags@) =~= frame_rumor(recipient@, session_id@, content@).tags);
    Rumor { kind: envelope::PRIVATE_DIRECT_MESSAGE_KIND, tags, content }
}

/// The envelope of a response, or the failure to encrypt it.
pub fn wrapped_response(wrapped: Result<String, String>) -> (envelope: Result<
    RelayFrame,
    GatewayError,
>)
    ensures
        match wrapped {
            Ok(json) => envelope == Ok::<RelayFrame, GatewayError>(RelayFrame::Text(json)),
            Err(error) => envelope == Err::<RelayFrame, GatewayError>(
                GatewayError::GiftWrap(error),
            ),
        },
{
    match wrapped {
        Ok(json) => Ok(RelayFrame::Text(json)),
        Err(error) => Err(GatewayError::GiftWrap(error)),
    }
}

proof fn lemma_hex_is_plain(bytes: Seq<u8>)
    ensures
        protocol::json_size(text::hex(bytes)) == 2 * bytes.len() + 2,
{
    let hex = text::hex(bytes);
    assert forall|i: int| 0 <= i < hex.len() implies protocol::is_plain(#[trigger] hex[i]) by {
        let byte = bytes[i / 2];
        assert(byte / 16 < 16 && byte % 16 < 16);
    }
    protocol::plain_texts_keep_their_size(hex);
}

proof fn lemma_prefix_is_plain(session: Seq<char>)
    ensures
        protocol::json_size(SESSION_TAG_PREFIX@ + session) == 19 + protocol::json_size(session),
{
    let prefix = SESSION_TAG_PREFIX@;
    reveal_strlit("buzz-nip17-session:");
    assert forall|i: int| 0 <= i < prefix.len() implies protocol::is_plain(#[trigger] prefix[i]) by {
        assert(prefix == seq![
            'b', 'u', 'z', 'z', '-', 'n', 'i', 'p', '1', '7', '-', 's', 'e', 's', 's', 'i', 'o',
            'n', ':',
        ]);
    }
    protocol::plain_texts_keep_their_size(prefix);
    protocol::json_sizes_add_up(prefix, session);
}

/// A frame is sure to be wrapped for a key exactly if it takes, as a JSON
/// string and together with the session identifier, no more than 40648 bytes.
pub proof fn frames_within_the_bound_are_wrapped(
    key: Seq<u8>,
    session: Seq<char>,
    content: Seq<char>,
)
    requires
        envelope::is_key(key),
        key.len() == 32,
    ensures
        envelope::surely_wrapped(key, frame_rumor(key, session, content)) <==> protocol::json_size(
            session,
        ) + protocol::json_size(content) <= 40_648,
{
    let rumor = frame_rumor(key, session, content);
    let first = envelope::recipient_tag(key);
    let second = session_tag(session);
    reveal_strlit("p");
    reveal_strlit("t");
    assert(protocol::is_plain('p') && protocol::is_plain('t'));
    protocol::plain_texts_keep_their_size("p"@);
    protocol::plain_texts_keep_their_size("t"@);
    lemma_hex_is_plain(key);
    lemma_prefix_is_plain(session);
    assert(rumor.tags.drop_last() =~= seq![first]);
    assert(first.drop_last() =~= seq!["p"@]);
    assert(second.drop_last() =~= seq!["t"@]);
    reveal_with_fuel(envelope::tag_json_size, 2);
    reveal_with_fuel(envelope::tags_json_size, 2);
    reveal_with_fuel(text::decimal, 2);
    assert(envelope::tag_json_size(first) == 72);
    assert(envelope::tag_json_size(second) == 25 + protocol::json_size(session));
    assert(text::decimal(14).len() == 2);
    assert(envelope::tags_have_names(rumor.tags));
}

/// A frame of up to 6700 bytes, with a session identifier of no more than 40, is
/// sure to be wrapped for any key, whatever its characters are.
pub proof fn short_frames_are_wrapped(key: Seq<u8>, session: Seq<char>, content: Seq<char>)
    requires
        envelope::is_key(key),
        key.len() == 32,
        text::utf8_len(session) <= 40,
        text::utf8_len(content) <= 6_700,
    ensures
        envelope::surely_wrapped(key, frame_rumor(key, session, content)),
{
    protocol::json_size_is_bounded(session);
    protocol::json_size_is_bounded(content);
    frames_within_the_bound_are_wrapped(key, session, content);
}

/// Minimal NIP-17 request/response envelope translator.
#[derive(Clone, Copy)]
pub struct Nip17Gateway {
    keys: Keys,
    max_frame_bytes: usize,
}

impl Nip17Gateway {
    /// The secret key of the gateway identity.
    pub closed spec fn secret(&self) -> Seq<u8> {
        self.keys.secret()
    }

    /// The plaintext frame limit in bytes.
    pub closed spec fn limit(&self) -> nat {
        self.max_frame_bytes as nat
    }

    /// Creates a gateway for the recipient identity and plaintext frame limit.
    pub fn new(keys: Keys, max_frame_bytes: usize) -> (gateway: Result<Self, GatewayError>)
        ensures
            match gateway {
                Ok(gateway) => max_frame_bytes > 0 && gateway.secret() == keys.secret()
                    && gateway.limit() == max_frame_bytes,
                Err(error) => max_frame_bytes == 0 && error@ == GatewayFailure::InvalidFrameLimit,
            },
    {
        if max_frame_bytes == 0 {
            return Err(GatewayError::InvalidFrameLimit);
        }
        Ok(Nip17Gateway { keys, max_frame_bytes })
    }

    /// The public key of the gateway identity.
    pub fn public_key(&self) -> (public: PublicKey)
        ensures
            envelope::public_key_of(self.secret()) == Some(public@),
    {
        self.keys.public_key()
    }

    fn check_frame_size(&self, frame: &str) -> (result: Result<(), GatewayError>)
        ensures
            match result {
                Ok(_) => text::utf8_len(frame@) <= self.limit(),
                Err(error) => text::utf8_len(frame@) > self.limit() && error@
                    == (GatewayFailure::FrameTooLarge {
                    max: self.limit(),
                    got: text::utf8_len(frame@),
                }),
            },
    {
        let got: usize = text::byte_len(frame);
        if got > self.max_frame_bytes {
            return Err(GatewayError::FrameTooLarge { max: self.max_frame_bytes, got });
        }
        Ok(())
    }

    /// Reads the relay request that an opened gift wrap carries.
    pub fn accept_gift(&self, gift: UnwrappedGift) -> (request: Result<
        GatewayRequest,
        GatewayError,
    >)
        ensures
            outcome(request) == request_of_gift(gift@, self.limit()),
    {
        if gift.rumor.kind != envelope::PRIVATE_DIRECT_MESSAGE_KIND {
            return Err(GatewayError::InvalidRumorKind);
        }
        match self.check_frame_size(gift.rumor.content.as_str()) {
            Ok(_) => {},
            Err(error) => {
                return Err(error);
            },
        }
        match find_session(&gift.rumor.tags) {
            Some(session_id) => Ok(
                GatewayRequest {
                    sender: gift.sender,
                    session_id,
                    frame: RelayFrame::Text(gift.rumor.content),
                },
            ),
            None => Err(GatewayError::MissingSessionTag),
        }
    }

    /// Decrypts a serialized kind `1059` event into its inner relay request.
    ///
    /// The input is an event JSON text frame, not an `EVENT` array. The
    /// public-relay adapter owns the subscription and publish wire messages.
    pub fn unwrap_request(&self, envelope: RelayFrame) -> (request: Result<
        GatewayRequest,
        GatewayError,
    >)
        ensures
            outcome(request) == request_of_envelope(self.secret(), self.limit(), envelope@),
            request matches Ok(request) ==> envelope::is_key(request.sender@),
    {
        match envelope {
            RelayFrame::Text(json) => {
                match envelope::parse_event(json.as_str()) {
                    Ok(_) => {},
                    Err(error) => {
                        return Err(GatewayError::InvalidEnvelope(error));
                    },
                }
                match self.keys.open(json.as_str()) {
                    Ok(gift) => self.accept_gift(gift),
                    Err(error) => Err(GatewayError::GiftWrap(error)),
                }
            },
            _ => Err(GatewayError::NonTextFrame),
        }
    }

    /// Prepares the rumor that carries a text relay response to the sender of
    /// `request`.
    pub fn prepare_response(&self, request: &GatewayRequest, response: RelayFrame) -> (rumor: Result<
        Rumor,
        GatewayError,
    >)
        ensures
            match response@ {
                FrameView::Text(content) => if text::utf8_len(content) > self.limit() {
                    rumor matches Err(error) && error@ == (GatewayFailure::FrameTooLarge {
                        max: self.limit(),
                        got: text::utf8_len(content),
                    })
                } else {
                    rumor matches Ok(rumor) && rumor@ == frame_rumor(
                        request.sender@,
                        request.session_id@,
                        content,
                    )
                },
                _ => rumor matches Err(error) && error@ == GatewayFailure::NonTextFrame,
            },
    {
        match response {
            RelayFrame::Text(content) => match self.check_frame_size(content.as_str()) {
                Ok(_) => Ok(
                    build_frame_rumor(&request.sender, request.session_id.as_str(), content),
                ),
                Err(error) => Err(error),
            },
            _ => Err(GatewayError::NonTextFrame),
        }
    }

    /// Encrypts a text relay response to the sender of `request`.
    ///
    /// The result is a serialized kind `1059` event. A public-relay adapter
    /// publishes it using its own `EVENT` command framing.
    pub fn wrap_response(&self, request: &GatewayRequest, response: RelayFrame) -> (envelope:
        Result<RelayFrame, GatewayError>)
        ensures
            response_wrapped(
                self.secret(),
                self.limit(),
                request.sender@,
                request.session_id@,
                response@,
                envelope,
            ),
    {
        match self.prepare_response(request, response) {
            Ok(rumor) => wrapped_response(self.keys.wrap(&request.sender, &rumor)),
            Err(error) => Err(error),
        }
    }

    /// Decrypts an envelope and hands its plaintext to a virtual relay
    /// connection. Gives the request, and the text that the protocol handlers
    /// are to serve.
    ///
    /// Responses remain available from [`VirtualConnection::next_frame`], so
    /// that adapters can preserve normal relay response ordering before wrapping
    /// each frame with [`Self::wrap_response`].
    ///
    /// The first frame is normally AUTH, before the virtual session has an
    /// owner. Once authenticated, each envelope must stay bound to that seal
    /// author.
    pub fn dispatch_envelope(
        &self,
        connection: &mut VirtualConnection,
        envelope: RelayFrame,
        max_frame_bytes: usize,
    ) -> (dispatched: Result<(GatewayRequest, Option<String>), GatewayError>)
        requires
            self.limit() > max_frame_bytes ==> old(connection).conn.backpressure_count < u8::MAX,
        ensures
            ({
                let request = admitted(
                    old(connection).conn.auth_state.identity(),
                    request_of_envelope(self.secret(), self.limit(), envelope@),
                );
                match dispatched {
                    Ok((read, message)) => {
                        &&& request == Ok::<RequestView, GatewayFailure>(read@)
                        &&& connection::received_by(
                            connection::frame_action(read.frame@, max_frame_bytes as nat),
                            old(connection).conn,
                            final(connection).conn,
                            message,
                        )
                    },
                    Err(error) => {
                        &&& request == Err::<RequestView, GatewayFailure>(error@)
                        &&& final(connection).conn == old(connection).conn
                    },
                }
            }),
            final(connection).conn.same_identity(&old(connection).conn),
            final(connection).data_rx == old(connection).data_rx,
            final(connection).ctrl_rx == old(connection).ctrl_rx,
            old(connection).joined() ==> final(connection).joined(),
    {
        let request = match self.unwrap_request(envelope) {
            Ok(request) => request,
            Err(error) => {
                return Err(error);
            },
        };
        if !connection.is_authenticated_as(request.sender.bytes.as_slice()) {
            if connection.is_authenticated() {
                return Err(GatewayError::SenderMismatch);
            }
        }
        let message = connection.receive_frame(request.frame.duplicate(), max_frame_bytes);
        Ok((request, message))
    }
}

}
