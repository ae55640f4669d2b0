//! Nostr events and NIP-59 gift wraps as plain values.
//!
//! Signing, encryption and event parsing are done by the `nostr` crate. This
//! module holds what the rest of the library reads of an event, and the few
//! facts about gift wraps that its guarantees rest on.

use futures_util::FutureExt;
use nostr::{EventBuilder, JsonUtil, Tag};
use vstd::prelude::*;

use crate::protocol;
use crate::text;

verus! {

/// Event kind of a NIP-59 gift wrap.
pub const GIFT_WRAP_KIND: u16 = 1059;

/// Event kind of a NIP-17 private direct message.
pub const PRIVATE_DIRECT_MESSAGE_KIND: u16 = 14;

/// A Nostr public key.
#[derive(Debug, Clone, Copy, PartialEq, Eq)]
pub struct PublicKey {
    /// The x-only key.
    pub bytes: [u8; 32],
}

impl View for PublicKey {
    type V = Seq<u8>;

    open spec fn view(&self) -> Seq<u8> {
        self.bytes@
    }
}

impl PublicKey {
    /// Whether both are the same key.
    pub fn same(&self, other: &PublicKey) -> (same: bool)
        ensures
            same == (self@ == other@),
    {
        text::bytes_eq(self.bytes.as_slice(), other.bytes.as_slice())
    }

    /// The key in lower-case hexadecimal.
    pub fn to_hex(&self) -> (hex: String)
        ensures
            hex@ == text::hex(self@),
    {
        text::hex_text(self.bytes.as_slice())
    }
}

/// The public key that belongs to a secret key, for byte strings that are one.
pub uninterp spec fn public_key_of(secret: Seq<u8>) -> Option<Seq<u8>>;

/// Whether `key` is somebody's public key.
pub open spec fn is_key(key: Seq<u8>) -> bool {
    exists|holder: Seq<u8>| #[trigger] public_key_of(holder) == Some(key)
}

/// The secret key that a key text stands for, or why it stands for none.
pub uninterp spec fn secret_of_text(key: Seq<char>) -> Result<Seq<u8>, Seq<char>>;

/// The public key that a key text stands for, for texts that stand for one.
pub uninterp spec fn public_key_of_text(key: Seq<char>) -> Option<Seq<u8>>;

/// Derives the public key of `secret`.
///
/// Calls `nostr::SecretKey::from_slice` and `nostr::Keys::new`, whose result is
/// a function of the secret bytes.
#[verifier::external_body]
fn derive_public_key(secret: &[u8; 32]) -> (public: Option<PublicKey>)
    ensures
        public is Some <==> public_key_of(secret@) is Some,
        public matches Some(public) ==> public_key_of(secret@) == Some(public@),
{
    let secret = nostr::SecretKey::from_slice(secret).ok()?;
    Some(PublicKey { bytes: nostr::Keys::new(secret).public_key().to_bytes() })
}

/// Reads a secret key in hexadecimal or `nsec` notation.
///
/// Calls `nostr::Keys::parse`. What it accepts is a usable secret key, and the
/// hexadecimal notation of a usable secret key is accepted as that key.
#[verifier::external_body]
fn parse_secret(key: &str) -> (secret: Result<[u8; 32], String>)
    ensures
        match secret {
            Ok(secret) => secret_of_text(key@) == Ok::<Seq<u8>, Seq<char>>(secret@)
                && public_key_of(secret@) is Some,
            Err(error) => secret_of_text(key@) == Err::<Seq<u8>, Seq<char>>(error@),
        },
        forall|usable: Seq<u8>|
            public_key_of(usable) is Some && key@ == #[trigger] text::hex(usable) ==> (
            secret matches Ok(secret) && secret@ == usable),
{
    let keys = nostr::Keys::parse(key).map_err(|error| error.to_string())?;
    Ok(keys.secret_key().to_secret_bytes())
}

/// Draws a new secret key.
///
/// Calls `nostr::Keys::generate`, which yields a usable secret key.
#[verifier::external_body]
fn generate_secret() -> (secret: [u8; 32])
    ensures
        public_key_of(secret@) is Some,
{
    nostr::Keys::generate().secret_key().to_secret_bytes()
}

/// Reads a public key in hexadecimal, `npub` or NIP-21 notation.
///
/// Calls `nostr::PublicKey::parse`, whose result is a function of the text.
#[verifier::external_body]
fn parse_public_key(key: &str) -> (public: Option<PublicKey>)
    ensures
        public is Some <==> public_key_of_text(key@) is Some,
        public matches Some(public) ==> public_key_of_text(key@) == Some(public@),
{
    nostr::PublicKey::parse(key).ok().map(|key| PublicKey { bytes: key.to_bytes() })
}

impl PublicKey {
    /// Reads a public key in hexadecimal, `npub` or NIP-21 notation.
    pub fn parse(key: &str) -> (public: Option<PublicKey>)
        ensures
            public is Some <==> public_key_of_text(key@) is Some,
            public matches Some(public) ==> public_key_of_text(key@) == Some(public@),
    {
        parse_public_key(key)
    }
}

/// A usable key pair.
#[derive(Clone, Copy)]
pub struct Keys {
    secret: [u8; 32],
    public: PublicKey,
}

impl Keys {
    #[verifier::type_invariant]
    spec fn paired(self) -> bool {
        public_key_of(self.secret@) == Some(self.public@)
    }

    /// The secret half.
    pub closed spec fn secret(&self) -> Seq<u8> {
        self.secret@
    }

    /// The public half.
    pub open spec fn public(&self) -> Seq<u8> {
        public_key_of(self.secret())->Some_0
    }

    /// The key pair of `secret`, unless those bytes are no secret key.
    pub fn from_secret(secret: [u8; 32]) -> (keys: Option<Keys>)
        ensures
            keys is Some <==> public_key_of(secret@) is Some,
            keys matches Some(keys) ==> keys.secret() == secret@,
    {
        match derive_public_key(&secret) {
            Some(public) => Some(Keys { secret, public }),
            None => None,
        }
    }

    /// Reads a secret key in hexadecimal or `nsec` notation.
    pub fn parse(key: &str) -> (keys: Result<Keys, String>)
        ensures
            match keys {
                Ok(keys) => secret_of_text(key@) == Ok::<Seq<u8>, Seq<char>>(keys.secret()),
                Err(error) => secret_of_text(key@) == Err::<Seq<u8>, Seq<char>>(error@),
            },
            forall|usable: Seq<u8>|
                public_key_of(usable) is Some && key@ == #[trigger] text::hex(usable) ==> (
                keys matches Ok(keys) && keys.secret() == usable),
    {
        match parse_secret(key) {
            Ok(secret) => {
                let public = derive_public_key(&secret).unwrap();
                Ok(Keys { secret, public })
            },
            Err(error) => Err(error),
        }
    }

    /// Draws a new key pair.
    pub fn generate() -> (keys: Keys)
        ensures
            public_key_of(keys.secret()) is Some,
            keys.secret().len() == 32,
    {
        let secret = generate_secret();
        let public = derive_public_key(&secret).unwrap();
        Keys { secret, public }
    }

    /// The public half.
    pub fn public_key(&self) -> (public: PublicKey)
        ensures
            public@ == self.public(),
            public_key_of(self.secret()) == Some(public@),
    {
        proof {
            use_type_invariant(*self);
        }
        self.public
    }

    /// The secret half in lower-case hexadecimal.
    pub fn secret_hex(&self) -> (hex: String)
        ensures
            hex@ == text::hex(self.secret()),
            public_key_of(self.secret()) is Some,
    {
        proof {
            use_type_invariant(*self);
        }
        text::hex_text(self.secret.as_slice())
    }
}

/// The views of a list of tags.
pub open spec fn tag_views(tags: Seq<Vec<String>>) -> Seq<Seq<Seq<char>>> {
    tags.map_values(|tag: Vec<String>| text::texts(tag@))
}

/// A signed event.
#[derive(Debug, Clone, PartialEq, Eq)]
pub struct Event {
    /// Event identifier, in hexadecimal.
    pub id: String,
    /// Author.
    pub pubkey: PublicKey,
    /// Creation time in seconds since the Unix epoch.
    pub created_at: u64,
    /// Event kind.
    pub kind: u16,
    /// Tags, each a list of strings.
    pub tags: Vec<Vec<String>>,
    /// Content.
    pub content: String,
    /// Schnorr signature, in hexadecimal.
    pub sig: String,
}

/// The value of an [`Event`].
pub struct EventView {
    pub id: Seq<char>,
    pub pubkey: Seq<u8>,
    pub created_at: u64,
    pub kind: u16,
    pub tags: Seq<Seq<Seq<char>>>,
    pub content: Seq<char>,
    pub sig: Seq<char>,
}

impl View for Event {
    type V = EventView;

    open spec fn view(&self) -> EventView {
        EventView {
            id: self.id@,
            pubkey: self.pubkey@,
            created_at: self.created_at,
            kind: self.kind,
            tags: tag_views(self.tags@),
            content: self.content@,
            sig: self.sig@,
        }
    }
}

/// An unsigned event that travels inside a gift wrap.
#[derive(Debug, Clone, PartialEq, Eq)]
pub struct Rumor {
    /// Event kind.
    pub kind: u16,
    /// Tags, each a list of strings.
    pub tags: Vec<Vec<String>>,
    /// Content.
    pub content: String,
}

/// The value of a [`Rumor`].
pub struct RumorView {
    pub kind: u16,
    pub tags: Seq<Seq<Seq<char>>>,
    pub content: Seq<char>,
}

impl View for Rumor {
    type V = RumorView;

    open spec fn view(&self) -> RumorView {
        RumorView { kind: self.kind, tags: tag_views(self.tags@), content: self.content@ }
    }
}

/// An opened gift wrap.
#[derive(Debug, Clone, PartialEq, Eq)]
pub struct UnwrappedGift {
    /// Verified author of the seal and of the rumor.
    pub sender: PublicKey,
    /// What the sender sent.
    pub rumor: Rumor,
}

/// The value of an [`UnwrappedGift`].
pub struct GiftView {
    pub sender: Seq<u8>,
    pub rumor: RumorView,
}

impl View for UnwrappedGift {
    type V = GiftView;

    open spec fn view(&self) -> GiftView {
        GiftView { sender: self.sender@, rumor: self.rumor@ }
    }
}

/// The `p` tag that names `key`.
pub open spec fn recipient_tag(key: Seq<u8>) -> Seq<Seq<char>> {
    seq!["p"@, text::hex(key)]
}

/// Whether `tag` is a `p` tag that names `key` in lower-case hexadecimal.
pub open spec fn names_key(tag: Seq<Seq<char>>, key: Seq<u8>) -> bool {
    tag.len() >= 2 && tag[0] == "p"@ && tag[1] == text::hex(key)
}

/// The tags that an event by `author` is built with: an author's `p` tags on
/// the author's own key are left out.
pub open spec fn built_tags(tags: Seq<Seq<Seq<char>>>, author: Seq<u8>) -> Seq<Seq<Seq<char>>> {
    tags.filter(|tag: Seq<Seq<char>>| !names_key(tag, author))
}

/// The event that a JSON text encodes, or why it encodes none.
pub uninterp spec fn event_of_json(json: Seq<char>) -> Result<EventView, Seq<char>>;

/// What `secret` opens of a gift wrap, or why it opens nothing.
pub uninterp spec fn gift_of(secret: Seq<u8>, event: EventView) -> Result<GiftView, Seq<char>>;

/// Whether the identifier of an event is that of its contents, and its signature
/// is its author's for that identifier.
pub uninterp spec fn verifies(event: EventView) -> bool;

/// The compact JSON text of the value that a JSON text encodes, or why it
/// encodes none.
pub uninterp spec fn compact_json(json: Seq<char>) -> Result<Seq<char>, Seq<char>>;

/// The JSON text of an element of a JSON array.
pub uninterp spec fn element_of(message: Seq<char>, index: nat) -> Option<Seq<char>>;

/// The `EVENT` command that publishes the event of a JSON text.
pub open spec fn publish_command(json: Seq<char>) -> Result<Seq<char>, Seq<char>> {
    match compact_json(json) {
        Ok(event) => Ok("[\"EVENT\","@ + event + "]"@),
        Err(error) => Err(error),
    }
}

/// The position of the event in an `EVENT` message of a relay, behind the verb
/// and the subscription.
pub const EVENT_POSITION: usize = 2;

/// The event, as JSON, that a message of a relay delivers: that of an `EVENT`
/// message.
pub open spec fn event_of_message(message: Seq<char>) -> Option<Seq<char>> {
    if element_of(message, 0) == Some("\"EVENT\""@) {
        element_of(message, EVENT_POSITION as nat)
    } else {
        None
    }
}

/// Whatever JSON text there is can be published, in an `EVENT` command around its
/// value; and what a relay delivers is the third element of an `EVENT` message and
/// of no other.
pub proof fn events_travel_in_event_messages(json: Seq<char>, message: Seq<char>)
    ensures
        publish_command(json) is Ok <==> compact_json(json) is Ok,
        compact_json(json) matches Ok(event) ==> publish_command(json) == Ok::<
            Seq<char>,
            Seq<char>,
        >("[\"EVENT\","@ + event + "]"@),
        compact_json(json) matches Err(error) ==> publish_command(json) == Err::<
            Seq<char>,
            Seq<char>,
        >(error),
        element_of(message, 0) == Some("\"EVENT\""@) ==> event_of_message(message) == element_of(
            message,
            2,
        ),
        element_of(message, 0) != Some("\"EVENT\""@) ==> event_of_message(message) is None,
{
}

/// What is known of a gift wrap that `secret` made for `receiver`: its JSON
/// text reads back as a kind 1059 event tagged with the receiver, whose
/// signature verifies, and can be published; and every secret key of the
/// receiver opens it to the rumor.
pub open spec fn wrapped_for(
    secret: Seq<u8>,
    receiver: Seq<u8>,
    rumor: RumorView,
    json: Seq<char>,
) -> bool {
    let author = public_key_of(secret)->Some_0;
    &&& event_of_json(json) is Ok
    &&& publish_command(json) is Ok
    &&& ({
        let event = event_of_json(json)->Ok_0;
        &&& event.kind == GIFT_WRAP_KIND
        &&& verifies(event)
        &&& event.tags == built_tags(seq![recipient_tag(receiver)], event.pubkey)
        &&& forall|opener: Seq<u8>|
            public_key_of(opener) == Some(receiver) ==> #[trigger] gift_of(opener, event) == Ok::<
                GiftView,
                Seq<char>,
            >(
                GiftView {
                    sender: author,
                    rumor: RumorView {
                        kind: rumor.kind,
                        tags: built_tags(rumor.tags, author),
                        content: rumor.content,
                    },
                },
            )
    })
}

/// What is known of an event that `secret` signed: its JSON text reads back as
/// an event by that author with the given kind, tags and content, whose
/// signature verifies.
pub open spec fn signed_by(
    secret: Seq<u8>,
    kind: u16,
    tags: Seq<Seq<Seq<char>>>,
    content: Seq<char>,
    json: Seq<char>,
) -> bool {
    let author = public_key_of(secret)->Some_0;
    &&& event_of_json(json) is Ok
    &&& event_of_json(json)->Ok_0.pubkey == author
    &&& event_of_json(json)->Ok_0.kind == kind
    &&& event_of_json(json)->Ok_0.tags == built_tags(tags, author)
    &&& event_of_json(json)->Ok_0.content == content
    &&& verifies(event_of_json(json)->Ok_0)
}

/// Whether every tag has a name.
pub open spec fn tags_have_names(tags: Seq<Seq<Seq<char>>>) -> bool {
    forall|i: int| 0 <= i < tags.len() ==> (#[trigger] tags[i]).len() > 0
}

/// The bytes of a tag as a JSON array.
pub open spec fn tag_json_size(tag: Seq<Seq<char>>) -> nat
    decreases tag.len(),
{
    if tag.len() == 0 {
        2
    } else if tag.len() == 1 {
        protocol::json_size(tag[0]) + 2
    } else {
        tag_json_size(tag.drop_last()) + 1 + protocol::json_size(tag.last())
    }
}

/// The bytes of a list of tags as a JSON array.
pub open spec fn tags_json_size(tags: Seq<Seq<Seq<char>>>) -> nat
    decreases tags.len(),
{
    if tags.len() == 0 {
        2
    } else if tags.len() == 1 {
        tag_json_size(tags[0]) + 2
    } else {
        tags_json_size(tags.drop_last()) + 1 + tag_json_size(tags.last())
    }
}

/// The bytes of a rumor's JSON besides its creation time, kind, tags and
/// content: braces, field names, and the 64 digits each of its identifier and
/// its author.
pub const RUMOR_FRAME_SIZE: usize = 190;

/// The bytes of a rumor as a JSON object, with a creation time of `time_digits`
/// digits.
pub open spec fn rumor_json_size(rumor: RumorView, time_digits: nat) -> nat {
    RUMOR_FRAME_SIZE as nat + time_digits + text::decimal(rumor.kind as nat).len() + tags_json_size(
        rumor.tags,
    ) + protocol::json_size(rumor.content)
}

/// Largest rumor that can be wrapped, in bytes of its JSON.
///
/// NIP-44 encrypts up to 65408 bytes and pads them to a multiple of 8192 in
/// this range. A rumor of up to 40960 bytes is sealed in under 55100 bytes; one
/// more byte makes 65628 bytes of base64 alone.
pub const MAX_RUMOR_SIZE: usize = 40_960;

/// Digits of the longest creation time.
pub const MAX_TIME_DIGITS: usize = 20;

/// Whether a rumor is sure to be wrapped for `receiver`: that is a key, the
/// tags have names, and the rumor is not too large, whatever the time is.
pub open spec fn surely_wrapped(receiver: Seq<u8>, rumor: RumorView) -> bool {
    &&& is_key(receiver)
    &&& tags_have_names(rumor.tags)
    &&& rumor_json_size(rumor, MAX_TIME_DIGITS as nat) <= MAX_RUMOR_SIZE
}

/// Whether a rumor by `author` can be wrapped for `receiver` at any time.
pub open spec fn ever_wrapped(author: Seq<u8>, receiver: Seq<u8>, rumor: RumorView) -> bool {
    let built = RumorView { tags: built_tags(rumor.tags, author), ..rumor };
    &&& is_key(receiver)
    &&& tags_have_names(rumor.tags)
    &&& rumor_json_size(built, 1) <= MAX_RUMOR_SIZE
}

/// Reads an event from JSON. Its signature is not verified.
///
/// Calls `serde_json::from_str` for a `nostr::Event`, whose result is a
/// function of the text.
#[verifier::external_body]
pub(crate) fn parse_event(json: &str) -> (event: Result<Event, String>)
    ensures
        match event {
            Ok(event) => event_of_json(json@) == Ok::<EventView, Seq<char>>(event@),
            Err(error) => event_of_json(json@) == Err::<EventView, Seq<char>>(error@),
        },
{
    let event: nostr::Event = serde_json::from_str(json).map_err(|error| error.to_string())?;
    Ok(
        Event {
            id: event.id.to_hex(),
            pubkey: PublicKey { bytes: event.pubkey.to_bytes() },
            created_at: event.created_at.as_secs(),
            kind: event.kind.as_u16(),
            tags: event.tags.iter().map(|tag| tag.as_slice().to_vec()).collect(),
            content: event.content,
            sig: event.sig.to_string(),
        },
    )
}

/// Opens the gift wrap that `json` encodes.
///
/// Calls `nostr::nips::nip59::extract_rumor`, whose result is a function of the
/// secret key and of the event. It verifies the signature of the seal, for which
/// the sender's bytes must be a point of the curve, hence somebody's key. A local
/// key pair answers without waiting, so its future is ready at the first poll.
#[verifier::external_body]
fn extract_rumor(secret: &[u8; 32], json: &str) -> (gift: Result<UnwrappedGift, String>)
    requires
        public_key_of(secret@) is Some,
        event_of_json(json@) is Ok,
    ensures
        match gift {
            Ok(gift) => gift_of(secret@, event_of_json(json@)->Ok_0) == Ok::<GiftView, Seq<char>>(
                gift@,
            ),
            Err(error) => gift_of(secret@, event_of_json(json@)->Ok_0) == Err::<
                GiftView,
                Seq<char>,
            >(error@),
        },
        gift matches Ok(gift) ==> is_key(gift@.sender),
{
    let keys = nostr::Keys::new(nostr::SecretKey::from_slice(secret).unwrap());
    let event: nostr::Event = serde_json::from_str(json).unwrap();
    let opened = nostr::nips::nip59::extract_rumor(&keys, &event).now_or_never();
    let gift = opened.unwrap().map_err(|error| error.to_string())?;
    let tags = gift.rumor.tags.iter().map(|tag| tag.as_slice().to_vec()).collect();
    let rumor = Rumor { kind: gift.rumor.kind.as_u16(), tags, content: gift.rumor.content };
    Ok(UnwrappedGift { sender: PublicKey { bytes: gift.sender.to_bytes() }, rumor })
}

/// Seals `rumor` for `receiver` and wraps the seal, as JSON.
///
/// Calls `nostr::EventBuilder::gift_wrap` with the rumor built by the key pair
/// of `secret`, and `as_json` of its result. The wrap is made with a random key
/// and a random time, so its text differs from call to call; what is claimed
/// holds of every outcome. It fails for a receiver that is no key, for a tag
/// without a name, and for a rumor whose JSON, or the JSON of whose seal, has
/// more than the 65408 bytes that NIP-44 encrypts; for nothing else. The JSON of
/// the rumor has its identifier, author, creation time, kind, tags and content,
/// in this order. As it holds the time of the call, whether it succeeds within 19
/// bytes of the limit is not stated.
#[verifier::external_body]
fn gift_wrap(secret: &[u8; 32], receiver: &PublicKey, rumor: &Rumor) -> (json: Result<
    String,
    String,
>)
    requires
        public_key_of(secret@) is Some,
    ensures
        json matches Ok(json) ==> wrapped_for(secret@, receiver@, rumor@, json@),
        surely_wrapped(receiver@, rumor@) ==> json is Ok,
        json is Ok ==> ever_wrapped(public_key_of(secret@)->Some_0, receiver@, rumor@),
{
    let keys = nostr::Keys::new(nostr::SecretKey::from_slice(secret).unwrap());
    let receiver = nostr::PublicKey::from_byte_array(receiver.bytes);
    let tags: Result<Vec<Tag>, _> = rumor.tags.iter().map(Tag::parse).collect();
    let tags = tags.map_err(|error| error.to_string())?;
    let kind = nostr::Kind::from(rumor.kind);
    let builder = EventBuilder::new(kind, rumor.content.clone()).tags(tags);
    let rumor = builder.build(keys.public_key());
    let event = EventBuilder::gift_wrap(&keys, &receiver, rumor, []).now_or_never();
    event.unwrap().map(|event| event.as_json()).map_err(|error| error.to_string())
}

/// Signs an event, as JSON.
///
/// Calls `nostr::EventBuilder::sign_with_keys` and `as_json` of its result. The
/// signature and the time are not fixed by the arguments; what is claimed holds
/// of every outcome. That the signature verifies means that
/// `nostr::Event::verify` accepts the event, as [`event_verifies`] says. It fails for a tag without a name,
/// and for nothing else.
#[verifier::external_body]
fn sign_event(secret: &[u8; 32], kind: u16, tags: &Vec<Vec<String>>, content: &str) -> (json:
    Result<String, String>)
    requires
        public_key_of(secret@) is Some,
    ensures
        json is Ok <==> tags_have_names(tag_views(tags@)),
        json matches Ok(json) ==> signed_by(secret@, kind, tag_views(tags@), content@, json@),
        json matches Ok(json) ==> verifies(event_of_json(json@)->Ok_0),
{
    let keys = nostr::Keys::new(nostr::SecretKey::from_slice(secret).unwrap());
    let tags: Result<Vec<Tag>, _> = tags.iter().map(Tag::parse).collect();
    let tags = tags.map_err(|error| error.to_string())?;
    let builder = EventBuilder::new(nostr::Kind::from(kind), content).tags(tags);
    let event = builder.sign_with_keys(&keys).map_err(|error| error.to_string())?;
    Ok(event.as_json())
}

/// Writes the value of a JSON text anew, compactly.
///
/// Calls `serde_json::from_str` for a JSON value and `serde_json::to_string` for
/// that value; the result is a function of the text. A text that encodes an
/// event encodes the same event when it is written anew.
#[verifier::external_body]
fn rewrite_json(json: &str) -> (compact: Result<String, String>)
    ensures
        match compact {
            Ok(compact) => compact_json(json@) == Ok::<Seq<char>, Seq<char>>(compact@),
            Err(error) => compact_json(json@) == Err::<Seq<char>, Seq<char>>(error@),
        },
        compact matches Ok(compact) ==> event_of_json(json@) is Ok ==> event_of_json(compact@)
            == event_of_json(json@),
{
    let value: serde_json::Value = serde_json::from_str(json).map_err(|e| e.to_string())?;
    serde_json::to_string(&value).map_err(|e| e.to_string())
}

/// The JSON text of an element of a JSON array.
///
/// Calls `serde_json::from_str` for a JSON value and `serde_json::Value::get`;
/// the result is a function of the text and the index.
#[verifier::external_body]
pub(crate) fn array_element(message: &str, index: usize) -> (element: Option<String>)
    ensures
        text::opt_text(element) == element_of(message@, index as nat),
{
    let value: serde_json::Value = serde_json::from_str(message).ok()?;
    value.get(index).map(|element| element.to_string())
}

/// Whether the event of `json` has its identifier and a signature of its author.
///
/// Calls `nostr::Event::verify`, whose result is a function of the event.
#[verifier::external_body]
fn event_verifies(json: &str) -> (yes: bool)
    requires
        event_of_json(json@) is Ok,
    ensures
        yes == verifies(event_of_json(json@)->Ok_0),
{
    let event: nostr::Event = serde_json::from_str(json).unwrap();
    event.verify().is_ok()
}

/// Whether `json` encodes an event whose identifier is that of its contents and
/// whose signature is its author's.
pub fn is_verified_event(json: &str) -> (yes: bool)
    ensures
        yes == (event_of_json(json@) is Ok && verifies(event_of_json(json@)->Ok_0)),
{
    match parse_event(json) {
        Ok(_) => event_verifies(json),
        Err(_) => false,
    }
}

/// The `EVENT` command that publishes the event of a JSON text. It carries that
/// event.
pub fn event_command(json: &str) -> (command: Result<String, String>)
    ensures
        match command {
            Ok(command) => publish_command(json@) == Ok::<Seq<char>, Seq<char>>(command@),
            Err(error) => publish_command(json@) == Err::<Seq<char>, Seq<char>>(error@),
        },
        command is Ok && event_of_json(json@) is Ok ==> event_of_json(compact_json(json@)->Ok_0)
            == event_of_json(json@),
{
    match rewrite_json(json) {
        Ok(event) => Ok(text::join3("[\"EVENT\",", event.as_str(), "]")),
        Err(error) => Err(error),
    }
}

/// The event, as JSON, that a message of a relay delivers.
pub fn delivered_event(message: &str) -> (event: Option<String>)
    ensures
        text::opt_text(event) == event_of_message(message@),
{
    match array_element(message, 0) {
        Some(verb) => {
            if text::text_eq(verb.as_str(), "\"EVENT\"") {
                array_element(message, EVENT_POSITION)
            } else {
                None
            }
        },
        None => None,
    }
}

impl Keys {
    /// Opens the gift wrap that `json` encodes.
    pub(crate) fn open(&self, json: &str) -> (gift: Result<UnwrappedGift, String>)
        requires
            event_of_json(json@) is Ok,
        ensures
            match gift {
                Ok(gift) => gift_of(self.secret(), event_of_json(json@)->Ok_0) == Ok::<
                    GiftView,
                    Seq<char>,
                >(gift@),
                Err(error) => gift_of(self.secret(), event_of_json(json@)->Ok_0) == Err::<
                    GiftView,
                    Seq<char>,
                >(error@),
            },
            gift matches Ok(gift) ==> is_key(gift@.sender),
    {
        proof {
            use_type_invariant(*self);
        }
        extract_rumor(&self.secret, json)
    }

    /// Seals `rumor` for `receiver` and wraps the seal, as JSON.
    pub fn wrap(&self, receiver: &PublicKey, rumor: &Rumor) -> (json: Result<String, String>)
        ensures
            public_key_of(self.secret()) is Some,
            json matches Ok(json) ==> wrapped_for(self.secret(), receiver@, rumor@, json@),
            surely_wrapped(receiver@, rumor@) ==> json is Ok,
            json is Ok ==> ever_wrapped(self.public(), receiver@, rumor@),
    {
        proof {
            use_type_invariant(*self);
        }
        gift_wrap(&self.secret, receiver, rumor)
    }

    /// Signs an event, as JSON.
    pub fn sign(&self, kind: u16, tags: &Vec<Vec<String>>, content: &str) -> (json: Result<
        String,
        String,
    >)
        ensures
            public_key_of(self.secret()) is Some,
            json is Ok <==> tags_have_names(tag_views(tags@)),
            json matches Ok(json) ==> signed_by(
                self.secret(),
                kind,
                tag_views(tags@),
                content@,
                json@,
            ),
    {
        proof {
            use_type_invariant(*self);
        }
        sign_event(&self.secret, kind, tags, content)
    }
}

}
