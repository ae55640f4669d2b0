//! Relay addresses.

use vstd::prelude::*;
use vstd::string::*;

use crate::text;

verus! {

/// What the library reads of a parsed URL.
#[derive(Debug, Clone, PartialEq, Eq)]
pub struct UrlParts {
    /// Scheme, in lower case.
    pub scheme: String,
    /// Whether there is a host.
    pub has_host: bool,
    /// User name, empty without one.
    pub username: String,
    /// Whether there is a password.
    pub has_password: bool,
    /// Whether there is a query.
    pub has_query: bool,
    /// Whether there is a fragment.
    pub has_fragment: bool,
    /// The normalized URL.
    pub serialized: String,
}

/// The value of [`UrlParts`].
pub struct UrlView {
    pub scheme: Seq<char>,
    pub has_host: bool,
    pub username: Seq<char>,
    pub has_password: bool,
    pub has_query: bool,
    pub has_fragment: bool,
    pub serialized: Seq<char>,
}

impl View for UrlParts {
    type V = UrlView;

    open spec fn view(&self) -> UrlView {
        UrlView {
            scheme: self.scheme@,
            has_host: self.has_host,
            username: self.username@,
            has_password: self.has_password,
            has_query: self.has_query,
            has_fragment: self.has_fragment,
            serialized: self.serialized@,
        }
    }
}

/// What a text reads as when it is a URL, or why it is none.
pub uninterp spec fn url_parts(raw: Seq<char>) -> Result<UrlView, Seq<char>>;

/// Reads a URL.
///
/// Calls `url::Url::parse` and the accessors of its result, which are functions
/// of the text. Of a WebSocket URL with a host and without credentials, query
/// and fragment, the normalized text holds no white space and parses to the same
/// URL again, which is among what `url::Url::check_invariants` tests.
#[verifier::external_body]
fn parse_url(raw: &str) -> (parts: Result<UrlParts, String>)
    ensures
        match parts {
            Ok(parts) => url_parts(raw@) == Ok::<UrlView, Seq<char>>(parts@),
            Err(error) => url_parts(raw@) == Err::<UrlView, Seq<char>>(error@),
        },
        parts matches Ok(parts) ==> names_relay(parts@) ==> {
            &&& url_parts(parts@.serialized) == Ok::<UrlView, Seq<char>>(parts@)
            &&& text::trimmed(parts@.serialized) == parts@.serialized
        },
{
    let url = url::Url::parse(raw).map_err(|error| error.to_string())?;
    Ok(
        UrlParts {
            scheme: url.scheme().to_owned(),
            has_host: url.host().is_some(),
            username: url.username().to_owned(),
            has_password: url.password().is_some(),
            has_query: url.query().is_some(),
            has_fragment: url.fragment().is_some(),
            serialized: url.to_string(),
        },
    )
}

/// Whether a scheme is that of a WebSocket.
pub open spec fn is_websocket_scheme(scheme: Seq<char>) -> bool {
    scheme == "ws"@ || scheme == "wss"@
}

/// Whether a URL leads to a WebSocket host.
pub open spec fn leads_to_websocket(parts: UrlView) -> bool {
    is_websocket_scheme(parts.scheme) && parts.has_host
}

/// Whether a URL may name a relay in public: a WebSocket host, with no
/// credentials, query or fragment.
pub open spec fn names_relay(parts: UrlView) -> bool {
    &&& leads_to_websocket(parts)
    &&& parts.username.len() == 0
    &&& !parts.has_password
    &&& !parts.has_query
    &&& !parts.has_fragment
}

/// What is said of a URL that may not name a relay.
pub const RELAY_URL_ERROR: &'static str =
    "RELAY_URL must be a ws:// or wss:// URL without credentials, query, or fragment";

/// The normalized form of a relay address, or why it does not do.
pub open spec fn normalized(raw: Seq<char>) -> Result<Seq<char>, Seq<char>> {
    match url_parts(text::trimmed(raw)) {
        Ok(parts) => if names_relay(parts) {
            Ok(parts.serialized)
        } else {
            Err(RELAY_URL_ERROR@)
        },
        Err(error) => Err(error),
    }
}

/// An address names a relay exactly if it is a URL of a WebSocket host without
/// credentials, query and fragment, and then by the normalized text of the URL,
/// whatever white space stands around it. Any other URL is refused with the same
/// words, and what is no URL with the reason.
pub proof fn relay_addresses_are_bare(raw: Seq<char>)
    ensures
        ({
            let parsed = url_parts(text::trimmed(raw));
            &&& parsed matches Ok(parts) ==> {
                let bare = (parts.scheme == "ws"@ || parts.scheme == "wss"@) && parts.has_host
                    && parts.username == Seq::<char>::empty() && !parts.has_password
                    && !parts.has_query && !parts.has_fragment;
                &&& bare ==> normalized(raw) == Ok::<Seq<char>, Seq<char>>(parts.serialized)
                &&& !bare ==> normalized(raw) == Err::<Seq<char>, Seq<char>>(
                    "RELAY_URL must be a ws:// or wss:// URL without credentials, query, or fragment"@,
                )
            }
            &&& parsed matches Err(error) ==> normalized(raw) == Err::<Seq<char>, Seq<char>>(error)
        }),
        normalized(text::trimmed(raw)) == normalized(raw),
{
    text::trimming_is_idempotent(raw);
    if let Ok(parts) = url_parts(text::trimmed(raw)) {
        assert(parts.username.len() == 0 <==> parts.username =~= Seq::<char>::empty());
    }
}

/// A WebSocket address has the scheme of one and a host; what else it has does
/// not matter.
pub proof fn websocket_addresses_have_a_host(raw: Seq<char>)
    ensures
        is_websocket_address(raw) <==> url_parts(raw) is Ok && url_parts(raw)->Ok_0.has_host && (
        url_parts(raw)->Ok_0.scheme == "ws"@ || url_parts(raw)->Ok_0.scheme == "wss"@),
{
}

impl UrlParts {
    /// Whether the URL leads to a WebSocket host.
    pub fn is_websocket(&self) -> (yes: bool)
        ensures
            yes == leads_to_websocket(self@),
    {
        (text::text_eq(self.scheme.as_str(), "ws") || text::text_eq(self.scheme.as_str(), "wss"))
            && self.has_host
    }

    /// The normalized URL, if it may name a relay in public.
    pub fn into_relay_url(self) -> (url: Result<String, String>)
        ensures
            match url {
                Ok(url) => names_relay(self@) && url@ == self@.serialized,
                Err(error) => !names_relay(self@) && error@ == RELAY_URL_ERROR@,
            },
    {
        if !self.is_websocket() || !self.username.as_str().is_empty() || self.has_password
            || self.has_query || self.has_fragment {
            return Err(RELAY_URL_ERROR.to_owned());
        }
        Ok(self.serialized)
    }
}

/// The normalized form of a relay address. Normalizing that again changes
/// nothing.
pub fn normalized_relay_url(raw: &str) -> (url: Result<String, String>)
    ensures
        match url {
            Ok(url) => normalized(raw@) == Ok::<Seq<char>, Seq<char>>(url@),
            Err(error) => normalized(raw@) == Err::<Seq<char>, Seq<char>>(error@),
        },
        url matches Ok(url) ==> normalized(url@) == Ok::<Seq<char>, Seq<char>>(url@),
{
    match parse_url(text::trim(raw)) {
        Ok(parts) => parts.into_relay_url(),
        Err(error) => Err(error),
    }
}

/// Whether a text is the address of a WebSocket host.
pub open spec fn is_websocket_address(raw: Seq<char>) -> bool {
    url_parts(raw) matches Ok(parts) && leads_to_websocket(parts)
}

/// Whether `raw` is the address of a WebSocket host.
pub fn is_websocket_url(raw: &str) -> (yes: bool)
    ensures
        yes == is_websocket_address(raw@),
{
    match parse_url(raw) {
        Ok(parts) => parts.is_websocket(),
        Err(_) => false,
    }
}

}
