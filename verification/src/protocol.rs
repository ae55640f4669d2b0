//! Relay protocol messages.

use vstd::prelude::*;
use vstd::string::*;
use vstd::utf8::*;

use crate::text;

verus! {

/// How one character is written inside a JSON string.
pub open spec fn json_escape(c: char) -> Seq<char> {
    if c == '"' || c == '\\' {
        seq!['\\', c]
    } else if c == '\u{8}' {
        seq!['\\', 'b']
    } else if c == '\u{9}' {
        seq!['\\', 't']
    } else if c == '\u{a}' {
        seq!['\\', 'n']
    } else if c == '\u{c}' {
        seq!['\\', 'f']
    } else if c == '\u{d}' {
        seq!['\\', 'r']
    } else if 0x20 > c as u32 {
        seq![
            '\\',
            'u',
            '0',
            '0',
            text::digit_char((c as u32 / 16) as nat),
            text::digit_char((c as u32 % 16) as nat),
        ]
    } else {
        seq![c]
    }
}

/// The inside of the JSON string that stands for `s`.
pub open spec fn json_escaped(s: Seq<char>) -> Seq<char>
    decreases s.len(),
{
    if s.len() == 0 {
        seq![]
    } else {
        json_escaped(s.drop_last()) + json_escape(s.last())
    }
}

/// The JSON string that stands for `s`.
pub open spec fn json_quoted(s: Seq<char>) -> Seq<char> {
    seq!['"'] + json_escaped(s) + seq!['"']
}

/// The bytes of the JSON string that stands for `s`.
pub open spec fn json_size(s: Seq<char>) -> nat {
    text::utf8_len(json_quoted(s))
}

/// Whether `c` is written as it is inside a JSON string, in one byte.
pub open spec fn is_plain(c: char) -> bool {
    0x20 <= c as u32 <= 0x7f && c != '"' && c != '\\'
}

proof fn lemma_one_char_size(c: char)
    ensures
        1 <= text::utf8_len(seq![c]) <= 4,
        c as u32 <= 0x7f ==> text::utf8_len(seq![c]) == 1,
{
    assert(seq![c].drop_first() =~= seq![]);
    reveal_with_fuel(encode_utf8, 2);
}

proof fn lemma_escape_size(c: char)
    ensures
        text::utf8_len(seq![c]) <= text::utf8_len(json_escape(c)) <= 6 * text::utf8_len(seq![c]),
        is_plain(c) ==> text::utf8_len(json_escape(c)) == 1,
{
    lemma_one_char_size(c);
    let escape = json_escape(c);
    if escape != seq![c] {
        assert(is_ascii_chars(escape));
        is_ascii_chars_encode_utf8(escape);
    }
}

proof fn lemma_quoted_size(s: Seq<char>)
    ensures
        json_size(s) == text::utf8_len(json_escaped(s)) + 2,
{
    lemma_one_char_size('"');
    text::lemma_utf8_len_concat(seq!['"'], json_escaped(s));
    text::lemma_utf8_len_concat(seq!['"'] + json_escaped(s), seq!['"']);
}

/// A text grows by its quotes when it is written as a JSON string, and to no
/// more than six times its size besides.
pub proof fn json_size_is_bounded(s: Seq<char>)
    ensures
        text::utf8_len(s) + 2 <= json_size(s) <= 6 * text::utf8_len(s) + 2,
    decreases s.len(),
{
    lemma_quoted_size(s);
    if s.len() > 0 {
        json_size_is_bounded(s.drop_last());
        lemma_quoted_size(s.drop_last());
        lemma_escape_size(s.last());
        text::lemma_utf8_len_concat(json_escaped(s.drop_last()), json_escape(s.last()));
        text::lemma_utf8_len_concat(s.drop_last(), seq![s.last()]);
        assert(s.drop_last() + seq![s.last()] =~= s);
    }
}

/// A text without quotes, backslashes, control characters and characters beyond
/// ASCII takes one byte per character, and two for the quotes.
pub proof fn plain_texts_keep_their_size(s: Seq<char>)
    requires
        forall|i: int| 0 <= i < s.len() ==> is_plain(#[trigger] s[i]),
    ensures
        json_size(s) == s.len() + 2,
    decreases s.len(),
{
    lemma_quoted_size(s);
    if s.len() > 0 {
        plain_texts_keep_their_size(s.drop_last());
        lemma_quoted_size(s.drop_last());
        lemma_escape_size(s.last());
        text::lemma_utf8_len_concat(json_escaped(s.drop_last()), json_escape(s.last()));
    }
}

proof fn lemma_escaped_concat(a: Seq<char>, b: Seq<char>)
    ensures
        json_escaped(a + b) == json_escaped(a) + json_escaped(b),
    decreases b.len(),
{
    if b.len() == 0 {
        assert(a + b =~= a);
        assert(json_escaped(a) + json_escaped(b) =~= json_escaped(a));
    } else {
        assert((a + b).drop_last() =~= a + b.drop_last());
        lemma_escaped_concat(a, b.drop_last());
        assert(json_escaped(a + b) =~= json_escaped(a) + json_escaped(b));
    }
}

/// The JSON strings of two texts have, but for one pair of quotes, the size of
/// the JSON string of their concatenation.
pub proof fn json_sizes_add_up(a: Seq<char>, b: Seq<char>)
    ensures
        json_size(a + b) + 2 == json_size(a) + json_size(b),
{
    lemma_quoted_size(a);
    lemma_quoted_size(b);
    lemma_quoted_size(a + b);
    lemma_escaped_concat(a, b);
    text::lemma_utf8_len_concat(json_escaped(a), json_escaped(b));
}

/// The JSON array of two strings.
pub open spec fn json_pair(a: Seq<char>, b: Seq<char>) -> Seq<char> {
    "["@ + json_quoted(a) + ","@ + json_quoted(b) + "]"@
}

/// The JSON array of three strings.
pub open spec fn json_triple(a: Seq<char>, b: Seq<char>, c: Seq<char>) -> Seq<char> {
    "["@ + json_quoted(a) + ","@ + json_quoted(b) + ","@ + json_quoted(c) + "]"@
}

/// The messages of the relay are JSON arrays of strings, their kind first, and a
/// subscription to gift wraps asks for kind `1059` addressed to one key.
pub proof fn messages_are_json_arrays(a: Seq<char>, b: Seq<char>, c: Seq<char>)
    ensures
        json_pair(a, b) == "["@ + json_quoted(a) + ","@ + json_quoted(b) + "]"@,
        json_triple(a, b, c) == "["@ + json_quoted(a) + ","@ + json_quoted(b) + ","@ + json_quoted(
            c,
        ) + "]"@,
        gift_wrap_filter(a, b) == "[\"REQ\","@ + json_quoted(a) + ",{\"#p\":["@ + json_quoted(b)
            + "],\"kinds\":[1059]}]"@,
{
}

/// Writes `s` as a JSON string.
///
/// Calls `serde_json::to_string`, which quotes a string, escapes the quote, the
/// backslash and the control characters below U+0020, and copies the rest.
#[verifier::external_body]
pub(crate) fn json_string(s: &str) -> (json: String)
    ensures
        json@ == json_quoted(s@),
{
    serde_json::to_string(s).unwrap()
}

/// Writes two strings as a JSON array.
pub fn json_array2(a: &str, b: &str) -> (json: String)
    ensures
        json@ == json_pair(a@, b@),
{
    let mut json = text::join3("[", json_string(a).as_str(), ",");
    json.append(json_string(b).as_str());
    json.append("]");
    json
}

/// Writes three strings as a JSON array.
pub fn json_array3(a: &str, b: &str, c: &str) -> (json: String)
    ensures
        json@ == json_triple(a@, b@, c@),
{
    let mut json = text::join3("[", json_string(a).as_str(), ",");
    json.append(json_string(b).as_str());
    json.append(",");
    json.append(json_string(c).as_str());
    json.append("]");
    json
}

/// A `NOTICE` message.
pub fn notice(message: &str) -> (json: String)
    ensures
        json@ == json_pair("NOTICE"@, message@),
{
    json_array2("NOTICE", message)
}

/// A `CLOSED` message.
pub fn closed(sub_id: &str, reason: &str) -> (json: String)
    ensures
        json@ == json_triple("CLOSED"@, sub_id@, reason@),
{
    json_array3("CLOSED", sub_id, reason)
}

/// The `AUTH` message that puts a challenge to a client.
pub fn auth_challenge(challenge: &str) -> (json: String)
    ensures
        json@ == json_pair("AUTH"@, challenge@),
{
    json_array2("AUTH", challenge)
}

/// The subscription `sub_id` to the gift wraps for the key `hex`.
pub open spec fn gift_wrap_filter(sub_id: Seq<char>, hex: Seq<char>) -> Seq<char> {
    "[\"REQ\","@ + json_quoted(sub_id) + ",{\"#p\":["@ + json_quoted(hex)
        + "],\"kinds\":[1059]}]"@
}

/// A `REQ` message for the gift wraps of one key.
pub fn gift_wrap_request(sub_id: &str, hex: &str) -> (json: String)
    ensures
        json@ == gift_wrap_filter(sub_id@, hex@),
{
    let mut json = text::join3("[\"REQ\",", json_string(sub_id).as_str(), ",{\"#p\":[");
    json.append(json_string(hex).as_str());
    json.append("],\"kinds\":[1059]}]");
    json
}

/// A client command. Events and filters are kept as JSON text.
#[derive(Debug, Clone, PartialEq, Eq)]
pub enum ClientMessage {
    /// A signed answer to the authentication challenge.
    Auth(String),
    /// An event to store.
    Event(String),
    /// A subscription.
    Req {
        /// Subscription identifier.
        sub_id: String,
        /// Filters.
        filters: String,
    },
    /// A count request.
    Count {
        /// Subscription identifier.
        sub_id: String,
        /// Filters.
        filters: String,
    },
    /// The end of a subscription.
    Close(String),
}

}
