//! Opt-in NIP-66 relay discovery publication.

use vstd::prelude::*;
use vstd::string::*;

use crate::envelope;
use crate::envelope::Keys;
use crate::relay_url;
use crate::text;

verus! {

/// Event kind of a relay discovery announcement.
pub const NIP66_RELAY_DISCOVERY_KIND: u16 = 30_166;

/// Permissions of a discovery identity.
pub const IDENTITY_FILE_MODE: u32 = 0o600;

/// The tag that lists a supported NIP.
pub open spec fn nip_tag(nip: u32) -> Seq<Seq<char>> {
    seq!["N"@, text::decimal(nip as nat)]
}

/// The tags of an announcement: the relay's address, its network, and the NIPs
/// that it supports.
pub open spec fn announcement_tags(url: Seq<char>, nips: Seq<u32>) -> Seq<Seq<Seq<char>>> {
    seq![seq!["d"@, url], seq!["n"@, "clearnet"@]] + nips.map_values(|nip: u32| nip_tag(nip))
}

/// An announcement names the relay first, then the network, and then each
/// supported NIP by its number, in order and once.
pub proof fn announcements_list_every_nip(url: Seq<char>, nips: Seq<u32>, i: int)
    requires
        0 <= i < nips.len(),
    ensures
        announcement_tags(url, nips).len() == 2 + nips.len(),
        announcement_tags(url, nips)[0] == seq!["d"@, url],
        announcement_tags(url, nips)[1] == seq!["n"@, "clearnet"@],
        announcement_tags(url, nips)[2 + i] == seq!["N"@, text::decimal(nips[i] as nat)],
{
}

fn tag2(name: &str, value: &str) -> (tag: Vec<String>)
    ensures
        text::texts(tag@) == seq![name@, value@],
{
    let mut tag: Vec<String> = Vec::new();
    tag.push(name.to_owned());
    tag.push(value.to_owned());
    assert(text::texts(tag@) =~= seq![name@, value@]);
    tag
}

/// The tags of an announcement.
pub fn build_announcement_tags(url: &str, nips: &Vec<u32>) -> (tags: Vec<Vec<String>>)
    ensures
        envelope::tag_views(tags@) == announcement_tags(url@, nips@),
{
    let mut tags: Vec<Vec<String>> = Vec::new();
    tags.push(tag2("d", url));
    tags.push(tag2("n", "clearnet"));
    let mut i: usize = 0;
    assert(envelope::tag_views(tags@) =~= announcement_tags(url@, nips@.take(0)));
    while i < nips.len()
        invariant
            i <= nips.len(),
            envelope::tag_views(tags@) == announcement_tags(url@, nips@.take(i as int)),
        decreases nips.len() - i,
    {
        let ghost before = tags@;
        let number = text::decimal_text(nips[i] as u64);
        tags.push(tag2("N", number.as_str()));
        proof {
            assert(nips@.take(i + 1) =~= nips@.take(i as int).push(nips@[i as int]));
            assert(envelope::tag_views(tags@) =~= envelope::tag_views(before).push(
                nip_tag(nips@[i as int]),
            ));
            assert(announcement_tags(url@, nips@.take(i + 1)) =~= announcement_tags(
                url@,
                nips@.take(i as int),
            ).push(nip_tag(nips@[i as int])));
        }
        i += 1;
    }
    assert(nips@.take(i as int) =~= nips@);
    tags
}

/// The tags of the announcement of the relay at `relay_url`, unless that
/// address may not name a relay in public.
pub fn prepare_announcement(relay_url: &str, nips: &Vec<u32>) -> (tags: Result<
    Vec<Vec<String>>,
    String,
>)
    ensures
        match relay_url::normalized(relay_url@) {
            Err(reason) => tags matches Err(error) && error@ == reason,
            Ok(url) => {
                &&& tags matches Ok(tags)
                &&& envelope::tag_views(tags@) == announcement_tags(url, nips@)
                &&& relay_url::normalized(url) == Ok::<Seq<char>, Seq<char>>(url)
            },
        },
{
    match relay_url::normalized_relay_url(relay_url) {
        Ok(url) => Ok(build_announcement_tags(url.as_str(), nips)),
        Err(error) => Err(error),
    }
}

/// Builds the signed relay discovery event of the relay at `relay_url`, as
/// JSON.
///
/// An address that may not name a relay in public is refused.
pub fn announcement(keys: &Keys, relay_url: &str, nips: &Vec<u32>) -> (event: Result<String, String>)
    ensures
        match relay_url::normalized(relay_url@) {
            Err(reason) => event matches Err(error) && error@ == reason,
            Ok(url) => {
                &&& event matches Ok(json)
                &&& envelope::signed_by(
                    keys.secret(),
                    NIP66_RELAY_DISCOVERY_KIND,
                    announcement_tags(url, nips@),
                    ""@,
                    json@,
                )
                &&& relay_url::normalized(url) == Ok::<Seq<char>, Seq<char>>(url)
            },
        },
{
    match prepare_announcement(relay_url, nips) {
        Ok(tags) => keys.sign(NIP66_RELAY_DISCOVERY_KIND, &tags, ""),
        Err(error) => Err(error),
    }
}

/// An announcement names the normalized address of its relay in its `d` tag and
/// lists every supported NIP, under the author's key and with a signature that
/// verifies.
pub proof fn announcements_name_their_relay(
    secret: Seq<u8>,
    url: Seq<char>,
    nips: Seq<u32>,
    json: Seq<char>,
)
    requires
        envelope::public_key_of(secret) is Some,
        envelope::signed_by(
            secret,
            NIP66_RELAY_DISCOVERY_KIND,
            announcement_tags(url, nips),
            ""@,
            json,
        ),
    ensures
        ({
            let event = envelope::event_of_json(json)->Ok_0;
            &&& event.kind == NIP66_RELAY_DISCOVERY_KIND
            &&& Some(event.pubkey) == envelope::public_key_of(secret)
            &&& event.tags == announcement_tags(url, nips)
            &&& event.tags[0] == seq!["d"@, url]
            &&& envelope::verifies(event)
        }),
{
    let author = envelope::public_key_of(secret)->Some_0;
    let tags = announcement_tags(url, nips);
    reveal_strlit("p");
    reveal_strlit("d");
    reveal_strlit("n");
    reveal_strlit("N");
    assert("p"@[0] != "d"@[0] && "p"@[0] != "n"@[0] && "p"@[0] != "N"@[0]);
    assert forall|i: int| 0 <= i < tags.len() implies !#[trigger] envelope::names_key(
        tags[i],
        author,
    ) by {
        if i >= 2 {
            assert(tags[i] == nip_tag(nips[i - 2]));
        }
    }
    lemma_nothing_filtered(tags, author);
}

proof fn lemma_nothing_filtered(tags: Seq<Seq<Seq<char>>>, author: Seq<u8>)
    requires
        forall|i: int|
            0 <= i < tags.len() ==> !#[trigger] envelope::names_key(tags[i], author),
    ensures
        envelope::built_tags(tags, author) == tags,
    decreases tags.len(),
{
    reveal(Seq::filter);
    if tags.len() > 0 {
        let shorter = tags.drop_last();
        assert forall|i: int| 0 <= i < shorter.len() implies !#[trigger] envelope::names_key(
            shorter[i],
            author,
        ) by {
            assert(!envelope::names_key(tags[i], author));
        }
        lemma_nothing_filtered(shorter, author);
        assert(!envelope::names_key(tags[tags.len() - 1], author));
        assert(shorter.push(tags.last()) =~= tags);
    }
}

/// Whether the permission bits `mode` keep group and others out.
pub open spec fn is_private(mode: u32) -> bool {
    mode & 0o077 == 0
}

/// What is said of an identity that group or others may read or write.
pub open spec fn not_private(path: Seq<char>) -> Seq<char> {
    "discovery identity "@ + path + " must not be readable or writable by group or others"@
}

/// A file is private exactly if all six permission bits of group and others are
/// clear, whatever its owner may do.
pub proof fn private_files_shut_others_out(mode: u32)
    ensures
        is_private(mode) <==> mode % 64 == 0,
{
    assert((mode & 0o077 == 0) <==> (mode % 64 == 0)) by (bit_vector);
}

/// Checks that a discovery identity is kept private.
pub fn ensure_private_file(mode: u32, path: &str) -> (result: Result<(), String>)
    ensures
        match result {
            Ok(_) => is_private(mode),
            Err(error) => !is_private(mode) && error@ == not_private(path@),
        },
{
    if mode & 0o077 != 0 {
        return Err(
            text::join3(
                "discovery identity ",
                path,
                " must not be readable or writable by group or others",
            ),
        );
    }
    Ok(())
}

/// What a stored identity turned out to be.
#[derive(Debug, Clone, PartialEq, Eq)]
pub enum StoredIdentity {
    /// There is none.
    Missing,
    /// It could not be read.
    Unreadable(String),
    /// It was read.
    Found {
        /// What it holds.
        encoded: String,
        /// Its permission bits.
        mode: u32,
    },
}

/// How the discovery identity is obtained.
pub enum IdentityStep {
    /// Use the stored key pair.
    Use(Keys),
    /// Store this text, readable by its owner only, and use the key pair.
    Create(Keys, String),
}

/// What an identity file holds: the secret key in hexadecimal, on a line.
pub open spec fn identity_text(secret: Seq<u8>) -> Seq<char> {
    text::hex(secret) + "\n"@
}

/// Whether `secret` is a usable secret key.
pub open spec fn is_identity(secret: Seq<u8>) -> bool {
    secret.len() == 32 && envelope::public_key_of(secret) is Some
}

/// What is made of a stored identity, or why it is of no use.
pub open spec fn stored_secret(stored: StoredIdentity, path: Seq<char>) -> Result<
    Option<Seq<u8>>,
    Seq<char>,
> {
    match stored {
        StoredIdentity::Missing => Ok(None),
        StoredIdentity::Unreadable(error) => Err(
            "could not read discovery identity "@ + path + ": "@ + error@,
        ),
        StoredIdentity::Found { encoded, mode } => if !is_private(mode) {
            Err(not_private(path))
        } else {
            match envelope::secret_of_text(text::trimmed(encoded@)) {
                Ok(secret) => Ok(Some(secret)),
                Err(error) => Err("invalid discovery identity "@ + path + ": "@ + error),
            }
        },
    }
}

/// A stored identity is used exactly if it is private and holds a key, whatever
/// white space is around it; one is drawn exactly if there is none. Else the
/// reason is told, with the place: first that it cannot be read, then that it is
/// not private, then that it is no key.
pub proof fn stored_identities_are_used_if_private(
    path: Seq<char>,
    encoded: String,
    mode: u32,
    error: String,
)
    ensures
        stored_secret(StoredIdentity::Missing, path) == Ok::<Option<Seq<u8>>, Seq<char>>(None),
        stored_secret(StoredIdentity::Unreadable(error), path) == Err::<
            Option<Seq<u8>>,
            Seq<char>,
        >("could not read discovery identity "@ + path + ": "@ + error@),
        ({
            let stored = stored_secret(StoredIdentity::Found { encoded, mode }, path);
            let key = envelope::secret_of_text(text::trimmed(encoded@));
            &&& mode & 0o077 != 0 ==> stored == Err::<Option<Seq<u8>>, Seq<char>>(
                "discovery identity "@ + path
                    + " must not be readable or writable by group or others"@,
            )
            &&& mode & 0o077 == 0 ==> (key matches Ok(secret) ==> stored == Ok::<
                Option<Seq<u8>>,
                Seq<char>,
            >(Some(secret)))
            &&& mode & 0o077 == 0 ==> (key matches Err(reason) ==> stored == Err::<
                Option<Seq<u8>>,
                Seq<char>,
            >("invalid discovery identity "@ + path + ": "@ + reason))
        }),
{
}

/// Whether `stored` was kept private and holds `contents`.
pub open spec fn holds_text(stored: StoredIdentity, contents: Seq<char>) -> bool {
    match stored {
        StoredIdentity::Found { encoded, mode } => is_private(mode) && encoded@ == contents,
        _ => false,
    }
}

/// An identity that was drawn and stored is the one that is loaded, from a file that
/// stayed private: its text is the 64 digits of the secret key on a line of their
/// own, and these read as that key.
pub proof fn stored_identities_are_loaded(
    secret: Seq<u8>,
    encoded: String,
    mode: u32,
    path: Seq<char>,
)
    requires
        envelope::secret_of_text(text::hex(secret)) == Ok::<Seq<u8>, Seq<char>>(secret),
        secret.len() == 32,
        envelope::public_key_of(secret) is Some,
        encoded@ == text::hex(secret) + "\n"@,
        mode & 0o077 == 0,
    ensures
        is_identity(secret),
        holds_text(StoredIdentity::Found { encoded, mode }, identity_text(secret)),
        stored_secret(StoredIdentity::Found { encoded, mode }, path) == Ok::<
            Option<Seq<u8>>,
            Seq<char>,
        >(Some(secret)),
{
    identity_text_keeps_the_key(secret);
}

/// Only a usable secret key of 32 bytes is an identity, and only a private file
/// holds one.
pub proof fn identities_are_private_keys(secret: Seq<u8>, stored: StoredIdentity)
    ensures
        is_identity(secret) ==> secret.len() == 32 && envelope::public_key_of(secret) is Some,
        holds_text(stored, identity_text(secret)) ==> stored is Found && stored->mode & 0o077 == 0
            && stored->encoded@ == text::hex(secret) + "\n"@,
{
}

/// Loads the persistent discovery identity, or draws one to be stored if there
/// is none. What was stored for an identity is loaded as that identity.
///
/// The key is deliberately separate from the relay signing key. Discovery is
/// public-facing and operators may rotate or revoke it independently.
pub fn load_or_create_identity(stored: StoredIdentity, path: &str) -> (step: Result<
    IdentityStep,
    String,
>)
    ensures
        match stored_secret(stored, path@) {
            Err(reason) => step matches Err(error) && error@ == reason,
            Ok(Some(secret)) => step matches Ok(IdentityStep::Use(keys)) && keys.secret()
                == secret,
            Ok(None) => {
                &&& step matches Ok(IdentityStep::Create(keys, contents))
                &&& contents@ == identity_text(keys.secret())
                &&& is_identity(keys.secret())
            },
        },
        forall|created: Seq<u8>|
            is_identity(created) && holds_text(stored, #[trigger] identity_text(created)) ==> {
                &&& step matches Ok(IdentityStep::Use(keys))
                &&& keys.secret() == created
            },
{
    match stored {
        StoredIdentity::Missing => {
            let keys = Keys::generate();
            let mut contents = keys.secret_hex();
            contents.append("\n");
            Ok(IdentityStep::Create(keys, contents))
        },
        StoredIdentity::Unreadable(error) => {
            let mut message = text::join3("could not read discovery identity ", path, ": ");
            message.append(error.as_str());
            Err(message)
        },
        StoredIdentity::Found { encoded, mode } => {
            match ensure_private_file(mode, path) {
                Ok(_) => {},
                Err(error) => {
                    return Err(error);
                },
            }
            proof {
                assert forall|created: Seq<u8>|
                    is_identity(created) && encoded@ == #[trigger] identity_text(
                        created,
                    ) implies text::trimmed(encoded@) == text::hex(created) by {
                    identity_text_keeps_the_key(created);
                }
            }
            match Keys::parse(text::trim(encoded.as_str())) {
                Ok(keys) => Ok(IdentityStep::Use(keys)),
                Err(error) => {
                    let mut message = text::join3("invalid discovery identity ", path, ": ");
                    message.append(error.as_str());
                    Err(message)
                },
            }
        },
    }
}

/// The text of an identity file reads back, without its line end, as the
/// hexadecimal notation of the key.
pub proof fn identity_text_keeps_the_key(secret: Seq<u8>)
    requires
        secret.len() > 0,
    ensures
        text::trimmed(identity_text(secret)) == text::hex(secret),
{
    let hex = text::hex(secret);
    let line = identity_text(secret);
    reveal_strlit("\n");
    assert(hex.len() == 2 * secret.len());
    assert(line[0] == text::digit_char((secret[0] / 16) as nat));
    assert(!text::is_white_space(line[0]));
    assert(text::trimmed_start(line) == line);
    assert(line.last() == '\n');
    assert(line.drop_last() =~= hex);
    let last = secret.len() - 1;
    assert((2 * last + 1) / 2 == last);
    assert(hex.last() == text::digit_char((secret[last] % 16) as nat));
    assert(!text::is_white_space(hex.last()));
    assert(text::trimmed_end(hex) == hex);
    assert(text::trimmed_end(line) == text::trimmed_end(hex));
}

}
