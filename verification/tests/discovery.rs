use buzz::discovery::{
    announcement, ensure_private_file, load_or_create_identity, IdentityStep, StoredIdentity,
    NIP66_RELAY_DISCOVERY_KIND,
};
use buzz::envelope::{is_verified_event, Keys};
use buzz::relay_url::normalized_relay_url;
use nostr::{JsonUtil, Kind};

fn nips() -> Vec<u32> {
    vec![1, 11, 42]
}

fn event(keys: &Keys, url: &str) -> nostr::Event {
    let json = announcement(keys, url, &nips()).expect("announcement");
    nostr::Event::from_json(json).expect("event")
}

#[test]
fn identity_is_persisted_and_reused() {
    let path = "/var/lib/buzz/discovery.key";
    let Ok(IdentityStep::Create(created, contents)) =
        load_or_create_identity(StoredIdentity::Missing, path)
    else {
        panic!("create identity");
    };
    assert_eq!(contents, format!("{}\n", created.secret_hex()));

    let stored = StoredIdentity::Found {
        encoded: contents,
        mode: 0o100600,
    };
    let Ok(IdentityStep::Use(loaded)) = load_or_create_identity(stored, path) else {
        panic!("load identity");
    };
    assert_eq!(created.public_key(), loaded.public_key());
}

#[test]
fn identities_that_do_not_do_are_reported() {
    let path = "/k";
    let refused = |stored: StoredIdentity| match load_or_create_identity(stored, path) {
        Ok(_) => panic!("expected an error"),
        Err(error) => error,
    };
    assert_eq!(
        refused(StoredIdentity::Unreadable("denied".to_string())),
        "could not read discovery identity /k: denied"
    );
    for mode in [0o100640, 0o100604, 0o100601, 0o100660] {
        assert_eq!(
            refused(StoredIdentity::Found {
                encoded: "whatever".to_string(),
                mode
            }),
            "discovery identity /k must not be readable or writable by group or others"
        );
    }
    assert!(refused(StoredIdentity::Found {
        encoded: "nonsense".to_string(),
        mode: 0o600
    })
    .starts_with("invalid discovery identity /k: "));
    assert_eq!(ensure_private_file(0o700, path), Ok(()));
}

#[test]
fn announcement_is_signed_nip66_event() {
    let keys = Keys::generate();
    let event = event(&keys, "wss://buzz.example/");

    assert_eq!(event.kind, Kind::Custom(NIP66_RELAY_DISCOVERY_KIND));
    assert_eq!(event.pubkey.to_bytes(), keys.public_key().bytes);
    assert!(event.verify().is_ok());
    assert!(is_verified_event(&event.as_json()));
    let forged = event.as_json().replace("\"content\":\"\"", "\"content\":\"forged\"");
    assert!(!is_verified_event(&forged));
    assert!(!is_verified_event("{}"));
    assert!(event
        .tags
        .iter()
        .any(|tag| tag.as_slice() == ["d", "wss://buzz.example/"]));
}

#[test]
fn announcement_normalizes_the_relay_url() {
    let event = event(&Keys::generate(), "wss://BUZZ.example");

    assert!(event
        .tags
        .iter()
        .any(|tag| tag.as_slice() == ["d", "wss://buzz.example/"]));
}

#[test]
fn announcements_list_network_and_nips() {
    let event = event(&Keys::generate(), " ws://buzz.example:8080/x ");
    let tags: Vec<Vec<String>> = event.tags.iter().map(|tag| tag.as_slice().to_vec()).collect();
    let expected: Vec<Vec<&str>> = vec![
        vec!["d", "ws://buzz.example:8080/x"],
        vec!["n", "clearnet"],
        vec!["N", "1"],
        vec!["N", "11"],
        vec!["N", "42"],
    ];
    assert_eq!(tags, expected);
    assert_eq!(event.content, "");
}

#[test]
fn only_plain_websocket_addresses_name_a_relay() {
    let error = "RELAY_URL must be a ws:// or wss:// URL without credentials, query, or fragment";
    for bad in [
        "https://buzz.example/",
        "wss://user@buzz.example/",
        "wss://:secret@buzz.example/",
        "wss://buzz.example/?x=1",
        "wss://buzz.example/#top",
    ] {
        assert_eq!(normalized_relay_url(bad), Err(error.to_string()));
        assert_eq!(
            announcement(&Keys::generate(), bad, &nips()),
            Err(error.to_string())
        );
    }
    assert!(normalized_relay_url("nonsense").is_err());
    assert_eq!(
        normalized_relay_url("\twss://Buzz.Example:443\n"),
        Ok("wss://buzz.example/".to_string())
    );
}

#[test]
fn normalizing_twice_changes_nothing() {
    for (raw, url) in [
        ("WSS://Buzz.Example:0443", "wss://buzz.example/"),
        ("ws:\\\\buzz.example\\a\\..\\b c", "ws://buzz.example/b%20c"),
        ("wss://b\u{fc}zz.example/\u{e9}/%2e/x//", "wss://xn--bzz-hoa.example/%C3%A9/x//"),
        (" wss://0x7f.1:8080/a|b ", "wss://127.0.0.1:8080/a|b"),
        ("ws://[0:0:0:0:0:0:0:1]/.%2E/", "ws://[::1]/"),
        ("wss://@buzz.example/\u{3000}", "wss://buzz.example/"),
    ] {
        assert_eq!(normalized_relay_url(raw), Ok(url.to_string()));
        assert_eq!(normalized_relay_url(url), Ok(url.to_string()));
    }
}

#[test]
fn keys_round_trip_through_their_notations() {
    let keys = Keys::generate();
    let hex = keys.secret_hex();
    assert_eq!(hex.len(), 64);
    let Ok(again) = Keys::parse(&hex) else {
        panic!("a key in hexadecimal");
    };
    assert_eq!(again.public_key(), keys.public_key());
    let public = keys.public_key().to_hex();
    assert_eq!(
        buzz::envelope::PublicKey::parse(&public),
        Some(keys.public_key())
    );
    assert!(Keys::from_secret([0; 32]).is_none());
    assert!(Keys::parse("").is_err());
}
