//! Identifiers, hexadecimal text, events.

use buzz_delivery::event::{Event, EventId, PublicKey, Tag};
use buzz_delivery::hex_text::hex_text;
use buzz_delivery::ids::{CommunityId, TenantContext, Uuid};
use buzz_delivery::text::{blank, bytes_eq, host_or_empty, text_eq, text_ref};
use nostr::{EventBuilder, Keys};

#[test]
fn uuid_text_is_read_in_its_four_forms() {
    let id = Uuid {
        bytes: [
            0x6f, 0x96, 0x19, 0xff, 0x8b, 0x86, 0xd0, 0x11, 0xb4, 0x2d, 0x00, 0xcf, 0x4f, 0xc9, 0x64,
            0xff,
        ],
    };
    for text in [
        "6f9619ff8b86d011b42d00cf4fc964ff",
        "6F9619FF-8b86-d011-b42d-00cf4fc964ff",
        "{6f9619ff-8b86-d011-b42d-00cf4fc964ff}",
        "urn:uuid:6f9619ff-8b86-d011-b42d-00cf4fc964ff",
        "URN:UUID:6f9619ff-8b86-d011-b42d-00cf4fc964ff",
    ] {
        assert_eq!(Uuid::parse_str(text), Some(id), "{text}");
    }
    for text in [
        "",
        "6f9619ff8b86d011b42d00cf4fc964f",
        "6f9619ff8b86d011b42d00cf4fc964fg",
        "6f9619ff-8b86-d011-b42d00cf-4fc964ff",
        "{6f9619ff-8b86-d011-b42d-00cf4fc964ff",
        "{6f9619ff8b86d011b42d00cf4fc964ff}",
        "urn:uuid:6f9619ff8b86d011b42d00cf4fc964ff",
        " 6f9619ff-8b86-d011-b42d-00cf4fc964ff",
    ] {
        assert_eq!(Uuid::parse_str(text), None, "{text}");
    }
}

#[test]
fn uuid_text_round_trips() {
    for _ in 0..20 {
        let id = Uuid { bytes: uuid::Uuid::new_v4().into_bytes() };
        assert_eq!(Uuid::parse_str(&id.to_string()), Some(id));
    }
    let id = Uuid { bytes: [0xab; 16] };
    assert_eq!(id.to_string(), "abababab-abab-abab-abab-abababababab");
}

#[test]
fn hex_text_lists_the_high_half_first() {
    assert_eq!(hex_text(&[0x00, 0x1f, 0xa0, 0xff]), "001fa0ff");
    assert_eq!(hex_text(&[]), "");
}

#[test]
fn keys_and_event_ids_are_64_digits_of_either_case() {
    let digits = "0123456789abcdefABCDEF0123456789".repeat(2);
    let key = PublicKey::from_hex(&digits).expect("key");
    let id = EventId::from_hex(&digits).expect("event id");
    assert_eq!(key.bytes[0], 0x01);
    assert_eq!(key.bytes[31], 0x89);
    assert_eq!(key.to_hex(), digits.to_lowercase());
    assert_eq!(id.to_hex(), digits.to_lowercase());
    assert_eq!(key.bytes, id.bytes);
    for text in ["", "11", &"1".repeat(63), &"1".repeat(65), &"g".repeat(64), &"é".repeat(32)] {
        assert_eq!(PublicKey::from_hex(text), None);
        assert_eq!(EventId::from_hex(text), None);
    }
}

#[test]
fn tags_need_a_name() {
    assert_eq!(Tag::parse(vec![]), Err("Empty tag".to_owned()));
    let tag = Tag::parse(vec!["e".to_owned(), "".to_owned()]).expect("tag");
    assert_eq!(tag.values, ["e", ""]);
    assert!(tag.is_named("e"));
    assert!(!tag.is_named("p"));
    assert_eq!(tag.clone(), tag);
    assert!(!Tag { values: vec![] }.is_named(""));
}

#[test]
fn events_are_verified_by_identifier_and_signature() {
    let keys = Keys::generate();
    let event = EventBuilder::text_note("content")
        .tags([nostr::Tag::parse(["e", "x"]).expect("tag")])
        .sign_with_keys(&keys)
        .expect("sign");
    let genuine = Event {
        id: EventId { bytes: event.id.to_bytes() },
        pubkey: PublicKey { bytes: event.pubkey.to_bytes() },
        created_at: event.created_at.as_secs(),
        kind: event.kind.as_u16(),
        tags: event.tags.iter().map(|tag| Tag { values: tag.as_slice().to_vec() }).collect(),
        content: event.content.clone(),
        sig: event.sig.serialize(),
    };
    assert!(genuine.verify());
    assert_eq!(genuine.clone(), genuine);

    let mut forged = vec![
        genuine.clone(),
        genuine.clone(),
        genuine.clone(),
        genuine.clone(),
        genuine.clone(),
        genuine.clone(),
        genuine.clone(),
    ];
    forged[0].id.bytes[0] ^= 1;
    forged[1].pubkey = PublicKey { bytes: Keys::generate().public_key().to_bytes() };
    forged[2].created_at += 1;
    forged[3].kind += 1;
    forged[4].tags.push(Tag { values: vec!["p".to_owned()] });
    forged[5].content = "tampered".to_owned();
    forged[6].sig[0] ^= 1;
    for event in forged {
        assert!(!event.verify());
    }
    let mut empty_tag = genuine.clone();
    empty_tag.tags = vec![Tag { values: vec![] }];
    assert!(!empty_tag.verify());
}

#[test]
fn tenant_keeps_its_community() {
    let community = CommunityId::from_uuid(Uuid { bytes: [7; 16] });
    let tenant = TenantContext::resolved(community, "agent.example");
    assert_eq!(tenant.community(), community);
    assert_eq!(tenant.community().as_uuid(), Uuid { bytes: [7; 16] });
    assert_eq!(tenant.host, "agent.example");
}

#[test]
fn blank_text_is_unicode_white_space() {
    for text in ["", " ", "\t\r\n\u{b}\u{c}", "\u{85}\u{a0}\u{1680}\u{2000}\u{200a}\u{2028}\u{2029}\u{202f}\u{205f}\u{3000}"] {
        assert!(blank(text));
    }
    for text in ["a", " a ", "\u{200b}", "\u{feff}", "\u{180e}"] {
        assert!(!blank(text));
    }
}

#[test]
fn texts_and_bytes_are_compared_whole() {
    assert!(text_eq("é", "é"));
    assert!(!text_eq("é", "e"));
    assert!(!text_eq("a", "ab"));
    assert!(bytes_eq(&[1, 2], &[1, 2]));
    assert!(!bytes_eq(&[1, 2], &[1, 3]));
    assert_eq!(host_or_empty(&None), "");
    assert_eq!(host_or_empty(&Some("host".to_owned())), "host");
    assert_eq!(text_ref(&Some("tag".to_owned())), Some("tag"));
    assert_eq!(text_ref(&None), None);
}
