//! Signed events: what the delivery protocol reads of them.

use vstd::prelude::*;

use crate::hex_text::{hex_32, hex_encode, lemma_encode_decode};
use crate::text::{bytes_eq, text_eq};

verus! {

/// The key that an event is signed with: 32 bytes.
#[derive(Clone, Copy, Debug, Eq, Hash)]
pub struct PublicKey {
    pub bytes: [u8; 32],
}

impl View for PublicKey {
    type V = Seq<u8>;

    open spec fn view(&self) -> Seq<u8> {
        self.bytes@
    }
}

impl PartialEq for PublicKey {
    fn eq(&self, other: &Self) -> (same: bool) {
        let same: bool = bytes_eq(self.bytes.as_slice(), other.bytes.as_slice());
        proof {
            if same {
                assert(self.bytes =~= other.bytes);
            }
        }
        same
    }
}

impl vstd::std_specs::cmp::PartialEqSpecImpl for PublicKey {
    open spec fn obeys_eq_spec() -> bool {
        true
    }

    open spec fn eq_spec(&self, other: &Self) -> bool {
        *self == *other
    }
}

/// `nostr::PublicKey::from_hex`: the 32 bytes of 64 hexadecimal digits of
/// either case; nothing for any other text.
#[verifier::external_body]
fn decode_public_key(text: &str) -> (decoded: Option<[u8; 32]>)
    ensures
        match decoded {
            Some(bytes) => hex_32(text@) == Some(bytes@),
            None => hex_32(text@) is None,
        },
{
    nostr::PublicKey::from_hex(text).ok().map(nostr::PublicKey::to_bytes)
}

/// `nostr::PublicKey::to_hex`: the lower-case digits of the 32 bytes.
#[verifier::external_body]
fn encode_public_key(bytes: [u8; 32]) -> (text: String)
    ensures
        text@ == hex_encode(bytes@),
{
    nostr::PublicKey::from_byte_array(bytes).to_hex()
}

impl PublicKey {
    /// The key that 64 hexadecimal digits denote.
    pub fn from_hex(text: &str) -> (key: Option<PublicKey>)
        ensures
            match key {
                Some(k) => hex_32(text@) == Some(k@),
                None => hex_32(text@) is None,
            },
    {
        match decode_public_key(text) {
            Some(bytes) => Some(PublicKey { bytes }),
            None => None,
        }
    }

    /// The lower-case digits of the key.
    pub fn to_hex(&self) -> (text: String)
        ensures
            text@ == hex_encode(self@),
    {
        encode_public_key(self.bytes)
    }
}

/// The digest that names an event: 32 bytes.
#[derive(Clone, Copy, Debug, Eq, Hash)]
pub struct EventId {
    pub bytes: [u8; 32],
}

impl View for EventId {
    type V = Seq<u8>;

    open spec fn view(&self) -> Seq<u8> {
        self.bytes@
    }
}

impl PartialEq for EventId {
    fn eq(&self, other: &Self) -> (same: bool) {
        let same: bool = bytes_eq(self.bytes.as_slice(), other.bytes.as_slice());
        proof {
            if same {
                assert(self.bytes =~= other.bytes);
            }
        }
        same
    }
}

impl vstd::std_specs::cmp::PartialEqSpecImpl for EventId {
    open spec fn obeys_eq_spec() -> bool {
        true
    }

    open spec fn eq_spec(&self, other: &Self) -> bool {
        *self == *other
    }
}

/// `nostr::EventId::from_hex`: the 32 bytes of 64 hexadecimal digits of either
/// case; nothing for any other text.
#[verifier::external_body]
fn decode_event_id(text: &str) -> (decoded: Option<[u8; 32]>)
    ensures
        match decoded {
            Some(bytes) => hex_32(text@) == Some(bytes@),
            None => hex_32(text@) is None,
        },
{
    nostr::EventId::from_hex(text).ok().map(nostr::EventId::to_bytes)
}

/// `nostr::EventId::to_hex`: the lower-case digits of the 32 bytes.
#[verifier::external_body]
fn encode_event_id(bytes: [u8; 32]) -> (text: String)
    ensures
        text@ == hex_encode(bytes@),
{
    nostr::EventId::from_byte_array(bytes).to_hex()
}

impl EventId {
    /// The identifier that 64 hexadecimal digits denote.
    pub fn from_hex(text: &str) -> (id: Option<EventId>)
        ensures
            match id {
                Some(i) => hex_32(text@) == Some(i@),
                None => hex_32(text@) is None,
            },
    {
        match decode_event_id(text) {
            Some(bytes) => Some(EventId { bytes }),
            None => None,
        }
    }

    /// The lower-case digits of the identifier.
    pub fn to_hex(&self) -> (text: String)
        ensures
            text@ == hex_encode(self@),
    {
        encode_event_id(self.bytes)
    }
}

/// The digits of a key denote that key.
pub proof fn law_public_key_hex_round_trip(key: PublicKey)
    ensures
        hex_32(hex_encode(key@)) == Some(key@),
{
    lemma_encode_decode(key@);
}

/// The digits of an event identifier denote that identifier.
pub proof fn law_event_id_hex_round_trip(id: EventId)
    ensures
        hex_32(hex_encode(id@)) == Some(id@),
{
    lemma_encode_decode(id@);
}

/// Two keys with the same bytes are the same.
pub proof fn lemma_key_view_injective(a: PublicKey, b: PublicKey)
    requires
        a@ == b@,
    ensures
        a == b,
{
    assert forall|i: int| 0 <= i < 32 implies a.bytes[i] == b.bytes[i] by {
        assert(a@[i] == b@[i]);
    }
    assert(a.bytes =~= b.bytes);
}

/// Two event identifiers with the same bytes are the same.
pub proof fn lemma_event_id_view_injective(a: EventId, b: EventId)
    requires
        a@ == b@,
    ensures
        a == b,
{
    assert forall|i: int| 0 <= i < 32 implies a.bytes[i] == b.bytes[i] by {
        assert(a@[i] == b@[i]);
    }
    assert(a.bytes =~= b.bytes);
}

/// The event identifier of these 32 bytes.
pub open spec fn event_id_of(bytes: Seq<u8>) -> EventId {
    choose|id: EventId| id@ == bytes
}

/// An event identifier is the identifier of its bytes.
pub proof fn lemma_event_id_of(id: EventId)
    ensures
        event_id_of(id@) == id,
{
    lemma_event_id_view_injective(event_id_of(id@), id);
}

/// Any 32 bytes are those of an event identifier.
pub proof fn lemma_event_id_exists(bytes: Seq<u8>)
    requires
        bytes.len() == 32,
    ensures
        event_id_of(bytes)@ == bytes,
{
    let id = EventId {
        bytes: [
            bytes[0], bytes[1], bytes[2], bytes[3], bytes[4], bytes[5], bytes[6], bytes[7],
            bytes[8], bytes[9], bytes[10], bytes[11], bytes[12], bytes[13], bytes[14], bytes[15],
            bytes[16], bytes[17], bytes[18], bytes[19], bytes[20], bytes[21], bytes[22], bytes[23],
            bytes[24], bytes[25], bytes[26], bytes[27], bytes[28], bytes[29], bytes[30], bytes[31],
        ],
    };
    assert(id@ =~= bytes);
}

/// One tag of an event: its name and then its values.
#[derive(Debug, PartialEq, Eq)]
pub struct Tag {
    pub values: Vec<String>,
}

/// What a list of texts holds.
pub open spec fn texts(values: Seq<String>) -> Seq<Seq<char>> {
    values.map_values(|value: String| value@)
}

impl View for Tag {
    type V = Seq<Seq<char>>;

    open spec fn view(&self) -> Seq<Seq<char>> {
        texts(self.values@)
    }
}

/// What a list of tags holds.
pub open spec fn tag_texts(tags: Seq<Tag>) -> Seq<Seq<Seq<char>>> {
    tags.map_values(|tag: Tag| tag@)
}

/// `nostr::Tag::parse`: a tag of the values as they stand, wherever there is at
/// least one; an error, given as its text, where there is none.
#[verifier::external_body]
fn parse_tag_values(values: Vec<String>) -> (parsed: Result<Vec<String>, String>)
    ensures
        match parsed {
            Ok(kept) => values@.len() > 0 && texts(kept@) == texts(values@),
            Err(message) => values@.len() == 0 && message@ == "Empty tag"@,
        },
{
    nostr::Tag::parse(values).map(nostr::Tag::to_vec).map_err(|error| error.to_string())
}

impl Tag {
    /// A tag of these values, of which there must be at least one.
    pub fn parse(values: Vec<String>) -> (parsed: Result<Tag, String>)
        ensures
            match parsed {
                Ok(tag) => values@.len() > 0 && tag@ == texts(values@),
                Err(message) => values@.len() == 0 && message@ == "Empty tag"@,
            },
    {
        match parse_tag_values(values) {
            Ok(kept) => Ok(Tag { values: kept }),
            Err(message) => Err(message),
        }
    }

    /// Whether the tag carries this name.
    pub fn is_named(&self, name: &str) -> (named: bool)
        ensures
            named == tag_named(self@, name@),
    {
        self.values.len() > 0 && text_eq(self.values[0].as_str(), name)
    }
}

impl Clone for Tag {
    /// A tag with the same values.
    fn clone(&self) -> (copy: Tag)
        ensures
            copy@ == self@,
    {
        let mut values: Vec<String> = Vec::new();
        let n: usize = self.values.len();
        let mut i: usize = 0;
        while i < n
            invariant
                n == self.values.len(),
                i <= n,
                values.len() == i,
                forall|k: int| 0 <= k < i ==> values@[k]@ == self.values@[k]@,
            decreases n - i,
        {
            values.push(self.values[i].clone());
            i += 1;
        }
        let copy: Tag = Tag { values };
        assert(copy@ =~= self@);
        copy
    }
}

/// Whether a tag has this name, its first value.
pub open spec fn tag_named(tag: Seq<Seq<char>>, name: Seq<char>) -> bool {
    tag.len() > 0 && tag[0] == name
}

/// A signed event.
#[derive(Debug, PartialEq, Eq)]
pub struct Event {
    pub id: EventId,
    pub pubkey: PublicKey,
    /// Unix seconds.
    pub created_at: u64,
    pub kind: u16,
    pub tags: Vec<Tag>,
    pub content: String,
    pub sig: [u8; 64],
}

/// What an event says.
pub struct EventView {
    pub id: Seq<u8>,
    pub pubkey: Seq<u8>,
    pub created_at: u64,
    pub kind: u16,
    pub tags: Seq<Seq<Seq<char>>>,
    pub content: Seq<char>,
    pub sig: Seq<u8>,
}

impl View for Event {
    type V = EventView;

    open spec fn view(&self) -> EventView {
        EventView {
            id: self.id@,
            pubkey: self.pubkey@,
            created_at: self.created_at,
            kind: self.kind,
            tags: tag_texts(self.tags@),
            content: self.content@,
            sig: self.sig@,
        }
    }
}

/// Whether `nostr::Event::verify` accepts an event of these values: its
/// identifier is the digest of the rest, and its signature is its key's. No
/// event with an empty tag is accepted, since `nostr` has no such tag.
pub uninterp spec fn nostr_accepts(
    id: Seq<u8>,
    pubkey: Seq<u8>,
    created_at: u64,
    kind: u16,
    tags: Seq<Seq<Seq<char>>>,
    content: Seq<char>,
    sig: Seq<u8>,
) -> bool;

/// Whether the identifier and the signature of an event are right.
pub open spec fn authentic(event: EventView) -> bool {
    nostr_accepts(
        event.id,
        event.pubkey,
        event.created_at,
        event.kind,
        event.tags,
        event.content,
        event.sig,
    )
}

/// An event of any kind and any author is authentic exactly where `nostr` accepts
/// it as it stands, every value of it.
pub proof fn law_authentic_events_are_accepted_whole(event: Event)
    ensures
        authentic(event@) <==> nostr_accepts(
            event.id@,
            event.pubkey@,
            event.created_at,
            event.kind,
            tag_texts(event.tags@),
            event.content@,
            event.sig@,
        ),
        tag_texts(event.tags@).len() == event.tags@.len(),
        forall|i: int|
            0 <= i < event.tags@.len() ==> (#[trigger] tag_texts(event.tags@)[i]).len()
                == event.tags@[i].values@.len(),
        forall|i: int, j: int|
            0 <= i < event.tags@.len() && 0 <= j < event.tags@[i].values@.len()
                ==> #[trigger] tag_texts(event.tags@)[i][j] == event.tags@[i].values@[j]@,
{
}

/// `nostr::Event::verify` on the event of these values.
#[verifier::external_body]
fn verify_event(event: &Event) -> (accepted: bool)
    ensures
        accepted == nostr_accepts(
            event.id@,
            event.pubkey@,
            event.created_at,
            event.kind,
            tag_texts(event.tags@),
            event.content@,
            event.sig@,
        ),
{
    let id = nostr::EventId::from_byte_array(event.id.bytes);
    let pubkey = nostr::PublicKey::from_byte_array(event.pubkey.bytes);
    let created_at = nostr::Timestamp::from_secs(event.created_at);
    let kind = nostr::Kind::from_u16(event.kind);
    let tags = event.tags.iter().map(|tag| nostr::Tag::parse(tag.values.clone()));
    let tags: Result<Vec<nostr::Tag>, _> = tags.collect();
    let sig = nostr::secp256k1::schnorr::Signature::from_slice(&event.sig);
    match (tags, sig) {
        (Ok(tags), Ok(sig)) => nostr::Event::new(id, pubkey, created_at, kind, tags, &event.content, sig)
            .verify()
            .is_ok(),
        _ => false,
    }
}

impl Event {
    /// Whether the identifier and the signature of the event are right.
    pub fn verify(&self) -> (accepted: bool)
        ensures
            accepted == authentic(self@),
    {
        verify_event(self)
    }
}

impl Clone for Event {
    /// An event that says the same.
    fn clone(&self) -> (copy: Event)
        ensures
            copy@ == self@,
    {
        let mut tags: Vec<Tag> = Vec::new();
        let n: usize = self.tags.len();
        let mut i: usize = 0;
        while i < n
            invariant
                n == self.tags.len(),
                i <= n,
                tags.len() == i,
                forall|k: int| 0 <= k < i ==> tags@[k]@ == self.tags@[k]@,
            decreases n - i,
        {
            tags.push(self.tags[i].clone());
            i += 1;
        }
        assert(tag_texts(tags@) =~= tag_texts(self.tags@));
        Event {
            id: self.id,
            pubkey: self.pubkey,
            created_at: self.created_at,
            kind: self.kind,
            tags,
            content: self.content.clone(),
            sig: self.sig,
        }
    }
}

/// An event not signed yet.
#[derive(Debug, PartialEq, Eq)]
pub struct EventTemplate {
    pub kind: u16,
    pub tags: Vec<Tag>,
    pub content: String,
}

} // verus!
