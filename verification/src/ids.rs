//! Identifiers: UUIDs, communities, and the tenant a request belongs to.

use vstd::prelude::*;

use crate::hex_text::{hex_decode, hex_encode, is_hex, lemma_encode_decode};
use crate::text::{bytes_eq, same_ignoring_case};

verus! {

/// A universally unique identifier: 16 bytes.
#[derive(Clone, Copy, Debug, Eq, Hash)]
pub struct Uuid {
    pub bytes: [u8; 16],
}

impl View for Uuid {
    type V = Seq<u8>;

    open spec fn view(&self) -> Seq<u8> {
        self.bytes@
    }
}

impl PartialEq for Uuid {
    fn eq(&self, other: &Self) -> (same: bool) {
        let same: bool = bytes_eq(self.bytes.as_slice(), other.bytes.as_slice());
        proof {
            if same {
                assert(self.bytes =~= other.bytes);
            }
        }
        same
    }
}

impl vstd::std_specs::cmp::PartialEqSpecImpl for Uuid {
    open spec fn obeys_eq_spec() -> bool {
        true
    }

    open spec fn eq_spec(&self, other: &Self) -> bool {
        *self == *other
    }
}

/// 32 digits in the groups 8, 4, 4, 4, 12, hyphens between them.
pub open spec fn hyphenated(digits: Seq<char>) -> Seq<char> {
    digits.subrange(0, 8) + seq!['-'] + digits.subrange(8, 12) + seq!['-'] + digits.subrange(12, 16)
        + seq!['-'] + digits.subrange(16, 20) + seq!['-'] + digits.subrange(20, 32)
}

/// The characters of a 36-character text between its hyphens, where all four
/// stand in their places.
pub open spec fn unhyphenated(s: Seq<char>) -> Option<Seq<char>> {
    if s.len() == 36 && s[8] == '-' && s[13] == '-' && s[18] == '-' && s[23] == '-' {
        Some(
            s.subrange(0, 8) + s.subrange(9, 13) + s.subrange(14, 18) + s.subrange(19, 23)
                + s.subrange(24, 36),
        )
    } else {
        None
    }
}

/// The 32 digits of a UUID's text, in any of its four forms: the digits alone,
/// hyphenated, hyphenated in braces, and hyphenated after `urn:uuid:`.
pub open spec fn uuid_digits(s: Seq<char>) -> Option<Seq<char>> {
    if s.len() == 32 {
        Some(s)
    } else if s.len() == 38 && s[0] == '{' && s[37] == '}' {
        unhyphenated(s.subrange(1, 37))
    } else if s.len() == 45 && same_ignoring_case(s.subrange(0, 9), "urn:uuid:"@) {
        unhyphenated(s.subrange(9, 45))
    } else {
        unhyphenated(s)
    }
}

/// The 16 bytes that a UUID's text denotes.
pub open spec fn uuid_of_text(s: Seq<char>) -> Option<Seq<u8>> {
    match uuid_digits(s) {
        Some(digits) => if is_hex(digits) {
            Some(hex_decode(digits))
        } else {
            None
        },
        None => None,
    }
}

/// The text of a UUID: hyphenated lower-case digits.
pub open spec fn uuid_text(bytes: Seq<u8>) -> Seq<char> {
    hyphenated(hex_encode(bytes))
}

/// `uuid::Uuid::parse_str`: the UUID that the text denotes in its simple,
/// hyphenated, braced or URN form, its digits of either case; nothing for any
/// other text.
#[verifier::external_body]
fn parse_uuid(text: &str) -> (parsed: Option<[u8; 16]>)
    ensures
        match parsed {
            Some(bytes) => uuid_of_text(text@) == Some(bytes@),
            None => uuid_of_text(text@) is None,
        },
{
    ::uuid::Uuid::parse_str(text).ok().map(::uuid::Uuid::into_bytes)
}

/// The `Display` of `uuid::Uuid`: lower-case digits, hyphenated.
#[verifier::external_body]
fn format_uuid(bytes: [u8; 16]) -> (text: String)
    ensures
        text@ == uuid_text(bytes@),
{
    ::uuid::Uuid::from_bytes(bytes).to_string()
}

impl Uuid {
    /// The UUID that the text denotes, in any of its four forms.
    pub fn parse_str(text: &str) -> (parsed: Option<Uuid>)
        ensures
            match parsed {
                Some(id) => uuid_of_text(text@) == Some(id@),
                None => uuid_of_text(text@) is None,
            },
    {
        match parse_uuid(text) {
            Some(bytes) => Some(Uuid { bytes }),
            None => None,
        }
    }

    /// The hyphenated lower-case text of the UUID.
    pub fn to_string(&self) -> (text: String)
        ensures
            text@ == uuid_text(self@),
    {
        format_uuid(self.bytes)
    }
}

/// Taking the hyphens out of hyphenated digits gives the digits back.
proof fn lemma_hyphens(d: Seq<char>)
    requires
        d.len() == 32,
    ensures
        hyphenated(d).len() == 36,
        unhyphenated(hyphenated(d)) == Some(d),
{
    let s = hyphenated(d);
    assert(s.subrange(0, 8) =~= d.subrange(0, 8));
    assert(s.subrange(9, 13) =~= d.subrange(8, 12));
    assert(s.subrange(14, 18) =~= d.subrange(12, 16));
    assert(s.subrange(19, 23) =~= d.subrange(16, 20));
    assert(s.subrange(24, 36) =~= d.subrange(20, 32));
    assert(d =~= d.subrange(0, 8) + d.subrange(8, 12) + d.subrange(12, 16) + d.subrange(16, 20)
        + d.subrange(20, 32));
}

/// The text of a UUID denotes that UUID.
pub proof fn law_uuid_text_round_trip(id: Uuid)
    ensures
        uuid_of_text(uuid_text(id@)) == Some(id@),
{
    lemma_encode_decode(id@);
    lemma_hyphens(hex_encode(id@));
}

/// The text of a UUID takes 36 characters, and different UUIDs have different
/// texts.
pub proof fn law_uuid_texts_tell_uuids_apart(a: Uuid, b: Uuid)
    ensures
        uuid_text(a@).len() == 36,
        uuid_text(a@) == uuid_text(b@) ==> a == b,
{
    law_uuid_text_round_trip(a);
    law_uuid_text_round_trip(b);
    lemma_encode_decode(a@);
    lemma_hyphens(hex_encode(a@));
    if a@ == b@ {
        lemma_uuid_view_injective(a, b);
    }
}

/// Two UUIDs with the same bytes are the same.
pub proof fn lemma_uuid_view_injective(a: Uuid, b: Uuid)
    requires
        a@ == b@,
    ensures
        a == b,
{
    assert forall|i: int| 0 <= i < 16 implies a.bytes[i] == b.bytes[i] by {
        assert(a@[i] == b@[i]);
    }
    assert(a.bytes =~= b.bytes);
}

/// The community that owns a delivery.
#[derive(Clone, Copy, Debug, Eq, Hash)]
pub struct CommunityId {
    pub id: Uuid,
}

impl PartialEq for CommunityId {
    fn eq(&self, other: &Self) -> (same: bool) {
        self.id == other.id
    }
}

impl vstd::std_specs::cmp::PartialEqSpecImpl for CommunityId {
    open spec fn obeys_eq_spec() -> bool {
        true
    }

    open spec fn eq_spec(&self, other: &Self) -> bool {
        *self == *other
    }
}

impl CommunityId {
    /// The community with this UUID.
    pub fn from_uuid(id: Uuid) -> (community: CommunityId)
        ensures
            community.id == id,
    {
        CommunityId { id }
    }

    /// The UUID of the community.
    pub fn as_uuid(&self) -> (id: Uuid)
        ensures
            id == self.id,
    {
        self.id
    }
}

/// The community that the host of a request resolved to.
#[derive(Debug)]
pub struct TenantContext {
    pub community_id: CommunityId,
    pub host: String,
}

impl Clone for TenantContext {
    fn clone(&self) -> (copy: TenantContext)
        ensures
            copy == *self,
    {
        TenantContext { community_id: self.community_id, host: self.host.clone() }
    }
}

impl TenantContext {
    /// The context of a host that resolved to a community.
    pub fn resolved(community_id: CommunityId, host: &str) -> (tenant: TenantContext)
        ensures
            tenant.community_id == community_id,
            tenant.host@ == host@,
    {
        TenantContext { community_id, host: host.to_owned() }
    }

    /// The community of the request.
    pub fn community(&self) -> (community: CommunityId)
        ensures
            community == self.community_id,
    {
        self.community_id
    }
}

} // verus!
