//! Canonical, zero-I/O vocabulary for durable workflow message delivery.
//!
//! This module describes protocol identity only. Persistence, relay admission,
//! wake publication, and dispatch are owned elsewhere.

use vstd::prelude::*;

use crate::event::{
    law_public_key_hex_round_trip, lemma_key_view_injective, tag_texts, texts, Event, EventId,
    EventTemplate, EventView, PublicKey, Tag,
};
use crate::hex_text::{hex_32, hex_encode};
use crate::ids::{law_uuid_text_round_trip, uuid_of_text, uuid_text, CommunityId, Uuid};
use crate::kind::{KIND_STREAM_MESSAGE, KIND_WORKFLOW_AGENT_WAKE};
use crate::text::{blank, decimal, decimal_text, is_blank, text_eq};

verus! {

/// The target class admitted by the durable workflow delivery protocol.
pub const WORKFLOW_DELIVERY_TARGET: &'static str = "message-v1";

/// The marker on a `p` tag that identifies a managed-agent recipient.
pub const WORKFLOW_DELIVERY_TARGET_MARKER: &'static str = "message-v1";

/// The tag naming a durable delivery on an ephemeral wake hint.
pub const WORKFLOW_DELIVERY_WAKE_TAG: &'static str = "delivery";

/// One stable durable-delivery identifier.
#[derive(Clone, Copy, Debug, Eq, Hash)]
pub struct WorkflowDeliveryId {
    pub id: Uuid,
}

impl View for WorkflowDeliveryId {
    type V = Uuid;

    open spec fn view(&self) -> Uuid {
        self.id
    }
}

impl PartialEq for WorkflowDeliveryId {
    fn eq(&self, other: &Self) -> (same: bool) {
        self.id == other.id
    }
}

impl vstd::std_specs::cmp::PartialEqSpecImpl for WorkflowDeliveryId {
    open spec fn obeys_eq_spec() -> bool {
        true
    }

    open spec fn eq_spec(&self, other: &Self) -> bool {
        *self == *other
    }
}

impl WorkflowDeliveryId {
    /// Construct an identifier from its UUID representation.
    pub fn from_uuid(id: Uuid) -> (delivery_id: WorkflowDeliveryId)
        ensures
            delivery_id@ == id,
    {
        WorkflowDeliveryId { id }
    }

    /// Return the UUID representation.
    pub fn as_uuid(self) -> (id: Uuid)
        ensures
            id == self@,
    {
        self.id
    }

    /// The text of the identifier: that of its UUID.
    pub fn to_string(&self) -> (text: String)
        ensures
            text@ == uuid_text(self@@),
    {
        self.id.to_string()
    }
}

/// Identity of the distinct authority classes that can cause a workflow run.
///
/// Webhook identity is an opaque server-generated invocation ID: private
/// webhook payload and secrets deliberately never appear in messages or wakes.
#[derive(Clone, Copy, Debug, Eq)]
pub enum WorkflowDeliveryCause {
    /// A signed trigger or owner-command event.
    Event(EventId),
    /// A scheduled firing at this exact Unix-second slot.
    Schedule {
        /// Authoritative schedule instant, measured in Unix seconds.
        scheduled_for_unix_seconds: i64,
    },
    /// An opaque, durable server-side webhook invocation identity.
    Webhook {
        /// Stable invocation UUID, not a webhook secret or payload.
        invocation_id: Uuid,
    },
}

impl PartialEq for WorkflowDeliveryCause {
    fn eq(&self, other: &Self) -> (same: bool) {
        match (*self, *other) {
            (WorkflowDeliveryCause::Event(a), WorkflowDeliveryCause::Event(b)) => a == b,
            (
                WorkflowDeliveryCause::Schedule { scheduled_for_unix_seconds: a },
                WorkflowDeliveryCause::Schedule { scheduled_for_unix_seconds: b },
            ) => a == b,
            (
                WorkflowDeliveryCause::Webhook { invocation_id: a },
                WorkflowDeliveryCause::Webhook { invocation_id: b },
            ) => a == b,
            _ => false,
        }
    }
}

impl vstd::std_specs::cmp::PartialEqSpecImpl for WorkflowDeliveryCause {
    open spec fn obeys_eq_spec() -> bool {
        true
    }

    open spec fn eq_spec(&self, other: &Self) -> bool {
        *self == *other
    }
}

/// Immutable identity which must agree across durable state, visible message,
/// wake hints, API requests, and verification by the agent.
#[derive(Debug, Eq)]
pub struct WorkflowDeliveryBinding {
    /// Server-resolved community that owns the delivery.
    pub community_id: CommunityId,
    /// Workflow definition selected for the run.
    pub workflow_id: Uuid,
    /// Durable workflow run.
    pub run_id: Uuid,
    /// Stable, non-empty workflow step identifier.
    pub step_id: String,
    /// Managed agent allowed to claim the delivery.
    pub target_pubkey: PublicKey,
    /// Exact owner-signed definition revision.
    pub definition_event_id: EventId,
    /// Visible message created for this delivery.
    pub message_event_id: EventId,
    /// Canonical identity of the authority that caused this run.
    pub cause: WorkflowDeliveryCause,
}

/// What a binding identifies.
pub struct BindingView {
    pub community_id: CommunityId,
    pub workflow_id: Uuid,
    pub run_id: Uuid,
    pub step_id: Seq<char>,
    pub target_pubkey: PublicKey,
    pub definition_event_id: EventId,
    pub message_event_id: EventId,
    pub cause: WorkflowDeliveryCause,
}

impl View for WorkflowDeliveryBinding {
    type V = BindingView;

    open spec fn view(&self) -> BindingView {
        BindingView {
            community_id: self.community_id,
            workflow_id: self.workflow_id,
            run_id: self.run_id,
            step_id: self.step_id@,
            target_pubkey: self.target_pubkey,
            definition_event_id: self.definition_event_id,
            message_event_id: self.message_event_id,
            cause: self.cause,
        }
    }
}

/// What a receipt asserts: that the relay produced the binding's message for this
/// delivery.
#[derive(Debug)]
pub struct WorkflowDeliveryReceipt {
    pub delivery_id: WorkflowDeliveryId,
    pub binding: WorkflowDeliveryBinding,
}

impl Clone for WorkflowDeliveryBinding {
    fn clone(&self) -> (copy: WorkflowDeliveryBinding)
        ensures
            copy == *self,
    {
        WorkflowDeliveryBinding {
            community_id: self.community_id,
            workflow_id: self.workflow_id,
            run_id: self.run_id,
            step_id: self.step_id.clone(),
            target_pubkey: self.target_pubkey,
            definition_event_id: self.definition_event_id,
            message_event_id: self.message_event_id,
            cause: self.cause,
        }
    }
}

impl PartialEq for WorkflowDeliveryBinding {
    fn eq(&self, other: &Self) -> (same: bool) {
        self.community_id == other.community_id && self.workflow_id == other.workflow_id
            && self.run_id == other.run_id && self.step_id == other.step_id && self.target_pubkey
            == other.target_pubkey && self.definition_event_id == other.definition_event_id
            && self.message_event_id == other.message_event_id && self.cause == other.cause
    }
}

impl vstd::std_specs::cmp::PartialEqSpecImpl for WorkflowDeliveryBinding {
    open spec fn obeys_eq_spec() -> bool {
        true
    }

    open spec fn eq_spec(&self, other: &Self) -> bool {
        self@ == other@
    }
}

/// Canonical failures while constructing or parsing delivery protocol values.
#[derive(Debug, PartialEq, Eq)]
pub enum WorkflowDeliveryError {
    /// A workflow step identity was blank or whitespace only.
    EmptyStepId,
    /// A visible message was not a stream message.
    WrongMessageKind(u16),
    /// A visible message did not match its binding's signed event ID.
    MessageEventIdMismatch,
    /// A binding target was absent from the visible message's `message-v1` tags.
    MissingMessageV1Target,
    /// A `message-v1` tag did not use the canonical four-field p-tag grammar.
    InvalidMessageV1Tag,
    /// A `message-v1` recipient appeared more than once.
    DuplicateMessageV1Target,
    /// A wake was not of the wake kind.
    WrongWakeKind(u16),
    /// A wake carried non-empty content.
    WakeHasContent,
    /// A required wake tag was absent.
    MissingWakeTag(&'static str),
    /// A required wake tag occurred more than once.
    DuplicateWakeTag(&'static str),
    /// A wake tag did not belong to the identifier-only grammar.
    UnexpectedWakeTag,
    /// The delivery tag did not carry a UUID.
    InvalidDeliveryId,
    /// A public key was malformed.
    InvalidPublicKey,
    /// Construction of a protocol tag was refused.
    InvalidTag(String),
}

/// The message of a failure.
pub open spec fn error_text(error: WorkflowDeliveryError) -> Seq<char> {
    match error {
        WorkflowDeliveryError::EmptyStepId => "workflow delivery step_id must not be empty"@,
        WorkflowDeliveryError::WrongMessageKind(kind) => {
            "workflow delivery message must be kind 9, got "@ + decimal(kind as nat)
        },
        WorkflowDeliveryError::MessageEventIdMismatch => {
            "workflow delivery message event ID does not match binding"@
        },
        WorkflowDeliveryError::MissingMessageV1Target => {
            "workflow delivery message has no matching message-v1 target"@
        },
        WorkflowDeliveryError::InvalidMessageV1Tag => {
            "workflow delivery message has malformed message-v1 target tag"@
        },
        WorkflowDeliveryError::DuplicateMessageV1Target => {
            "workflow delivery message has duplicate message-v1 target"@
        },
        WorkflowDeliveryError::WrongWakeKind(kind) => {
            "workflow delivery wake must be kind 24620, got "@ + decimal(kind as nat)
        },
        WorkflowDeliveryError::WakeHasContent => "workflow delivery wake content must be empty"@,
        WorkflowDeliveryError::MissingWakeTag(tag) => {
            "workflow delivery wake is missing "@ + tag@ + " tag"@
        },
        WorkflowDeliveryError::DuplicateWakeTag(tag) => {
            "workflow delivery wake has duplicate "@ + tag@ + " tag"@
        },
        WorkflowDeliveryError::UnexpectedWakeTag => "workflow delivery wake has an unexpected tag"@,
        WorkflowDeliveryError::InvalidDeliveryId => {
            "workflow delivery wake delivery tag must contain a UUID"@
        },
        WorkflowDeliveryError::InvalidPublicKey => "workflow delivery public key is invalid"@,
        WorkflowDeliveryError::InvalidTag(message) => {
            "workflow delivery tag is invalid: "@ + message@
        },
    }
}

impl WorkflowDeliveryError {
    /// The message of the failure.
    pub fn to_string(&self) -> (text: String)
        ensures
            text@ == error_text(*self),
    {
        match self {
            WorkflowDeliveryError::EmptyStepId => {
                "workflow delivery step_id must not be empty".to_owned()
            },
            WorkflowDeliveryError::WrongMessageKind(kind) => {
                "workflow delivery message must be kind 9, got ".to_owned().concat(
                    decimal_text(*kind).as_str(),
                )
            },
            WorkflowDeliveryError::MessageEventIdMismatch => {
                "workflow delivery message event ID does not match binding".to_owned()
            },
            WorkflowDeliveryError::MissingMessageV1Target => {
                "workflow delivery message has no matching message-v1 target".to_owned()
            },
            WorkflowDeliveryError::InvalidMessageV1Tag => {
                "workflow delivery message has malformed message-v1 target tag".to_owned()
            },
            WorkflowDeliveryError::DuplicateMessageV1Target => {
                "workflow delivery message has duplicate message-v1 target".to_owned()
            },
            WorkflowDeliveryError::WrongWakeKind(kind) => {
                "workflow delivery wake must be kind 24620, got ".to_owned().concat(
                    decimal_text(*kind).as_str(),
                )
            },
            WorkflowDeliveryError::WakeHasContent => {
                "workflow delivery wake content must be empty".to_owned()
            },
            WorkflowDeliveryError::MissingWakeTag(tag) => {
                "workflow delivery wake is missing ".to_owned().concat(tag).concat(" tag")
            },
            WorkflowDeliveryError::DuplicateWakeTag(tag) => {
                "workflow delivery wake has duplicate ".to_owned().concat(tag).concat(" tag")
            },
            WorkflowDeliveryError::UnexpectedWakeTag => {
                "workflow delivery wake has an unexpected tag".to_owned()
            },
            WorkflowDeliveryError::InvalidDeliveryId => {
                "workflow delivery wake delivery tag must contain a UUID".to_owned()
            },
            WorkflowDeliveryError::InvalidPublicKey => {
                "workflow delivery public key is invalid".to_owned()
            },
            WorkflowDeliveryError::InvalidTag(message) => {
                "workflow delivery tag is invalid: ".to_owned().concat(message.as_str())
            },
        }
    }
}

/// A tag that claims the `message-v1` marker: a `p` tag with the marker as its
/// fourth value.
pub open spec fn claims_message_v1(tag: Seq<Seq<char>>) -> bool {
    tag.len() > 3 && tag[0] == "p"@ && tag[3] == WORKFLOW_DELIVERY_TARGET_MARKER@
}

/// The recipients that a list of tags admits, in their order, or the failure of
/// the first claiming tag that is malformed or repeats a recipient.
pub open spec fn admitted_targets(tags: Seq<Seq<Seq<char>>>) -> Result<
    Seq<Seq<u8>>,
    WorkflowDeliveryError,
>
    decreases tags.len(),
{
    if tags.len() == 0 {
        Ok(Seq::empty())
    } else {
        match admitted_targets(tags.drop_last()) {
            Err(error) => Err(error),
            Ok(targets) => with_target(targets, tags.last()),
        }
    }
}

/// The recipients after one more tag.
pub open spec fn with_target(targets: Seq<Seq<u8>>, tag: Seq<Seq<char>>) -> Result<
    Seq<Seq<u8>>,
    WorkflowDeliveryError,
> {
    if !claims_message_v1(tag) {
        Ok(targets)
    } else if tag.len() != 4 {
        Err(WorkflowDeliveryError::InvalidMessageV1Tag)
    } else {
        match hex_32(tag[1]) {
            None => Err(WorkflowDeliveryError::InvalidPublicKey),
            Some(target) => if targets.contains(target) {
                Err(WorkflowDeliveryError::DuplicateMessageV1Target)
            } else {
                Ok(targets.push(target))
            },
        }
    }
}

/// The recipients that an event admits; only a stream message admits any.
pub open spec fn message_targets(event: EventView) -> Result<Seq<Seq<u8>>, WorkflowDeliveryError> {
    if event.kind != KIND_STREAM_MESSAGE {
        Err(WorkflowDeliveryError::WrongMessageKind(event.kind))
    } else {
        admitted_targets(event.tags)
    }
}

/// The bytes of a list of keys.
pub open spec fn key_bytes(keys: Seq<PublicKey>) -> Seq<Seq<u8>> {
    keys.map_values(|key: PublicKey| key@)
}

/// Whether an event is the visible message of a binding, or how it is not.
pub open spec fn message_admission(binding: BindingView, event: EventView) -> Result<
    (),
    WorkflowDeliveryError,
> {
    if event.kind != KIND_STREAM_MESSAGE {
        Err(WorkflowDeliveryError::WrongMessageKind(event.kind))
    } else if event.id != binding.message_event_id@ {
        Err(WorkflowDeliveryError::MessageEventIdMismatch)
    } else {
        match message_targets(event) {
            Err(error) => Err(error),
            Ok(targets) => if targets.contains(binding.target_pubkey@) {
                Ok(())
            } else {
                Err(WorkflowDeliveryError::MissingMessageV1Target)
            },
        }
    }
}

/// The tag that opts a recipient into `message-v1`.
pub open spec fn target_tag(target: Seq<u8>) -> Seq<Seq<char>> {
    seq!["p"@, hex_encode(target), ""@, WORKFLOW_DELIVERY_TARGET_MARKER@]
}

fn parse_pubkey(value: &str) -> (parsed: Result<PublicKey, WorkflowDeliveryError>)
    ensures
        match parsed {
            Ok(key) => hex_32(value@) == Some(key@),
            Err(error) => hex_32(value@) is None && error
                == WorkflowDeliveryError::InvalidPublicKey,
        },
{
    match PublicKey::from_hex(value) {
        Some(key) => Ok(key),
        None => Err(WorkflowDeliveryError::InvalidPublicKey),
    }
}

fn parse_tag(values: Vec<String>) -> (parsed: Result<Tag, WorkflowDeliveryError>)
    ensures
        match parsed {
            Ok(tag) => values@.len() > 0 && tag@ == texts(values@),
            Err(WorkflowDeliveryError::InvalidTag(message)) => values@.len() == 0 && message@
                == "Empty tag"@,
            Err(_) => false,
        },
{
    match Tag::parse(values) {
        Ok(tag) => Ok(tag),
        Err(message) => Err(WorkflowDeliveryError::InvalidTag(message)),
    }
}

/// Whether the list holds the key.
pub fn contains_key(keys: &Vec<PublicKey>, key: &PublicKey) -> (found: bool)
    ensures
        found == key_bytes(keys@).contains(key@),
{
    let n: usize = keys.len();
    let mut i: usize = 0;
    while i < n
        invariant
            n == keys.len(),
            i <= n,
            forall|k: int| 0 <= k < i ==> keys@[k]@ != key@,
        decreases n - i,
    {
        if keys[i] == *key {
            assert(key_bytes(keys@)[i as int] == key@);
            return true;
        }
        proof {
            if keys@[i as int]@ == key@ {
                lemma_key_view_injective(keys@[i as int], *key);
            }
        }
        i += 1;
    }
    false
}

/// Parse all unique managed-agent recipients admitted by `message-v1` tags.
///
/// Other tags of the message are intentionally ignored. A malformed tag which
/// claims the `message-v1` marker fails closed rather than becoming a target.
pub fn message_v1_targets(event: &Event) -> (parsed: Result<Vec<PublicKey>, WorkflowDeliveryError>)
    ensures
        match parsed {
            Ok(keys) => message_targets(event@) == Ok::<_, WorkflowDeliveryError>(key_bytes(keys@)),
            Err(error) => message_targets(event@) == Err::<Seq<Seq<u8>>, _>(error),
        },
{
    if event.kind != KIND_STREAM_MESSAGE {
        return Err(WorkflowDeliveryError::WrongMessageKind(event.kind));
    }
    let mut targets: Vec<PublicKey> = Vec::new();
    let ghost tags = tag_texts(event.tags@);
    let n: usize = event.tags.len();
    let mut i: usize = 0;
    assert(tags.take(0) =~= Seq::empty());
    assert(key_bytes(targets@) =~= Seq::empty());
    while i < n
        invariant
            n == event.tags.len(),
            tags == tag_texts(event.tags@),
            event@.kind == KIND_STREAM_MESSAGE,
            i <= n,
            admitted_targets(tags.take(i as int)) == Ok::<_, WorkflowDeliveryError>(
                key_bytes(targets@),
            ),
        decreases n - i,
    {
        let values: &Vec<String> = &event.tags[i].values;
        let ghost tag = tags[i as int];
        proof {
            assert(tags.take(i + 1).drop_last() =~= tags.take(i as int));
            assert(tags.take(i + 1).last() == tag);
            assert(tag == event.tags@[i as int]@);
            lemma_admission_failure_persists(tags, i + 1);
        }
        i += 1;
        if values.len() > 3 && text_eq(values[0].as_str(), "p") && text_eq(
            values[3].as_str(),
            WORKFLOW_DELIVERY_TARGET_MARKER,
        ) {
            if values.len() != 4 {
                return Err(WorkflowDeliveryError::InvalidMessageV1Tag);
            }
            match parse_pubkey(values[1].as_str()) {
                Err(error) => {
                    return Err(error);
                },
                Ok(target) => {
                    if contains_key(&targets, &target) {
                        return Err(WorkflowDeliveryError::DuplicateMessageV1Target);
                    }
                    let ghost before = targets@;
                    targets.push(target);
                    assert(key_bytes(targets@) =~= key_bytes(before).push(target@));
                },
            }
        }
    }
    assert(tags.take(n as int) =~= tags);
    Ok(targets)
}

proof fn lemma_admission_failure_persists(tags: Seq<Seq<Seq<char>>>, n: int)
    requires
        0 <= n <= tags.len(),
    ensures
        admitted_targets(tags.take(n)) is Err ==> admitted_targets(tags) == admitted_targets(
            tags.take(n),
        ),
    decreases tags.len() - n,
{
    if n < tags.len() {
        assert(tags.take(n + 1).drop_last() =~= tags.take(n));
        lemma_admission_failure_persists(tags, n + 1);
    } else {
        assert(tags.take(n) =~= tags);
    }
}

impl WorkflowDeliveryBinding {
    /// The step identifier is not blank.
    pub open spec fn wf(&self) -> bool {
        !is_blank(self.step_id@)
    }

    /// Construct and validate a canonical binding.
    pub fn new(
        community_id: CommunityId,
        workflow_id: Uuid,
        run_id: Uuid,
        step_id: String,
        target_pubkey: PublicKey,
        definition_event_id: EventId,
        message_event_id: EventId,
        cause: WorkflowDeliveryCause,
    ) -> (built: Result<WorkflowDeliveryBinding, WorkflowDeliveryError>)
        ensures
            match built {
                Ok(binding) => binding.wf() && binding == (WorkflowDeliveryBinding {
                    community_id,
                    workflow_id,
                    run_id,
                    step_id,
                    target_pubkey,
                    definition_event_id,
                    message_event_id,
                    cause,
                }),
                Err(error) => is_blank(step_id@) && error == WorkflowDeliveryError::EmptyStepId,
            },
    {
        if blank(step_id.as_str()) {
            return Err(WorkflowDeliveryError::EmptyStepId);
        }
        Ok(
            WorkflowDeliveryBinding {
                community_id,
                workflow_id,
                run_id,
                step_id,
                target_pubkey,
                definition_event_id,
                message_event_id,
                cause,
            },
        )
    }

    /// Validate the visible message against this binding's `message-v1` admission rule.
    pub fn validate_message_event(&self, event: &Event) -> (verdict: Result<
        (),
        WorkflowDeliveryError,
    >)
        ensures
            verdict == message_admission(self@, event@),
    {
        if event.kind != KIND_STREAM_MESSAGE {
            return Err(WorkflowDeliveryError::WrongMessageKind(event.kind));
        }
        if event.id != self.message_event_id {
            proof {
                if event.id@ == self.message_event_id@ {
                    crate::event::lemma_event_id_view_injective(event.id, self.message_event_id);
                }
            }
            return Err(WorkflowDeliveryError::MessageEventIdMismatch);
        }
        match message_v1_targets(event) {
            Err(error) => Err(error),
            Ok(targets) => {
                if contains_key(&targets, &self.target_pubkey) {
                    Ok(())
                } else {
                    Err(WorkflowDeliveryError::MissingMessageV1Target)
                }
            },
        }
    }

    /// Return the canonical `p` tag that opts this recipient into `message-v1`.
    ///
    /// Producers derive durable targets only from this marker-bearing tag,
    /// never from ordinary mentions.
    pub fn message_v1_target_tag(&self) -> (built: Result<Tag, WorkflowDeliveryError>)
        ensures
            built matches Ok(tag) && tag@ == target_tag(self.target_pubkey@),
    {
        let mut values: Vec<String> = Vec::new();
        values.push("p".to_owned());
        values.push(self.target_pubkey.to_hex());
        values.push("".to_owned());
        values.push(WORKFLOW_DELIVERY_TARGET_MARKER.to_owned());
        assert(texts(values@) =~= target_tag(self.target_pubkey@));
        parse_tag(values)
    }
}

/// An ephemeral identifier-only wake hint for a durable delivery.
#[derive(Clone, Copy, Debug, Eq)]
pub struct WorkflowDeliveryWake {
    /// Managed-agent recipient of this hint.
    pub target_pubkey: PublicKey,
    /// Identifier of the durable delivery to look up.
    pub delivery_id: WorkflowDeliveryId,
}

impl PartialEq for WorkflowDeliveryWake {
    fn eq(&self, other: &Self) -> (same: bool) {
        self.target_pubkey == other.target_pubkey && self.delivery_id == other.delivery_id
    }
}

impl vstd::std_specs::cmp::PartialEqSpecImpl for WorkflowDeliveryWake {
    open spec fn obeys_eq_spec() -> bool {
        true
    }

    open spec fn eq_spec(&self, other: &Self) -> bool {
        *self == *other
    }
}

/// The identifiers read so far from the tags of a wake: the key of its
/// recipient and the UUID of its delivery.
pub struct WakeFields {
    pub target: Option<Seq<u8>>,
    pub delivery: Option<Seq<u8>>,
}

/// The identifiers that the tags of a wake carry, or the failure of the first
/// tag outside the wake grammar.
pub open spec fn wake_fields(tags: Seq<Seq<Seq<char>>>) -> Result<WakeFields, WorkflowDeliveryError>
    decreases tags.len(),
{
    if tags.len() == 0 {
        Ok(WakeFields { target: None, delivery: None })
    } else {
        match wake_fields(tags.drop_last()) {
            Err(error) => Err(error),
            Ok(fields) => with_wake_tag(fields, tags.last()),
        }
    }
}

/// The identifiers after one more tag.
pub open spec fn with_wake_tag(fields: WakeFields, tag: Seq<Seq<char>>) -> Result<
    WakeFields,
    WorkflowDeliveryError,
> {
    if tag.len() == 2 && tag[0] == "p"@ {
        match hex_32(tag[1]) {
            None => Err(WorkflowDeliveryError::InvalidPublicKey),
            Some(target) => if fields.target is Some {
                Err(WorkflowDeliveryError::DuplicateWakeTag("p"))
            } else {
                Ok(WakeFields { target: Some(target), ..fields })
            },
        }
    } else if tag.len() == 2 && tag[0] == WORKFLOW_DELIVERY_WAKE_TAG@ {
        match uuid_of_text(tag[1]) {
            None => Err(WorkflowDeliveryError::InvalidDeliveryId),
            Some(delivery) => if fields.delivery is Some {
                Err(WorkflowDeliveryError::DuplicateWakeTag(WORKFLOW_DELIVERY_WAKE_TAG))
            } else {
                Ok(WakeFields { delivery: Some(delivery), ..fields })
            },
        }
    } else {
        Err(WorkflowDeliveryError::UnexpectedWakeTag)
    }
}

/// The recipient and the delivery that a wake event names, or how the event is
/// not a canonical wake.
pub open spec fn wake_of_event(event: EventView) -> Result<
    (Seq<u8>, Seq<u8>),
    WorkflowDeliveryError,
> {
    if event.kind != KIND_WORKFLOW_AGENT_WAKE {
        Err(WorkflowDeliveryError::WrongWakeKind(event.kind))
    } else if event.content.len() > 0 {
        Err(WorkflowDeliveryError::WakeHasContent)
    } else {
        match wake_fields(event.tags) {
            Err(error) => Err(error),
            Ok(fields) => match (fields.target, fields.delivery) {
                (None, _) => Err(WorkflowDeliveryError::MissingWakeTag("p")),
                (_, None) => Err(WorkflowDeliveryError::MissingWakeTag(WORKFLOW_DELIVERY_WAKE_TAG)),
                (Some(target), Some(delivery)) => Ok((target, delivery)),
            },
        }
    }
}

/// The tags of a wake for this recipient and delivery.
pub open spec fn wake_tags(target: Seq<u8>, delivery: Seq<u8>) -> Seq<Seq<Seq<char>>> {
    seq![
        seq!["p"@, hex_encode(target)],
        seq![WORKFLOW_DELIVERY_WAKE_TAG@, uuid_text(delivery)],
    ]
}

proof fn lemma_wake_failure_persists(tags: Seq<Seq<Seq<char>>>, n: int)
    requires
        0 <= n <= tags.len(),
    ensures
        wake_fields(tags.take(n)) is Err ==> wake_fields(tags) == wake_fields(tags.take(n)),
    decreases tags.len() - n,
{
    if n < tags.len() {
        assert(tags.take(n + 1).drop_last() =~= tags.take(n));
        lemma_wake_failure_persists(tags, n + 1);
    } else {
        assert(tags.take(n) =~= tags);
    }
}

/// The fields of the exec loop, as the identifiers they stand for.
spec fn fields_of(target: Option<PublicKey>, delivery: Option<Uuid>) -> WakeFields {
    WakeFields {
        target: match target {
            Some(key) => Some(key@),
            None => None,
        },
        delivery: match delivery {
            Some(id) => Some(id@),
            None => None,
        },
    }
}

impl WorkflowDeliveryWake {
    /// Construct a wake hint.
    pub fn new(
        target_pubkey: PublicKey,
        delivery_id: WorkflowDeliveryId,
    ) -> (wake: WorkflowDeliveryWake)
        ensures
            wake.target_pubkey == target_pubkey,
            wake.delivery_id == delivery_id,
    {
        WorkflowDeliveryWake { target_pubkey, delivery_id }
    }

    /// Build the unsigned, identifier-only wake event.
    pub fn event_builder(&self) -> (built: Result<EventTemplate, WorkflowDeliveryError>)
        ensures
            built matches Ok(template) && {
                &&& template.kind == KIND_WORKFLOW_AGENT_WAKE
                &&& template.content@.len() == 0
                &&& tag_texts(template.tags@) == wake_tags(self.target_pubkey@, self.delivery_id@@)
            },
    {
        let mut recipient: Vec<String> = Vec::new();
        recipient.push("p".to_owned());
        recipient.push(self.target_pubkey.to_hex());
        let mut delivery: Vec<String> = Vec::new();
        delivery.push(WORKFLOW_DELIVERY_WAKE_TAG.to_owned());
        delivery.push(self.delivery_id.to_string());
        let ghost expected = wake_tags(self.target_pubkey@, self.delivery_id@@);
        assert(texts(recipient@) =~= expected[0]);
        assert(texts(delivery@) =~= expected[1]);
        let recipient_tag: Tag = parse_tag(recipient)?;
        let delivery_tag: Tag = parse_tag(delivery)?;
        let mut tags: Vec<Tag> = Vec::new();
        tags.push(recipient_tag);
        tags.push(delivery_tag);
        assert(tag_texts(tags@) =~= expected);
        Ok(EventTemplate { kind: KIND_WORKFLOW_AGENT_WAKE, tags, content: String::new() })
    }

    /// Parse a strictly canonical identifier-only wake event.
    pub fn parse(event: &Event) -> (parsed: Result<WorkflowDeliveryWake, WorkflowDeliveryError>)
        ensures
            match parsed {
                Ok(wake) => wake_of_event(event@) == Ok::<_, WorkflowDeliveryError>(
                    (wake.target_pubkey@, wake.delivery_id@@),
                ),
                Err(error) => wake_of_event(event@) == Err::<(Seq<u8>, Seq<u8>), _>(error),
            },
    {
        if event.kind != KIND_WORKFLOW_AGENT_WAKE {
            return Err(WorkflowDeliveryError::WrongWakeKind(event.kind));
        }
        if !event.content.as_str().is_empty() {
            return Err(WorkflowDeliveryError::WakeHasContent);
        }
        let mut target: Option<PublicKey> = None;
        let mut delivery: Option<Uuid> = None;
        let ghost tags = tag_texts(event.tags@);
        let n: usize = event.tags.len();
        let mut i: usize = 0;
        assert(tags.take(0) =~= Seq::empty());
        while i < n
            invariant
                n == event.tags.len(),
                tags == tag_texts(event.tags@),
                event@.kind == KIND_WORKFLOW_AGENT_WAKE,
                event@.content.len() == 0,
                i <= n,
                wake_fields(tags.take(i as int)) == Ok::<_, WorkflowDeliveryError>(
                    fields_of(target, delivery),
                ),
            decreases n - i,
        {
            let values: &Vec<String> = &event.tags[i].values;
            let ghost tag = tags[i as int];
            proof {
                assert(tags.take(i + 1).drop_last() =~= tags.take(i as int));
                assert(tags.take(i + 1).last() == tag);
                assert(tag == event.tags@[i as int]@);
                lemma_wake_failure_persists(tags, i + 1);
            }
            i += 1;
            if values.len() == 2 && text_eq(values[0].as_str(), "p") {
                let key: PublicKey = match parse_pubkey(values[1].as_str()) {
                    Ok(key) => key,
                    Err(error) => {
                        return Err(error);
                    },
                };
                if target.is_some() {
                    return Err(WorkflowDeliveryError::DuplicateWakeTag("p"));
                }
                target = Some(key);
            } else if values.len() == 2 && text_eq(values[0].as_str(), WORKFLOW_DELIVERY_WAKE_TAG) {
                let id: Uuid = match Uuid::parse_str(values[1].as_str()) {
                    Some(id) => id,
                    None => {
                        return Err(WorkflowDeliveryError::InvalidDeliveryId);
                    },
                };
                if delivery.is_some() {
                    return Err(WorkflowDeliveryError::DuplicateWakeTag(WORKFLOW_DELIVERY_WAKE_TAG));
                }
                delivery = Some(id);
            } else {
                return Err(WorkflowDeliveryError::UnexpectedWakeTag);
            }
        }
        assert(tags.take(n as int) =~= tags);
        match (target, delivery) {
            (None, _) => Err(WorkflowDeliveryError::MissingWakeTag("p")),
            (_, None) => Err(WorkflowDeliveryError::MissingWakeTag(WORKFLOW_DELIVERY_WAKE_TAG)),
            (Some(target_pubkey), Some(id)) => Ok(
                WorkflowDeliveryWake {
                    target_pubkey,
                    delivery_id: WorkflowDeliveryId::from_uuid(id),
                },
            ),
        }
    }
}

/// A wake read from the event that was built for it is that wake, whoever signs
/// the event and whenever.
pub proof fn law_wake_round_trip(wake: WorkflowDeliveryWake, event: EventView)
    requires
        event.kind == KIND_WORKFLOW_AGENT_WAKE,
        event.content.len() == 0,
        event.tags == wake_tags(wake.target_pubkey@, wake.delivery_id@@),
    ensures
        wake_of_event(event) == Ok::<_, WorkflowDeliveryError>(
            (wake.target_pubkey@, wake.delivery_id@@),
        ),
{
    law_public_key_hex_round_trip(wake.target_pubkey);
    law_uuid_text_round_trip(wake.delivery_id@);
    lemma_two_wake_tags(event.tags);
    reveal_strlit("p");
    reveal_strlit("delivery");
    assert(event.tags[0] =~= seq!["p"@, hex_encode(wake.target_pubkey@)]);
    assert("p"@.len() != WORKFLOW_DELIVERY_WAKE_TAG@.len());
}

/// The identifiers of two tags are those of the one, then of the other.
proof fn lemma_two_wake_tags(tags: Seq<Seq<Seq<char>>>)
    requires
        tags.len() == 2,
    ensures
        wake_fields(tags) == match with_wake_tag(
            WakeFields { target: None, delivery: None },
            tags[0],
        ) {
            Err(error) => Err(error),
            Ok(fields) => with_wake_tag(fields, tags[1]),
        },
{
    assert(tags.drop_last().drop_last() =~= Seq::empty());
    assert(tags.drop_last().last() == tags[0]);
    reveal_with_fuel(wake_fields, 3);
}

/// A tag that names a recipient.
pub open spec fn names_recipient(tag: Seq<Seq<char>>, target: Seq<u8>) -> bool {
    tag.len() == 2 && tag[0] == "p"@ && hex_32(tag[1]) == Some(target)
}

/// A tag that names a delivery.
pub open spec fn names_delivery(tag: Seq<Seq<char>>, delivery: Seq<u8>) -> bool {
    tag.len() == 2 && tag[0] == WORKFLOW_DELIVERY_WAKE_TAG@ && uuid_of_text(tag[1]) == Some(
        delivery,
    )
}

/// An event is a wake exactly where it has the kind of one, no content, and two
/// tags, of which the one names the recipient and the other the delivery: a wake
/// carries nothing beside the two identifiers.
pub proof fn law_wake_is_identifier_only(event: EventView, target: Seq<u8>, delivery: Seq<u8>)
    ensures
        wake_of_event(event) == Ok::<_, WorkflowDeliveryError>((target, delivery)) <==> {
            &&& event.kind == KIND_WORKFLOW_AGENT_WAKE
            &&& event.content.len() == 0
            &&& event.tags.len() == 2
            &&& {
                ||| names_recipient(event.tags[0], target) && names_delivery(event.tags[1], delivery)
                ||| names_delivery(event.tags[0], delivery) && names_recipient(event.tags[1], target)
            }
        },
{
    reveal_strlit("p");
    reveal_strlit("delivery");
    assert("p"@.len() != WORKFLOW_DELIVERY_WAKE_TAG@.len());
    lemma_wake_tag_count(event.tags);
    if event.tags.len() == 2 {
        lemma_two_wake_tags(event.tags);
    }
}

/// As many tags are read as identifiers are known.
proof fn lemma_wake_tag_count(tags: Seq<Seq<Seq<char>>>)
    ensures
        wake_fields(tags) matches Ok(fields) ==> tags.len() == (if fields.target is Some {
            1int
        } else {
            0
        }) + (if fields.delivery is Some {
            1int
        } else {
            0
        }),
    decreases tags.len(),
{
    if tags.len() > 0 {
        lemma_wake_tag_count(tags.drop_last());
    }
}

/// Only the tags that claim the marker count: the recipients of a message are
/// those of its claiming tags, whatever other tags stand between them.
pub proof fn law_unmarked_tags_are_ignored(tags: Seq<Seq<Seq<char>>>)
    ensures
        admitted_targets(tags) == admitted_targets(
            tags.filter(|tag: Seq<Seq<char>>| claims_message_v1(tag)),
        ),
    decreases tags.len(),
{
    let claims = |tag: Seq<Seq<char>>| claims_message_v1(tag);
    reveal(Seq::filter);
    if tags.len() > 0 {
        law_unmarked_tags_are_ignored(tags.drop_last());
        let kept = tags.drop_last().filter(claims);
        if claims(tags.last()) {
            assert(tags.filter(claims) =~= kept.push(tags.last()));
            assert(kept.push(tags.last()).drop_last() =~= kept);
        }
    } else {
        assert(tags.filter(claims) =~= tags);
    }
}

/// A tag claims the marker and names this recipient in the canonical grammar.
pub open spec fn admits(tag: Seq<Seq<char>>, target: Seq<u8>) -> bool {
    claims_message_v1(tag) && tag.len() == 4 && hex_32(tag[1]) == Some(target)
}

/// Parsing fails closed: where it succeeds, every tag that claims the marker is
/// canonical, each recipient is named by exactly one of them, and a key is a
/// recipient exactly where one of them names it.
pub proof fn law_targets_fail_closed(tags: Seq<Seq<Seq<char>>>)
    ensures
        admitted_targets(tags) matches Ok(targets) ==> {
            &&& forall|i: int|
                0 <= i < tags.len() && claims_message_v1(#[trigger] tags[i]) ==> tags[i].len() == 4
                    && hex_32(tags[i][1]) is Some
            &&& forall|target: Seq<u8>| #[trigger]
                targets.contains(target) <==> exists|i: int|
                    0 <= i < tags.len() && admits(#[trigger] tags[i], target)
            &&& forall|i: int, j: int, target: Seq<u8>|
                0 <= i < j < tags.len() && #[trigger] admits(tags[i], target)
                    ==> !#[trigger] admits(tags[j], target)
            &&& targets.no_duplicates()
        },
    decreases tags.len(),
{
    if tags.len() > 0 {
        let init = tags.drop_last();
        law_targets_fail_closed(init);
        if let Ok(targets) = admitted_targets(tags) {
            let before = admitted_targets(init)->Ok_0;
            assert forall|i: int|
                0 <= i < tags.len() && claims_message_v1(#[trigger] tags[i]) implies tags[i].len()
                == 4 && hex_32(tags[i][1]) is Some by {
                if i < tags.len() - 1 {
                    assert(init[i] == tags[i]);
                }
            }
            assert forall|target: Seq<u8>| #[trigger] targets.contains(target) implies exists|
                i: int,
            |
                0 <= i < tags.len() && admits(#[trigger] tags[i], target) by {
                if before.contains(target) {
                    let i = choose|i: int| 0 <= i < init.len() && admits(#[trigger] init[i], target);
                    assert(tags[i] == init[i]);
                } else {
                    assert(admits(tags[tags.len() - 1], target));
                }
            }
            assert forall|target: Seq<u8>|
                (exists|i: int|
                    0 <= i < tags.len() && admits(#[trigger] tags[i], target)) implies #[trigger] targets.contains(
            target) by {
                let i = choose|i: int| 0 <= i < tags.len() && admits(#[trigger] tags[i], target);
                if i < tags.len() - 1 {
                    assert(init[i] == tags[i]);
                    assert(before.contains(target));
                    let k = before.index_of(target);
                    assert(targets[k] == target);
                } else {
                    assert(targets[targets.len() - 1] == target);
                }
            }
            assert forall|i: int, j: int, target: Seq<u8>|
                0 <= i < j < tags.len() && #[trigger] admits(
                tags[i],
                target,
            ) implies !#[trigger] admits(tags[j], target) by {
                assert(init[i] == tags[i]);
                if j < tags.len() - 1 {
                    assert(init[j] == tags[j]);
                } else {
                    assert(before.contains(target));
                }
            }
        }
    }
}

/// The tag built for a recipient admits that recipient and no other, and the
/// message that carries it is the binding's.
pub proof fn law_target_tag_admits_its_recipient(binding: BindingView, event: EventView)
    requires
        event.kind == KIND_STREAM_MESSAGE,
        event.tags == seq![target_tag(binding.target_pubkey@)],
    ensures
        message_targets(event) == Ok::<_, WorkflowDeliveryError>(seq![binding.target_pubkey@]),
        event.id == binding.message_event_id@ ==> message_admission(binding, event) is Ok,
{
    law_public_key_hex_round_trip(binding.target_pubkey);
    let tag = target_tag(binding.target_pubkey@);
    assert(event.tags.drop_last() =~= Seq::empty());
    reveal_with_fuel(admitted_targets, 2);
    assert(Seq::empty().push(binding.target_pubkey@) =~= seq![binding.target_pubkey@]);
    assert(seq![binding.target_pubkey@][0] == binding.target_pubkey@);
}

/// A `p` tag with `message-v1` as its fourth value.
pub open spec fn marked(tag: Seq<Seq<char>>) -> bool {
    tag.len() > 3 && tag[0] == "p"@ && tag[3] == "message-v1"@
}

/// Two tags that both claim the marker, for the same recipient.
pub open spec fn repeats(tags: Seq<Seq<Seq<char>>>, i: int, j: int) -> bool {
    &&& 0 <= i < j < tags.len()
    &&& marked(tags[i])
    &&& marked(tags[j])
    &&& hex_32(tags[i][1]) == hex_32(tags[j][1])
}

/// Every marked tag has four values and names a key, and no two name the same.
pub open spec fn marked_tags_stand(tags: Seq<Seq<Seq<char>>>) -> bool {
    &&& forall|i: int|
        0 <= i < tags.len() && marked(#[trigger] tags[i]) ==> tags[i].len() == 4 && hex_32(
            tags[i][1],
        ) is Some
    &&& forall|i: int, j: int| !#[trigger] repeats(tags, i, j)
}

/// Recipients are admitted exactly where every marked tag stands, and they are
/// then the keys of those tags, all of them and in their order.
pub proof fn law_all_marked_recipients_are_admitted(tags: Seq<Seq<Seq<char>>>)
    ensures
        admitted_targets(tags) is Ok <==> marked_tags_stand(tags),
        admitted_targets(tags) matches Ok(targets) ==> targets == tags.filter(
            |tag: Seq<Seq<char>>| marked(tag),
        ).map_values(|tag: Seq<Seq<char>>| hex_32(tag[1])->0),
    decreases tags.len(),
{
    reveal(Seq::filter);
    let is_marked = |tag: Seq<Seq<char>>| marked(tag);
    let key = |tag: Seq<Seq<char>>| hex_32(tag[1])->0;
    if tags.len() == 0 {
        assert(tags.filter(is_marked).map_values(key) =~= Seq::empty());
    } else {
        let init = tags.drop_last();
        let last = tags.len() - 1;
        let tag = tags.last();
        law_all_marked_recipients_are_admitted(init);
        law_targets_fail_closed(init);
        assert(claims_message_v1(tag) == marked(tag));
        if marked_tags_stand(tags) {
            assert forall|i: int| 0 <= i < init.len() && marked(#[trigger] init[i]) implies init[i].len()
                == 4 && hex_32(init[i][1]) is Some by {
                assert(tags[i] == init[i]);
            }
            assert forall|i: int, j: int| !#[trigger] repeats(init, i, j) by {
                assert(!repeats(tags, i, j));
            }
        }
        if let Ok(before) = admitted_targets(init) {
            if marked(tag) {
                assert(tags.filter(is_marked) =~= init.filter(is_marked).push(tag));
                assert(tags.filter(is_marked).map_values(key) =~= init.filter(is_marked).map_values(
                    key,
                ).push(key(tag)));
                if hex_32(tag[1]) is Some {
                    let target = hex_32(tag[1])->0;
                    if before.contains(target) {
                        let i = choose|i: int|
                            0 <= i < init.len() && admits(#[trigger] init[i], target);
                        assert(tags[i] == init[i]);
                        assert(tags[last] == tag);
                        assert(repeats(tags, i, last));
                    }
                }
            } else {
                assert(tags.filter(is_marked) =~= init.filter(is_marked));
            }
            if admitted_targets(tags) is Ok {
                assert forall|i: int|
                    0 <= i < tags.len() && marked(#[trigger] tags[i]) implies tags[i].len() == 4
                    && hex_32(tags[i][1]) is Some by {
                    if i < last {
                        assert(tags[i] == init[i]);
                    }
                }
                assert forall|i: int, j: int| !#[trigger] repeats(tags, i, j) by {
                    if repeats(tags, i, j) {
                        assert(tags[i] == init[i]);
                        if j < last {
                            assert(tags[j] == init[j]);
                            assert(repeats(init, i, j));
                        } else {
                            let target = hex_32(tag[1])->0;
                            assert(init[i].len() == 4);
                            assert(admits(init[i], target));
                            assert(before.contains(target));
                        }
                    }
                }
            } else if marked_tags_stand(tags) {
                assert(tags[last] == tag);
                assert(false);
            }
        }
    }
}

/// The first marked tag that does not stand decides the failure: one of another
/// length is malformed, one without a key has an invalid key, and one that names a
/// recipient again is a duplicate.
pub proof fn law_the_first_bad_recipient_decides(tags: Seq<Seq<Seq<char>>>, n: int)
    requires
        0 <= n < tags.len(),
        marked_tags_stand(tags.take(n)),
        marked(tags[n]),
    ensures
        tags[n].len() != 4 ==> admitted_targets(tags) == Err::<Seq<Seq<u8>>, _>(
            WorkflowDeliveryError::InvalidMessageV1Tag,
        ),
        tags[n].len() == 4 && hex_32(tags[n][1]) is None ==> admitted_targets(tags) == Err::<
            Seq<Seq<u8>>,
            _,
        >(WorkflowDeliveryError::InvalidPublicKey),
        tags[n].len() == 4 && hex_32(tags[n][1]) is Some && (exists|i: int| #[trigger]
            repeats(tags, i, n)) ==> admitted_targets(tags) == Err::<Seq<Seq<u8>>, _>(
            WorkflowDeliveryError::DuplicateMessageV1Target,
        ),
{
    let before = tags.take(n);
    law_all_marked_recipients_are_admitted(before);
    law_targets_fail_closed(before);
    assert(tags.take(n + 1).drop_last() =~= before);
    assert(tags.take(n + 1).last() == tags[n]);
    lemma_admission_failure_persists(tags, n + 1);
    if exists|i: int| #[trigger] repeats(tags, i, n) {
        let i = choose|i: int| #[trigger] repeats(tags, i, n);
        assert(before[i] == tags[i]);
        assert(before[i].len() == 4);
        if hex_32(tags[n][1]) is Some {
            assert(admits(before[i], hex_32(tags[n][1])->0));
        }
    }
}

/// Only a stream message admits recipients, and it admits those of its tags.
pub proof fn law_only_stream_messages_admit_recipients(event: EventView)
    ensures
        event.kind != 9 ==> message_targets(event) == Err::<Seq<Seq<u8>>, _>(
            WorkflowDeliveryError::WrongMessageKind(event.kind),
        ),
        event.kind == 9 ==> message_targets(event) == admitted_targets(event.tags),
{
}

/// An event is the visible message of a binding exactly where it is a stream
/// message of the binding's identifier whose marked tags stand, one of them for
/// the binding's target. A failure is of the first of these that does not hold.
pub proof fn law_visible_messages_are_for_their_target(binding: BindingView, event: EventView)
    ensures
        message_admission(binding, event) is Ok <==> {
            &&& event.kind == 9
            &&& event.id == binding.message_event_id@
            &&& marked_tags_stand(event.tags)
            &&& exists|i: int|
                0 <= i < event.tags.len() && marked(#[trigger] event.tags[i]) && hex_32(
                    event.tags[i][1],
                ) == Some(binding.target_pubkey@)
        },
        event.kind != 9 ==> message_admission(binding, event) == Err::<(), _>(
            WorkflowDeliveryError::WrongMessageKind(event.kind),
        ),
        event.kind == 9 && event.id != binding.message_event_id@ ==> message_admission(
            binding,
            event,
        ) == Err::<(), _>(WorkflowDeliveryError::MessageEventIdMismatch),
        event.kind == 9 && event.id == binding.message_event_id@ && !marked_tags_stand(event.tags)
            ==> {
            &&& admitted_targets(event.tags) matches Err(error)
            &&& message_admission(binding, event) == Err::<(), _>(error)
        },
        event.kind == 9 && event.id == binding.message_event_id@ && marked_tags_stand(event.tags)
            && message_admission(binding, event) is Err ==> message_admission(binding, event)
            == Err::<(), _>(WorkflowDeliveryError::MissingMessageV1Target),
{
    law_all_marked_recipients_are_admitted(event.tags);
    law_targets_fail_closed(event.tags);
    if let Ok(targets) = admitted_targets(event.tags) {
        let target = binding.target_pubkey@;
        if targets.contains(target) {
            let i = choose|i: int|
                0 <= i < event.tags.len() && admits(#[trigger] event.tags[i], target);
            assert(marked(event.tags[i]));
        }
        if exists|i: int|
            0 <= i < event.tags.len() && marked(#[trigger] event.tags[i]) && hex_32(
                event.tags[i][1],
            ) == Some(target) {
            let i = choose|i: int|
                0 <= i < event.tags.len() && marked(#[trigger] event.tags[i]) && hex_32(
                    event.tags[i][1],
                ) == Some(target);
            assert(claims_message_v1(event.tags[i]));
            assert(admits(event.tags[i], target));
        }
    }
}

/// The tag for a recipient is a `p` tag of four values: the recipient's digits, no
/// relay, and the marker.
pub proof fn law_target_tags_are_canonical(target: Seq<u8>)
    ensures
        target_tag(target).len() == 4,
        target_tag(target)[0] == "p"@,
        target_tag(target)[1] == hex_encode(target),
        target_tag(target)[2].len() == 0,
        marked(target_tag(target)),
{
    reveal_strlit("");
}

/// The tags of a wake are two: one for the recipient's digits, and one for the
/// delivery's text.
pub proof fn law_wake_tags_are_two_identifiers(target: Seq<u8>, delivery: Seq<u8>)
    ensures
        wake_tags(target, delivery).len() == 2,
        wake_tags(target, delivery)[0] == seq!["p"@, hex_encode(target)],
        wake_tags(target, delivery)[1] == seq!["delivery"@, uuid_text(delivery)],
{
}

/// Every tag is of the wake grammar, and none comes twice: what has been read of
/// the tags before a failure.
proof fn lemma_wake_tags_read(tags: Seq<Seq<Seq<char>>>)
    ensures
        wake_fields(tags) matches Ok(fields) ==> {
            &&& fields.target is Some <==> exists|i: int|
                0 <= i < tags.len() && (#[trigger] tags[i]).len() == 2 && tags[i][0] == "p"@
            &&& fields.delivery is Some <==> exists|i: int|
                0 <= i < tags.len() && (#[trigger] tags[i]).len() == 2 && tags[i][0] == "delivery"@
        },
    decreases tags.len(),
{
    reveal_strlit("p");
    reveal_strlit("delivery");
    assert("p"@.len() != "delivery"@.len());
    if tags.len() > 0 {
        let init = tags.drop_last();
        let last = tags.len() - 1;
        lemma_wake_tags_read(init);
        if let Ok(fields) = wake_fields(tags) {
            let before = wake_fields(init)->Ok_0;
            assert(tags[last] == tags.last());
            if before.target is Some {
                let i = choose|i: int|
                    0 <= i < init.len() && (#[trigger] init[i]).len() == 2 && init[i][0] == "p"@;
                assert(tags[i] == init[i]);
            }
            if before.delivery is Some {
                let i = choose|i: int|
                    0 <= i < init.len() && (#[trigger] init[i]).len() == 2 && init[i][0]
                        == "delivery"@;
                assert(tags[i] == init[i]);
            }
            if exists|i: int|
                0 <= i < tags.len() && (#[trigger] tags[i]).len() == 2 && tags[i][0] == "p"@ {
                let i = choose|i: int|
                    0 <= i < tags.len() && (#[trigger] tags[i]).len() == 2 && tags[i][0] == "p"@;
                if i < last {
                    assert(init[i] == tags[i]);
                }
            }
            if exists|i: int|
                0 <= i < tags.len() && (#[trigger] tags[i]).len() == 2 && tags[i][0]
                    == "delivery"@ {
                let i = choose|i: int|
                    0 <= i < tags.len() && (#[trigger] tags[i]).len() == 2 && tags[i][0]
                        == "delivery"@;
                if i < last {
                    assert(init[i] == tags[i]);
                }
            }
        }
    }
}

/// A tag of this name and one value stands before this place.
pub open spec fn named_before(tags: Seq<Seq<Seq<char>>>, name: Seq<char>, n: int) -> bool {
    exists|i: int|
        0 <= i < n && i < tags.len() && (#[trigger] tags[i]).len() == 2 && tags[i][0] == name
}

/// Two tags of the wake grammar may stand before this place: one names a key, and
/// one a delivery, and no other tag is there.
pub open spec fn wake_tags_stand(tags: Seq<Seq<Seq<char>>>, n: int) -> bool {
    forall|i: int| 0 <= i < n && i < tags.len() ==> wake_tag_stands(tags, #[trigger] tags[i], i)
}

/// A tag of the wake grammar that names what it should and comes for the first
/// time.
pub open spec fn wake_tag_stands(
    tags: Seq<Seq<Seq<char>>>,
    tag: Seq<Seq<char>>,
    place: int,
) -> bool {
    &&& tag.len() == 2
    &&& {
        ||| tag[0] == "p"@ && hex_32(tag[1]) is Some && !named_before(tags, "p"@, place)
        ||| tag[0] == "delivery"@ && uuid_of_text(tag[1]) is Some && !named_before(
            tags,
            "delivery"@,
            place,
        )
    }
}

/// The first tag of a wake that does not stand decides the failure; where all
/// stand, the failure is the identifier that is not there, the recipient first.
/// Before any tag come the kind and the content.
pub proof fn law_the_first_bad_wake_tag_decides(event: EventView, n: int)
    requires
        0 <= n < event.tags.len(),
        wake_tags_stand(event.tags, n),
        event.kind == 24620,
        event.content.len() == 0,
    ensures
        ({
            let tag = event.tags[n];
            let failed = |error: WorkflowDeliveryError|
                wake_of_event(event) == Err::<(Seq<u8>, Seq<u8>), _>(error);
            &&& tag.len() != 2 || (tag[0] != "p"@ && tag[0] != "delivery"@) ==> failed(
                WorkflowDeliveryError::UnexpectedWakeTag,
            )
            &&& tag.len() == 2 && tag[0] == "p"@ && hex_32(tag[1]) is None ==> failed(
                WorkflowDeliveryError::InvalidPublicKey,
            )
            &&& tag.len() == 2 && tag[0] == "p"@ && hex_32(tag[1]) is Some && named_before(
                event.tags,
                "p"@,
                n,
            ) ==> failed(WorkflowDeliveryError::DuplicateWakeTag("p"))
            &&& tag.len() == 2 && tag[0] == "delivery"@ && uuid_of_text(tag[1]) is None ==> failed(
                WorkflowDeliveryError::InvalidDeliveryId,
            )
            &&& tag.len() == 2 && tag[0] == "delivery"@ && uuid_of_text(tag[1]) is Some
                && named_before(event.tags, "delivery"@, n) ==> failed(
                WorkflowDeliveryError::DuplicateWakeTag("delivery"),
            )
        }),
{
    reveal_strlit("p");
    reveal_strlit("delivery");
    assert("p"@.len() != "delivery"@.len());
    let tags = event.tags;
    lemma_standing_wake_tags_are_read(tags, n);
    lemma_wake_tags_read(tags.take(n));
    lemma_named_before_is_in_the_prefix(tags, "p"@, n);
    lemma_named_before_is_in_the_prefix(tags, "delivery"@, n);
    assert(tags.take(n + 1).drop_last() =~= tags.take(n));
    assert(tags.take(n + 1).last() == tags[n]);
    lemma_wake_failure_persists(tags, n + 1);
}

/// A wake needs its kind before anything else, then no content, and then both of
/// its tags.
pub proof fn law_wakes_need_kind_and_tags(event: EventView)
    ensures
        event.kind != 24620 ==> wake_of_event(event) == Err::<(Seq<u8>, Seq<u8>), _>(
            WorkflowDeliveryError::WrongWakeKind(event.kind),
        ),
        event.kind == 24620 && event.content.len() > 0 ==> wake_of_event(event) == Err::<
            (Seq<u8>, Seq<u8>),
            _,
        >(WorkflowDeliveryError::WakeHasContent),
        event.kind == 24620 && event.content.len() == 0 && wake_tags_stand(
            event.tags,
            event.tags.len() as int,
        ) ==> {
            let n = event.tags.len() as int;
            &&& !named_before(event.tags, "p"@, n) ==> wake_of_event(event) == Err::<
                (Seq<u8>, Seq<u8>),
                _,
            >(WorkflowDeliveryError::MissingWakeTag("p"))
            &&& named_before(event.tags, "p"@, n) && !named_before(event.tags, "delivery"@, n)
                ==> wake_of_event(event) == Err::<(Seq<u8>, Seq<u8>), _>(
                WorkflowDeliveryError::MissingWakeTag("delivery"),
            )
            &&& named_before(event.tags, "p"@, n) && named_before(event.tags, "delivery"@, n)
                ==> wake_of_event(event) is Ok
        },
{
    let tags = event.tags;
    let n = tags.len() as int;
    if wake_tags_stand(tags, n) {
        lemma_standing_wake_tags_are_read(tags, n);
        assert(tags.take(n) =~= tags);
        lemma_wake_tags_read(tags);
        lemma_named_before_is_in_the_prefix(tags, "p"@, n);
        lemma_named_before_is_in_the_prefix(tags, "delivery"@, n);
    }
}

/// What stands before a place stands in the tags up to it.
proof fn lemma_named_before_is_in_the_prefix(tags: Seq<Seq<Seq<char>>>, name: Seq<char>, n: int)
    requires
        0 <= n <= tags.len(),
    ensures
        named_before(tags, name, n) <==> exists|i: int|
            0 <= i < tags.take(n).len() && (#[trigger] tags.take(n)[i]).len() == 2 && tags.take(
                n,
            )[i][0] == name,
{
    let prefix = tags.take(n);
    if named_before(tags, name, n) {
        let i = choose|i: int|
            0 <= i < n && i < tags.len() && (#[trigger] tags[i]).len() == 2 && tags[i][0] == name;
        assert(prefix[i] == tags[i]);
    }
    if exists|i: int|
        0 <= i < prefix.len() && (#[trigger] prefix[i]).len() == 2 && prefix[i][0] == name {
        let i = choose|i: int|
            0 <= i < prefix.len() && (#[trigger] prefix[i]).len() == 2 && prefix[i][0] == name;
        assert(tags[i] == prefix[i]);
    }
}

/// Tags that stand are read.
proof fn lemma_standing_wake_tags_are_read(tags: Seq<Seq<Seq<char>>>, n: int)
    requires
        0 <= n <= tags.len(),
        wake_tags_stand(tags, n),
    ensures
        wake_fields(tags.take(n)) is Ok,
    decreases n,
{
    reveal_strlit("p");
    reveal_strlit("delivery");
    assert("p"@.len() != "delivery"@.len());
    if n > 0 {
        let before = tags.take(n - 1);
        assert forall|i: int| 0 <= i < n - 1 && i < tags.len() implies wake_tag_stands(
            tags,
            #[trigger] tags[i],
            i,
        ) by {}
        lemma_standing_wake_tags_are_read(tags, n - 1);
        lemma_wake_tags_read(before);
        lemma_named_before_is_in_the_prefix(tags, "p"@, n - 1);
        lemma_named_before_is_in_the_prefix(tags, "delivery"@, n - 1);
        assert(tags.take(n).drop_last() =~= before);
        assert(tags.take(n).last() == tags[n - 1]);
        assert(wake_tag_stands(tags, tags[n - 1], n - 1));
    }
}

/// The bytes of a list of keys are those of each key, in their order.
pub proof fn law_key_bytes_keep_their_order(keys: Seq<PublicKey>)
    ensures
        key_bytes(keys).len() == keys.len(),
        forall|i: int| 0 <= i < keys.len() ==> #[trigger] key_bytes(keys)[i] == keys[i]@,
{
}

/// The message of a failure tells the value that it is about: the kind in decimal
/// digits, the name of the tag, or the reason.
pub proof fn law_failures_tell_their_value(kind: u16, tag: &'static str, reason: String)
    ensures
        decimal(kind as nat).is_suffix_of(error_text(WorkflowDeliveryError::WrongMessageKind(kind))),
        decimal(kind as nat).is_suffix_of(error_text(WorkflowDeliveryError::WrongWakeKind(kind))),
        error_text(WorkflowDeliveryError::MissingWakeTag(tag)) == "workflow delivery wake is missing "@
            + tag@ + " tag"@,
        error_text(WorkflowDeliveryError::DuplicateWakeTag(tag))
            == "workflow delivery wake has duplicate "@ + tag@ + " tag"@,
        reason@.is_suffix_of(error_text(WorkflowDeliveryError::InvalidTag(reason))),
{
    let message = error_text(WorkflowDeliveryError::WrongMessageKind(kind));
    let wake = error_text(WorkflowDeliveryError::WrongWakeKind(kind));
    let digits = decimal(kind as nat);
    let invalid = error_text(WorkflowDeliveryError::InvalidTag(reason));
    assert(message.subrange(message.len() - digits.len(), message.len() as int) =~= digits);
    assert(wake.subrange(wake.len() - digits.len(), wake.len() as int) =~= digits);
    assert(invalid.subrange(invalid.len() - reason@.len(), invalid.len() as int) =~= reason@);
}

} // verus!
