//! Pure verification for authenticated workflow deliveries.
//!
//! The relay returns the exact signed workflow definition, the visible message,
//! and a narrowly scoped relay-signed receipt. This module verifies those
//! public artifacts without receiving private trigger context, webhook fields,
//! prior-step outputs, execution traces, or secrets.
//!
//! Two things it learns from its caller: the workflow that the definition's
//! content describes, and what the receipt asserts. Verification therefore runs
//! in three stages, each of which hands over what the next outside answer is
//! about.

use vstd::prelude::*;

use crate::event::{
    authentic, lemma_event_id_view_injective, lemma_key_view_injective, tag_named, tag_texts, Event,
    EventId, EventView, PublicKey, Tag,
};
use crate::hex_text::{hex_32, hex_encode, lemma_hex_ignores_case};
use crate::ids::{lemma_uuid_view_injective, uuid_of_text, uuid_text, CommunityId, Uuid};
use crate::kind::{KIND_STREAM_MESSAGE, KIND_WORKFLOW_DEF};
use crate::text::{
    ascii_lower, is_blank, lemma_trimmed_empty_iff_blank, same_ignoring_case, text_eq, text_in,
    text_of, trimmed,
};
use crate::workflow_delivery::{
    contains_key, law_wake_is_identifier_only, message_targets, message_v1_targets, names_delivery,
    wake_of_event, WorkflowDeliveryBinding, WorkflowDeliveryCause, WorkflowDeliveryId,
    WorkflowDeliveryReceipt, WorkflowDeliveryWake,
};

verus! {

/// Immutable delivery identity returned by the authenticated relay API.
#[derive(Debug)]
pub struct DeliverySnapshot {
    pub id: Uuid,
    pub community_id: CommunityId,
    pub workflow_id: Uuid,
    pub run_id: Uuid,
    pub step_id: String,
    pub definition_event_id: String,
    pub message_event_id: String,
    pub target_pubkey: String,
    pub cause: WorkflowDeliveryCause,
}

impl Clone for DeliverySnapshot {
    fn clone(&self) -> (copy: DeliverySnapshot)
        ensures
            copy == *self,
    {
        DeliverySnapshot {
            id: self.id,
            community_id: self.community_id,
            workflow_id: self.workflow_id,
            run_id: self.run_id,
            step_id: self.step_id.clone(),
            definition_event_id: self.definition_event_id.clone(),
            message_event_id: self.message_event_id.clone(),
            target_pubkey: self.target_pubkey.clone(),
            cause: self.cause,
        }
    }
}

/// A permanent disagreement. Retrying the same artifacts cannot succeed.
#[derive(Clone, Copy, Debug, PartialEq, Eq, Structural)]
pub enum MismatchKind {
    Target,
    Definition,
    Message,
    Step,
    Channel,
    Receipt,
}

/// A required public artifact was not supplied. The caller may retry its read.
#[derive(Clone, Copy, Debug, PartialEq, Eq, Structural)]
pub enum UnavailableKind {
    Definition,
    Message,
    Receipt,
    RelayIdentity,
}

/// Typed fail-closed verification result.
#[derive(Clone, Copy, Debug, PartialEq, Eq, Structural)]
pub enum VerifyError {
    Mismatch(MismatchKind),
    Unavailable(UnavailableKind),
}

/// The message of a verification failure.
pub open spec fn failure_text(error: VerifyError) -> Seq<char> {
    match error {
        VerifyError::Mismatch(MismatchKind::Target) => "permanent mismatch: Target"@,
        VerifyError::Mismatch(MismatchKind::Definition) => "permanent mismatch: Definition"@,
        VerifyError::Mismatch(MismatchKind::Message) => "permanent mismatch: Message"@,
        VerifyError::Mismatch(MismatchKind::Step) => "permanent mismatch: Step"@,
        VerifyError::Mismatch(MismatchKind::Channel) => "permanent mismatch: Channel"@,
        VerifyError::Mismatch(MismatchKind::Receipt) => "permanent mismatch: Receipt"@,
        VerifyError::Unavailable(UnavailableKind::Definition) => {
            "authority unavailable: Definition"@
        },
        VerifyError::Unavailable(UnavailableKind::Message) => "authority unavailable: Message"@,
        VerifyError::Unavailable(UnavailableKind::Receipt) => "authority unavailable: Receipt"@,
        VerifyError::Unavailable(UnavailableKind::RelayIdentity) => {
            "authority unavailable: RelayIdentity"@
        },
    }
}

impl VerifyError {
    /// The message of the failure.
    pub fn to_string(&self) -> (text: String)
        ensures
            text@ == failure_text(*self),
    {
        let text: &str = match *self {
            VerifyError::Mismatch(MismatchKind::Target) => "permanent mismatch: Target",
            VerifyError::Mismatch(MismatchKind::Definition) => "permanent mismatch: Definition",
            VerifyError::Mismatch(MismatchKind::Message) => "permanent mismatch: Message",
            VerifyError::Mismatch(MismatchKind::Step) => "permanent mismatch: Step",
            VerifyError::Mismatch(MismatchKind::Channel) => "permanent mismatch: Channel",
            VerifyError::Mismatch(MismatchKind::Receipt) => "permanent mismatch: Receipt",
            VerifyError::Unavailable(UnavailableKind::Definition) => {
                "authority unavailable: Definition"
            },
            VerifyError::Unavailable(UnavailableKind::Message) => "authority unavailable: Message",
            VerifyError::Unavailable(UnavailableKind::Receipt) => "authority unavailable: Receipt",
            VerifyError::Unavailable(UnavailableKind::RelayIdentity) => {
                "authority unavailable: RelayIdentity"
            },
        };
        text.to_owned()
    }
}

/// Public artifacts returned together by the authenticated delivery API.
#[derive(Clone, Copy, Debug, Default)]
pub struct FetchedAuthority<'a> {
    pub definition: Option<&'a Event>,
    pub message: Option<&'a Event>,
    pub receipt: Option<&'a Event>,
}

/// What a step of a workflow does, as far as deliveries go.
#[derive(Debug)]
pub enum ActionDef {
    /// It sends a message, to a channel of its own where it names one.
    SendMessage { channel: Option<String> },
    /// It does something else.
    Other,
}

/// One step of a workflow.
#[derive(Debug)]
pub struct StepDef {
    pub id: String,
    pub action: ActionDef,
}

/// The workflow that a definition's content describes.
#[derive(Debug)]
pub struct WorkflowDef {
    pub steps: Vec<StepDef>,
}

/// The tags of this name, in their order.
pub open spec fn named_tags(tags: Seq<Seq<Seq<char>>>, name: Seq<char>) -> Seq<Seq<Seq<char>>> {
    tags.filter(|tag: Seq<Seq<char>>| tag_named(tag, name))
}

/// The UUID that the one tag of this name carries as its only value.
pub open spec fn uuid_tag(tags: Seq<Seq<Seq<char>>>, name: Seq<char>) -> Option<Seq<u8>> {
    let named = named_tags(tags, name);
    if named.len() == 1 && named[0].len() == 2 {
        uuid_of_text(named[0][1])
    } else {
        None
    }
}

fn exact_tags<'a>(event: &'a Event, name: &str) -> (named: Vec<&'a Tag>)
    ensures
        named@.map_values(|tag: &Tag| tag@) == named_tags(event@.tags, name@),
{
    let mut named: Vec<&'a Tag> = Vec::new();
    let ghost tags = event@.tags;
    let ghost has_name = |tag: Seq<Seq<char>>| tag_named(tag, name@);
    let n: usize = event.tags.len();
    let mut i: usize = 0;
    proof {
        reveal(Seq::filter);
    }
    assert(named@.map_values(|tag: &Tag| tag@) =~= tags.take(0).filter(has_name));
    while i < n
        invariant
            n == event.tags.len(),
            tags == tag_texts(event.tags@),
            has_name == (|tag: Seq<Seq<char>>| tag_named(tag, name@)),
            i <= n,
            named@.map_values(|tag: &Tag| tag@) == tags.take(i as int).filter(has_name),
        decreases n - i,
    {
        let tag: &'a Tag = &event.tags[i];
        let ghost before = named@;
        proof {
            reveal(Seq::filter);
            assert(tags.take(i + 1).drop_last() =~= tags.take(i as int));
            assert(tags.take(i + 1).last() == tag@);
        }
        if tag.is_named(name) {
            named.push(tag);
            assert(named@.map_values(|tag: &Tag| tag@) =~= before.map_values(
                |tag: &Tag| tag@,
            ).push(tag@));
        }
        i += 1;
    }
    assert(tags.take(n as int) =~= tags);
    named
}

fn single_uuid_tag(event: &Event, name: &str) -> (found: Option<Uuid>)
    ensures
        match found {
            Some(id) => uuid_tag(event@.tags, name@) == Some(id@),
            None => uuid_tag(event@.tags, name@) is None,
        },
{
    let tags: Vec<&Tag> = exact_tags(event, name);
    let ghost named = tags@.map_values(|tag: &Tag| tag@);
    assert(named.len() == tags@.len());
    if tags.len() == 1 {
        assert(named[0] == tags@[0]@);
        if tags[0].values.len() == 2 {
            return Uuid::parse_str(tags[0].values[1].as_str());
        }
    }
    None
}

fn workflow_uuid(definition: &Event) -> (found: Option<Uuid>)
    ensures
        match found {
            Some(id) => uuid_tag(definition@.tags, "d"@) == Some(id@),
            None => uuid_tag(definition@.tags, "d"@) is None,
        },
{
    single_uuid_tag(definition, "d")
}

fn event_channel(event: &Event) -> (found: Option<Uuid>)
    ensures
        match found {
            Some(id) => uuid_tag(event@.tags, "h"@) == Some(id@),
            None => uuid_tag(event@.tags, "h"@) is None,
        },
{
    single_uuid_tag(event, "h")
}

/// A tag of this name has this text, or one that differs from it only in the
/// case of ASCII letters, as its first value.
pub open spec fn declares_ignoring_case(
    tags: Seq<Seq<Seq<char>>>,
    name: Seq<char>,
    value: Seq<char>,
) -> bool {
    exists|i: int|
        0 <= i < tags.len() && tag_named(#[trigger] tags[i], name) && tags[i].len() > 1
            && same_ignoring_case(tags[i][1], value)
}

/// A tag of this name has this text as its first value.
pub open spec fn declares(tags: Seq<Seq<Seq<char>>>, name: Seq<char>, value: Seq<char>) -> bool {
    exists|i: int|
        0 <= i < tags.len() && tag_named(#[trigger] tags[i], name) && tags[i].len() > 1
            && tags[i][1] == value
}

fn has_declaration_ignoring_case(event: &Event, name: &str, value: &str) -> (found: bool)
    ensures
        found == declares_ignoring_case(event@.tags, name@, value@),
{
    let n: usize = event.tags.len();
    let mut i: usize = 0;
    while i < n
        invariant
            n == event.tags.len(),
            i <= n,
            forall|k: int|
                0 <= k < i ==> !(tag_named(#[trigger] event@.tags[k], name@) && event@.tags[k].len()
                    > 1 && same_ignoring_case(event@.tags[k][1], value@)),
        decreases n - i,
    {
        let tag: &Tag = &event.tags[i];
        assert(event@.tags[i as int] == tag@);
        if tag.is_named(name) && tag.values.len() > 1 && tag.values[1].as_str().eq_ignore_ascii_case(
            value,
        ) {
            return true;
        }
        i += 1;
    }
    false
}

fn has_declaration(event: &Event, name: &str, value: &str) -> (found: bool)
    ensures
        found == declares(event@.tags, name@, value@),
{
    let n: usize = event.tags.len();
    let mut i: usize = 0;
    while i < n
        invariant
            n == event.tags.len(),
            i <= n,
            forall|k: int|
                0 <= k < i ==> !(tag_named(#[trigger] event@.tags[k], name@) && event@.tags[k].len()
                    > 1 && event@.tags[k][1] == value@),
        decreases n - i,
    {
        let tag: &Tag = &event.tags[i];
        assert(event@.tags[i as int] == tag@);
        if tag.is_named(name) && tag.values.len() > 1 && text_eq(tag.values[1].as_str(), value) {
            return true;
        }
        i += 1;
    }
    false
}

/// The delivery that a trusted wake names: the event is authentic, the relay's,
/// and a canonical wake for this agent.
pub open spec fn trusted_wake(
    event: EventView,
    agent_pubkey: Seq<char>,
    relay_self: Option<Seq<char>>,
) -> Option<Seq<u8>> {
    match (relay_self, wake_of_event(event)) {
        (Some(relay), Ok((target, delivery))) => if same_ignoring_case(
            hex_encode(event.pubkey),
            relay,
        ) && authentic(event) && same_ignoring_case(hex_encode(target), agent_pubkey) {
            Some(delivery)
        } else {
            None
        },
        _ => None,
    }
}

/// Parse an authenticated, identifier-only live wake.
///
/// A wake is only a hint. It grants no claim or dispatch authority.
pub fn trusted_live_workflow_wake_delivery_id(
    event: &Event,
    agent_pubkey: &str,
    relay_self: Option<&str>,
) -> (delivery_id: Option<WorkflowDeliveryId>)
    ensures
        match delivery_id {
            Some(id) => trusted_wake(event@, agent_pubkey@, text_of(relay_self)) == Some(id@@),
            None => trusted_wake(event@, agent_pubkey@, text_of(relay_self)) is None,
        },
{
    let relay: &str = match relay_self {
        Some(relay) => relay,
        None => {
            return None;
        },
    };
    if !event.pubkey.to_hex().as_str().eq_ignore_ascii_case(relay) || !event.verify() {
        return None;
    }
    let wake: WorkflowDeliveryWake = match WorkflowDeliveryWake::parse(event) {
        Ok(wake) => wake,
        Err(_) => {
            return None;
        },
    };
    if wake.target_pubkey.to_hex().as_str().eq_ignore_ascii_case(agent_pubkey) {
        Some(wake.delivery_id)
    } else {
        None
    }
}

/// Ensure a claimed row is the delivery named by a trusted wake.
pub fn wake_references_delivery(
    event: &Event,
    agent_pubkey: &str,
    relay_self: Option<&str>,
    delivery: &DeliverySnapshot,
) -> (referenced: bool)
    ensures
        referenced == (trusted_wake(event@, agent_pubkey@, text_of(relay_self)) == Some(
            delivery.id@,
        ) && same_ignoring_case(delivery.target_pubkey@, agent_pubkey@)),
{
    match trusted_live_workflow_wake_delivery_id(event, agent_pubkey, relay_self) {
        Some(id) => {
            let named: Uuid = id.as_uuid();
            proof {
                if named@ == delivery.id@ {
                    lemma_uuid_view_injective(named, delivery.id);
                }
            }
            named == delivery.id && delivery.target_pubkey.as_str().eq_ignore_ascii_case(
                agent_pubkey,
            )
        },
        None => false,
    }
}

/// A visible message that the relay wrote and that names a workflow definition.
pub open spec fn delivery_candidate(event: EventView, relay_self: Option<Seq<char>>) -> bool {
    &&& relay_self matches Some(relay) && same_ignoring_case(hex_encode(event.pubkey), relay)
    &&& event.kind == KIND_STREAM_MESSAGE
    &&& named_tags(event.tags, "workflow-definition"@).len() > 0
}

/// A relay-authored visible message declaring workflow shape.
pub fn is_workflow_delivery_candidate(event: &Event, relay_self: Option<&str>) -> (candidate: bool)
    ensures
        candidate == delivery_candidate(event@, text_of(relay_self)),
        candidate == match relay_self {
            Some(relay) => {
                &&& event.kind == KIND_STREAM_MESSAGE
                &&& same_ignoring_case(hex_encode(event.pubkey@), relay@)
                &&& exists|i: int|
                    0 <= i < event@.tags.len() && tag_named(
                        #[trigger] event@.tags[i],
                        "workflow-definition"@,
                    )
            },
            None => false,
        },
{
    match relay_self {
        Some(relay) => {
            let tags: Vec<&Tag> = exact_tags(event, "workflow-definition");
            proof {
                let named = tags@.map_values(|tag: &Tag| tag@);
                assert(named.len() == tags@.len());
                lemma_named_tags(event@.tags, "workflow-definition"@);
            }
            event.kind == KIND_STREAM_MESSAGE && event.pubkey.to_hex().as_str().eq_ignore_ascii_case(
                relay,
            ) && tags.len() > 0
        },
        None => false,
    }
}

/// There are tags of a name exactly where one tag has that name.
proof fn lemma_named_tags(tags: Seq<Seq<Seq<char>>>, name: Seq<char>)
    ensures
        named_tags(tags, name).len() > 0 <==> exists|i: int|
            0 <= i < tags.len() && tag_named(#[trigger] tags[i], name),
    decreases tags.len(),
{
    reveal(Seq::filter);
    if tags.len() > 0 {
        let init = tags.drop_last();
        lemma_named_tags(init, name);
        if exists|i: int| 0 <= i < init.len() && tag_named(#[trigger] init[i], name) {
            let i = choose|i: int| 0 <= i < init.len() && tag_named(#[trigger] init[i], name);
            assert(tag_named(tags[i], name));
        }
        if exists|i: int| 0 <= i < tags.len() && tag_named(#[trigger] tags[i], name) {
            let i = choose|i: int| 0 <= i < tags.len() && tag_named(#[trigger] tags[i], name);
            if i < init.len() {
                assert(tag_named(init[i], name));
            }
        }
        if tag_named(tags.last(), name) {
            assert(tag_named(tags[tags.len() - 1], name));
        }
    }
}

/// The principal of a message: the durable owner, else the author; and nobody
/// where a message of workflow shape has no durable owner.
pub open spec fn delivery_principal(
    author: Seq<char>,
    durable_workflow_owner: Option<Seq<char>>,
    workflow_shape: bool,
) -> Option<Seq<char>> {
    if durable_workflow_owner is Some {
        durable_workflow_owner
    } else if workflow_shape {
        None
    } else {
        Some(author)
    }
}

/// Resolve the principal used by the ordinary owner-only dispatch gate.
pub fn workflow_delivery_principal(
    author: &str,
    durable_workflow_owner: Option<&str>,
    workflow_shape: bool,
) -> (principal: Option<String>)
    ensures
        text_in(principal) == delivery_principal(
            author@,
            text_of(durable_workflow_owner),
            workflow_shape,
        ),
        match durable_workflow_owner {
            Some(owner) => principal matches Some(p) && p@ == owner@,
            None => if workflow_shape {
                principal is None
            } else {
                principal matches Some(p) && p@ == author@
            },
        },
{
    match durable_workflow_owner {
        Some(owner) => Some(owner.to_owned()),
        None => if workflow_shape {
            None
        } else {
            Some(author.to_owned())
        },
    }
}

/// The definition is the authentic revision that the delivery names, for the
/// delivery's workflow.
pub open spec fn definition_agrees(delivery: DeliverySnapshot, definition: EventView) -> bool {
    &&& hex_32(delivery.definition_event_id@) == Some(definition.id)
    &&& authentic(definition)
    &&& definition.kind == KIND_WORKFLOW_DEF
    &&& uuid_tag(definition.tags, "d"@) == Some(delivery.workflow_id@)
}

/// The message is the authentic one that the delivery names, signed by the
/// relay, in the definition's channel, and declares the delivery's recipient,
/// definition, run and step.
pub open spec fn message_agrees(
    delivery: DeliverySnapshot,
    message: EventView,
    relay: Seq<u8>,
    channel: Seq<u8>,
) -> bool {
    &&& hex_32(delivery.message_event_id@) == Some(message.id)
    &&& authentic(message)
    &&& message.kind == KIND_STREAM_MESSAGE
    &&& message.pubkey == relay
    &&& uuid_tag(message.tags, "h"@) == Some(channel)
    &&& message_targets(message) matches Ok(targets) && targets.contains(
        hex_32(delivery.target_pubkey@)->0,
    )
    &&& declares_ignoring_case(
        message.tags,
        "workflow-definition"@,
        delivery.definition_event_id@,
    )
    &&& declares(message.tags, "workflow-run"@, uuid_text(delivery.run_id@))
    &&& declares(message.tags, "workflow-step"@, delivery.step_id@)
}

/// The verdict of the first stage: the channel that the artifacts agree on, or
/// the first thing that is missing or disagrees.
pub open spec fn artifact_verdict(
    delivery: DeliverySnapshot,
    authority: FetchedAuthority,
    agent_pubkey: Seq<char>,
    relay_self: Option<Seq<char>>,
) -> Result<Seq<u8>, VerifyError> {
    if relay_self is None {
        Err(VerifyError::Unavailable(UnavailableKind::RelayIdentity))
    } else if hex_32(relay_self->0) is None {
        Err(VerifyError::Mismatch(MismatchKind::Receipt))
    } else if authority.definition is None {
        Err(VerifyError::Unavailable(UnavailableKind::Definition))
    } else if authority.message is None {
        Err(VerifyError::Unavailable(UnavailableKind::Message))
    } else if authority.receipt is None {
        Err(VerifyError::Unavailable(UnavailableKind::Receipt))
    } else if !same_ignoring_case(delivery.target_pubkey@, agent_pubkey) || hex_32(
        delivery.target_pubkey@,
    ) is None {
        Err(VerifyError::Mismatch(MismatchKind::Target))
    } else if hex_32(delivery.definition_event_id@) is None {
        Err(VerifyError::Mismatch(MismatchKind::Definition))
    } else if hex_32(delivery.message_event_id@) is None {
        Err(VerifyError::Mismatch(MismatchKind::Message))
    } else if is_blank(delivery.step_id@) {
        Err(VerifyError::Mismatch(MismatchKind::Receipt))
    } else {
        let definition = authority.definition->0@;
        let channel = uuid_tag(definition.tags, "h"@);
        if !definition_agrees(delivery, definition) || channel is None {
            Err(VerifyError::Mismatch(MismatchKind::Definition))
        } else if !message_agrees(
            delivery,
            authority.message->0@,
            hex_32(relay_self->0)->0,
            channel->0,
        ) {
            Err(VerifyError::Mismatch(MismatchKind::Message))
        } else {
            Ok(channel->0)
        }
    }
}

/// The first step of this identifier.
pub open spec fn step_named(steps: Seq<StepDef>, id: Seq<char>) -> Option<StepDef>
    decreases steps.len(),
{
    if steps.len() == 0 {
        None
    } else if steps[0].id@ == id {
        Some(steps[0])
    } else {
        step_named(steps.drop_first(), id)
    }
}

/// The verdict of the second stage: the workflow has the step, the step sends a
/// message, and the channel that it names, if any, is the delivery's.
pub open spec fn step_verdict(
    workflow: Option<WorkflowDef>,
    step_id: Seq<char>,
    channel: Seq<u8>,
) -> Result<(), VerifyError> {
    match workflow {
        None => Err(VerifyError::Mismatch(MismatchKind::Step)),
        Some(w) => match step_named(w.steps@, step_id) {
            Some(StepDef { id: _, action: ActionDef::SendMessage { channel: step_channel } }) => {
                match step_channel {
                    Some(text) => if trimmed(text@).len() > 0 && uuid_of_text(trimmed(text@))
                        != Some(channel) {
                        Err(VerifyError::Mismatch(MismatchKind::Channel))
                    } else {
                        Ok(())
                    },
                    None => Ok(()),
                }
            },
            _ => Err(VerifyError::Mismatch(MismatchKind::Step)),
        },
    }
}

/// The receipt is authentic, the relay signed it, and what it asserts is this
/// delivery with its whole binding.
pub open spec fn receipt_agrees(
    delivery: DeliverySnapshot,
    receipt: EventView,
    asserted: Option<WorkflowDeliveryReceipt>,
    relay: Seq<u8>,
) -> bool {
    &&& authentic(receipt)
    &&& receipt.pubkey == relay
    &&& asserted matches Some(assertion) && assertion.delivery_id@ == delivery.id
        && binding_of_delivery(assertion.binding, delivery)
}

/// The verdict on a delivery.
pub open spec fn delivery_verdict(
    delivery: DeliverySnapshot,
    authority: FetchedAuthority,
    agent_pubkey: Seq<char>,
    relay_self: Option<Seq<char>>,
    workflow: Option<WorkflowDef>,
    asserted: Option<WorkflowDeliveryReceipt>,
) -> Result<(), VerifyError> {
    match artifact_verdict(delivery, authority, agent_pubkey, relay_self) {
        Err(error) => Err(error),
        Ok(channel) => match step_verdict(workflow, delivery.step_id@, channel) {
            Err(error) => Err(error),
            Ok(_) => if receipt_agrees(
                delivery,
                authority.receipt->0@,
                asserted,
                hex_32(relay_self->0)->0,
            ) {
                Ok(())
            } else {
                Err(VerifyError::Mismatch(MismatchKind::Receipt))
            },
        },
    }
}

/// The binding is the one that the delivery describes.
pub open spec fn binding_of_delivery(
    binding: WorkflowDeliveryBinding,
    delivery: DeliverySnapshot,
) -> bool {
    &&& binding.community_id == delivery.community_id
    &&& binding.workflow_id == delivery.workflow_id
    &&& binding.run_id == delivery.run_id
    &&& binding.step_id@ == delivery.step_id@
    &&& hex_32(delivery.target_pubkey@) == Some(binding.target_pubkey@)
    &&& hex_32(delivery.definition_event_id@) == Some(binding.definition_event_id@)
    &&& hex_32(delivery.message_event_id@) == Some(binding.message_event_id@)
    &&& binding.cause == delivery.cause
}

/// A delivery whose artifacts agree; its step is still to be looked up in the
/// workflow that the definition's content describes.
#[derive(Debug)]
pub struct StepCheck<'a> {
    pub delivery_id: WorkflowDeliveryId,
    pub definition: &'a Event,
    pub message: &'a Event,
    pub receipt: &'a Event,
    pub relay_pubkey: PublicKey,
    pub binding: WorkflowDeliveryBinding,
    pub channel: Uuid,
}

/// A delivery of which only the receipt is still to be verified: that it is the
/// relay's, and asserts this delivery and binding.
#[derive(Debug)]
pub struct ReceiptCheck<'a> {
    pub delivery_id: WorkflowDeliveryId,
    pub definition: &'a Event,
    pub message: &'a Event,
    pub receipt: &'a Event,
    pub relay_pubkey: PublicKey,
    pub binding: WorkflowDeliveryBinding,
}

fn definition_matches(delivery: &DeliverySnapshot, definition_id: &EventId, definition: &Event) -> (r:
    bool)
    requires
        hex_32(delivery.definition_event_id@) == Some(definition_id@),
    ensures
        r == definition_agrees(*delivery, definition@),
{
    if definition.id != *definition_id {
        proof {
            if definition.id@ == definition_id@ {
                lemma_event_id_view_injective(definition.id, *definition_id);
            }
        }
        return false;
    }
    if !definition.verify() || definition.kind != KIND_WORKFLOW_DEF {
        return false;
    }
    match workflow_uuid(definition) {
        Some(id) => {
            proof {
                if id@ == delivery.workflow_id@ {
                    lemma_uuid_view_injective(id, delivery.workflow_id);
                }
            }
            id == delivery.workflow_id
        },
        None => false,
    }
}

fn message_matches(
    delivery: &DeliverySnapshot,
    message_id: &EventId,
    target: &PublicKey,
    message: &Event,
    relay_pubkey: &PublicKey,
    channel: &Uuid,
) -> (r: bool)
    requires
        hex_32(delivery.message_event_id@) == Some(message_id@),
        hex_32(delivery.target_pubkey@) == Some(target@),
    ensures
        r == message_agrees(*delivery, message@, relay_pubkey@, channel@),
{
    let admitted: Vec<PublicKey> = match message_v1_targets(message) {
        Ok(admitted) => admitted,
        Err(_) => {
            return false;
        },
    };
    if message.id != *message_id {
        proof {
            if message.id@ == message_id@ {
                lemma_event_id_view_injective(message.id, *message_id);
            }
        }
        return false;
    }
    if !message.verify() || message.kind != KIND_STREAM_MESSAGE {
        return false;
    }
    if message.pubkey != *relay_pubkey {
        proof {
            if message.pubkey@ == relay_pubkey@ {
                lemma_key_view_injective(message.pubkey, *relay_pubkey);
            }
        }
        return false;
    }
    match event_channel(message) {
        Some(id) => {
            if id != *channel {
                proof {
                    if id@ == channel@ {
                        lemma_uuid_view_injective(id, *channel);
                    }
                }
                return false;
            }
        },
        None => {
            return false;
        },
    }
    contains_key(&admitted, target) && has_declaration_ignoring_case(
        message,
        "workflow-definition",
        delivery.definition_event_id.as_str(),
    ) && has_declaration(message, "workflow-run", delivery.run_id.to_string().as_str())
        && has_declaration(message, "workflow-step", delivery.step_id.as_str())
}

/// The first stage: check the artifacts of a claimed delivery against each other
/// and against the delivery.
pub fn verify_delivery_artifacts<'a>(
    delivery: &DeliverySnapshot,
    authority: &FetchedAuthority<'a>,
    agent_pubkey: &str,
    relay_self: Option<&str>,
) -> (verdict: Result<StepCheck<'a>, VerifyError>)
    ensures
        match verdict {
            Ok(check) => {
                &&& artifact_verdict(*delivery, *authority, agent_pubkey@, text_of(relay_self))
                    == Ok::<_, VerifyError>(check.channel@)
                &&& check.delivery_id@ == delivery.id
                &&& Some(check.definition) == authority.definition
                &&& Some(check.message) == authority.message
                &&& Some(check.receipt) == authority.receipt
                &&& hex_32(relay_self->0@) == Some(check.relay_pubkey@)
                &&& binding_of_delivery(check.binding, *delivery)
                &&& check.binding.wf()
            },
            Err(error) => artifact_verdict(
                *delivery,
                *authority,
                agent_pubkey@,
                text_of(relay_self),
            ) == Err::<Seq<u8>, _>(error),
        },
{
    let relay: &str = match relay_self {
        Some(relay) => relay,
        None => {
            return Err(VerifyError::Unavailable(UnavailableKind::RelayIdentity));
        },
    };
    let relay_pubkey: PublicKey = match PublicKey::from_hex(relay) {
        Some(key) => key,
        None => {
            return Err(VerifyError::Mismatch(MismatchKind::Receipt));
        },
    };
    let definition: &'a Event = match authority.definition {
        Some(definition) => definition,
        None => {
            return Err(VerifyError::Unavailable(UnavailableKind::Definition));
        },
    };
    let message: &'a Event = match authority.message {
        Some(message) => message,
        None => {
            return Err(VerifyError::Unavailable(UnavailableKind::Message));
        },
    };
    let receipt: &'a Event = match authority.receipt {
        Some(receipt) => receipt,
        None => {
            return Err(VerifyError::Unavailable(UnavailableKind::Receipt));
        },
    };
    if !delivery.target_pubkey.as_str().eq_ignore_ascii_case(agent_pubkey) {
        return Err(VerifyError::Mismatch(MismatchKind::Target));
    }
    let target: PublicKey = match PublicKey::from_hex(delivery.target_pubkey.as_str()) {
        Some(key) => key,
        None => {
            return Err(VerifyError::Mismatch(MismatchKind::Target));
        },
    };
    let definition_id: EventId = match EventId::from_hex(delivery.definition_event_id.as_str()) {
        Some(id) => id,
        None => {
            return Err(VerifyError::Mismatch(MismatchKind::Definition));
        },
    };
    let message_id: EventId = match EventId::from_hex(delivery.message_event_id.as_str()) {
        Some(id) => id,
        None => {
            return Err(VerifyError::Mismatch(MismatchKind::Message));
        },
    };
    let binding: WorkflowDeliveryBinding = match WorkflowDeliveryBinding::new(
        delivery.community_id,
        delivery.workflow_id,
        delivery.run_id,
        delivery.step_id.clone(),
        target,
        definition_id,
        message_id,
        delivery.cause,
    ) {
        Ok(binding) => binding,
        Err(_) => {
            return Err(VerifyError::Mismatch(MismatchKind::Receipt));
        },
    };
    if !definition_matches(delivery, &definition_id, definition) {
        return Err(VerifyError::Mismatch(MismatchKind::Definition));
    }
    let channel: Uuid = match event_channel(definition) {
        Some(channel) => channel,
        None => {
            return Err(VerifyError::Mismatch(MismatchKind::Definition));
        },
    };
    if !message_matches(delivery, &message_id, &target, message, &relay_pubkey, &channel) {
        return Err(VerifyError::Mismatch(MismatchKind::Message));
    }
    Ok(
        StepCheck {
            delivery_id: WorkflowDeliveryId::from_uuid(delivery.id),
            definition,
            message,
            receipt,
            relay_pubkey,
            binding,
            channel,
        },
    )
}

impl<'a> StepCheck<'a> {
    /// The second stage: check the delivery's step in the workflow that the
    /// definition's content describes, or in none where it describes none.
    pub fn check_step(self, workflow: Option<&WorkflowDef>) -> (verdict: Result<
        ReceiptCheck<'a>,
        VerifyError,
    >)
        ensures
            match verdict {
                Ok(check) => {
                    &&& step_verdict(workflow_of(workflow), self.binding.step_id@, self.channel@)
                        is Ok
                    &&& check.delivery_id == self.delivery_id
                    &&& check.definition == self.definition
                    &&& check.message == self.message
                    &&& check.receipt == self.receipt
                    &&& check.relay_pubkey == self.relay_pubkey
                    &&& check.binding == self.binding
                },
                Err(error) => step_verdict(
                    workflow_of(workflow),
                    self.binding.step_id@,
                    self.channel@,
                ) == Err::<(), _>(error),
            },
    {
        let workflow: &WorkflowDef = match workflow {
            Some(workflow) => workflow,
            None => {
                return Err(VerifyError::Mismatch(MismatchKind::Step));
            },
        };
        let step: &StepDef = match find_step(&workflow.steps, self.binding.step_id.as_str()) {
            Some(step) => step,
            None => {
                return Err(VerifyError::Mismatch(MismatchKind::Step));
            },
        };
        match &step.action {
            ActionDef::SendMessage { channel: step_channel } => {
                if let Some(text) = step_channel {
                    let named: &str = text.as_str().trim();
                    if !named.is_empty() {
                        match Uuid::parse_str(named) {
                            Some(id) => {
                                if id != self.channel {
                                    proof {
                                        if id@ == self.channel@ {
                                            lemma_uuid_view_injective(id, self.channel);
                                        }
                                    }
                                    return Err(VerifyError::Mismatch(MismatchKind::Channel));
                                }
                            },
                            None => {
                                return Err(VerifyError::Mismatch(MismatchKind::Channel));
                            },
                        }
                    }
                }
            },
            ActionDef::Other => {
                return Err(VerifyError::Mismatch(MismatchKind::Step));
            },
        }
        Ok(
            ReceiptCheck {
                delivery_id: self.delivery_id,
                definition: self.definition,
                message: self.message,
                receipt: self.receipt,
                relay_pubkey: self.relay_pubkey,
                binding: self.binding,
            },
        )
    }
}

/// An optional workflow.
pub open spec fn workflow_of(workflow: Option<&WorkflowDef>) -> Option<WorkflowDef> {
    match workflow {
        Some(w) => Some(*w),
        None => None,
    }
}

fn find_step<'a>(steps: &'a Vec<StepDef>, id: &str) -> (found: Option<&'a StepDef>)
    ensures
        match found {
            Some(step) => step_named(steps@, id@) == Some(*step),
            None => step_named(steps@, id@) is None,
        },
{
    let n: usize = steps.len();
    let mut i: usize = 0;
    assert(steps@.skip(0) =~= steps@);
    while i < n
        invariant
            n == steps.len(),
            i <= n,
            step_named(steps@, id@) == step_named(steps@.skip(i as int), id@),
        decreases n - i,
    {
        let step: &'a StepDef = &steps[i];
        assert(steps@.skip(i as int)[0] == *step);
        assert(steps@.skip(i as int).drop_first() =~= steps@.skip(i + 1));
        if text_eq(step.id.as_str(), id) {
            return Some(step);
        }
        i += 1;
    }
    None
}

impl<'a> ReceiptCheck<'a> {
    /// The third stage: the visible message and the key of the workflow's owner,
    /// where the receipt is authentic, the relay's, and asserts this delivery and
    /// binding. `asserted` is what it asserts, or none where it is no receipt.
    pub fn conclude(self, asserted: Option<&WorkflowDeliveryReceipt>) -> (verdict: Result<
        (Event, String),
        VerifyError,
    >)
        ensures
            match verdict {
                Ok((message, owner)) => {
                    &&& self.receipt_stands(receipt_of(asserted))
                    &&& message@ == self.message@
                    &&& owner@ == hex_encode(self.definition.pubkey@)
                },
                Err(error) => !self.receipt_stands(receipt_of(asserted)) && error
                    == VerifyError::Mismatch(MismatchKind::Receipt),
            },
    {
        let assertion: &WorkflowDeliveryReceipt = match asserted {
            Some(assertion) => assertion,
            None => {
                return Err(VerifyError::Mismatch(MismatchKind::Receipt));
            },
        };
        if !self.receipt.verify() || self.receipt.pubkey != self.relay_pubkey
            || assertion.delivery_id != self.delivery_id || assertion.binding != self.binding {
            proof {
                if self.receipt.pubkey@ == self.relay_pubkey@ {
                    lemma_key_view_injective(self.receipt.pubkey, self.relay_pubkey);
                }
            }
            return Err(VerifyError::Mismatch(MismatchKind::Receipt));
        }
        Ok((self.message.clone(), self.definition.pubkey.to_hex()))
    }

    /// The receipt is authentic, the relay's, and asserts this delivery and
    /// binding.
    pub open spec fn receipt_stands(self, asserted: Option<WorkflowDeliveryReceipt>) -> bool {
        &&& authentic(self.receipt@)
        &&& self.receipt.pubkey@ == self.relay_pubkey@
        &&& asserted matches Some(assertion) && assertion.delivery_id@ == self.delivery_id@
            && assertion.binding@ == self.binding@
    }
}

/// An optional receipt.
pub open spec fn receipt_of(asserted: Option<&WorkflowDeliveryReceipt>) -> Option<
    WorkflowDeliveryReceipt,
> {
    match asserted {
        Some(assertion) => Some(*assertion),
        None => None,
    }
}

/// One binding is a delivery's exactly where it identifies the same as another
/// that is.
proof fn lemma_one_binding_of_a_delivery(
    a: WorkflowDeliveryBinding,
    b: WorkflowDeliveryBinding,
    delivery: DeliverySnapshot,
)
    requires
        binding_of_delivery(a, delivery),
    ensures
        b@ == a@ <==> binding_of_delivery(b, delivery),
{
    if binding_of_delivery(b, delivery) {
        lemma_key_view_injective(a.target_pubkey, b.target_pubkey);
        lemma_event_id_view_injective(a.definition_event_id, b.definition_event_id);
        lemma_event_id_view_injective(a.message_event_id, b.message_event_id);
    }
}

/// Verify a claimed delivery using only its exact signed public artifacts, where
/// both outside answers are at hand: the workflow that the definition's content
/// describes, and what the receipt asserts; none where it describes or asserts
/// none.
///
/// The receipt is the relay's signed assertion that it produced this visible
/// message for the exact immutable binding and trigger cause. The agent verifies
/// the receipt rather than receiving private rendering inputs or durable cause
/// rows.
pub fn verify_workflow_delivery(
    delivery: &DeliverySnapshot,
    authority: &FetchedAuthority<'_>,
    agent_pubkey: &str,
    relay_self: Option<&str>,
    workflow: Option<&WorkflowDef>,
    asserted: Option<&WorkflowDeliveryReceipt>,
) -> (verdict: Result<(Event, String), VerifyError>)
    ensures
        match verdict {
            Ok((message, owner)) => {
                &&& delivery_verdict(
                    *delivery,
                    *authority,
                    agent_pubkey@,
                    text_of(relay_self),
                    workflow_of(workflow),
                    receipt_of(asserted),
                ) is Ok
                &&& message@ == authority.message->0@
                &&& owner@ == hex_encode(authority.definition->0.pubkey@)
            },
            Err(error) => delivery_verdict(
                *delivery,
                *authority,
                agent_pubkey@,
                text_of(relay_self),
                workflow_of(workflow),
                receipt_of(asserted),
            ) == Err::<(), _>(error),
        },
{
    let step: StepCheck<'_> = match verify_delivery_artifacts(
        delivery,
        authority,
        agent_pubkey,
        relay_self,
    ) {
        Ok(step) => step,
        Err(error) => {
            return Err(error);
        },
    };
    let receipt: ReceiptCheck<'_> = match step.check_step(workflow) {
        Ok(receipt) => receipt,
        Err(error) => {
            return Err(error);
        },
    };
    proof {
        if let Some(assertion) = asserted {
            lemma_one_binding_of_a_delivery(receipt.binding, assertion.binding, *delivery);
        }
    }
    receipt.conclude(asserted)
}

/// What a verified delivery rests on: the agent is its target; the definition
/// and the message are the authentic events that it names; the relay signed the
/// message, in the definition's channel, for this target, definition, run and
/// step; the step sends a message, to no other channel; and the receipt is the
/// relay's authentic one for this delivery and binding.
pub proof fn law_verified_delivery_rests_on_its_artifacts(
    delivery: DeliverySnapshot,
    authority: FetchedAuthority,
    agent_pubkey: Seq<char>,
    relay_self: Option<Seq<char>>,
    workflow: Option<WorkflowDef>,
    asserted: Option<WorkflowDeliveryReceipt>,
)
    requires
        delivery_verdict(
            delivery,
            authority,
            agent_pubkey,
            relay_self,
            workflow,
            asserted,
        ) is Ok,
    ensures
        relay_self is Some,
        hex_32(relay_self->0) is Some,
        authority.definition is Some,
        authority.message is Some,
        authority.receipt is Some,
        same_ignoring_case(delivery.target_pubkey@, agent_pubkey),
        !is_blank(delivery.step_id@),
        definition_agrees(delivery, authority.definition->0@),
        uuid_tag(authority.definition->0@.tags, "h"@) is Some,
        message_agrees(
            delivery,
            authority.message->0@,
            hex_32(relay_self->0)->0,
            uuid_tag(authority.definition->0@.tags, "h"@)->0,
        ),
        workflow is Some,
        step_named(workflow->0.steps@, delivery.step_id@) is Some,
        step_named(workflow->0.steps@, delivery.step_id@)->0.action is SendMessage,
        receipt_agrees(delivery, authority.receipt->0@, asserted, hex_32(relay_self->0)->0),
{
}

/// Unavailability is exactly the absence of an artifact: with a well-formed
/// relay identity and all three artifacts at hand no verdict is `Unavailable`,
/// and with one of them missing every verdict is.
pub proof fn law_unavailable_exactly_where_an_artifact_is_missing(
    delivery: DeliverySnapshot,
    authority: FetchedAuthority,
    agent_pubkey: Seq<char>,
    relay_self: Option<Seq<char>>,
    workflow: Option<WorkflowDef>,
    asserted: Option<WorkflowDeliveryReceipt>,
)
    requires
        relay_self is Some ==> hex_32(relay_self->0) is Some,
    ensures
        (delivery_verdict(
            delivery,
            authority,
            agent_pubkey,
            relay_self,
            workflow,
            asserted,
        ) matches Err(VerifyError::Unavailable(_))) <==> (relay_self is None || authority.definition
            is None || authority.message is None || authority.receipt is None),
{
}

/// Nothing is delivered on a message or a receipt that another key than the
/// relay's signed, or that was changed after it was signed.
pub proof fn law_wrong_relay_or_tampering_fails_closed(
    delivery: DeliverySnapshot,
    authority: FetchedAuthority,
    agent_pubkey: Seq<char>,
    relay: Seq<char>,
    workflow: Option<WorkflowDef>,
    asserted: Option<WorkflowDeliveryReceipt>,
)
    requires
        authority.message is Some,
        authority.receipt is Some,
        ({
            ||| hex_32(relay) != Some(authority.message->0@.pubkey)
            ||| hex_32(relay) != Some(authority.receipt->0@.pubkey)
            ||| !authentic(authority.message->0@)
            ||| !authentic(authority.receipt->0@)
        }),
    ensures
        delivery_verdict(
            delivery,
            authority,
            agent_pubkey,
            Some(relay),
            workflow,
            asserted,
        ) is Err,
{
}

/// The artifacts fix the delivery's identity: two deliveries that verify on the
/// same artifacts, for the same agent, name the same workflow, definition,
/// message and target.
pub proof fn law_artifacts_fix_the_identity(
    a: DeliverySnapshot,
    b: DeliverySnapshot,
    authority: FetchedAuthority,
    agent_pubkey: Seq<char>,
    relay_self: Option<Seq<char>>,
)
    requires
        artifact_verdict(a, authority, agent_pubkey, relay_self) is Ok,
        artifact_verdict(b, authority, agent_pubkey, relay_self) is Ok,
    ensures
        a.workflow_id == b.workflow_id,
        hex_32(a.definition_event_id@) == hex_32(b.definition_event_id@),
        hex_32(a.message_event_id@) == hex_32(b.message_event_id@),
        hex_32(a.target_pubkey@) == hex_32(b.target_pubkey@),
        declares(authority.message->0@.tags, "workflow-run"@, uuid_text(a.run_id@)),
        declares(authority.message->0@.tags, "workflow-run"@, uuid_text(b.run_id@)),
        declares(authority.message->0@.tags, "workflow-step"@, a.step_id@),
        declares(authority.message->0@.tags, "workflow-step"@, b.step_id@),
{
    lemma_uuid_view_injective(a.workflow_id, b.workflow_id);
    assert forall|i: int| 0 <= i < a.target_pubkey@.len() implies ascii_lower(
        #[trigger] a.target_pubkey@[i],
    ) == ascii_lower(b.target_pubkey@[i]) by {
        assert(ascii_lower(agent_pubkey[i]) == ascii_lower(b.target_pubkey@[i]));
    }
    lemma_hex_ignores_case(a.target_pubkey@, b.target_pubkey@);
}

/// Two deliveries agree in every field, texts of keys and events up to what they
/// denote.
pub open spec fn same_identity(a: DeliverySnapshot, b: DeliverySnapshot) -> bool {
    &&& a.id == b.id
    &&& a.community_id == b.community_id
    &&& a.workflow_id == b.workflow_id
    &&& a.run_id == b.run_id
    &&& a.step_id@ == b.step_id@
    &&& hex_32(a.target_pubkey@) == hex_32(b.target_pubkey@)
    &&& hex_32(a.definition_event_id@) == hex_32(b.definition_event_id@)
    &&& hex_32(a.message_event_id@) == hex_32(b.message_event_id@)
    &&& a.cause == b.cause
}

/// One set of artifacts verifies for one delivery identity only: where a delivery
/// verifies, another one that differs from it in any field fails on the same
/// artifacts, for the same agent and relay. This holds whatever workflow a
/// definition's content describes, and whatever a receipt asserts.
pub proof fn law_artifacts_verify_one_identity(
    a: DeliverySnapshot,
    b: DeliverySnapshot,
    authority: FetchedAuthority,
    agent_pubkey: Seq<char>,
    relay_self: Option<Seq<char>>,
    described: spec_fn(Seq<char>) -> Option<WorkflowDef>,
    asserted: spec_fn(EventView) -> Option<WorkflowDeliveryReceipt>,
)
    requires
        delivery_verdict(
            a,
            authority,
            agent_pubkey,
            relay_self,
            described(authority.definition->0@.content),
            asserted(authority.receipt->0@),
        ) is Ok,
    ensures
        !same_identity(a, b) ==> delivery_verdict(
            b,
            authority,
            agent_pubkey,
            relay_self,
            described(authority.definition->0@.content),
            asserted(authority.receipt->0@),
        ) is Err,
{
}

/// A wake is trusted only where it is authentic, the relay's, and for the agent;
/// and what it yields is the identifier alone.
pub proof fn law_trusted_wake_is_the_relays_for_the_agent(
    event: EventView,
    agent_pubkey: Seq<char>,
    relay_self: Option<Seq<char>>,
)
    ensures
        trusted_wake(event, agent_pubkey, relay_self) matches Some(delivery) ==> {
            &&& authentic(event)
            &&& relay_self matches Some(relay) && same_ignoring_case(
                hex_encode(event.pubkey),
                relay,
            )
            &&& exists|target: Seq<u8>| #[trigger]
                same_ignoring_case(hex_encode(target), agent_pubkey) && wake_of_event(event) == Ok::<
                    _,
                    crate::workflow_delivery::WorkflowDeliveryError,
                >((target, delivery))
        },
{
}

/// The first step of this identifier stands at this place.
pub open spec fn first_step_at(steps: Seq<StepDef>, id: Seq<char>, place: int) -> bool {
    &&& 0 <= place < steps.len()
    &&& steps[place].id@ == id
    &&& forall|earlier: int| 0 <= earlier < place ==> (#[trigger] steps[earlier]).id@ != id
}

/// The lookup of a step is complete: it finds one exactly where some step of the
/// workflow, at whatever place, has the identifier, and of several the first.
pub proof fn law_every_step_is_found(steps: Seq<StepDef>, id: Seq<char>)
    ensures
        step_named(steps, id) is Some <==> exists|k: int|
            0 <= k < steps.len() && (#[trigger] steps[k]).id@ == id,
        forall|place: int| #[trigger]
            first_step_at(steps, id, place) ==> step_named(steps, id) == Some(steps[place]),
        step_named(steps, id) is Some ==> exists|place: int| #[trigger]
            first_step_at(steps, id, place),
    decreases steps.len(),
{
    if steps.len() > 0 {
        let rest = steps.drop_first();
        law_every_step_is_found(rest, id);
        if steps[0].id@ == id {
            assert(first_step_at(steps, id, 0));
        } else {
            assert forall|k: int| 0 <= k < steps.len() && (#[trigger] steps[k]).id@ == id implies step_named(
                steps,
                id,
            ) is Some by {
                assert(rest[k - 1].id@ == id);
            }
            if step_named(steps, id) is Some {
                let k = choose|k: int| 0 <= k < rest.len() && (#[trigger] rest[k]).id@ == id;
                assert(steps[k + 1].id@ == id);
                let place = choose|place: int| #[trigger] first_step_at(rest, id, place);
                assert forall|earlier: int| 0 <= earlier < place + 1 implies (
                #[trigger] steps[earlier]).id@ != id by {
                    if earlier > 0 {
                        assert(rest[earlier - 1].id@ != id);
                    }
                }
                assert(steps[place + 1] == rest[place]);
                assert(first_step_at(steps, id, place + 1));
            }
            assert forall|place: int| #[trigger] first_step_at(steps, id, place) implies step_named(
                steps,
                id,
            ) == Some(steps[place]) by {
                assert forall|earlier: int| 0 <= earlier < place - 1 implies (
                #[trigger] rest[earlier]).id@ != id by {
                    assert(steps[earlier + 1].id@ != id);
                }
                assert(rest[place - 1] == steps[place]);
                assert(first_step_at(rest, id, place - 1));
            }
        }
    }
}

/// At this place stands the only tag of its name, and it has one value beside it.
pub open spec fn sole_tag_at(tags: Seq<Seq<Seq<char>>>, name: Seq<char>, place: int) -> bool {
    &&& 0 <= place < tags.len()
    &&& tags[place].len() == 2
    &&& tags[place][0] == name
    &&& forall|other: int|
        0 <= other < tags.len() && other != place ==> !((#[trigger] tags[other]).len() > 0
            && tags[other][0] == name)
}

/// One tag alone has this name, and its one value is the text of this UUID.
pub open spec fn carries_alone(tags: Seq<Seq<Seq<char>>>, name: Seq<char>, id: Seq<u8>) -> bool {
    exists|place: int| #[trigger]
        sole_tag_at(tags, name, place) && uuid_of_text(tags[place][1]) == Some(id)
}

/// An event carries a UUID under a name exactly where one tag alone has the name
/// and one value, which is that UUID's text: a second tag of the name, or a second
/// value, leaves nothing.
pub proof fn law_identifying_tags_stand_alone(
    tags: Seq<Seq<Seq<char>>>,
    name: Seq<char>,
    id: Seq<u8>,
)
    ensures
        uuid_tag(tags, name) == Some(id) <==> carries_alone(tags, name, id),
{
    lemma_named_tags_are_those(tags, name);
    let named = named_tags(tags, name);
    if uuid_tag(tags, name) == Some(id) {
        let place = choose|place: int|
            {
                &&& 0 <= place < tags.len()
                &&& #[trigger] tags[place] == named[0]
                &&& forall|other: int|
                    0 <= other < tags.len() && other != place ==> !tag_named(
                        #[trigger] tags[other],
                        name,
                    )
            };
        assert(tag_named(tags[place], name));
        assert(sole_tag_at(tags, name, place));
    }
    if carries_alone(tags, name, id) {
        let place = choose|place: int| #[trigger]
            sole_tag_at(tags, name, place) && uuid_of_text(tags[place][1]) == Some(id);
        lemma_a_sole_tag_is_named_alone(tags, name, place);
    }
}

/// Where one tag is left of a name, it stands at one place, and no other tag has
/// the name.
proof fn lemma_named_tags_are_those(tags: Seq<Seq<Seq<char>>>, name: Seq<char>)
    ensures
        named_tags(tags, name).len() == 0 ==> forall|i: int|
            0 <= i < tags.len() ==> !tag_named(#[trigger] tags[i], name),
        named_tags(tags, name).len() == 1 ==> tag_named(named_tags(tags, name)[0], name) && exists|
            place: int,
        |
            {
                &&& 0 <= place < tags.len()
                &&& #[trigger] tags[place] == named_tags(tags, name)[0]
                &&& forall|other: int|
                    0 <= other < tags.len() && other != place ==> !tag_named(
                        #[trigger] tags[other],
                        name,
                    )
            },
    decreases tags.len(),
{
    reveal(Seq::filter);
    if tags.len() > 0 {
        let init = tags.drop_last();
        let last = tags.len() - 1;
        lemma_named_tags_are_those(init, name);
        let before = named_tags(init, name);
        let named = named_tags(tags, name);
        if tag_named(tags.last(), name) {
            assert(named =~= before.push(tags.last()));
            if named.len() == 1 {
                assert(named[0] == tags[last]);
                assert forall|other: int| 0 <= other < tags.len() && other != last implies !tag_named(
                    #[trigger] tags[other],
                    name,
                ) by {
                    assert(init[other] == tags[other]);
                }
            }
        } else {
            assert(named =~= before);
            if named.len() == 0 {
                assert forall|i: int| 0 <= i < tags.len() implies !tag_named(
                    #[trigger] tags[i],
                    name,
                ) by {
                    if i < last {
                        assert(init[i] == tags[i]);
                    }
                }
            }
            if named.len() == 1 {
                let place = choose|place: int|
                    {
                        &&& 0 <= place < init.len()
                        &&& #[trigger] init[place] == before[0]
                        &&& forall|other: int|
                            0 <= other < init.len() && other != place ==> !tag_named(
                                #[trigger] init[other],
                                name,
                            )
                    };
                assert(tags[place] == init[place]);
                assert forall|other: int|
                    0 <= other < tags.len() && other != place implies !tag_named(
                    #[trigger] tags[other],
                    name,
                ) by {
                    if other < last {
                        assert(init[other] == tags[other]);
                    }
                }
            }
        }
    }
}

/// The only tag of a name is what is left of the tags under that name.
proof fn lemma_a_sole_tag_is_named_alone(tags: Seq<Seq<Seq<char>>>, name: Seq<char>, place: int)
    requires
        sole_tag_at(tags, name, place),
    ensures
        named_tags(tags, name) == seq![tags[place]],
    decreases tags.len(),
{
    reveal(Seq::filter);
    let init = tags.drop_last();
    let last = tags.len() - 1;
    if place == last {
        assert forall|i: int| 0 <= i < init.len() implies !tag_named(#[trigger] init[i], name) by {
            assert(tags[i] == init[i]);
        }
        lemma_named_tags(init, name);
        assert(named_tags(init, name).len() == 0);
        assert(named_tags(tags, name) =~= seq![tags[place]]);
    } else {
        assert forall|other: int| 0 <= other < init.len() && other != place implies !((
        #[trigger] init[other]).len() > 0 && init[other][0] == name) by {
            assert(tags[other] == init[other]);
        }
        assert(init[place] == tags[place]);
        assert(sole_tag_at(init, name, place));
        lemma_a_sole_tag_is_named_alone(init, name, place);
        assert(!(tags[last].len() > 0 && tags[last][0] == name));
        assert(!tag_named(tags.last(), name));
        assert(named_tags(tags, name) =~= named_tags(init, name));
    }
}

/// A tag of this name has this first value.
pub open spec fn says(tags: Seq<Seq<Seq<char>>>, name: Seq<char>, value: Seq<char>) -> bool {
    exists|i: int|
        0 <= i < tags.len() && (#[trigger] tags[i]).len() > 1 && tags[i][0] == name && tags[i][1]
            == value
}

/// A tag of this name has this first value, up to the case of ASCII letters.
pub open spec fn says_ignoring_case(
    tags: Seq<Seq<Seq<char>>>,
    name: Seq<char>,
    value: Seq<char>,
) -> bool {
    exists|i: int|
        0 <= i < tags.len() && (#[trigger] tags[i]).len() > 1 && tags[i][0] == name
            && same_ignoring_case(tags[i][1], value)
}

/// Everything that the verification of a delivery needs is at hand.
pub open spec fn at_hand(authority: FetchedAuthority, relay_self: Option<Seq<char>>) -> bool {
    &&& relay_self matches Some(relay) && hex_32(relay) is Some
    &&& authority.definition is Some
    &&& authority.message is Some
    &&& authority.receipt is Some
}

/// The delivery is for this agent.
pub open spec fn for_agent(delivery: DeliverySnapshot, agent_pubkey: Seq<char>) -> bool {
    same_ignoring_case(delivery.target_pubkey@, agent_pubkey) && hex_32(delivery.target_pubkey@)
        is Some
}

/// The definition is a signed one for the delivery's workflow, under the
/// identifier that the delivery names, and in one channel.
pub open spec fn definition_stands(
    delivery: DeliverySnapshot,
    definition: EventView,
    channel: Seq<u8>,
) -> bool {
    &&& hex_32(delivery.definition_event_id@) == Some(definition.id)
    &&& authentic(definition)
    &&& definition.kind == 30620
    &&& carries_alone(definition.tags, "d"@, delivery.workflow_id@)
    &&& carries_alone(definition.tags, "h"@, channel)
}

/// The message is the relay's signed one under the identifier that the delivery
/// names, in this channel, to the delivery's target among others, and says which
/// definition, run and step it is of.
pub open spec fn message_stands(
    delivery: DeliverySnapshot,
    message: EventView,
    relay: Seq<u8>,
    channel: Seq<u8>,
) -> bool {
    &&& hex_32(delivery.message_event_id@) == Some(message.id)
    &&& authentic(message)
    &&& message.kind == 9
    &&& message.pubkey == relay
    &&& carries_alone(message.tags, "h"@, channel)
    &&& message_targets(message) matches Ok(targets) && targets.contains(
        hex_32(delivery.target_pubkey@)->0,
    )
    &&& says_ignoring_case(message.tags, "workflow-definition"@, delivery.definition_event_id@)
    &&& says(message.tags, "workflow-run"@, uuid_text(delivery.run_id@))
    &&& says(message.tags, "workflow-step"@, delivery.step_id@)
}

/// The first step of the delivery's identifier sends a message.
pub open spec fn step_sends(workflow: Option<WorkflowDef>, step_id: Seq<char>, place: int) -> bool {
    &&& workflow is Some
    &&& first_step_at(workflow->0.steps@, step_id, place)
    &&& workflow->0.steps@[place].action is SendMessage
}

/// A step sends its message to no other channel: it names none, or this one.
pub open spec fn sends_to(action: ActionDef, channel: Seq<u8>) -> bool {
    action matches ActionDef::SendMessage { channel: Some(named) } ==> is_blank(named@)
        || uuid_of_text(trimmed(named@)) == Some(channel)
}

/// The receipt is the relay's signed one, and asserts this delivery in every field.
pub open spec fn receipt_stands_for(
    delivery: DeliverySnapshot,
    receipt: EventView,
    asserted: Option<WorkflowDeliveryReceipt>,
    relay: Seq<u8>,
) -> bool {
    &&& authentic(receipt)
    &&& receipt.pubkey == relay
    &&& asserted is Some
    &&& asserted->0.delivery_id.id == delivery.id
    &&& asserted->0.binding.community_id == delivery.community_id
    &&& asserted->0.binding.workflow_id == delivery.workflow_id
    &&& asserted->0.binding.run_id == delivery.run_id
    &&& asserted->0.binding.step_id@ == delivery.step_id@
    &&& hex_32(delivery.target_pubkey@) == Some(asserted->0.binding.target_pubkey@)
    &&& hex_32(delivery.definition_event_id@) == Some(asserted->0.binding.definition_event_id@)
    &&& hex_32(delivery.message_event_id@) == Some(asserted->0.binding.message_event_id@)
    &&& asserted->0.binding.cause == delivery.cause
}

/// The artifacts stand for the delivery, in this channel, and so does the step at
/// this place.
pub open spec fn delivery_stands(
    delivery: DeliverySnapshot,
    authority: FetchedAuthority,
    agent_pubkey: Seq<char>,
    relay_self: Option<Seq<char>>,
    workflow: Option<WorkflowDef>,
    asserted: Option<WorkflowDeliveryReceipt>,
    channel: Seq<u8>,
    place: int,
) -> bool {
    &&& at_hand(authority, relay_self)
    &&& for_agent(delivery, agent_pubkey)
    &&& !is_blank(delivery.step_id@)
    &&& definition_stands(delivery, authority.definition->0@, channel)
    &&& message_stands(
        delivery,
        authority.message->0@,
        hex_32(relay_self->0)->0,
        channel,
    )
    &&& step_sends(workflow, delivery.step_id@, place)
    &&& sends_to(workflow->0.steps@[place].action, channel)
    &&& receipt_stands_for(
        delivery,
        authority.receipt->0@,
        asserted,
        hex_32(relay_self->0)->0,
    )
}

/// Verification is complete: a delivery whose artifacts stand for it, with a step
/// at whatever place of its workflow that sends a message to no other channel,
/// verifies.
pub proof fn law_deliveries_that_stand_verify(
    delivery: DeliverySnapshot,
    authority: FetchedAuthority,
    agent_pubkey: Seq<char>,
    relay_self: Option<Seq<char>>,
    workflow: Option<WorkflowDef>,
    asserted: Option<WorkflowDeliveryReceipt>,
    channel: Seq<u8>,
    place: int,
)
    requires
        delivery_stands(
            delivery,
            authority,
            agent_pubkey,
            relay_self,
            workflow,
            asserted,
            channel,
            place,
        ),
    ensures
        delivery_verdict(delivery, authority, agent_pubkey, relay_self, workflow, asserted) is Ok,
{
    let definition = authority.definition->0@;
    let message = authority.message->0@;
    law_identifying_tags_stand_alone(definition.tags, "d"@, delivery.workflow_id@);
    law_identifying_tags_stand_alone(definition.tags, "h"@, channel);
    law_identifying_tags_stand_alone(message.tags, "h"@, channel);
    lemma_says_is_declared(message.tags, "workflow-definition"@, delivery.definition_event_id@);
    lemma_says_is_declared(message.tags, "workflow-run"@, uuid_text(delivery.run_id@));
    lemma_says_is_declared(message.tags, "workflow-step"@, delivery.step_id@);
    law_every_step_is_found(workflow->0.steps@, delivery.step_id@);
    assert(definition_agrees(delivery, definition));
    assert(message_agrees(delivery, message, hex_32(relay_self->0)->0, channel));
    if let ActionDef::SendMessage { channel: Some(named) } = workflow->0.steps@[place].action {
        lemma_trimmed_empty_iff_blank(named@);
    }
    assert(step_verdict(workflow, delivery.step_id@, channel) is Ok);
}

/// What is said is declared, and the other way round.
proof fn lemma_says_is_declared(tags: Seq<Seq<Seq<char>>>, name: Seq<char>, value: Seq<char>)
    ensures
        says(tags, name, value) <==> declares(tags, name, value),
        says_ignoring_case(tags, name, value) <==> declares_ignoring_case(tags, name, value),
{
    if declares(tags, name, value) {
        let i = choose|i: int|
            0 <= i < tags.len() && tag_named(#[trigger] tags[i], name) && tags[i].len() > 1
                && tags[i][1] == value;
        assert(tags[i].len() > 1);
    }
    if says(tags, name, value) {
        let i = choose|i: int|
            0 <= i < tags.len() && (#[trigger] tags[i]).len() > 1 && tags[i][0] == name && tags[i][1]
                == value;
        assert(tag_named(tags[i], name));
    }
    if declares_ignoring_case(tags, name, value) {
        let i = choose|i: int|
            0 <= i < tags.len() && tag_named(#[trigger] tags[i], name) && tags[i].len() > 1
                && same_ignoring_case(tags[i][1], value);
        assert(tags[i].len() > 1);
    }
    if says_ignoring_case(tags, name, value) {
        let i = choose|i: int|
            0 <= i < tags.len() && (#[trigger] tags[i]).len() > 1 && tags[i][0] == name
                && same_ignoring_case(tags[i][1], value);
        assert(tag_named(tags[i], name));
    }
}

/// Some channel and step make the artifacts stand for the delivery.
pub open spec fn stands_somehow(
    delivery: DeliverySnapshot,
    authority: FetchedAuthority,
    agent_pubkey: Seq<char>,
    relay_self: Option<Seq<char>>,
    workflow: Option<WorkflowDef>,
    asserted: Option<WorkflowDeliveryReceipt>,
) -> bool {
    exists|channel: Seq<u8>, place: int| #[trigger]
        delivery_stands(
            delivery,
            authority,
            agent_pubkey,
            relay_self,
            workflow,
            asserted,
            channel,
            place,
        )
}

/// Some channel makes the definition stand for the delivery.
pub open spec fn definition_stands_somewhere(
    delivery: DeliverySnapshot,
    definition: EventView,
) -> bool {
    exists|channel: Seq<u8>| #[trigger] definition_stands(delivery, definition, channel)
}

/// Definition and message stand for the delivery in one channel.
pub open spec fn both_stand(
    delivery: DeliverySnapshot,
    authority: FetchedAuthority,
    relay: Seq<u8>,
    channel: Seq<u8>,
) -> bool {
    &&& definition_stands(delivery, authority.definition->0@, channel)
    &&& message_stands(delivery, authority.message->0@, relay, channel)
}

/// Definition and message stand for the delivery in some channel.
pub open spec fn both_stand_somewhere(
    delivery: DeliverySnapshot,
    authority: FetchedAuthority,
    relay: Seq<u8>,
) -> bool {
    exists|channel: Seq<u8>| #[trigger] both_stand(delivery, authority, relay, channel)
}

/// Some step makes the delivery's step one that sends a message.
pub open spec fn step_sends_somewhere(workflow: Option<WorkflowDef>, step_id: Seq<char>) -> bool {
    exists|place: int| #[trigger] step_sends(workflow, step_id, place)
}

/// The texts of the delivery can be read.
pub open spec fn delivery_readable(delivery: DeliverySnapshot) -> bool {
    &&& hex_32(delivery.definition_event_id@) is Some
    &&& hex_32(delivery.message_event_id@) is Some
    &&& !is_blank(delivery.step_id@)
}

/// Verification is sound, and a failure says what failed: what verifies stands;
/// what is missing is named, the relay's identity before the definition, the
/// message and the receipt; and a mismatch is of the first of target, definition,
/// message, step, channel and receipt that does not stand.
pub proof fn law_verdicts_name_what_failed(
    delivery: DeliverySnapshot,
    authority: FetchedAuthority,
    agent_pubkey: Seq<char>,
    relay_self: Option<Seq<char>>,
    workflow: Option<WorkflowDef>,
    asserted: Option<WorkflowDeliveryReceipt>,
)
    ensures
        ({
            let relay_readable = relay_self matches Some(relay) && hex_32(relay) is Some;
            let relay = hex_32(relay_self->0)->0;
            let ready = at_hand(authority, relay_self) && for_agent(delivery, agent_pubkey);
            let readable = delivery_readable(delivery);
            let defined = definition_stands_somewhere(delivery, authority.definition->0@);
            let messaged = both_stand_somewhere(delivery, authority, relay);
            let stepped = step_sends_somewhere(workflow, delivery.step_id@);
            match delivery_verdict(
                delivery,
                authority,
                agent_pubkey,
                relay_self,
                workflow,
                asserted,
            ) {
                Ok(_) => stands_somehow(
                    delivery,
                    authority,
                    agent_pubkey,
                    relay_self,
                    workflow,
                    asserted,
                ),
                Err(VerifyError::Unavailable(UnavailableKind::RelayIdentity)) => relay_self is None,
                Err(VerifyError::Unavailable(UnavailableKind::Definition)) => relay_readable
                    && authority.definition is None,
                Err(VerifyError::Unavailable(UnavailableKind::Message)) => relay_readable
                    && authority.definition is Some && authority.message is None,
                Err(VerifyError::Unavailable(UnavailableKind::Receipt)) => relay_readable
                    && authority.definition is Some && authority.message is Some
                    && authority.receipt is None,
                Err(VerifyError::Mismatch(MismatchKind::Target)) => at_hand(authority, relay_self)
                    && !for_agent(delivery, agent_pubkey),
                Err(VerifyError::Mismatch(MismatchKind::Definition)) => ready && (hex_32(
                    delivery.definition_event_id@,
                ) is None || (readable && !defined)),
                Err(VerifyError::Mismatch(MismatchKind::Message)) => ready && hex_32(
                    delivery.definition_event_id@,
                ) is Some && (hex_32(delivery.message_event_id@) is None || (readable && defined
                    && !messaged)),
                Err(VerifyError::Mismatch(MismatchKind::Step)) => ready && readable && messaged
                    && !stepped,
                Err(VerifyError::Mismatch(MismatchKind::Channel)) => ready && readable && messaged
                    && stepped && forall|channel: Seq<u8>, place: int|
                    both_stand(delivery, authority, relay, channel) && step_sends(
                        workflow,
                        delivery.step_id@,
                        place,
                    ) ==> !(#[trigger] sends_to(workflow->0.steps@[place].action, channel)),
                Err(VerifyError::Mismatch(MismatchKind::Receipt)) => {
                    ||| relay_self is Some && !relay_readable
                    ||| ready && hex_32(delivery.definition_event_id@) is Some && hex_32(
                        delivery.message_event_id@,
                    ) is Some && is_blank(delivery.step_id@)
                    ||| ready && readable && messaged && stepped && !receipt_stands_for(
                        delivery,
                        authority.receipt->0@,
                        asserted,
                        relay,
                    )
                },
            }
        }),
{
    let definition = authority.definition->0@;
    let message = authority.message->0@;
    let relay = hex_32(relay_self->0)->0;
    assert forall|tags: Seq<Seq<Seq<char>>>, name: Seq<char>, id: Seq<u8>| #[trigger]
        carries_alone(tags, name, id) <==> uuid_tag(tags, name) == Some(id) by {
        law_identifying_tags_stand_alone(tags, name, id);
    }
    lemma_says_is_declared(message.tags, "workflow-definition"@, delivery.definition_event_id@);
    lemma_says_is_declared(message.tags, "workflow-run"@, uuid_text(delivery.run_id@));
    lemma_says_is_declared(message.tags, "workflow-step"@, delivery.step_id@);
    let named = uuid_tag(definition.tags, "h"@);
    assert forall|channel: Seq<u8>| #[trigger]
        definition_stands(delivery, definition, channel) <==> definition_agrees(
        delivery,
        definition,
    ) && named == Some(channel) by {
        law_identifying_tags_stand_alone(definition.tags, "d"@, delivery.workflow_id@);
        law_identifying_tags_stand_alone(definition.tags, "h"@, channel);
    }
    assert forall|channel: Seq<u8>| #[trigger]
        message_stands(delivery, message, relay, channel) <==> message_agrees(
        delivery,
        message,
        relay,
        channel,
    ) by {
        law_identifying_tags_stand_alone(message.tags, "h"@, channel);
    }
    if let Ok(channel) = artifact_verdict(delivery, authority, agent_pubkey, relay_self) {
        assert(definition_stands(delivery, definition, channel));
        assert(message_stands(delivery, message, relay, channel));
        assert(both_stand(delivery, authority, relay, channel));
        if let Some(w) = workflow {
            law_every_step_is_found(w.steps@, delivery.step_id@);
            if let Some(step) = step_named(w.steps@, delivery.step_id@) {
                let place = choose|place: int| #[trigger]
                    first_step_at(w.steps@, delivery.step_id@, place);
                assert(w.steps@[place] == step);
                if let ActionDef::SendMessage { channel: step_channel } = step.action {
                    assert(step_sends(workflow, delivery.step_id@, place));
                    if let Some(text) = step_channel {
                        lemma_trimmed_empty_iff_blank(text@);
                    }
                    assert(step_verdict(workflow, delivery.step_id@, channel) is Ok <==> sends_to(
                        step.action,
                        channel,
                    ));
                    if step_verdict(workflow, delivery.step_id@, channel) is Ok && receipt_agrees(
                        delivery,
                        authority.receipt->0@,
                        asserted,
                        relay,
                    ) {
                        assert(delivery_stands(
                            delivery,
                            authority,
                            agent_pubkey,
                            relay_self,
                            workflow,
                            asserted,
                            channel,
                            place,
                        ));
                    }
                } else {
                    assert forall|p: int| !#[trigger] step_sends(
                        workflow,
                        delivery.step_id@,
                        p,
                    ) by {
                        if first_step_at(w.steps@, delivery.step_id@, p) {
                            assert(w.steps@[p] == step);
                        }
                    }
                }
            } else {
                assert forall|p: int| !#[trigger] step_sends(workflow, delivery.step_id@, p) by {
                    if first_step_at(w.steps@, delivery.step_id@, p) {
                        assert(w.steps@[p].id@ == delivery.step_id@);
                    }
                }
            }
        }
    } else if at_hand(authority, relay_self) && for_agent(delivery, agent_pubkey)
        && delivery_readable(delivery) {
        if definition_agrees(delivery, definition) && named is Some {
            assert(definition_stands(delivery, definition, named->0));
            assert forall|channel: Seq<u8>| !#[trigger] both_stand(
                delivery,
                authority,
                relay,
                channel,
            ) by {
                if definition_stands(delivery, definition, channel) {
                    assert(channel == named->0);
                }
            }
        }
    }
}

/// A wake is trusted exactly where it is authentic, signed with the relay's key,
/// an empty event of the wake kind with two tags and no more, of which the one
/// names this agent and the other the delivery.
pub proof fn law_wakes_are_trusted_exactly(
    event: EventView,
    agent_pubkey: Seq<char>,
    relay_self: Option<Seq<char>>,
    delivery: Seq<u8>,
)
    ensures
        trusted_wake(event, agent_pubkey, relay_self) == Some(delivery) <==> {
            &&& relay_self matches Some(relay) && same_ignoring_case(hex_encode(event.pubkey), relay)
            &&& authentic(event)
            &&& event.kind == 24620
            &&& event.content.len() == 0
            &&& event.tags.len() == 2
            &&& {
                ||| names_agent(event.tags[0], agent_pubkey) && names_delivery(
                    event.tags[1],
                    delivery,
                )
                ||| names_delivery(event.tags[0], delivery) && names_agent(
                    event.tags[1],
                    agent_pubkey,
                )
            }
        },
{
    if let Ok((target, named)) = wake_of_event(event) {
        law_wake_is_identifier_only(event, target, named);
    }
    if event.tags.len() == 2 {
        reveal_strlit("p");
        reveal_strlit("delivery");
        assert("p"@.len() != "delivery"@.len());
        if let Some(target) = hex_32(event.tags[0][1]) {
            law_wake_is_identifier_only(event, target, delivery);
        }
        if let Some(target) = hex_32(event.tags[1][1]) {
            law_wake_is_identifier_only(event, target, delivery);
        }
    }
}

/// A tag that names the agent of this key, whose digits may be of either case.
pub open spec fn names_agent(tag: Seq<Seq<char>>, agent_pubkey: Seq<char>) -> bool {
    &&& tag.len() == 2
    &&& tag[0] == "p"@
    &&& hex_32(tag[1]) matches Some(target) && same_ignoring_case(hex_encode(target), agent_pubkey)
}

/// A message is a candidate exactly where the relay's key is its author's, it is a
/// stream message, and some tag of it is named for a workflow definition, whatever
/// the tag's values and whatever other tags there are.
pub proof fn law_candidates_are_the_relays_workflow_messages(
    event: EventView,
    relay_self: Option<Seq<char>>,
)
    ensures
        delivery_candidate(event, relay_self) <==> {
            &&& relay_self matches Some(relay) && same_ignoring_case(hex_encode(event.pubkey), relay)
            &&& event.kind == 9
            &&& exists|i: int|
                0 <= i < event.tags.len() && (#[trigger] event.tags[i]).len() > 0 && event.tags[i][0]
                    == "workflow-definition"@
        },
{
    lemma_named_tags(event.tags, "workflow-definition"@);
    if delivery_candidate(event, relay_self) {
        let i = choose|i: int|
            0 <= i < event.tags.len() && tag_named(
                #[trigger] event.tags[i],
                "workflow-definition"@,
            );
        assert(event.tags[i].len() > 0);
    }
    if exists|i: int|
        0 <= i < event.tags.len() && (#[trigger] event.tags[i]).len() > 0 && event.tags[i][0]
            == "workflow-definition"@ {
        let i = choose|i: int|
            0 <= i < event.tags.len() && (#[trigger] event.tags[i]).len() > 0 && event.tags[i][0]
                == "workflow-definition"@;
        assert(tag_named(event.tags[i], "workflow-definition"@));
    }
}

/// The durable owner speaks for a message whoever wrote it and whatever its shape.
/// Without one, the author speaks for a plain message, and nobody for one of
/// workflow shape: no author can pass for an owner.
pub proof fn law_authors_never_stand_in_for_owners(
    author: Seq<char>,
    other_author: Seq<char>,
    owner: Seq<char>,
    workflow_shape: bool,
)
    ensures
        delivery_principal(author, Some(owner), workflow_shape) == Some(owner),
        delivery_principal(author, None, true) is None,
        delivery_principal(author, None, false) == Some(author),
        delivery_principal(author, Some(owner), workflow_shape) == delivery_principal(
            other_author,
            Some(owner),
            !workflow_shape,
        ),
{
}

} // verus!
