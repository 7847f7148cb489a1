//! The delivery protocol: bindings, recipients, wakes.

use buzz_delivery::event::{Event, EventId, EventTemplate, PublicKey, Tag};
use buzz_delivery::ids::{CommunityId, Uuid};
use buzz_delivery::kind::{KIND_STREAM_MESSAGE, KIND_WORKFLOW_AGENT_WAKE};
use buzz_delivery::workflow_delivery::{
    contains_key, message_v1_targets, WorkflowDeliveryBinding, WorkflowDeliveryCause,
    WorkflowDeliveryError, WorkflowDeliveryId, WorkflowDeliveryWake, WORKFLOW_DELIVERY_TARGET,
    WORKFLOW_DELIVERY_TARGET_MARKER, WORKFLOW_DELIVERY_WAKE_TAG,
};
use nostr::{EventBuilder, Keys, Kind};

fn fresh_uuid() -> Uuid {
    Uuid { bytes: uuid::Uuid::new_v4().into_bytes() }
}

fn key_of(keys: &Keys) -> PublicKey {
    PublicKey { bytes: keys.public_key().to_bytes() }
}

fn tag(values: &[&str]) -> Tag {
    Tag::parse(values.iter().map(|value| (*value).to_owned()).collect()).expect("tag")
}

fn from_nostr(event: &nostr::Event) -> Event {
    Event {
        id: EventId { bytes: event.id.to_bytes() },
        pubkey: PublicKey { bytes: event.pubkey.to_bytes() },
        created_at: event.created_at.as_secs(),
        kind: event.kind.as_u16(),
        tags: event.tags.iter().map(|tag| Tag { values: tag.as_slice().to_vec() }).collect(),
        content: event.content.clone(),
        sig: event.sig.serialize(),
    }
}

fn signed(kind: u16, content: &str, tags: &[Tag], keys: &Keys) -> Event {
    let tags: Vec<nostr::Tag> =
        tags.iter().map(|tag| nostr::Tag::parse(tag.values.clone()).expect("tag")).collect();
    let event = EventBuilder::new(Kind::Custom(kind), content)
        .tags(tags)
        .sign_with_keys(keys)
        .expect("sign");
    from_nostr(&event)
}

fn sign_template(template: &EventTemplate, keys: &Keys) -> Event {
    signed(template.kind, &template.content, &template.tags, keys)
}

fn event_id(digits: &str) -> EventId {
    EventId::from_hex(&digits.repeat(32)).expect("event id")
}

fn binding() -> WorkflowDeliveryBinding {
    let keys = Keys::generate();
    WorkflowDeliveryBinding::new(
        CommunityId::from_uuid(fresh_uuid()),
        fresh_uuid(),
        fresh_uuid(),
        "notify".to_owned(),
        key_of(&keys),
        event_id("11"),
        event_id("22"),
        WorkflowDeliveryCause::Event(event_id("33")),
    )
    .expect("binding")
}

#[test]
fn binding_owns_all_identity_fields_and_rejects_blank_step() {
    let binding = binding();
    assert_eq!(binding.step_id, "notify");
    assert!(matches!(binding.cause, WorkflowDeliveryCause::Event(_)));
    assert_eq!(
        WorkflowDeliveryBinding::new(
            binding.community_id,
            binding.workflow_id,
            binding.run_id,
            " \t".to_owned(),
            binding.target_pubkey,
            binding.definition_event_id,
            binding.message_event_id,
            binding.cause,
        ),
        Err(WorkflowDeliveryError::EmptyStepId)
    );
}

#[test]
fn message_v1_tags_are_canonical_and_target_specific() {
    let binding = binding();
    let tag = binding.message_v1_target_tag().expect("tag");
    assert_eq!(
        tag.values,
        ["p", &binding.target_pubkey.to_hex(), "", WORKFLOW_DELIVERY_TARGET_MARKER]
    );
}

#[test]
fn cause_variants_and_each_identity_field_affect_equality() {
    let binding = binding();
    let event = WorkflowDeliveryCause::Event(event_id("44"));
    let schedule = WorkflowDeliveryCause::Schedule { scheduled_for_unix_seconds: 1 };
    let later_schedule = WorkflowDeliveryCause::Schedule { scheduled_for_unix_seconds: 2 };
    let webhook = WorkflowDeliveryCause::Webhook { invocation_id: fresh_uuid() };
    let other_webhook = WorkflowDeliveryCause::Webhook { invocation_id: fresh_uuid() };
    assert_ne!(binding.cause, event);
    assert_ne!(schedule, later_schedule);
    assert_ne!(webhook, other_webhook);
}

#[test]
fn message_v1_parser_and_binding_validation_fail_closed() {
    let binding = binding();
    let event = signed(
        9,
        "visible",
        &[binding.message_v1_target_tag().expect("tag")],
        &Keys::generate(),
    );
    let matching = WorkflowDeliveryBinding::new(
        binding.community_id,
        binding.workflow_id,
        binding.run_id,
        binding.step_id.clone(),
        binding.target_pubkey,
        binding.definition_event_id,
        event.id,
        binding.cause,
    )
    .expect("binding");
    assert_eq!(message_v1_targets(&event).expect("targets"), vec![binding.target_pubkey]);
    assert!(matching.validate_message_event(&event).is_ok());

    let malformed = signed(
        9,
        "visible",
        &[tag(&[
            "p",
            &binding.target_pubkey.to_hex(),
            "",
            WORKFLOW_DELIVERY_TARGET_MARKER,
            "extra",
        ])],
        &Keys::generate(),
    );
    assert_eq!(
        message_v1_targets(&malformed),
        Err(WorkflowDeliveryError::InvalidMessageV1Tag)
    );
}

#[test]
fn wake_round_trips_and_contains_no_authority_beyond_identifier_and_target() {
    let target = key_of(&Keys::generate());
    let wake = WorkflowDeliveryWake::new(target, WorkflowDeliveryId::from_uuid(fresh_uuid()));
    let event = sign_template(&wake.event_builder().expect("template"), &Keys::generate());
    assert_eq!(event.kind, KIND_WORKFLOW_AGENT_WAKE);
    assert!(event.content.is_empty());
    assert_eq!(event.tags.len(), 2);
    assert_eq!(WorkflowDeliveryWake::parse(&event).expect("wake"), wake);
}

#[test]
fn wake_rejects_extra_or_duplicate_or_noncanonical_fields() {
    let target = key_of(&Keys::generate()).to_hex();
    let id = fresh_uuid().to_string();
    let event = signed(
        KIND_WORKFLOW_AGENT_WAKE,
        "x",
        &[tag(&["p", &target]), tag(&["delivery", &id])],
        &Keys::generate(),
    );
    assert_eq!(WorkflowDeliveryWake::parse(&event), Err(WorkflowDeliveryError::WakeHasContent));

    let event = signed(
        KIND_WORKFLOW_AGENT_WAKE,
        "",
        &[tag(&["p", &target]), tag(&["delivery", &id]), tag(&["e", "x"])],
        &Keys::generate(),
    );
    assert_eq!(
        WorkflowDeliveryWake::parse(&event),
        Err(WorkflowDeliveryError::UnexpectedWakeTag)
    );
}

#[test]
fn protocol_names_and_kinds() {
    assert_eq!(WORKFLOW_DELIVERY_TARGET, "message-v1");
    assert_eq!(WORKFLOW_DELIVERY_TARGET_MARKER, "message-v1");
    assert_eq!(WORKFLOW_DELIVERY_WAKE_TAG, "delivery");
    assert_eq!(KIND_STREAM_MESSAGE, 9);
    assert_eq!(KIND_WORKFLOW_AGENT_WAKE, 24620);
}

#[test]
fn wake_of_another_kind_is_refused() {
    let event = signed(9, "", &[tag(&["e", "x"])], &Keys::generate());
    assert_eq!(WorkflowDeliveryWake::parse(&event), Err(WorkflowDeliveryError::WrongWakeKind(9)));
}

#[test]
fn wake_tags_are_needed_once_each_in_either_order() {
    let keys = Keys::generate();
    let target = key_of(&Keys::generate());
    let id = fresh_uuid();
    let p = tag(&["p", &target.to_hex()]);
    let delivery = tag(&["delivery", &id.to_string()]);

    let event = signed(KIND_WORKFLOW_AGENT_WAKE, "", &[delivery.clone(), p.clone()], &keys);
    let wake = WorkflowDeliveryWake::parse(&event).expect("either order");
    assert_eq!(wake.target_pubkey, target);
    assert_eq!(wake.delivery_id.as_uuid(), id);

    for (tags, expected) in [
        (vec![delivery.clone()], WorkflowDeliveryError::MissingWakeTag("p")),
        (vec![p.clone()], WorkflowDeliveryError::MissingWakeTag("delivery")),
        (vec![], WorkflowDeliveryError::MissingWakeTag("p")),
        (vec![p.clone(), p.clone()], WorkflowDeliveryError::DuplicateWakeTag("p")),
        (
            vec![delivery.clone(), delivery.clone()],
            WorkflowDeliveryError::DuplicateWakeTag("delivery"),
        ),
        (vec![tag(&["p", "zz"])], WorkflowDeliveryError::InvalidPublicKey),
        (vec![tag(&["delivery", "not-a-uuid"])], WorkflowDeliveryError::InvalidDeliveryId),
        (vec![tag(&["p", &target.to_hex(), ""])], WorkflowDeliveryError::UnexpectedWakeTag),
        (vec![tag(&["p"])], WorkflowDeliveryError::UnexpectedWakeTag),
    ] {
        let mut event = signed(KIND_WORKFLOW_AGENT_WAKE, "", &[p.clone()], &keys);
        event.tags = tags;
        assert_eq!(WorkflowDeliveryWake::parse(&event), Err(expected));
    }
}

#[test]
fn recipients_are_those_of_the_marked_tags_in_their_order() {
    let first = key_of(&Keys::generate());
    let second = key_of(&Keys::generate());
    let mention = key_of(&Keys::generate());
    let event = signed(
        9,
        "visible",
        &[
            tag(&["h", "channel"]),
            tag(&["p", &first.to_hex().to_uppercase(), "", "message-v1"]),
            tag(&["p", &mention.to_hex()]),
            tag(&["p", &mention.to_hex(), "", "other-marker"]),
            tag(&["e", &mention.to_hex(), "", "message-v1"]),
            tag(&["p", &second.to_hex(), "relay", "message-v1"]),
        ],
        &Keys::generate(),
    );
    let targets = message_v1_targets(&event).expect("targets");
    assert_eq!(targets, vec![first, second]);
    assert!(contains_key(&targets, &second));
    assert!(!contains_key(&targets, &mention));
}

#[test]
fn recipients_fail_closed() {
    let target = key_of(&Keys::generate()).to_hex();
    let marked = tag(&["p", &target, "", "message-v1"]);
    let twice = signed(9, "visible", &[marked.clone(), marked.clone()], &Keys::generate());
    assert_eq!(
        message_v1_targets(&twice),
        Err(WorkflowDeliveryError::DuplicateMessageV1Target)
    );
    let malformed_key =
        signed(9, "visible", &[tag(&["p", "zz", "", "message-v1"])], &Keys::generate());
    assert_eq!(message_v1_targets(&malformed_key), Err(WorkflowDeliveryError::InvalidPublicKey));
    let note = signed(1, "note", &[marked], &Keys::generate());
    assert_eq!(message_v1_targets(&note), Err(WorkflowDeliveryError::WrongMessageKind(1)));
}

#[test]
fn message_of_a_binding_is_validated_by_kind_identity_and_recipient() {
    let binding = binding();
    let marked = binding.message_v1_target_tag().expect("tag");
    let message = signed(9, "visible", &[marked.clone()], &Keys::generate());
    assert_eq!(
        binding.validate_message_event(&message),
        Err(WorkflowDeliveryError::MessageEventIdMismatch)
    );
    let note = signed(1, "visible", &[marked], &Keys::generate());
    assert_eq!(
        binding.validate_message_event(&note),
        Err(WorkflowDeliveryError::WrongMessageKind(1))
    );
    let mut unaddressed = signed(9, "visible", &[tag(&["h", "channel"])], &Keys::generate());
    unaddressed.id = binding.message_event_id;
    assert_eq!(
        binding.validate_message_event(&unaddressed),
        Err(WorkflowDeliveryError::MissingMessageV1Target)
    );
}

#[test]
fn bindings_are_equal_only_in_every_field() {
    let a = binding();
    let same = a.clone();
    assert_eq!(a, same);
    let mut others = vec![a.clone(), a.clone(), a.clone(), a.clone(), a.clone(), a.clone(), a.clone(), a.clone()];
    others[0].community_id = CommunityId::from_uuid(fresh_uuid());
    others[1].workflow_id = fresh_uuid();
    others[2].run_id = fresh_uuid();
    others[3].step_id = "other".to_owned();
    others[4].target_pubkey = key_of(&Keys::generate());
    others[5].definition_event_id = event_id("55");
    others[6].message_event_id = event_id("55");
    others[7].cause = WorkflowDeliveryCause::Schedule { scheduled_for_unix_seconds: 0 };
    for other in others {
        assert_ne!(a, other);
    }
}

#[test]
fn failures_of_the_protocol_have_messages() {
    for (error, expected) in [
        (
            WorkflowDeliveryError::EmptyStepId,
            "workflow delivery step_id must not be empty",
        ),
        (
            WorkflowDeliveryError::WrongMessageKind(65535),
            "workflow delivery message must be kind 9, got 65535",
        ),
        (
            WorkflowDeliveryError::MessageEventIdMismatch,
            "workflow delivery message event ID does not match binding",
        ),
        (
            WorkflowDeliveryError::MissingMessageV1Target,
            "workflow delivery message has no matching message-v1 target",
        ),
        (
            WorkflowDeliveryError::InvalidMessageV1Tag,
            "workflow delivery message has malformed message-v1 target tag",
        ),
        (
            WorkflowDeliveryError::DuplicateMessageV1Target,
            "workflow delivery message has duplicate message-v1 target",
        ),
        (
            WorkflowDeliveryError::WrongWakeKind(0),
            "workflow delivery wake must be kind 24620, got 0",
        ),
        (
            WorkflowDeliveryError::WakeHasContent,
            "workflow delivery wake content must be empty",
        ),
        (
            WorkflowDeliveryError::MissingWakeTag("p"),
            "workflow delivery wake is missing p tag",
        ),
        (
            WorkflowDeliveryError::DuplicateWakeTag("delivery"),
            "workflow delivery wake has duplicate delivery tag",
        ),
        (
            WorkflowDeliveryError::UnexpectedWakeTag,
            "workflow delivery wake has an unexpected tag",
        ),
        (
            WorkflowDeliveryError::InvalidDeliveryId,
            "workflow delivery wake delivery tag must contain a UUID",
        ),
        (
            WorkflowDeliveryError::InvalidPublicKey,
            "workflow delivery public key is invalid",
        ),
        (
            WorkflowDeliveryError::InvalidTag("Empty tag".to_owned()),
            "workflow delivery tag is invalid: Empty tag",
        ),
    ] {
        assert_eq!(error.to_string(), expected);
    }
}

#[test]
fn delivery_id_is_written_as_its_uuid() {
    let id = Uuid::parse_str("6F9619FF-8B86-D011-B42D-00CF4FC964FF").expect("uuid");
    let delivery = WorkflowDeliveryId::from_uuid(id);
    assert_eq!(delivery.to_string(), "6f9619ff-8b86-d011-b42d-00cf4fc964ff");
    assert_eq!(delivery.as_uuid(), id);
}
