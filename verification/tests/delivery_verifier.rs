//! Verification of delivered artifacts.

use buzz_delivery::delivery_verifier::{
    is_workflow_delivery_candidate, trusted_live_workflow_wake_delivery_id,
    verify_delivery_artifacts, verify_workflow_delivery, wake_references_delivery,
    workflow_delivery_principal, ActionDef, DeliverySnapshot, FetchedAuthority, MismatchKind,
    StepDef, UnavailableKind, VerifyError, WorkflowDef,
};
use buzz_delivery::event::{Event, EventId, PublicKey, Tag};
use buzz_delivery::ids::{CommunityId, Uuid};
use buzz_delivery::kind::{KIND_STREAM_MESSAGE, KIND_WORKFLOW_DEF};
use buzz_delivery::workflow_delivery::{
    WorkflowDeliveryBinding, WorkflowDeliveryCause, WorkflowDeliveryId, WorkflowDeliveryReceipt,
    WorkflowDeliveryWake, WORKFLOW_DELIVERY_TARGET_MARKER,
};
use nostr::{EventBuilder, Keys, Kind};

type DeliveryMutation = Box<dyn Fn(&mut DeliverySnapshot)>;

/// The kind of the receipts that these tests sign.
const KIND_RECEIPT: u16 = 24621;

struct Fixture {
    relay: Keys,
    owner: Keys,
    agent: Keys,
    delivery: DeliverySnapshot,
    definition: Event,
    message: Event,
    receipt: Event,
    receipt_wire: String,
    workflow: WorkflowDef,
}

fn fresh_uuid() -> Uuid {
    Uuid { bytes: uuid::Uuid::new_v4().into_bytes() }
}

fn key_of(keys: &Keys) -> PublicKey {
    PublicKey { bytes: keys.public_key().to_bytes() }
}

fn signed_nostr(kind: u16, content: &str, tags: &[&[&str]], keys: &Keys) -> nostr::Event {
    let tags: Vec<nostr::Tag> =
        tags.iter().map(|tag| nostr::Tag::parse(tag.iter().copied()).expect("tag")).collect();
    EventBuilder::new(Kind::Custom(kind), content)
        .tags(tags)
        .sign_with_keys(keys)
        .expect("sign")
}

fn from_nostr(event: &nostr::Event) -> Event {
    Event {
        id: EventId { bytes: event.id.to_bytes() },
        pubkey: PublicKey { bytes: event.pubkey.to_bytes() },
        created_at: event.created_at.as_secs(),
        kind: event.kind.as_u16(),
        tags: event.tags.iter().map(|tag| Tag { values: tag.as_slice().to_vec() }).collect(),
        content: event.content.clone(),
        sig: event.sig.serialize(),
    }
}

fn signed(kind: u16, content: &str, tags: &[&[&str]], keys: &Keys) -> Event {
    from_nostr(&signed_nostr(kind, content, tags, keys))
}

/// The content of a receipt in these tests: the delivery and its binding.
fn receipt_text(receipt: &WorkflowDeliveryReceipt) -> String {
    let binding = &receipt.binding;
    let cause = match binding.cause {
        WorkflowDeliveryCause::Event(event) => event.to_hex(),
        other => panic!("{other:?}"),
    };
    format!(
        "{} {} {} {} {} {} {} {} {cause}",
        receipt.delivery_id.to_string(),
        binding.community_id.as_uuid().to_string(),
        binding.workflow_id.to_string(),
        binding.run_id.to_string(),
        binding.step_id,
        binding.target_pubkey.to_hex(),
        binding.definition_event_id.to_hex(),
        binding.message_event_id.to_hex()
    )
}

/// What a receipt of these tests asserts, as far as it is one.
fn assertion(receipt: &Event) -> Option<WorkflowDeliveryReceipt> {
    let words: Vec<&str> = receipt.content.split(' ').collect();
    if words.len() != 9 {
        return None;
    }
    let binding = WorkflowDeliveryBinding::new(
        CommunityId::from_uuid(Uuid::parse_str(words[1])?),
        Uuid::parse_str(words[2])?,
        Uuid::parse_str(words[3])?,
        words[4].to_owned(),
        PublicKey::from_hex(words[5])?,
        EventId::from_hex(words[6])?,
        EventId::from_hex(words[7])?,
        WorkflowDeliveryCause::Event(EventId::from_hex(words[8])?),
    )
    .ok()?;
    let delivery_id = WorkflowDeliveryId::from_uuid(Uuid::parse_str(words[0])?);
    Some(WorkflowDeliveryReceipt { delivery_id, binding })
}

fn fixture() -> Fixture {
    let relay = Keys::generate();
    let owner = Keys::generate();
    let agent = Keys::generate();
    let community = CommunityId::from_uuid(fresh_uuid());
    let workflow_id = fresh_uuid();
    let run_id = fresh_uuid();
    let delivery_id = fresh_uuid();
    let channel = fresh_uuid();
    let cause_event = signed(1, "cause", &[], &owner);
    let definition = signed(
        KIND_WORKFLOW_DEF,
        &format!(
            "name: test\ntrigger:\n  on: webhook\nsteps:\n  - id: send\n    action: send_message\n    channel: {}\n    text: 'private rendering stays server-side'\n",
            channel.to_string()
        ),
        &[&["d", &workflow_id.to_string()], &["h", &channel.to_string()]],
        &owner,
    );
    let message = signed(
        KIND_STREAM_MESSAGE,
        "visible result",
        &[
            &["h", &channel.to_string()],
            &["p", &key_of(&agent).to_hex(), "", WORKFLOW_DELIVERY_TARGET_MARKER],
            &["workflow-definition", &definition.id.to_hex()],
            &["workflow-run", &run_id.to_string()],
            &["workflow-step", "send"],
        ],
        &relay,
    );
    let cause = WorkflowDeliveryCause::Event(cause_event.id);
    let binding = WorkflowDeliveryBinding::new(
        community,
        workflow_id,
        run_id,
        "send".to_owned(),
        key_of(&agent),
        definition.id,
        message.id,
        cause,
    )
    .expect("binding");
    let delivery_id_of = WorkflowDeliveryId::from_uuid(delivery_id);
    let asserted = WorkflowDeliveryReceipt { delivery_id: delivery_id_of, binding };
    let receipt = signed_nostr(KIND_RECEIPT, &receipt_text(&asserted), &[], &relay);
    let receipt_wire = serde_json::to_string(&receipt).expect("wire");
    let receipt = from_nostr(&receipt);
    let delivery = DeliverySnapshot {
        id: delivery_id,
        community_id: community,
        workflow_id,
        run_id,
        step_id: "send".to_owned(),
        definition_event_id: definition.id.to_hex(),
        message_event_id: message.id.to_hex(),
        target_pubkey: key_of(&agent).to_hex(),
        cause,
    };
    let workflow = WorkflowDef {
        steps: vec![StepDef {
            id: "send".to_owned(),
            action: ActionDef::SendMessage { channel: Some(channel.to_string()) },
        }],
    };
    Fixture { relay, owner, agent, delivery, definition, message, receipt, receipt_wire, workflow }
}

/// Runs the three stages, and holds the one-call form to the same verdict.
fn verify_parts(
    delivery: &DeliverySnapshot,
    authority: &FetchedAuthority<'_>,
    agent: &str,
    relay: Option<&str>,
    workflow: Option<&WorkflowDef>,
) -> Result<(Event, String), VerifyError> {
    let asserted = authority.receipt.and_then(assertion);
    let staged = verify_delivery_artifacts(delivery, authority, agent, relay)
        .and_then(|check| check.check_step(workflow))
        .and_then(|check| check.conclude(asserted.as_ref()));
    assert_eq!(
        staged,
        verify_workflow_delivery(delivery, authority, agent, relay, workflow, asserted.as_ref())
    );
    staged
}

fn authority(f: &Fixture) -> FetchedAuthority<'_> {
    FetchedAuthority {
        definition: Some(&f.definition),
        message: Some(&f.message),
        receipt: Some(&f.receipt),
    }
}

fn verify(f: &Fixture) -> Result<(Event, String), VerifyError> {
    verify_parts(
        &f.delivery,
        &authority(f),
        &key_of(&f.agent).to_hex(),
        Some(&key_of(&f.relay).to_hex()),
        Some(&f.workflow),
    )
}

#[test]
fn receipt_verifies_without_private_execution_inputs() {
    let f = fixture();
    let (message, owner) = verify(&f).expect("verified");
    assert_eq!(message, f.message);
    assert_eq!(owner, key_of(&f.owner).to_hex());
    let wire = f.receipt_wire;
    assert!(!wire.contains("private rendering stays server-side"));
    assert!(!wire.contains("trigger_context"));
    assert!(!wire.contains("execution_trace"));
}

#[test]
fn missing_public_artifacts_are_transient() {
    let f = fixture();
    for (authority, expected) in [
        (
            FetchedAuthority {
                definition: None,
                message: Some(&f.message),
                receipt: Some(&f.receipt),
            },
            UnavailableKind::Definition,
        ),
        (
            FetchedAuthority {
                definition: Some(&f.definition),
                message: None,
                receipt: Some(&f.receipt),
            },
            UnavailableKind::Message,
        ),
        (
            FetchedAuthority {
                definition: Some(&f.definition),
                message: Some(&f.message),
                receipt: None,
            },
            UnavailableKind::Receipt,
        ),
    ] {
        assert_eq!(
            verify_parts(
                &f.delivery,
                &authority,
                &key_of(&f.agent).to_hex(),
                Some(&key_of(&f.relay).to_hex()),
                Some(&f.workflow),
            ),
            Err(VerifyError::Unavailable(expected))
        );
    }
}

#[test]
fn every_receipt_binding_field_fails_closed_when_mutated() {
    let f = fixture();
    let mut mutations: Vec<DeliveryMutation> = vec![
        Box::new(|d| d.id = fresh_uuid()),
        Box::new(|d| d.community_id = CommunityId::from_uuid(fresh_uuid())),
        Box::new(|d| d.workflow_id = fresh_uuid()),
        Box::new(|d| d.run_id = fresh_uuid()),
        Box::new(|d| d.step_id = "other".to_owned()),
        Box::new(|d| d.definition_event_id = "11".repeat(32)),
        Box::new(|d| d.message_event_id = "22".repeat(32)),
        Box::new(|d| d.target_pubkey = key_of(&Keys::generate()).to_hex()),
        Box::new(|d| {
            d.cause = WorkflowDeliveryCause::Webhook { invocation_id: fresh_uuid() }
        }),
    ];
    for mutate in mutations.drain(..) {
        let mut delivery = f.delivery.clone();
        mutate(&mut delivery);
        assert!(verify_parts(
            &delivery,
            &authority(&f),
            &key_of(&f.agent).to_hex(),
            Some(&key_of(&f.relay).to_hex()),
            Some(&f.workflow),
        )
        .is_err());
    }
}

#[test]
fn wrong_relay_or_tampered_receipt_fails_closed() {
    let f = fixture();
    assert_eq!(
        verify_parts(
            &f.delivery,
            &authority(&f),
            &key_of(&f.agent).to_hex(),
            Some(&key_of(&Keys::generate()).to_hex()),
            Some(&f.workflow),
        ),
        Err(VerifyError::Mismatch(MismatchKind::Message))
    );
    let mut receipt = f.receipt.clone();
    receipt.content = "tampered".to_owned();
    assert_eq!(
        verify_parts(
            &f.delivery,
            &FetchedAuthority {
                definition: Some(&f.definition),
                message: Some(&f.message),
                receipt: Some(&receipt),
            },
            &key_of(&f.agent).to_hex(),
            Some(&key_of(&f.relay).to_hex()),
            Some(&f.workflow),
        ),
        Err(VerifyError::Mismatch(MismatchKind::Receipt))
    );
}

#[test]
fn a_receipt_is_the_relays_own_for_the_delivery() {
    let f = fixture();
    let agent = key_of(&f.agent).to_hex();
    let relay = key_of(&f.relay).to_hex();
    let with = |receipt: &Event| {
        let authority = FetchedAuthority {
            definition: Some(&f.definition),
            message: Some(&f.message),
            receipt: Some(receipt),
        };
        verify_parts(&f.delivery, &authority, &agent, Some(&relay), Some(&f.workflow))
    };
    let refused = Err(VerifyError::Mismatch(MismatchKind::Receipt));
    assert!(with(&f.receipt).is_ok());
    assert!(with(&signed(KIND_RECEIPT, &f.receipt.content, &[], &f.relay)).is_ok());
    // Signed by another key.
    assert_eq!(with(&signed(KIND_RECEIPT, &f.receipt.content, &[], &f.owner)), refused);
    // Changed after it was signed, with its content as it was.
    let mut changed = f.receipt.clone();
    changed.created_at += 1;
    assert_eq!(with(&changed), refused);
    // The relay's, for another delivery.
    let mut asserted = assertion(&f.receipt).expect("a receipt");
    asserted.delivery_id = WorkflowDeliveryId::from_uuid(fresh_uuid());
    assert_eq!(with(&signed(KIND_RECEIPT, &receipt_text(&asserted), &[], &f.relay)), refused);
    // The relay's, for another cause.
    let mut asserted = assertion(&f.receipt).expect("a receipt");
    asserted.binding.cause = WorkflowDeliveryCause::Event(f.message.id);
    assert_eq!(with(&signed(KIND_RECEIPT, &receipt_text(&asserted), &[], &f.relay)), refused);
    // The relay's, and no receipt.
    assert_eq!(with(&signed(KIND_RECEIPT, "hello", &[], &f.relay)), refused);
}

fn wake_for(f: &Fixture) -> Event {
    let template = WorkflowDeliveryWake::new(
        key_of(&f.agent),
        WorkflowDeliveryId::from_uuid(f.delivery.id),
    )
    .event_builder()
    .expect("template");
    let tags: Vec<Vec<&str>> = template
        .tags
        .iter()
        .map(|tag| tag.values.iter().map(String::as_str).collect())
        .collect();
    let tags: Vec<&[&str]> = tags.iter().map(Vec::as_slice).collect();
    signed(template.kind, &template.content, &tags, &f.relay)
}

#[test]
fn wake_is_only_an_identifier_hint() {
    let f = fixture();
    let wake = wake_for(&f);
    assert!(wake_references_delivery(
        &wake,
        &key_of(&f.agent).to_hex(),
        Some(&key_of(&f.relay).to_hex()),
        &f.delivery,
    ));
    assert!(!wake_references_delivery(
        &wake,
        &key_of(&Keys::generate()).to_hex(),
        Some(&key_of(&f.relay).to_hex()),
        &f.delivery,
    ));
}

#[test]
fn workflow_shape_without_durable_owner_fails_closed() {
    assert_eq!(workflow_delivery_principal("author", None, true), None);
    assert_eq!(
        workflow_delivery_principal("author", Some("owner"), true),
        Some("owner".to_owned())
    );
}

#[test]
fn plain_messages_are_their_authors() {
    assert_eq!(workflow_delivery_principal("author", None, false), Some("author".to_owned()));
    assert_eq!(
        workflow_delivery_principal("author", Some("owner"), false),
        Some("owner".to_owned())
    );
}

#[test]
fn wakes_are_trusted_from_the_relay_alone() {
    let f = fixture();
    let wake = wake_for(&f);
    let agent = key_of(&f.agent).to_hex();
    let relay = key_of(&f.relay).to_hex();
    let expected = Some(WorkflowDeliveryId::from_uuid(f.delivery.id));
    assert_eq!(trusted_live_workflow_wake_delivery_id(&wake, &agent, Some(&relay)), expected);
    assert_eq!(
        trusted_live_workflow_wake_delivery_id(
            &wake,
            &agent.to_uppercase(),
            Some(&relay.to_uppercase())
        ),
        expected
    );
    assert_eq!(trusted_live_workflow_wake_delivery_id(&wake, &agent, None), None);
    assert_eq!(trusted_live_workflow_wake_delivery_id(&wake, &agent, Some(&agent)), None);
    let mut forged = wake.clone();
    forged.created_at += 1;
    assert_eq!(trusted_live_workflow_wake_delivery_id(&forged, &agent, Some(&relay)), None);
    assert_eq!(trusted_live_workflow_wake_delivery_id(&f.message, &agent, Some(&relay)), None);

    let mut other = f.delivery.clone();
    other.id = fresh_uuid();
    assert!(!wake_references_delivery(&wake, &agent, Some(&relay), &other));
    let mut foreign = f.delivery.clone();
    foreign.target_pubkey = relay.clone();
    assert!(!wake_references_delivery(&wake, &agent, Some(&relay), &foreign));
}

#[test]
fn candidates_are_relay_messages_that_declare_a_definition() {
    let f = fixture();
    let relay = key_of(&f.relay).to_hex();
    assert!(is_workflow_delivery_candidate(&f.message, Some(&relay)));
    assert!(is_workflow_delivery_candidate(&f.message, Some(&relay.to_uppercase())));
    assert!(!is_workflow_delivery_candidate(&f.message, None));
    assert!(!is_workflow_delivery_candidate(&f.message, Some(&key_of(&f.owner).to_hex())));
    assert!(!is_workflow_delivery_candidate(&f.definition, Some(&key_of(&f.owner).to_hex())));
    let plain = signed(KIND_STREAM_MESSAGE, "hello", &[&["h", "channel"]], &f.relay);
    assert!(!is_workflow_delivery_candidate(&plain, Some(&relay)));
}

#[test]
fn relay_identity_is_needed_and_well_formed() {
    let f = fixture();
    let agent = key_of(&f.agent).to_hex();
    assert_eq!(
        verify_parts(&f.delivery, &authority(&f), &agent, None, Some(&f.workflow)),
        Err(VerifyError::Unavailable(UnavailableKind::RelayIdentity))
    );
    assert_eq!(
        verify_parts(&f.delivery, &authority(&f), &agent, Some("relay"), Some(&f.workflow)),
        Err(VerifyError::Mismatch(MismatchKind::Receipt))
    );
}

#[test]
fn artifacts_that_disagree_are_told_apart() {
    let f = fixture();
    let agent = key_of(&f.agent).to_hex();
    let relay = key_of(&f.relay).to_hex();
    let outcome = |delivery: &DeliverySnapshot| {
        verify_parts(delivery, &authority(&f), &agent, Some(&relay), Some(&f.workflow))
    };
    let mut foreign = f.delivery.clone();
    foreign.target_pubkey = relay.clone();
    assert_eq!(outcome(&foreign), Err(VerifyError::Mismatch(MismatchKind::Target)));
    let mut malformed = f.delivery.clone();
    malformed.definition_event_id = "zz".to_owned();
    assert_eq!(outcome(&malformed), Err(VerifyError::Mismatch(MismatchKind::Definition)));
    let mut malformed = f.delivery.clone();
    malformed.message_event_id = "zz".to_owned();
    assert_eq!(outcome(&malformed), Err(VerifyError::Mismatch(MismatchKind::Message)));
    let mut blank = f.delivery.clone();
    blank.step_id = " ".to_owned();
    assert_eq!(outcome(&blank), Err(VerifyError::Mismatch(MismatchKind::Receipt)));
    let mut other = f.delivery.clone();
    other.workflow_id = fresh_uuid();
    assert_eq!(outcome(&other), Err(VerifyError::Mismatch(MismatchKind::Definition)));
    let mut other = f.delivery.clone();
    other.run_id = fresh_uuid();
    assert_eq!(outcome(&other), Err(VerifyError::Mismatch(MismatchKind::Message)));
    let mut upper = f.delivery.clone();
    upper.target_pubkey = upper.target_pubkey.to_uppercase();
    upper.definition_event_id = upper.definition_event_id.to_uppercase();
    upper.message_event_id = upper.message_event_id.to_uppercase();
    assert!(outcome(&upper).is_ok());
}

#[test]
fn definition_needs_one_channel_and_its_own_signature() {
    let f = fixture();
    let agent = key_of(&f.agent).to_hex();
    let relay = key_of(&f.relay).to_hex();
    let workflow_id = f.delivery.workflow_id.to_string();
    let channel = fresh_uuid().to_string();
    let without = signed(KIND_WORKFLOW_DEF, "", &[&["d", &workflow_id]], &f.owner);
    let twice = signed(
        KIND_WORKFLOW_DEF,
        "",
        &[&["d", &workflow_id], &["h", &channel], &["h", &channel]],
        &f.owner,
    );
    let extra = signed(
        KIND_WORKFLOW_DEF,
        "",
        &[&["d", &workflow_id, "more"], &["h", &channel]],
        &f.owner,
    );
    let mut tampered = f.definition.clone();
    tampered.content = "tampered".to_owned();
    for definition in [without, twice, extra, tampered] {
        let mut delivery = f.delivery.clone();
        delivery.definition_event_id = definition.id.to_hex();
        assert_eq!(
            verify_parts(
                &delivery,
                &FetchedAuthority {
                    definition: Some(&definition),
                    message: Some(&f.message),
                    receipt: Some(&f.receipt),
                },
                &agent,
                Some(&relay),
                Some(&f.workflow),
            ),
            Err(VerifyError::Mismatch(MismatchKind::Definition))
        );
    }
}

fn with_workflow(f: &Fixture, workflow: Option<&WorkflowDef>) -> Result<(), VerifyError> {
    verify_parts(
        &f.delivery,
        &authority(f),
        &key_of(&f.agent).to_hex(),
        Some(&key_of(&f.relay).to_hex()),
        workflow,
    )
    .map(|_| ())
}

fn one_step(id: &str, action: ActionDef) -> WorkflowDef {
    WorkflowDef { steps: vec![StepDef { id: id.to_owned(), action }] }
}

#[test]
fn step_sends_a_message_to_no_other_channel() {
    let f = fixture();
    let step = Err(VerifyError::Mismatch(MismatchKind::Step));
    let channel = Err(VerifyError::Mismatch(MismatchKind::Channel));
    assert_eq!(with_workflow(&f, None), step);
    assert_eq!(with_workflow(&f, Some(&WorkflowDef { steps: vec![] })), step);
    assert_eq!(
        with_workflow(&f, Some(&one_step("other", ActionDef::SendMessage { channel: None }))),
        step
    );
    assert_eq!(with_workflow(&f, Some(&one_step("send", ActionDef::Other))), step);
    for (named, expected) in [
        (None, Ok(())),
        (Some("".to_owned()), Ok(())),
        (Some(" \t".to_owned()), Ok(())),
        (Some(fresh_uuid().to_string()), channel),
        (Some("general".to_owned()), channel),
    ] {
        let workflow = one_step("send", ActionDef::SendMessage { channel: named });
        assert_eq!(with_workflow(&f, Some(&workflow)), expected);
    }
    let first_wins = WorkflowDef {
        steps: vec![
            StepDef { id: "send".to_owned(), action: ActionDef::Other },
            StepDef {
                id: "send".to_owned(),
                action: ActionDef::SendMessage { channel: None },
            },
        ],
    };
    assert_eq!(with_workflow(&f, Some(&first_wins)), step);
}

#[test]
fn failures_have_messages() {
    for (error, expected) in [
        (VerifyError::Mismatch(MismatchKind::Target), "permanent mismatch: Target"),
        (VerifyError::Mismatch(MismatchKind::Definition), "permanent mismatch: Definition"),
        (VerifyError::Mismatch(MismatchKind::Message), "permanent mismatch: Message"),
        (VerifyError::Mismatch(MismatchKind::Step), "permanent mismatch: Step"),
        (VerifyError::Mismatch(MismatchKind::Channel), "permanent mismatch: Channel"),
        (VerifyError::Mismatch(MismatchKind::Receipt), "permanent mismatch: Receipt"),
        (
            VerifyError::Unavailable(UnavailableKind::Definition),
            "authority unavailable: Definition",
        ),
        (VerifyError::Unavailable(UnavailableKind::Message), "authority unavailable: Message"),
        (VerifyError::Unavailable(UnavailableKind::Receipt), "authority unavailable: Receipt"),
        (
            VerifyError::Unavailable(UnavailableKind::RelayIdentity),
            "authority unavailable: RelayIdentity",
        ),
    ] {
        assert_eq!(error.to_string(), expected);
    }
}
