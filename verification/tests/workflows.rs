//! The relay's workflow endpoints.

use buzz_delivery::deliveries::{
    claim_agent_delivery, finish_agent_delivery, read_agent_delivery, renew_agent_delivery,
    DeliveryAnswer, DeliveryState, DeliveryStep,
};
use buzz_delivery::event::{Event, EventId, PublicKey};
use buzz_delivery::ids::{CommunityId, TenantContext, Uuid};
use buzz_delivery::relay_io::{
    AgentPolicy, FinishOutcome, LookupError, Method, RelayAction, RelayReply, RenewOutcome,
};
use buzz_delivery::run_reads::{
    run_approvals, workflow_revision, workflow_runs, ReadAnswer, ReadState, ReadStep,
};
use buzz_delivery::wire::{
    approval_json, cursor_json, delivery_answer_json, delivery_cause_json, delivery_json,
    finished_json, read_answer_json, renewed_json, run_json, AnswerMember, AnswerValue, WireAnswer,
    WireField, WireMember, WireObject, WireScalar, WireValue,
};
use buzz_delivery::workflow_api::{
    api_error, default_delivery_lease_seconds, internal_error, is_callers_delivery, is_live_claim,
    is_run_of_binding, lease_for, parse_delivery_binding, parse_event_id, request_path, runs_page,
    terminal_matches, validate_lease_seconds, validate_runs_query, ApiError, ApprovalRecord,
    ClaimDeliveryRequest, DeliveryBindingRequest, DeliveryCauseRequest, DeliveryDisposition,
    DeliveryLeaseRequest, FinishDeliveryRequest, RenewDeliveryRequest, RunCursor, RunsPage, RunsQuery,
    StoredEvent, Timestamp, WorkflowAgentDeliveryRecord, WorkflowDeliveryLease,
    WorkflowDeliveryOutcome, WorkflowDeliveryStatus, WorkflowRecord, WorkflowRunRecord,
    MAX_DELIVERY_LEASE_SECONDS, MIN_DELIVERY_LEASE_SECONDS, STATUS_BAD_REQUEST, STATUS_CONFLICT,
    STATUS_FORBIDDEN, STATUS_NOT_FOUND,
};
use buzz_delivery::workflow_delivery::{
    WorkflowDeliveryBinding, WorkflowDeliveryCause, WorkflowDeliveryId,
};
use nostr::Keys;

fn fresh_uuid() -> Uuid {
    Uuid { bytes: uuid::Uuid::new_v4().into_bytes() }
}

fn fresh_key() -> PublicKey {
    PublicKey { bytes: Keys::generate().public_key().to_bytes() }
}

fn at(seconds: i64) -> Timestamp {
    Timestamp { seconds, nanos: 0 }
}

fn status_of(error: &ApiError) -> u16 {
    match error {
        ApiError::Refused { status, message: _ } => *status,
        ApiError::Internal { message } => panic!("internal: {message}"),
    }
}

fn event(id: EventId) -> Event {
    Event {
        id,
        pubkey: PublicKey { bytes: [3; 32] },
        created_at: 1,
        kind: 9,
        tags: vec![],
        content: "content".to_owned(),
        sig: [0; 64],
    }
}

fn run(id: Uuid, workflow_id: Uuid, definition: Option<Vec<u8>>) -> WorkflowRunRecord {
    WorkflowRunRecord {
        id,
        workflow_id,
        definition_event_id: definition,
        status: "completed".to_owned(),
        current_step: 2,
        execution_trace: "[]".to_owned(),
        started_at: Some(Timestamp { seconds: 10, nanos: 5 }),
        completed_at: None,
        error_code: None,
        error_message: Some("late".to_owned()),
        created_at: Timestamp { seconds: 9, nanos: 7 },
    }
}

fn approval() -> ApprovalRecord {
    ApprovalRecord {
        token: vec![0xab; 32],
        workflow_id: fresh_uuid(),
        run_id: fresh_uuid(),
        step_id: "review".to_string(),
        step_index: 1,
        approver_spec: "any".to_string(),
        status: "pending".to_string(),
        approver_pubkey: None,
        note: None,
        expires_at: at(20),
        created_at: at(10),
    }
}

#[test]
fn request_path_preserves_signed_query_verbatim() {
    assert_eq!(
        request_path("/workflows/id/runs", Some("limit=20&before_id=abc")),
        "/workflows/id/runs?limit=20&before_id=abc"
    );
    assert_eq!(request_path("/workflows/id/runs", None), "/workflows/id/runs");
}

#[test]
fn an_empty_query_leaves_no_mark() {
    assert_eq!(request_path("/workflows/id/runs", Some("")), "/workflows/id/runs");
}

fn claimed_delivery() -> (WorkflowAgentDeliveryRecord, WorkflowDeliveryLease) {
    let community = CommunityId::from_uuid(fresh_uuid());
    let target = fresh_key();
    let binding = WorkflowDeliveryBinding::new(
        community,
        fresh_uuid(),
        fresh_uuid(),
        "notify".to_owned(),
        target,
        EventId { bytes: [0x11; 32] },
        EventId { bytes: [0x22; 32] },
        WorkflowDeliveryCause::Webhook { invocation_id: fresh_uuid() },
    )
    .expect("valid delivery binding");
    let delivery = WorkflowAgentDeliveryRecord {
        id: WorkflowDeliveryId::from_uuid(fresh_uuid()),
        binding,
        status: WorkflowDeliveryStatus::Claimed,
        lease_generation: 4,
        lease_until: Some(at(100)),
    };
    let lease = WorkflowDeliveryLease {
        community_id: community,
        delivery_id: delivery.id,
        target_pubkey: target,
        lease_generation: 4,
        lease_until: at(100),
    };
    (delivery, lease)
}

#[test]
fn delivery_wire_excludes_private_run_state() {
    let (delivery, lease) = claimed_delivery();
    let wire = delivery_answer_json(DeliveryAnswer::Delivery {
        delivery,
        held: lease,
        definition: signed("signed definition"),
        message: signed("visible message"),
        receipt: signed("relay receipt"),
    });
    let delivery = match member(&wire, "delivery") {
        Some(AnswerValue::Object(delivery)) => delivery,
        other => panic!("{other:?}"),
    };
    for name in ["execution_trace", "trigger_context", "webhook_fields"] {
        assert!(member(&wire, name).is_none());
        assert!(delivery.get(name).is_none());
    }
    assert_eq!(
        delivery.get("lease_generation"),
        Some(&WireValue::Scalar(WireScalar::Int(4)))
    );
}

fn signed(content: &str) -> Event {
    let mut event = event(EventId { bytes: [0x11; 32] });
    event.content = content.to_owned();
    event
}

fn member<'a>(answer: &'a WireAnswer, name: &str) -> Option<&'a AnswerValue> {
    match answer {
        WireAnswer::Members(members) => {
            members.iter().find(|member| member.name == name).map(|member| &member.value)
        }
        _ => None,
    }
}

#[test]
fn the_answer_with_a_delivery_is_exact() {
    let (delivery, held) = claimed_delivery();
    let object = delivery_json(&delivery, &held);
    let answer = DeliveryAnswer::Delivery {
        delivery,
        held,
        definition: signed("signed definition"),
        message: signed("visible message"),
        receipt: signed("relay receipt"),
    };
    assert_eq!(
        delivery_answer_json(answer),
        WireAnswer::Members(vec![
            AnswerMember { name: "delivery", value: AnswerValue::Object(object) },
            AnswerMember {
                name: "definition_event",
                value: AnswerValue::Event(signed("signed definition")),
            },
            AnswerMember {
                name: "message_event",
                value: AnswerValue::Event(signed("visible message")),
            },
            AnswerMember {
                name: "receipt_event",
                value: AnswerValue::Event(signed("relay receipt")),
            },
        ])
    );
    assert_eq!(
        delivery_answer_json(DeliveryAnswer::Renewed { lease_until: at(50) }),
        WireAnswer::Object(renewed_json(at(50)))
    );
    assert_eq!(
        delivery_answer_json(DeliveryAnswer::Finished { replayed: false }),
        WireAnswer::Object(finished_json(false))
    );
}

#[test]
fn the_answers_to_readers_are_exact() {
    assert_eq!(
        read_answer_json(ReadAnswer::Revision(signed("signed definition"))),
        WireAnswer::Event(signed("signed definition"))
    );
    let rows = vec![run(fresh_uuid(), fresh_uuid(), None), run(fresh_uuid(), fresh_uuid(), None)];
    let objects: Vec<WireObject> = rows.iter().map(run_json).collect();
    let cursor = RunCursor { before: at(9), before_id: fresh_uuid() };
    let next = cursor_json(&cursor);
    assert_eq!(
        read_answer_json(ReadAnswer::Runs(RunsPage { runs: rows, next: Some(cursor) })),
        WireAnswer::Members(vec![
            AnswerMember { name: "runs", value: AnswerValue::List(objects) },
            AnswerMember { name: "next", value: AnswerValue::Object(next) },
        ])
    );
    assert_eq!(
        read_answer_json(ReadAnswer::Runs(RunsPage { runs: vec![], next: None })),
        WireAnswer::Members(vec![
            AnswerMember { name: "runs", value: AnswerValue::List(vec![]) },
            AnswerMember { name: "next", value: AnswerValue::Null },
        ])
    );
    let approvals = vec![approval()];
    let object = approval_json(&approvals[0]);
    assert_eq!(
        read_answer_json(ReadAnswer::Approvals(approvals)),
        WireAnswer::Members(vec![AnswerMember {
            name: "approvals",
            value: AnswerValue::List(vec![object]),
        }])
    );
}

fn text(value: &str) -> WireValue {
    WireValue::Scalar(WireScalar::Text(value.to_owned()))
}

fn number(value: i64) -> WireValue {
    WireValue::Scalar(WireScalar::Int(value))
}

fn time(value: Timestamp) -> WireValue {
    WireValue::Scalar(WireScalar::Time(value))
}

fn object(members: Vec<(&'static str, WireValue)>) -> WireObject {
    WireObject {
        members: members.into_iter().map(|(name, value)| WireMember { name, value }).collect(),
    }
}

#[test]
fn delivery_wire_is_exact() {
    let (mut delivery, lease) = claimed_delivery();
    delivery.binding.cause = WorkflowDeliveryCause::Schedule { scheduled_for_unix_seconds: -5 };
    let binding = delivery.binding.clone();
    assert_eq!(
        delivery_json(&delivery, &lease),
        object(vec![
            ("id", text(&delivery.id.to_string())),
            ("community_id", text(&binding.community_id.as_uuid().to_string())),
            ("workflow_id", text(&binding.workflow_id.to_string())),
            ("run_id", text(&binding.run_id.to_string())),
            ("step_id", text("notify")),
            ("target_pubkey", text(&binding.target_pubkey.to_hex())),
            ("definition_event_id", text(&"11".repeat(32))),
            ("message_event_id", text(&"22".repeat(32))),
            (
                "cause",
                WireValue::Object(vec![
                    WireField { name: "kind", value: WireScalar::Text("schedule".to_owned()) },
                    WireField { name: "scheduled_for_unix_seconds", value: WireScalar::Int(-5) },
                ])
            ),
            ("lease_generation", number(4)),
            ("lease_until", time(at(100))),
        ])
    );
}

#[test]
fn delivery_wire_does_not_depend_on_the_status() {
    let (mut delivery, lease) = claimed_delivery();
    let before = delivery_json(&delivery, &lease);
    delivery.status = WorkflowDeliveryStatus::Failed;
    delivery.lease_until = None;
    assert_eq!(delivery_json(&delivery, &lease), before);
}

#[test]
fn causes_name_their_kind_and_identity() {
    let invocation = fresh_uuid();
    assert_eq!(
        delivery_cause_json(&WorkflowDeliveryCause::Event(EventId { bytes: [0x33; 32] })),
        WireValue::Object(vec![
            WireField { name: "kind", value: WireScalar::Text("event".to_owned()) },
            WireField { name: "event_id", value: WireScalar::Text("33".repeat(32)) },
        ])
    );
    assert_eq!(
        delivery_cause_json(&WorkflowDeliveryCause::Webhook { invocation_id: invocation }),
        WireValue::Object(vec![
            WireField { name: "kind", value: WireScalar::Text("webhook".to_owned()) },
            WireField {
                name: "invocation_id",
                value: WireScalar::Text(invocation.to_string())
            },
        ])
    );
}

#[test]
fn run_wire_is_exact() {
    let run = run(fresh_uuid(), fresh_uuid(), None);
    assert_eq!(
        run_json(&run),
        object(vec![
            ("id", text(&run.id.to_string())),
            ("workflow_id", text(&run.workflow_id.to_string())),
            ("status", text("completed")),
            ("current_step", number(2)),
            ("execution_trace", WireValue::Scalar(WireScalar::Json("[]".to_owned()))),
            ("started_at", number(10)),
            ("completed_at", WireValue::Scalar(WireScalar::Null)),
            ("error_code", WireValue::Scalar(WireScalar::Null)),
            ("error_message", text("late")),
            ("created_at", number(9)),
        ])
    );
}

#[test]
fn answers_have_their_wire() {
    let cursor = RunCursor { before: Timestamp { seconds: 9, nanos: 7 }, before_id: fresh_uuid() };
    assert_eq!(
        cursor_json(&cursor),
        object(vec![
            ("before", time(Timestamp { seconds: 9, nanos: 7 })),
            ("before_id", text(&cursor.before_id.to_string())),
        ])
    );
    assert_eq!(
        renewed_json(at(50)),
        object(vec![
            ("renewed", WireValue::Scalar(WireScalar::Bool(true))),
            ("lease_until", time(at(50))),
        ])
    );
    assert_eq!(
        finished_json(true),
        object(vec![
            ("finished", WireValue::Scalar(WireScalar::Bool(true))),
            ("replayed", WireValue::Scalar(WireScalar::Bool(true))),
        ])
    );
}

fn binding_request(community_id: Uuid, target_pubkey: String) -> DeliveryBindingRequest {
    DeliveryBindingRequest {
        community_id,
        workflow_id: fresh_uuid(),
        run_id: fresh_uuid(),
        step_id: "notify".to_owned(),
        target_pubkey,
        definition_event_id: "11".repeat(32),
        message_event_id: "22".repeat(32),
        cause: DeliveryCauseRequest::Webhook { invocation_id: fresh_uuid() },
    }
}

#[test]
fn delivery_binding_rejects_cross_tenant_and_cross_target() {
    let community = CommunityId::from_uuid(fresh_uuid());
    let tenant = TenantContext::resolved(community, "agent.example");
    let authenticated = fresh_key();
    let other = fresh_key();

    let error = parse_delivery_binding(
        binding_request(fresh_uuid(), authenticated.to_hex()),
        &tenant,
        authenticated,
    )
    .expect_err("body tenant cannot override host-resolved tenant");
    assert_eq!(status_of(&error), STATUS_NOT_FOUND);

    let error = parse_delivery_binding(
        binding_request(community.as_uuid(), other.to_hex()),
        &tenant,
        authenticated,
    )
    .expect_err("authenticated target must match the binding");
    assert_eq!(status_of(&error), STATUS_NOT_FOUND);
}

#[test]
fn malformed_binding_and_lease_bounds_fail_closed() {
    let community = CommunityId::from_uuid(fresh_uuid());
    let tenant = TenantContext::resolved(community, "agent.example");
    let authenticated = fresh_key();
    let malformed = DeliveryBindingRequest {
        definition_event_id: "not-an-event-id".to_owned(),
        ..binding_request(community.as_uuid(), authenticated.to_hex())
    };
    let error = parse_delivery_binding(malformed, &tenant, authenticated)
        .expect_err("malformed signed authority must fail closed");
    assert_eq!(status_of(&error), STATUS_BAD_REQUEST);
    assert!(validate_lease_seconds(MIN_DELIVERY_LEASE_SECONDS - 1).is_err());
    assert!(validate_lease_seconds(MAX_DELIVERY_LEASE_SECONDS + 1).is_err());
}

#[test]
fn terminal_replay_requires_the_same_disposition() {
    assert!(terminal_matches(WorkflowDeliveryStatus::Finished, DeliveryDisposition::Finished));
    assert!(terminal_matches(WorkflowDeliveryStatus::Failed, DeliveryDisposition::Failed));
    assert!(!terminal_matches(WorkflowDeliveryStatus::Finished, DeliveryDisposition::Failed));
    assert!(!terminal_matches(WorkflowDeliveryStatus::Failed, DeliveryDisposition::Finished));
}

#[test]
fn approval_wire_does_not_expose_hash_as_token() {
    let approval = approval();
    let wire = approval_json(&approval);
    assert!(wire.get("token").is_none());
    assert_eq!(wire.get("approval_ref"), Some(&text(&hex::encode([0xab; 32]))));
}

#[test]
fn approval_wire_is_exact() {
    let mut approval = approval();
    approval.approver_pubkey = Some(vec![0x01, 0xf0]);
    approval.note = Some("fine".to_owned());
    assert_eq!(
        approval_json(&approval),
        object(vec![
            ("approval_ref", text(&"ab".repeat(32))),
            ("workflow_id", text(&approval.workflow_id.to_string())),
            ("run_id", text(&approval.run_id.to_string())),
            ("step_id", text("review")),
            ("step_index", number(1)),
            ("approver_spec", text("any")),
            ("status", text("pending")),
            ("approver_pubkey", text("01f0")),
            ("note", text("fine")),
            ("expires_at", time(at(20))),
            ("created_at", number(10)),
        ])
    );
}

#[test]
fn terminal_replay_is_of_a_settled_delivery() {
    for disposition in [DeliveryDisposition::Finished, DeliveryDisposition::Failed] {
        assert!(!terminal_matches(WorkflowDeliveryStatus::Pending, disposition));
        assert!(!terminal_matches(WorkflowDeliveryStatus::Claimed, disposition));
    }
}

#[test]
fn lease_lengths_are_from_15_to_300_seconds() {
    assert_eq!(default_delivery_lease_seconds(), 60);
    assert_eq!(validate_lease_seconds(15), Ok(15));
    assert_eq!(validate_lease_seconds(300), Ok(300));
    assert_eq!(
        validate_lease_seconds(14),
        Err(api_error(STATUS_BAD_REQUEST, "lease_seconds must be between 15 and 300"))
    );
    assert!(validate_lease_seconds(i64::MIN).is_err());
    assert!(validate_lease_seconds(i64::MAX).is_err());
}

#[test]
fn requested_bindings_are_the_senders() {
    let community = CommunityId::from_uuid(fresh_uuid());
    let tenant = TenantContext::resolved(community, "agent.example");
    let sender = fresh_key();
    let refused = |change: &dyn Fn(&mut DeliveryBindingRequest), message: &str| {
        let mut request = binding_request(community.as_uuid(), sender.to_hex());
        change(&mut request);
        assert_eq!(
            parse_delivery_binding(request, &tenant, sender),
            Err(api_error(STATUS_BAD_REQUEST, message))
        );
    };
    refused(&|r| r.target_pubkey = "zz".to_owned(), "invalid target_pubkey");
    refused(&|r| r.definition_event_id = "zz".to_owned(), "invalid definition_event_id");
    refused(&|r| r.message_event_id = "zz".to_owned(), "invalid message_event_id");
    refused(
        &|r| r.cause = DeliveryCauseRequest::Event { event_id: "zz".to_owned() },
        "invalid cause.event_id",
    );
    refused(&|r| r.step_id = " ".to_owned(), "invalid delivery binding");

    let mut request = binding_request(community.as_uuid(), sender.to_hex().to_uppercase());
    request.cause = DeliveryCauseRequest::Event { event_id: "44".repeat(32) };
    let (workflow_id, run_id) = (request.workflow_id, request.run_id);
    let binding = parse_delivery_binding(request, &tenant, sender).expect("binding");
    assert_eq!(binding.community_id, community);
    assert_eq!(binding.target_pubkey, sender);
    assert_eq!(binding.workflow_id, workflow_id);
    assert_eq!(binding.run_id, run_id);
    assert_eq!(binding.step_id, "notify");
    assert_eq!(binding.definition_event_id.to_hex(), "11".repeat(32));
    assert_eq!(binding.message_event_id.to_hex(), "22".repeat(32));
    assert_eq!(binding.cause, WorkflowDeliveryCause::Event(EventId { bytes: [0x44; 32] }));
}

#[test]
fn schedule_causes_are_kept() {
    let community = CommunityId::from_uuid(fresh_uuid());
    let tenant = TenantContext::resolved(community, "agent.example");
    let sender = fresh_key();
    let mut request = binding_request(community.as_uuid(), sender.to_hex());
    request.cause = DeliveryCauseRequest::Schedule { scheduled_for_unix_seconds: 77 };
    assert_eq!(
        parse_delivery_binding(request, &tenant, sender).expect("binding").cause,
        WorkflowDeliveryCause::Schedule { scheduled_for_unix_seconds: 77 }
    );
}

#[test]
fn event_id_fields_are_named_in_their_error() {
    assert_eq!(
        parse_event_id("zz", "field"),
        Err(api_error(STATUS_BAD_REQUEST, "invalid field"))
    );
    assert_eq!(parse_event_id(&"0a".repeat(32), "field"), Ok(EventId { bytes: [0x0a; 32] }));
}

#[test]
fn errors_say_what_they_are_about() {
    assert_eq!(
        internal_error("context: ", "cause"),
        ApiError::Internal { message: "context: cause".to_owned() }
    );
    assert_eq!(
        api_error(404, "gone"),
        ApiError::Refused { status: 404, message: "gone".to_owned() }
    );
}

#[test]
fn run_queries_need_a_whole_cursor_and_a_small_page() {
    let default = validate_runs_query(&RunsQuery::default()).expect("default");
    assert_eq!(default.get_limit(), 20);
    assert!(default.get_cursor().is_none());
    let both = "before and before_id must be supplied together";
    for query in [
        RunsQuery { before: Some(at(1)), before_id: None, limit: Some(0) },
        RunsQuery { before: None, before_id: Some(fresh_uuid()), limit: None },
    ] {
        assert_eq!(
            validate_runs_query(&query).map(|_| ()),
            Err(api_error(STATUS_BAD_REQUEST, both))
        );
    }
    for limit in [0, -1, 101, i64::MAX] {
        let query = RunsQuery { before: None, before_id: None, limit: Some(limit) };
        assert_eq!(
            validate_runs_query(&query).map(|_| ()),
            Err(api_error(STATUS_BAD_REQUEST, "limit must be between 1 and 100"))
        );
    }
    let id = fresh_uuid();
    let query = RunsQuery { before: Some(at(1)), before_id: Some(id), limit: Some(100) };
    let page = validate_runs_query(&query).expect("page");
    let cursor = page.get_cursor().expect("cursor");
    assert_eq!((cursor.before, cursor.before_id, page.get_limit()), (at(1), id, 100));
}

#[test]
fn pages_are_prefixes_with_a_cursor_at_their_last_run() {
    let query = RunsQuery { before: None, before_id: None, limit: Some(2) };
    let page = validate_runs_query(&query).expect("page");
    let workflow = fresh_uuid();
    let ids = [fresh_uuid(), fresh_uuid(), fresh_uuid()];
    let rows = |n: usize| -> Vec<WorkflowRunRecord> {
        ids[..n].iter().map(|id| run(*id, workflow, None)).collect()
    };
    for n in 0..3 {
        let cut = runs_page(rows(n), &page);
        assert_eq!(cut.runs.len(), n);
        assert!(cut.next.is_none());
    }
    let cut = runs_page(rows(3), &page);
    assert_eq!(cut.runs.iter().map(|run| run.id).collect::<Vec<_>>(), ids[..2].to_vec());
    let next = cut.next.expect("more");
    assert_eq!(next.before_id, ids[1]);
    assert_eq!(next.before, Timestamp { seconds: 9, nanos: 7 });
}

#[test]
fn instants_are_ordered_to_the_nanosecond() {
    let early = Timestamp { seconds: 5, nanos: 999_999_999 };
    let late = Timestamp { seconds: 6, nanos: 0 };
    assert!(late.is_at_or_after(early));
    assert!(!early.is_at_or_after(late));
    assert!(early.is_at_or_after(early));
}

#[test]
fn live_claims_are_claimed_and_not_run_out() {
    let (mut delivery, _) = claimed_delivery();
    assert!(is_live_claim(&delivery, at(100)));
    assert!(!is_live_claim(&delivery, Timestamp { seconds: 100, nanos: 1 }));
    delivery.status = WorkflowDeliveryStatus::Finished;
    assert!(!is_live_claim(&delivery, at(0)));
    delivery.status = WorkflowDeliveryStatus::Claimed;
    delivery.lease_until = None;
    assert!(!is_live_claim(&delivery, at(0)));
}

#[test]
fn presented_leases_carry_what_was_presented() {
    let community = CommunityId::from_uuid(fresh_uuid());
    let tenant = TenantContext::resolved(community, "agent.example");
    let (target, id) = (fresh_key(), WorkflowDeliveryId::from_uuid(fresh_uuid()));
    let lease = lease_for(&tenant, target, id, 3, at(8));
    assert_eq!(lease.community_id, community);
    assert_eq!(lease.target_pubkey, target);
    assert_eq!(lease.delivery_id, id);
    assert_eq!((lease.lease_generation, lease.lease_until), (3, at(8)));
}

#[test]
fn deliveries_are_their_targets_alone() {
    let (delivery, lease) = claimed_delivery();
    let tenant = TenantContext::resolved(lease.community_id, "agent.example");
    assert!(is_callers_delivery(&delivery, &lease, &tenant, &lease.target_pubkey));
    assert!(!is_callers_delivery(&delivery, &lease, &tenant, &fresh_key()));
    let elsewhere = TenantContext::resolved(CommunityId::from_uuid(fresh_uuid()), "other");
    assert!(!is_callers_delivery(&delivery, &lease, &elsewhere, &lease.target_pubkey));
    let mut stale = lease;
    stale.lease_generation = 3;
    assert!(!is_callers_delivery(&delivery, &stale, &tenant, &lease.target_pubkey));
    let mut other = lease;
    other.delivery_id = WorkflowDeliveryId::from_uuid(fresh_uuid());
    assert!(!is_callers_delivery(&delivery, &other, &tenant, &lease.target_pubkey));
}

#[test]
fn runs_agree_with_the_revision_of_the_binding() {
    let (delivery, _) = claimed_delivery();
    let workflow = delivery.binding.workflow_id;
    let id = delivery.binding.run_id;
    assert!(is_run_of_binding(&run(id, workflow, Some(vec![0x11; 32])), &delivery.binding));
    assert!(!is_run_of_binding(&run(id, workflow, Some(vec![0x12; 32])), &delivery.binding));
    assert!(!is_run_of_binding(&run(id, workflow, None), &delivery.binding));
    assert!(!is_run_of_binding(&run(id, fresh_uuid(), Some(vec![0x11; 32])), &delivery.binding));
}

// The read endpoints.

fn feed_read(step: ReadStep, replies: Vec<RelayReply>) -> ReadStep {
    let mut step = step;
    for reply in replies {
        step = match step {
            ReadStep::Ask(state) => state.step(reply),
            done => panic!("a reply too many after {done:?}"),
        };
    }
    step
}

fn read_gates(tenant: &TenantContext, caller: PublicKey) -> Vec<RelayReply> {
    vec![
        RelayReply::Community(Some(tenant.clone())),
        RelayReply::Auth(Ok((caller, Some(EventId { bytes: [9; 32] })))),
        RelayReply::Admission(Ok(())),
        RelayReply::Replay(Ok(())),
        RelayReply::Membership(Ok(())),
    ]
}

fn asking(step: ReadStep) -> ReadState {
    match step {
        ReadStep::Ask(state) => state,
        done => panic!("done: {done:?}"),
    }
}

fn refused(step: ReadStep) -> ApiError {
    match step {
        ReadStep::Refuse(error) => error,
        other => panic!("not refused: {other:?}"),
    }
}

fn workflow_row(channel: Option<Uuid>, owner: PublicKey) -> WorkflowRecord {
    WorkflowRecord {
        channel_id: channel,
        owner_pubkey: owner.bytes.to_vec(),
        definition_event_id: Some(vec![0x11; 32]),
    }
}

struct Reader {
    tenant: TenantContext,
    caller: PublicKey,
    owner: PublicKey,
    workflow: Uuid,
    channel: Uuid,
}

fn reader() -> Reader {
    Reader {
        tenant: TenantContext::resolved(CommunityId::from_uuid(fresh_uuid()), "relay.example"),
        caller: fresh_key(),
        owner: fresh_key(),
        workflow: fresh_uuid(),
        channel: fresh_uuid(),
    }
}

fn granted(r: &Reader, channels: Vec<Uuid>) -> Vec<RelayReply> {
    let mut replies = read_gates(&r.tenant, r.caller);
    replies.push(RelayReply::Workflow(Ok(workflow_row(Some(r.channel), r.owner))));
    replies.push(RelayReply::Channels(Ok(channels)));
    replies
}

#[test]
fn a_channel_reader_gets_the_revision() {
    let r = reader();
    let start = workflow_revision(r.workflow, Some("relay.example".to_owned()), None);
    let mut replies = granted(&r, vec![fresh_uuid(), r.channel]);
    replies.push(RelayReply::Workflow(Ok(workflow_row(Some(r.channel), r.owner))));
    let state = asking(feed_read(start, replies));
    match state.action() {
        RelayAction::LoadEvent { community, id } => {
            assert_eq!(community, r.tenant.community());
            assert_eq!(id, [0x11; 32]);
        }
        other => panic!("{other:?}"),
    }
    let revision = event(EventId { bytes: [0x11; 32] });
    let stored = StoredEvent { event: revision.clone(), channel_id: None };
    match state.step(RelayReply::Event(Ok(Some(stored)))) {
        ReadStep::Answer(ReadAnswer::Revision(event)) => assert_eq!(event, revision),
        other => panic!("{other:?}"),
    }
}

#[test]
fn the_questions_of_a_read_follow_its_request() {
    let r = reader();
    let tag = Some("tag".to_owned());
    let start =
        workflow_runs(r.workflow, None, tag, Some("limit=5".to_owned()), RunsQuery::default());
    let state = asking(start);
    match state.action() {
        RelayAction::BindCommunity { host } => assert_eq!(host, ""),
        other => panic!("{other:?}"),
    }
    let state = asking(state.step(RelayReply::Community(Some(r.tenant.clone()))));
    match state.action() {
        RelayAction::VerifyAuth { tenant, method, path, body } => {
            assert_eq!(tenant.host, "relay.example");
            assert_eq!(method, Method::Get);
            assert!(body.is_none());
            assert_eq!(path, format!("/workflows/{}/runs?limit=5", r.workflow.to_string()));
        }
        other => panic!("{other:?}"),
    }
    let auth_event = Some(EventId { bytes: [9; 32] });
    let state = asking(state.step(RelayReply::Auth(Ok((r.caller, auth_event)))));
    assert!(matches!(state.action(), RelayAction::Admit { caller, .. } if caller == r.caller));
    let state = asking(state.step(RelayReply::Admission(Ok(()))));
    assert!(
        matches!(state.action(), RelayAction::CheckReplay { auth_event: e, .. } if e == auth_event)
    );
    let state = asking(state.step(RelayReply::Replay(Ok(()))));
    match state.action() {
        RelayAction::CheckMembership { community, caller, auth_tag } => {
            assert_eq!(community, r.tenant.community());
            assert_eq!(caller, r.caller);
            assert_eq!(auth_tag, Some("tag"));
        }
        other => panic!("{other:?}"),
    }
    let state = asking(state.step(RelayReply::Membership(Ok(()))));
    assert!(
        matches!(state.action(), RelayAction::LoadWorkflow { workflow_id, .. } if workflow_id == r.workflow)
    );
    let row = workflow_row(Some(r.channel), r.owner);
    let state = asking(state.step(RelayReply::Workflow(Ok(row))));
    assert!(
        matches!(state.action(), RelayAction::ListChannels { caller, .. } if caller == r.caller)
    );
    let state = asking(state.step(RelayReply::Channels(Ok(vec![r.channel]))));
    match state.action() {
        RelayAction::ListRuns { community, workflow_id, cursor, limit } => {
            assert_eq!(community, r.tenant.community());
            assert_eq!(workflow_id, r.workflow);
            assert!(cursor.is_none());
            assert_eq!(limit, 21);
        }
        other => panic!("{other:?}"),
    }
}

#[test]
fn the_paths_of_the_reads_are_signed() {
    let r = reader();
    let run_id = fresh_uuid();
    let id = r.workflow.to_string();
    for (start, expected) in [
        (workflow_revision(r.workflow, None, None), format!("/workflows/{id}/revision")),
        (
            run_approvals(r.workflow, run_id, None, None),
            format!("/workflows/{id}/runs/{}/approvals", run_id.to_string()),
        ),
    ] {
        let state = asking(feed_read(start, vec![RelayReply::Community(Some(r.tenant.clone()))]));
        match state.action() {
            RelayAction::VerifyAuth { path, .. } => assert_eq!(path, expected),
            other => panic!("{other:?}"),
        }
    }
}

#[test]
fn the_owner_gets_the_revision_and_nothing_else() {
    let mut r = reader();
    r.owner = r.caller;
    let start = workflow_revision(r.workflow, None, None);
    let state = asking(feed_read(start, granted(&r, vec![])));
    assert!(matches!(state, ReadState::ReloadWorkflow { .. }));

    let start = workflow_runs(r.workflow, None, None, None, RunsQuery::default());
    assert_eq!(
        refused(feed_read(start, granted(&r, vec![]))),
        api_error(STATUS_FORBIDDEN, "workflow is not accessible")
    );
}

#[test]
fn the_human_owner_of_the_agent_gets_the_revision() {
    let r = reader();
    let start = || workflow_revision(r.workflow, None, None);
    let state = asking(feed_read(start(), granted(&r, vec![])));
    match state.action() {
        RelayAction::CheckAgentOwner { community, agent, caller } => {
            assert_eq!(community, r.tenant.community());
            assert_eq!(agent, r.owner.bytes);
            assert_eq!(caller, r.caller);
        }
        other => panic!("{other:?}"),
    }
    assert!(matches!(
        asking(state.step(RelayReply::AgentOwner(Ok(true)))),
        ReadState::ReloadWorkflow { .. }
    ));
    let state = asking(feed_read(start(), granted(&r, vec![])));
    assert_eq!(
        refused(state.step(RelayReply::AgentOwner(Ok(false)))),
        api_error(STATUS_FORBIDDEN, "workflow is not accessible")
    );
    let state = asking(feed_read(start(), granted(&r, vec![])));
    assert_eq!(
        refused(state.step(RelayReply::AgentOwner(Err("down".to_owned())))),
        internal_error("workflow owner lookup: ", "down")
    );
}

#[test]
fn reads_are_refused_at_every_gate() {
    let r = reader();
    let start = || workflow_revision(r.workflow, None, None);
    let refusal = || api_error(401, "no");
    let gates = || read_gates(&r.tenant, r.caller);
    assert_eq!(
        refused(feed_read(start(), vec![RelayReply::Community(None)])),
        api_error(STATUS_NOT_FOUND, "relay: no community is configured for this host")
    );
    for (n, reply) in [
        (1, RelayReply::Auth(Err(refusal()))),
        (2, RelayReply::Admission(Err(refusal()))),
        (3, RelayReply::Replay(Err(refusal()))),
        (4, RelayReply::Membership(Err(refusal()))),
    ] {
        let mut replies: Vec<RelayReply> = gates().into_iter().take(n).collect();
        replies.push(reply);
        assert_eq!(refused(feed_read(start(), replies)), refusal());
    }
    for (reply, expected) in [
        (
            RelayReply::Workflow(Err(LookupError::NotFound("row".to_owned()))),
            api_error(STATUS_NOT_FOUND, "workflow not found"),
        ),
        (
            RelayReply::Workflow(Err(LookupError::Failed("down".to_owned()))),
            internal_error("get workflow for run read: ", "down"),
        ),
        (
            RelayReply::Workflow(Ok(workflow_row(None, r.owner))),
            api_error(STATUS_FORBIDDEN, "workflow is not channel-scoped"),
        ),
    ] {
        let mut replies = gates();
        replies.push(reply);
        assert_eq!(refused(feed_read(start(), replies)), expected);
    }
    let mut replies = gates();
    replies.push(RelayReply::Workflow(Ok(workflow_row(Some(r.channel), r.owner))));
    replies.push(RelayReply::Channels(Err("down".to_owned())));
    assert_eq!(
        refused(feed_read(start(), replies)),
        internal_error("workflow channel access lookup: ", "down")
    );
}

#[test]
fn a_revision_may_be_unavailable() {
    let r = reader();
    let with = |replies: Vec<RelayReply>| {
        let mut all = granted(&r, vec![r.channel]);
        all.extend(replies);
        refused(feed_read(workflow_revision(r.workflow, None, None), all))
    };
    let row = || RelayReply::Workflow(Ok(workflow_row(Some(r.channel), r.owner)));
    let unsigned = WorkflowRecord {
        definition_event_id: None,
        ..workflow_row(Some(r.channel), r.owner)
    };
    assert_eq!(
        with(vec![RelayReply::Workflow(Ok(unsigned))]),
        api_error(STATUS_CONFLICT, "owner-signed workflow revision is unavailable")
    );
    for error in [LookupError::NotFound("x".to_owned()), LookupError::Failed("x".to_owned())] {
        assert_eq!(
            with(vec![RelayReply::Workflow(Err(error))]),
            api_error(STATUS_NOT_FOUND, "workflow not found")
        );
    }
    assert_eq!(
        with(vec![row(), RelayReply::Event(Ok(None))]),
        api_error(STATUS_CONFLICT, "workflow revision is unavailable")
    );
    assert_eq!(
        with(vec![row(), RelayReply::Event(Err("down".to_owned()))]),
        internal_error("get workflow revision: ", "down")
    );
}

#[test]
fn a_page_of_runs_is_answered() {
    let r = reader();
    let query = || RunsQuery { before: None, before_id: None, limit: Some(1) };
    let start = workflow_runs(r.workflow, None, None, None, query());
    let mut replies = granted(&r, vec![r.channel]);
    let rows = vec![run(fresh_uuid(), r.workflow, None), run(fresh_uuid(), r.workflow, None)];
    let first = rows[0].id;
    replies.push(RelayReply::Runs(Ok(rows)));
    match feed_read(start, replies) {
        ReadStep::Answer(ReadAnswer::Runs(page)) => {
            assert_eq!(page.runs.len(), 1);
            assert_eq!(page.next.expect("more").before_id, first);
        }
        other => panic!("{other:?}"),
    }
    let start = workflow_runs(r.workflow, None, None, None, query());
    let mut replies = granted(&r, vec![r.channel]);
    replies.push(RelayReply::Runs(Err("down".to_owned())));
    assert_eq!(
        refused(feed_read(start, replies)),
        internal_error("list workflow runs: ", "down")
    );
    let bad = RunsQuery { before: None, before_id: None, limit: Some(0) };
    assert_eq!(
        refused(workflow_runs(r.workflow, None, None, None, bad)),
        api_error(STATUS_BAD_REQUEST, "limit must be between 1 and 100")
    );
}

#[test]
fn approvals_are_answered_for_a_run_of_the_workflow() {
    let r = reader();
    let run_id = fresh_uuid();
    let start = || run_approvals(r.workflow, run_id, None, None);
    let loaded = |reply: RelayReply| {
        let mut replies = granted(&r, vec![r.channel]);
        replies.push(reply);
        feed_read(start(), replies)
    };
    let state = asking(loaded(RelayReply::Run(Ok(run(run_id, r.workflow, None)))));
    match state.action() {
        RelayAction::ListApprovals { community, workflow_id, run_id: of } => {
            assert_eq!(community, r.tenant.community());
            assert_eq!((workflow_id, of), (r.workflow, run_id));
        }
        other => panic!("{other:?}"),
    }
    match state.step(RelayReply::Approvals(Ok(vec![approval()]))) {
        ReadStep::Answer(ReadAnswer::Approvals(approvals)) => assert_eq!(approvals.len(), 1),
        other => panic!("{other:?}"),
    }
    let gone = api_error(STATUS_NOT_FOUND, "workflow run not found");
    assert_eq!(refused(loaded(RelayReply::Run(Ok(run(run_id, fresh_uuid(), None))))), gone);
    assert_eq!(
        refused(loaded(RelayReply::Run(Err(LookupError::NotFound("row".to_owned()))))),
        gone
    );
    assert_eq!(
        refused(loaded(RelayReply::Run(Err(LookupError::Failed("down".to_owned()))))),
        internal_error("get workflow run for approval read: ", "down")
    );
    let state = asking(loaded(RelayReply::Run(Ok(run(run_id, r.workflow, None)))));
    assert_eq!(
        refused(state.step(RelayReply::Approvals(Err("down".to_owned())))),
        internal_error("list run approvals: ", "down")
    );
}

#[test]
fn a_reply_to_another_question_leaves_a_read_where_it_is() {
    let r = reader();
    let state = asking(workflow_revision(r.workflow, None, None));
    let state = asking(state.step(RelayReply::Membership(Ok(()))));
    assert!(matches!(state, ReadState::BindCommunity { .. }));
}

// The delivery endpoints.

struct Agent {
    tenant: TenantContext,
    key: PublicKey,
    delivery: WorkflowAgentDeliveryRecord,
    request: fn(&Agent) -> DeliveryBindingRequest,
    channel: Uuid,
}

fn request_of(agent: &Agent) -> DeliveryBindingRequest {
    let binding = &agent.delivery.binding;
    DeliveryBindingRequest {
        community_id: binding.community_id.as_uuid(),
        workflow_id: binding.workflow_id,
        run_id: binding.run_id,
        step_id: binding.step_id.clone(),
        target_pubkey: binding.target_pubkey.to_hex(),
        definition_event_id: binding.definition_event_id.to_hex(),
        message_event_id: binding.message_event_id.to_hex(),
        cause: DeliveryCauseRequest::Schedule { scheduled_for_unix_seconds: 5 },
    }
}

fn agent() -> Agent {
    let (mut delivery, lease) = claimed_delivery();
    delivery.binding.cause = WorkflowDeliveryCause::Schedule { scheduled_for_unix_seconds: 5 };
    Agent {
        tenant: TenantContext::resolved(lease.community_id, "relay.example"),
        key: lease.target_pubkey,
        delivery,
        request: request_of,
        channel: fresh_uuid(),
    }
}

fn copy(delivery: &WorkflowAgentDeliveryRecord) -> WorkflowAgentDeliveryRecord {
    WorkflowAgentDeliveryRecord {
        id: delivery.id,
        binding: delivery.binding.clone(),
        status: delivery.status,
        lease_generation: delivery.lease_generation,
        lease_until: delivery.lease_until,
    }
}

fn agent_gates(a: &Agent) -> Vec<RelayReply> {
    let mut replies = read_gates(&a.tenant, a.key);
    replies.push(RelayReply::Agent(Ok(Some(AgentPolicy { owner: Some(fresh_key()) }))));
    replies
}

const NOW: Timestamp = Timestamp { seconds: 50, nanos: 0 };

fn feed(step: DeliveryStep, replies: Vec<RelayReply>) -> DeliveryStep {
    let mut step = step;
    for reply in replies {
        step = match step {
            DeliveryStep::Ask(state) => state.step(reply, NOW),
            done => panic!("a reply too many after {done:?}"),
        };
    }
    step
}

fn waiting(step: DeliveryStep) -> DeliveryState {
    match step {
        DeliveryStep::Ask(state) => state,
        done => panic!("done: {done:?}"),
    }
}

fn denied(step: DeliveryStep) -> ApiError {
    match step {
        DeliveryStep::Refuse(error) => error,
        other => panic!("not refused: {other:?}"),
    }
}

fn not_found() -> ApiError {
    api_error(STATUS_NOT_FOUND, "delivery not found")
}

fn not_current() -> ApiError {
    api_error(STATUS_CONFLICT, "delivery lease is not current")
}

fn unavailable() -> ApiError {
    api_error(STATUS_CONFLICT, "delivery binding is unavailable")
}

fn message_row(a: &Agent, channel: Option<Uuid>) -> RelayReply {
    let stored =
        StoredEvent { event: event(a.delivery.binding.message_event_id), channel_id: channel };
    RelayReply::Event(Ok(Some(stored)))
}

fn channel_replies(a: &Agent) -> Vec<RelayReply> {
    vec![
        message_row(a, Some(a.channel)),
        RelayReply::Workflow(Ok(workflow_row(Some(a.channel), fresh_key()))),
    ]
}

fn response_replies(a: &Agent) -> Vec<RelayReply> {
    let binding = &a.delivery.binding;
    let row = run(binding.run_id, binding.workflow_id, Some(vec![0x11; 32]));
    let definition =
        StoredEvent { event: event(binding.definition_event_id), channel_id: Some(a.channel) };
    vec![
        RelayReply::Run(Ok(row)),
        RelayReply::Event(Ok(Some(definition))),
        message_row(a, Some(a.channel)),
        RelayReply::Receipt(Ok(Some(receipt()))),
    ]
}

fn receipt() -> Event {
    event(EventId { bytes: [0x77; 32] })
}

fn id_of(a: &Agent) -> Uuid {
    a.delivery.id.as_uuid()
}

fn read_body(a: &Agent) -> RelayReply {
    RelayReply::ReadBody(Some(DeliveryLeaseRequest {
        lease_generation: 4,
        binding: (a.request)(a),
    }))
}

fn renew_body(a: &Agent, lease_seconds: i64) -> RelayReply {
    RelayReply::RenewBody(Some(RenewDeliveryRequest {
        lease_generation: 4,
        binding: (a.request)(a),
        lease_seconds,
    }))
}

fn finish_body(a: &Agent, disposition: DeliveryDisposition) -> RelayReply {
    RelayReply::FinishBody(Some(FinishDeliveryRequest {
        lease_generation: 4,
        binding: (a.request)(a),
        disposition,
    }))
}

fn loaded(a: &Agent) -> RelayReply {
    RelayReply::Delivery(Ok(Some(copy(&a.delivery))))
}

fn claim_body(delivery_id: Option<Uuid>, expected: Option<DeliveryBindingRequest>) -> RelayReply {
    RelayReply::ClaimBody(Some(ClaimDeliveryRequest { delivery_id, expected, lease_seconds: 60 }))
}

fn lease_of(a: &Agent) -> WorkflowDeliveryLease {
    WorkflowDeliveryLease {
        community_id: a.tenant.community(),
        delivery_id: a.delivery.id,
        target_pubkey: a.key,
        lease_generation: 4,
        lease_until: at(100),
    }
}

#[test]
fn an_agent_claims_the_oldest_pending_delivery() {
    let a = agent();
    let mut replies = agent_gates(&a);
    replies.push(claim_body(None, None));
    let state = waiting(feed(claim_agent_delivery(None, None, vec![]), replies));
    match state.action() {
        RelayAction::ClaimDelivery { community, target, wanted, expected, lease_seconds } => {
            assert_eq!(community, a.tenant.community());
            assert_eq!(target, a.key);
            assert!(wanted.is_none() && expected.is_none());
            assert_eq!(lease_seconds, 60);
        }
        other => panic!("{other:?}"),
    }
    let mut rest = vec![RelayReply::Claimed(Ok(Some((lease_of(&a), copy(&a.delivery)))))];
    rest.extend(response_replies(&a));
    match feed(DeliveryStep::Ask(state), rest) {
        DeliveryStep::Answer(DeliveryAnswer::Delivery {
            delivery,
            held,
            definition,
            message,
            receipt: signed,
        }) => {
            assert_eq!(delivery.id, a.delivery.id);
            assert_eq!(held.lease_until, at(100));
            assert_eq!(definition.id, a.delivery.binding.definition_event_id);
            assert_eq!(message.id, a.delivery.binding.message_event_id);
            assert_eq!(signed, receipt());
        }
        other => panic!("{other:?}"),
    }
}

#[test]
fn an_expected_binding_is_checked_before_the_claim() {
    let a = agent();
    let mut replies = agent_gates(&a);
    replies.push(claim_body(Some(id_of(&a)), Some((a.request)(&a))));
    let state = waiting(feed(claim_agent_delivery(None, None, vec![]), replies));
    match state.action() {
        RelayAction::LoadEvent { community, id } => {
            assert_eq!(community, a.tenant.community());
            assert_eq!(id, [0x22; 32]);
        }
        other => panic!("{other:?}"),
    }
    let state = waiting(feed(DeliveryStep::Ask(state), channel_replies(&a)));
    match state.action() {
        RelayAction::ClaimDelivery { wanted, expected, .. } => {
            assert_eq!(wanted, Some(a.delivery.id));
            assert_eq!(expected, Some(&a.delivery.binding));
        }
        other => panic!("{other:?}"),
    }
}

#[test]
fn claims_are_refused() {
    let a = agent();
    let claim = |reply: RelayReply| {
        let mut replies = agent_gates(&a);
        replies.push(reply);
        feed(claim_agent_delivery(None, None, vec![]), replies)
    };
    assert_eq!(
        denied(claim(RelayReply::ClaimBody(None))),
        api_error(STATUS_BAD_REQUEST, "invalid delivery claim JSON")
    );
    assert_eq!(
        denied(claim(RelayReply::ClaimBody(Some(ClaimDeliveryRequest {
            delivery_id: None,
            expected: Some((a.request)(&a)),
            lease_seconds: 14,
        })))),
        api_error(STATUS_BAD_REQUEST, "lease_seconds must be between 15 and 300")
    );
    assert_eq!(
        denied(claim(claim_body(None, Some((a.request)(&a))))),
        api_error(STATUS_BAD_REQUEST, "expected binding requires delivery_id")
    );
    let mut foreign = (a.request)(&a);
    foreign.community_id = fresh_uuid();
    assert_eq!(denied(claim(claim_body(Some(id_of(&a)), Some(foreign)))), not_found());
    let claimed = |reply: RelayReply| feed(claim(claim_body(None, None)), vec![reply]);
    assert_eq!(denied(claimed(RelayReply::Claimed(Ok(None)))), not_found());
    assert_eq!(
        denied(claimed(RelayReply::Claimed(Err("down".to_owned())))),
        internal_error("claim workflow delivery: ", "down")
    );
    let mut stolen = copy(&a.delivery);
    stolen.binding.target_pubkey = fresh_key();
    assert_eq!(
        denied(claimed(RelayReply::Claimed(Ok(Some((lease_of(&a), stolen)))))),
        not_found()
    );
}

#[test]
fn agents_are_refused_at_every_gate() {
    let a = agent();
    let start = || claim_agent_delivery(None, None, vec![]);
    assert_eq!(denied(feed(start(), vec![RelayReply::Community(None)])), not_found());
    let refusal = || api_error(401, "no");
    for (n, reply, expected) in [
        (1, RelayReply::Auth(Err(refusal())), refusal()),
        (2, RelayReply::Admission(Err(refusal())), refusal()),
        (3, RelayReply::Replay(Err(refusal())), refusal()),
        (4, RelayReply::Membership(Err(refusal())), refusal()),
        (5, RelayReply::Agent(Ok(None)), not_found()),
        (5, RelayReply::Agent(Ok(Some(AgentPolicy { owner: None }))), not_found()),
        (
            5,
            RelayReply::Agent(Err("down".to_owned())),
            internal_error("delivery target lookup: ", "down"),
        ),
    ] {
        let mut replies: Vec<RelayReply> = agent_gates(&a).into_iter().take(n).collect();
        replies.push(reply);
        assert_eq!(denied(feed(start(), replies)), expected);
    }
}

#[test]
fn the_paths_of_the_deliveries_are_signed() {
    let a = agent();
    let id = id_of(&a);
    let text = id.to_string();
    for (start, expected) in [
        (claim_agent_delivery(None, None, vec![]), "/workflows/agent-deliveries/claim".to_owned()),
        (
            read_agent_delivery(id, None, None, vec![]),
            format!("/workflows/agent-deliveries/{text}/read"),
        ),
        (
            renew_agent_delivery(id, None, None, vec![]),
            format!("/workflows/agent-deliveries/{text}/renew"),
        ),
        (
            finish_agent_delivery(id, None, None, vec![]),
            format!("/workflows/agent-deliveries/{text}/finish"),
        ),
    ] {
        let state = waiting(feed(start, vec![RelayReply::Community(Some(a.tenant.clone()))]));
        match state.action() {
            RelayAction::VerifyAuth { method, path, .. } => {
                assert_eq!(method, Method::Post);
                assert_eq!(path, expected);
            }
            other => panic!("{other:?}"),
        }
    }
}

#[test]
fn the_holder_of_the_live_lease_reads_its_delivery() {
    let a = agent();
    let mut replies = agent_gates(&a);
    replies.push(read_body(&a));
    replies.push(loaded(&a));
    replies.extend(channel_replies(&a));
    replies.extend(response_replies(&a));
    match feed(read_agent_delivery(id_of(&a), None, None, vec![]), replies) {
        DeliveryStep::Answer(DeliveryAnswer::Delivery { delivery, held, .. }) => {
            assert_eq!(delivery.id, a.delivery.id);
            assert_eq!(held.lease_generation, 4);
            assert_eq!(held.lease_until, NOW);
        }
        other => panic!("{other:?}"),
    }
}

#[test]
fn a_lease_that_is_not_current_shows_nothing() {
    let mut stale = agent();
    stale.delivery.lease_generation = 5;
    let mut expired = agent();
    expired.delivery.lease_until = Some(at(49));
    let mut settled = agent();
    settled.delivery.status = WorkflowDeliveryStatus::Finished;
    for a in [stale, expired, settled] {
        let mut replies = agent_gates(&a);
        replies.push(read_body(&a));
        replies.push(loaded(&a));
        assert_eq!(
            denied(feed(read_agent_delivery(id_of(&a), None, None, vec![]), replies)),
            not_current()
        );
    }
    let a = agent();
    let mut other = copy(&a.delivery);
    other.binding.step_id = "other".to_owned();
    for (reply, expected) in [
        (RelayReply::Delivery(Ok(Some(other))), not_current()),
        (RelayReply::Delivery(Ok(None)), not_found()),
        (
            RelayReply::Delivery(Err("down".to_owned())),
            internal_error("read workflow delivery: ", "down"),
        ),
    ] {
        let mut replies = agent_gates(&a);
        replies.push(read_body(&a));
        replies.push(reply);
        assert_eq!(
            denied(feed(read_agent_delivery(id_of(&a), None, None, vec![]), replies)),
            expected
        );
    }
}

#[test]
fn a_lease_needs_the_whole_binding_of_the_sender() {
    let a = agent();
    let refuse = |change: &dyn Fn(&mut DeliveryBindingRequest)| {
        let mut binding = (a.request)(&a);
        change(&mut binding);
        let mut replies = agent_gates(&a);
        replies.push(RelayReply::ReadBody(Some(DeliveryLeaseRequest {
            lease_generation: 4,
            binding,
        })));
        replies.push(loaded(&a));
        denied(feed(read_agent_delivery(id_of(&a), None, None, vec![]), replies))
    };
    assert_eq!(refuse(&|r| r.community_id = fresh_uuid()), not_found());
    assert_eq!(refuse(&|r| r.target_pubkey = fresh_key().to_hex()), not_found());
    assert_eq!(refuse(&|r| r.run_id = fresh_uuid()), not_current());
    assert_eq!(
        refuse(&|r| r.cause = DeliveryCauseRequest::Webhook { invocation_id: fresh_uuid() }),
        not_current()
    );
    assert_eq!(
        refuse(&|r| r.message_event_id = "zz".to_owned()),
        api_error(STATUS_BAD_REQUEST, "invalid message_event_id")
    );
}

#[test]
fn the_message_and_the_workflow_share_a_channel() {
    let a = agent();
    let refuse = |rest: Vec<RelayReply>| {
        let mut replies = agent_gates(&a);
        replies.push(read_body(&a));
        replies.push(loaded(&a));
        replies.extend(rest);
        denied(feed(read_agent_delivery(id_of(&a), None, None, vec![]), replies))
    };
    let message = || message_row(&a, Some(a.channel));
    assert_eq!(refuse(vec![RelayReply::Event(Ok(None))]), not_found());
    assert_eq!(refuse(vec![message_row(&a, None)]), not_found());
    assert_eq!(
        refuse(vec![RelayReply::Event(Err("down".to_owned()))]),
        internal_error("delivery message lookup: ", "down")
    );
    for workflow in [
        Ok(workflow_row(Some(fresh_uuid()), fresh_key())),
        Ok(workflow_row(None, fresh_key())),
        Err(LookupError::NotFound("row".to_owned())),
        Err(LookupError::Failed("down".to_owned())),
    ] {
        assert_eq!(refuse(vec![message(), RelayReply::Workflow(workflow)]), not_found());
    }
}

#[test]
fn a_response_needs_the_run_both_events_and_the_receipt() {
    let a = agent();
    let binding = a.delivery.binding.clone();
    let refuse = |n: usize, reply: RelayReply| {
        let mut replies = agent_gates(&a);
        replies.push(read_body(&a));
        replies.push(loaded(&a));
        replies.extend(channel_replies(&a));
        replies.extend(response_replies(&a).into_iter().take(n));
        replies.push(reply);
        denied(feed(read_agent_delivery(id_of(&a), None, None, vec![]), replies))
    };
    let other = run(binding.run_id, fresh_uuid(), Some(vec![0x11; 32]));
    assert_eq!(refuse(0, RelayReply::Run(Ok(other))), unavailable());
    for error in [LookupError::NotFound("x".to_owned()), LookupError::Failed("x".to_owned())] {
        assert_eq!(
            refuse(0, RelayReply::Run(Err(error))),
            internal_error("delivery run lookup: ", "x")
        );
    }
    assert_eq!(refuse(1, RelayReply::Event(Ok(None))), unavailable());
    assert_eq!(
        refuse(1, RelayReply::Event(Err("x".to_owned()))),
        internal_error("delivery definition lookup: ", "x")
    );
    assert_eq!(refuse(2, RelayReply::Event(Ok(None))), unavailable());
    assert_eq!(
        refuse(2, RelayReply::Event(Err("x".to_owned()))),
        internal_error("delivery message lookup: ", "x")
    );
    assert_eq!(refuse(3, RelayReply::Receipt(Ok(None))), unavailable());
    assert_eq!(
        refuse(3, RelayReply::Receipt(Err("x".to_owned()))),
        internal_error("delivery receipt: ", "x")
    );
}

#[test]
fn the_artifacts_are_asked_for_by_the_binding() {
    let a = agent();
    let binding = &a.delivery.binding;
    let mut replies = agent_gates(&a);
    replies.push(read_body(&a));
    replies.push(loaded(&a));
    replies.extend(channel_replies(&a));
    let mut state = waiting(feed(read_agent_delivery(id_of(&a), None, None, vec![]), replies));
    let mut response = response_replies(&a).into_iter();
    match state.action() {
        RelayAction::LoadRun { community, run_id } => {
            assert_eq!(community, a.tenant.community());
            assert_eq!(run_id, binding.run_id);
        }
        other => panic!("{other:?}"),
    }
    for wanted in [binding.definition_event_id, binding.message_event_id] {
        state = waiting(state.step(response.next().expect("a reply"), NOW));
        match state.action() {
            RelayAction::LoadEvent { community, id } => {
                assert_eq!(community, a.tenant.community());
                assert_eq!(id, wanted.bytes);
            }
            other => panic!("{other:?}"),
        }
    }
    state = waiting(state.step(response.next().expect("a reply"), NOW));
    match state.action() {
        RelayAction::IssueReceipt { community, delivery_id, binding: of, message } => {
            assert_eq!(community, a.tenant.community());
            assert_eq!(delivery_id, a.delivery.id);
            assert_eq!(of, binding);
            assert_eq!(*message, event(binding.message_event_id));
        }
        other => panic!("{other:?}"),
    }
}

#[test]
fn the_bytes_that_are_read_are_those_that_were_signed() {
    let a = agent();
    let bytes = vec![b'{', b'}', 0x00, 0xff];
    let start = claim_agent_delivery(None, None, bytes.clone());
    let state = waiting(feed(start, vec![RelayReply::Community(Some(a.tenant.clone()))]));
    match state.action() {
        RelayAction::VerifyAuth { body, .. } => assert_eq!(body, Some(bytes.as_slice())),
        other => panic!("{other:?}"),
    }
    let rest = agent_gates(&a).into_iter().skip(1).collect();
    let state = waiting(feed(DeliveryStep::Ask(state), rest));
    match state.action() {
        RelayAction::ReadBody { bytes: read } => assert_eq!(read, bytes.as_slice()),
        other => panic!("{other:?}"),
    }
}

#[test]
fn a_live_lease_is_renewed() {
    let a = agent();
    let renewing = || {
        let mut replies = agent_gates(&a);
        replies.push(renew_body(&a, 120));
        replies.push(loaded(&a));
        replies.extend(channel_replies(&a));
        waiting(feed(renew_agent_delivery(id_of(&a), None, None, vec![]), replies))
    };
    match renewing().action() {
        RelayAction::RenewLease { lease, lease_seconds } => {
            assert_eq!(lease.delivery_id, a.delivery.id);
            assert_eq!(lease.target_pubkey, a.key);
            assert_eq!((lease.lease_generation, lease_seconds), (4, 120));
        }
        other => panic!("{other:?}"),
    }
    match renewing().step(RelayReply::Renewed(Ok(RenewOutcome::Renewed(at(170)))), NOW) {
        DeliveryStep::Answer(DeliveryAnswer::Renewed { lease_until }) => {
            assert_eq!(lease_until, at(170))
        }
        other => panic!("{other:?}"),
    }
    assert_eq!(
        denied(renewing().step(RelayReply::Renewed(Ok(RenewOutcome::LeaseLost)), NOW)),
        not_current()
    );
    assert_eq!(
        denied(renewing().step(RelayReply::Renewed(Err("x".to_owned())), NOW)),
        internal_error("renew workflow delivery: ", "x")
    );
    let mut replies = agent_gates(&a);
    replies.push(renew_body(&a, 301));
    assert_eq!(
        denied(feed(renew_agent_delivery(id_of(&a), None, None, vec![]), replies)),
        api_error(STATUS_BAD_REQUEST, "lease_seconds must be between 15 and 300")
    );
}

#[test]
fn a_delivery_is_settled_once_and_replays_only_alike() {
    let mut a = agent();
    a.delivery.status = WorkflowDeliveryStatus::Failed;
    a.delivery.lease_until = None;
    let settling = || {
        let mut replies = agent_gates(&a);
        replies.push(finish_body(&a, DeliveryDisposition::Failed));
        replies.push(loaded(&a));
        replies.extend(channel_replies(&a));
        waiting(feed(finish_agent_delivery(id_of(&a), None, None, vec![]), replies))
    };
    match settling().action() {
        RelayAction::FinishDelivery { lease, outcome } => {
            assert_eq!(lease.delivery_id, a.delivery.id);
            assert_eq!(outcome, WorkflowDeliveryOutcome::Failed);
        }
        other => panic!("{other:?}"),
    }
    let outcome = |finished: FinishOutcome| settling().step(RelayReply::Finished(Ok(finished)), NOW);
    assert!(matches!(
        outcome(FinishOutcome::Settled),
        DeliveryStep::Answer(DeliveryAnswer::Finished { replayed: false })
    ));
    assert!(matches!(
        outcome(FinishOutcome::AlreadyTerminal(WorkflowDeliveryStatus::Failed)),
        DeliveryStep::Answer(DeliveryAnswer::Finished { replayed: true })
    ));
    assert_eq!(
        denied(outcome(FinishOutcome::AlreadyTerminal(WorkflowDeliveryStatus::Finished))),
        not_current()
    );
    assert_eq!(denied(outcome(FinishOutcome::LeaseLost)), not_current());
    assert_eq!(
        denied(settling().step(RelayReply::Finished(Err("x".to_owned())), NOW)),
        internal_error("finish workflow delivery: ", "x")
    );
}

#[test]
fn bodies_that_are_not_the_endpoints_are_refused() {
    let a = agent();
    let id = id_of(&a);
    for (start, reply, message) in [
        (
            read_agent_delivery(id, None, None, vec![]),
            RelayReply::ReadBody(None),
            "invalid delivery read JSON",
        ),
        (
            renew_agent_delivery(id, None, None, vec![]),
            RelayReply::RenewBody(None),
            "invalid delivery renewal JSON",
        ),
        (
            finish_agent_delivery(id, None, None, vec![]),
            RelayReply::FinishBody(None),
            "invalid delivery finish JSON",
        ),
    ] {
        let mut replies = agent_gates(&a);
        replies.push(reply);
        assert_eq!(denied(feed(start, replies)), api_error(STATUS_BAD_REQUEST, message));
    }
}

#[test]
fn a_reply_to_another_question_leaves_a_delivery_where_it_is() {
    let a = agent();
    let state = waiting(feed(claim_agent_delivery(None, None, vec![]), agent_gates(&a)));
    let state = waiting(state.step(read_body(&a), NOW));
    assert!(matches!(state, DeliveryState::ReadBody { .. }));
    assert!(matches!(state.action(), RelayAction::ReadBody { .. }));
}
