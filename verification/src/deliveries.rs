//! The endpoints through which a managed agent claims, reads, renews and settles
//! its deliveries.
//!
//! Each endpoint is a machine. Its state says which question to a service comes
//! next; the reply takes it to the next state, to an answer, or to a refusal. A
//! reply to another question than the one asked leaves the state as it is.

use vstd::prelude::*;

use crate::event::{Event, EventId, PublicKey};
use crate::ids::{law_uuid_texts_tell_uuids_apart, uuid_text, TenantContext, Uuid};
use crate::relay_io::{
    cleared, cleared_by, host_bound, request_signed, AgentPolicy, FinishOutcome, LookupError,
    Method, Question, RelayAction, RelayReply, RenewOutcome, RequestView,
};
use crate::run_reads::event_loaded;
use crate::text::{host_or_empty, host_text, text_in, text_ref};
use crate::workflow_api::{
    api_error, delivery_is_callers, failure, internal_error, is_callers_delivery, is_lease_current,
    is_run_of_binding, law_leases_are_of_15_to_300_seconds,
    law_requested_binding_is_what_the_request_says, lease_for, lease_is_current, lease_verdict,
    parse_delivery_binding, presented_lease, refusal, request_denotes, requested_binding,
    run_agrees, settled_as, terminal_matches, validate_lease_seconds, ApiError,
    ClaimDeliveryRequest, DeliveryBindingRequest, DeliveryDisposition, ErrorView,
    FinishDeliveryRequest, RenewDeliveryRequest, StoredEvent, Timestamp,
    WorkflowAgentDeliveryRecord, WorkflowDeliveryLease, WorkflowDeliveryOutcome,
    WorkflowDeliveryStatus, WorkflowRecord, WorkflowRunRecord, STATUS_BAD_REQUEST, STATUS_CONFLICT,
    STATUS_NOT_FOUND,
};
use crate::workflow_delivery::{WorkflowDeliveryBinding, WorkflowDeliveryId};

verus! {

/// What an agent asks for.
#[derive(Clone, Copy, Debug)]
pub enum DeliveryEndpoint {
    /// To claim a delivery.
    Claim,
    /// To read the delivery it holds.
    Read { delivery_id: WorkflowDeliveryId },
    /// To extend its lease.
    Renew { delivery_id: WorkflowDeliveryId },
    /// To settle the delivery.
    Finish { delivery_id: WorkflowDeliveryId },
}

/// A request of an agent.
#[derive(Debug)]
pub struct DeliveryCall {
    /// The host that the request names, where it names one in plain text.
    pub host: Option<String>,
    /// The membership tag that the request carries.
    pub auth_tag: Option<String>,
    pub endpoint: DeliveryEndpoint,
    pub body: Vec<u8>,
}

/// What a lease is presented for.
#[derive(Clone, Copy, Debug)]
pub enum LeaseIntent {
    Read,
    Renew { lease_seconds: i64 },
    Finish { disposition: DeliveryDisposition },
}

impl LeaseIntent {
    /// Only a live claim reads or renews; settling is left to the fence.
    pub open spec fn requires_live_claim(self) -> bool {
        self !is Finish
    }

    /// Only a live claim reads or renews.
    pub fn needs_live_claim(self) -> (r: bool)
        ensures
            r == self.requires_live_claim(),
    {
        match self {
            LeaseIntent::Read => true,
            LeaseIntent::Renew { lease_seconds: _ } => true,
            LeaseIntent::Finish { disposition: _ } => false,
        }
    }
}

/// A lease that is presented, and what for.
#[derive(Clone, Copy, Debug)]
pub struct LeaseCall {
    pub delivery_id: WorkflowDeliveryId,
    pub lease_generation: i64,
    pub intent: LeaseIntent,
}

/// What a binding is checked for.
#[derive(Debug)]
pub enum Purpose {
    /// A claim of a delivery with this binding.
    Claim { wanted: Option<WorkflowDeliveryId>, lease_seconds: i64 },
    /// A lease on a delivery with this binding.
    Lease { call: LeaseCall, delivery: WorkflowAgentDeliveryRecord },
}

/// How far a request of an agent has come.
#[derive(Debug)]
pub enum DeliveryState {
    BindCommunity { call: DeliveryCall },
    VerifyAuth { call: DeliveryCall, tenant: TenantContext },
    Admit {
        call: DeliveryCall,
        tenant: TenantContext,
        caller: PublicKey,
        auth_event: Option<EventId>,
    },
    CheckReplay {
        call: DeliveryCall,
        tenant: TenantContext,
        caller: PublicKey,
        auth_event: Option<EventId>,
    },
    CheckMembership {
        call: DeliveryCall,
        tenant: TenantContext,
        caller: PublicKey,
        auth_event: Option<EventId>,
    },
    LookUpAgent { call: DeliveryCall, tenant: TenantContext, caller: PublicKey },
    ReadBody { call: DeliveryCall, tenant: TenantContext, caller: PublicKey },
    LoadDelivery {
        tenant: TenantContext,
        caller: PublicKey,
        lease: LeaseCall,
        requested: DeliveryBindingRequest,
    },
    LoadMessage {
        tenant: TenantContext,
        caller: PublicKey,
        purpose: Purpose,
        binding: WorkflowDeliveryBinding,
    },
    LoadWorkflow {
        tenant: TenantContext,
        caller: PublicKey,
        purpose: Purpose,
        binding: WorkflowDeliveryBinding,
        channel_id: Uuid,
    },
    ClaimDelivery {
        tenant: TenantContext,
        caller: PublicKey,
        wanted: Option<WorkflowDeliveryId>,
        expected: Option<WorkflowDeliveryBinding>,
        lease_seconds: i64,
    },
    RenewLease { held: WorkflowDeliveryLease, lease_seconds: i64 },
    FinishDelivery { held: WorkflowDeliveryLease, disposition: DeliveryDisposition },
    LoadRun {
        tenant: TenantContext,
        held: WorkflowDeliveryLease,
        delivery: WorkflowAgentDeliveryRecord,
    },
    LoadDefinition {
        tenant: TenantContext,
        held: WorkflowDeliveryLease,
        delivery: WorkflowAgentDeliveryRecord,
    },
    LoadVisibleMessage {
        tenant: TenantContext,
        held: WorkflowDeliveryLease,
        delivery: WorkflowAgentDeliveryRecord,
        definition: Event,
    },
    IssueReceipt {
        tenant: TenantContext,
        held: WorkflowDeliveryLease,
        delivery: WorkflowAgentDeliveryRecord,
        definition: Event,
        message: Event,
    },
}

/// What an agent is answered.
#[derive(Debug)]
pub enum DeliveryAnswer {
    /// The delivery, the lease it is held under, and its signed public artifacts:
    /// the definition, the visible message, and the relay's receipt.
    Delivery {
        delivery: WorkflowAgentDeliveryRecord,
        held: WorkflowDeliveryLease,
        definition: Event,
        message: Event,
        receipt: Event,
    },
    /// The lease now ends then.
    Renewed { lease_until: Timestamp },
    /// The delivery is settled; it was before where this is a replay.
    Finished { replayed: bool },
}

/// What comes of a reply.
#[derive(Debug)]
pub enum DeliveryStep {
    /// The next question.
    Ask(DeliveryState),
    /// The answer to the request.
    Answer(DeliveryAnswer),
    /// No answer.
    Refuse(ApiError),
}

/// What a step comes to.
pub enum DeliveryStepView {
    Ask(DeliveryState),
    Answer(DeliveryAnswer),
    Refuse(ErrorView),
}

impl View for DeliveryStep {
    type V = DeliveryStepView;

    open spec fn view(&self) -> DeliveryStepView {
        match *self {
            DeliveryStep::Ask(state) => DeliveryStepView::Ask(state),
            DeliveryStep::Answer(answer) => DeliveryStepView::Answer(answer),
            DeliveryStep::Refuse(error) => DeliveryStepView::Refuse(error@),
        }
    }
}

/// A request for something that is not there, or not the caller's to know of.
pub open spec fn not_found() -> DeliveryStepView {
    DeliveryStepView::Refuse(refusal(STATUS_NOT_FOUND, "delivery not found"@))
}

/// A lease that was lost or never held.
pub open spec fn not_current() -> DeliveryStepView {
    DeliveryStepView::Refuse(refusal(STATUS_CONFLICT, "delivery lease is not current"@))
}

/// A delivery whose run or events are gone.
pub open spec fn unavailable() -> DeliveryStepView {
    DeliveryStepView::Refuse(refusal(STATUS_CONFLICT, "delivery binding is unavailable"@))
}

/// A body that is not the endpoint's.
pub open spec fn bad_body(message: Seq<char>) -> DeliveryStepView {
    DeliveryStepView::Refuse(refusal(STATUS_BAD_REQUEST, message))
}

/// The identifier of a UUID.
pub open spec fn wanted_id(id: Option<Uuid>) -> Option<WorkflowDeliveryId> {
    match id {
        Some(id) => Some(WorkflowDeliveryId { id }),
        None => None,
    }
}

/// Where a claim goes on: straight to the claim, or first to the channel of the
/// binding that it expects.
pub open spec fn claim_requested(
    tenant: TenantContext,
    caller: PublicKey,
    request: ClaimDeliveryRequest,
) -> DeliveryStepView {
    match lease_verdict(request.lease_seconds) {
        Err(error) => DeliveryStepView::Refuse(error),
        Ok(lease_seconds) => match request.expected {
            None => DeliveryStepView::Ask(
                DeliveryState::ClaimDelivery {
                    tenant,
                    caller,
                    wanted: wanted_id(request.delivery_id),
                    expected: None,
                    lease_seconds,
                },
            ),
            Some(expected) => if request.delivery_id is None {
                bad_body("expected binding requires delivery_id"@)
            } else {
                match requested_binding(expected, tenant.community_id, caller) {
                    Err(error) => DeliveryStepView::Refuse(error),
                    Ok(binding) => DeliveryStepView::Ask(
                        DeliveryState::LoadMessage {
                            tenant,
                            caller,
                            purpose: Purpose::Claim {
                                wanted: wanted_id(request.delivery_id),
                                lease_seconds,
                            },
                            binding,
                        },
                    ),
                }
            },
        },
    }
}

/// Where a presented lease goes on once the delivery's row is there. Only a
/// lease that is current leads on to the message.
pub open spec fn lease_presented(
    tenant: TenantContext,
    caller: PublicKey,
    call: LeaseCall,
    requested: DeliveryBindingRequest,
    delivery: WorkflowAgentDeliveryRecord,
    now: Timestamp,
) -> DeliveryStepView {
    match requested_binding(requested, tenant.community_id, caller) {
        Err(error) => DeliveryStepView::Refuse(error),
        Ok(binding) => if lease_is_current(
            delivery,
            binding,
            call.lease_generation,
            call.intent.requires_live_claim(),
            now,
        ) {
            DeliveryStepView::Ask(
                DeliveryState::LoadMessage {
                    tenant,
                    caller,
                    purpose: Purpose::Lease { call, delivery },
                    binding,
                },
            )
        } else {
            not_current()
        },
    }
}

/// Where a request goes on once the binding's channel is the workflow's.
pub open spec fn channel_agreed(
    tenant: TenantContext,
    caller: PublicKey,
    purpose: Purpose,
    binding: WorkflowDeliveryBinding,
    now: Timestamp,
) -> DeliveryStepView {
    match purpose {
        Purpose::Claim { wanted, lease_seconds } => DeliveryStepView::Ask(
            DeliveryState::ClaimDelivery {
                tenant,
                caller,
                wanted,
                expected: Some(binding),
                lease_seconds,
            },
        ),
        Purpose::Lease { call, delivery } => {
            let held = presented_lease(
                tenant.community_id,
                caller,
                call.delivery_id,
                call.lease_generation,
                now,
            );
            match call.intent {
                LeaseIntent::Read => delivery_held(tenant, caller, held, delivery),
                LeaseIntent::Renew { lease_seconds } => DeliveryStepView::Ask(
                    DeliveryState::RenewLease { held, lease_seconds },
                ),
                LeaseIntent::Finish { disposition } => DeliveryStepView::Ask(
                    DeliveryState::FinishDelivery { held, disposition },
                ),
            }
        },
    }
}

/// Where a delivery goes on that is to be answered: only its target gets it.
pub open spec fn delivery_held(
    tenant: TenantContext,
    caller: PublicKey,
    held: WorkflowDeliveryLease,
    delivery: WorkflowAgentDeliveryRecord,
) -> DeliveryStepView {
    if delivery_is_callers(delivery, held, tenant.community_id, caller) {
        DeliveryStepView::Ask(DeliveryState::LoadRun { tenant, held, delivery })
    } else {
        not_found()
    }
}

/// The step that a reply, which came at this instant, leads to.
pub open spec fn delivery_step(
    state: DeliveryState,
    reply: RelayReply,
    now: Timestamp,
) -> DeliveryStepView {
    match (state, reply) {
        (DeliveryState::BindCommunity { call }, RelayReply::Community(bound)) => match bound {
            Some(tenant) => DeliveryStepView::Ask(DeliveryState::VerifyAuth { call, tenant }),
            None => not_found(),
        },
        (DeliveryState::VerifyAuth { call, tenant }, RelayReply::Auth(verified)) => match verified {
            Ok((caller, auth_event)) => DeliveryStepView::Ask(
                DeliveryState::Admit { call, tenant, caller, auth_event },
            ),
            Err(error) => DeliveryStepView::Refuse(error@),
        },
        (
            DeliveryState::Admit { call, tenant, caller, auth_event },
            RelayReply::Admission(admitted),
        ) => match admitted {
            Ok(_) => DeliveryStepView::Ask(
                DeliveryState::CheckReplay { call, tenant, caller, auth_event },
            ),
            Err(error) => DeliveryStepView::Refuse(error@),
        },
        (
            DeliveryState::CheckReplay { call, tenant, caller, auth_event },
            RelayReply::Replay(fresh),
        ) => match fresh {
            Ok(_) => DeliveryStepView::Ask(
                DeliveryState::CheckMembership { call, tenant, caller, auth_event },
            ),
            Err(error) => DeliveryStepView::Refuse(error@),
        },
        (
            DeliveryState::CheckMembership { call, tenant, caller, auth_event: _ },
            RelayReply::Membership(member),
        ) => match member {
            Ok(_) => DeliveryStepView::Ask(DeliveryState::LookUpAgent { call, tenant, caller }),
            Err(error) => DeliveryStepView::Refuse(error@),
        },
        (DeliveryState::LookUpAgent { call, tenant, caller }, RelayReply::Agent(found)) => {
            match found {
                Ok(Some(policy)) => if policy.owner is Some {
                    DeliveryStepView::Ask(
                        DeliveryState::ReadBody { call, tenant, caller },
                    )
                } else {
                    not_found()
                },
                Ok(None) => not_found(),
                Err(error) => DeliveryStepView::Refuse(
                    failure("delivery target lookup: "@, error@),
                ),
            }
        },
        (
            DeliveryState::ReadBody {
                call: DeliveryCall { endpoint: DeliveryEndpoint::Claim, .. },
                tenant,
                caller,
            },
            RelayReply::ClaimBody(body),
        ) => match body {
            Some(request) => claim_requested(tenant, caller, request),
            None => bad_body("invalid delivery claim JSON"@),
        },
        (
            DeliveryState::ReadBody {
                call: DeliveryCall { endpoint: DeliveryEndpoint::Read { delivery_id }, .. },
                tenant,
                caller,
            },
            RelayReply::ReadBody(body),
        ) => match body {
            Some(request) => DeliveryStepView::Ask(
                DeliveryState::LoadDelivery {
                    tenant,
                    caller,
                    lease: LeaseCall {
                        delivery_id,
                        lease_generation: request.lease_generation,
                        intent: LeaseIntent::Read,
                    },
                    requested: request.binding,
                },
            ),
            None => bad_body("invalid delivery read JSON"@),
        },
        (
            DeliveryState::ReadBody {
                call: DeliveryCall { endpoint: DeliveryEndpoint::Renew { delivery_id }, .. },
                tenant,
                caller,
            },
            RelayReply::RenewBody(body),
        ) => match body {
            Some(request) => match lease_verdict(request.lease_seconds) {
                Ok(lease_seconds) => DeliveryStepView::Ask(
                    DeliveryState::LoadDelivery {
                        tenant,
                        caller,
                        lease: LeaseCall {
                            delivery_id,
                            lease_generation: request.lease_generation,
                            intent: LeaseIntent::Renew { lease_seconds },
                        },
                        requested: request.binding,
                    },
                ),
                Err(error) => DeliveryStepView::Refuse(error),
            },
            None => bad_body("invalid delivery renewal JSON"@),
        },
        (
            DeliveryState::ReadBody {
                call: DeliveryCall { endpoint: DeliveryEndpoint::Finish { delivery_id }, .. },
                tenant,
                caller,
            },
            RelayReply::FinishBody(body),
        ) => match body {
            Some(request) => DeliveryStepView::Ask(
                DeliveryState::LoadDelivery {
                    tenant,
                    caller,
                    lease: LeaseCall {
                        delivery_id,
                        lease_generation: request.lease_generation,
                        intent: LeaseIntent::Finish { disposition: request.disposition },
                    },
                    requested: request.binding,
                },
            ),
            None => bad_body("invalid delivery finish JSON"@),
        },
        (
            DeliveryState::LoadDelivery { tenant, caller, lease, requested },
            RelayReply::Delivery(loaded),
        ) => match loaded {
            Ok(Some(delivery)) => lease_presented(tenant, caller, lease, requested, delivery, now),
            Ok(None) => not_found(),
            Err(error) => DeliveryStepView::Refuse(failure("read workflow delivery: "@, error@)),
        },
        (
            DeliveryState::LoadMessage { tenant, caller, purpose, binding },
            RelayReply::Event(loaded),
        ) => match loaded {
            Ok(Some(stored)) => match stored.channel_id {
                Some(channel_id) => DeliveryStepView::Ask(
                    DeliveryState::LoadWorkflow { tenant, caller, purpose, binding, channel_id },
                ),
                None => not_found(),
            },
            Ok(None) => not_found(),
            Err(error) => DeliveryStepView::Refuse(failure("delivery message lookup: "@, error@)),
        },
        (
            DeliveryState::LoadWorkflow { tenant, caller, purpose, binding, channel_id },
            RelayReply::Workflow(loaded),
        ) => match loaded {
            Ok(workflow) => if workflow.channel_id == Some(channel_id) {
                channel_agreed(tenant, caller, purpose, binding, now)
            } else {
                not_found()
            },
            Err(_) => not_found(),
        },
        (
            DeliveryState::ClaimDelivery { tenant, caller, wanted: _, expected: _, lease_seconds: _ },
            RelayReply::Claimed(claimed),
        ) => match claimed {
            Ok(Some((held, delivery))) => delivery_held(tenant, caller, held, delivery),
            Ok(None) => not_found(),
            Err(error) => DeliveryStepView::Refuse(failure("claim workflow delivery: "@, error@)),
        },
        (DeliveryState::RenewLease { held: _, lease_seconds: _ }, RelayReply::Renewed(renewed)) => {
            match renewed {
                Ok(RenewOutcome::Renewed(lease_until)) => DeliveryStepView::Answer(
                    DeliveryAnswer::Renewed { lease_until },
                ),
                Ok(RenewOutcome::LeaseLost) => not_current(),
                Err(error) => DeliveryStepView::Refuse(
                    failure("renew workflow delivery: "@, error@),
                ),
            }
        },
        (
            DeliveryState::FinishDelivery { held: _, disposition },
            RelayReply::Finished(finished),
        ) => match finished {
            Ok(FinishOutcome::Settled) => DeliveryStepView::Answer(
                DeliveryAnswer::Finished { replayed: false },
            ),
            Ok(FinishOutcome::AlreadyTerminal(status)) => if settled_as(status, disposition) {
                DeliveryStepView::Answer(DeliveryAnswer::Finished { replayed: true })
            } else {
                not_current()
            },
            Ok(FinishOutcome::LeaseLost) => not_current(),
            Err(error) => DeliveryStepView::Refuse(failure("finish workflow delivery: "@, error@)),
        },
        (DeliveryState::LoadRun { tenant, held, delivery }, RelayReply::Run(loaded)) => {
            match loaded {
                Ok(run) => if run_agrees(run, delivery.binding) {
                    DeliveryStepView::Ask(DeliveryState::LoadDefinition { tenant, held, delivery })
                } else {
                    unavailable()
                },
                Err(error) => DeliveryStepView::Refuse(
                    failure("delivery run lookup: "@, error.text()),
                ),
            }
        },
        (DeliveryState::LoadDefinition { tenant, held, delivery }, RelayReply::Event(loaded)) => {
            match loaded {
                Ok(Some(stored)) => DeliveryStepView::Ask(
                    DeliveryState::LoadVisibleMessage {
                        tenant,
                        held,
                        delivery,
                        definition: stored.event,
                    },
                ),
                Ok(None) => unavailable(),
                Err(error) => DeliveryStepView::Refuse(
                    failure("delivery definition lookup: "@, error@),
                ),
            }
        },
        (
            DeliveryState::LoadVisibleMessage { tenant, held, delivery, definition },
            RelayReply::Event(loaded),
        ) => match loaded {
            Ok(Some(stored)) => DeliveryStepView::Ask(
                DeliveryState::IssueReceipt {
                    tenant,
                    held,
                    delivery,
                    definition,
                    message: stored.event,
                },
            ),
            Ok(None) => unavailable(),
            Err(error) => DeliveryStepView::Refuse(failure("delivery message lookup: "@, error@)),
        },
        (
            DeliveryState::IssueReceipt { tenant: _, held, delivery, definition, message },
            RelayReply::Receipt(issued),
        ) => match issued {
            Ok(Some(receipt)) => DeliveryStepView::Answer(
                DeliveryAnswer::Delivery { delivery, held, definition, message, receipt },
            ),
            Ok(None) => unavailable(),
            Err(error) => DeliveryStepView::Refuse(failure("delivery receipt: "@, error@)),
        },
        (state, _) => DeliveryStepView::Ask(state),
    }
}

fn refuse_not_found() -> (step: DeliveryStep)
    ensures
        step@ == not_found(),
{
    DeliveryStep::Refuse(api_error(STATUS_NOT_FOUND, "delivery not found"))
}

fn refuse_not_current() -> (step: DeliveryStep)
    ensures
        step@ == not_current(),
{
    DeliveryStep::Refuse(api_error(STATUS_CONFLICT, "delivery lease is not current"))
}

fn refuse_unavailable() -> (step: DeliveryStep)
    ensures
        step@ == unavailable(),
{
    DeliveryStep::Refuse(api_error(STATUS_CONFLICT, "delivery binding is unavailable"))
}

fn refuse_body(message: &str) -> (step: DeliveryStep)
    ensures
        step@ == bad_body(message@),
{
    DeliveryStep::Refuse(api_error(STATUS_BAD_REQUEST, message))
}

fn begin_claim(
    tenant: TenantContext,
    caller: PublicKey,
    request: ClaimDeliveryRequest,
) -> (step: DeliveryStep)
    ensures
        step@ == claim_requested(tenant, caller, request),
{
    let lease_seconds: i64 = match validate_lease_seconds(request.lease_seconds) {
        Ok(lease_seconds) => lease_seconds,
        Err(error) => {
            return DeliveryStep::Refuse(error);
        },
    };
    let wanted: Option<WorkflowDeliveryId> = match request.delivery_id {
        Some(id) => Some(WorkflowDeliveryId::from_uuid(id)),
        None => None,
    };
    match request.expected {
        None => DeliveryStep::Ask(
            DeliveryState::ClaimDelivery { tenant, caller, wanted, expected: None, lease_seconds },
        ),
        Some(expected) => {
            if wanted.is_none() {
                return refuse_body("expected binding requires delivery_id");
            }
            match parse_delivery_binding(expected, &tenant, caller) {
                Ok(binding) => DeliveryStep::Ask(
                    DeliveryState::LoadMessage {
                        tenant,
                        caller,
                        purpose: Purpose::Claim { wanted, lease_seconds },
                        binding,
                    },
                ),
                Err(error) => DeliveryStep::Refuse(error),
            }
        },
    }
}

fn present_lease(
    tenant: TenantContext,
    caller: PublicKey,
    call: LeaseCall,
    requested: DeliveryBindingRequest,
    delivery: WorkflowAgentDeliveryRecord,
    now: Timestamp,
) -> (step: DeliveryStep)
    ensures
        step@ == lease_presented(tenant, caller, call, requested, delivery, now),
{
    let binding: WorkflowDeliveryBinding = match parse_delivery_binding(
        requested,
        &tenant,
        caller,
    ) {
        Ok(binding) => binding,
        Err(error) => {
            return DeliveryStep::Refuse(error);
        },
    };
    if !is_lease_current(
        &delivery,
        &binding,
        call.lease_generation,
        call.intent.needs_live_claim(),
        now,
    ) {
        return refuse_not_current();
    }
    // The message and its channel are looked up only after the caller has shown
    // the complete binding. Otherwise the endpoint would tell any managed agent
    // which events exist.
    DeliveryStep::Ask(
        DeliveryState::LoadMessage {
            tenant,
            caller,
            purpose: Purpose::Lease { call, delivery },
            binding,
        },
    )
}

fn hold_delivery(
    tenant: TenantContext,
    caller: PublicKey,
    held: WorkflowDeliveryLease,
    delivery: WorkflowAgentDeliveryRecord,
) -> (step: DeliveryStep)
    ensures
        step@ == delivery_held(tenant, caller, held, delivery),
{
    if is_callers_delivery(&delivery, &held, &tenant, &caller) {
        DeliveryStep::Ask(DeliveryState::LoadRun { tenant, held, delivery })
    } else {
        refuse_not_found()
    }
}

fn agree_on_channel(
    tenant: TenantContext,
    caller: PublicKey,
    purpose: Purpose,
    binding: WorkflowDeliveryBinding,
    now: Timestamp,
) -> (step: DeliveryStep)
    ensures
        step@ == channel_agreed(tenant, caller, purpose, binding, now),
{
    match purpose {
        Purpose::Claim { wanted, lease_seconds } => DeliveryStep::Ask(
            DeliveryState::ClaimDelivery {
                tenant,
                caller,
                wanted,
                expected: Some(binding),
                lease_seconds,
            },
        ),
        Purpose::Lease { call, delivery } => {
            let held: WorkflowDeliveryLease = lease_for(
                &tenant,
                caller,
                call.delivery_id,
                call.lease_generation,
                now,
            );
            match call.intent {
                LeaseIntent::Read => hold_delivery(tenant, caller, held, delivery),
                LeaseIntent::Renew { lease_seconds } => DeliveryStep::Ask(
                    DeliveryState::RenewLease { held, lease_seconds },
                ),
                LeaseIntent::Finish { disposition } => DeliveryStep::Ask(
                    DeliveryState::FinishDelivery { held, disposition },
                ),
            }
        },
    }
}

impl DeliveryState {
    /// The step that a reply, which came at this instant, leads to.
    pub fn step(self, reply: RelayReply, now: Timestamp) -> (step: DeliveryStep)
        ensures
            step@ == delivery_step(self, reply, now),
    {
        match (self, reply) {
            (DeliveryState::BindCommunity { call }, RelayReply::Community(bound)) => match bound {
                Some(tenant) => DeliveryStep::Ask(DeliveryState::VerifyAuth { call, tenant }),
                None => refuse_not_found(),
            },
            (DeliveryState::VerifyAuth { call, tenant }, RelayReply::Auth(verified)) => {
                match verified {
                    Ok((caller, auth_event)) => DeliveryStep::Ask(
                        DeliveryState::Admit { call, tenant, caller, auth_event },
                    ),
                    Err(error) => DeliveryStep::Refuse(error),
                }
            },
            (
                DeliveryState::Admit { call, tenant, caller, auth_event },
                RelayReply::Admission(admitted),
            ) => match admitted {
                Ok(_) => DeliveryStep::Ask(
                    DeliveryState::CheckReplay { call, tenant, caller, auth_event },
                ),
                Err(error) => DeliveryStep::Refuse(error),
            },
            (
                DeliveryState::CheckReplay { call, tenant, caller, auth_event },
                RelayReply::Replay(fresh),
            ) => match fresh {
                Ok(_) => DeliveryStep::Ask(
                    DeliveryState::CheckMembership { call, tenant, caller, auth_event },
                ),
                Err(error) => DeliveryStep::Refuse(error),
            },
            (
                DeliveryState::CheckMembership { call, tenant, caller, auth_event: _ },
                RelayReply::Membership(member),
            ) => match member {
                Ok(_) => DeliveryStep::Ask(DeliveryState::LookUpAgent { call, tenant, caller }),
                Err(error) => DeliveryStep::Refuse(error),
            },
            (DeliveryState::LookUpAgent { call, tenant, caller }, RelayReply::Agent(found)) => {
                match found {
                    Ok(Some(policy)) => if policy.owner.is_some() {
                        DeliveryStep::Ask(
                            DeliveryState::ReadBody { call, tenant, caller },
                        )
                    } else {
                        refuse_not_found()
                    },
                    Ok(None) => refuse_not_found(),
                    Err(error) => DeliveryStep::Refuse(
                        internal_error("delivery target lookup: ", error.as_str()),
                    ),
                }
            },
            (
                DeliveryState::ReadBody {
                call: DeliveryCall { endpoint: DeliveryEndpoint::Claim, .. },
                tenant,
                caller,
            },
                RelayReply::ClaimBody(body),
            ) => match body {
                Some(request) => begin_claim(tenant, caller, request),
                None => refuse_body("invalid delivery claim JSON"),
            },
            (
                DeliveryState::ReadBody {
                    call: DeliveryCall { endpoint: DeliveryEndpoint::Read { delivery_id }, .. },
                    tenant,
                    caller,
                },
                RelayReply::ReadBody(body),
            ) => match body {
                Some(request) => DeliveryStep::Ask(
                    DeliveryState::LoadDelivery {
                        tenant,
                        caller,
                        lease: LeaseCall {
                            delivery_id,
                            lease_generation: request.lease_generation,
                            intent: LeaseIntent::Read,
                        },
                        requested: request.binding,
                    },
                ),
                None => refuse_body("invalid delivery read JSON"),
            },
            (
                DeliveryState::ReadBody {
                    call: DeliveryCall { endpoint: DeliveryEndpoint::Renew { delivery_id }, .. },
                    tenant,
                    caller,
                },
                RelayReply::RenewBody(body),
            ) => match body {
                Some(request) => match validate_lease_seconds(request.lease_seconds) {
                    Ok(lease_seconds) => DeliveryStep::Ask(
                        DeliveryState::LoadDelivery {
                            tenant,
                            caller,
                            lease: LeaseCall {
                                delivery_id,
                                lease_generation: request.lease_generation,
                                intent: LeaseIntent::Renew { lease_seconds },
                            },
                            requested: request.binding,
                        },
                    ),
                    Err(error) => DeliveryStep::Refuse(error),
                },
                None => refuse_body("invalid delivery renewal JSON"),
            },
            (
                DeliveryState::ReadBody {
                    call: DeliveryCall { endpoint: DeliveryEndpoint::Finish { delivery_id }, .. },
                    tenant,
                    caller,
                },
                RelayReply::FinishBody(body),
            ) => match body {
                Some(request) => DeliveryStep::Ask(
                    DeliveryState::LoadDelivery {
                        tenant,
                        caller,
                        lease: LeaseCall {
                            delivery_id,
                            lease_generation: request.lease_generation,
                            intent: LeaseIntent::Finish { disposition: request.disposition },
                        },
                        requested: request.binding,
                    },
                ),
                None => refuse_body("invalid delivery finish JSON"),
            },
            (
                DeliveryState::LoadDelivery { tenant, caller, lease, requested },
                RelayReply::Delivery(loaded),
            ) => match loaded {
                Ok(Some(delivery)) => present_lease(tenant, caller, lease, requested, delivery, now),
                Ok(None) => refuse_not_found(),
                Err(error) => DeliveryStep::Refuse(
                    internal_error("read workflow delivery: ", error.as_str()),
                ),
            },
            (
                DeliveryState::LoadMessage { tenant, caller, purpose, binding },
                RelayReply::Event(loaded),
            ) => match loaded {
                Ok(Some(stored)) => match stored.channel_id {
                    Some(channel_id) => DeliveryStep::Ask(
                        DeliveryState::LoadWorkflow { tenant, caller, purpose, binding, channel_id },
                    ),
                    None => refuse_not_found(),
                },
                Ok(None) => refuse_not_found(),
                Err(error) => DeliveryStep::Refuse(
                    internal_error("delivery message lookup: ", error.as_str()),
                ),
            },
            (
                DeliveryState::LoadWorkflow { tenant, caller, purpose, binding, channel_id },
                RelayReply::Workflow(loaded),
            ) => match loaded {
                Ok(workflow) => match workflow.channel_id {
                    Some(of_workflow) => if of_workflow == channel_id {
                        agree_on_channel(tenant, caller, purpose, binding, now)
                    } else {
                        refuse_not_found()
                    },
                    None => refuse_not_found(),
                },
                Err(_) => refuse_not_found(),
            },
            (
                DeliveryState::ClaimDelivery {
                    tenant,
                    caller,
                    wanted: _,
                    expected: _,
                    lease_seconds: _,
                },
                RelayReply::Claimed(claimed),
            ) => match claimed {
                Ok(Some((held, delivery))) => hold_delivery(tenant, caller, held, delivery),
                Ok(None) => refuse_not_found(),
                Err(error) => DeliveryStep::Refuse(
                    internal_error("claim workflow delivery: ", error.as_str()),
                ),
            },
            (
                DeliveryState::RenewLease { held: _, lease_seconds: _ },
                RelayReply::Renewed(renewed),
            ) => match renewed {
                Ok(RenewOutcome::Renewed(lease_until)) => DeliveryStep::Answer(
                    DeliveryAnswer::Renewed { lease_until },
                ),
                Ok(RenewOutcome::LeaseLost) => refuse_not_current(),
                Err(error) => DeliveryStep::Refuse(
                    internal_error("renew workflow delivery: ", error.as_str()),
                ),
            },
            (
                DeliveryState::FinishDelivery { held: _, disposition },
                RelayReply::Finished(finished),
            ) => match finished {
                Ok(FinishOutcome::Settled) => DeliveryStep::Answer(
                    DeliveryAnswer::Finished { replayed: false },
                ),
                Ok(FinishOutcome::AlreadyTerminal(status)) => if terminal_matches(
                    status,
                    disposition,
                ) {
                    DeliveryStep::Answer(DeliveryAnswer::Finished { replayed: true })
                } else {
                    refuse_not_current()
                },
                Ok(FinishOutcome::LeaseLost) => refuse_not_current(),
                Err(error) => DeliveryStep::Refuse(
                    internal_error("finish workflow delivery: ", error.as_str()),
                ),
            },
            (DeliveryState::LoadRun { tenant, held, delivery }, RelayReply::Run(loaded)) => {
                match loaded {
                    Ok(run) => if is_run_of_binding(&run, &delivery.binding) {
                        DeliveryStep::Ask(DeliveryState::LoadDefinition { tenant, held, delivery })
                    } else {
                        refuse_unavailable()
                    },
                    Err(error) => DeliveryStep::Refuse(
                        internal_error("delivery run lookup: ", error.as_str()),
                    ),
                }
            },
            (
                DeliveryState::LoadDefinition { tenant, held, delivery },
                RelayReply::Event(loaded),
            ) => match loaded {
                Ok(Some(stored)) => DeliveryStep::Ask(
                    DeliveryState::LoadVisibleMessage {
                        tenant,
                        held,
                        delivery,
                        definition: stored.event,
                    },
                ),
                Ok(None) => refuse_unavailable(),
                Err(error) => DeliveryStep::Refuse(
                    internal_error("delivery definition lookup: ", error.as_str()),
                ),
            },
            (
                DeliveryState::LoadVisibleMessage { tenant, held, delivery, definition },
                RelayReply::Event(loaded),
            ) => match loaded {
                Ok(Some(stored)) => DeliveryStep::Ask(
                    DeliveryState::IssueReceipt {
                        tenant,
                        held,
                        delivery,
                        definition,
                        message: stored.event,
                    },
                ),
                Ok(None) => refuse_unavailable(),
                Err(error) => DeliveryStep::Refuse(
                    internal_error("delivery message lookup: ", error.as_str()),
                ),
            },
            (
                DeliveryState::IssueReceipt { tenant: _, held, delivery, definition, message },
                RelayReply::Receipt(issued),
            ) => match issued {
                Ok(Some(receipt)) => DeliveryStep::Answer(
                    DeliveryAnswer::Delivery { delivery, held, definition, message, receipt },
                ),
                Ok(None) => refuse_unavailable(),
                Err(error) => DeliveryStep::Refuse(
                    internal_error("delivery receipt: ", error.as_str()),
                ),
            },
            (state, _) => DeliveryStep::Ask(state),
        }
    }
}

/// The path of a request, as it was signed.
pub open spec fn delivery_path(endpoint: DeliveryEndpoint) -> Seq<char> {
    match endpoint {
        DeliveryEndpoint::Claim => "/workflows/agent-deliveries/claim"@,
        DeliveryEndpoint::Read { delivery_id } => "/workflows/agent-deliveries/"@ + uuid_text(
            delivery_id@@,
        ) + "/read"@,
        DeliveryEndpoint::Renew { delivery_id } => "/workflows/agent-deliveries/"@ + uuid_text(
            delivery_id@@,
        ) + "/renew"@,
        DeliveryEndpoint::Finish { delivery_id } => "/workflows/agent-deliveries/"@ + uuid_text(
            delivery_id@@,
        ) + "/finish"@,
    }
}

fn path_of(delivery_id: WorkflowDeliveryId, operation: &str) -> (path: String)
    ensures
        path@ == "/workflows/agent-deliveries/"@ + uuid_text(delivery_id@@) + operation@,
{
    "/workflows/agent-deliveries/".to_owned().concat(
        delivery_id.as_uuid().to_string().as_str(),
    ).concat(operation)
}

impl DeliveryEndpoint {
    /// The path of the request, as it was signed.
    pub fn path(&self) -> (path: String)
        ensures
            path@ == delivery_path(*self),
    {
        match self {
            DeliveryEndpoint::Claim => "/workflows/agent-deliveries/claim".to_owned(),
            DeliveryEndpoint::Read { delivery_id } => path_of(*delivery_id, "/read"),
            DeliveryEndpoint::Renew { delivery_id } => path_of(*delivery_id, "/renew"),
            DeliveryEndpoint::Finish { delivery_id } => path_of(*delivery_id, "/finish"),
        }
    }
}

/// The outcome that a disposition asks for.
pub open spec fn outcome_of(disposition: DeliveryDisposition) -> WorkflowDeliveryOutcome {
    match disposition {
        DeliveryDisposition::Finished => WorkflowDeliveryOutcome::Finished,
        DeliveryDisposition::Failed => WorkflowDeliveryOutcome::Failed,
    }
}

fn requested_outcome(disposition: DeliveryDisposition) -> (outcome: WorkflowDeliveryOutcome)
    ensures
        outcome == outcome_of(disposition),
{
    match disposition {
        DeliveryDisposition::Finished => WorkflowDeliveryOutcome::Finished,
        DeliveryDisposition::Failed => WorkflowDeliveryOutcome::Failed,
    }
}

/// What a request says of itself.
pub open spec fn delivery_request(call: DeliveryCall) -> RequestView {
    RequestView {
        host: host_text(call.host),
        auth_tag: text_in(call.auth_tag),
        method: Method::Post,
        path: delivery_path(call.endpoint),
        body: Some(call.body@),
    }
}

/// The question that a state asks.
pub open spec fn delivery_question(state: DeliveryState) -> Question {
    match state {
        DeliveryState::BindCommunity { call } => Question::BindCommunity {
            host: host_text(call.host),
        },
        DeliveryState::VerifyAuth { call, tenant } => Question::VerifyAuth {
            tenant,
            method: Method::Post,
            path: delivery_path(call.endpoint),
            body: Some(call.body@),
        },
        DeliveryState::Admit { call: _, tenant, caller, auth_event: _ } => Question::Admit {
            tenant,
            caller,
        },
        DeliveryState::CheckReplay { call: _, tenant, caller: _, auth_event } => {
            Question::CheckReplay { tenant, auth_event }
        },
        DeliveryState::CheckMembership { call, tenant, caller, auth_event: _ } => {
            Question::CheckMembership {
                community: tenant.community_id,
                caller,
                auth_tag: text_in(call.auth_tag),
            }
        },
        DeliveryState::LookUpAgent { call: _, tenant, caller } => Question::LookUpAgent {
            community: tenant.community_id,
            caller,
        },
        DeliveryState::ReadBody { call, tenant: _, caller: _ } => Question::ReadBody {
            bytes: call.body@,
        },
        DeliveryState::LoadDelivery { tenant, caller: _, lease, requested: _ } => {
            Question::LoadDelivery {
                community: tenant.community_id,
                delivery_id: lease.delivery_id,
            }
        },
        DeliveryState::LoadMessage { tenant, caller: _, purpose: _, binding } => {
            Question::LoadEvent {
                community: tenant.community_id,
                id: binding.message_event_id@,
            }
        },
        DeliveryState::LoadWorkflow { tenant, caller: _, purpose: _, binding, channel_id: _ } => {
            Question::LoadWorkflow {
                community: tenant.community_id,
                workflow_id: binding.workflow_id,
            }
        },
        DeliveryState::ClaimDelivery { tenant, caller, wanted, expected, lease_seconds } => {
            Question::ClaimDelivery {
                community: tenant.community_id,
                target: caller,
                wanted,
                expected,
                lease_seconds,
            }
        },
        DeliveryState::RenewLease { held, lease_seconds } => Question::RenewLease {
            lease: held,
            lease_seconds,
        },
        DeliveryState::FinishDelivery { held, disposition } => Question::FinishDelivery {
            lease: held,
            outcome: outcome_of(disposition),
        },
        DeliveryState::LoadRun { tenant, held: _, delivery } => Question::LoadRun {
            community: tenant.community_id,
            run_id: delivery.binding.run_id,
        },
        DeliveryState::LoadDefinition { tenant, held: _, delivery } => Question::LoadEvent {
            community: tenant.community_id,
            id: delivery.binding.definition_event_id@,
        },
        DeliveryState::LoadVisibleMessage { tenant, held: _, delivery, definition: _ } => {
            Question::LoadEvent {
                community: tenant.community_id,
                id: delivery.binding.message_event_id@,
            }
        },
        DeliveryState::IssueReceipt { tenant, held: _, delivery, definition: _, message } => {
            Question::IssueReceipt {
                community: tenant.community_id,
                delivery_id: delivery.id,
                binding: delivery.binding,
                message,
            }
        },
    }
}

impl DeliveryState {
    /// The question that comes next. The body that is read is the one whose
    /// signature was checked.
    pub fn action(&self) -> (action: RelayAction<'_>)
        ensures
            action@ == delivery_question(*self),
    {
        match self {
            DeliveryState::BindCommunity { call } => RelayAction::BindCommunity {
                host: host_or_empty(&call.host),
            },
            DeliveryState::VerifyAuth { call, tenant } => RelayAction::VerifyAuth {
                tenant,
                method: Method::Post,
                path: call.endpoint.path(),
                body: Some(call.body.as_slice()),
            },
            DeliveryState::Admit { call: _, tenant, caller, auth_event: _ } => RelayAction::Admit {
                tenant,
                caller: *caller,
            },
            DeliveryState::CheckReplay { call: _, tenant, caller: _, auth_event } => {
                RelayAction::CheckReplay { tenant, auth_event: *auth_event }
            },
            DeliveryState::CheckMembership { call, tenant, caller, auth_event: _ } => {
                RelayAction::CheckMembership {
                    community: tenant.community(),
                    caller: *caller,
                    auth_tag: text_ref(&call.auth_tag),
                }
            },
            DeliveryState::LookUpAgent { call: _, tenant, caller } => RelayAction::LookUpAgent {
                community: tenant.community(),
                caller: *caller,
            },
            DeliveryState::ReadBody { call, tenant: _, caller: _ } => RelayAction::ReadBody {
                bytes: call.body.as_slice(),
            },
            DeliveryState::LoadDelivery { tenant, caller: _, lease, requested: _ } => {
                RelayAction::LoadDelivery {
                    community: tenant.community(),
                    delivery_id: lease.delivery_id,
                }
            },
            DeliveryState::LoadMessage { tenant, caller: _, purpose: _, binding } => {
                RelayAction::LoadEvent {
                    community: tenant.community(),
                    id: binding.message_event_id.bytes.as_slice(),
                }
            },
            DeliveryState::LoadWorkflow {
                tenant,
                caller: _,
                purpose: _,
                binding,
                channel_id: _,
            } => RelayAction::LoadWorkflow {
                community: tenant.community(),
                workflow_id: binding.workflow_id,
            },
            DeliveryState::ClaimDelivery { tenant, caller, wanted, expected, lease_seconds } => {
                RelayAction::ClaimDelivery {
                    community: tenant.community(),
                    target: *caller,
                    wanted: *wanted,
                    expected: match expected {
                        Some(binding) => Some(binding),
                        None => None,
                    },
                    lease_seconds: *lease_seconds,
                }
            },
            DeliveryState::RenewLease { held, lease_seconds } => RelayAction::RenewLease {
                lease: *held,
                lease_seconds: *lease_seconds,
            },
            DeliveryState::FinishDelivery { held, disposition } => RelayAction::FinishDelivery {
                lease: *held,
                outcome: requested_outcome(*disposition),
            },
            DeliveryState::LoadRun { tenant, held: _, delivery } => RelayAction::LoadRun {
                community: tenant.community(),
                run_id: delivery.binding.run_id,
            },
            DeliveryState::LoadDefinition { tenant, held: _, delivery } => RelayAction::LoadEvent {
                community: tenant.community(),
                id: delivery.binding.definition_event_id.bytes.as_slice(),
            },
            DeliveryState::LoadVisibleMessage { tenant, held: _, delivery, definition: _ } => {
                RelayAction::LoadEvent {
                    community: tenant.community(),
                    id: delivery.binding.message_event_id.bytes.as_slice(),
                }
            },
            DeliveryState::IssueReceipt { tenant, held: _, delivery, definition: _, message } => {
                RelayAction::IssueReceipt {
                    community: tenant.community(),
                    delivery_id: delivery.id,
                    binding: &delivery.binding,
                    message,
                }
            },
        }
    }
}

/// `POST /workflows/agent-deliveries/claim`: claim only as the immutable
/// managed-agent target. A wake can supply identifiers but grants no authority.
pub fn claim_agent_delivery(
    host: Option<String>,
    auth_tag: Option<String>,
    body: Vec<u8>,
) -> (step: DeliveryStep)
    ensures
        step == DeliveryStep::Ask(
            DeliveryState::BindCommunity {
                call: DeliveryCall { host, auth_tag, endpoint: DeliveryEndpoint::Claim, body },
            },
        ),
{
    let endpoint: DeliveryEndpoint = DeliveryEndpoint::Claim;
    DeliveryStep::Ask(
        DeliveryState::BindCommunity { call: DeliveryCall { host, auth_tag, endpoint, body } },
    )
}

/// `POST /workflows/agent-deliveries/{id}/read`: private execution inputs only to
/// the exact target holding the current live fencing token.
pub fn read_agent_delivery(
    delivery_id: Uuid,
    host: Option<String>,
    auth_tag: Option<String>,
    body: Vec<u8>,
) -> (step: DeliveryStep)
    ensures
        step == DeliveryStep::Ask(
            DeliveryState::BindCommunity {
                call: DeliveryCall {
                    host,
                    auth_tag,
                    endpoint: DeliveryEndpoint::Read {
                        delivery_id: WorkflowDeliveryId { id: delivery_id },
                    },
                    body,
                },
            },
        ),
{
    let endpoint: DeliveryEndpoint = DeliveryEndpoint::Read {
        delivery_id: WorkflowDeliveryId::from_uuid(delivery_id),
    };
    DeliveryStep::Ask(
        DeliveryState::BindCommunity { call: DeliveryCall { host, auth_tag, endpoint, body } },
    )
}

/// `POST /workflows/agent-deliveries/{id}/renew`: extend the current fenced lease.
pub fn renew_agent_delivery(
    delivery_id: Uuid,
    host: Option<String>,
    auth_tag: Option<String>,
    body: Vec<u8>,
) -> (step: DeliveryStep)
    ensures
        step == DeliveryStep::Ask(
            DeliveryState::BindCommunity {
                call: DeliveryCall {
                    host,
                    auth_tag,
                    endpoint: DeliveryEndpoint::Renew {
                        delivery_id: WorkflowDeliveryId { id: delivery_id },
                    },
                    body,
                },
            },
        ),
{
    let endpoint: DeliveryEndpoint = DeliveryEndpoint::Renew {
        delivery_id: WorkflowDeliveryId::from_uuid(delivery_id),
    };
    DeliveryStep::Ask(
        DeliveryState::BindCommunity { call: DeliveryCall { host, auth_tag, endpoint, body } },
    )
}

/// `POST /workflows/agent-deliveries/{id}/finish`: settle once, with stable
/// acknowledgement only when a terminal replay has the identical disposition.
pub fn finish_agent_delivery(
    delivery_id: Uuid,
    host: Option<String>,
    auth_tag: Option<String>,
    body: Vec<u8>,
) -> (step: DeliveryStep)
    ensures
        step == DeliveryStep::Ask(
            DeliveryState::BindCommunity {
                call: DeliveryCall {
                    host,
                    auth_tag,
                    endpoint: DeliveryEndpoint::Finish {
                        delivery_id: WorkflowDeliveryId { id: delivery_id },
                    },
                    body,
                },
            },
        ),
{
    let endpoint: DeliveryEndpoint = DeliveryEndpoint::Finish {
        delivery_id: WorkflowDeliveryId::from_uuid(delivery_id),
    };
    DeliveryStep::Ask(
        DeliveryState::BindCommunity { call: DeliveryCall { host, auth_tag, endpoint, body } },
    )
}

/// Where a request has come after these replies, each with the instant at which
/// it came.
pub open spec fn delivery_run(
    call: DeliveryCall,
    replies: Seq<(RelayReply, Timestamp)>,
) -> DeliveryStepView
    decreases replies.len(),
{
    if replies.len() == 0 {
        DeliveryStepView::Ask(DeliveryState::BindCommunity { call })
    } else {
        match delivery_run(call, replies.drop_last()) {
            DeliveryStepView::Ask(state) => delivery_step(
                state,
                replies.last().0,
                replies.last().1,
            ),
            done => done,
        }
    }
}

/// A question, its reply, and the instant at which that came.
pub struct Exchange {
    pub question: Question,
    pub reply: RelayReply,
    pub at: Timestamp,
}

/// The questions that a request has asked, each with its reply.
pub open spec fn delivery_trace(
    call: DeliveryCall,
    replies: Seq<(RelayReply, Timestamp)>,
) -> Seq<Exchange>
    decreases replies.len(),
{
    if replies.len() == 0 {
        Seq::empty()
    } else {
        let earlier = delivery_trace(call, replies.drop_last());
        match delivery_run(call, replies.drop_last()) {
            DeliveryStepView::Ask(state) => earlier.push(
                Exchange {
                    question: delivery_question(state),
                    reply: replies.last().0,
                    at: replies.last().1,
                },
            ),
            _ => earlier,
        }
    }
}

/// The exchanges without their instants.
pub open spec fn said(trace: Seq<Exchange>) -> Seq<(Question, RelayReply)> {
    trace.map_values(|exchange: Exchange| (exchange.question, exchange.reply))
}

/// The caller is cleared, and a managed agent with an owner.
pub open spec fn agent_cleared(
    call: DeliveryCall,
    tenant: TenantContext,
    caller: PublicKey,
    trace: Seq<Exchange>,
) -> bool {
    &&& cleared(delivery_request(call), tenant, caller, said(trace))
    &&& owned_agent(tenant, caller, trace)
}

/// A service replied that the caller is a managed agent with an owner.
pub open spec fn owned_agent(
    tenant: TenantContext,
    caller: PublicKey,
    trace: Seq<Exchange>,
) -> bool {
    exists|policy: AgentPolicy| #[trigger]
        said(trace).contains(
            (
                Question::LookUpAgent { community: tenant.community_id, caller },
                RelayReply::Agent(Ok(Some(policy))),
            ),
        ) && policy.owner is Some
}

/// The lease that a body presents at an endpoint, and the binding that goes with
/// it: for the delivery and the operation that the path names, and for a renewal
/// of a length that may be asked for.
pub open spec fn lease_in(endpoint: DeliveryEndpoint, body: RelayReply) -> Option<
    (LeaseCall, DeliveryBindingRequest),
> {
    match (endpoint, body) {
        (DeliveryEndpoint::Read { delivery_id }, RelayReply::ReadBody(Some(request))) => Some(
            (
                LeaseCall {
                    delivery_id,
                    lease_generation: request.lease_generation,
                    intent: LeaseIntent::Read,
                },
                request.binding,
            ),
        ),
        (DeliveryEndpoint::Renew { delivery_id }, RelayReply::RenewBody(Some(request))) => {
            match lease_verdict(request.lease_seconds) {
                Ok(lease_seconds) => Some(
                    (
                        LeaseCall {
                            delivery_id,
                            lease_generation: request.lease_generation,
                            intent: LeaseIntent::Renew { lease_seconds },
                        },
                        request.binding,
                    ),
                ),
                Err(_) => None,
            }
        },
        (DeliveryEndpoint::Finish { delivery_id }, RelayReply::FinishBody(Some(request))) => Some(
            (
                LeaseCall {
                    delivery_id,
                    lease_generation: request.lease_generation,
                    intent: LeaseIntent::Finish { disposition: request.disposition },
                },
                request.binding,
            ),
        ),
        _ => None,
    }
}

/// The body of the request presents this lease with this binding.
pub open spec fn lease_requested(
    call: DeliveryCall,
    lease: LeaseCall,
    requested: DeliveryBindingRequest,
    trace: Seq<Exchange>,
) -> bool {
    exists|body: RelayReply| #[trigger]
        said(trace).contains((Question::ReadBody { bytes: call.body@ }, body)) && lease_in(
            call.endpoint,
            body,
        ) == Some((lease, requested))
}

/// A claim asks for this.
pub open spec fn claim_asks(
    request: ClaimDeliveryRequest,
    tenant: TenantContext,
    caller: PublicKey,
    wanted: Option<WorkflowDeliveryId>,
    expected: Option<WorkflowDeliveryBinding>,
    lease_seconds: i64,
) -> bool {
    &&& wanted is Some <==> request.delivery_id is Some
    &&& wanted is Some ==> wanted->0.id == request.delivery_id->0
    &&& lease_verdict(request.lease_seconds) == Ok::<_, ErrorView>(lease_seconds)
    &&& match expected {
        None => request.expected is None,
        Some(binding) => {
            &&& wanted is Some
            &&& request.expected is Some
            &&& requested_binding(request.expected->0, tenant.community_id, caller) == Ok::<
                _,
                ErrorView,
            >(binding)
        },
    }
}

/// The body of the request claims this.
pub open spec fn claim_read(
    call: DeliveryCall,
    tenant: TenantContext,
    caller: PublicKey,
    wanted: Option<WorkflowDeliveryId>,
    expected: Option<WorkflowDeliveryBinding>,
    lease_seconds: i64,
    trace: Seq<Exchange>,
) -> bool {
    exists|request: ClaimDeliveryRequest| #[trigger]
        said(trace).contains(
            (Question::ReadBody { bytes: call.body@ }, RelayReply::ClaimBody(Some(request))),
        ) && claim_asks(request, tenant, caller, wanted, expected, lease_seconds)
}

/// A service replied with the delivery's row, and at that instant the presented
/// lease was the row's, and its claim lived but for a settlement.
pub open spec fn lease_shown(
    tenant: TenantContext,
    lease: LeaseCall,
    delivery: WorkflowAgentDeliveryRecord,
    binding: WorkflowDeliveryBinding,
    trace: Seq<Exchange>,
) -> bool {
    exists|k: int|
        {
            &&& 0 <= k < trace.len()
            &&& (#[trigger] trace[k]).question == Question::LoadDelivery {
                community: tenant.community_id,
                delivery_id: lease.delivery_id,
            }
            &&& trace[k].reply == RelayReply::Delivery(Ok(Some(delivery)))
            &&& lease_is_current(
                delivery,
                binding,
                lease.lease_generation,
                lease.intent !is Finish,
                trace[k].at,
            )
        }
}

/// The body of the request presents this lease with this whole binding, the
/// caller's own.
pub open spec fn lease_bound(
    call: DeliveryCall,
    tenant: TenantContext,
    caller: PublicKey,
    lease: LeaseCall,
    binding: WorkflowDeliveryBinding,
    trace: Seq<Exchange>,
) -> bool {
    exists|requested: DeliveryBindingRequest| #[trigger]
        lease_requested(call, lease, requested, trace) && requested_binding(
            requested,
            tenant.community_id,
            caller,
        ) == Ok::<_, ErrorView>(binding)
}

/// The binding is the caller's, and it was shown whole before anything was
/// looked up by it: for a lease it is that of the row.
pub open spec fn binding_shown(
    call: DeliveryCall,
    tenant: TenantContext,
    caller: PublicKey,
    purpose: Purpose,
    binding: WorkflowDeliveryBinding,
    trace: Seq<Exchange>,
) -> bool {
    &&& binding.community_id == tenant.community_id
    &&& binding.target_pubkey == caller
    &&& match purpose {
        Purpose::Claim { wanted, lease_seconds } => {
            &&& call.endpoint is Claim
            &&& claim_read(call, tenant, caller, wanted, Some(binding), lease_seconds, trace)
        },
        Purpose::Lease { call: lease, delivery } => {
            &&& lease_bound(call, tenant, caller, lease, binding, trace)
            &&& lease_shown(tenant, lease, delivery, binding, trace)
        },
    }
}

/// A service replied that the binding's message is in this channel.
pub open spec fn message_channel(
    tenant: TenantContext,
    binding: WorkflowDeliveryBinding,
    channel_id: Uuid,
    trace: Seq<Exchange>,
) -> bool {
    exists|stored: StoredEvent| #[trigger]
        said(trace).contains(
            (
                Question::LoadEvent {
                    community: tenant.community_id,
                    id: binding.message_event_id@,
                },
                RelayReply::Event(Ok(Some(stored))),
            ),
        ) && stored.channel_id == Some(channel_id)
}

/// Services replied that the binding's message and workflow share a channel.
pub open spec fn channel_shown(
    tenant: TenantContext,
    binding: WorkflowDeliveryBinding,
    trace: Seq<Exchange>,
) -> bool {
    exists|workflow: WorkflowRecord| #[trigger]
        said(trace).contains(
            (
                Question::LoadWorkflow {
                    community: tenant.community_id,
                    workflow_id: binding.workflow_id,
                },
                RelayReply::Workflow(Ok(workflow)),
            ),
        ) && workflow.channel_id is Some && message_channel(
            tenant,
            binding,
            workflow.channel_id->0,
            trace,
        )
}

/// The lease is held by a cleared agent under a binding of its own that was shown
/// whole, and whose message and workflow share a channel.
pub open spec fn lease_held_under(
    call: DeliveryCall,
    tenant: TenantContext,
    caller: PublicKey,
    held: WorkflowDeliveryLease,
    intent: LeaseIntent,
    delivery: WorkflowAgentDeliveryRecord,
    binding: WorkflowDeliveryBinding,
    trace: Seq<Exchange>,
) -> bool {
    let lease = LeaseCall {
        delivery_id: held.delivery_id,
        lease_generation: held.lease_generation,
        intent,
    };
    &&& agent_cleared(call, tenant, caller, trace)
    &&& held.community_id == tenant.community_id
    &&& held.target_pubkey == caller
    &&& binding_shown(
        call,
        tenant,
        caller,
        Purpose::Lease { call: lease, delivery },
        binding,
        trace,
    )
    &&& channel_shown(tenant, binding, trace)
    &&& seen_at(held.lease_until, trace)
}

/// A workflow's row was replied at this instant.
pub open spec fn seen_at(at: Timestamp, trace: Seq<Exchange>) -> bool {
    exists|k: int|
        0 <= k < trace.len() && (#[trigger] trace[k]).at == at && trace[k].question is LoadWorkflow
            && trace[k].reply is Workflow
}

/// The lease is held by a cleared agent, for this.
pub open spec fn lease_held(
    call: DeliveryCall,
    held: WorkflowDeliveryLease,
    intent: LeaseIntent,
    trace: Seq<Exchange>,
) -> bool {
    exists|
        tenant: TenantContext,
        caller: PublicKey,
        delivery: WorkflowAgentDeliveryRecord,
        binding: WorkflowDeliveryBinding,
    | #[trigger]
        lease_held_under(call, tenant, caller, held, intent, delivery, binding, trace)
}

/// A claim that the body asks for, with the channel of the binding that it
/// expects.
pub open spec fn claim_allowed(
    call: DeliveryCall,
    tenant: TenantContext,
    caller: PublicKey,
    wanted: Option<WorkflowDeliveryId>,
    expected: Option<WorkflowDeliveryBinding>,
    lease_seconds: i64,
    trace: Seq<Exchange>,
) -> bool {
    &&& call.endpoint is Claim
    &&& claim_read(call, tenant, caller, wanted, expected, lease_seconds, trace)
    &&& expected matches Some(binding) ==> {
        &&& binding.community_id == tenant.community_id
        &&& binding.target_pubkey == caller
        &&& channel_shown(tenant, binding, trace)
    }
}

/// A service replied that the delivery was claimed for the caller, to a claim
/// that the body asks for.
pub open spec fn claim_won(
    call: DeliveryCall,
    tenant: TenantContext,
    caller: PublicKey,
    held: WorkflowDeliveryLease,
    delivery: WorkflowAgentDeliveryRecord,
    trace: Seq<Exchange>,
) -> bool {
    exists|
        wanted: Option<WorkflowDeliveryId>,
        expected: Option<WorkflowDeliveryBinding>,
        lease_seconds: i64,
    |
        {
            &&& #[trigger] claim_allowed(
                call,
                tenant,
                caller,
                wanted,
                expected,
                lease_seconds,
                trace,
            )
            &&& said(trace).contains(
                (
                    Question::ClaimDelivery {
                        community: tenant.community_id,
                        target: caller,
                        wanted,
                        expected,
                        lease_seconds,
                    },
                    RelayReply::Claimed(Ok(Some((held, delivery)))),
                ),
            )
        }
}

/// The delivery is read under a lease that is current and live.
pub open spec fn read_under_lease(
    call: DeliveryCall,
    tenant: TenantContext,
    caller: PublicKey,
    held: WorkflowDeliveryLease,
    delivery: WorkflowAgentDeliveryRecord,
    trace: Seq<Exchange>,
) -> bool {
    exists|binding: WorkflowDeliveryBinding| #[trigger]
        lease_held_under(
            call,
            tenant,
            caller,
            held,
            LeaseIntent::Read,
            delivery,
            binding,
            trace,
        )
}

/// The delivery is due to this caller: it is the caller's own, and it was either
/// claimed for it just now or is read under a lease that is current and live.
pub open spec fn due_to(
    call: DeliveryCall,
    tenant: TenantContext,
    caller: PublicKey,
    held: WorkflowDeliveryLease,
    delivery: WorkflowAgentDeliveryRecord,
    trace: Seq<Exchange>,
) -> bool {
    &&& agent_cleared(call, tenant, caller, trace)
    &&& delivery_is_callers(delivery, held, tenant.community_id, caller)
    &&& {
        ||| claim_won(call, tenant, caller, held, delivery, trace)
        ||| read_under_lease(call, tenant, caller, held, delivery, trace)
    }
}

/// The delivery is due to somebody.
pub open spec fn due(
    call: DeliveryCall,
    tenant: TenantContext,
    held: WorkflowDeliveryLease,
    delivery: WorkflowAgentDeliveryRecord,
    trace: Seq<Exchange>,
) -> bool {
    exists|caller: PublicKey| #[trigger] due_to(call, tenant, caller, held, delivery, trace)
}

/// A service replied with the binding's run, and it agrees with the binding.
pub open spec fn run_shown(
    tenant: TenantContext,
    delivery: WorkflowAgentDeliveryRecord,
    trace: Seq<Exchange>,
) -> bool {
    exists|run: WorkflowRunRecord| #[trigger]
        said(trace).contains(
            (
                Question::LoadRun {
                    community: tenant.community_id,
                    run_id: delivery.binding.run_id,
                },
                RelayReply::Run(Ok(run)),
            ),
        ) && run_agrees(run, delivery.binding)
}

/// The definition is the reply to the question for the binding's definition.
pub open spec fn definition_shown(
    tenant: TenantContext,
    delivery: WorkflowAgentDeliveryRecord,
    definition: Event,
    trace: Seq<Exchange>,
) -> bool {
    event_loaded(tenant, delivery.binding.definition_event_id@, definition, said(trace))
}

/// The message is the reply to the question for the binding's message.
pub open spec fn message_shown(
    tenant: TenantContext,
    delivery: WorkflowAgentDeliveryRecord,
    message: Event,
    trace: Seq<Exchange>,
) -> bool {
    event_loaded(tenant, delivery.binding.message_event_id@, message, said(trace))
}

/// The receipt is the reply to the question for this delivery, its binding and
/// its message.
pub open spec fn receipt_issued(
    tenant: TenantContext,
    delivery: WorkflowAgentDeliveryRecord,
    message: Event,
    receipt: Event,
    trace: Seq<Exchange>,
) -> bool {
    said(trace).contains(
        (
            Question::IssueReceipt {
                community: tenant.community_id,
                delivery_id: delivery.id,
                binding: delivery.binding,
                message,
            },
            RelayReply::Receipt(Ok(Some(receipt))),
        ),
    )
}

/// What has been shown when a request is in this state.
pub open spec fn state_shown(
    call: DeliveryCall,
    state: DeliveryState,
    trace: Seq<Exchange>,
) -> bool {
    let request = delivery_request(call);
    match state {
        DeliveryState::BindCommunity { call: c } => c == call,
        DeliveryState::VerifyAuth { call: c, tenant } => {
            &&& c == call
            &&& host_bound(request, tenant, said(trace))
        },
        DeliveryState::Admit { call: c, tenant, caller, auth_event } => {
            &&& c == call
            &&& host_bound(request, tenant, said(trace))
            &&& request_signed(request, tenant, caller, auth_event, said(trace))
        },
        DeliveryState::CheckReplay { call: c, tenant, caller, auth_event } => {
            &&& c == call
            &&& host_bound(request, tenant, said(trace))
            &&& request_signed(request, tenant, caller, auth_event, said(trace))
            &&& said(trace).contains(
                (Question::Admit { tenant, caller }, RelayReply::Admission(Ok(()))),
            )
        },
        DeliveryState::CheckMembership { call: c, tenant, caller, auth_event } => {
            &&& c == call
            &&& host_bound(request, tenant, said(trace))
            &&& request_signed(request, tenant, caller, auth_event, said(trace))
            &&& said(trace).contains(
                (Question::Admit { tenant, caller }, RelayReply::Admission(Ok(()))),
            )
            &&& said(trace).contains(
                (Question::CheckReplay { tenant, auth_event }, RelayReply::Replay(Ok(()))),
            )
        },
        DeliveryState::LookUpAgent { call: c, tenant, caller } => {
            &&& c == call
            &&& cleared(request, tenant, caller, said(trace))
        },
        DeliveryState::ReadBody { call: c, tenant, caller } => {
            &&& c == call
            &&& agent_cleared(call, tenant, caller, trace)
        },
        DeliveryState::LoadDelivery { tenant, caller, lease, requested } => {
            &&& agent_cleared(call, tenant, caller, trace)
            &&& lease_requested(call, lease, requested, trace)
        },
        DeliveryState::LoadMessage { tenant, caller, purpose, binding } => {
            &&& agent_cleared(call, tenant, caller, trace)
            &&& binding_shown(call, tenant, caller, purpose, binding, trace)
        },
        DeliveryState::LoadWorkflow { tenant, caller, purpose, binding, channel_id } => {
            &&& agent_cleared(call, tenant, caller, trace)
            &&& binding_shown(call, tenant, caller, purpose, binding, trace)
            &&& message_channel(tenant, binding, channel_id, trace)
        },
        DeliveryState::ClaimDelivery { tenant, caller, wanted, expected, lease_seconds } => {
            &&& agent_cleared(call, tenant, caller, trace)
            &&& claim_allowed(call, tenant, caller, wanted, expected, lease_seconds, trace)
        },
        DeliveryState::RenewLease { held, lease_seconds } => {
            lease_held(call, held, LeaseIntent::Renew { lease_seconds }, trace)
        },
        DeliveryState::FinishDelivery { held, disposition } => {
            lease_held(call, held, LeaseIntent::Finish { disposition }, trace)
        },
        DeliveryState::LoadRun { tenant, held, delivery } => {
            due(call, tenant, held, delivery, trace)
        },
        DeliveryState::LoadDefinition { tenant, held, delivery } => {
            &&& due(call, tenant, held, delivery, trace)
            &&& run_shown(tenant, delivery, trace)
        },
        DeliveryState::LoadVisibleMessage { tenant, held, delivery, definition } => {
            &&& due(call, tenant, held, delivery, trace)
            &&& run_shown(tenant, delivery, trace)
            &&& definition_shown(tenant, delivery, definition, trace)
        },
        DeliveryState::IssueReceipt { tenant, held, delivery, definition, message } => {
            &&& due(call, tenant, held, delivery, trace)
            &&& run_shown(tenant, delivery, trace)
            &&& definition_shown(tenant, delivery, definition, trace)
            &&& message_shown(tenant, delivery, message, trace)
        },
    }
}

/// A delivery that was due in this tenant's community was answered with what the
/// services replied to the questions for it.
pub open spec fn delivery_answered(
    call: DeliveryCall,
    tenant: TenantContext,
    delivery: WorkflowAgentDeliveryRecord,
    held: WorkflowDeliveryLease,
    definition: Event,
    message: Event,
    receipt: Event,
    trace: Seq<Exchange>,
) -> bool {
    &&& due(call, tenant, held, delivery, trace)
    &&& run_shown(tenant, delivery, trace)
    &&& definition_shown(tenant, delivery, definition, trace)
    &&& message_shown(tenant, delivery, message, trace)
    &&& receipt_issued(tenant, delivery, message, receipt, trace)
}

/// A service replied that this lease, which was held, now ends then.
pub open spec fn renewed_under(
    call: DeliveryCall,
    held: WorkflowDeliveryLease,
    lease_seconds: i64,
    lease_until: Timestamp,
    trace: Seq<Exchange>,
) -> bool {
    &&& lease_held(call, held, LeaseIntent::Renew { lease_seconds }, trace)
    &&& said(trace).contains(
        (
            Question::RenewLease { lease: held, lease_seconds },
            RelayReply::Renewed(Ok(RenewOutcome::Renewed(lease_until))),
        ),
    )
}

/// A service gave this reply when it was asked to settle the delivery under this
/// lease: as finished for the one disposition, and as failed for the other.
pub open spec fn settlement_replied(
    held: WorkflowDeliveryLease,
    disposition: DeliveryDisposition,
    outcome: FinishOutcome,
    trace: Seq<Exchange>,
) -> bool {
    match disposition {
        DeliveryDisposition::Finished => said(trace).contains(
            (
                Question::FinishDelivery {
                    lease: held,
                    outcome: WorkflowDeliveryOutcome::Finished,
                },
                RelayReply::Finished(Ok(outcome)),
            ),
        ),
        DeliveryDisposition::Failed => said(trace).contains(
            (
                Question::FinishDelivery { lease: held, outcome: WorkflowDeliveryOutcome::Failed },
                RelayReply::Finished(Ok(outcome)),
            ),
        ),
    }
}

/// A service replied that the delivery is settled with this disposition, under
/// this lease, which was held; for a replay, that it was so settled before.
pub open spec fn finished_under(
    call: DeliveryCall,
    held: WorkflowDeliveryLease,
    disposition: DeliveryDisposition,
    replayed: bool,
    trace: Seq<Exchange>,
) -> bool {
    &&& lease_held(call, held, LeaseIntent::Finish { disposition }, trace)
    &&& if replayed {
        settled_before(held, disposition, trace)
    } else {
        settlement_replied(held, disposition, FinishOutcome::Settled, trace)
    }
}

/// A service replied that the delivery had been settled with this disposition.
pub open spec fn settled_before(
    held: WorkflowDeliveryLease,
    disposition: DeliveryDisposition,
    trace: Seq<Exchange>,
) -> bool {
    match disposition {
        DeliveryDisposition::Finished => settlement_replied(
            held,
            disposition,
            FinishOutcome::AlreadyTerminal(WorkflowDeliveryStatus::Finished),
            trace,
        ),
        DeliveryDisposition::Failed => settlement_replied(
            held,
            disposition,
            FinishOutcome::AlreadyTerminal(WorkflowDeliveryStatus::Failed),
            trace,
        ),
    }
}

/// What has been shown when a request got this answer.
pub open spec fn answer_shown(
    call: DeliveryCall,
    answer: DeliveryAnswer,
    trace: Seq<Exchange>,
) -> bool {
    match answer {
        DeliveryAnswer::Delivery { delivery, held, definition, message, receipt } => {
            answered_somewhere(call, delivery, held, definition, message, receipt, trace)
        },
        DeliveryAnswer::Renewed { lease_until } => renewed_somehow(call, lease_until, trace),
        DeliveryAnswer::Finished { replayed } => finished_somehow(call, replayed, trace),
    }
}

/// The delivery was due in some community.
pub open spec fn answered_somewhere(
    call: DeliveryCall,
    delivery: WorkflowAgentDeliveryRecord,
    held: WorkflowDeliveryLease,
    definition: Event,
    message: Event,
    receipt: Event,
    trace: Seq<Exchange>,
) -> bool {
    exists|tenant: TenantContext| #[trigger]
        delivery_answered(call, tenant, delivery, held, definition, message, receipt, trace)
}

/// Some held lease was renewed.
pub open spec fn renewed_somehow(
    call: DeliveryCall,
    lease_until: Timestamp,
    trace: Seq<Exchange>,
) -> bool {
    exists|held: WorkflowDeliveryLease, lease_seconds: i64| #[trigger]
        renewed_under(call, held, lease_seconds, lease_until, trace)
}

/// A delivery was settled under some held lease.
pub open spec fn finished_somehow(
    call: DeliveryCall,
    replayed: bool,
    trace: Seq<Exchange>,
) -> bool {
    exists|held: WorkflowDeliveryLease, disposition: DeliveryDisposition| #[trigger]
        finished_under(call, held, disposition, replayed, trace)
}

/// No agent gets or changes anything of a delivery before every gate was passed.
/// In each state the services have shown, to questions about this very request,
/// what the state rests on: the bytes that were read are those whose signature
/// was checked; before a message or a workflow is looked up, the caller has shown
/// a whole binding of its own, and for a lease the one of the delivery's row. A
/// delivery is answered only to its target, who has just claimed it or holds its
/// current and live lease, together with the definition, the message and the
/// receipt that were asked for by its binding; a lease is renewed, and a delivery
/// settled, only for the holder of its current lease; and a replay is
/// acknowledged only for the disposition that settled it.
pub proof fn law_deliveries_pass_every_gate(
    call: DeliveryCall,
    replies: Seq<(RelayReply, Timestamp)>,
)
    ensures
        match delivery_run(call, replies) {
            DeliveryStepView::Ask(state) => state_shown(call, state, delivery_trace(call, replies)),
            DeliveryStepView::Answer(answer) => answer_shown(
                call,
                answer,
                delivery_trace(call, replies),
            ),
            DeliveryStepView::Refuse(_) => true,
        },
    decreases replies.len(),
{
    if replies.len() > 0 {
        let earlier = replies.drop_last();
        law_deliveries_pass_every_gate(call, earlier);
        if let DeliveryStepView::Ask(state) = delivery_run(call, earlier) {
            let trace = delivery_trace(call, replies);
            assert(trace.drop_last() =~= delivery_trace(call, earlier));
            lemma_state_stays_shown(call, state, trace);
            lemma_step_shows(call, state, trace, replies.last().0, replies.last().1);
        }
    }
}

/// What was said stays said, and the last exchange is said.
proof fn lemma_said_grows(trace: Seq<Exchange>)
    requires
        trace.len() > 0,
    ensures
        forall|exchange: (Question, RelayReply)| #[trigger]
            said(trace.drop_last()).contains(exchange) ==> said(trace).contains(exchange),
        said(trace).contains((trace.last().question, trace.last().reply)),
{
    let earlier = trace.drop_last();
    assert forall|exchange: (Question, RelayReply)| #[trigger]
        said(earlier).contains(exchange) implies said(trace).contains(exchange) by {
        let k = said(earlier).index_of(exchange);
        assert(said(trace)[k] == exchange);
    }
    assert(said(trace)[trace.len() - 1] == (trace.last().question, trace.last().reply));
}

proof fn lemma_cleared_stays(
    call: DeliveryCall,
    tenant: TenantContext,
    caller: PublicKey,
    trace: Seq<Exchange>,
)
    requires
        trace.len() > 0,
        cleared(delivery_request(call), tenant, caller, said(trace.drop_last())),
    ensures
        cleared(delivery_request(call), tenant, caller, said(trace)),
{
    lemma_said_grows(trace);
    let auth_event = choose|auth_event: Option<EventId>| #[trigger]
        cleared_by(delivery_request(call), tenant, caller, auth_event, said(trace.drop_last()));
    assert(cleared_by(delivery_request(call), tenant, caller, auth_event, said(trace)));
}

proof fn lemma_agent_stays(
    call: DeliveryCall,
    tenant: TenantContext,
    caller: PublicKey,
    trace: Seq<Exchange>,
)
    requires
        trace.len() > 0,
        agent_cleared(call, tenant, caller, trace.drop_last()),
    ensures
        agent_cleared(call, tenant, caller, trace),
{
    lemma_said_grows(trace);
    lemma_cleared_stays(call, tenant, caller, trace);
    let question = Question::LookUpAgent { community: tenant.community_id, caller };
    let policy = choose|policy: AgentPolicy| #[trigger]
        said(trace.drop_last()).contains((question, RelayReply::Agent(Ok(Some(policy)))))
            && policy.owner is Some;
    assert(said(trace).contains((question, RelayReply::Agent(Ok(Some(policy))))));
}

proof fn lemma_lease_requested_stays(
    call: DeliveryCall,
    lease: LeaseCall,
    requested: DeliveryBindingRequest,
    trace: Seq<Exchange>,
)
    requires
        trace.len() > 0,
        lease_requested(call, lease, requested, trace.drop_last()),
    ensures
        lease_requested(call, lease, requested, trace),
{
    lemma_said_grows(trace);
    let body = choose|body: RelayReply| #[trigger]
        said(trace.drop_last()).contains((Question::ReadBody { bytes: call.body@ }, body))
            && lease_in(call.endpoint, body) == Some((lease, requested));
    assert(said(trace).contains((Question::ReadBody { bytes: call.body@ }, body)));
}

proof fn lemma_claim_read_stays(
    call: DeliveryCall,
    tenant: TenantContext,
    caller: PublicKey,
    wanted: Option<WorkflowDeliveryId>,
    expected: Option<WorkflowDeliveryBinding>,
    lease_seconds: i64,
    trace: Seq<Exchange>,
)
    requires
        trace.len() > 0,
        claim_read(call, tenant, caller, wanted, expected, lease_seconds, trace.drop_last()),
    ensures
        claim_read(call, tenant, caller, wanted, expected, lease_seconds, trace),
{
    lemma_said_grows(trace);
    let question = Question::ReadBody { bytes: call.body@ };
    let request = choose|request: ClaimDeliveryRequest| #[trigger]
        said(trace.drop_last()).contains((question, RelayReply::ClaimBody(Some(request))))
            && claim_asks(request, tenant, caller, wanted, expected, lease_seconds);
    assert(said(trace).contains((question, RelayReply::ClaimBody(Some(request)))));
}

proof fn lemma_binding_stays(
    call: DeliveryCall,
    tenant: TenantContext,
    caller: PublicKey,
    purpose: Purpose,
    binding: WorkflowDeliveryBinding,
    trace: Seq<Exchange>,
)
    requires
        trace.len() > 0,
        binding_shown(call, tenant, caller, purpose, binding, trace.drop_last()),
    ensures
        binding_shown(call, tenant, caller, purpose, binding, trace),
{
    let earlier = trace.drop_last();
    match purpose {
        Purpose::Claim { wanted, lease_seconds } => {
            lemma_claim_read_stays(
                call,
                tenant,
                caller,
                wanted,
                Some(binding),
                lease_seconds,
                trace,
            );
        },
        Purpose::Lease { call: lease, delivery } => {
            let requested = choose|requested: DeliveryBindingRequest| #[trigger]
                lease_requested(call, lease, requested, earlier) && requested_binding(
                    requested,
                    tenant.community_id,
                    caller,
                ) == Ok::<_, ErrorView>(binding);
            lemma_lease_requested_stays(call, lease, requested, trace);
            let k = choose|k: int|
                {
                    &&& 0 <= k < earlier.len()
                    &&& (#[trigger] earlier[k]).question == Question::LoadDelivery {
                        community: tenant.community_id,
                        delivery_id: lease.delivery_id,
                    }
                    &&& earlier[k].reply == RelayReply::Delivery(Ok(Some(delivery)))
                    &&& lease_is_current(
                        delivery,
                        binding,
                        lease.lease_generation,
                        lease.intent !is Finish,
                        earlier[k].at,
                    )
                };
            assert(trace[k] == earlier[k]);
            assert(lease_shown(tenant, lease, delivery, binding, trace));
        },
    }
}

proof fn lemma_message_channel_stays(
    tenant: TenantContext,
    binding: WorkflowDeliveryBinding,
    channel_id: Uuid,
    trace: Seq<Exchange>,
)
    requires
        trace.len() > 0,
        message_channel(tenant, binding, channel_id, trace.drop_last()),
    ensures
        message_channel(tenant, binding, channel_id, trace),
{
    lemma_said_grows(trace);
    let question = Question::LoadEvent {
        community: tenant.community_id,
        id: binding.message_event_id@,
    };
    let stored = choose|stored: StoredEvent| #[trigger]
        said(trace.drop_last()).contains((question, RelayReply::Event(Ok(Some(stored)))))
            && stored.channel_id == Some(channel_id);
    assert(said(trace).contains((question, RelayReply::Event(Ok(Some(stored))))));
}

proof fn lemma_channel_stays(
    tenant: TenantContext,
    binding: WorkflowDeliveryBinding,
    trace: Seq<Exchange>,
)
    requires
        trace.len() > 0,
        channel_shown(tenant, binding, trace.drop_last()),
    ensures
        channel_shown(tenant, binding, trace),
{
    lemma_said_grows(trace);
    let question = Question::LoadWorkflow {
        community: tenant.community_id,
        workflow_id: binding.workflow_id,
    };
    let workflow = choose|workflow: WorkflowRecord| #[trigger]
        said(trace.drop_last()).contains((question, RelayReply::Workflow(Ok(workflow))))
            && workflow.channel_id is Some && message_channel(
            tenant,
            binding,
            workflow.channel_id->0,
            trace.drop_last(),
        );
    lemma_message_channel_stays(tenant, binding, workflow.channel_id->0, trace);
    assert(said(trace).contains((question, RelayReply::Workflow(Ok(workflow)))));
}

proof fn lemma_lease_held_under_stays(
    call: DeliveryCall,
    tenant: TenantContext,
    caller: PublicKey,
    held: WorkflowDeliveryLease,
    intent: LeaseIntent,
    delivery: WorkflowAgentDeliveryRecord,
    binding: WorkflowDeliveryBinding,
    trace: Seq<Exchange>,
)
    requires
        trace.len() > 0,
        lease_held_under(
            call,
            tenant,
            caller,
            held,
            intent,
            delivery,
            binding,
            trace.drop_last(),
        ),
    ensures
        lease_held_under(call, tenant, caller, held, intent, delivery, binding, trace),
{
    let lease = LeaseCall {
        delivery_id: held.delivery_id,
        lease_generation: held.lease_generation,
        intent,
    };
    lemma_agent_stays(call, tenant, caller, trace);
    lemma_binding_stays(
        call,
        tenant,
        caller,
        Purpose::Lease { call: lease, delivery },
        binding,
        trace,
    );
    lemma_channel_stays(tenant, binding, trace);
    let earlier = trace.drop_last();
    let k = choose|k: int|
        0 <= k < earlier.len() && (#[trigger] earlier[k]).at == held.lease_until
            && earlier[k].question is LoadWorkflow && earlier[k].reply is Workflow;
    assert(trace[k] == earlier[k]);
}

proof fn lemma_lease_held_stays(
    call: DeliveryCall,
    held: WorkflowDeliveryLease,
    intent: LeaseIntent,
    trace: Seq<Exchange>,
)
    requires
        trace.len() > 0,
        lease_held(call, held, intent, trace.drop_last()),
    ensures
        lease_held(call, held, intent, trace),
{
    let (tenant, caller, delivery, binding) = choose|
        tenant: TenantContext,
        caller: PublicKey,
        delivery: WorkflowAgentDeliveryRecord,
        binding: WorkflowDeliveryBinding,
    | #[trigger]
        lease_held_under(
            call,
            tenant,
            caller,
            held,
            intent,
            delivery,
            binding,
            trace.drop_last(),
        );
    lemma_lease_held_under_stays(call, tenant, caller, held, intent, delivery, binding, trace);
}

proof fn lemma_claim_allowed_stays(
    call: DeliveryCall,
    tenant: TenantContext,
    caller: PublicKey,
    wanted: Option<WorkflowDeliveryId>,
    expected: Option<WorkflowDeliveryBinding>,
    lease_seconds: i64,
    trace: Seq<Exchange>,
)
    requires
        trace.len() > 0,
        claim_allowed(call, tenant, caller, wanted, expected, lease_seconds, trace.drop_last()),
    ensures
        claim_allowed(call, tenant, caller, wanted, expected, lease_seconds, trace),
{
    lemma_claim_read_stays(call, tenant, caller, wanted, expected, lease_seconds, trace);
    if let Some(binding) = expected {
        lemma_channel_stays(tenant, binding, trace);
    }
}

proof fn lemma_due_stays(
    call: DeliveryCall,
    tenant: TenantContext,
    held: WorkflowDeliveryLease,
    delivery: WorkflowAgentDeliveryRecord,
    trace: Seq<Exchange>,
)
    requires
        trace.len() > 0,
        due(call, tenant, held, delivery, trace.drop_last()),
    ensures
        due(call, tenant, held, delivery, trace),
{
    let earlier = trace.drop_last();
    lemma_said_grows(trace);
    let caller = choose|caller: PublicKey| #[trigger]
        due_to(call, tenant, caller, held, delivery, earlier);
    lemma_agent_stays(call, tenant, caller, trace);
    if claim_won(call, tenant, caller, held, delivery, earlier) {
        let (wanted, expected, lease_seconds) = choose|
            wanted: Option<WorkflowDeliveryId>,
            expected: Option<WorkflowDeliveryBinding>,
            lease_seconds: i64,
        |
            {
                &&& #[trigger] claim_allowed(
                    call,
                    tenant,
                    caller,
                    wanted,
                    expected,
                    lease_seconds,
                    earlier,
                )
                &&& said(earlier).contains(
                    (
                        Question::ClaimDelivery {
                            community: tenant.community_id,
                            target: caller,
                            wanted,
                            expected,
                            lease_seconds,
                        },
                        RelayReply::Claimed(Ok(Some((held, delivery)))),
                    ),
                )
            };
        lemma_claim_allowed_stays(call, tenant, caller, wanted, expected, lease_seconds, trace);
        assert(claim_won(call, tenant, caller, held, delivery, trace));
    } else {
        let binding = choose|binding: WorkflowDeliveryBinding| #[trigger]
            lease_held_under(
                call,
                tenant,
                caller,
                held,
                LeaseIntent::Read,
                delivery,
                binding,
                earlier,
            );
        lemma_lease_held_under_stays(
            call,
            tenant,
            caller,
            held,
            LeaseIntent::Read,
            delivery,
            binding,
            trace,
        );
        assert(read_under_lease(call, tenant, caller, held, delivery, trace));
    }
    assert(due_to(call, tenant, caller, held, delivery, trace));
}

proof fn lemma_run_stays(
    tenant: TenantContext,
    delivery: WorkflowAgentDeliveryRecord,
    trace: Seq<Exchange>,
)
    requires
        trace.len() > 0,
        run_shown(tenant, delivery, trace.drop_last()),
    ensures
        run_shown(tenant, delivery, trace),
{
    lemma_said_grows(trace);
    let question = Question::LoadRun {
        community: tenant.community_id,
        run_id: delivery.binding.run_id,
    };
    let run = choose|run: WorkflowRunRecord| #[trigger]
        said(trace.drop_last()).contains((question, RelayReply::Run(Ok(run)))) && run_agrees(
            run,
            delivery.binding,
        );
    assert(said(trace).contains((question, RelayReply::Run(Ok(run)))));
}

proof fn lemma_event_stays(
    tenant: TenantContext,
    id: Seq<u8>,
    event: Event,
    trace: Seq<Exchange>,
)
    requires
        trace.len() > 0,
        event_loaded(tenant, id, event, said(trace.drop_last())),
    ensures
        event_loaded(tenant, id, event, said(trace)),
{
    lemma_said_grows(trace);
    let question = Question::LoadEvent { community: tenant.community_id, id };
    let stored = choose|stored: StoredEvent| #[trigger]
        said(trace.drop_last()).contains((question, RelayReply::Event(Ok(Some(stored)))))
            && stored.event == event;
    assert(said(trace).contains((question, RelayReply::Event(Ok(Some(stored))))));
}

/// What a state rests on stays shown.
proof fn lemma_state_stays_shown(call: DeliveryCall, state: DeliveryState, trace: Seq<Exchange>)
    requires
        trace.len() > 0,
        state_shown(call, state, trace.drop_last()),
    ensures
        state_shown(call, state, trace),
{
    lemma_said_grows(trace);
    match state {
        DeliveryState::LookUpAgent { call: _, tenant, caller } => {
            lemma_cleared_stays(call, tenant, caller, trace);
        },
        DeliveryState::ReadBody { call: _, tenant, caller } => {
            lemma_agent_stays(call, tenant, caller, trace);
        },
        DeliveryState::LoadDelivery { tenant, caller, lease, requested } => {
            lemma_agent_stays(call, tenant, caller, trace);
            lemma_lease_requested_stays(call, lease, requested, trace);
        },
        DeliveryState::LoadMessage { tenant, caller, purpose, binding } => {
            lemma_agent_stays(call, tenant, caller, trace);
            lemma_binding_stays(call, tenant, caller, purpose, binding, trace);
        },
        DeliveryState::LoadWorkflow { tenant, caller, purpose, binding, channel_id } => {
            lemma_agent_stays(call, tenant, caller, trace);
            lemma_binding_stays(call, tenant, caller, purpose, binding, trace);
            lemma_message_channel_stays(tenant, binding, channel_id, trace);
        },
        DeliveryState::ClaimDelivery { tenant, caller, wanted, expected, lease_seconds } => {
            lemma_agent_stays(call, tenant, caller, trace);
            lemma_claim_allowed_stays(call, tenant, caller, wanted, expected, lease_seconds, trace);
        },
        DeliveryState::RenewLease { held, lease_seconds } => {
            lemma_lease_held_stays(call, held, LeaseIntent::Renew { lease_seconds }, trace);
        },
        DeliveryState::FinishDelivery { held, disposition } => {
            lemma_lease_held_stays(call, held, LeaseIntent::Finish { disposition }, trace);
        },
        DeliveryState::LoadRun { tenant, held, delivery } => {
            lemma_due_stays(call, tenant, held, delivery, trace);
        },
        DeliveryState::LoadDefinition { tenant, held, delivery } => {
            lemma_due_stays(call, tenant, held, delivery, trace);
            lemma_run_stays(tenant, delivery, trace);
        },
        DeliveryState::LoadVisibleMessage { tenant, held, delivery, definition } => {
            lemma_due_stays(call, tenant, held, delivery, trace);
            lemma_run_stays(tenant, delivery, trace);
            lemma_event_stays(
                tenant,
                delivery.binding.definition_event_id@,
                definition,
                trace,
            );
        },
        DeliveryState::IssueReceipt { tenant, held, delivery, definition, message } => {
            lemma_due_stays(call, tenant, held, delivery, trace);
            lemma_run_stays(tenant, delivery, trace);
            lemma_event_stays(
                tenant,
                delivery.binding.definition_event_id@,
                definition,
                trace,
            );
            lemma_event_stays(tenant, delivery.binding.message_event_id@, message, trace);
        },
        _ => {},
    }
}

/// A step shows what the next state, or the answer, rests on.
#[verifier::spinoff_prover]
#[verifier::rlimit(40)]
proof fn lemma_step_shows(
    call: DeliveryCall,
    state: DeliveryState,
    trace: Seq<Exchange>,
    reply: RelayReply,
    now: Timestamp,
)
    requires
        trace.len() > 0,
        trace.last() == (Exchange { question: delivery_question(state), reply, at: now }),
        state_shown(call, state, trace),
    ensures
        match delivery_step(state, reply, now) {
            DeliveryStepView::Ask(next) => state_shown(call, next, trace),
            DeliveryStepView::Answer(answer) => answer_shown(call, answer, trace),
            DeliveryStepView::Refuse(_) => true,
        },
{
    lemma_said_grows(trace);
    let exchange = (delivery_question(state), reply);
    assert(said(trace).contains(exchange));
    match (state, reply) {
        (_, RelayReply::Admission(Ok(unit))) => {
            assert(unit == ());
        },
        (_, RelayReply::Replay(Ok(unit))) => {
            assert(unit == ());
        },
        (
            DeliveryState::CheckMembership { call: _, tenant, caller, auth_event },
            RelayReply::Membership(Ok(unit)),
        ) => {
            assert(unit == ());
            assert(cleared_by(delivery_request(call), tenant, caller, auth_event, said(trace)));
        },
        (
            DeliveryState::LookUpAgent { call: _, tenant, caller },
            RelayReply::Agent(Ok(Some(policy))),
        ) => {
            if policy.owner is Some {
                assert(owned_agent(tenant, caller, trace));
            }
        },
        (DeliveryState::ReadBody { call: _, tenant, caller }, _) => {
            lemma_body_shows(call, tenant, caller, trace, reply, now);
        },
        (
            DeliveryState::LoadDelivery { tenant, caller, lease, requested },
            RelayReply::Delivery(Ok(Some(delivery))),
        ) => {
            if let Ok(binding) = requested_binding(requested, tenant.community_id, caller) {
                if lease_is_current(
                    delivery,
                    binding,
                    lease.lease_generation,
                    lease.intent.requires_live_claim(),
                    now,
                ) {
                    assert(trace[trace.len() - 1].at == now);
                    assert(lease_shown(tenant, lease, delivery, binding, trace));
                    assert(lease_bound(call, tenant, caller, lease, binding, trace));
                }
            }
        },
        (
            DeliveryState::LoadMessage { tenant, caller: _, purpose: _, binding },
            RelayReply::Event(Ok(Some(stored))),
        ) => {
            if let Some(channel_id) = stored.channel_id {
                assert(message_channel(tenant, binding, channel_id, trace));
            }
        },
        (
            DeliveryState::LoadWorkflow { tenant, caller, purpose, binding, channel_id },
            RelayReply::Workflow(Ok(workflow)),
        ) => {
            if workflow.channel_id == Some(channel_id) {
                assert(channel_shown(tenant, binding, trace));
                if let Purpose::Lease { call: lease, delivery } = purpose {
                    let held = presented_lease(
                        tenant.community_id,
                        caller,
                        lease.delivery_id,
                        lease.lease_generation,
                        now,
                    );
                    assert(lease == (LeaseCall {
                        delivery_id: held.delivery_id,
                        lease_generation: held.lease_generation,
                        intent: lease.intent,
                    }));
                    assert(trace[trace.len() - 1].at == now);
                    assert(seen_at(held.lease_until, trace));
                    assert(lease_held_under(
                        call,
                        tenant,
                        caller,
                        held,
                        lease.intent,
                        delivery,
                        binding,
                        trace,
                    ));
                    if delivery_is_callers(delivery, held, tenant.community_id, caller)
                        && lease.intent is Read {
                        assert(lease.intent == LeaseIntent::Read);
                        assert(read_under_lease(call, tenant, caller, held, delivery, trace));
                        assert(due_to(call, tenant, caller, held, delivery, trace));
                    }
                }
            }
        },
        (
            DeliveryState::ClaimDelivery { tenant, caller, wanted, expected, lease_seconds },
            RelayReply::Claimed(Ok(Some((held, delivery)))),
        ) => {
            assert(claim_allowed(call, tenant, caller, wanted, expected, lease_seconds, trace));
            if delivery_is_callers(delivery, held, tenant.community_id, caller) {
                assert(claim_won(call, tenant, caller, held, delivery, trace));
                assert(due_to(call, tenant, caller, held, delivery, trace));
            }
        },
        (
            DeliveryState::RenewLease { held, lease_seconds },
            RelayReply::Renewed(Ok(RenewOutcome::Renewed(lease_until))),
        ) => {
            assert(renewed_under(call, held, lease_seconds, lease_until, trace));
        },
        (
            DeliveryState::FinishDelivery { held, disposition },
            RelayReply::Finished(Ok(FinishOutcome::Settled)),
        ) => {
            assert(finished_under(call, held, disposition, false, trace));
        },
        (
            DeliveryState::FinishDelivery { held, disposition },
            RelayReply::Finished(Ok(FinishOutcome::AlreadyTerminal(status))),
        ) => {
            if settled_as(status, disposition) {
                assert(finished_under(call, held, disposition, true, trace));
            }
        },
        (
            DeliveryState::LoadRun { tenant, held: _, delivery },
            RelayReply::Run(Ok(run)),
        ) => {
            if run_agrees(run, delivery.binding) {
                assert(run_shown(tenant, delivery, trace));
            }
        },
        (
            DeliveryState::LoadDefinition { tenant, held: _, delivery },
            RelayReply::Event(Ok(Some(stored))),
        ) => {
            assert(definition_shown(tenant, delivery, stored.event, trace));
        },
        (
            DeliveryState::LoadVisibleMessage { tenant, held: _, delivery, definition: _ },
            RelayReply::Event(Ok(Some(stored))),
        ) => {
            assert(message_shown(tenant, delivery, stored.event, trace));
        },
        (
            DeliveryState::IssueReceipt { tenant, held, delivery, definition, message },
            RelayReply::Receipt(Ok(Some(receipt))),
        ) => {
            assert(delivery_answered(
                call,
                tenant,
                delivery,
                held,
                definition,
                message,
                receipt,
                trace,
            ));
            assert(answered_somewhere(
                call,
                delivery,
                held,
                definition,
                message,
                receipt,
                trace,
            ));
        },
        _ => {},
    }
}

/// What was read of the body shows what the next state rests on.
proof fn lemma_body_shows(
    call: DeliveryCall,
    tenant: TenantContext,
    caller: PublicKey,
    trace: Seq<Exchange>,
    reply: RelayReply,
    now: Timestamp,
)
    requires
        said(trace).contains((Question::ReadBody { bytes: call.body@ }, reply)),
        agent_cleared(call, tenant, caller, trace),
    ensures
        delivery_step(DeliveryState::ReadBody { call, tenant, caller }, reply, now) matches
            DeliveryStepView::Ask(next) ==> state_shown(call, next, trace),
{
    match delivery_step(DeliveryState::ReadBody { call, tenant, caller }, reply, now) {
        DeliveryStepView::Ask(DeliveryState::LoadDelivery {
            tenant: _,
            caller: _,
            lease,
            requested,
        }) => {
            assert(lease_in(call.endpoint, reply) == Some((lease, requested)));
            assert(lease_requested(call, lease, requested, trace));
        },
        DeliveryStepView::Ask(DeliveryState::LoadMessage {
            tenant: _,
            caller: _,
            purpose,
            binding,
        }) => {
            if let (RelayReply::ClaimBody(Some(request)), Purpose::Claim { wanted, lease_seconds })
                = (reply, purpose) {
                assert(claim_asks(request, tenant, caller, wanted, Some(binding), lease_seconds));
                assert(claim_read(
                    call,
                    tenant,
                    caller,
                    wanted,
                    Some(binding),
                    lease_seconds,
                    trace,
                ));
            }
        },
        DeliveryStepView::Ask(DeliveryState::ClaimDelivery {
            tenant: _,
            caller: _,
            wanted,
            expected,
            lease_seconds,
        }) => {
            if let RelayReply::ClaimBody(Some(request)) = reply {
                assert(claim_asks(request, tenant, caller, wanted, expected, lease_seconds));
                assert(claim_read(call, tenant, caller, wanted, expected, lease_seconds, trace));
            }
        },
        _ => {},
    }
}

/// The reply is to the question that the state asks.
pub open spec fn delivery_reply_fits(state: DeliveryState, reply: RelayReply) -> bool {
    match state {
        DeliveryState::BindCommunity { call: _ } => reply is Community,
        DeliveryState::VerifyAuth { call: _, tenant: _ } => reply is Auth,
        DeliveryState::Admit { call: _, tenant: _, caller: _, auth_event: _ } => reply is Admission,
        DeliveryState::CheckReplay { call: _, tenant: _, caller: _, auth_event: _ } => {
            reply is Replay
        },
        DeliveryState::CheckMembership { call: _, tenant: _, caller: _, auth_event: _ } => reply is Membership,
        DeliveryState::LookUpAgent { call: _, tenant: _, caller: _ } => reply is Agent,
        DeliveryState::ReadBody { call, tenant: _, caller: _ } => match call.endpoint {
            DeliveryEndpoint::Claim => reply is ClaimBody,
            DeliveryEndpoint::Read { delivery_id: _ } => reply is ReadBody,
            DeliveryEndpoint::Renew { delivery_id: _ } => reply is RenewBody,
            DeliveryEndpoint::Finish { delivery_id: _ } => reply is FinishBody,
        },
        DeliveryState::LoadDelivery { tenant: _, caller: _, lease: _, requested: _ } => {
            reply is Delivery
        },
        DeliveryState::LoadMessage { tenant: _, caller: _, purpose: _, binding: _ } => {
            reply is Event
        },
        DeliveryState::LoadWorkflow {
            tenant: _,
            caller: _,
            purpose: _,
            binding: _,
            channel_id: _,
        } => reply is Workflow,
        DeliveryState::ClaimDelivery {
            tenant: _,
            caller: _,
            wanted: _,
            expected: _,
            lease_seconds: _,
        } => reply is Claimed,
        DeliveryState::RenewLease { held: _, lease_seconds: _ } => reply is Renewed,
        DeliveryState::FinishDelivery { held: _, disposition: _ } => reply is Finished,
        DeliveryState::LoadRun { tenant: _, held: _, delivery: _ } => reply is Run,
        DeliveryState::LoadDefinition { tenant: _, held: _, delivery: _ } => reply is Event,
        DeliveryState::LoadVisibleMessage { tenant: _, held: _, delivery: _, definition: _ } => {
            reply is Event
        },
        DeliveryState::IssueReceipt {
            tenant: _,
            held: _,
            delivery: _,
            definition: _,
            message: _,
        } => reply is Receipt,
    }
}

/// How many questions a request has put behind it at most.
pub open spec fn delivery_progress(state: DeliveryState) -> int {
    match state {
        DeliveryState::BindCommunity { call: _ } => 0,
        DeliveryState::VerifyAuth { call: _, tenant: _ } => 1,
        DeliveryState::Admit { call: _, tenant: _, caller: _, auth_event: _ } => 2,
        DeliveryState::CheckReplay { call: _, tenant: _, caller: _, auth_event: _ } => 3,
        DeliveryState::CheckMembership { call: _, tenant: _, caller: _, auth_event: _ } => 4,
        DeliveryState::LookUpAgent { call: _, tenant: _, caller: _ } => 5,
        DeliveryState::ReadBody { call: _, tenant: _, caller: _ } => 6,
        DeliveryState::LoadDelivery { tenant: _, caller: _, lease: _, requested: _ } => 7,
        DeliveryState::LoadMessage { tenant: _, caller: _, purpose: _, binding: _ } => 8,
        DeliveryState::LoadWorkflow {
            tenant: _,
            caller: _,
            purpose: _,
            binding: _,
            channel_id: _,
        } => 9,
        DeliveryState::ClaimDelivery {
            tenant: _,
            caller: _,
            wanted: _,
            expected: _,
            lease_seconds: _,
        } => 10,
        DeliveryState::RenewLease { held: _, lease_seconds: _ } => 10,
        DeliveryState::FinishDelivery { held: _, disposition: _ } => 10,
        DeliveryState::LoadRun { tenant: _, held: _, delivery: _ } => 11,
        DeliveryState::LoadDefinition { tenant: _, held: _, delivery: _ } => 12,
        DeliveryState::LoadVisibleMessage { tenant: _, held: _, delivery: _, definition: _ } => 13,
        DeliveryState::IssueReceipt {
            tenant: _,
            held: _,
            delivery: _,
            definition: _,
            message: _,
        } => 14,
    }
}

/// Every reply to the question asked brings a request forward, so that no request
/// asks more than fifteen questions.
#[verifier::spinoff_prover]
#[verifier::rlimit(60)]
pub proof fn law_deliveries_make_progress(
    state: DeliveryState,
    reply: RelayReply,
    now: Timestamp,
)
    requires
        delivery_reply_fits(state, reply),
    ensures
        0 <= delivery_progress(state) <= 14,
        delivery_step(state, reply, now) matches DeliveryStepView::Ask(next) ==> delivery_progress(
            next,
        ) > delivery_progress(state),
{
}

/// A reply to another question than the one asked changes nothing.
#[verifier::spinoff_prover]
#[verifier::rlimit(60)]
pub proof fn law_other_replies_change_nothing(
    state: DeliveryState,
    reply: RelayReply,
    now: Timestamp,
)
    requires
        !delivery_reply_fits(state, reply),
    ensures
        delivery_step(state, reply, now) == DeliveryStepView::Ask(state),
{
}

/// The run of a delivery has been told.
pub open spec fn run_told(trace: Seq<Exchange>) -> bool {
    exists|k: int|
        0 <= k < trace.len() && (#[trigger] trace[k]).question is LoadRun && trace[k].reply is Run
}

/// Some cleared agent asked for this binding, and that is refused so.
pub open spec fn binding_refused(
    call: DeliveryCall,
    requested: DeliveryBindingRequest,
    error: ErrorView,
    trace: Seq<Exchange>,
) -> bool {
    exists|tenant: TenantContext, caller: PublicKey| #[trigger]
        agent_cleared(call, tenant, caller, trace) && requested_binding(
            requested,
            tenant.community_id,
            caller,
        ) == Err::<WorkflowDeliveryBinding, _>(error)
}

/// A lease was presented with a binding of the caller's own, and it is not that of
/// this row at this instant.
pub open spec fn lease_fails(
    call: DeliveryCall,
    tenant: TenantContext,
    caller: PublicKey,
    lease: LeaseCall,
    binding: WorkflowDeliveryBinding,
    delivery: WorkflowAgentDeliveryRecord,
    now: Timestamp,
    trace: Seq<Exchange>,
) -> bool {
    &&& agent_cleared(call, tenant, caller, trace)
    &&& lease_bound(call, tenant, caller, lease, binding, trace)
    &&& !lease_is_current(delivery, binding, lease.lease_generation, lease.intent !is Finish, now)
}

/// The lease that was presented is not that of this row at this instant.
pub open spec fn lease_is_stale(
    call: DeliveryCall,
    delivery: WorkflowAgentDeliveryRecord,
    now: Timestamp,
    trace: Seq<Exchange>,
) -> bool {
    exists|
        tenant: TenantContext,
        caller: PublicKey,
        lease: LeaseCall,
        binding: WorkflowDeliveryBinding,
    | #[trigger]
        lease_fails(call, tenant, caller, lease, binding, delivery, now, trace)
}

/// The binding that was presented with a lease is refused so.
pub open spec fn lease_binding_refused(
    call: DeliveryCall,
    error: ErrorView,
    trace: Seq<Exchange>,
) -> bool {
    exists|lease: LeaseCall, requested: DeliveryBindingRequest| #[trigger]
        lease_requested(call, lease, requested, trace) && binding_refused(
            call,
            requested,
            error,
            trace,
        )
}

/// The message of some shown binding is in a channel, and this one is another or
/// none.
pub open spec fn channels_differ(channel: Option<Uuid>, trace: Seq<Exchange>) -> bool {
    exists|tenant: TenantContext, binding: WorkflowDeliveryBinding, channel_id: Uuid| #[trigger]
        message_channel(tenant, binding, channel_id, trace) && channel != Some(channel_id)
}

/// The row that a lease to read was presented for is another delivery's.
pub open spec fn row_is_foreign(call: DeliveryCall, trace: Seq<Exchange>) -> bool {
    exists|
        tenant: TenantContext,
        caller: PublicKey,
        held: WorkflowDeliveryLease,
        delivery: WorkflowAgentDeliveryRecord,
    |
        #[trigger] read_under_lease(call, tenant, caller, held, delivery, trace)
            && !delivery_is_callers(delivery, held, tenant.community_id, caller)
}

/// What was claimed is not the caller's.
pub open spec fn claim_is_foreign(
    call: DeliveryCall,
    held: WorkflowDeliveryLease,
    delivery: WorkflowAgentDeliveryRecord,
    trace: Seq<Exchange>,
) -> bool {
    exists|tenant: TenantContext, caller: PublicKey| #[trigger]
        agent_cleared(call, tenant, caller, trace) && !delivery_is_callers(
            delivery,
            held,
            tenant.community_id,
            caller,
        )
}

/// A delivery is due, and the run is not the one of its binding.
pub open spec fn run_is_foreign(
    call: DeliveryCall,
    run: WorkflowRunRecord,
    trace: Seq<Exchange>,
) -> bool {
    exists|
        tenant: TenantContext,
        held: WorkflowDeliveryLease,
        delivery: WorkflowAgentDeliveryRecord,
    |
        #[trigger] due(call, tenant, held, delivery, trace) && !run_agrees(run, delivery.binding)
}

/// The body of a claim is a cause for this refusal: the length of its lease, a
/// binding without a delivery, or the binding itself.
pub open spec fn claim_refused(
    call: DeliveryCall,
    request: ClaimDeliveryRequest,
    error: ErrorView,
    trace: Seq<Exchange>,
) -> bool {
    if request.lease_seconds < 15 || request.lease_seconds > 300 {
        error == (ErrorView::Refused {
            status: 400,
            message: "lease_seconds must be between 15 and 300"@,
        })
    } else {
        &&& request.expected matches Some(expected)
        &&& if request.delivery_id is None {
            error == (ErrorView::Refused {
                status: 400,
                message: "expected binding requires delivery_id"@,
            })
        } else {
            binding_refused(call, expected, error, trace)
        }
    }
}

/// The last reply is a cause for this refusal.
pub open spec fn refused_for_cause(
    call: DeliveryCall,
    error: ErrorView,
    trace: Seq<Exchange>,
) -> bool {
    let missing = ErrorView::Refused { status: 404, message: "delivery not found"@ };
    let stale = ErrorView::Refused { status: 409, message: "delivery lease is not current"@ };
    let gone = ErrorView::Refused { status: 409, message: "delivery binding is unavailable"@ };
    let question = trace.last().question;
    trace.len() > 0 && match trace.last().reply {
        // A service refused the request, and its words are passed on.
        RelayReply::Auth(Err(refused)) => question is VerifyAuth && error == refused@,
        RelayReply::Admission(Err(refused)) => question is Admit && error == refused@,
        RelayReply::Replay(Err(refused)) => question is CheckReplay && error == refused@,
        RelayReply::Membership(Err(refused)) => question is CheckMembership && error == refused@,
        // The caller is nobody that deliveries are for.
        RelayReply::Community(None) => question is BindCommunity && error == missing,
        RelayReply::Agent(Ok(None)) => question is LookUpAgent && error == missing,
        RelayReply::Agent(Ok(Some(policy))) => question is LookUpAgent && policy.owner is None
            && error == missing,
        // The body is not one of the endpoint.
        RelayReply::ClaimBody(None) => call.endpoint is Claim && error == (ErrorView::Refused {
            status: 400,
            message: "invalid delivery claim JSON"@,
        }),
        RelayReply::ReadBody(None) => call.endpoint is Read && error == (ErrorView::Refused {
            status: 400,
            message: "invalid delivery read JSON"@,
        }),
        RelayReply::RenewBody(None) => call.endpoint is Renew && error == (ErrorView::Refused {
            status: 400,
            message: "invalid delivery renewal JSON"@,
        }),
        RelayReply::FinishBody(None) => call.endpoint is Finish && error == (ErrorView::Refused {
            status: 400,
            message: "invalid delivery finish JSON"@,
        }),
        RelayReply::ClaimBody(Some(request)) => call.endpoint is Claim && claim_refused(
            call,
            request,
            error,
            trace,
        ),
        RelayReply::RenewBody(Some(request)) => {
            &&& call.endpoint is Renew
            &&& request.lease_seconds < 15 || request.lease_seconds > 300
            &&& error == (ErrorView::Refused {
                status: 400,
                message: "lease_seconds must be between 15 and 300"@,
            })
        },
        // There is no such delivery, or the lease is not its.
        RelayReply::Delivery(Ok(None)) => question is LoadDelivery && error == missing,
        RelayReply::Delivery(Ok(Some(delivery))) => {
            &&& question is LoadDelivery
            &&& {
                ||| lease_binding_refused(call, error, trace)
                ||| error == stale && lease_is_stale(call, delivery, trace.last().at, trace)
            }
        },
        // Before the delivery is due, its message or its workflow is not there or not
        // in one channel with the other; after that, an artifact is not there.
        RelayReply::Event(Ok(None)) => question is LoadEvent && error == if run_told(trace) {
            gone
        } else {
            missing
        },
        RelayReply::Event(Ok(Some(stored))) => question is LoadEvent && !run_told(trace)
            && stored.channel_id is None && error == missing,
        RelayReply::Workflow(Err(_)) => question is LoadWorkflow && error == missing,
        RelayReply::Workflow(Ok(workflow)) => {
            &&& question is LoadWorkflow
            &&& channels_differ(workflow.channel_id, trace) || row_is_foreign(call, trace)
            &&& error == missing
        },
        RelayReply::Claimed(Ok(None)) => question is ClaimDelivery && error == missing,
        RelayReply::Claimed(Ok(Some((held, delivery)))) => {
            &&& question is ClaimDelivery
            &&& claim_is_foreign(call, held, delivery, trace)
            &&& error == missing
        },
        RelayReply::Run(Ok(run)) => question is LoadRun && run_is_foreign(call, run, trace)
            && error == gone,
        RelayReply::Receipt(Ok(None)) => question is IssueReceipt && error == gone,
        // The lease was lost, or the delivery was settled otherwise.
        RelayReply::Renewed(Ok(outcome)) => question is RenewLease && outcome is LeaseLost && error
            == stale,
        RelayReply::Finished(Ok(FinishOutcome::LeaseLost)) => question is FinishDelivery && error
            == stale,
        RelayReply::Finished(Ok(FinishOutcome::AlreadyTerminal(status))) => {
            &&& question matches Question::FinishDelivery { lease: _, outcome }
            &&& !(outcome is Finished && status is Finished)
            &&& !(outcome is Failed && status is Failed)
            &&& error == stale
        },
        // A service failed.
        RelayReply::Agent(Err(text)) => question is LookUpAgent && error == (ErrorView::Internal {
            message: "delivery target lookup: "@ + text@,
        }),
        RelayReply::Delivery(Err(text)) => question is LoadDelivery && error
            == (ErrorView::Internal { message: "read workflow delivery: "@ + text@ }),
        RelayReply::Event(Err(text)) => question is LoadEvent && {
            ||| error == (ErrorView::Internal { message: "delivery message lookup: "@ + text@ })
            ||| run_told(trace) && error == (ErrorView::Internal {
                message: "delivery definition lookup: "@ + text@,
            })
        },
        RelayReply::Claimed(Err(text)) => question is ClaimDelivery && error
            == (ErrorView::Internal { message: "claim workflow delivery: "@ + text@ }),
        RelayReply::Renewed(Err(text)) => question is RenewLease && error == (ErrorView::Internal {
            message: "renew workflow delivery: "@ + text@,
        }),
        RelayReply::Finished(Err(text)) => question is FinishDelivery && error
            == (ErrorView::Internal { message: "finish workflow delivery: "@ + text@ }),
        RelayReply::Run(Err(LookupError::NotFound(text))) => question is LoadRun && error
            == (ErrorView::Internal { message: "delivery run lookup: "@ + text@ }),
        RelayReply::Run(Err(LookupError::Failed(text))) => question is LoadRun && error
            == (ErrorView::Internal { message: "delivery run lookup: "@ + text@ }),
        RelayReply::Receipt(Err(text)) => question is IssueReceipt && error
            == (ErrorView::Internal { message: "delivery receipt: "@ + text@ }),
        _ => false,
    }
}

/// A request of an agent is refused only for cause: the last reply in its trace
/// says that a gate was not passed, that the body cannot be used, that the lease
/// is not the row's, that something is not there, or that a service failed, and
/// the refusal says so. An agent that gives no cause is not refused.
pub proof fn law_deliveries_are_refused_only_for_cause(
    call: DeliveryCall,
    replies: Seq<(RelayReply, Timestamp)>,
)
    ensures
        delivery_run(call, replies) matches DeliveryStepView::Refuse(error) ==> refused_for_cause(
            call,
            error,
            delivery_trace(call, replies),
        ),
    decreases replies.len(),
{
    if replies.len() > 0 {
        let earlier = replies.drop_last();
        law_deliveries_are_refused_only_for_cause(call, earlier);
        if let DeliveryStepView::Ask(state) = delivery_run(call, earlier) {
            law_deliveries_pass_every_gate(call, earlier);
            lemma_the_run_is_told_once(call, earlier);
            let trace = delivery_trace(call, replies);
            assert(trace.drop_last() =~= delivery_trace(call, earlier));
            lemma_run_telling(trace);
            lemma_state_stays_shown(call, state, trace);
            lemma_refusals_have_a_cause(call, state, trace, replies.last().0, replies.last().1);
        }
    }
}

/// The run has been told exactly where it lies behind a request.
proof fn lemma_the_run_is_told_once(call: DeliveryCall, replies: Seq<(RelayReply, Timestamp)>)
    ensures
        delivery_run(call, replies) matches DeliveryStepView::Ask(state) ==> (run_told(
            delivery_trace(call, replies),
        ) <==> delivery_progress(state) > 11),
    decreases replies.len(),
{
    if replies.len() > 0 {
        let earlier = replies.drop_last();
        lemma_the_run_is_told_once(call, earlier);
        if let DeliveryStepView::Ask(state) = delivery_run(call, earlier) {
            let trace = delivery_trace(call, replies);
            assert(trace.drop_last() =~= delivery_trace(call, earlier));
            lemma_run_telling(trace);
            let (reply, now) = replies.last();
            if delivery_reply_fits(state, reply) {
                lemma_no_state_is_left_out(state, reply, now);
            } else {
                law_other_replies_change_nothing(state, reply, now);
            }
        }
    }
}

/// Only the reply about the run takes a request behind it.
#[verifier::spinoff_prover]
#[verifier::rlimit(60)]
proof fn lemma_no_state_is_left_out(state: DeliveryState, reply: RelayReply, now: Timestamp)
    requires
        delivery_reply_fits(state, reply),
    ensures
        delivery_step(state, reply, now) matches DeliveryStepView::Ask(next) ==> (delivery_progress(
            next,
        ) > 11 <==> delivery_progress(state) >= 11),
        reply is Run <==> state is LoadRun,
        delivery_question(state) is LoadRun <==> state is LoadRun,
{
}

/// The run has been told where it was before, or where the last exchange tells it.
proof fn lemma_run_telling(trace: Seq<Exchange>)
    requires
        trace.len() > 0,
    ensures
        run_told(trace) <==> run_told(trace.drop_last()) || (trace.last().question is LoadRun
            && trace.last().reply is Run),
{
    let before = trace.drop_last();
    if run_told(before) {
        let k = choose|k: int|
            0 <= k < before.len() && (#[trigger] before[k]).question is LoadRun && before[k].reply
                is Run;
        assert(trace[k] == before[k]);
    }
    assert(trace[trace.len() - 1] == trace.last());
    if run_told(trace) {
        let k = choose|k: int|
            0 <= k < trace.len() && (#[trigger] trace[k]).question is LoadRun && trace[k].reply
                is Run;
        if k < before.len() {
            assert(before[k] == trace[k]);
        }
    }
}

/// A step that refuses has a cause.
#[verifier::spinoff_prover]
#[verifier::rlimit(60)]
proof fn lemma_refusals_have_a_cause(
    call: DeliveryCall,
    state: DeliveryState,
    trace: Seq<Exchange>,
    reply: RelayReply,
    now: Timestamp,
)
    requires
        trace.len() > 0,
        trace.last() == (Exchange { question: delivery_question(state), reply, at: now }),
        state_shown(call, state, trace),
        run_told(trace) <==> delivery_progress(state) > 11 || (state is LoadRun && reply is Run),
    ensures
        delivery_step(state, reply, now) matches DeliveryStepView::Refuse(error)
            ==> refused_for_cause(call, error, trace),
{
    match (state, reply) {
        (
            DeliveryState::ReadBody { call: _, tenant, caller },
            RelayReply::ClaimBody(Some(request)),
        ) => {
            law_leases_are_of_15_to_300_seconds(request.lease_seconds);
            assert(agent_cleared(call, tenant, caller, trace));
        },
        (
            DeliveryState::ReadBody { call: _, tenant: _, caller: _ },
            RelayReply::RenewBody(Some(request)),
        ) => {
            law_leases_are_of_15_to_300_seconds(request.lease_seconds);
        },
        (
            DeliveryState::LoadDelivery { tenant, caller, lease, requested },
            RelayReply::Delivery(Ok(Some(delivery))),
        ) => {
            assert(agent_cleared(call, tenant, caller, trace));
            assert(lease_requested(call, lease, requested, trace));
            match requested_binding(requested, tenant.community_id, caller) {
                Ok(binding) => {
                    assert(lease_bound(call, tenant, caller, lease, binding, trace));
                    if !lease_is_current(
                        delivery,
                        binding,
                        lease.lease_generation,
                        lease.intent !is Finish,
                        now,
                    ) {
                        assert(lease_fails(
                            call,
                            tenant,
                            caller,
                            lease,
                            binding,
                            delivery,
                            now,
                            trace,
                        ));
                    }
                },
                Err(error) => {
                    assert(binding_refused(call, requested, error, trace));
                },
            }
        },
        (
            DeliveryState::LoadWorkflow { tenant, caller, purpose, binding, channel_id },
            RelayReply::Workflow(Ok(workflow)),
        ) => {
            assert(message_channel(tenant, binding, channel_id, trace));
            if workflow.channel_id == Some(channel_id) {
                lemma_said_grows(trace);
                assert(said(trace).contains((delivery_question(state), reply)));
                assert(channel_shown(tenant, binding, trace));
                if let Purpose::Lease { call: lease, delivery } = purpose {
                    let held = presented_lease(
                        tenant.community_id,
                        caller,
                        lease.delivery_id,
                        lease.lease_generation,
                        now,
                    );
                    assert(trace[trace.len() - 1].at == now);
                    assert(seen_at(held.lease_until, trace));
                    assert(lease == (LeaseCall {
                        delivery_id: held.delivery_id,
                        lease_generation: held.lease_generation,
                        intent: lease.intent,
                    }));
                    assert(lease_held_under(
                        call,
                        tenant,
                        caller,
                        held,
                        lease.intent,
                        delivery,
                        binding,
                        trace,
                    ));
                    if lease.intent is Read {
                        assert(lease.intent == LeaseIntent::Read);
                        assert(read_under_lease(call, tenant, caller, held, delivery, trace));
                    }
                }
            }
        },
        (
            DeliveryState::ClaimDelivery { tenant, caller, wanted: _, expected: _, lease_seconds: _ },
            RelayReply::Claimed(Ok(Some((held, delivery)))),
        ) => {
            assert(agent_cleared(call, tenant, caller, trace));
        },
        (DeliveryState::LoadRun { tenant, held, delivery }, RelayReply::Run(Ok(run))) => {
            assert(due(call, tenant, held, delivery, trace));
        },
        _ => {},
    }
}

/// What a service grants to an agent is what the agent gets: a renewed lease with
/// its new end; a settlement, and one that was settled alike before as a replay;
/// and a delivery with the very receipt that was issued for its message.
pub proof fn law_what_is_granted_is_answered(
    state: DeliveryState,
    reply: RelayReply,
    now: Timestamp,
)
    ensures
        delivery_question(state) is RenewLease ==> (reply matches RelayReply::Renewed(
            Ok(RenewOutcome::Renewed(until)),
        ) ==> delivery_step(state, reply, now) == DeliveryStepView::Answer(
            DeliveryAnswer::Renewed { lease_until: until },
        )),
        delivery_question(state) matches Question::FinishDelivery { lease: _, outcome } ==> {
            &&& reply == RelayReply::Finished(Ok(FinishOutcome::Settled)) ==> delivery_step(
                state,
                reply,
                now,
            ) == DeliveryStepView::Answer(DeliveryAnswer::Finished { replayed: false })
            &&& (reply matches RelayReply::Finished(Ok(FinishOutcome::AlreadyTerminal(status)))
                ==> (outcome is Finished && status is Finished) || (outcome is Failed && status
                is Failed) ==> delivery_step(state, reply, now) == DeliveryStepView::Answer(
                DeliveryAnswer::Finished { replayed: true },
            ))
        },
        delivery_question(state) matches Question::IssueReceipt {
            community: _,
            delivery_id,
            binding,
            message: asked,
        } ==> (reply matches RelayReply::Receipt(Ok(Some(issued))) ==> {
            &&& delivery_step(state, reply, now) matches DeliveryStepView::Answer(
                DeliveryAnswer::Delivery { delivery, held: _, definition: _, message, receipt },
            )
            &&& delivery.id == delivery_id
            &&& delivery.binding == binding
            &&& message == asked
            &&& receipt == issued
        }),
{
}

/// A settlement is asked for as the body of the request says: under the lease that
/// it presents, as finished exactly where it says finished, and as failed exactly
/// where it says failed.
pub open spec fn settlement_of_body(
    call: DeliveryCall,
    lease: WorkflowDeliveryLease,
    outcome: WorkflowDeliveryOutcome,
    trace: Seq<Exchange>,
) -> bool {
    exists|request: FinishDeliveryRequest| #[trigger]
        said(trace).contains(
            (Question::ReadBody { bytes: call.body@ }, RelayReply::FinishBody(Some(request))),
        ) && {
            &&& call.endpoint == (DeliveryEndpoint::Finish { delivery_id: lease.delivery_id })
            &&& lease.lease_generation == request.lease_generation
            &&& outcome is Finished <==> request.disposition is Finished
            &&& outcome is Failed <==> request.disposition is Failed
        }
}

/// A renewal is asked for as the body of the request says: under the lease that it
/// presents, and for as long.
pub open spec fn renewal_of_body(
    call: DeliveryCall,
    lease: WorkflowDeliveryLease,
    lease_seconds: i64,
    trace: Seq<Exchange>,
) -> bool {
    exists|request: RenewDeliveryRequest| #[trigger]
        said(trace).contains(
            (Question::ReadBody { bytes: call.body@ }, RelayReply::RenewBody(Some(request))),
        ) && {
            &&& call.endpoint == (DeliveryEndpoint::Renew { delivery_id: lease.delivery_id })
            &&& lease.lease_generation == request.lease_generation
            &&& lease_seconds == request.lease_seconds
            &&& 15 <= lease_seconds <= 300
        }
}

/// A claim is made as the body of the request says: of the delivery that it names,
/// or of any where it names none, with the binding that it expects, and for as
/// long.
pub open spec fn claim_of_body(
    call: DeliveryCall,
    wanted: Option<WorkflowDeliveryId>,
    expected: Option<WorkflowDeliveryBinding>,
    lease_seconds: i64,
    trace: Seq<Exchange>,
) -> bool {
    exists|request: ClaimDeliveryRequest| #[trigger]
        said(trace).contains(
            (Question::ReadBody { bytes: call.body@ }, RelayReply::ClaimBody(Some(request))),
        ) && {
            &&& call.endpoint is Claim
            &&& wanted is Some <==> request.delivery_id is Some
            &&& wanted is Some ==> wanted->0.id == request.delivery_id->0
            &&& expected is Some <==> request.expected is Some
            &&& expected is Some ==> wanted is Some && request_denotes(
                request.expected->0,
                expected->0,
            )
            &&& lease_seconds == request.lease_seconds
            &&& 15 <= lease_seconds <= 300
        }
}

/// What the store is asked to do is what the body of the request asks for: to
/// settle with its disposition, to renew for its length, to claim what it names.
pub proof fn law_the_store_is_asked_what_the_body_says(
    call: DeliveryCall,
    replies: Seq<(RelayReply, Timestamp)>,
)
    ensures
        delivery_run(call, replies) matches DeliveryStepView::Ask(state) ==> {
            let trace = delivery_trace(call, replies);
            match delivery_question(state) {
                Question::FinishDelivery { lease, outcome } => settlement_of_body(
                    call,
                    lease,
                    outcome,
                    trace,
                ),
                Question::RenewLease { lease, lease_seconds } => renewal_of_body(
                    call,
                    lease,
                    lease_seconds,
                    trace,
                ),
                Question::ClaimDelivery {
                    community: _,
                    target: _,
                    wanted,
                    expected,
                    lease_seconds,
                } => claim_of_body(call, wanted, expected, lease_seconds, trace),
                _ => true,
            }
        },
{
    law_deliveries_pass_every_gate(call, replies);
    let trace = delivery_trace(call, replies);
    if let DeliveryStepView::Ask(state) = delivery_run(call, replies) {
        match state {
            DeliveryState::FinishDelivery { held, disposition } => {
                let body = lemma_held_lease_is_in_the_body(
                    call,
                    held,
                    LeaseIntent::Finish { disposition },
                    trace,
                );
                assert(body is FinishBody);
                let request = body->FinishBody_0->0;
                assert(said(trace).contains(
                    (
                        Question::ReadBody { bytes: call.body@ },
                        RelayReply::FinishBody(Some(request)),
                    ),
                ));
            },
            DeliveryState::RenewLease { held, lease_seconds } => {
                let body = lemma_held_lease_is_in_the_body(
                    call,
                    held,
                    LeaseIntent::Renew { lease_seconds },
                    trace,
                );
                assert(body is RenewBody);
                let request = body->RenewBody_0->0;
                law_leases_are_of_15_to_300_seconds(request.lease_seconds);
                assert(said(trace).contains(
                    (
                        Question::ReadBody { bytes: call.body@ },
                        RelayReply::RenewBody(Some(request)),
                    ),
                ));
            },
            DeliveryState::ClaimDelivery { tenant, caller, wanted, expected, lease_seconds } => {
                let request = choose|request: ClaimDeliveryRequest| #[trigger]
                    said(trace).contains(
                        (
                            Question::ReadBody { bytes: call.body@ },
                            RelayReply::ClaimBody(Some(request)),
                        ),
                    ) && claim_asks(request, tenant, caller, wanted, expected, lease_seconds);
                law_leases_are_of_15_to_300_seconds(request.lease_seconds);
                if let Some(requested) = request.expected {
                    law_requested_binding_is_what_the_request_says(
                        requested,
                        tenant.community_id,
                        caller,
                    );
                }
                assert(said(trace).contains(
                    (
                        Question::ReadBody { bytes: call.body@ },
                        RelayReply::ClaimBody(Some(request)),
                    ),
                ));
            },
            _ => {},
        }
    }
}

/// A lease that is held is the one that the body presents.
proof fn lemma_held_lease_is_in_the_body(
    call: DeliveryCall,
    held: WorkflowDeliveryLease,
    intent: LeaseIntent,
    trace: Seq<Exchange>,
) -> (body: RelayReply)
    requires
        lease_held(call, held, intent, trace),
    ensures
        said(trace).contains((Question::ReadBody { bytes: call.body@ }, body)),
        lease_in(call.endpoint, body) matches Some((lease, _)) && lease == (LeaseCall {
            delivery_id: held.delivery_id,
            lease_generation: held.lease_generation,
            intent,
        }),
{
    let (tenant, caller, delivery, binding) = choose|
        tenant: TenantContext,
        caller: PublicKey,
        delivery: WorkflowAgentDeliveryRecord,
        binding: WorkflowDeliveryBinding,
    | #[trigger]
        lease_held_under(call, tenant, caller, held, intent, delivery, binding, trace);
    let lease = LeaseCall {
        delivery_id: held.delivery_id,
        lease_generation: held.lease_generation,
        intent,
    };
    let requested = choose|requested: DeliveryBindingRequest| #[trigger]
        lease_requested(call, lease, requested, trace) && requested_binding(
            requested,
            tenant.community_id,
            caller,
        ) == Ok::<_, ErrorView>(binding);
    choose|body: RelayReply| #[trigger]
        said(trace).contains((Question::ReadBody { bytes: call.body@ }, body)) && lease_in(
            call.endpoint,
            body,
        ) == Some((lease, requested))
}

/// Every reply is to the question that was asked.
pub open spec fn replies_fit(call: DeliveryCall, replies: Seq<(RelayReply, Timestamp)>) -> bool {
    forall|n: int|
        0 <= n < replies.len() ==> (#[trigger] delivery_run(call, replies.take(n)) matches
            DeliveryStepView::Ask(state) ==> delivery_reply_fits(state, replies[n].0))
}

/// A request comes to its end: after fifteen replies to what it asked, it is
/// answered or refused. So a request that gives no cause for refusal is answered.
pub proof fn law_deliveries_come_to_an_end(
    call: DeliveryCall,
    replies: Seq<(RelayReply, Timestamp)>,
)
    requires
        replies_fit(call, replies),
    ensures
        delivery_run(call, replies) matches DeliveryStepView::Ask(state) ==> replies.len()
            <= delivery_progress(state) <= 14,
    decreases replies.len(),
{
    if replies.len() > 0 {
        let earlier = replies.drop_last();
        let last = replies.len() - 1;
        assert forall|n: int| 0 <= n < earlier.len() implies (#[trigger] delivery_run(
            call,
            earlier.take(n),
        ) matches DeliveryStepView::Ask(state) ==> delivery_reply_fits(state, earlier[n].0)) by {
            assert(earlier.take(n) =~= replies.take(n));
        }
        law_deliveries_come_to_an_end(call, earlier);
        assert(replies.take(last) =~= earlier);
        if let DeliveryStepView::Ask(state) = delivery_run(call, earlier) {
            assert(delivery_run(call, replies.take(last)) == DeliveryStepView::Ask(state));
            assert(delivery_reply_fits(state, replies[last].0));
            law_deliveries_make_progress(state, replies.last().0, replies.last().1);
        }
    }
}

/// A lease that is presented to settle need not live any more; to read or to renew
/// it must.
pub proof fn law_only_settling_outlives_the_claim(intent: LeaseIntent)
    ensures
        intent is Finish ==> !intent.requires_live_claim(),
        intent is Read ==> intent.requires_live_claim(),
        intent is Renew ==> intent.requires_live_claim(),
{
}

/// What a request of an agent says of itself is what it was sent with: its host or
/// none, its membership tag or none, and its very body.
pub proof fn law_deliveries_say_what_they_were_sent_with(call: DeliveryCall)
    ensures
        delivery_request(call).method is Post,
        delivery_request(call).body == Some(call.body@),
        call.host matches Some(host) ==> delivery_request(call).host == host@,
        call.host is None ==> delivery_request(call).host.len() == 0,
        call.auth_tag matches Some(tag) ==> delivery_request(call).auth_tag == Some(tag@),
        call.auth_tag is None ==> delivery_request(call).auth_tag is None,
{
    reveal_strlit("");
}

/// The path of a request names the delivery and the operation, or the claim.
pub proof fn law_delivery_paths_name_the_operation(endpoint: DeliveryEndpoint)
    ensures
        ({
            let path = delivery_path(endpoint);
            &&& path.subrange(0, 28) == "/workflows/agent-deliveries/"@
            &&& match endpoint {
                DeliveryEndpoint::Claim => path.skip(28) == "claim"@,
                DeliveryEndpoint::Read { delivery_id } => path.subrange(28, 64) == uuid_text(
                    delivery_id.id@,
                ) && path.skip(64) == "/read"@,
                DeliveryEndpoint::Renew { delivery_id } => path.subrange(28, 64) == uuid_text(
                    delivery_id.id@,
                ) && path.skip(64) == "/renew"@,
                DeliveryEndpoint::Finish { delivery_id } => path.subrange(28, 64) == uuid_text(
                    delivery_id.id@,
                ) && path.skip(64) == "/finish"@,
            }
        }),
{
    reveal_strlit("/workflows/agent-deliveries/");
    reveal_strlit("/workflows/agent-deliveries/claim");
    reveal_strlit("claim");
    reveal_strlit("/read");
    reveal_strlit("/renew");
    reveal_strlit("/finish");
    let path = delivery_path(endpoint);
    match endpoint {
        DeliveryEndpoint::Claim => {
            assert(path.subrange(0, 28) =~= "/workflows/agent-deliveries/"@);
            assert(path.skip(28) =~= "claim"@);
        },
        DeliveryEndpoint::Read { delivery_id } => {
            law_uuid_texts_tell_uuids_apart(delivery_id.id, delivery_id.id);
            assert(path.subrange(0, 28) =~= "/workflows/agent-deliveries/"@);
            assert(path.subrange(28, 64) =~= uuid_text(delivery_id.id@));
            assert(path.skip(64) =~= "/read"@);
        },
        DeliveryEndpoint::Renew { delivery_id } => {
            law_uuid_texts_tell_uuids_apart(delivery_id.id, delivery_id.id);
            assert(path.subrange(0, 28) =~= "/workflows/agent-deliveries/"@);
            assert(path.subrange(28, 64) =~= uuid_text(delivery_id.id@));
            assert(path.skip(64) =~= "/renew"@);
        },
        DeliveryEndpoint::Finish { delivery_id } => {
            law_uuid_texts_tell_uuids_apart(delivery_id.id, delivery_id.id);
            assert(path.subrange(0, 28) =~= "/workflows/agent-deliveries/"@);
            assert(path.subrange(28, 64) =~= uuid_text(delivery_id.id@));
            assert(path.skip(64) =~= "/finish"@);
        },
    }
}

/// A signature for one request is good for no other: requests of the same path are
/// for the same operation on the same delivery.
pub proof fn law_delivery_paths_tell_requests_apart(a: DeliveryEndpoint, b: DeliveryEndpoint)
    requires
        delivery_path(a) == delivery_path(b),
    ensures
        a == b,
{
    reveal_strlit("/workflows/agent-deliveries/");
    reveal_strlit("/workflows/agent-deliveries/claim");
    reveal_strlit("claim");
    reveal_strlit("/read");
    reveal_strlit("/renew");
    reveal_strlit("/finish");
    law_delivery_paths_name_the_operation(a);
    law_delivery_paths_name_the_operation(b);
    let path = delivery_path(a);
    lemma_operation(a);
    lemma_operation(b);
    let (x, y) = (delivery_named(a), delivery_named(b));
    if x is Some && y is Some {
        assert(uuid_text(x->0.id@) == path.subrange(28, 64));
        law_uuid_texts_tell_uuids_apart(x->0.id, y->0.id);
    }
}

/// The delivery that a request is about, where it names one in its path.
pub open spec fn delivery_named(endpoint: DeliveryEndpoint) -> Option<WorkflowDeliveryId> {
    match endpoint {
        DeliveryEndpoint::Claim => None,
        DeliveryEndpoint::Read { delivery_id } => Some(delivery_id),
        DeliveryEndpoint::Renew { delivery_id } => Some(delivery_id),
        DeliveryEndpoint::Finish { delivery_id } => Some(delivery_id),
    }
}

/// The length of a path tells the operation.
proof fn lemma_operation(endpoint: DeliveryEndpoint)
    ensures
        match endpoint {
            DeliveryEndpoint::Claim => delivery_path(endpoint).len() == 33,
            DeliveryEndpoint::Read { delivery_id: _ } => delivery_path(endpoint).len() == 69,
            DeliveryEndpoint::Renew { delivery_id: _ } => delivery_path(endpoint).len() == 70,
            DeliveryEndpoint::Finish { delivery_id: _ } => delivery_path(endpoint).len() == 71,
        },
{
    reveal_strlit("/workflows/agent-deliveries/");
    reveal_strlit("/workflows/agent-deliveries/claim");
    reveal_strlit("/read");
    reveal_strlit("/renew");
    reveal_strlit("/finish");
    if let Some(delivery_id) = delivery_named(endpoint) {
        law_uuid_texts_tell_uuids_apart(delivery_id.id, delivery_id.id);
    }
}

} // verus!
