//! What the relay's endpoints ask of the services around them, and what these
//! reply.

use vstd::prelude::*;

use crate::event::{Event, EventId, PublicKey};
use crate::ids::{CommunityId, TenantContext, Uuid};
use crate::text::text_of;
use crate::workflow_api::{
    ApiError, ApprovalRecord, ClaimDeliveryRequest, DeliveryLeaseRequest, FinishDeliveryRequest,
    RenewDeliveryRequest, RunCursor, StoredEvent, Timestamp, WorkflowAgentDeliveryRecord,
    WorkflowDeliveryLease, WorkflowDeliveryOutcome, WorkflowDeliveryStatus, WorkflowRecord,
    WorkflowRunRecord,
};
use crate::workflow_delivery::{WorkflowDeliveryBinding, WorkflowDeliveryId};

verus! {

/// How a request was sent.
#[derive(Clone, Copy, Debug, PartialEq, Eq, Structural)]
pub enum Method {
    /// Without a body.
    Get,
    /// With a body, which the signature has to cover.
    Post,
}

/// One question to a service.
#[derive(Debug)]
pub enum RelayAction<'a> {
    /// Which community does the host belong to?
    BindCommunity { host: &'a str },
    /// Who signed the request, for this method and path at the tenant's address,
    /// and for this body where it has one?
    VerifyAuth {
        tenant: &'a TenantContext,
        method: Method,
        path: String,
        body: Option<&'a [u8]>,
    },
    /// Is the caller within the limits on requests?
    Admit { tenant: &'a TenantContext, caller: PublicKey },
    /// Is the signature used for the first time?
    CheckReplay { tenant: &'a TenantContext, auth_event: Option<EventId> },
    /// Is the caller a member of the relay?
    CheckMembership { community: CommunityId, caller: PublicKey, auth_tag: Option<&'a str> },
    /// The workflow's row.
    LoadWorkflow { community: CommunityId, workflow_id: Uuid },
    /// The channels that the caller can read.
    ListChannels { community: CommunityId, caller: PublicKey },
    /// Does the caller own the agent of this key?
    CheckAgentOwner { community: CommunityId, agent: &'a [u8], caller: PublicKey },
    /// The event of this identifier.
    LoadEvent { community: CommunityId, id: &'a [u8] },
    /// The workflow's runs before the cursor, newest first, at most `limit`.
    ListRuns {
        community: CommunityId,
        workflow_id: Uuid,
        cursor: Option<RunCursor>,
        limit: i64,
    },
    /// The run's row.
    LoadRun { community: CommunityId, run_id: Uuid },
    /// The approvals of a run.
    ListApprovals { community: CommunityId, workflow_id: Uuid, run_id: Uuid },
    /// Is the caller a managed agent, and who owns it?
    LookUpAgent { community: CommunityId, caller: PublicKey },
    /// What do these bytes, the body of the request, say?
    ReadBody { bytes: &'a [u8] },
    /// The delivery's row.
    LoadDelivery { community: CommunityId, delivery_id: WorkflowDeliveryId },
    /// Claim the delivery, or the oldest pending one, for the target.
    ClaimDelivery {
        community: CommunityId,
        target: PublicKey,
        wanted: Option<WorkflowDeliveryId>,
        expected: Option<&'a WorkflowDeliveryBinding>,
        lease_seconds: i64,
    },
    /// Extend the lease.
    RenewLease { lease: WorkflowDeliveryLease, lease_seconds: i64 },
    /// Settle the delivery under the lease.
    FinishDelivery { lease: WorkflowDeliveryLease, outcome: WorkflowDeliveryOutcome },
    /// The relay's signed receipt that it produced the message for the delivery of
    /// this binding.
    IssueReceipt {
        community: CommunityId,
        delivery_id: WorkflowDeliveryId,
        binding: &'a WorkflowDeliveryBinding,
        message: &'a Event,
    },
}

/// What a question asks.
pub enum Question {
    BindCommunity { host: Seq<char> },
    VerifyAuth { tenant: TenantContext, method: Method, path: Seq<char>, body: Option<Seq<u8>> },
    Admit { tenant: TenantContext, caller: PublicKey },
    CheckReplay { tenant: TenantContext, auth_event: Option<EventId> },
    CheckMembership { community: CommunityId, caller: PublicKey, auth_tag: Option<Seq<char>> },
    LoadWorkflow { community: CommunityId, workflow_id: Uuid },
    ListChannels { community: CommunityId, caller: PublicKey },
    CheckAgentOwner { community: CommunityId, agent: Seq<u8>, caller: PublicKey },
    LoadEvent { community: CommunityId, id: Seq<u8> },
    ListRuns { community: CommunityId, workflow_id: Uuid, cursor: Option<RunCursor>, limit: int },
    LoadRun { community: CommunityId, run_id: Uuid },
    ListApprovals { community: CommunityId, workflow_id: Uuid, run_id: Uuid },
    LookUpAgent { community: CommunityId, caller: PublicKey },
    ReadBody { bytes: Seq<u8> },
    LoadDelivery { community: CommunityId, delivery_id: WorkflowDeliveryId },
    ClaimDelivery {
        community: CommunityId,
        target: PublicKey,
        wanted: Option<WorkflowDeliveryId>,
        expected: Option<WorkflowDeliveryBinding>,
        lease_seconds: i64,
    },
    RenewLease { lease: WorkflowDeliveryLease, lease_seconds: i64 },
    FinishDelivery { lease: WorkflowDeliveryLease, outcome: WorkflowDeliveryOutcome },
    IssueReceipt {
        community: CommunityId,
        delivery_id: WorkflowDeliveryId,
        binding: WorkflowDeliveryBinding,
        message: Event,
    },
}

impl<'a> View for RelayAction<'a> {
    type V = Question;

    open spec fn view(&self) -> Question {
        match *self {
            RelayAction::BindCommunity { host } => Question::BindCommunity { host: host@ },
            RelayAction::VerifyAuth { tenant, method, path, body } => Question::VerifyAuth {
                tenant: *tenant,
                method,
                path: path@,
                body: match body {
                    Some(bytes) => Some(bytes@),
                    None => None,
                },
            },
            RelayAction::Admit { tenant, caller } => Question::Admit { tenant: *tenant, caller },
            RelayAction::CheckReplay { tenant, auth_event } => Question::CheckReplay {
                tenant: *tenant,
                auth_event,
            },
            RelayAction::CheckMembership { community, caller, auth_tag } => {
                Question::CheckMembership { community, caller, auth_tag: text_of(auth_tag) }
            },
            RelayAction::LoadWorkflow { community, workflow_id } => Question::LoadWorkflow {
                community,
                workflow_id,
            },
            RelayAction::ListChannels { community, caller } => Question::ListChannels {
                community,
                caller,
            },
            RelayAction::CheckAgentOwner { community, agent, caller } => Question::CheckAgentOwner {
                community,
                agent: agent@,
                caller,
            },
            RelayAction::LoadEvent { community, id } => Question::LoadEvent { community, id: id@ },
            RelayAction::ListRuns { community, workflow_id, cursor, limit } => Question::ListRuns {
                community,
                workflow_id,
                cursor,
                limit: limit as int,
            },
            RelayAction::LoadRun { community, run_id } => Question::LoadRun { community, run_id },
            RelayAction::ListApprovals { community, workflow_id, run_id } => {
                Question::ListApprovals { community, workflow_id, run_id }
            },
            RelayAction::LookUpAgent { community, caller } => Question::LookUpAgent {
                community,
                caller,
            },
            RelayAction::ReadBody { bytes } => Question::ReadBody { bytes: bytes@ },
            RelayAction::LoadDelivery { community, delivery_id } => Question::LoadDelivery {
                community,
                delivery_id,
            },
            RelayAction::ClaimDelivery { community, target, wanted, expected, lease_seconds } => {
                Question::ClaimDelivery {
                    community,
                    target,
                    wanted,
                    expected: match expected {
                        Some(binding) => Some(*binding),
                        None => None,
                    },
                    lease_seconds,
                }
            },
            RelayAction::RenewLease { lease, lease_seconds } => Question::RenewLease {
                lease,
                lease_seconds,
            },
            RelayAction::FinishDelivery { lease, outcome } => Question::FinishDelivery {
                lease,
                outcome,
            },
            RelayAction::IssueReceipt { community, delivery_id, binding, message } => {
                Question::IssueReceipt {
                    community,
                    delivery_id,
                    binding: *binding,
                    message: *message,
                }
            },
        }
    }
}

/// Why a row could not be had.
#[derive(Debug)]
pub enum LookupError {
    /// There is no such row; the text is the error's.
    NotFound(String),
    /// The lookup failed; the text is the error's.
    Failed(String),
}

impl LookupError {
    /// The text of the error.
    pub open spec fn text(self) -> Seq<char> {
        match self {
            LookupError::NotFound(text) => text@,
            LookupError::Failed(text) => text@,
        }
    }

    /// The text of the error.
    pub fn as_str(&self) -> (text: &str)
        ensures
            text@ == self.text(),
    {
        match self {
            LookupError::NotFound(text) => text.as_str(),
            LookupError::Failed(text) => text.as_str(),
        }
    }
}

/// What came of an attempt to extend a lease.
#[derive(Clone, Copy, Debug)]
pub enum RenewOutcome {
    /// It now ends then.
    Renewed(Timestamp),
    /// It is not current any more.
    LeaseLost,
}

/// What came of an attempt to settle a delivery.
#[derive(Clone, Copy, Debug)]
pub enum FinishOutcome {
    /// It is settled now.
    Settled,
    /// It was settled before, with this status.
    AlreadyTerminal(WorkflowDeliveryStatus),
    /// The lease is not current any more.
    LeaseLost,
}

/// The owner of a managed agent, where it has one.
#[derive(Clone, Copy, Debug)]
pub struct AgentPolicy {
    pub owner: Option<PublicKey>,
}

/// A service's reply to a question. Failures carry the text of their error, or
/// the refusal that is to be passed on.
#[derive(Debug)]
pub enum RelayReply {
    Community(Option<TenantContext>),
    Auth(Result<(PublicKey, Option<EventId>), ApiError>),
    Admission(Result<(), ApiError>),
    Replay(Result<(), ApiError>),
    Membership(Result<(), ApiError>),
    Workflow(Result<WorkflowRecord, LookupError>),
    Channels(Result<Vec<Uuid>, String>),
    AgentOwner(Result<bool, String>),
    Event(Result<Option<StoredEvent>, String>),
    Runs(Result<Vec<WorkflowRunRecord>, String>),
    Run(Result<WorkflowRunRecord, LookupError>),
    Approvals(Result<Vec<ApprovalRecord>, String>),
    Agent(Result<Option<AgentPolicy>, String>),
    ClaimBody(Option<ClaimDeliveryRequest>),
    ReadBody(Option<DeliveryLeaseRequest>),
    RenewBody(Option<RenewDeliveryRequest>),
    FinishBody(Option<FinishDeliveryRequest>),
    Delivery(Result<Option<WorkflowAgentDeliveryRecord>, String>),
    Claimed(Result<Option<(WorkflowDeliveryLease, WorkflowAgentDeliveryRecord)>, String>),
    Renewed(Result<RenewOutcome, String>),
    Finished(Result<FinishOutcome, String>),
    Receipt(Result<Option<Event>, String>),
}

/// What a request says of itself, before anybody has looked at it.
pub struct RequestView {
    pub host: Seq<char>,
    pub auth_tag: Option<Seq<char>>,
    pub method: Method,
    pub path: Seq<char>,
    pub body: Option<Seq<u8>>,
}

/// The services were asked about this request and replied that its host is this
/// tenant's, that the caller signed it, is within its limits, does not replay the
/// signature, and is a member.
pub open spec fn cleared_by(
    request: RequestView,
    tenant: TenantContext,
    caller: PublicKey,
    auth_event: Option<EventId>,
    trace: Seq<(Question, RelayReply)>,
) -> bool {
    &&& host_bound(request, tenant, trace)
    &&& request_signed(request, tenant, caller, auth_event, trace)
    &&& trace.contains((Question::Admit { tenant, caller }, RelayReply::Admission(Ok(()))))
    &&& trace.contains((Question::CheckReplay { tenant, auth_event }, RelayReply::Replay(Ok(()))))
    &&& trace.contains(
        (
            Question::CheckMembership {
                community: tenant.community_id,
                caller,
                auth_tag: request.auth_tag,
            },
            RelayReply::Membership(Ok(())),
        ),
    )
}

/// A service replied that the request's host is this tenant's.
pub open spec fn host_bound(
    request: RequestView,
    tenant: TenantContext,
    trace: Seq<(Question, RelayReply)>,
) -> bool {
    trace.contains(
        (Question::BindCommunity { host: request.host }, RelayReply::Community(Some(tenant))),
    )
}

/// A service replied that the caller signed the request: its method, its path and
/// its very body.
pub open spec fn request_signed(
    request: RequestView,
    tenant: TenantContext,
    caller: PublicKey,
    auth_event: Option<EventId>,
    trace: Seq<(Question, RelayReply)>,
) -> bool {
    trace.contains(
        (
            Question::VerifyAuth {
                tenant,
                method: request.method,
                path: request.path,
                body: request.body,
            },
            RelayReply::Auth(Ok((caller, auth_event))),
        ),
    )
}

/// The caller passed every gate that all requests share.
pub open spec fn cleared(
    request: RequestView,
    tenant: TenantContext,
    caller: PublicKey,
    trace: Seq<(Question, RelayReply)>,
) -> bool {
    exists|auth_event: Option<EventId>| #[trigger]
        cleared_by(request, tenant, caller, auth_event, trace)
}

} // verus!
