//! Authorized structured reads for workflow execution state.
//!
//! Each endpoint is a machine. Its state says which question to a service comes
//! next; the reply takes it to the next state, to an answer, or to a refusal. A
//! reply to another question than the one asked leaves the state as it is.

use vstd::prelude::*;

use crate::event::{Event, EventId, PublicKey};
use crate::ids::{law_uuid_texts_tell_uuids_apart, uuid_text, TenantContext, Uuid};
use crate::relay_io::{
    cleared, cleared_by, host_bound, request_signed, LookupError, Method, Question, RelayAction,
    RelayReply, RequestView,
};
use crate::text::{bytes_eq, host_or_empty, host_text, text_in, text_ref};
use crate::workflow_api::{
    api_error, failure, internal_error, page_limit, page_of, refusal, request_path, runs_page,
    signed_path, validate_runs_query, ApiError, ApprovalRecord, ErrorView, PageRequest, PageView,
    RunsPage, RunsQuery, StoredEvent, WorkflowRecord, WorkflowRunRecord, STATUS_CONFLICT,
    STATUS_FORBIDDEN, STATUS_NOT_FOUND,
};

verus! {

/// What is read of a workflow.
#[derive(Debug)]
pub enum ReadEndpoint {
    /// Its current signed revision.
    Revision,
    /// One page of its runs; the query is the request's, verbatim.
    Runs { page: PageRequest, raw_query: Option<String> },
    /// The approvals of one of its runs.
    Approvals { run_id: Uuid },
}

/// A request to read.
#[derive(Debug)]
pub struct ReadCall {
    pub workflow_id: Uuid,
    /// The host that the request names, where it names one in plain text.
    pub host: Option<String>,
    /// The membership tag that the request carries.
    pub auth_tag: Option<String>,
    pub endpoint: ReadEndpoint,
}

/// How far a request to read has come.
#[derive(Debug)]
pub enum ReadState {
    BindCommunity { call: ReadCall },
    VerifyAuth { call: ReadCall, tenant: TenantContext },
    Admit {
        call: ReadCall,
        tenant: TenantContext,
        caller: PublicKey,
        auth_event: Option<EventId>,
    },
    CheckReplay {
        call: ReadCall,
        tenant: TenantContext,
        caller: PublicKey,
        auth_event: Option<EventId>,
    },
    CheckMembership {
        call: ReadCall,
        tenant: TenantContext,
        caller: PublicKey,
        auth_event: Option<EventId>,
    },
    LoadWorkflow { call: ReadCall, tenant: TenantContext, caller: PublicKey },
    ListChannels {
        call: ReadCall,
        tenant: TenantContext,
        caller: PublicKey,
        workflow: WorkflowRecord,
        channel_id: Uuid,
    },
    CheckOwner {
        call: ReadCall,
        tenant: TenantContext,
        caller: PublicKey,
        workflow: WorkflowRecord,
    },
    ReloadWorkflow { workflow_id: Uuid, tenant: TenantContext },
    LoadRevision { tenant: TenantContext, revision: Vec<u8> },
    ListRuns { workflow_id: Uuid, tenant: TenantContext, page: PageRequest },
    LoadRun { workflow_id: Uuid, tenant: TenantContext, run_id: Uuid },
    ListApprovals { workflow_id: Uuid, tenant: TenantContext, run_id: Uuid },
}

/// What was read.
#[derive(Debug)]
pub enum ReadAnswer {
    /// The exact owner-signed definition event.
    Revision(Event),
    /// One page of runs.
    Runs(RunsPage),
    /// The approvals of the run.
    Approvals(Vec<ApprovalRecord>),
}

/// What comes of a reply.
#[derive(Debug)]
pub enum ReadStep {
    /// The next question.
    Ask(ReadState),
    /// The answer to the request.
    Answer(ReadAnswer),
    /// No answer.
    Refuse(ApiError),
}

/// What an answer says.
pub enum ReadAnswerView {
    Revision(Event),
    Runs(PageView),
    Approvals(Vec<ApprovalRecord>),
}

/// What a step comes to.
pub enum ReadStepView {
    Ask(ReadState),
    Answer(ReadAnswerView),
    Refuse(ErrorView),
}

impl View for ReadStep {
    type V = ReadStepView;

    open spec fn view(&self) -> ReadStepView {
        match *self {
            ReadStep::Ask(state) => ReadStepView::Ask(state),
            ReadStep::Answer(ReadAnswer::Revision(event)) => ReadStepView::Answer(
                ReadAnswerView::Revision(event),
            ),
            ReadStep::Answer(ReadAnswer::Runs(page)) => ReadStepView::Answer(
                ReadAnswerView::Runs(page@),
            ),
            ReadStep::Answer(ReadAnswer::Approvals(approvals)) => ReadStepView::Answer(
                ReadAnswerView::Approvals(approvals),
            ),
            ReadStep::Refuse(error) => ReadStepView::Refuse(error@),
        }
    }
}

/// The path of a request, as it was signed.
pub open spec fn read_path(call: ReadCall) -> Seq<char> {
    let base = "/workflows/"@ + uuid_text(call.workflow_id@);
    match call.endpoint {
        ReadEndpoint::Revision => base + "/revision"@,
        ReadEndpoint::Runs { page: _, raw_query } => signed_path(
            base + "/runs"@,
            match raw_query {
                Some(query) => Some(query@),
                None => None,
            },
        ),
        ReadEndpoint::Approvals { run_id } => base + "/runs/"@ + uuid_text(run_id@)
            + "/approvals"@,
    }
}

/// Where a caller who may read goes on.
pub open spec fn granted(call: ReadCall, tenant: TenantContext) -> ReadStepView {
    ReadStepView::Ask(
        match call.endpoint {
            ReadEndpoint::Revision => ReadState::ReloadWorkflow {
                workflow_id: call.workflow_id,
                tenant,
            },
            ReadEndpoint::Runs { page, raw_query: _ } => ReadState::ListRuns {
                workflow_id: call.workflow_id,
                tenant,
                page,
            },
            ReadEndpoint::Approvals { run_id } => ReadState::LoadRun {
                workflow_id: call.workflow_id,
                tenant,
                run_id,
            },
        },
    )
}

/// The refusal of a caller who cannot read the workflow's channel.
pub open spec fn not_accessible() -> ReadStepView {
    ReadStepView::Refuse(refusal(STATUS_FORBIDDEN, "workflow is not accessible"@))
}

/// The step that a reply leads to.
pub open spec fn read_step(state: ReadState, reply: RelayReply) -> ReadStepView {
    match (state, reply) {
        (ReadState::BindCommunity { call }, RelayReply::Community(bound)) => match bound {
            Some(tenant) => ReadStepView::Ask(ReadState::VerifyAuth { call, tenant }),
            None => ReadStepView::Refuse(
                refusal(STATUS_NOT_FOUND, "relay: no community is configured for this host"@),
            ),
        },
        (ReadState::VerifyAuth { call, tenant }, RelayReply::Auth(verified)) => match verified {
            Ok((caller, auth_event)) => ReadStepView::Ask(
                ReadState::Admit { call, tenant, caller, auth_event },
            ),
            Err(error) => ReadStepView::Refuse(error@),
        },
        (
            ReadState::Admit { call, tenant, caller, auth_event },
            RelayReply::Admission(admitted),
        ) => match admitted {
            Ok(_) => ReadStepView::Ask(ReadState::CheckReplay { call, tenant, caller, auth_event }),
            Err(error) => ReadStepView::Refuse(error@),
        },
        (
            ReadState::CheckReplay { call, tenant, caller, auth_event },
            RelayReply::Replay(fresh),
        ) => match fresh {
            Ok(_) => ReadStepView::Ask(ReadState::CheckMembership { call, tenant, caller, auth_event }),
            Err(error) => ReadStepView::Refuse(error@),
        },
        (
            ReadState::CheckMembership { call, tenant, caller, auth_event: _ },
            RelayReply::Membership(member),
        ) => match member {
            Ok(_) => ReadStepView::Ask(ReadState::LoadWorkflow { call, tenant, caller }),
            Err(error) => ReadStepView::Refuse(error@),
        },
        (
            ReadState::LoadWorkflow { call, tenant, caller },
            RelayReply::Workflow(loaded),
        ) => match loaded {
            Ok(workflow) => match workflow.channel_id {
                Some(channel_id) => ReadStepView::Ask(
                    ReadState::ListChannels { call, tenant, caller, workflow, channel_id },
                ),
                None => ReadStepView::Refuse(
                    refusal(STATUS_FORBIDDEN, "workflow is not channel-scoped"@),
                ),
            },
            Err(LookupError::NotFound(_)) => ReadStepView::Refuse(
                refusal(STATUS_NOT_FOUND, "workflow not found"@),
            ),
            Err(LookupError::Failed(error)) => ReadStepView::Refuse(
                failure("get workflow for run read: "@, error@),
            ),
        },
        (
            ReadState::ListChannels { call, tenant, caller, workflow, channel_id },
            RelayReply::Channels(listed),
        ) => match listed {
            Ok(channels) => if channels@.contains(channel_id) {
                granted(call, tenant)
            } else if call.endpoint !is Revision {
                not_accessible()
            } else if workflow.owner_pubkey@ == caller@ {
                granted(call, tenant)
            } else {
                ReadStepView::Ask(ReadState::CheckOwner { call, tenant, caller, workflow })
            },
            Err(error) => ReadStepView::Refuse(
                failure("workflow channel access lookup: "@, error@),
            ),
        },
        (
            ReadState::CheckOwner { call, tenant, caller: _, workflow: _ },
            RelayReply::AgentOwner(owned),
        ) => match owned {
            Ok(owns) => if owns {
                granted(call, tenant)
            } else {
                not_accessible()
            },
            Err(error) => ReadStepView::Refuse(failure("workflow owner lookup: "@, error@)),
        },
        (ReadState::ReloadWorkflow { workflow_id: _, tenant }, RelayReply::Workflow(loaded)) => {
            match loaded {
                Ok(workflow) => match workflow.definition_event_id {
                    Some(revision) => ReadStepView::Ask(
                        ReadState::LoadRevision { tenant, revision },
                    ),
                    None => ReadStepView::Refuse(
                        refusal(
                            STATUS_CONFLICT,
                            "owner-signed workflow revision is unavailable"@,
                        ),
                    ),
                },
                Err(_) => ReadStepView::Refuse(refusal(STATUS_NOT_FOUND, "workflow not found"@)),
            }
        },
        (ReadState::LoadRevision { tenant: _, revision: _ }, RelayReply::Event(loaded)) => {
            match loaded {
                Ok(Some(stored)) => ReadStepView::Answer(ReadAnswerView::Revision(stored.event)),
                Ok(None) => ReadStepView::Refuse(
                    refusal(STATUS_CONFLICT, "workflow revision is unavailable"@),
                ),
                Err(error) => ReadStepView::Refuse(failure("get workflow revision: "@, error@)),
            }
        },
        (ReadState::ListRuns { workflow_id: _, tenant: _, page }, RelayReply::Runs(listed)) => {
            match listed {
                Ok(rows) => ReadStepView::Answer(
                    ReadAnswerView::Runs(page_of(rows@, page.limit() as int)),
                ),
                Err(error) => ReadStepView::Refuse(failure("list workflow runs: "@, error@)),
            }
        },
        (ReadState::LoadRun { workflow_id, tenant, run_id }, RelayReply::Run(loaded)) => {
            match loaded {
                Ok(run) => if run.workflow_id == workflow_id {
                    ReadStepView::Ask(ReadState::ListApprovals { workflow_id, tenant, run_id })
                } else {
                    ReadStepView::Refuse(refusal(STATUS_NOT_FOUND, "workflow run not found"@))
                },
                Err(LookupError::NotFound(_)) => ReadStepView::Refuse(
                    refusal(STATUS_NOT_FOUND, "workflow run not found"@),
                ),
                Err(LookupError::Failed(error)) => ReadStepView::Refuse(
                    failure("get workflow run for approval read: "@, error@),
                ),
            }
        },
        (
            ReadState::ListApprovals { workflow_id: _, tenant: _, run_id: _ },
            RelayReply::Approvals(listed),
        ) => match listed {
            Ok(approvals) => ReadStepView::Answer(ReadAnswerView::Approvals(approvals)),
            Err(error) => ReadStepView::Refuse(failure("list run approvals: "@, error@)),
        },
        (state, _) => ReadStepView::Ask(state),
    }
}

fn grant(call: ReadCall, tenant: TenantContext) -> (step: ReadStep)
    ensures
        step@ == granted(call, tenant),
{
    let state: ReadState = match call.endpoint {
        ReadEndpoint::Revision => ReadState::ReloadWorkflow {
            workflow_id: call.workflow_id,
            tenant,
        },
        ReadEndpoint::Runs { page, raw_query: _ } => ReadState::ListRuns {
            workflow_id: call.workflow_id,
            tenant,
            page,
        },
        ReadEndpoint::Approvals { run_id } => ReadState::LoadRun {
            workflow_id: call.workflow_id,
            tenant,
            run_id,
        },
    };
    ReadStep::Ask(state)
}

fn deny_access() -> (step: ReadStep)
    ensures
        step@ == not_accessible(),
{
    ReadStep::Refuse(api_error(STATUS_FORBIDDEN, "workflow is not accessible"))
}

fn contains_uuid(ids: &Vec<Uuid>, id: &Uuid) -> (found: bool)
    ensures
        found == ids@.contains(*id),
{
    let n: usize = ids.len();
    let mut i: usize = 0;
    while i < n
        invariant
            n == ids.len(),
            i <= n,
            forall|k: int| 0 <= k < i ==> ids@[k] != *id,
        decreases n - i,
    {
        if ids[i] == *id {
            return true;
        }
        i += 1;
    }
    false
}

impl ReadState {
    /// The step that a reply leads to.
    pub fn step(self, reply: RelayReply) -> (step: ReadStep)
        ensures
            step@ == read_step(self, reply),
    {
        match (self, reply) {
            (ReadState::BindCommunity { call }, RelayReply::Community(bound)) => match bound {
                Some(tenant) => ReadStep::Ask(ReadState::VerifyAuth { call, tenant }),
                None => ReadStep::Refuse(
                    api_error(STATUS_NOT_FOUND, "relay: no community is configured for this host"),
                ),
            },
            (ReadState::VerifyAuth { call, tenant }, RelayReply::Auth(verified)) => match verified {
                Ok((caller, auth_event)) => ReadStep::Ask(
                    ReadState::Admit { call, tenant, caller, auth_event },
                ),
                Err(error) => ReadStep::Refuse(error),
            },
            (
                ReadState::Admit { call, tenant, caller, auth_event },
                RelayReply::Admission(admitted),
            ) => match admitted {
                Ok(_) => ReadStep::Ask(ReadState::CheckReplay { call, tenant, caller, auth_event }),
                Err(error) => ReadStep::Refuse(error),
            },
            (
                ReadState::CheckReplay { call, tenant, caller, auth_event },
                RelayReply::Replay(fresh),
            ) => match fresh {
                Ok(_) => ReadStep::Ask(ReadState::CheckMembership { call, tenant, caller, auth_event }),
                Err(error) => ReadStep::Refuse(error),
            },
            (
                ReadState::CheckMembership { call, tenant, caller, auth_event: _ },
                RelayReply::Membership(member),
            ) => match member {
                Ok(_) => ReadStep::Ask(ReadState::LoadWorkflow { call, tenant, caller }),
                Err(error) => ReadStep::Refuse(error),
            },
            (
                ReadState::LoadWorkflow { call, tenant, caller },
                RelayReply::Workflow(loaded),
            ) => match loaded {
                Ok(workflow) => match workflow.channel_id {
                    Some(channel_id) => ReadStep::Ask(
                        ReadState::ListChannels { call, tenant, caller, workflow, channel_id },
                    ),
                    None => ReadStep::Refuse(
                        api_error(STATUS_FORBIDDEN, "workflow is not channel-scoped"),
                    ),
                },
                Err(LookupError::NotFound(_)) => ReadStep::Refuse(
                    api_error(STATUS_NOT_FOUND, "workflow not found"),
                ),
                Err(LookupError::Failed(error)) => ReadStep::Refuse(
                    internal_error("get workflow for run read: ", error.as_str()),
                ),
            },
            (
                ReadState::ListChannels { call, tenant, caller, workflow, channel_id },
                RelayReply::Channels(listed),
            ) => match listed {
                Ok(channels) => {
                    if contains_uuid(&channels, &channel_id) {
                        return grant(call, tenant);
                    }
                    let allow_owner: bool = match call.endpoint {
                        ReadEndpoint::Revision => true,
                        _ => false,
                    };
                    if !allow_owner {
                        deny_access()
                    } else if bytes_eq(
                        workflow.owner_pubkey.as_slice(),
                        caller.bytes.as_slice(),
                    ) {
                        grant(call, tenant)
                    } else {
                        ReadStep::Ask(ReadState::CheckOwner { call, tenant, caller, workflow })
                    }
                },
                Err(error) => ReadStep::Refuse(
                    internal_error("workflow channel access lookup: ", error.as_str()),
                ),
            },
            (
                ReadState::CheckOwner { call, tenant, caller: _, workflow: _ },
                RelayReply::AgentOwner(owned),
            ) => match owned {
                Ok(owns) => if owns {
                    grant(call, tenant)
                } else {
                    deny_access()
                },
                Err(error) => ReadStep::Refuse(
                    internal_error("workflow owner lookup: ", error.as_str()),
                ),
            },
            (
                ReadState::ReloadWorkflow { workflow_id: _, tenant },
                RelayReply::Workflow(loaded),
            ) => match loaded {
                Ok(workflow) => match workflow.definition_event_id {
                    Some(revision) => ReadStep::Ask(ReadState::LoadRevision { tenant, revision }),
                    None => ReadStep::Refuse(
                        api_error(STATUS_CONFLICT, "owner-signed workflow revision is unavailable"),
                    ),
                },
                Err(_) => ReadStep::Refuse(api_error(STATUS_NOT_FOUND, "workflow not found")),
            },
            (ReadState::LoadRevision { tenant: _, revision: _ }, RelayReply::Event(loaded)) => {
                match loaded {
                    Ok(Some(stored)) => ReadStep::Answer(ReadAnswer::Revision(stored.event)),
                    Ok(None) => ReadStep::Refuse(
                        api_error(STATUS_CONFLICT, "workflow revision is unavailable"),
                    ),
                    Err(error) => ReadStep::Refuse(
                        internal_error("get workflow revision: ", error.as_str()),
                    ),
                }
            },
            (ReadState::ListRuns { workflow_id: _, tenant: _, page }, RelayReply::Runs(listed)) => {
                match listed {
                    Ok(rows) => ReadStep::Answer(ReadAnswer::Runs(runs_page(rows, &page))),
                    Err(error) => ReadStep::Refuse(
                        internal_error("list workflow runs: ", error.as_str()),
                    ),
                }
            },
            (ReadState::LoadRun { workflow_id, tenant, run_id }, RelayReply::Run(loaded)) => {
                match loaded {
                    Ok(run) => if run.workflow_id == workflow_id {
                        ReadStep::Ask(ReadState::ListApprovals { workflow_id, tenant, run_id })
                    } else {
                        ReadStep::Refuse(api_error(STATUS_NOT_FOUND, "workflow run not found"))
                    },
                    Err(LookupError::NotFound(_)) => ReadStep::Refuse(
                        api_error(STATUS_NOT_FOUND, "workflow run not found"),
                    ),
                    Err(LookupError::Failed(error)) => ReadStep::Refuse(
                        internal_error("get workflow run for approval read: ", error.as_str()),
                    ),
                }
            },
            (
                ReadState::ListApprovals { workflow_id: _, tenant: _, run_id: _ },
                RelayReply::Approvals(listed),
            ) => match listed {
                Ok(approvals) => ReadStep::Answer(ReadAnswer::Approvals(approvals)),
                Err(error) => ReadStep::Refuse(
                    internal_error("list run approvals: ", error.as_str()),
                ),
            },
            (state, _) => ReadStep::Ask(state),
        }
    }
}

impl ReadCall {
    /// The path of the request, as it was signed.
    pub fn path(&self) -> (path: String)
        ensures
            path@ == read_path(*self),
    {
        let base: String = "/workflows/".to_owned().concat(self.workflow_id.to_string().as_str());
        match &self.endpoint {
            ReadEndpoint::Revision => base.concat("/revision"),
            ReadEndpoint::Runs { page: _, raw_query } => {
                let runs: String = base.concat("/runs");
                request_path(runs.as_str(), text_ref(raw_query))
            },
            ReadEndpoint::Approvals { run_id } => base.concat("/runs/").concat(
                run_id.to_string().as_str(),
            ).concat("/approvals"),
        }
    }
}

/// What a request says of itself.
pub open spec fn read_request(call: ReadCall) -> RequestView {
    RequestView {
        host: host_text(call.host),
        auth_tag: text_in(call.auth_tag),
        method: Method::Get,
        path: read_path(call),
        body: None,
    }
}

/// The question that a state asks.
pub open spec fn read_question(state: ReadState) -> Question {
    match state {
        ReadState::BindCommunity { call } => Question::BindCommunity { host: host_text(call.host) },
        ReadState::VerifyAuth { call, tenant } => Question::VerifyAuth {
            tenant,
            method: Method::Get,
            path: read_path(call),
            body: None,
        },
        ReadState::Admit { call: _, tenant, caller, auth_event: _ } => Question::Admit {
            tenant,
            caller,
        },
        ReadState::CheckReplay { call: _, tenant, caller: _, auth_event } => {
            Question::CheckReplay { tenant, auth_event }
        },
        ReadState::CheckMembership { call, tenant, caller, auth_event: _ } => {
            Question::CheckMembership {
                community: tenant.community_id,
                caller,
                auth_tag: text_in(call.auth_tag),
            }
        },
        ReadState::LoadWorkflow { call, tenant, caller: _ } => Question::LoadWorkflow {
            community: tenant.community_id,
            workflow_id: call.workflow_id,
        },
        ReadState::ListChannels { call: _, tenant, caller, workflow: _, channel_id: _ } => {
            Question::ListChannels { community: tenant.community_id, caller }
        },
        ReadState::CheckOwner { call: _, tenant, caller, workflow } => Question::CheckAgentOwner {
            community: tenant.community_id,
            agent: workflow.owner_pubkey@,
            caller,
        },
        ReadState::ReloadWorkflow { workflow_id, tenant } => Question::LoadWorkflow {
            community: tenant.community_id,
            workflow_id,
        },
        ReadState::LoadRevision { tenant, revision } => Question::LoadEvent {
            community: tenant.community_id,
            id: revision@,
        },
        ReadState::ListRuns { workflow_id, tenant, page } => Question::ListRuns {
            community: tenant.community_id,
            workflow_id,
            cursor: page.cursor(),
            limit: page.limit() + 1,
        },
        ReadState::LoadRun { workflow_id: _, tenant, run_id } => Question::LoadRun {
            community: tenant.community_id,
            run_id,
        },
        ReadState::ListApprovals { workflow_id, tenant, run_id } => Question::ListApprovals {
            community: tenant.community_id,
            workflow_id,
            run_id,
        },
    }
}

impl ReadState {
    /// The question that comes next.
    pub fn action(&self) -> (action: RelayAction<'_>)
        ensures
            action@ == read_question(*self),
    {
        match self {
            ReadState::BindCommunity { call } => RelayAction::BindCommunity {
                host: host_or_empty(&call.host),
            },
            ReadState::VerifyAuth { call, tenant } => RelayAction::VerifyAuth {
                tenant,
                method: Method::Get,
                path: call.path(),
                body: None,
            },
            ReadState::Admit { call: _, tenant, caller, auth_event: _ } => RelayAction::Admit {
                tenant,
                caller: *caller,
            },
            ReadState::CheckReplay { call: _, tenant, caller: _, auth_event } => {
                RelayAction::CheckReplay { tenant, auth_event: *auth_event }
            },
            ReadState::CheckMembership { call, tenant, caller, auth_event: _ } => RelayAction::CheckMembership {
                community: tenant.community(),
                caller: *caller,
                auth_tag: text_ref(&call.auth_tag),
            },
            ReadState::LoadWorkflow { call, tenant, caller: _ } => RelayAction::LoadWorkflow {
                community: tenant.community(),
                workflow_id: call.workflow_id,
            },
            ReadState::ListChannels { call: _, tenant, caller, workflow: _, channel_id: _ } => {
                RelayAction::ListChannels { community: tenant.community(), caller: *caller }
            },
            ReadState::CheckOwner { call: _, tenant, caller, workflow } => {
                RelayAction::CheckAgentOwner {
                    community: tenant.community(),
                    agent: workflow.owner_pubkey.as_slice(),
                    caller: *caller,
                }
            },
            ReadState::ReloadWorkflow { workflow_id, tenant } => RelayAction::LoadWorkflow {
                community: tenant.community(),
                workflow_id: *workflow_id,
            },
            ReadState::LoadRevision { tenant, revision } => RelayAction::LoadEvent {
                community: tenant.community(),
                id: revision.as_slice(),
            },
            ReadState::ListRuns { workflow_id, tenant, page } => RelayAction::ListRuns {
                community: tenant.community(),
                workflow_id: *workflow_id,
                cursor: page.get_cursor(),
                limit: page.get_limit() + 1,
            },
            ReadState::LoadRun { workflow_id: _, tenant, run_id } => RelayAction::LoadRun {
                community: tenant.community(),
                run_id: *run_id,
            },
            ReadState::ListApprovals { workflow_id, tenant, run_id } => RelayAction::ListApprovals {
                community: tenant.community(),
                workflow_id: *workflow_id,
                run_id: *run_id,
            },
        }
    }
}

/// `GET /workflows/{workflow_id}/revision`: the current signed revision, for an
/// authorized channel reader or the managed agent's immutable human owner.
///
/// This narrow endpoint does not grant channel visibility; it answers only with
/// the exact owner-signed definition event needed to construct a revision-bound
/// manual trigger.
pub fn workflow_revision(
    workflow_id: Uuid,
    host: Option<String>,
    auth_tag: Option<String>,
) -> (step: ReadStep)
    ensures
        step == ReadStep::Ask(
            ReadState::BindCommunity {
                call: ReadCall { workflow_id, host, auth_tag, endpoint: ReadEndpoint::Revision },
            },
        ),
{
    ReadStep::Ask(
        ReadState::BindCommunity {
            call: ReadCall { workflow_id, host, auth_tag, endpoint: ReadEndpoint::Revision },
        },
    )
}

/// `GET /workflows/{workflow_id}/runs`: one authorized, keyset-paginated page.
pub fn workflow_runs(
    workflow_id: Uuid,
    host: Option<String>,
    auth_tag: Option<String>,
    raw_query: Option<String>,
    query: RunsQuery,
) -> (step: ReadStep)
    ensures
        match page_limit(query) {
            Ok(limit) => {
                &&& step matches ReadStep::Ask(ReadState::BindCommunity { call })
                &&& call.workflow_id == workflow_id
                &&& call.host == host
                &&& call.auth_tag == auth_tag
                &&& call.endpoint matches ReadEndpoint::Runs { page, raw_query: verbatim }
                &&& verbatim == raw_query
                &&& page.limit() == limit
                &&& match page.cursor() {
                    Some(cursor) => query.before == Some(cursor.before) && query.before_id == Some(
                        cursor.before_id,
                    ),
                    None => query.before is None && query.before_id is None,
                }
            },
            Err(error) => step@ == ReadStepView::Refuse(error),
        },
{
    match validate_runs_query(&query) {
        Ok(page) => ReadStep::Ask(
            ReadState::BindCommunity {
                call: ReadCall {
                    workflow_id,
                    host,
                    auth_tag,
                    endpoint: ReadEndpoint::Runs { page, raw_query },
                },
            },
        ),
        Err(error) => ReadStep::Refuse(error),
    }
}

/// `GET /workflows/{workflow_id}/runs/{run_id}/approvals`: approvals for a run.
pub fn run_approvals(
    workflow_id: Uuid,
    run_id: Uuid,
    host: Option<String>,
    auth_tag: Option<String>,
) -> (step: ReadStep)
    ensures
        step == ReadStep::Ask(
            ReadState::BindCommunity {
                call: ReadCall {
                    workflow_id,
                    host,
                    auth_tag,
                    endpoint: ReadEndpoint::Approvals { run_id },
                },
            },
        ),
{
    ReadStep::Ask(
        ReadState::BindCommunity {
            call: ReadCall {
                workflow_id,
                host,
                auth_tag,
                endpoint: ReadEndpoint::Approvals { run_id },
            },
        },
    )
}

/// Where a request has come after these replies.
pub open spec fn read_run(call: ReadCall, replies: Seq<RelayReply>) -> ReadStepView
    decreases replies.len(),
{
    if replies.len() == 0 {
        ReadStepView::Ask(ReadState::BindCommunity { call })
    } else {
        match read_run(call, replies.drop_last()) {
            ReadStepView::Ask(state) => read_step(state, replies.last()),
            done => done,
        }
    }
}

/// The questions that a request has asked, each with its reply.
pub open spec fn read_trace(call: ReadCall, replies: Seq<RelayReply>) -> Seq<
    (Question, RelayReply),
>
    decreases replies.len(),
{
    if replies.len() == 0 {
        Seq::empty()
    } else {
        let earlier = read_trace(call, replies.drop_last());
        match read_run(call, replies.drop_last()) {
            ReadStepView::Ask(state) => earlier.push((read_question(state), replies.last())),
            _ => earlier,
        }
    }
}

/// A service replied with this row of the workflow.
pub open spec fn workflow_loaded(
    call: ReadCall,
    tenant: TenantContext,
    workflow: WorkflowRecord,
    trace: Seq<(Question, RelayReply)>,
) -> bool {
    trace.contains(
        (
            Question::LoadWorkflow {
                community: tenant.community_id,
                workflow_id: call.workflow_id,
            },
            RelayReply::Workflow(Ok(workflow)),
        ),
    )
}

/// The caller is cleared and may read the workflow: it can read its channel; or,
/// for the revision alone, it owns the workflow or the agent that owns it.
pub open spec fn may_read(
    call: ReadCall,
    tenant: TenantContext,
    caller: PublicKey,
    workflow: WorkflowRecord,
    trace: Seq<(Question, RelayReply)>,
) -> bool {
    &&& cleared(read_request(call), tenant, caller, trace)
    &&& workflow_loaded(call, tenant, workflow, trace)
    &&& workflow.channel_id is Some
    &&& {
        ||| channel_listed(tenant, caller, workflow.channel_id->0, trace)
        ||| call.endpoint is Revision && (workflow.owner_pubkey@ == caller@ || trace.contains(
            (
                Question::CheckAgentOwner {
                    community: tenant.community_id,
                    agent: workflow.owner_pubkey@,
                    caller,
                },
                RelayReply::AgentOwner(Ok(true)),
            ),
        ))
    }
}

/// A service listed the channel among those that the caller can read.
pub open spec fn channel_listed(
    tenant: TenantContext,
    caller: PublicKey,
    channel_id: Uuid,
    trace: Seq<(Question, RelayReply)>,
) -> bool {
    exists|channels: Vec<Uuid>| #[trigger]
        trace.contains(
            (
                Question::ListChannels { community: tenant.community_id, caller },
                RelayReply::Channels(Ok(channels)),
            ),
        ) && channels@.contains(channel_id)
}

/// A service listed the channels that the caller can read, and not this one.
pub open spec fn channel_unlisted(
    tenant: TenantContext,
    caller: PublicKey,
    channel_id: Uuid,
    trace: Seq<(Question, RelayReply)>,
) -> bool {
    exists|channels: Vec<Uuid>| #[trigger]
        trace.contains(
            (
                Question::ListChannels { community: tenant.community_id, caller },
                RelayReply::Channels(Ok(channels)),
            ),
        ) && !channels@.contains(channel_id)
}

/// Somebody may read.
pub open spec fn reader_found(
    call: ReadCall,
    tenant: TenantContext,
    trace: Seq<(Question, RelayReply)>,
) -> bool {
    exists|caller: PublicKey, workflow: WorkflowRecord| #[trigger]
        may_read(call, tenant, caller, workflow, trace)
}

/// A service replied that this is the workflow's revision.
pub open spec fn revision_named(
    call: ReadCall,
    tenant: TenantContext,
    revision: Vec<u8>,
    trace: Seq<(Question, RelayReply)>,
) -> bool {
    exists|workflow: WorkflowRecord| #[trigger]
        workflow_loaded(call, tenant, workflow, trace) && workflow.definition_event_id == Some(
            revision,
        )
}

/// A service replied with this event to the question for this identifier.
pub open spec fn event_loaded(
    tenant: TenantContext,
    id: Seq<u8>,
    event: Event,
    trace: Seq<(Question, RelayReply)>,
) -> bool {
    exists|stored: StoredEvent| #[trigger]
        trace.contains(
            (
                Question::LoadEvent { community: tenant.community_id, id },
                RelayReply::Event(Ok(Some(stored))),
            ),
        ) && stored.event == event
}

/// The event is the workflow's revision, and was asked for by that.
pub open spec fn revision_loaded(
    call: ReadCall,
    tenant: TenantContext,
    event: Event,
    trace: Seq<(Question, RelayReply)>,
) -> bool {
    exists|revision: Vec<u8>| #[trigger]
        revision_named(call, tenant, revision, trace) && event_loaded(
            tenant,
            revision@,
            event,
            trace,
        )
}

/// A service replied that the run is one of this workflow.
pub open spec fn run_belongs(
    call: ReadCall,
    tenant: TenantContext,
    run_id: Uuid,
    trace: Seq<(Question, RelayReply)>,
) -> bool {
    exists|run: WorkflowRunRecord| #[trigger]
        trace.contains(
            (
                Question::LoadRun { community: tenant.community_id, run_id },
                RelayReply::Run(Ok(run)),
            ),
        ) && run.workflow_id == call.workflow_id
}

/// The page was cut from the rows that were listed for it.
pub open spec fn page_listed(
    call: ReadCall,
    tenant: TenantContext,
    page: PageRequest,
    cut: PageView,
    trace: Seq<(Question, RelayReply)>,
) -> bool {
    exists|rows: Vec<WorkflowRunRecord>| #[trigger]
        trace.contains(
            (
                Question::ListRuns {
                    community: tenant.community_id,
                    workflow_id: call.workflow_id,
                    cursor: page.cursor(),
                    limit: page.limit() + 1,
                },
                RelayReply::Runs(Ok(rows)),
            ),
        ) && cut == page_of(rows@, page.limit() as int)
}

/// What has been shown when a request is in this state.
pub open spec fn shown(
    call: ReadCall,
    state: ReadState,
    trace: Seq<(Question, RelayReply)>,
) -> bool {
    match state {
        ReadState::BindCommunity { call: c } => c == call,
        ReadState::VerifyAuth { call: c, tenant } => {
            &&& c == call
            &&& host_bound(read_request(call), tenant, trace)
        },
        ReadState::Admit { call: c, tenant, caller, auth_event } => {
            &&& c == call
            &&& host_bound(read_request(call), tenant, trace)
            &&& request_signed(read_request(call), tenant, caller, auth_event, trace)
        },
        ReadState::CheckReplay { call: c, tenant, caller, auth_event } => {
            &&& c == call
            &&& host_bound(read_request(call), tenant, trace)
            &&& request_signed(read_request(call), tenant, caller, auth_event, trace)
            &&& trace.contains((Question::Admit { tenant, caller }, RelayReply::Admission(Ok(()))))
        },
        ReadState::CheckMembership { call: c, tenant, caller, auth_event } => {
            &&& c == call
            &&& host_bound(read_request(call), tenant, trace)
            &&& request_signed(read_request(call), tenant, caller, auth_event, trace)
            &&& trace.contains((Question::Admit { tenant, caller }, RelayReply::Admission(Ok(()))))
            &&& trace.contains(
                (Question::CheckReplay { tenant, auth_event }, RelayReply::Replay(Ok(()))),
            )
        },
        ReadState::LoadWorkflow { call: c, tenant, caller } => {
            &&& c == call
            &&& cleared(read_request(call), tenant, caller, trace)
        },
        ReadState::ListChannels { call: c, tenant, caller, workflow, channel_id } => {
            &&& c == call
            &&& cleared(read_request(call), tenant, caller, trace)
            &&& workflow_loaded(call, tenant, workflow, trace)
            &&& workflow.channel_id == Some(channel_id)
        },
        ReadState::CheckOwner { call: c, tenant, caller, workflow } => {
            &&& c == call
            &&& cleared(read_request(call), tenant, caller, trace)
            &&& workflow_loaded(call, tenant, workflow, trace)
            &&& workflow.channel_id is Some
            &&& call.endpoint is Revision
            &&& workflow.owner_pubkey@ != caller@
            &&& channel_unlisted(tenant, caller, workflow.channel_id->0, trace)
        },
        ReadState::ReloadWorkflow { workflow_id, tenant } => {
            &&& call.endpoint is Revision
            &&& workflow_id == call.workflow_id
            &&& reader_found(call, tenant, trace)
        },
        ReadState::LoadRevision { tenant, revision } => {
            &&& call.endpoint is Revision
            &&& reader_found(call, tenant, trace)
            &&& revision_named(call, tenant, revision, trace)
        },
        ReadState::ListRuns { workflow_id, tenant, page } => {
            &&& call.endpoint matches ReadEndpoint::Runs { page: p, raw_query: _ } && p == page
            &&& workflow_id == call.workflow_id
            &&& reader_found(call, tenant, trace)
        },
        ReadState::LoadRun { workflow_id, tenant, run_id } => {
            &&& call.endpoint == (ReadEndpoint::Approvals { run_id })
            &&& workflow_id == call.workflow_id
            &&& reader_found(call, tenant, trace)
        },
        ReadState::ListApprovals { workflow_id, tenant, run_id } => {
            &&& call.endpoint == (ReadEndpoint::Approvals { run_id })
            &&& workflow_id == call.workflow_id
            &&& reader_found(call, tenant, trace)
            &&& run_belongs(call, tenant, run_id, trace)
        },
    }
}

/// What has been shown when a request got this answer from this tenant: somebody
/// may read, the endpoint is the answer's, and the answer is what the services
/// replied to the questions for it.
pub open spec fn answer_shown(
    call: ReadCall,
    tenant: TenantContext,
    answer: ReadAnswerView,
    trace: Seq<(Question, RelayReply)>,
) -> bool {
    &&& reader_found(call, tenant, trace)
    &&& match answer {
        ReadAnswerView::Revision(event) => {
            &&& call.endpoint is Revision
            &&& revision_loaded(call, tenant, event, trace)
        },
        ReadAnswerView::Runs(cut) => {
            &&& call.endpoint matches ReadEndpoint::Runs { page, raw_query: _ }
            &&& page_listed(call, tenant, page, cut, trace)
        },
        ReadAnswerView::Approvals(approvals) => {
            &&& call.endpoint matches ReadEndpoint::Approvals { run_id }
            &&& run_belongs(call, tenant, run_id, trace)
            &&& trace.contains(
                (
                    Question::ListApprovals {
                        community: tenant.community_id,
                        workflow_id: call.workflow_id,
                        run_id,
                    },
                    RelayReply::Approvals(Ok(approvals)),
                ),
            )
        },
    }
}

/// The answer was shown to be due, from some tenant.
pub open spec fn answer_due(
    call: ReadCall,
    answer: ReadAnswerView,
    trace: Seq<(Question, RelayReply)>,
) -> bool {
    exists|tenant: TenantContext| #[trigger] answer_shown(call, tenant, answer, trace)
}

/// Nothing of a workflow is asked for or answered before every gate was passed:
/// in each state the services have shown, to questions about this very request,
/// what the state rests on, and an answer goes only to a cleared caller who may
/// read the workflow. It is then what the services replied: the revision that the
/// workflow's row names, a page cut from the rows listed for it, or the approvals
/// of a run of that workflow.
pub proof fn law_reads_pass_every_gate(call: ReadCall, replies: Seq<RelayReply>)
    ensures
        match read_run(call, replies) {
            ReadStepView::Ask(state) => shown(call, state, read_trace(call, replies)),
            ReadStepView::Answer(answer) => answer_due(call, answer, read_trace(call, replies)),
            ReadStepView::Refuse(_) => true,
        },
    decreases replies.len(),
{
    if replies.len() > 0 {
        let earlier = replies.drop_last();
        law_reads_pass_every_gate(call, earlier);
        if let ReadStepView::Ask(state) = read_run(call, earlier) {
            lemma_read_step_shows(call, state, read_trace(call, earlier), replies.last());
        }
    }
}

/// A step shows what the next state, or the answer, rests on.
proof fn lemma_read_step_shows(
    call: ReadCall,
    state: ReadState,
    earlier: Seq<(Question, RelayReply)>,
    reply: RelayReply,
)
    requires
        shown(call, state, earlier),
    ensures
        match read_step(state, reply) {
            ReadStepView::Ask(next) => shown(
                call,
                next,
                earlier.push((read_question(state), reply)),
            ),
            ReadStepView::Answer(answer) => answer_due(
                call,
                answer,
                earlier.push((read_question(state), reply)),
            ),
            ReadStepView::Refuse(_) => true,
        },
{
    let exchange = (read_question(state), reply);
    let trace = earlier.push(exchange);
    assert(trace[trace.len() - 1] == exchange);
    assert(trace.drop_last() =~= earlier);
    lemma_facts_grow(call, earlier, trace);
    match (state, reply) {
        (_, RelayReply::Admission(Ok(unit))) => {
            assert(unit == ());
        },
        (_, RelayReply::Replay(Ok(unit))) => {
            assert(unit == ());
        },
        (
            ReadState::CheckMembership { call: _, tenant, caller, auth_event },
            RelayReply::Membership(Ok(unit)),
        ) => {
            assert(unit == ());
            assert(cleared_by(read_request(call), tenant, caller, auth_event, trace));
        },
        (
            ReadState::ListChannels { call: _, tenant, caller, workflow, channel_id },
            RelayReply::Channels(Ok(channels)),
        ) => {
            if channels@.contains(channel_id) {
                assert(trace.contains(
                    (
                        Question::ListChannels { community: tenant.community_id, caller },
                        RelayReply::Channels(Ok(channels)),
                    ),
                ));
                assert(channel_listed(tenant, caller, channel_id, trace));
                assert(may_read(call, tenant, caller, workflow, trace));
            } else if call.endpoint is Revision && workflow.owner_pubkey@ == caller@ {
                assert(may_read(call, tenant, caller, workflow, trace));
            } else {
                assert(trace.contains(
                    (
                        Question::ListChannels { community: tenant.community_id, caller },
                        RelayReply::Channels(Ok(channels)),
                    ),
                ));
                assert(channel_unlisted(tenant, caller, channel_id, trace));
            }
        },
        (
            ReadState::CheckOwner { call: _, tenant, caller, workflow },
            RelayReply::AgentOwner(Ok(owns)),
        ) => {
            if owns {
                assert(may_read(call, tenant, caller, workflow, trace));
            }
        },
        (
            ReadState::ReloadWorkflow { workflow_id: _, tenant },
            RelayReply::Workflow(Ok(workflow)),
        ) => {
            assert(workflow_loaded(call, tenant, workflow, trace));
        },
        (
            ReadState::LoadRevision { tenant, revision },
            RelayReply::Event(Ok(Some(stored))),
        ) => {
            assert(trace.contains(
                (
                    Question::LoadEvent { community: tenant.community_id, id: revision@ },
                    RelayReply::Event(Ok(Some(stored))),
                ),
            ));
            assert(event_loaded(tenant, revision@, stored.event, trace));
            assert(revision_named(call, tenant, revision, trace));
            assert(answer_shown(call, tenant, ReadAnswerView::Revision(stored.event), trace));
        },
        (
            ReadState::ListRuns { workflow_id: _, tenant, page },
            RelayReply::Runs(Ok(rows)),
        ) => {
            let cut = page_of(rows@, page.limit() as int);
            assert(trace.contains(
                (
                    Question::ListRuns {
                        community: tenant.community_id,
                        workflow_id: call.workflow_id,
                        cursor: page.cursor(),
                        limit: page.limit() + 1,
                    },
                    RelayReply::Runs(Ok(rows)),
                ),
            ));
            assert(page_listed(call, tenant, page, cut, trace));
            assert(answer_shown(call, tenant, ReadAnswerView::Runs(cut), trace));
        },
        (
            ReadState::LoadRun { workflow_id: _, tenant, run_id },
            RelayReply::Run(Ok(run)),
        ) => {
            assert(trace.contains(
                (
                    Question::LoadRun { community: tenant.community_id, run_id },
                    RelayReply::Run(Ok(run)),
                ),
            ));
        },
        (
            ReadState::ListApprovals { workflow_id: _, tenant, run_id: _ },
            RelayReply::Approvals(Ok(approvals)),
        ) => {
            assert(answer_shown(call, tenant, ReadAnswerView::Approvals(approvals), trace));
        },
        _ => {},
    }
}

/// What was shown stays shown.
proof fn lemma_facts_grow(
    call: ReadCall,
    earlier: Seq<(Question, RelayReply)>,
    trace: Seq<(Question, RelayReply)>,
)
    requires
        trace.len() > 0,
        earlier == trace.drop_last(),
    ensures
        forall|exchange: (Question, RelayReply)| #[trigger]
            earlier.contains(exchange) ==> trace.contains(exchange),
        forall|tenant: TenantContext, caller: PublicKey| #[trigger]
            cleared(read_request(call), tenant, caller, earlier) ==> cleared(
                read_request(call),
                tenant,
                caller,
                trace,
            ),
        forall|tenant: TenantContext, caller: PublicKey, channel_id: Uuid| #[trigger]
            channel_unlisted(tenant, caller, channel_id, earlier) ==> channel_unlisted(
                tenant,
                caller,
                channel_id,
                trace,
            ),
        forall|tenant: TenantContext| #[trigger]
            reader_found(call, tenant, earlier) ==> reader_found(call, tenant, trace),
        forall|tenant: TenantContext, revision: Vec<u8>| #[trigger]
            revision_named(call, tenant, revision, earlier) ==> revision_named(
                call,
                tenant,
                revision,
                trace,
            ),
        forall|tenant: TenantContext, run_id: Uuid| #[trigger]
            run_belongs(call, tenant, run_id, earlier) ==> run_belongs(call, tenant, run_id, trace),
{
    assert forall|exchange: (Question, RelayReply)| #[trigger]
        earlier.contains(exchange) implies trace.contains(exchange) by {
        let k = earlier.index_of(exchange);
        assert(trace[k] == exchange);
    }
    assert forall|tenant: TenantContext, caller: PublicKey| #[trigger]
        cleared(read_request(call), tenant, caller, earlier) implies cleared(
        read_request(call),
        tenant,
        caller,
        trace,
    ) by {
        let auth_event = choose|auth_event: Option<EventId>| #[trigger]
            cleared_by(read_request(call), tenant, caller, auth_event, earlier);
        assert(cleared_by(read_request(call), tenant, caller, auth_event, trace));
    }
    assert forall|tenant: TenantContext, caller: PublicKey, channel_id: Uuid| #[trigger]
        channel_listed(tenant, caller, channel_id, earlier) implies channel_listed(
        tenant,
        caller,
        channel_id,
        trace,
    ) by {
        let channels = choose|channels: Vec<Uuid>| #[trigger]
            earlier.contains(
                (
                    Question::ListChannels { community: tenant.community_id, caller },
                    RelayReply::Channels(Ok(channels)),
                ),
            ) && channels@.contains(channel_id);
        assert(trace.contains(
            (
                Question::ListChannels { community: tenant.community_id, caller },
                RelayReply::Channels(Ok(channels)),
            ),
        ));
    }
    assert forall|tenant: TenantContext, caller: PublicKey, channel_id: Uuid| #[trigger]
        channel_unlisted(tenant, caller, channel_id, earlier) implies channel_unlisted(
        tenant,
        caller,
        channel_id,
        trace,
    ) by {
        let channels = choose|channels: Vec<Uuid>| #[trigger]
            earlier.contains(
                (
                    Question::ListChannels { community: tenant.community_id, caller },
                    RelayReply::Channels(Ok(channels)),
                ),
            ) && !channels@.contains(channel_id);
        assert(trace.contains(
            (
                Question::ListChannels { community: tenant.community_id, caller },
                RelayReply::Channels(Ok(channels)),
            ),
        ));
    }
    assert forall|tenant: TenantContext| #[trigger]
        reader_found(call, tenant, earlier) implies reader_found(call, tenant, trace) by {
        let (caller, workflow) = choose|caller: PublicKey, workflow: WorkflowRecord| #[trigger]
            may_read(call, tenant, caller, workflow, earlier);
        assert(may_read(call, tenant, caller, workflow, trace));
    }
    assert forall|tenant: TenantContext, revision: Vec<u8>| #[trigger]
        revision_named(call, tenant, revision, earlier) implies revision_named(
        call,
        tenant,
        revision,
        trace,
    ) by {
        let workflow = choose|workflow: WorkflowRecord| #[trigger]
            workflow_loaded(call, tenant, workflow, earlier) && workflow.definition_event_id == Some(
                revision,
            );
        assert(workflow_loaded(call, tenant, workflow, trace));
    }
    assert forall|tenant: TenantContext, run_id: Uuid| #[trigger]
        run_belongs(call, tenant, run_id, earlier) implies run_belongs(
        call,
        tenant,
        run_id,
        trace,
    ) by {
        let run = choose|run: WorkflowRunRecord| #[trigger]
            earlier.contains(
                (
                    Question::LoadRun { community: tenant.community_id, run_id },
                    RelayReply::Run(Ok(run)),
                ),
            ) && run.workflow_id == call.workflow_id;
        assert(trace.contains(
            (
                Question::LoadRun { community: tenant.community_id, run_id },
                RelayReply::Run(Ok(run)),
            ),
        ));
    }
}

/// The reply is to the question that the state asks.
pub open spec fn read_reply_fits(state: ReadState, reply: RelayReply) -> bool {
    match state {
        ReadState::BindCommunity { call: _ } => reply is Community,
        ReadState::VerifyAuth { call: _, tenant: _ } => reply is Auth,
        ReadState::Admit { call: _, tenant: _, caller: _, auth_event: _ } => reply is Admission,
        ReadState::CheckReplay { call: _, tenant: _, caller: _, auth_event: _ } => reply is Replay,
        ReadState::CheckMembership { call: _, tenant: _, caller: _, auth_event: _ } => reply is Membership,
        ReadState::LoadWorkflow { call: _, tenant: _, caller: _ } => reply is Workflow,
        ReadState::ListChannels { call: _, tenant: _, caller: _, workflow: _, channel_id: _ } => {
            reply is Channels
        },
        ReadState::CheckOwner { call: _, tenant: _, caller: _, workflow: _ } => reply is AgentOwner,
        ReadState::ReloadWorkflow { workflow_id: _, tenant: _ } => reply is Workflow,
        ReadState::ListRuns { workflow_id: _, tenant: _, page: _ } => reply is Runs,
        ReadState::LoadRun { workflow_id: _, tenant: _, run_id: _ } => reply is Run,
        ReadState::LoadRevision { tenant: _, revision: _ } => reply is Event,
        ReadState::ListApprovals { workflow_id: _, tenant: _, run_id: _ } => reply is Approvals,
    }
}

/// How many questions a request has put behind it.
pub open spec fn read_progress(state: ReadState) -> int {
    match state {
        ReadState::BindCommunity { call: _ } => 0,
        ReadState::VerifyAuth { call: _, tenant: _ } => 1,
        ReadState::Admit { call: _, tenant: _, caller: _, auth_event: _ } => 2,
        ReadState::CheckReplay { call: _, tenant: _, caller: _, auth_event: _ } => 3,
        ReadState::CheckMembership { call: _, tenant: _, caller: _, auth_event: _ } => 4,
        ReadState::LoadWorkflow { call: _, tenant: _, caller: _ } => 5,
        ReadState::ListChannels { call: _, tenant: _, caller: _, workflow: _, channel_id: _ } => 6,
        ReadState::CheckOwner { call: _, tenant: _, caller: _, workflow: _ } => 7,
        ReadState::ReloadWorkflow { workflow_id: _, tenant: _ } => 8,
        ReadState::ListRuns { workflow_id: _, tenant: _, page: _ } => 8,
        ReadState::LoadRun { workflow_id: _, tenant: _, run_id: _ } => 8,
        ReadState::LoadRevision { tenant: _, revision: _ } => 9,
        ReadState::ListApprovals { workflow_id: _, tenant: _, run_id: _ } => 9,
    }
}

/// Every reply to the question asked brings a request forward, so that no request
/// asks more than ten questions; any other reply changes nothing.
pub proof fn law_reads_make_progress(state: ReadState, reply: RelayReply)
    ensures
        0 <= read_progress(state) <= 9,
        read_reply_fits(state, reply) ==> (read_step(state, reply) matches ReadStepView::Ask(next)
            ==> read_progress(next) > read_progress(state)),
        !read_reply_fits(state, reply) ==> read_step(state, reply) == ReadStepView::Ask(state),
{
}

/// The caller's channels have been told.
pub open spec fn channels_told(trace: Seq<(Question, RelayReply)>) -> bool {
    exists|k: int|
        0 <= k < trace.len() && (#[trigger] trace[k]).0 is ListChannels && trace[k].1 is Channels
}

/// The caller was cleared, and the workflow is in a channel that is not among
/// these.
pub open spec fn barred(
    call: ReadCall,
    tenant: TenantContext,
    caller: PublicKey,
    workflow: WorkflowRecord,
    channels: Seq<Uuid>,
    trace: Seq<(Question, RelayReply)>,
) -> bool {
    &&& cleared(read_request(call), tenant, caller, trace)
    &&& workflow_loaded(call, tenant, workflow, trace)
    &&& workflow.channel_id matches Some(channel_id) && !channels.contains(channel_id)
}

/// Somebody was barred by these channels.
pub open spec fn barred_by(
    call: ReadCall,
    channels: Seq<Uuid>,
    trace: Seq<(Question, RelayReply)>,
) -> bool {
    exists|tenant: TenantContext, caller: PublicKey, workflow: WorkflowRecord| #[trigger]
        barred(call, tenant, caller, workflow, channels, trace)
}

/// The caller does not read the workflow's channel and does not own the workflow,
/// and it was this question whether the caller owns the agent that does.
pub open spec fn no_owner(
    call: ReadCall,
    tenant: TenantContext,
    caller: PublicKey,
    workflow: WorkflowRecord,
    question: Question,
    trace: Seq<(Question, RelayReply)>,
) -> bool {
    &&& workflow_loaded(call, tenant, workflow, trace)
    &&& workflow.channel_id matches Some(channel_id) && channel_unlisted(
        tenant,
        caller,
        channel_id,
        trace,
    )
    &&& workflow.owner_pubkey@ != caller@
    &&& question == (Question::CheckAgentOwner {
        community: tenant.community_id,
        agent: workflow.owner_pubkey@,
        caller,
    })
}

/// Somebody is no owner.
pub open spec fn not_owned(
    call: ReadCall,
    question: Question,
    trace: Seq<(Question, RelayReply)>,
) -> bool {
    exists|tenant: TenantContext, caller: PublicKey, workflow: WorkflowRecord| #[trigger]
        no_owner(call, tenant, caller, workflow, question, trace)
}

/// The last reply is a cause for this refusal: a gate was not passed, a row is not
/// there, or a service failed.
pub open spec fn refused_for_cause(
    call: ReadCall,
    error: ErrorView,
    trace: Seq<(Question, RelayReply)>,
) -> bool {
    let (question, reply) = trace.last();
    let told = channels_told(trace);
    trace.len() > 0 && match (reply, error) {
        // A service refused the request, and its words are passed on.
        (RelayReply::Auth(Err(refused)), _) => question is VerifyAuth && error == refused@,
        (RelayReply::Admission(Err(refused)), _) => question is Admit && error == refused@,
        (RelayReply::Replay(Err(refused)), _) => question is CheckReplay && error == refused@,
        (RelayReply::Membership(Err(refused)), _) => question is CheckMembership && error
            == refused@,
        // Something is not there.
        (RelayReply::Community(None), ErrorView::Refused { status, message }) => {
            &&& question is BindCommunity
            &&& status == 404
            &&& message == "relay: no community is configured for this host"@
        },
        (
            RelayReply::Workflow(Err(LookupError::NotFound(_))),
            ErrorView::Refused { status, message },
        ) => question is LoadWorkflow && status == 404 && message == "workflow not found"@,
        (
            RelayReply::Workflow(Err(LookupError::Failed(_))),
            ErrorView::Refused { status, message },
        ) => question is LoadWorkflow && told && status == 404 && message == "workflow not found"@,
        (RelayReply::Run(Err(LookupError::NotFound(_))), ErrorView::Refused { status, message }) => {
            question is LoadRun && status == 404 && message == "workflow run not found"@
        },
        (RelayReply::Run(Ok(run)), ErrorView::Refused { status, message }) => {
            &&& question is LoadRun
            &&& run.workflow_id != call.workflow_id
            &&& status == 404
            &&& message == "workflow run not found"@
        },
        (RelayReply::Event(Ok(None)), ErrorView::Refused { status, message }) => {
            question is LoadEvent && status == 409 && message
                == "workflow revision is unavailable"@
        },
        (RelayReply::Workflow(Ok(workflow)), ErrorView::Refused { status, message }) => {
            &&& question is LoadWorkflow
            &&& if told {
                workflow.definition_event_id is None && status == 409 && message
                    == "owner-signed workflow revision is unavailable"@
            } else {
                workflow.channel_id is None && status == 403 && message
                    == "workflow is not channel-scoped"@
            }
        },
        // The caller may not read.
        (RelayReply::Channels(Ok(channels)), ErrorView::Refused { status, message }) => {
            &&& question is ListChannels
            &&& call.endpoint !is Revision
            &&& barred_by(call, channels@, trace)
            &&& status == 403
            &&& message == "workflow is not accessible"@
        },
        (RelayReply::AgentOwner(Ok(owns)), ErrorView::Refused { status, message }) => {
            &&& !owns
            &&& not_owned(call, question, trace)
            &&& status == 403
            &&& message == "workflow is not accessible"@
        },
        // A service failed.
        (
            RelayReply::Workflow(Err(LookupError::Failed(text))),
            ErrorView::Internal { message },
        ) => question is LoadWorkflow && !told && message == "get workflow for run read: "@ + text@,
        (RelayReply::Channels(Err(text)), ErrorView::Internal { message }) => {
            question is ListChannels && message == "workflow channel access lookup: "@ + text@
        },
        (RelayReply::AgentOwner(Err(text)), ErrorView::Internal { message }) => {
            question is CheckAgentOwner && message == "workflow owner lookup: "@ + text@
        },
        (RelayReply::Event(Err(text)), ErrorView::Internal { message }) => {
            question is LoadEvent && message == "get workflow revision: "@ + text@
        },
        (RelayReply::Runs(Err(text)), ErrorView::Internal { message }) => {
            question is ListRuns && message == "list workflow runs: "@ + text@
        },
        (RelayReply::Run(Err(LookupError::Failed(text))), ErrorView::Internal { message }) => {
            question is LoadRun && message == "get workflow run for approval read: "@ + text@
        },
        (RelayReply::Approvals(Err(text)), ErrorView::Internal { message }) => {
            question is ListApprovals && message == "list run approvals: "@ + text@
        },
        _ => false,
    }
}

/// A request is refused only for cause: the last reply in its trace says that a
/// gate was not passed, that a row is not there, or that a service failed, and the
/// refusal says so. Whatever else is replied is no reason to refuse: an empty list
/// of approvals or of runs is answered like any other.
pub proof fn law_reads_are_refused_only_for_cause(call: ReadCall, replies: Seq<RelayReply>)
    ensures
        read_run(call, replies) matches ReadStepView::Refuse(error) ==> refused_for_cause(
            call,
            error,
            read_trace(call, replies),
        ),
    decreases replies.len(),
{
    if replies.len() > 0 {
        let earlier = replies.drop_last();
        law_reads_are_refused_only_for_cause(call, earlier);
        if let ReadStepView::Ask(state) = read_run(call, earlier) {
            law_reads_pass_every_gate(call, earlier);
            lemma_channels_are_told_once(call, earlier);
            lemma_refusals_have_a_cause(
                call,
                state,
                read_trace(call, earlier),
                replies.last(),
            );
        }
    }
}

/// The channels have been told exactly where they lie behind a request.
proof fn lemma_channels_are_told_once(call: ReadCall, replies: Seq<RelayReply>)
    ensures
        read_run(call, replies) matches ReadStepView::Ask(state) ==> (channels_told(
            read_trace(call, replies),
        ) <==> read_progress(state) > 6),
    decreases replies.len(),
{
    if replies.len() > 0 {
        let earlier = replies.drop_last();
        lemma_channels_are_told_once(call, earlier);
        if let ReadStepView::Ask(state) = read_run(call, earlier) {
            let before = read_trace(call, earlier);
            let exchange = (read_question(state), replies.last());
            lemma_telling(before, exchange);
            law_reads_make_progress(state, replies.last());
        }
    }
}

/// The channels have been told after one more exchange where they were before, or
/// where it tells them.
proof fn lemma_telling(before: Seq<(Question, RelayReply)>, exchange: (Question, RelayReply))
    ensures
        channels_told(before.push(exchange)) <==> channels_told(before) || (exchange.0 is ListChannels
            && exchange.1 is Channels),
{
    let after = before.push(exchange);
    if channels_told(before) {
        let k = choose|k: int|
            0 <= k < before.len() && (#[trigger] before[k]).0 is ListChannels && before[k].1
                is Channels;
        assert(after[k] == before[k]);
    }
    assert(after[before.len() as int] == exchange);
    if channels_told(after) {
        let k = choose|k: int|
            0 <= k < after.len() && (#[trigger] after[k]).0 is ListChannels && after[k].1
                is Channels;
        if k < before.len() {
            assert(before[k] == after[k]);
        }
    }
}

/// A step that refuses has a cause.
proof fn lemma_refusals_have_a_cause(
    call: ReadCall,
    state: ReadState,
    earlier: Seq<(Question, RelayReply)>,
    reply: RelayReply,
)
    requires
        shown(call, state, earlier),
        channels_told(earlier) <==> read_progress(state) > 6,
    ensures
        read_step(state, reply) matches ReadStepView::Refuse(error) ==> refused_for_cause(
            call,
            error,
            earlier.push((read_question(state), reply)),
        ),
{
    let exchange = (read_question(state), reply);
    let trace = earlier.push(exchange);
    assert(trace.last() == exchange);
    assert(trace.drop_last() =~= earlier);
    lemma_telling(earlier, exchange);
    lemma_facts_grow(call, earlier, trace);
    match (state, reply) {
        (
            ReadState::ListChannels { call: _, tenant, caller, workflow, channel_id },
            RelayReply::Channels(Ok(channels)),
        ) => {
            if !channels@.contains(channel_id) {
                assert(barred(call, tenant, caller, workflow, channels@, trace));
            }
        },
        (
            ReadState::CheckOwner { call: _, tenant, caller, workflow },
            RelayReply::AgentOwner(Ok(owns)),
        ) => {
            assert(no_owner(call, tenant, caller, workflow, exchange.0, trace));
        },
        _ => {},
    }
}

/// What a service finds for a reader is what the reader gets. The list of
/// approvals is answered as it came, the empty one too; so is the event of the
/// revision; and the rows of a page are answered in their order, up to its size,
/// with a cursor at the last of them exactly where there are more.
pub proof fn law_what_is_found_is_answered(state: ReadState, reply: RelayReply)
    ensures
        read_question(state) is ListApprovals ==> (reply matches RelayReply::Approvals(Ok(found))
            ==> read_step(state, reply) == ReadStepView::Answer(ReadAnswerView::Approvals(found))),
        read_question(state) is LoadEvent ==> (reply matches RelayReply::Event(Ok(Some(stored)))
            ==> read_step(state, reply) == ReadStepView::Answer(
            ReadAnswerView::Revision(stored.event),
        )),
        read_question(state) matches Question::ListRuns { community: _, workflow_id: _, cursor: _, limit }
            ==> (reply matches RelayReply::Runs(Ok(rows)) ==> limit > 1 ==> {
            &&& read_step(state, reply) matches ReadStepView::Answer(ReadAnswerView::Runs(page))
            &&& page.runs.is_prefix_of(rows@)
            &&& rows@.len() < limit ==> page.runs == rows@ && page.next is None
            &&& rows@.len() >= limit ==> {
                &&& page.runs.len() == limit - 1
                &&& page.next matches Some(cursor) && cursor.before == rows@[limit - 2].created_at
                    && cursor.before_id == rows@[limit - 2].id
            }
        }),
{
}

/// Every reply is to the question that was asked.
pub open spec fn replies_fit(call: ReadCall, replies: Seq<RelayReply>) -> bool {
    forall|n: int|
        0 <= n < replies.len() ==> (#[trigger] read_run(call, replies.take(n)) matches
            ReadStepView::Ask(state) ==> read_reply_fits(state, replies[n]))
}

/// A request comes to its end: after ten replies to what it asked, it is answered
/// or refused. So a request that gives no cause for refusal is answered.
pub proof fn law_reads_come_to_an_end(call: ReadCall, replies: Seq<RelayReply>)
    requires
        replies_fit(call, replies),
    ensures
        read_run(call, replies) matches ReadStepView::Ask(state) ==> replies.len()
            <= read_progress(state) <= 9,
    decreases replies.len(),
{
    if replies.len() > 0 {
        let earlier = replies.drop_last();
        let last = replies.len() - 1;
        assert forall|n: int| 0 <= n < earlier.len() implies (#[trigger] read_run(
            call,
            earlier.take(n),
        ) matches ReadStepView::Ask(state) ==> read_reply_fits(state, earlier[n])) by {
            assert(earlier.take(n) =~= replies.take(n));
        }
        law_reads_come_to_an_end(call, earlier);
        assert(replies.take(last) =~= earlier);
        if let ReadStepView::Ask(state) = read_run(call, earlier) {
            assert(read_run(call, replies.take(last)) == ReadStepView::Ask(state));
            assert(read_reply_fits(state, replies[last]));
            law_reads_make_progress(state, replies.last());
        }
    }
    if let ReadStepView::Ask(state) = read_run(call, replies) {
        law_reads_make_progress(state, RelayReply::Community(None));
    }
}

/// What a read says of itself is what it was sent with: its host or none, its
/// membership tag or none, and no body.
pub proof fn law_reads_say_what_they_were_sent_with(call: ReadCall)
    ensures
        read_request(call).method is Get,
        read_request(call).body is None,
        call.host matches Some(host) ==> read_request(call).host == host@,
        call.host is None ==> read_request(call).host.len() == 0,
        call.auth_tag matches Some(tag) ==> read_request(call).auth_tag == Some(tag@),
        call.auth_tag is None ==> read_request(call).auth_tag is None,
{
    reveal_strlit("");
}

/// The path of a read names its workflow and what is read of it, then the run or
/// the query.
pub proof fn law_read_paths_name_what_is_read(call: ReadCall)
    ensures
        ({
            let path = read_path(call);
            &&& path.subrange(0, 11) == "/workflows/"@
            &&& path.subrange(11, 47) == uuid_text(call.workflow_id@)
            &&& match call.endpoint {
                ReadEndpoint::Revision => path.skip(47) == "/revision"@,
                ReadEndpoint::Runs { page: _, raw_query: None } => path.skip(47) == "/runs"@,
                ReadEndpoint::Runs { page: _, raw_query: Some(query) } => {
                    &&& query@.len() == 0 ==> path.skip(47) == "/runs"@
                    &&& query@.len() > 0 ==> path.subrange(47, 52) == "/runs"@ && path[52] == '?'
                        && path.skip(53) == query@
                },
                ReadEndpoint::Approvals { run_id } => {
                    &&& path.subrange(47, 53) == "/runs/"@
                    &&& path.subrange(53, 89) == uuid_text(run_id@)
                    &&& path.skip(89) == "/approvals"@
                },
            }
        }),
{
    reveal_strlit("/workflows/");
    reveal_strlit("/revision");
    reveal_strlit("/runs");
    reveal_strlit("/runs/");
    reveal_strlit("/approvals");
    law_uuid_texts_tell_uuids_apart(call.workflow_id, call.workflow_id);
    let path = read_path(call);
    assert(path.subrange(0, 11) =~= "/workflows/"@);
    assert(path.subrange(11, 47) =~= uuid_text(call.workflow_id@));
    match call.endpoint {
        ReadEndpoint::Revision => {
            assert(path.skip(47) =~= "/revision"@);
        },
        ReadEndpoint::Runs { page: _, raw_query: None } => {
            assert(path.skip(47) =~= "/runs"@);
        },
        ReadEndpoint::Runs { page: _, raw_query: Some(query) } => {
            if query@.len() == 0 {
                assert(path.skip(47) =~= "/runs"@);
            } else {
                assert(path.subrange(47, 52) =~= "/runs"@);
                assert(path.skip(53) =~= query@);
            }
        },
        ReadEndpoint::Approvals { run_id } => {
            law_uuid_texts_tell_uuids_apart(run_id, run_id);
            assert(path.subrange(47, 53) =~= "/runs/"@);
            assert(path.subrange(53, 89) =~= uuid_text(run_id@));
            assert(path.skip(89) =~= "/approvals"@);
        },
    }
}

/// A signature for one read is good for no other: reads of the same path are of
/// the same workflow, of the same kind, and for the same run or query.
pub proof fn law_read_paths_tell_reads_apart(a: ReadCall, b: ReadCall)
    requires
        read_path(a) == read_path(b),
    ensures
        a.workflow_id == b.workflow_id,
        a.endpoint is Revision <==> b.endpoint is Revision,
        a.endpoint is Approvals <==> b.endpoint is Approvals,
        a.endpoint matches ReadEndpoint::Approvals { run_id } ==> b.endpoint
            == (ReadEndpoint::Approvals { run_id }),
        a.endpoint matches ReadEndpoint::Runs { page: _, raw_query } ==> (b.endpoint matches
            ReadEndpoint::Runs { page: _, raw_query: other } ==> query_sent(raw_query)
            == query_sent(other)),
{
    law_read_paths_name_what_is_read(a);
    law_read_paths_name_what_is_read(b);
    law_uuid_texts_tell_uuids_apart(a.workflow_id, b.workflow_id);
    reveal_strlit("/revision");
    reveal_strlit("/runs");
    reveal_strlit("/runs/");
    reveal_strlit("/approvals");
    let path = read_path(a);
    lemma_second_letter(a);
    lemma_second_letter(b);
    if let (ReadEndpoint::Approvals { run_id: x }, ReadEndpoint::Approvals { run_id: y }) = (
        a.endpoint,
        b.endpoint,
    ) {
        law_uuid_texts_tell_uuids_apart(x, y);
    }
    if let (
        ReadEndpoint::Runs { page: _, raw_query: x },
        ReadEndpoint::Runs { page: _, raw_query: y },
    ) = (a.endpoint, b.endpoint) {
        assert(path.skip(53) == path.skip(53));
    }
}

/// What of a query is sent: an empty one is none.
pub open spec fn query_sent(raw_query: Option<String>) -> Seq<char> {
    match raw_query {
        Some(query) => query@,
        None => Seq::empty(),
    }
}

/// Where the paths of reads part.
proof fn lemma_second_letter(call: ReadCall)
    ensures
        ({
            let path = read_path(call);
            match call.endpoint {
                ReadEndpoint::Revision => path.len() == 56 && path[49] == 'e',
                ReadEndpoint::Approvals { run_id: _ } => path.len() == 99 && path[49] == 'u'
                    && path[52] == '/',
                ReadEndpoint::Runs { page: _, raw_query } => path[49] == 'u' && if query_sent(
                    raw_query,
                ).len() == 0 {
                    path.len() == 52
                } else {
                    path.len() == 53 + query_sent(raw_query).len() && path[52] == '?' && path.skip(53)
                        == query_sent(raw_query)
                },
            }
        }),
{
    law_read_paths_name_what_is_read(call);
    law_uuid_texts_tell_uuids_apart(call.workflow_id, call.workflow_id);
    reveal_strlit("/workflows/");
    reveal_strlit("/revision");
    reveal_strlit("/runs");
    reveal_strlit("/runs/");
    reveal_strlit("/approvals");
    let path = read_path(call);
    match call.endpoint {
        ReadEndpoint::Revision => {
            assert(path.skip(47)[2] == 'e');
        },
        ReadEndpoint::Approvals { run_id } => {
            law_uuid_texts_tell_uuids_apart(run_id, run_id);
            assert(path.subrange(47, 53)[2] == 'u');
            assert(path.subrange(47, 53)[5] == '/');
        },
        ReadEndpoint::Runs { page: _, raw_query } => {
            if query_sent(raw_query).len() == 0 {
                assert(path.skip(47)[2] == 'u');
            } else {
                assert(path.subrange(47, 52)[2] == 'u');
            }
        },
    }
}

} // verus!
