//! The relay's workflow endpoints: requests, records, and the rules on them.

use vstd::prelude::*;

use crate::event::{
    event_id_of, lemma_event_id_exists, lemma_event_id_of, lemma_key_view_injective, Event,
    EventId, PublicKey,
};
use crate::hex_text::hex_32;
use crate::ids::{CommunityId, TenantContext, Uuid};
use crate::text::{bytes_eq, is_blank, text_of};
use crate::workflow_delivery::{
    WorkflowDeliveryBinding, WorkflowDeliveryCause, WorkflowDeliveryId,
};

verus! {

pub const STATUS_BAD_REQUEST: u16 = 400;

pub const STATUS_FORBIDDEN: u16 = 403;

pub const STATUS_NOT_FOUND: u16 = 404;

pub const STATUS_CONFLICT: u16 = 409;

/// Why a request gets no answer.
#[derive(Debug, PartialEq, Eq)]
pub enum ApiError {
    /// The request is refused, with a status and a message for its sender.
    Refused { status: u16, message: String },
    /// The relay failed; the message is for its log.
    Internal { message: String },
}

/// What an error says.
pub enum ErrorView {
    Refused { status: u16, message: Seq<char> },
    Internal { message: Seq<char> },
}

impl View for ApiError {
    type V = ErrorView;

    open spec fn view(&self) -> ErrorView {
        match *self {
            ApiError::Refused { status, message } => ErrorView::Refused {
                status,
                message: message@,
            },
            ApiError::Internal { message } => ErrorView::Internal { message: message@ },
        }
    }
}

/// A refusal with this status and message.
pub open spec fn refusal(status: u16, message: Seq<char>) -> ErrorView {
    ErrorView::Refused { status, message }
}

/// A failure of the relay: what it was about, and the error itself.
pub open spec fn failure(context: Seq<char>, error: Seq<char>) -> ErrorView {
    ErrorView::Internal { message: context + error }
}

/// A refusal with this status and message.
pub fn api_error(status: u16, message: &str) -> (error: ApiError)
    ensures
        error@ == refusal(status, message@),
{
    ApiError::Refused { status, message: message.to_owned() }
}

/// A failure of the relay: what it was about, and the error itself.
pub fn internal_error(context: &str, error: &str) -> (failed: ApiError)
    ensures
        failed@ == failure(context@, error@),
{
    ApiError::Internal { message: context.to_owned().concat(error) }
}

/// An instant: Unix seconds, and nanoseconds within the second.
#[derive(Clone, Copy, Debug, PartialEq, Eq, Structural)]
pub struct Timestamp {
    pub seconds: i64,
    pub nanos: u32,
}

impl Timestamp {
    /// This instant is the other one or a later one.
    pub open spec fn at_or_after(self, other: Timestamp) -> bool {
        self.seconds > other.seconds || (self.seconds == other.seconds && self.nanos >= other.nanos)
    }

    /// Whether this instant is the other one or a later one.
    pub fn is_at_or_after(self, other: Timestamp) -> (r: bool)
        ensures
            r == self.at_or_after(other),
    {
        self.seconds > other.seconds || (self.seconds == other.seconds && self.nanos >= other.nanos)
    }
}

/// Pagination query for workflow run history.
#[derive(Debug)]
pub struct RunsQuery {
    pub before: Option<Timestamp>,
    pub before_id: Option<Uuid>,
    pub limit: Option<i64>,
}

impl Default for RunsQuery {
    fn default() -> (query: RunsQuery)
        ensures
            query.before is None,
            query.before_id is None,
            query.limit is None,
    {
        RunsQuery { before: None, before_id: None, limit: None }
    }
}

/// Full immutable selector for a specific durable delivery.
#[derive(Debug)]
pub struct DeliveryBindingRequest {
    pub community_id: Uuid,
    pub workflow_id: Uuid,
    pub run_id: Uuid,
    pub step_id: String,
    pub target_pubkey: String,
    pub definition_event_id: String,
    pub message_event_id: String,
    pub cause: DeliveryCauseRequest,
}

/// Trigger authority identity carried by a delivery binding.
#[derive(Debug)]
pub enum DeliveryCauseRequest {
    /// Exact signed event which caused the run.
    Event {
        /// Trigger event identifier.
        event_id: String,
    },
    /// Exact scheduled firing slot which caused the run.
    Schedule {
        /// Authoritative Unix-second schedule slot.
        scheduled_for_unix_seconds: i64,
    },
    /// Opaque server-side webhook invocation identity.
    Webhook {
        /// Invocation identifier; no webhook secret or payload.
        invocation_id: Uuid,
    },
}

/// Request to claim a specific delivery or poll the oldest pending delivery.
#[derive(Debug)]
pub struct ClaimDeliveryRequest {
    pub delivery_id: Option<Uuid>,
    pub expected: Option<DeliveryBindingRequest>,
    pub lease_seconds: i64,
}

/// Fenced lease capability presented to read a delivery.
#[derive(Debug)]
pub struct DeliveryLeaseRequest {
    pub lease_generation: i64,
    pub binding: DeliveryBindingRequest,
}

/// Request to extend a delivery lease.
#[derive(Debug)]
pub struct RenewDeliveryRequest {
    pub lease_generation: i64,
    pub binding: DeliveryBindingRequest,
    pub lease_seconds: i64,
}

/// Terminal disposition for a delivery.
#[derive(Clone, Copy, Debug, PartialEq, Eq, Structural)]
pub enum DeliveryDisposition {
    /// Delivery work completed successfully.
    Finished,
    /// Delivery work failed permanently.
    Failed,
}

/// Request to settle a delivery under its fenced lease.
#[derive(Debug)]
pub struct FinishDeliveryRequest {
    pub lease_generation: i64,
    pub binding: DeliveryBindingRequest,
    pub disposition: DeliveryDisposition,
}

/// Where a delivery stands.
#[derive(Clone, Copy, Debug, PartialEq, Eq, Structural)]
pub enum WorkflowDeliveryStatus {
    Pending,
    Claimed,
    Finished,
    Failed,
}

/// The outcome that settles a delivery.
#[derive(Clone, Copy, Debug, PartialEq, Eq, Structural)]
pub enum WorkflowDeliveryOutcome {
    Finished,
    Failed,
}

/// One durable delivery.
#[derive(Debug)]
pub struct WorkflowAgentDeliveryRecord {
    pub id: WorkflowDeliveryId,
    pub binding: WorkflowDeliveryBinding,
    pub status: WorkflowDeliveryStatus,
    pub lease_generation: i64,
    pub lease_until: Option<Timestamp>,
}

/// The capability under which a delivery is read, renewed or settled.
#[derive(Clone, Copy, Debug)]
pub struct WorkflowDeliveryLease {
    pub community_id: CommunityId,
    pub delivery_id: WorkflowDeliveryId,
    pub target_pubkey: PublicKey,
    pub lease_generation: i64,
    pub lease_until: Timestamp,
}

/// What a workflow's row says of its channel, owner and revision.
#[derive(Debug)]
pub struct WorkflowRecord {
    pub channel_id: Option<Uuid>,
    pub owner_pubkey: Vec<u8>,
    pub definition_event_id: Option<Vec<u8>>,
}

/// A stored event, and the channel it is in.
#[derive(Debug)]
pub struct StoredEvent {
    pub event: Event,
    pub channel_id: Option<Uuid>,
}

/// One run of a workflow.
#[derive(Debug)]
pub struct WorkflowRunRecord {
    pub id: Uuid,
    pub workflow_id: Uuid,
    pub definition_event_id: Option<Vec<u8>>,
    /// The name of the status.
    pub status: String,
    pub current_step: i64,
    /// A JSON document.
    pub execution_trace: String,
    pub started_at: Option<Timestamp>,
    pub completed_at: Option<Timestamp>,
    pub error_code: Option<String>,
    pub error_message: Option<String>,
    pub created_at: Timestamp,
}

/// One approval that a run waits or waited for.
#[derive(Debug)]
pub struct ApprovalRecord {
    /// The hash of the approval's token.
    pub token: Vec<u8>,
    pub workflow_id: Uuid,
    pub run_id: Uuid,
    pub step_id: String,
    pub step_index: i64,
    pub approver_spec: String,
    /// The name of the status.
    pub status: String,
    pub approver_pubkey: Option<Vec<u8>>,
    pub note: Option<String>,
    pub expires_at: Timestamp,
    pub created_at: Timestamp,
}

/// The path that a request was signed for: with its query, verbatim, where that
/// is not empty.
pub open spec fn signed_path(path: Seq<char>, raw_query: Option<Seq<char>>) -> Seq<char> {
    match raw_query {
        Some(query) => if query.len() > 0 {
            path + seq!['?'] + query
        } else {
            path
        },
        None => path,
    }
}

/// The path that a request was signed for.
pub fn request_path(path: &str, raw_query: Option<&str>) -> (signed: String)
    ensures
        signed@ == signed_path(path@, text_of(raw_query)),
{
    match raw_query {
        Some(query) => {
            if query.is_empty() {
                path.to_owned()
            } else {
                proof {
                    reveal_strlit("?");
                    assert("?"@ =~= seq!['?']);
                }
                path.to_owned().concat("?").concat(query)
            }
        },
        None => path.to_owned(),
    }
}

pub const DEFAULT_RUN_LIMIT: i64 = 20;

pub const MAX_RUN_LIMIT: i64 = 100;

/// The page size that a query asks for, or why it is not a query for a page.
pub open spec fn page_limit(query: RunsQuery) -> Result<i64, ErrorView> {
    let limit = match query.limit {
        Some(limit) => limit,
        None => DEFAULT_RUN_LIMIT,
    };
    if query.before is Some != query.before_id is Some {
        Err(refusal(STATUS_BAD_REQUEST, "before and before_id must be supplied together"@))
    } else if limit < 1 || limit > MAX_RUN_LIMIT {
        Err(refusal(STATUS_BAD_REQUEST, "limit must be between 1 and 100"@))
    } else {
        Ok(limit)
    }
}

/// A page of runs that may be asked for: of 1 to 100 runs, from a cursor or from
/// the newest run on.
#[derive(Debug)]
pub struct PageRequest {
    cursor: Option<RunCursor>,
    limit: i64,
}

impl PageRequest {
    #[verifier::type_invariant]
    spec fn inv(self) -> bool {
        1 <= self.limit <= MAX_RUN_LIMIT
    }

    /// Where the page begins.
    pub closed spec fn cursor(self) -> Option<RunCursor> {
        self.cursor
    }

    /// How many runs the page holds at most.
    pub closed spec fn limit(self) -> i64 {
        self.limit
    }

    /// Where the page begins.
    pub fn get_cursor(&self) -> (cursor: Option<RunCursor>)
        ensures
            cursor == self.cursor(),
    {
        self.cursor
    }

    /// How many runs the page holds at most.
    pub fn get_limit(&self) -> (limit: i64)
        ensures
            limit == self.limit(),
            1 <= limit <= MAX_RUN_LIMIT,
    {
        proof {
            use_type_invariant(self);
        }
        self.limit
    }
}

/// The page that a query asks for.
pub fn validate_runs_query(query: &RunsQuery) -> (checked: Result<PageRequest, ApiError>)
    ensures
        match checked {
            Ok(page) => {
                &&& page_limit(*query) == Ok::<_, ErrorView>(page.limit())
                &&& match page.cursor() {
                    Some(cursor) => query.before == Some(cursor.before) && query.before_id == Some(
                        cursor.before_id,
                    ),
                    None => query.before is None && query.before_id is None,
                }
            },
            Err(error) => page_limit(*query) == Err::<i64, _>(error@),
        },
{
    let cursor: Option<RunCursor> = match (query.before, query.before_id) {
        (Some(before), Some(before_id)) => Some(RunCursor { before, before_id }),
        (None, None) => None,
        _ => {
            return Err(
                api_error(STATUS_BAD_REQUEST, "before and before_id must be supplied together"),
            );
        },
    };
    let limit: i64 = match query.limit {
        Some(limit) => limit,
        None => DEFAULT_RUN_LIMIT,
    };
    if limit < 1 || limit > MAX_RUN_LIMIT {
        return Err(api_error(STATUS_BAD_REQUEST, "limit must be between 1 and 100"));
    }
    Ok(PageRequest { cursor, limit })
}

/// A place in the run history: the instant and the identifier of a run.
#[derive(Clone, Copy, Debug)]
pub struct RunCursor {
    pub before: Timestamp,
    pub before_id: Uuid,
}

/// One page of runs, and where the next one begins.
#[derive(Debug)]
pub struct RunsPage {
    pub runs: Vec<WorkflowRunRecord>,
    pub next: Option<RunCursor>,
}

/// What a page holds.
pub struct PageView {
    pub runs: Seq<WorkflowRunRecord>,
    pub next: Option<RunCursor>,
}

impl View for RunsPage {
    type V = PageView;

    open spec fn view(&self) -> PageView {
        PageView { runs: self.runs@, next: self.next }
    }
}

/// One page out of the rows that were listed: at most `limit` of them, and a
/// cursor at the last one where rows are left over.
pub open spec fn page_of(rows: Seq<WorkflowRunRecord>, limit: int) -> PageView {
    if rows.len() > limit {
        PageView {
            runs: rows.take(limit),
            next: Some(
                RunCursor { before: rows[limit - 1].created_at, before_id: rows[limit - 1].id },
            ),
        }
    } else {
        PageView { runs: rows, next: None }
    }
}

/// One page out of the rows that were listed.
pub fn runs_page(rows: Vec<WorkflowRunRecord>, page: &PageRequest) -> (cut: RunsPage)
    ensures
        cut@ == page_of(rows@, page.limit() as int),
{
    let limit: usize = page.get_limit() as usize;
    let mut runs: Vec<WorkflowRunRecord> = rows;
    if runs.len() > limit {
        runs.truncate(limit);
        let last: &WorkflowRunRecord = &runs[limit - 1];
        let cursor: RunCursor = RunCursor { before: last.created_at, before_id: last.id };
        RunsPage { runs, next: Some(cursor) }
    } else {
        RunsPage { runs, next: None }
    }
}

/// A page never exceeds its limit, never reorders or drops a row before its end,
/// names the last row it holds as the start of the next page, and names none
/// exactly where it holds every row.
pub proof fn law_page_is_a_prefix(rows: Seq<WorkflowRunRecord>, limit: int)
    requires
        limit > 0,
    ensures
        page_of(rows, limit).runs.len() <= limit,
        page_of(rows, limit).runs.is_prefix_of(rows),
        page_of(rows, limit).next is None <==> page_of(rows, limit).runs == rows,
        page_of(rows, limit).next matches Some(cursor) ==> page_of(rows, limit).runs.len() == limit
            && cursor.before == page_of(rows, limit).runs.last().created_at && cursor.before_id
            == page_of(rows, limit).runs.last().id,
{
    if rows.len() > limit {
        assert(rows.take(limit).len() != rows.len());
    }
}

/// One row beyond the page is enough to cut it: the page of the first `limit + 1`
/// rows is the page of all of them.
pub proof fn law_one_row_beyond_the_page_is_enough(rows: Seq<WorkflowRunRecord>, limit: int)
    requires
        limit > 0,
    ensures
        rows.len() > limit ==> page_of(rows.take(limit + 1), limit) == page_of(rows, limit),
{
    if rows.len() > limit {
        assert(rows.take(limit + 1).take(limit) =~= rows.take(limit));
    }
}

pub const DEFAULT_DELIVERY_LEASE_SECONDS: i64 = 60;

pub const MIN_DELIVERY_LEASE_SECONDS: i64 = 15;

pub const MAX_DELIVERY_LEASE_SECONDS: i64 = 300;

/// The lease of a request that names none.
pub fn default_delivery_lease_seconds() -> (seconds: i64)
    ensures
        seconds == DEFAULT_DELIVERY_LEASE_SECONDS,
{
    DEFAULT_DELIVERY_LEASE_SECONDS
}

/// A lease of this length may be asked for.
pub open spec fn lease_verdict(value: i64) -> Result<i64, ErrorView> {
    if MIN_DELIVERY_LEASE_SECONDS <= value <= MAX_DELIVERY_LEASE_SECONDS {
        Ok(value)
    } else {
        Err(refusal(STATUS_BAD_REQUEST, "lease_seconds must be between 15 and 300"@))
    }
}

/// A lease of this length may be asked for.
pub fn validate_lease_seconds(value: i64) -> (checked: Result<i64, ApiError>)
    ensures
        match checked {
            Ok(seconds) => lease_verdict(value) == Ok::<_, ErrorView>(seconds),
            Err(error) => lease_verdict(value) == Err::<i64, _>(error@),
        },
{
    if value < MIN_DELIVERY_LEASE_SECONDS || value > MAX_DELIVERY_LEASE_SECONDS {
        return Err(api_error(STATUS_BAD_REQUEST, "lease_seconds must be between 15 and 300"));
    }
    Ok(value)
}

/// The event identifier that a field of a request carries.
pub open spec fn event_id_field(value: Seq<char>, field: Seq<char>) -> Result<EventId, ErrorView> {
    match hex_32(value) {
        Some(bytes) => Ok(event_id_of(bytes)),
        None => Err(refusal(STATUS_BAD_REQUEST, "invalid "@ + field)),
    }
}

/// The event identifier that a field of a request carries.
pub fn parse_event_id(value: &str, field: &str) -> (parsed: Result<EventId, ApiError>)
    ensures
        match parsed {
            Ok(id) => {
                &&& event_id_field(value@, field@) == Ok::<_, ErrorView>(id)
                &&& hex_32(value@) == Some(id@)
            },
            Err(error) => event_id_field(value@, field@) == Err::<EventId, _>(error@),
        },
{
    match EventId::from_hex(value) {
        Some(id) => {
            proof {
                lemma_event_id_of(id);
            }
            Ok(id)
        },
        None => {
            let message: String = "invalid ".to_owned().concat(field);
            Err(api_error(STATUS_BAD_REQUEST, message.as_str()))
        },
    }
}

/// The cause that a request names.
pub open spec fn requested_cause(request: DeliveryCauseRequest) -> Result<
    WorkflowDeliveryCause,
    ErrorView,
> {
    match request {
        DeliveryCauseRequest::Event { event_id } => match event_id_field(
            event_id@,
            "cause.event_id"@,
        ) {
            Ok(id) => Ok(WorkflowDeliveryCause::Event(id)),
            Err(error) => Err(error),
        },
        DeliveryCauseRequest::Schedule { scheduled_for_unix_seconds } => Ok(
            WorkflowDeliveryCause::Schedule { scheduled_for_unix_seconds },
        ),
        DeliveryCauseRequest::Webhook { invocation_id } => Ok(
            WorkflowDeliveryCause::Webhook { invocation_id },
        ),
    }
}

/// The cause is the one that the request denotes.
pub open spec fn cause_denoted(
    request: DeliveryCauseRequest,
    cause: WorkflowDeliveryCause,
) -> bool {
    match request {
        DeliveryCauseRequest::Event { event_id } => {
            cause matches WorkflowDeliveryCause::Event(id) && hex_32(event_id@) == Some(id@)
        },
        DeliveryCauseRequest::Schedule { scheduled_for_unix_seconds } => {
            cause == WorkflowDeliveryCause::Schedule { scheduled_for_unix_seconds }
        },
        DeliveryCauseRequest::Webhook { invocation_id } => {
            cause == WorkflowDeliveryCause::Webhook { invocation_id }
        },
    }
}

fn parse_cause(request: DeliveryCauseRequest) -> (parsed: Result<WorkflowDeliveryCause, ApiError>)
    ensures
        match parsed {
            Ok(cause) => requested_cause(request) == Ok::<_, ErrorView>(cause) && cause_denoted(
                request,
                cause,
            ),
            Err(error) => requested_cause(request) == Err::<WorkflowDeliveryCause, _>(error@),
        },
{
    match request {
        DeliveryCauseRequest::Event { event_id } => match parse_event_id(
            event_id.as_str(),
            "cause.event_id",
        ) {
            Ok(id) => Ok(WorkflowDeliveryCause::Event(id)),
            Err(error) => Err(error),
        },
        DeliveryCauseRequest::Schedule { scheduled_for_unix_seconds } => Ok(
            WorkflowDeliveryCause::Schedule { scheduled_for_unix_seconds },
        ),
        DeliveryCauseRequest::Webhook { invocation_id } => Ok(
            WorkflowDeliveryCause::Webhook { invocation_id },
        ),
    }
}

/// The binding that a request selects, or why it is refused. A request for
/// another community than the host's, or for another target than its sender, is
/// told that there is no such delivery.
pub open spec fn requested_binding(
    request: DeliveryBindingRequest,
    community: CommunityId,
    authenticated: PublicKey,
) -> Result<WorkflowDeliveryBinding, ErrorView> {
    if request.community_id != community.id {
        Err(refusal(STATUS_NOT_FOUND, "delivery not found"@))
    } else if hex_32(request.target_pubkey@) is None {
        Err(refusal(STATUS_BAD_REQUEST, "invalid target_pubkey"@))
    } else if hex_32(request.target_pubkey@) != Some(authenticated@) {
        Err(refusal(STATUS_NOT_FOUND, "delivery not found"@))
    } else {
        match (
            requested_cause(request.cause),
            event_id_field(request.definition_event_id@, "definition_event_id"@),
            event_id_field(request.message_event_id@, "message_event_id"@),
        ) {
            (Err(error), _, _) => Err(error),
            (_, Err(error), _) => Err(error),
            (_, _, Err(error)) => Err(error),
            (Ok(cause), Ok(definition_event_id), Ok(message_event_id)) => if is_blank(
                request.step_id@,
            ) {
                Err(refusal(STATUS_BAD_REQUEST, "invalid delivery binding"@))
            } else {
                Ok(
                    WorkflowDeliveryBinding {
                        community_id: community,
                        workflow_id: request.workflow_id,
                        run_id: request.run_id,
                        step_id: request.step_id,
                        target_pubkey: authenticated,
                        definition_event_id,
                        message_event_id,
                        cause,
                    },
                )
            },
        }
    }
}

/// The binding that a request selects.
pub fn parse_delivery_binding(
    request: DeliveryBindingRequest,
    tenant: &TenantContext,
    authenticated: PublicKey,
) -> (parsed: Result<WorkflowDeliveryBinding, ApiError>)
    ensures
        match parsed {
            Ok(binding) => {
                &&& requested_binding(request, tenant.community_id, authenticated) == Ok::<
                    _,
                    ErrorView,
                >(binding)
                &&& hex_32(request.definition_event_id@) == Some(binding.definition_event_id@)
                &&& hex_32(request.message_event_id@) == Some(binding.message_event_id@)
                &&& cause_denoted(request.cause, binding.cause)
            },
            Err(error) => requested_binding(request, tenant.community_id, authenticated) == Err::<
                WorkflowDeliveryBinding,
                _,
            >(error@),
        },
{
    if request.community_id != tenant.community().as_uuid() {
        return Err(api_error(STATUS_NOT_FOUND, "delivery not found"));
    }
    let target: PublicKey = match PublicKey::from_hex(request.target_pubkey.as_str()) {
        Some(target) => target,
        None => {
            return Err(api_error(STATUS_BAD_REQUEST, "invalid target_pubkey"));
        },
    };
    proof {
        if target@ == authenticated@ {
            lemma_key_view_injective(target, authenticated);
        }
    }
    if target != authenticated {
        return Err(api_error(STATUS_NOT_FOUND, "delivery not found"));
    }
    let cause: WorkflowDeliveryCause = parse_cause(request.cause)?;
    let definition_event_id: EventId = parse_event_id(
        request.definition_event_id.as_str(),
        "definition_event_id",
    )?;
    let message_event_id: EventId = parse_event_id(
        request.message_event_id.as_str(),
        "message_event_id",
    )?;
    match WorkflowDeliveryBinding::new(
        tenant.community(),
        request.workflow_id,
        request.run_id,
        request.step_id,
        target,
        definition_event_id,
        message_event_id,
        cause,
    ) {
        Ok(binding) => Ok(binding),
        Err(_) => Err(api_error(STATUS_BAD_REQUEST, "invalid delivery binding")),
    }
}

/// A binding that a request was granted is the host's community's, the sender's,
/// and well formed: the body of a request overrides neither.
pub proof fn law_requested_binding_is_the_senders(
    request: DeliveryBindingRequest,
    community: CommunityId,
    authenticated: PublicKey,
)
    ensures
        requested_binding(request, community, authenticated) matches Ok(binding) ==> {
            &&& binding.community_id == community
            &&& request.community_id == community.id
            &&& binding.target_pubkey == authenticated
            &&& hex_32(request.target_pubkey@) == Some(authenticated@)
            &&& binding.wf()
        },
        request.community_id != community.id ==> requested_binding(
            request,
            community,
            authenticated,
        ) == Err::<WorkflowDeliveryBinding, _>(refusal(STATUS_NOT_FOUND, "delivery not found"@)),
        request.community_id == community.id && hex_32(request.target_pubkey@) is Some && hex_32(
            request.target_pubkey@,
        ) != Some(authenticated@) ==> requested_binding(request, community, authenticated) == Err::<
            WorkflowDeliveryBinding,
            _,
        >(refusal(STATUS_NOT_FOUND, "delivery not found"@)),
{
}

/// The lease that a request presents. Its end is returned state, not the
/// sender's authority.
pub fn lease_for(
    tenant: &TenantContext,
    target: PublicKey,
    delivery_id: WorkflowDeliveryId,
    lease_generation: i64,
    now: Timestamp,
) -> (lease: WorkflowDeliveryLease)
    ensures
        lease == presented_lease(tenant.community_id, target, delivery_id, lease_generation, now),
{
    WorkflowDeliveryLease {
        community_id: tenant.community(),
        delivery_id,
        target_pubkey: target,
        lease_generation,
        lease_until: now,
    }
}

/// The lease that a request presents.
pub open spec fn presented_lease(
    community_id: CommunityId,
    target_pubkey: PublicKey,
    delivery_id: WorkflowDeliveryId,
    lease_generation: i64,
    now: Timestamp,
) -> WorkflowDeliveryLease {
    WorkflowDeliveryLease {
        community_id,
        delivery_id,
        target_pubkey,
        lease_generation,
        lease_until: now,
    }
}

/// A settled delivery has the status that the disposition asks for.
pub open spec fn settled_as(status: WorkflowDeliveryStatus, disposition: DeliveryDisposition) -> bool {
    match disposition {
        DeliveryDisposition::Finished => status == WorkflowDeliveryStatus::Finished,
        DeliveryDisposition::Failed => status == WorkflowDeliveryStatus::Failed,
    }
}

/// Whether a settled delivery has the status that the disposition asks for.
pub fn terminal_matches(status: WorkflowDeliveryStatus, disposition: DeliveryDisposition) -> (r: bool)
    ensures
        r == settled_as(status, disposition),
{
    match (status, disposition) {
        (WorkflowDeliveryStatus::Finished, DeliveryDisposition::Finished) => true,
        (WorkflowDeliveryStatus::Failed, DeliveryDisposition::Failed) => true,
        _ => false,
    }
}

/// No status settles two dispositions: a replay is acknowledged only for the
/// disposition that the delivery was settled with.
pub proof fn law_replay_needs_the_same_disposition(
    status: WorkflowDeliveryStatus,
    a: DeliveryDisposition,
    b: DeliveryDisposition,
)
    ensures
        settled_as(status, a) && settled_as(status, b) ==> a == b,
{
}

/// A delivery is claimed, and its lease has not run out.
pub open spec fn live_claim(delivery: WorkflowAgentDeliveryRecord, now: Timestamp) -> bool {
    &&& delivery.status == WorkflowDeliveryStatus::Claimed
    &&& delivery.lease_until matches Some(until) && until.at_or_after(now)
}

/// Whether a delivery is claimed, and its lease has not run out.
pub fn is_live_claim(delivery: &WorkflowAgentDeliveryRecord, now: Timestamp) -> (r: bool)
    ensures
        r == live_claim(*delivery, now),
{
    match delivery.lease_until {
        Some(until) => delivery.status == WorkflowDeliveryStatus::Claimed && until.is_at_or_after(
            now,
        ),
        None => false,
    }
}

/// The presented lease is the delivery's: the whole binding and the generation
/// agree, and the claim is live where it has to be.
pub open spec fn lease_is_current(
    delivery: WorkflowAgentDeliveryRecord,
    binding: WorkflowDeliveryBinding,
    lease_generation: i64,
    require_live_claim: bool,
    now: Timestamp,
) -> bool {
    &&& delivery.binding@ == binding@
    &&& delivery.lease_generation == lease_generation
    &&& require_live_claim ==> live_claim(delivery, now)
}

/// Whether the presented lease is the delivery's.
pub fn is_lease_current(
    delivery: &WorkflowAgentDeliveryRecord,
    binding: &WorkflowDeliveryBinding,
    lease_generation: i64,
    require_live_claim: bool,
    now: Timestamp,
) -> (r: bool)
    ensures
        r == lease_is_current(*delivery, *binding, lease_generation, require_live_claim, now),
{
    delivery.binding == *binding && delivery.lease_generation == lease_generation && (
    !require_live_claim || is_live_claim(delivery, now))
}

/// The run is of the delivery's workflow and of the revision that its binding
/// names.
pub open spec fn run_agrees(
    run: WorkflowRunRecord,
    binding: WorkflowDeliveryBinding,
) -> bool {
    &&& run.workflow_id == binding.workflow_id
    &&& run.definition_event_id matches Some(id) && id@ == binding.definition_event_id@
}

/// Whether the run is of the delivery's workflow and revision.
pub fn is_run_of_binding(run: &WorkflowRunRecord, binding: &WorkflowDeliveryBinding) -> (r: bool)
    ensures
        r == run_agrees(*run, *binding),
{
    match &run.definition_event_id {
        Some(id) => run.workflow_id == binding.workflow_id && bytes_eq(
            id.as_slice(),
            binding.definition_event_id.bytes.as_slice(),
        ),
        None => false,
    }
}

/// The delivery is the one that the lease is for, and the caller's.
pub open spec fn delivery_is_callers(
    delivery: WorkflowAgentDeliveryRecord,
    lease: WorkflowDeliveryLease,
    community: CommunityId,
    caller: PublicKey,
) -> bool {
    &&& delivery.binding.community_id == community
    &&& delivery.binding.target_pubkey == caller
    &&& delivery.id == lease.delivery_id
    &&& delivery.lease_generation == lease.lease_generation
}

/// Whether the delivery is the one that the lease is for, and the caller's.
pub fn is_callers_delivery(
    delivery: &WorkflowAgentDeliveryRecord,
    lease: &WorkflowDeliveryLease,
    tenant: &TenantContext,
    caller: &PublicKey,
) -> (r: bool)
    ensures
        r == delivery_is_callers(*delivery, *lease, tenant.community_id, *caller),
{
    delivery.binding.community_id == tenant.community() && delivery.binding.target_pubkey == *caller
        && delivery.id == lease.delivery_id && delivery.lease_generation == lease.lease_generation
}

/// A refusal carries its status and its message, and a failure what it was about
/// and then the error itself: nothing of either is lost.
pub proof fn law_errors_say_what_they_are_told(
    status: u16,
    message: Seq<char>,
    context: Seq<char>,
    error: Seq<char>,
)
    ensures
        refusal(status, message) == (ErrorView::Refused { status, message }),
        failure(context, error) matches ErrorView::Internal { message: logged } && {
            &&& logged.len() == context.len() + error.len()
            &&& context.is_prefix_of(logged)
            &&& error.is_suffix_of(logged)
        },
{
    let logged = context + error;
    assert(logged.subrange(0, context.len() as int) =~= context);
    assert(logged.subrange(context.len() as int, logged.len() as int) =~= error);
}

/// What was signed is the path and, after a question mark, the query as it came;
/// only an empty query leaves no mark.
pub proof fn law_signed_path_keeps_the_query_verbatim(path: Seq<char>, query: Seq<char>)
    ensures
        signed_path(path, None) == path,
        query.len() == 0 ==> signed_path(path, Some(query)) == path,
        query.len() > 0 ==> {
            &&& signed_path(path, Some(query)).len() == path.len() + 1 + query.len()
            &&& path.is_prefix_of(signed_path(path, Some(query)))
            &&& signed_path(path, Some(query))[path.len() as int] == '?'
            &&& query.is_suffix_of(signed_path(path, Some(query)))
        },
{
    if query.len() > 0 {
        let signed = signed_path(path, Some(query));
        assert(signed.subrange(0, path.len() as int) =~= path);
        assert(signed.subrange(path.len() as int + 1, signed.len() as int) =~= query);
    }
}

/// A query asks for a page exactly where it has both halves of a cursor or
/// neither, and a limit from 1 to 100 or none. The page is then of that many runs,
/// or of 20; any other query is a bad request, for the cursor first.
pub proof fn law_pages_are_of_1_to_100_runs(query: RunsQuery)
    ensures
        ({
            let paired = query.before is Some == query.before_id is Some;
            let sized = query.limit matches Some(limit) ==> 1 <= limit <= 100;
            match page_limit(query) {
                Ok(size) => paired && sized && match query.limit {
                    Some(limit) => size == limit,
                    None => size == 20,
                },
                Err(ErrorView::Refused { status, message }) => {
                    &&& status == 400
                    &&& !paired ==> message == "before and before_id must be supplied together"@
                    &&& paired ==> !sized && message == "limit must be between 1 and 100"@
                },
                Err(_) => false,
            }
        }),
{
}

/// A lease is of the length that was asked for, from 15 to 300 seconds; any other
/// length is a bad request.
pub proof fn law_leases_are_of_15_to_300_seconds(value: i64)
    ensures
        match lease_verdict(value) {
            Ok(seconds) => seconds == value && 15 <= value <= 300,
            Err(ErrorView::Refused { status, message }) => (value < 15 || value > 300) && status
                == 400 && message == "lease_seconds must be between 15 and 300"@,
            Err(_) => false,
        },
        DEFAULT_DELIVERY_LEASE_SECONDS == 60,
        lease_verdict(DEFAULT_DELIVERY_LEASE_SECONDS) is Ok,
{
}

/// Instants are ordered by their seconds and, within a second, by their
/// nanoseconds: of two of them one is at or after the other, and both are only
/// where they are the same.
pub proof fn law_instants_are_ordered(a: Timestamp, b: Timestamp, c: Timestamp)
    ensures
        a.seconds > b.seconds ==> a.at_or_after(b) && !b.at_or_after(a),
        a.seconds == b.seconds ==> (a.at_or_after(b) <==> a.nanos >= b.nanos),
        a.at_or_after(b) || b.at_or_after(a),
        a.at_or_after(b) && b.at_or_after(a) ==> a == b,
        a.at_or_after(b) && b.at_or_after(c) ==> a.at_or_after(c),
{
}

/// A claim is live up to the very instant at which its lease ends, and not after
/// it; what is not claimed, or has no lease, has no live claim.
pub proof fn law_claims_live_until_their_lease_ends(
    delivery: WorkflowAgentDeliveryRecord,
    now: Timestamp,
)
    ensures
        live_claim(delivery, now) ==> delivery.status is Claimed && delivery.lease_until is Some,
        delivery.status is Claimed ==> (delivery.lease_until matches Some(until) ==> {
            &&& until == now ==> live_claim(delivery, now)
            &&& until.seconds > now.seconds ==> live_claim(delivery, now)
            &&& until.seconds < now.seconds ==> !live_claim(delivery, now)
            &&& until.seconds == now.seconds ==> (live_claim(delivery, now) <==> until.nanos
                >= now.nanos)
        }),
{
}

/// A presented lease is current exactly where it names every field of the
/// delivery's binding and its generation as they stand in the row; to read or to
/// renew, the claim must live, too.
pub proof fn law_current_leases_name_the_whole_row(
    delivery: WorkflowAgentDeliveryRecord,
    binding: WorkflowDeliveryBinding,
    lease_generation: i64,
    require_live_claim: bool,
    now: Timestamp,
)
    ensures
        lease_is_current(delivery, binding, lease_generation, require_live_claim, now) <==> {
            &&& delivery.binding.community_id == binding.community_id
            &&& delivery.binding.workflow_id == binding.workflow_id
            &&& delivery.binding.run_id == binding.run_id
            &&& delivery.binding.step_id@ == binding.step_id@
            &&& delivery.binding.target_pubkey == binding.target_pubkey
            &&& delivery.binding.definition_event_id == binding.definition_event_id
            &&& delivery.binding.message_event_id == binding.message_event_id
            &&& delivery.binding.cause == binding.cause
            &&& delivery.lease_generation == lease_generation
            &&& require_live_claim ==> live_claim(delivery, now)
        },
{
}

/// A settled delivery answers to the disposition of its own status, and to no
/// other; an unsettled one answers to none.
pub proof fn law_dispositions_are_those_of_the_status(
    status: WorkflowDeliveryStatus,
    disposition: DeliveryDisposition,
)
    ensures
        settled_as(status, disposition) <==> (status is Finished && disposition is Finished)
            || (status is Failed && disposition is Failed),
{
}

/// A run agrees with a binding exactly where it is of the binding's workflow and
/// was started on the binding's revision; a run without a revision never does.
pub proof fn law_runs_agree_in_workflow_and_revision(
    run: WorkflowRunRecord,
    binding: WorkflowDeliveryBinding,
)
    ensures
        run.definition_event_id is None ==> !run_agrees(run, binding),
        run.definition_event_id matches Some(id) ==> (run_agrees(run, binding) <==> run.workflow_id
            == binding.workflow_id && id@ == binding.definition_event_id@),
{
}

/// A delivery is the caller's under a lease exactly where its community and its
/// target are the caller's, and the lease is for this delivery at its present
/// generation.
pub proof fn law_deliveries_are_their_targets(
    delivery: WorkflowAgentDeliveryRecord,
    lease: WorkflowDeliveryLease,
    community: CommunityId,
    caller: PublicKey,
)
    ensures
        delivery_is_callers(delivery, lease, community, caller) <==> {
            &&& delivery.binding.community_id == community
            &&& delivery.binding.target_pubkey == caller
            &&& lease.delivery_id == delivery.id
            &&& lease.lease_generation == delivery.lease_generation
        },
{
}

/// The lease that a request presents is for its own community, sender, delivery
/// and generation, and ends at the instant at which it was looked at: whoever
/// presents it names no end of its own.
pub proof fn law_presented_leases_are_the_requests(
    community_id: CommunityId,
    target_pubkey: PublicKey,
    delivery_id: WorkflowDeliveryId,
    lease_generation: i64,
    now: Timestamp,
)
    ensures
        ({
            let lease = presented_lease(
                community_id,
                target_pubkey,
                delivery_id,
                lease_generation,
                now,
            );
            &&& lease.community_id == community_id
            &&& lease.target_pubkey == target_pubkey
            &&& lease.delivery_id == delivery_id
            &&& lease.lease_generation == lease_generation
            &&& lease.lease_until == now
        }),
{
}

/// Every part of a request for a binding denotes what it is meant to.
pub open spec fn request_denotes(
    request: DeliveryBindingRequest,
    binding: WorkflowDeliveryBinding,
) -> bool {
    &&& request.community_id == binding.community_id.id
    &&& request.workflow_id == binding.workflow_id
    &&& request.run_id == binding.run_id
    &&& request.step_id@ == binding.step_id@
    &&& hex_32(request.target_pubkey@) == Some(binding.target_pubkey@)
    &&& hex_32(request.definition_event_id@) == Some(binding.definition_event_id@)
    &&& hex_32(request.message_event_id@) == Some(binding.message_event_id@)
    &&& match (request.cause, binding.cause) {
        (DeliveryCauseRequest::Event { event_id }, WorkflowDeliveryCause::Event(id)) => hex_32(
            event_id@,
        ) == Some(id@),
        (
            DeliveryCauseRequest::Schedule { scheduled_for_unix_seconds: a },
            WorkflowDeliveryCause::Schedule { scheduled_for_unix_seconds: b },
        ) => a == b,
        (
            DeliveryCauseRequest::Webhook { invocation_id: a },
            WorkflowDeliveryCause::Webhook { invocation_id: b },
        ) => a == b,
        _ => false,
    }
}

/// The cause of a request is one that can be read.
pub open spec fn cause_readable(cause: DeliveryCauseRequest) -> bool {
    cause matches DeliveryCauseRequest::Event { event_id } ==> hex_32(event_id@) is Some
}

/// A request is granted exactly where it is for the host's community and for its
/// own sender, and all of it can be read; the binding is then what the request
/// says, field by field. A foreign request is told that there is no such delivery,
/// and an unreadable one is told what cannot be read.
pub proof fn law_requested_binding_is_what_the_request_says(
    request: DeliveryBindingRequest,
    community: CommunityId,
    authenticated: PublicKey,
)
    ensures
        ({
            let own = request.community_id == community.id;
            let target = hex_32(request.target_pubkey@);
            let definition = hex_32(request.definition_event_id@) is Some;
            let message = hex_32(request.message_event_id@) is Some;
            let cause = cause_readable(request.cause);
            let stepped = !is_blank(request.step_id@);
            match requested_binding(request, community, authenticated) {
                Ok(binding) => {
                    &&& own && target == Some(authenticated@)
                    &&& cause && definition && message && stepped
                    &&& request_denotes(request, binding)
                    &&& binding.community_id == community
                    &&& binding.target_pubkey == authenticated
                },
                Err(ErrorView::Refused { status, message: text }) => {
                    let foreign = !own || (target is Some && target != Some(authenticated@));
                    &&& status == (if foreign {
                        404u16
                    } else {
                        400u16
                    })
                    &&& text == if foreign {
                        "delivery not found"@
                    } else if target is None {
                        "invalid target_pubkey"@
                    } else if !cause {
                        "invalid "@ + "cause.event_id"@
                    } else if !definition {
                        "invalid "@ + "definition_event_id"@
                    } else if !message {
                        "invalid "@ + "message_event_id"@
                    } else {
                        "invalid delivery binding"@
                    }
                    &&& !(own && target == Some(authenticated@) && cause && definition && message
                        && stepped)
                },
                Err(_) => false,
            }
        }),
{
    lemma_hex_32_is_an_id(request.definition_event_id@);
    lemma_hex_32_is_an_id(request.message_event_id@);
    if let DeliveryCauseRequest::Event { event_id } = request.cause {
        lemma_hex_32_is_an_id(event_id@);
    }
}

/// The bytes that 64 digits denote are those of an event identifier.
proof fn lemma_hex_32_is_an_id(text: Seq<char>)
    ensures
        hex_32(text) matches Some(bytes) ==> event_id_of(bytes)@ == bytes,
{
    if let Some(bytes) = hex_32(text) {
        lemma_event_id_exists(bytes);
    }
}

/// Two requests that are granted the same binding say the same, texts of keys and
/// events up to what they denote.
pub proof fn law_requested_bindings_tell_requests_apart(
    a: DeliveryBindingRequest,
    b: DeliveryBindingRequest,
    community: CommunityId,
    authenticated: PublicKey,
)
    requires
        requested_binding(a, community, authenticated) is Ok,
        requested_binding(b, community, authenticated) is Ok,
        requested_binding(a, community, authenticated)->Ok_0@ == requested_binding(
            b,
            community,
            authenticated,
        )->Ok_0@,
    ensures
        a.community_id == b.community_id,
        a.workflow_id == b.workflow_id,
        a.run_id == b.run_id,
        a.step_id@ == b.step_id@,
        hex_32(a.target_pubkey@) == hex_32(b.target_pubkey@),
        hex_32(a.definition_event_id@) == hex_32(b.definition_event_id@),
        hex_32(a.message_event_id@) == hex_32(b.message_event_id@),
{
    law_requested_binding_is_what_the_request_says(a, community, authenticated);
    law_requested_binding_is_what_the_request_says(b, community, authenticated);
}

} // verus!
