//! The JSON objects that the relay's endpoints answer with, member by member.

use vstd::prelude::*;

use crate::deliveries::DeliveryAnswer;
use crate::event::{lemma_event_id_view_injective, lemma_key_view_injective, Event};
use crate::hex_text::{hex_encode, hex_text, lemma_encode_decode};
use crate::ids::{law_uuid_texts_tell_uuids_apart, uuid_text, Uuid};
use crate::run_reads::ReadAnswer;
use crate::text::text_eq;
use crate::workflow_api::{
    ApprovalRecord, RunCursor, RunsPage, Timestamp, WorkflowAgentDeliveryRecord, WorkflowDeliveryLease,
    WorkflowRunRecord,
};
use crate::workflow_delivery::WorkflowDeliveryCause;

verus! {

/// A value that is no object.
#[derive(Debug, PartialEq, Eq)]
pub enum WireScalar {
    Null,
    Bool(bool),
    Int(i64),
    Text(String),
    /// An instant, written out in full.
    Time(Timestamp),
    /// A JSON document, to be put in as it is.
    Json(String),
}

/// A named value that is no object.
#[derive(Debug, PartialEq, Eq)]
pub struct WireField {
    pub name: &'static str,
    pub value: WireScalar,
}

/// A value: a scalar, or an object of scalars.
#[derive(Debug, PartialEq, Eq)]
pub enum WireValue {
    Scalar(WireScalar),
    Object(Vec<WireField>),
}

/// A named value.
#[derive(Debug, PartialEq, Eq)]
pub struct WireMember {
    pub name: &'static str,
    pub value: WireValue,
}

/// An object, whose members have different names.
#[derive(Debug, PartialEq, Eq)]
pub struct WireObject {
    pub members: Vec<WireMember>,
}

/// What a scalar says.
pub enum ScalarView {
    Null,
    Bool(bool),
    Int(int),
    Text(Seq<char>),
    Time(Timestamp),
    Json(Seq<char>),
}

/// What a value says.
pub enum ValueView {
    Scalar(ScalarView),
    Object(Seq<(Seq<char>, ScalarView)>),
}

impl View for WireScalar {
    type V = ScalarView;

    open spec fn view(&self) -> ScalarView {
        match *self {
            WireScalar::Null => ScalarView::Null,
            WireScalar::Bool(b) => ScalarView::Bool(b),
            WireScalar::Int(n) => ScalarView::Int(n as int),
            WireScalar::Text(text) => ScalarView::Text(text@),
            WireScalar::Time(time) => ScalarView::Time(time),
            WireScalar::Json(document) => ScalarView::Json(document@),
        }
    }
}

/// What a list of fields says.
pub open spec fn fields_view(fields: Seq<WireField>) -> Seq<(Seq<char>, ScalarView)> {
    fields.map_values(|field: WireField| (field.name@, field.value@))
}

impl View for WireValue {
    type V = ValueView;

    open spec fn view(&self) -> ValueView {
        match *self {
            WireValue::Scalar(scalar) => ValueView::Scalar(scalar@),
            WireValue::Object(fields) => ValueView::Object(fields_view(fields@)),
        }
    }
}

impl View for WireObject {
    type V = Seq<(Seq<char>, ValueView)>;

    open spec fn view(&self) -> Seq<(Seq<char>, ValueView)> {
        self.members@.map_values(|member: WireMember| (member.name@, member.value@))
    }
}

/// The names in an object, in their order.
pub open spec fn member_names(object: Seq<(Seq<char>, ValueView)>) -> Seq<Seq<char>> {
    object.map_values(|member: (Seq<char>, ValueView)| member.0)
}

impl WireObject {
    /// The first value of this name.
    pub fn get(&self, name: &str) -> (found: Option<&WireValue>)
        ensures
            match found {
                Some(value) => exists|k: int|
                    {
                        &&& 0 <= k < self@.len()
                        &&& #[trigger] self@[k] == (name@, value@)
                        &&& forall|j: int| 0 <= j < k ==> (#[trigger] self@[j]).0 != name@
                    },
                None => !member_names(self@).contains(name@),
            },
    {
        let n: usize = self.members.len();
        let mut i: usize = 0;
        while i < n
            invariant
                n == self.members.len(),
                i <= n,
                forall|j: int| 0 <= j < i ==> (#[trigger] self@[j]).0 != name@,
            decreases n - i,
        {
            assert(self@[i as int] == (self.members@[i as int].name@, self.members@[i as int].value@));
            if text_eq(self.members[i].name, name) {
                return Some(&self.members[i].value);
            }
            i += 1;
        }
        assert forall|k: int| 0 <= k < self@.len() implies #[trigger] member_names(self@)[k]
            != name@ by {
            assert(self@[k].0 != name@);
        }
        None
    }
}

/// A text.
pub open spec fn text_value(text: Seq<char>) -> ValueView {
    ValueView::Scalar(ScalarView::Text(text))
}

/// A number.
pub open spec fn int_value(n: int) -> ValueView {
    ValueView::Scalar(ScalarView::Int(n))
}

/// An instant, written out in full.
pub open spec fn time_value(time: Timestamp) -> ValueView {
    ValueView::Scalar(ScalarView::Time(time))
}

/// A text, or nothing.
pub open spec fn optional_text(text: Option<String>) -> ValueView {
    match text {
        Some(text) => text_value(text@),
        None => ValueView::Scalar(ScalarView::Null),
    }
}

/// An instant in Unix seconds, or nothing.
pub open spec fn optional_seconds(time: Option<Timestamp>) -> ValueView {
    match time {
        Some(time) => int_value(time.seconds as int),
        None => ValueView::Scalar(ScalarView::Null),
    }
}

/// The hexadecimal text of some bytes, or nothing.
pub open spec fn optional_hex(bytes: Option<Vec<u8>>) -> ValueView {
    match bytes {
        Some(bytes) => text_value(hex_encode(bytes@)),
        None => ValueView::Scalar(ScalarView::Null),
    }
}

fn text_member(name: &'static str, text: String) -> (member: WireMember)
    ensures
        member.name@ == name@,
        member.value@ == text_value(text@),
{
    WireMember { name, value: WireValue::Scalar(WireScalar::Text(text)) }
}

fn uuid_member(name: &'static str, id: Uuid) -> (member: WireMember)
    ensures
        member.name@ == name@,
        member.value@ == text_value(uuid_text(id@)),
{
    text_member(name, id.to_string())
}

fn int_member(name: &'static str, n: i64) -> (member: WireMember)
    ensures
        member.name@ == name@,
        member.value@ == int_value(n as int),
{
    WireMember { name, value: WireValue::Scalar(WireScalar::Int(n)) }
}

fn time_member(name: &'static str, time: Timestamp) -> (member: WireMember)
    ensures
        member.name@ == name@,
        member.value@ == time_value(time),
{
    WireMember { name, value: WireValue::Scalar(WireScalar::Time(time)) }
}

fn null_member(name: &'static str) -> (member: WireMember)
    ensures
        member.name@ == name@,
        member.value@ == ValueView::Scalar(ScalarView::Null),
{
    WireMember { name, value: WireValue::Scalar(WireScalar::Null) }
}

fn optional_text_member(name: &'static str, text: &Option<String>) -> (member: WireMember)
    ensures
        member.name@ == name@,
        member.value@ == optional_text(*text),
{
    match text {
        Some(text) => text_member(name, text.clone()),
        None => null_member(name),
    }
}

fn optional_seconds_member(name: &'static str, time: Option<Timestamp>) -> (member: WireMember)
    ensures
        member.name@ == name@,
        member.value@ == optional_seconds(time),
{
    match time {
        Some(time) => int_member(name, time.seconds),
        None => null_member(name),
    }
}

fn optional_hex_member(name: &'static str, bytes: &Option<Vec<u8>>) -> (member: WireMember)
    ensures
        member.name@ == name@,
        member.value@ == optional_hex(*bytes),
{
    match bytes {
        Some(bytes) => text_member(name, hex_text(bytes.as_slice())),
        None => null_member(name),
    }
}

/// The cause of a delivery, as it goes over the wire.
pub open spec fn cause_wire(cause: WorkflowDeliveryCause) -> Seq<(Seq<char>, ScalarView)> {
    match cause {
        WorkflowDeliveryCause::Event(event_id) => seq![
            ("kind"@, ScalarView::Text("event"@)),
            ("event_id"@, ScalarView::Text(hex_encode(event_id@))),
        ],
        WorkflowDeliveryCause::Schedule { scheduled_for_unix_seconds } => seq![
            ("kind"@, ScalarView::Text("schedule"@)),
            ("scheduled_for_unix_seconds"@, ScalarView::Int(scheduled_for_unix_seconds as int)),
        ],
        WorkflowDeliveryCause::Webhook { invocation_id } => seq![
            ("kind"@, ScalarView::Text("webhook"@)),
            ("invocation_id"@, ScalarView::Text(uuid_text(invocation_id@))),
        ],
    }
}

/// The cause of a delivery, as it goes over the wire.
pub fn delivery_cause_json(cause: &WorkflowDeliveryCause) -> (wire: WireValue)
    ensures
        wire@ == ValueView::Object(cause_wire(*cause)),
{
    let mut fields: Vec<WireField> = Vec::new();
    match cause {
        WorkflowDeliveryCause::Event(event_id) => {
            fields.push(WireField { name: "kind", value: WireScalar::Text("event".to_owned()) });
            fields.push(
                WireField { name: "event_id", value: WireScalar::Text(event_id.to_hex()) },
            );
        },
        WorkflowDeliveryCause::Schedule { scheduled_for_unix_seconds } => {
            fields.push(WireField { name: "kind", value: WireScalar::Text("schedule".to_owned()) });
            fields.push(
                WireField {
                    name: "scheduled_for_unix_seconds",
                    value: WireScalar::Int(*scheduled_for_unix_seconds),
                },
            );
        },
        WorkflowDeliveryCause::Webhook { invocation_id } => {
            fields.push(WireField { name: "kind", value: WireScalar::Text("webhook".to_owned()) });
            fields.push(
                WireField {
                    name: "invocation_id",
                    value: WireScalar::Text(invocation_id.to_string()),
                },
            );
        },
    }
    assert(fields_view(fields@) =~= cause_wire(*cause));
    WireValue::Object(fields)
}

/// A delivery under its lease, as it goes over the wire.
pub open spec fn delivery_wire(
    delivery: WorkflowAgentDeliveryRecord,
    lease: WorkflowDeliveryLease,
) -> Seq<(Seq<char>, ValueView)> {
    seq![
        ("id"@, text_value(uuid_text(delivery.id@@))),
        ("community_id"@, text_value(uuid_text(delivery.binding.community_id.id@))),
        ("workflow_id"@, text_value(uuid_text(delivery.binding.workflow_id@))),
        ("run_id"@, text_value(uuid_text(delivery.binding.run_id@))),
        ("step_id"@, text_value(delivery.binding.step_id@)),
        ("target_pubkey"@, text_value(hex_encode(delivery.binding.target_pubkey@))),
        ("definition_event_id"@, text_value(hex_encode(delivery.binding.definition_event_id@))),
        ("message_event_id"@, text_value(hex_encode(delivery.binding.message_event_id@))),
        ("cause"@, ValueView::Object(cause_wire(delivery.binding.cause))),
        ("lease_generation"@, int_value(lease.lease_generation as int)),
        ("lease_until"@, time_value(lease.lease_until)),
    ]
}

/// A delivery under its lease, as it goes over the wire.
pub fn delivery_json(
    delivery: &WorkflowAgentDeliveryRecord,
    lease: &WorkflowDeliveryLease,
) -> (wire: WireObject)
    ensures
        wire@ == delivery_wire(*delivery, *lease),
{
    let mut members: Vec<WireMember> = Vec::new();
    members.push(uuid_member("id", delivery.id.as_uuid()));
    members.push(uuid_member("community_id", delivery.binding.community_id.as_uuid()));
    members.push(uuid_member("workflow_id", delivery.binding.workflow_id));
    members.push(uuid_member("run_id", delivery.binding.run_id));
    members.push(text_member("step_id", delivery.binding.step_id.clone()));
    members.push(text_member("target_pubkey", delivery.binding.target_pubkey.to_hex()));
    members.push(
        text_member("definition_event_id", delivery.binding.definition_event_id.to_hex()),
    );
    members.push(text_member("message_event_id", delivery.binding.message_event_id.to_hex()));
    members.push(
        WireMember { name: "cause", value: delivery_cause_json(&delivery.binding.cause) },
    );
    members.push(int_member("lease_generation", lease.lease_generation));
    members.push(time_member("lease_until", lease.lease_until));
    let wire: WireObject = WireObject { members };
    assert(wire@ =~= delivery_wire(*delivery, *lease));
    wire
}

/// A run, as it goes over the wire.
pub open spec fn run_wire(run: WorkflowRunRecord) -> Seq<(Seq<char>, ValueView)> {
    seq![
        ("id"@, text_value(uuid_text(run.id@))),
        ("workflow_id"@, text_value(uuid_text(run.workflow_id@))),
        ("status"@, text_value(run.status@)),
        ("current_step"@, int_value(run.current_step as int)),
        ("execution_trace"@, ValueView::Scalar(ScalarView::Json(run.execution_trace@))),
        ("started_at"@, optional_seconds(run.started_at)),
        ("completed_at"@, optional_seconds(run.completed_at)),
        ("error_code"@, optional_text(run.error_code)),
        ("error_message"@, optional_text(run.error_message)),
        ("created_at"@, int_value(run.created_at.seconds as int)),
    ]
}

/// A run, as it goes over the wire.
pub fn run_json(run: &WorkflowRunRecord) -> (wire: WireObject)
    ensures
        wire@ == run_wire(*run),
{
    let mut members: Vec<WireMember> = Vec::new();
    members.push(uuid_member("id", run.id));
    members.push(uuid_member("workflow_id", run.workflow_id));
    members.push(text_member("status", run.status.clone()));
    members.push(int_member("current_step", run.current_step));
    members.push(
        WireMember {
            name: "execution_trace",
            value: WireValue::Scalar(WireScalar::Json(run.execution_trace.clone())),
        },
    );
    members.push(optional_seconds_member("started_at", run.started_at));
    members.push(optional_seconds_member("completed_at", run.completed_at));
    members.push(optional_text_member("error_code", &run.error_code));
    members.push(optional_text_member("error_message", &run.error_message));
    members.push(int_member("created_at", run.created_at.seconds));
    let wire: WireObject = WireObject { members };
    assert(wire@ =~= run_wire(*run));
    wire
}

/// An approval, as it goes over the wire. What stands for its token is only the
/// reference by which it is found again.
pub open spec fn approval_wire(approval: ApprovalRecord) -> Seq<(Seq<char>, ValueView)> {
    seq![
        ("approval_ref"@, text_value(hex_encode(approval.token@))),
        ("workflow_id"@, text_value(uuid_text(approval.workflow_id@))),
        ("run_id"@, text_value(uuid_text(approval.run_id@))),
        ("step_id"@, text_value(approval.step_id@)),
        ("step_index"@, int_value(approval.step_index as int)),
        ("approver_spec"@, text_value(approval.approver_spec@)),
        ("status"@, text_value(approval.status@)),
        ("approver_pubkey"@, optional_hex(approval.approver_pubkey)),
        ("note"@, optional_text(approval.note)),
        ("expires_at"@, time_value(approval.expires_at)),
        ("created_at"@, int_value(approval.created_at.seconds as int)),
    ]
}

/// An approval, as it goes over the wire.
pub fn approval_json(approval: &ApprovalRecord) -> (wire: WireObject)
    ensures
        wire@ == approval_wire(*approval),
{
    let mut members: Vec<WireMember> = Vec::new();
    members.push(text_member("approval_ref", hex_text(approval.token.as_slice())));
    members.push(uuid_member("workflow_id", approval.workflow_id));
    members.push(uuid_member("run_id", approval.run_id));
    members.push(text_member("step_id", approval.step_id.clone()));
    members.push(int_member("step_index", approval.step_index));
    members.push(text_member("approver_spec", approval.approver_spec.clone()));
    members.push(text_member("status", approval.status.clone()));
    members.push(optional_hex_member("approver_pubkey", &approval.approver_pubkey));
    members.push(optional_text_member("note", &approval.note));
    members.push(time_member("expires_at", approval.expires_at));
    members.push(int_member("created_at", approval.created_at.seconds));
    let wire: WireObject = WireObject { members };
    assert(wire@ =~= approval_wire(*approval));
    wire
}

/// Where the next page of runs begins, as it goes over the wire.
pub open spec fn cursor_wire(cursor: RunCursor) -> Seq<(Seq<char>, ValueView)> {
    seq![
        ("before"@, time_value(cursor.before)),
        ("before_id"@, text_value(uuid_text(cursor.before_id@))),
    ]
}

/// Where the next page of runs begins, as it goes over the wire.
pub fn cursor_json(cursor: &RunCursor) -> (wire: WireObject)
    ensures
        wire@ == cursor_wire(*cursor),
{
    let mut members: Vec<WireMember> = Vec::new();
    members.push(time_member("before", cursor.before));
    members.push(uuid_member("before_id", cursor.before_id));
    let wire: WireObject = WireObject { members };
    assert(wire@ =~= cursor_wire(*cursor));
    wire
}

/// The answer to a renewal, as it goes over the wire.
pub open spec fn renewed_wire(lease_until: Timestamp) -> Seq<(Seq<char>, ValueView)> {
    seq![
        ("renewed"@, ValueView::Scalar(ScalarView::Bool(true))),
        ("lease_until"@, time_value(lease_until)),
    ]
}

/// The answer to a renewal, as it goes over the wire.
pub fn renewed_json(lease_until: Timestamp) -> (wire: WireObject)
    ensures
        wire@ == renewed_wire(lease_until),
{
    let mut members: Vec<WireMember> = Vec::new();
    members.push(
        WireMember { name: "renewed", value: WireValue::Scalar(WireScalar::Bool(true)) },
    );
    members.push(time_member("lease_until", lease_until));
    let wire: WireObject = WireObject { members };
    assert(wire@ =~= renewed_wire(lease_until));
    wire
}

/// The answer to a settlement, as it goes over the wire.
pub open spec fn finished_wire(replayed: bool) -> Seq<(Seq<char>, ValueView)> {
    seq![
        ("finished"@, ValueView::Scalar(ScalarView::Bool(true))),
        ("replayed"@, ValueView::Scalar(ScalarView::Bool(replayed))),
    ]
}

/// The answer to a settlement, as it goes over the wire.
pub fn finished_json(replayed: bool) -> (wire: WireObject)
    ensures
        wire@ == finished_wire(replayed),
{
    let mut members: Vec<WireMember> = Vec::new();
    members.push(
        WireMember { name: "finished", value: WireValue::Scalar(WireScalar::Bool(true)) },
    );
    members.push(
        WireMember { name: "replayed", value: WireValue::Scalar(WireScalar::Bool(replayed)) },
    );
    let wire: WireObject = WireObject { members };
    assert(wire@ =~= finished_wire(replayed));
    wire
}

/// A value in an answer: nothing, an object, a list of objects, or a signed event
/// as it stands.
#[derive(Debug, PartialEq, Eq)]
pub enum AnswerValue {
    Null,
    Object(WireObject),
    List(Vec<WireObject>),
    Event(Event),
}

/// A named value in an answer.
#[derive(Debug, PartialEq, Eq)]
pub struct AnswerMember {
    pub name: &'static str,
    pub value: AnswerValue,
}

/// What an endpoint answers with: a signed event as it stands, an object, or an
/// object of objects and events.
#[derive(Debug, PartialEq, Eq)]
pub enum WireAnswer {
    Event(Event),
    Object(WireObject),
    Members(Vec<AnswerMember>),
}

/// What a value in an answer says.
pub enum AnswerValueView {
    Null,
    Object(Seq<(Seq<char>, ValueView)>),
    List(Seq<Seq<(Seq<char>, ValueView)>>),
    Event(Event),
}

/// What an answer says.
pub enum AnswerView {
    Event(Event),
    Object(Seq<(Seq<char>, ValueView)>),
    Members(Seq<(Seq<char>, AnswerValueView)>),
}

impl View for AnswerValue {
    type V = AnswerValueView;

    open spec fn view(&self) -> AnswerValueView {
        match *self {
            AnswerValue::Null => AnswerValueView::Null,
            AnswerValue::Object(object) => AnswerValueView::Object(object@),
            AnswerValue::List(objects) => AnswerValueView::List(
                objects@.map_values(|object: WireObject| object@),
            ),
            AnswerValue::Event(event) => AnswerValueView::Event(event),
        }
    }
}

impl View for WireAnswer {
    type V = AnswerView;

    open spec fn view(&self) -> AnswerView {
        match *self {
            WireAnswer::Event(event) => AnswerView::Event(event),
            WireAnswer::Object(object) => AnswerView::Object(object@),
            WireAnswer::Members(members) => AnswerView::Members(
                members@.map_values(|member: AnswerMember| (member.name@, member.value@)),
            ),
        }
    }
}

/// The answer to an agent, as it goes over the wire.
pub open spec fn delivery_answer_wire(answer: DeliveryAnswer) -> AnswerView {
    match answer {
        DeliveryAnswer::Delivery { delivery, held, definition, message, receipt } => {
            AnswerView::Members(
                seq![
                    ("delivery"@, AnswerValueView::Object(delivery_wire(delivery, held))),
                    ("definition_event"@, AnswerValueView::Event(definition)),
                    ("message_event"@, AnswerValueView::Event(message)),
                    ("receipt_event"@, AnswerValueView::Event(receipt)),
                ],
            )
        },
        DeliveryAnswer::Renewed { lease_until } => AnswerView::Object(renewed_wire(lease_until)),
        DeliveryAnswer::Finished { replayed } => AnswerView::Object(finished_wire(replayed)),
    }
}

/// The answer to an agent, as it goes over the wire.
pub fn delivery_answer_json(answer: DeliveryAnswer) -> (wire: WireAnswer)
    ensures
        wire@ == delivery_answer_wire(answer),
{
    match answer {
        DeliveryAnswer::Delivery { delivery, held, definition, message, receipt } => {
            let mut members: Vec<AnswerMember> = Vec::new();
            members.push(
                AnswerMember {
                    name: "delivery",
                    value: AnswerValue::Object(delivery_json(&delivery, &held)),
                },
            );
            members.push(
                AnswerMember { name: "definition_event", value: AnswerValue::Event(definition) },
            );
            members.push(AnswerMember { name: "message_event", value: AnswerValue::Event(message) });
            members.push(AnswerMember { name: "receipt_event", value: AnswerValue::Event(receipt) });
            let wire: WireAnswer = WireAnswer::Members(members);
            assert(wire@->Members_0 =~= delivery_answer_wire(answer)->Members_0);
            wire
        },
        DeliveryAnswer::Renewed { lease_until } => WireAnswer::Object(renewed_json(lease_until)),
        DeliveryAnswer::Finished { replayed } => WireAnswer::Object(finished_json(replayed)),
    }
}

/// Runs, as they go over the wire.
pub open spec fn runs_wire(runs: Seq<WorkflowRunRecord>) -> Seq<Seq<(Seq<char>, ValueView)>> {
    runs.map_values(|run: WorkflowRunRecord| run_wire(run))
}

/// Approvals, as they go over the wire.
pub open spec fn approvals_wire(
    approvals: Seq<ApprovalRecord>,
) -> Seq<Seq<(Seq<char>, ValueView)>> {
    approvals.map_values(|approval: ApprovalRecord| approval_wire(approval))
}

/// The answer to a reader, as it goes over the wire.
pub open spec fn read_answer_wire(answer: ReadAnswer) -> AnswerView {
    match answer {
        ReadAnswer::Revision(event) => AnswerView::Event(event),
        ReadAnswer::Runs(page) => AnswerView::Members(
            seq![
                ("runs"@, AnswerValueView::List(runs_wire(page.runs@))),
                (
                    "next"@,
                    match page.next {
                        Some(cursor) => AnswerValueView::Object(cursor_wire(cursor)),
                        None => AnswerValueView::Null,
                    },
                ),
            ],
        ),
        ReadAnswer::Approvals(approvals) => AnswerView::Members(
            seq![("approvals"@, AnswerValueView::List(approvals_wire(approvals@)))],
        ),
    }
}

fn runs_value(runs: &Vec<WorkflowRunRecord>) -> (value: AnswerValue)
    ensures
        value@ == AnswerValueView::List(runs_wire(runs@)),
{
    let mut objects: Vec<WireObject> = Vec::new();
    let n: usize = runs.len();
    let mut i: usize = 0;
    while i < n
        invariant
            n == runs.len(),
            i <= n,
            objects.len() == i,
            forall|k: int| 0 <= k < i ==> (#[trigger] objects@[k])@ == run_wire(runs@[k]),
        decreases n - i,
    {
        objects.push(run_json(&runs[i]));
        i += 1;
    }
    let value: AnswerValue = AnswerValue::List(objects);
    assert(value@->List_0 =~= runs_wire(runs@));
    value
}

fn approvals_value(approvals: &Vec<ApprovalRecord>) -> (value: AnswerValue)
    ensures
        value@ == AnswerValueView::List(approvals_wire(approvals@)),
{
    let mut objects: Vec<WireObject> = Vec::new();
    let n: usize = approvals.len();
    let mut i: usize = 0;
    while i < n
        invariant
            n == approvals.len(),
            i <= n,
            objects.len() == i,
            forall|k: int| 0 <= k < i ==> (#[trigger] objects@[k])@ == approval_wire(approvals@[k]),
        decreases n - i,
    {
        objects.push(approval_json(&approvals[i]));
        i += 1;
    }
    let value: AnswerValue = AnswerValue::List(objects);
    assert(value@->List_0 =~= approvals_wire(approvals@));
    value
}

/// The answer to a reader, as it goes over the wire.
pub fn read_answer_json(answer: ReadAnswer) -> (wire: WireAnswer)
    ensures
        wire@ == read_answer_wire(answer),
{
    match answer {
        ReadAnswer::Revision(event) => WireAnswer::Event(event),
        ReadAnswer::Runs(page) => {
            let next: AnswerValue = match &page.next {
                Some(cursor) => AnswerValue::Object(cursor_json(cursor)),
                None => AnswerValue::Null,
            };
            let mut members: Vec<AnswerMember> = Vec::new();
            members.push(AnswerMember { name: "runs", value: runs_value(&page.runs) });
            members.push(AnswerMember { name: "next", value: next });
            let wire: WireAnswer = WireAnswer::Members(members);
            assert(wire@->Members_0 =~= read_answer_wire(answer)->Members_0);
            wire
        },
        ReadAnswer::Approvals(approvals) => {
            let mut members: Vec<AnswerMember> = Vec::new();
            members.push(AnswerMember { name: "approvals", value: approvals_value(&approvals) });
            let wire: WireAnswer = WireAnswer::Members(members);
            assert(wire@->Members_0 =~= read_answer_wire(answer)->Members_0);
            wire
        },
    }
}

/// The names in an answer, in their order.
pub open spec fn answer_names(members: Seq<(Seq<char>, AnswerValueView)>) -> Seq<Seq<char>> {
    members.map_values(|member: (Seq<char>, AnswerValueView)| member.0)
}

/// The members of the answer with a delivery.
pub open spec fn delivery_answer_names() -> Seq<Seq<char>> {
    seq!["delivery"@, "definition_event"@, "message_event"@, "receipt_event"@]
}

/// An agent that claims or reads gets the delivery with its signed public
/// artifacts and nothing of the run beside it: the answer has exactly these
/// members, each once.
pub proof fn law_delivery_answer_excludes_run_state(
    delivery: WorkflowAgentDeliveryRecord,
    held: WorkflowDeliveryLease,
    definition: Event,
    message: Event,
    receipt: Event,
)
    ensures
        delivery_answer_wire(
            DeliveryAnswer::Delivery { delivery, held, definition, message, receipt },
        ) matches AnswerView::Members(members) && answer_names(members) == delivery_answer_names(),
        delivery_answer_names().no_duplicates(),
        !delivery_answer_names().contains("execution_trace"@),
        !delivery_answer_names().contains("trigger_context"@),
        !delivery_answer_names().contains("webhook_fields"@),
{
    let names = delivery_answer_names();
    let answer = DeliveryAnswer::Delivery { delivery, held, definition, message, receipt };
    assert(answer_names(delivery_answer_wire(answer)->Members_0) =~= names);
    reveal_strlit("delivery");
    reveal_strlit("definition_event");
    reveal_strlit("message_event");
    reveal_strlit("receipt_event");
    reveal_strlit("execution_trace");
    reveal_strlit("trigger_context");
    reveal_strlit("webhook_fields");
    assert(names[0].len() == 8 && names[0][0] == 'd');
    assert(names[1].len() == 16 && names[1][0] == 'd');
    assert(names[2].len() == 13 && names[2][0] == 'm');
    assert(names[3].len() == 13 && names[3][0] == 'r');
}

/// The object of a delivery shows its identity and its lease, and nothing else of
/// the delivery or of the run: it has exactly these members, each once, and two
/// deliveries that agree in identity and lease look the same, whatever their
/// status.
pub proof fn law_delivery_wire_excludes_run_state(
    delivery: WorkflowAgentDeliveryRecord,
    lease: WorkflowDeliveryLease,
    other: WorkflowAgentDeliveryRecord,
    other_lease: WorkflowDeliveryLease,
)
    ensures
        member_names(delivery_wire(delivery, lease)) == delivery_names(),
        delivery_names().no_duplicates(),
        !delivery_names().contains("execution_trace"@),
        !delivery_names().contains("trigger_context"@),
        !delivery_names().contains("webhook_fields"@),
        delivery.id == other.id && delivery.binding@ == other.binding@ && lease.lease_generation
            == other_lease.lease_generation && lease.lease_until == other_lease.lease_until
            ==> delivery_wire(delivery, lease) == delivery_wire(other, other_lease),
{
    let names = delivery_names();
    assert(member_names(delivery_wire(delivery, lease)) =~= names);
    reveal_strlit("id");
    reveal_strlit("community_id");
    reveal_strlit("workflow_id");
    reveal_strlit("run_id");
    reveal_strlit("step_id");
    reveal_strlit("target_pubkey");
    reveal_strlit("definition_event_id");
    reveal_strlit("message_event_id");
    reveal_strlit("cause");
    reveal_strlit("lease_generation");
    reveal_strlit("lease_until");
    reveal_strlit("execution_trace");
    reveal_strlit("trigger_context");
    reveal_strlit("webhook_fields");
    assert(names[0].len() == 2 && names[0][0] == 'i');
    assert(names[1].len() == 12 && names[1][0] == 'c');
    assert(names[2].len() == 11 && names[2][0] == 'w');
    assert(names[3].len() == 6 && names[3][0] == 'r');
    assert(names[4].len() == 7 && names[4][0] == 's');
    assert(names[5].len() == 13 && names[5][0] == 't');
    assert(names[6].len() == 19 && names[6][0] == 'd');
    assert(names[7].len() == 16 && names[7][0] == 'm');
    assert(names[8].len() == 5 && names[8][0] == 'c');
    assert(names[9].len() == 16 && names[9][0] == 'l');
    assert(names[10].len() == 11 && names[10][0] == 'l');
}

/// The members of a delivery's object.
pub open spec fn delivery_names() -> Seq<Seq<char>> {
    seq![
        "id"@,
        "community_id"@,
        "workflow_id"@,
        "run_id"@,
        "step_id"@,
        "target_pubkey"@,
        "definition_event_id"@,
        "message_event_id"@,
        "cause"@,
        "lease_generation"@,
        "lease_until"@,
    ]
}

/// The object of an approval carries the hash of the token as a reference, and
/// under no name the token: it has exactly these members, each once.
pub proof fn law_approval_wire_has_no_token(approval: ApprovalRecord)
    ensures
        member_names(approval_wire(approval)) == approval_names(),
        approval_names().no_duplicates(),
        !approval_names().contains("token"@),
        approval_wire(approval)[0] == ("approval_ref"@, text_value(hex_encode(approval.token@))),
{
    let names = approval_names();
    assert(member_names(approval_wire(approval)) =~= names);
    reveal_strlit("approval_ref");
    reveal_strlit("workflow_id");
    reveal_strlit("run_id");
    reveal_strlit("step_id");
    reveal_strlit("step_index");
    reveal_strlit("approver_spec");
    reveal_strlit("status");
    reveal_strlit("approver_pubkey");
    reveal_strlit("note");
    reveal_strlit("expires_at");
    reveal_strlit("created_at");
    reveal_strlit("token");
    assert(names[0].len() == 12 && names[0][0] == 'a');
    assert(names[1].len() == 11 && names[1][0] == 'w');
    assert(names[2].len() == 6 && names[2][0] == 'r');
    assert(names[3].len() == 7 && names[3][0] == 's');
    assert(names[4].len() == 10 && names[4][0] == 's');
    assert(names[5].len() == 13 && names[5][0] == 'a');
    assert(names[6].len() == 6 && names[6][0] == 's');
    assert(names[7].len() == 15 && names[7][0] == 'a');
    assert(names[8].len() == 4 && names[8][0] == 'n');
    assert(names[9].len() == 10 && names[9][0] == 'e');
    assert(names[10].len() == 10 && names[10][0] == 'c');
}

/// The members of an approval's object.
pub open spec fn approval_names() -> Seq<Seq<char>> {
    seq![
        "approval_ref"@,
        "workflow_id"@,
        "run_id"@,
        "step_id"@,
        "step_index"@,
        "approver_spec"@,
        "status"@,
        "approver_pubkey"@,
        "note"@,
        "expires_at"@,
        "created_at"@,
    ]
}

/// The members of a run's object.
pub open spec fn run_names() -> Seq<Seq<char>> {
    seq![
        "id"@,
        "workflow_id"@,
        "status"@,
        "current_step"@,
        "execution_trace"@,
        "started_at"@,
        "completed_at"@,
        "error_code"@,
        "error_message"@,
        "created_at"@,
    ]
}

/// The object of a run shows the run: it has exactly these members, each once, and
/// under each name stands that field of the record. An instant stands as its Unix
/// seconds, and a field that the record does not have as null.
pub proof fn law_run_object_shows_the_run(run: WorkflowRunRecord)
    ensures
        member_names(run_wire(run)) == run_names(),
        run_names().no_duplicates(),
        run_wire(run).contains(("id"@, ValueView::Scalar(ScalarView::Text(uuid_text(run.id@))))),
        run_wire(run).contains(
            ("workflow_id"@, ValueView::Scalar(ScalarView::Text(uuid_text(run.workflow_id@)))),
        ),
        run_wire(run).contains(("status"@, ValueView::Scalar(ScalarView::Text(run.status@)))),
        run_wire(run).contains(
            ("current_step"@, ValueView::Scalar(ScalarView::Int(run.current_step as int))),
        ),
        run_wire(run).contains(
            ("execution_trace"@, ValueView::Scalar(ScalarView::Json(run.execution_trace@))),
        ),
        run.started_at matches Some(at) ==> run_wire(run).contains(
            ("started_at"@, ValueView::Scalar(ScalarView::Int(at.seconds as int))),
        ),
        run.started_at is None <==> run_wire(run).contains(
            ("started_at"@, ValueView::Scalar(ScalarView::Null)),
        ),
        run.completed_at matches Some(at) ==> run_wire(run).contains(
            ("completed_at"@, ValueView::Scalar(ScalarView::Int(at.seconds as int))),
        ),
        run.completed_at is None <==> run_wire(run).contains(
            ("completed_at"@, ValueView::Scalar(ScalarView::Null)),
        ),
        run.error_code matches Some(code) ==> run_wire(run).contains(
            ("error_code"@, ValueView::Scalar(ScalarView::Text(code@))),
        ),
        run.error_code is None <==> run_wire(run).contains(
            ("error_code"@, ValueView::Scalar(ScalarView::Null)),
        ),
        run.error_message matches Some(message) ==> run_wire(run).contains(
            ("error_message"@, ValueView::Scalar(ScalarView::Text(message@))),
        ),
        run.error_message is None <==> run_wire(run).contains(
            ("error_message"@, ValueView::Scalar(ScalarView::Null)),
        ),
        run_wire(run).contains(
            ("created_at"@, ValueView::Scalar(ScalarView::Int(run.created_at.seconds as int))),
        ),
{
    let names = run_names();
    let wire = run_wire(run);
    assert(member_names(wire) =~= names);
    reveal_strlit("id");
    reveal_strlit("workflow_id");
    reveal_strlit("status");
    reveal_strlit("current_step");
    reveal_strlit("execution_trace");
    reveal_strlit("started_at");
    reveal_strlit("completed_at");
    reveal_strlit("error_code");
    reveal_strlit("error_message");
    reveal_strlit("created_at");
    assert(names[0].len() == 2);
    assert(names[1].len() == 11);
    assert(names[2].len() == 6);
    assert(names[3].len() == 12 && names[3][1] == 'u');
    assert(names[4].len() == 15);
    assert(names[5].len() == 10 && names[5][0] == 's');
    assert(names[6].len() == 12 && names[6][1] == 'o');
    assert(names[7].len() == 10 && names[7][0] == 'e');
    assert(names[8].len() == 13);
    assert(names[9].len() == 10 && names[9][0] == 'c');
    assert(names.no_duplicates());
    assert forall|i: int| 0 <= i < 10 implies #[trigger] wire[i].0 == names[i] by {
        assert(member_names(wire)[i] == wire[i].0);
    }
    assert forall|i: int| 0 <= i < 10 implies wire.contains(#[trigger] wire[i]) by {}
    lemma_one_value_under_a_name(wire, 5, ("started_at"@, ValueView::Scalar(ScalarView::Null)));
    lemma_one_value_under_a_name(wire, 6, ("completed_at"@, ValueView::Scalar(ScalarView::Null)));
    lemma_one_value_under_a_name(wire, 7, ("error_code"@, ValueView::Scalar(ScalarView::Null)));
    lemma_one_value_under_a_name(wire, 8, ("error_message"@, ValueView::Scalar(ScalarView::Null)));
    assert(wire.contains(wire[0]) && wire.contains(wire[1]) && wire.contains(wire[2]));
    assert(wire.contains(wire[3]) && wire.contains(wire[4]) && wire.contains(wire[5]));
    assert(wire.contains(wire[6]) && wire.contains(wire[7]) && wire.contains(wire[8]));
    assert(wire.contains(wire[9]));
}

/// Where the names are different, a member of a name is the one at its place.
proof fn lemma_one_value_under_a_name(
    object: Seq<(Seq<char>, ValueView)>,
    place: int,
    member: (Seq<char>, ValueView),
)
    requires
        member_names(object).no_duplicates(),
        0 <= place < object.len(),
        object[place].0 == member.0,
    ensures
        object.contains(member) <==> object[place] == member,
{
    if object.contains(member) {
        let k = object.index_of(member);
        assert(member_names(object)[k] == member.0);
        assert(member_names(object)[place] == member.0);
    }
}

/// Runs that differ in a shown field have different objects, instants up to the
/// second.
pub proof fn law_run_objects_tell_runs_apart(a: WorkflowRunRecord, b: WorkflowRunRecord)
    requires
        run_wire(a) == run_wire(b),
    ensures
        a.id == b.id,
        a.workflow_id == b.workflow_id,
        a.status@ == b.status@,
        a.current_step == b.current_step,
        a.execution_trace@ == b.execution_trace@,
        same_second(a.started_at, b.started_at),
        same_second(a.completed_at, b.completed_at),
        same_text(a.error_code, b.error_code),
        same_text(a.error_message, b.error_message),
        a.created_at.seconds == b.created_at.seconds,
{
    let (x, y) = (run_wire(a), run_wire(b));
    assert forall|i: int| 0 <= i < 10 implies #[trigger] x[i] == y[i] by {}
    assert(x[0] == y[0] && x[1] == y[1] && x[2] == y[2] && x[3] == y[3] && x[4] == y[4]);
    assert(x[5] == y[5] && x[6] == y[6] && x[7] == y[7] && x[8] == y[8] && x[9] == y[9]);
    law_uuid_texts_tell_uuids_apart(a.id, b.id);
    law_uuid_texts_tell_uuids_apart(a.workflow_id, b.workflow_id);
}

/// Both instants are in the same second, or there is neither.
pub open spec fn same_second(a: Option<Timestamp>, b: Option<Timestamp>) -> bool {
    &&& a is Some <==> b is Some
    &&& a is Some ==> a->0.seconds == b->0.seconds
}

/// Both texts are the same, or there is neither.
pub open spec fn same_text(a: Option<String>, b: Option<String>) -> bool {
    &&& a is Some <==> b is Some
    &&& a is Some ==> a->0@ == b->0@
}

/// Bytes of the same digits are the same.
proof fn lemma_hex_text_injective(a: Seq<u8>, b: Seq<u8>)
    ensures
        hex_encode(a) == hex_encode(b) ==> a == b,
{
    lemma_encode_decode(a);
    lemma_encode_decode(b);
}

/// The object of an approval shows the approval: under each name stands that field
/// of the record, keys and the token's hash as their digits, and a field that the
/// record does not have as null.
pub proof fn law_approval_object_shows_the_approval(approval: ApprovalRecord)
    ensures
        member_names(approval_wire(approval)) == approval_names(),
        approval_wire(approval).contains(
            ("approval_ref"@, ValueView::Scalar(ScalarView::Text(hex_encode(approval.token@)))),
        ),
        approval_wire(approval).contains(
            ("workflow_id"@, ValueView::Scalar(ScalarView::Text(uuid_text(approval.workflow_id@)))),
        ),
        approval_wire(approval).contains(
            ("run_id"@, ValueView::Scalar(ScalarView::Text(uuid_text(approval.run_id@)))),
        ),
        approval_wire(approval).contains(
            ("step_id"@, ValueView::Scalar(ScalarView::Text(approval.step_id@))),
        ),
        approval_wire(approval).contains(
            ("step_index"@, ValueView::Scalar(ScalarView::Int(approval.step_index as int))),
        ),
        approval_wire(approval).contains(
            ("approver_spec"@, ValueView::Scalar(ScalarView::Text(approval.approver_spec@))),
        ),
        approval_wire(approval).contains(
            ("status"@, ValueView::Scalar(ScalarView::Text(approval.status@))),
        ),
        approval.approver_pubkey matches Some(key) ==> approval_wire(approval).contains(
            ("approver_pubkey"@, ValueView::Scalar(ScalarView::Text(hex_encode(key@)))),
        ),
        approval.approver_pubkey is None ==> approval_wire(approval).contains(
            ("approver_pubkey"@, ValueView::Scalar(ScalarView::Null)),
        ),
        approval.note matches Some(note) ==> approval_wire(approval).contains(
            ("note"@, ValueView::Scalar(ScalarView::Text(note@))),
        ),
        approval.note is None ==> approval_wire(approval).contains(
            ("note"@, ValueView::Scalar(ScalarView::Null)),
        ),
        approval_wire(approval).contains(
            ("expires_at"@, ValueView::Scalar(ScalarView::Time(approval.expires_at))),
        ),
        approval_wire(approval).contains(
            ("created_at"@, ValueView::Scalar(ScalarView::Int(approval.created_at.seconds as int))),
        ),
{
    let wire = approval_wire(approval);
    assert(member_names(wire) =~= approval_names());
    assert(wire.contains(wire[0]) && wire.contains(wire[1]) && wire.contains(wire[2]));
    assert(wire.contains(wire[3]) && wire.contains(wire[4]) && wire.contains(wire[5]));
    assert(wire.contains(wire[6]) && wire.contains(wire[7]) && wire.contains(wire[8]));
    assert(wire.contains(wire[9]) && wire.contains(wire[10]));
}

/// Approvals that differ in a field have different objects, their creation up to
/// the second.
pub proof fn law_approval_objects_tell_approvals_apart(a: ApprovalRecord, b: ApprovalRecord)
    requires
        approval_wire(a) == approval_wire(b),
    ensures
        a.token@ == b.token@,
        a.workflow_id == b.workflow_id,
        a.run_id == b.run_id,
        a.step_id@ == b.step_id@,
        a.step_index == b.step_index,
        a.approver_spec@ == b.approver_spec@,
        a.status@ == b.status@,
        a.approver_pubkey is Some <==> b.approver_pubkey is Some,
        a.approver_pubkey is Some ==> a.approver_pubkey->0@ == b.approver_pubkey->0@,
        same_text(a.note, b.note),
        a.expires_at == b.expires_at,
        a.created_at.seconds == b.created_at.seconds,
{
    let (x, y) = (approval_wire(a), approval_wire(b));
    assert(x[0] == y[0] && x[1] == y[1] && x[2] == y[2] && x[3] == y[3] && x[4] == y[4]);
    assert(x[5] == y[5] && x[6] == y[6] && x[7] == y[7] && x[8] == y[8] && x[9] == y[9]);
    assert(x[10] == y[10]);
    law_uuid_texts_tell_uuids_apart(a.workflow_id, b.workflow_id);
    law_uuid_texts_tell_uuids_apart(a.run_id, b.run_id);
    lemma_hex_text_injective(a.token@, b.token@);
    if a.approver_pubkey is Some && b.approver_pubkey is Some {
        lemma_hex_text_injective(a.approver_pubkey->0@, b.approver_pubkey->0@);
    }
}

/// The object of a delivery shows its identity and its lease: under each name
/// stands that field, identifiers as their texts, the cause as an object of its
/// own, and the generation and the end of the lease that it is held under.
pub proof fn law_delivery_object_shows_the_delivery(
    delivery: WorkflowAgentDeliveryRecord,
    lease: WorkflowDeliveryLease,
)
    ensures
        member_names(delivery_wire(delivery, lease)) == delivery_names(),
        delivery_wire(delivery, lease).contains(
            ("id"@, ValueView::Scalar(ScalarView::Text(uuid_text(delivery.id.id@)))),
        ),
        delivery_wire(delivery, lease).contains(
            (
                "community_id"@,
                ValueView::Scalar(ScalarView::Text(uuid_text(delivery.binding.community_id.id@))),
            ),
        ),
        delivery_wire(delivery, lease).contains(
            (
                "workflow_id"@,
                ValueView::Scalar(ScalarView::Text(uuid_text(delivery.binding.workflow_id@))),
            ),
        ),
        delivery_wire(delivery, lease).contains(
            ("run_id"@, ValueView::Scalar(ScalarView::Text(uuid_text(delivery.binding.run_id@)))),
        ),
        delivery_wire(delivery, lease).contains(
            ("step_id"@, ValueView::Scalar(ScalarView::Text(delivery.binding.step_id@))),
        ),
        delivery_wire(delivery, lease).contains(
            (
                "target_pubkey"@,
                ValueView::Scalar(ScalarView::Text(hex_encode(delivery.binding.target_pubkey@))),
            ),
        ),
        delivery_wire(delivery, lease).contains(
            (
                "definition_event_id"@,
                ValueView::Scalar(
                    ScalarView::Text(hex_encode(delivery.binding.definition_event_id@)),
                ),
            ),
        ),
        delivery_wire(delivery, lease).contains(
            (
                "message_event_id"@,
                ValueView::Scalar(ScalarView::Text(hex_encode(delivery.binding.message_event_id@))),
            ),
        ),
        delivery_wire(delivery, lease).contains(
            ("lease_generation"@, ValueView::Scalar(ScalarView::Int(lease.lease_generation as int))),
        ),
        delivery_wire(delivery, lease).contains(
            ("lease_until"@, ValueView::Scalar(ScalarView::Time(lease.lease_until))),
        ),
        exists|cause: Seq<(Seq<char>, ScalarView)>| #[trigger]
            delivery_wire(delivery, lease).contains(("cause"@, ValueView::Object(cause)))
                && shows_cause(cause, delivery.binding.cause),
{
    let wire = delivery_wire(delivery, lease);
    assert(member_names(wire) =~= delivery_names());
    assert(wire.contains(wire[0]) && wire.contains(wire[1]) && wire.contains(wire[2]));
    assert(wire.contains(wire[3]) && wire.contains(wire[4]) && wire.contains(wire[5]));
    assert(wire.contains(wire[6]) && wire.contains(wire[7]) && wire.contains(wire[8]));
    assert(wire.contains(wire[9]) && wire.contains(wire[10]));
    law_cause_object_shows_the_cause(delivery.binding.cause);
    assert(wire.contains(("cause"@, ValueView::Object(cause_wire(delivery.binding.cause)))));
}

/// The object names the kind of the cause and its identity, and nothing else.
pub open spec fn shows_cause(
    object: Seq<(Seq<char>, ScalarView)>,
    cause: WorkflowDeliveryCause,
) -> bool {
    let kind = match cause {
        WorkflowDeliveryCause::Event(_) => "event"@,
        WorkflowDeliveryCause::Schedule { scheduled_for_unix_seconds: _ } => "schedule"@,
        WorkflowDeliveryCause::Webhook { invocation_id: _ } => "webhook"@,
    };
    let identity = match cause {
        WorkflowDeliveryCause::Event(id) => ("event_id"@, ScalarView::Text(hex_encode(id@))),
        WorkflowDeliveryCause::Schedule { scheduled_for_unix_seconds } => (
            "scheduled_for_unix_seconds"@,
            ScalarView::Int(scheduled_for_unix_seconds as int),
        ),
        WorkflowDeliveryCause::Webhook { invocation_id } => (
            "invocation_id"@,
            ScalarView::Text(uuid_text(invocation_id@)),
        ),
    };
    &&& object.len() == 2
    &&& object.contains(("kind"@, ScalarView::Text(kind)))
    &&& object.contains(identity)
}

/// The object of a cause names its kind and its identity, and causes that differ
/// have different objects.
pub proof fn law_cause_object_shows_the_cause(cause: WorkflowDeliveryCause)
    ensures
        shows_cause(cause_wire(cause), cause),
        forall|other: WorkflowDeliveryCause| #[trigger]
            cause_wire(other) == cause_wire(cause) ==> other == cause,
{
    let wire = cause_wire(cause);
    assert(wire.contains(wire[0]) && wire.contains(wire[1]));
    assert forall|other: WorkflowDeliveryCause| #[trigger]
        cause_wire(other) == cause_wire(cause) implies other == cause by {
        reveal_strlit("event");
        reveal_strlit("schedule");
        reveal_strlit("webhook");
        assert("event"@.len() != "schedule"@.len());
        assert("event"@.len() != "webhook"@.len());
        assert("schedule"@.len() != "webhook"@.len());
        assert(cause_wire(other)[0] == wire[0] && cause_wire(other)[1] == wire[1]);
        match (cause, other) {
            (WorkflowDeliveryCause::Event(a), WorkflowDeliveryCause::Event(b)) => {
                lemma_hex_text_injective(a@, b@);
                lemma_event_id_view_injective(a, b);
            },
            (
                WorkflowDeliveryCause::Webhook { invocation_id: a },
                WorkflowDeliveryCause::Webhook { invocation_id: b },
            ) => {
                law_uuid_texts_tell_uuids_apart(a, b);
            },
            _ => {},
        }
    }
}

/// Deliveries that differ in identity or lease have different objects.
pub proof fn law_delivery_objects_tell_deliveries_apart(
    a: WorkflowAgentDeliveryRecord,
    a_lease: WorkflowDeliveryLease,
    b: WorkflowAgentDeliveryRecord,
    b_lease: WorkflowDeliveryLease,
)
    requires
        delivery_wire(a, a_lease) == delivery_wire(b, b_lease),
    ensures
        a.id == b.id,
        a.binding@ == b.binding@,
        a_lease.lease_generation == b_lease.lease_generation,
        a_lease.lease_until == b_lease.lease_until,
{
    let (x, y) = (delivery_wire(a, a_lease), delivery_wire(b, b_lease));
    assert(x[0] == y[0] && x[1] == y[1] && x[2] == y[2] && x[3] == y[3] && x[4] == y[4]);
    assert(x[5] == y[5] && x[6] == y[6] && x[7] == y[7] && x[8] == y[8] && x[9] == y[9]);
    assert(x[10] == y[10]);
    law_uuid_texts_tell_uuids_apart(a.id.id, b.id.id);
    law_uuid_texts_tell_uuids_apart(a.binding.community_id.id, b.binding.community_id.id);
    law_uuid_texts_tell_uuids_apart(a.binding.workflow_id, b.binding.workflow_id);
    law_uuid_texts_tell_uuids_apart(a.binding.run_id, b.binding.run_id);
    lemma_hex_text_injective(a.binding.target_pubkey@, b.binding.target_pubkey@);
    lemma_key_view_injective(a.binding.target_pubkey, b.binding.target_pubkey);
    lemma_hex_text_injective(a.binding.definition_event_id@, b.binding.definition_event_id@);
    lemma_event_id_view_injective(a.binding.definition_event_id, b.binding.definition_event_id);
    lemma_hex_text_injective(a.binding.message_event_id@, b.binding.message_event_id@);
    lemma_event_id_view_injective(a.binding.message_event_id, b.binding.message_event_id);
    law_cause_object_shows_the_cause(b.binding.cause);
}

/// The cursor of a page stands in the page's answer whole: its instant and its
/// identifier, and no more.
pub proof fn law_cursor_object_shows_the_cursor(cursor: RunCursor)
    ensures
        cursor_wire(cursor).len() == 2,
        cursor_wire(cursor).contains(
            ("before"@, ValueView::Scalar(ScalarView::Time(cursor.before))),
        ),
        cursor_wire(cursor).contains(
            ("before_id"@, ValueView::Scalar(ScalarView::Text(uuid_text(cursor.before_id@)))),
        ),
{
    let wire = cursor_wire(cursor);
    assert(wire.contains(wire[0]) && wire.contains(wire[1]));
}

/// What an agent is told of a renewal is the new end of its lease, and of a
/// settlement whether it was a replay; beside it stands that the thing was done.
pub proof fn law_acknowledgements_say_what_was_done(lease_until: Timestamp, replayed: bool)
    ensures
        delivery_answer_wire(DeliveryAnswer::Renewed { lease_until }) matches AnswerView::Object(
            renewal,
        ) && renewal.len() == 2 && renewal.contains(
            ("renewed"@, ValueView::Scalar(ScalarView::Bool(true))),
        ) && renewal.contains(("lease_until"@, ValueView::Scalar(ScalarView::Time(lease_until)))),
        delivery_answer_wire(DeliveryAnswer::Finished { replayed }) matches AnswerView::Object(
            settlement,
        ) && settlement.len() == 2 && settlement.contains(
            ("finished"@, ValueView::Scalar(ScalarView::Bool(true))),
        ) && settlement.contains(("replayed"@, ValueView::Scalar(ScalarView::Bool(replayed)))),
{
    let renewal = renewed_wire(lease_until);
    assert(renewal.contains(renewal[0]) && renewal.contains(renewal[1]));
    let settlement = finished_wire(replayed);
    assert(settlement.contains(settlement[0]) && settlement.contains(settlement[1]));
}

/// The answer with a delivery carries the three signed events as they stand, each
/// under its own name, beside the object of the delivery under its lease.
pub proof fn law_delivery_answer_carries_the_artifacts(
    delivery: WorkflowAgentDeliveryRecord,
    held: WorkflowDeliveryLease,
    definition: Event,
    message: Event,
    receipt: Event,
)
    ensures
        delivery_answer_wire(
            DeliveryAnswer::Delivery { delivery, held, definition, message, receipt },
        ) matches AnswerView::Members(members) && {
            &&& members.len() == 4
            &&& members.contains(("delivery"@, AnswerValueView::Object(delivery_wire(delivery, held))))
            &&& members.contains(("definition_event"@, AnswerValueView::Event(definition)))
            &&& members.contains(("message_event"@, AnswerValueView::Event(message)))
            &&& members.contains(("receipt_event"@, AnswerValueView::Event(receipt)))
        },
{
    let answer = DeliveryAnswer::Delivery { delivery, held, definition, message, receipt };
    let members = delivery_answer_wire(answer)->Members_0;
    assert(members.contains(members[0]) && members.contains(members[1]));
    assert(members.contains(members[2]) && members.contains(members[3]));
}

/// A reader is answered with all that was read, in its order: the very event of
/// the revision; one object for each run of the page, and the cursor, or null
/// where there is none; one object for each approval, and an empty list where
/// there are none.
pub proof fn law_read_answer_carries_what_was_read(
    event: Event,
    page: RunsPage,
    approvals: Vec<ApprovalRecord>,
)
    ensures
        read_answer_wire(ReadAnswer::Revision(event)) == AnswerView::Event(event),
        read_answer_wire(ReadAnswer::Runs(page)) matches AnswerView::Members(members) && {
            &&& members.len() == 2
            &&& exists|runs: Seq<Seq<(Seq<char>, ValueView)>>| #[trigger]
                members.contains(("runs"@, AnswerValueView::List(runs))) && runs.len()
                    == page.runs@.len() && forall|i: int|
                    0 <= i < runs.len() ==> #[trigger] runs[i] == run_wire(page.runs@[i])
            &&& page.next matches Some(cursor) ==> members.contains(
                ("next"@, AnswerValueView::Object(cursor_wire(cursor))),
            )
            &&& page.next is None ==> members.contains(("next"@, AnswerValueView::Null))
        },
        read_answer_wire(ReadAnswer::Approvals(approvals)) matches AnswerView::Members(members) && {
            &&& members.len() == 1
            &&& exists|listed: Seq<Seq<(Seq<char>, ValueView)>>| #[trigger]
                members.contains(("approvals"@, AnswerValueView::List(listed))) && listed.len()
                    == approvals@.len() && forall|i: int|
                    0 <= i < listed.len() ==> #[trigger] listed[i] == approval_wire(approvals@[i])
        },
{
    let members = read_answer_wire(ReadAnswer::Runs(page))->Members_0;
    assert(members.contains(members[0]) && members.contains(members[1]));
    assert(members.contains(("runs"@, AnswerValueView::List(runs_wire(page.runs@)))));
    let listed = read_answer_wire(ReadAnswer::Approvals(approvals))->Members_0;
    assert(listed.contains(listed[0]));
    assert(listed.contains(("approvals"@, AnswerValueView::List(approvals_wire(approvals@)))));
}

} // verus!
